//! Where synthesized speech is played: through the speakers, or into the
//! virtual microphone when the user routes it there.
use crate::error::VerbalixError;
use crate::ports::{AudioPreviewPort, VirtualMicOutputPort};
use crate::wav::{parse_wav, wav_contents};
use std::sync::atomic::AtomicBool;
use std::sync::Arc;
use vstd::prelude::*;

verus! {

/// Plays audio through the speakers or into the virtual microphone,
/// following a switch shared with the settings.
pub struct PlaybackRouter<S: AudioPreviewPort, V: VirtualMicOutputPort> {
    speaker: S,
    virtual_mic: V,
    route: Arc<AtomicBool>,
}

/// Reads the routing switch. Another thread may flip it at any time, so
/// nothing is known of the value read.
fn route_enabled(route: &AtomicBool) -> bool {
    route.load(std::sync::atomic::Ordering::Relaxed)
}

impl<S: AudioPreviewPort, V: VirtualMicOutputPort> PlaybackRouter<S, V> {
    pub fn new(speaker: S, virtual_mic: V, route: Arc<AtomicBool>) -> (r: Self)
        ensures
            r.speaker_view() == speaker,
            r.virtual_mic_view() == virtual_mic,
    {
        PlaybackRouter { speaker, virtual_mic, route }
    }

    pub closed spec fn speaker_view(&self) -> S {
        self.speaker
    }

    pub closed spec fn virtual_mic_view(&self) -> V {
        self.virtual_mic
    }

    /// Plays a WAV file on the chosen route. Into the virtual microphone,
    /// a file that is not canonical 16-bit PCM is refused as a playback
    /// failure and any other is queued; through the speakers, the speaker
    /// decides.
    pub fn play_routed(&self, wav_bytes: Vec<u8>, to_virtual_mic: bool) -> (r: Result<
        (),
        VerbalixError,
    >)
        ensures
            to_virtual_mic ==> (r == if wav_contents(wav_bytes@) is Some {
                Ok::<(), VerbalixError>(())
            } else {
                Err(VerbalixError::AudioPlaybackFailed)
            }),
    {
        if to_virtual_mic {
            match parse_wav(wav_bytes.as_slice()) {
                Some(pcm) => {
                    self.virtual_mic.enqueue_pcm16(pcm.samples, pcm.sample_rate, pcm.channels);
                    Ok(())
                },
                None => Err(VerbalixError::AudioPlaybackFailed),
            }
        } else {
            self.speaker.play(wav_bytes)
        }
    }
}

impl<S: AudioPreviewPort, V: VirtualMicOutputPort> AudioPreviewPort for PlaybackRouter<S, V> {
    /// Plays on the route the switch selects at the moment of the call.
    fn play(&self, wav_bytes: Vec<u8>) -> (r: Result<(), VerbalixError>) {
        let to_virtual_mic = route_enabled(&self.route);
        self.play_routed(wav_bytes, to_virtual_mic)
    }

    /// Stopping always stops the speakers.
    fn stop(&self) {
        self.speaker.stop();
    }
}

} // verus!
