//! Verified core of the Verbalix writing companion: selection state, leases,
//! preference merging, live interpretation ordering and the small rules
//! around them.
pub mod ai_readiness;
pub mod error;
pub mod text;
pub mod preferences_sync;
pub mod settings;
pub mod remote_preferences;
pub mod runtime_pause;
pub mod enrollment;
pub mod live;
mod ordered_keys;
pub mod live_queue;
pub mod ids;
pub mod selection;
pub mod transform_lease;
pub mod mutation_journal;
pub mod ports;
pub mod transform;
pub mod coordinator;
pub mod live_control;
pub mod voice_stream;
pub mod live_worker;
pub mod wav;
pub mod playback;
pub mod diagnostics;
pub mod latency;
pub mod session;
