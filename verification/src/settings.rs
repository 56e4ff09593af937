//! The user's settings and the two preference scales that the AI backend reads.
use crate::text::{replace_all, replace_text};
use vstd::prelude::*;

verus! {

#[derive(Clone, Copy, Debug, PartialEq, Eq, Structural)]
pub enum LengthPreference {
    Concise,
    Balanced,
    Detailed,
}

#[derive(Clone, Copy, Debug, PartialEq, Eq, Structural)]
pub enum TonePreference {
    Neutral,
    Friendly,
    Assertive,
    Technical,
}

/// The settings of the application. `formality`, `length`, `tone` and
/// `history_enabled` are shared with the account; the other fields belong to
/// this machine only.
#[derive(Debug, PartialEq, Eq)]
pub struct AppSettings {
    pub formality: u8,
    pub length: LengthPreference,
    pub tone: TonePreference,
    pub confirm_before_replace: bool,
    pub history_enabled: bool,
    pub automatic_toolbar: bool,
    pub shortcut: String,
    pub voice_profile_id: Option<u128>,
    pub target_language: String,
}

impl Clone for AppSettings {
    fn clone(&self) -> (r: Self)
        ensures
            r == *self,
    {
        AppSettings {
            formality: self.formality,
            length: self.length,
            tone: self.tone,
            confirm_before_replace: self.confirm_before_replace,
            history_enabled: self.history_enabled,
            automatic_toolbar: self.automatic_toolbar,
            shortcut: self.shortcut.clone(),
            voice_profile_id: self.voice_profile_id,
            target_language: self.target_language.clone(),
        }
    }
}

pub open spec fn length_code(length: LengthPreference) -> &'static str {
    match length {
        LengthPreference::Concise => "concise",
        LengthPreference::Balanced => "balanced",
        LengthPreference::Detailed => "detailed",
    }
}

pub open spec fn tone_code(tone: TonePreference) -> &'static str {
    match tone {
        TonePreference::Neutral => "neutral",
        TonePreference::Friendly => "friendly",
        TonePreference::Assertive => "assertive",
        TonePreference::Technical => "technical",
    }
}

/// The wire name of a length preference.
pub fn length_str(length: LengthPreference) -> (code: &'static str)
    ensures
        code == length_code(length),
{
    match length {
        LengthPreference::Concise => "concise",
        LengthPreference::Balanced => "balanced",
        LengthPreference::Detailed => "detailed",
    }
}

/// The wire name of a tone preference.
pub fn tone_str(tone: TonePreference) -> (code: &'static str)
    ensures
        code == tone_code(tone),
{
    match tone {
        TonePreference::Neutral => "neutral",
        TonePreference::Friendly => "friendly",
        TonePreference::Assertive => "assertive",
        TonePreference::Technical => "technical",
    }
}

/// The shortcut as the global-shortcut registry spells it: every `Option`
/// becomes `Alt`.
pub fn normalized_shortcut(shortcut: &str) -> (s: String)
    ensures
        s@ == replace_all(shortcut@, "Option"@, "Alt"@),
{
    proof {
        reveal_strlit("Option");
    }
    replace_text(shortcut, "Option", "Alt")
}

/// Two settings agree in every field.
pub open spec fn same_settings(a: AppSettings, b: AppSettings) -> bool {
    &&& a.formality == b.formality
    &&& a.length == b.length
    &&& a.tone == b.tone
    &&& a.confirm_before_replace == b.confirm_before_replace
    &&& a.history_enabled == b.history_enabled
    &&& a.automatic_toolbar == b.automatic_toolbar
    &&& a.shortcut@ == b.shortcut@
    &&& a.voice_profile_id == b.voice_profile_id
    &&& a.target_language@ == b.target_language@
}

/// Whether two settings agree in every field.
pub fn settings_equal(a: &AppSettings, b: &AppSettings) -> (r: bool)
    ensures
        r == same_settings(*a, *b),
{
    a.formality == b.formality && a.length == b.length && a.tone == b.tone
        && a.confirm_before_replace == b.confirm_before_replace && a.history_enabled
        == b.history_enabled && a.automatic_toolbar == b.automatic_toolbar
        && crate::text::same_text(a.shortcut.as_str(), b.shortcut.as_str()) && a.voice_profile_id
        == b.voice_profile_id && crate::text::same_text(
        a.target_language.as_str(),
        b.target_language.as_str(),
    )
}

/// The settings after the voice profile `id` was deleted: `None` when they
/// did not use it and need no change, else the same settings without a
/// voice profile.
pub fn without_voice_profile(settings: &AppSettings, id: u128) -> (r: Option<AppSettings>)
    ensures
        settings.voice_profile_id != Some(id) ==> r is None,
        settings.voice_profile_id == Some(id) ==> r == Some(
            AppSettings { voice_profile_id: None, ..*settings },
        ),
{
    if settings.voice_profile_id == Some(id) {
        let mut s = settings.clone();
        s.voice_profile_id = None;
        Some(s)
    } else {
        None
    }
}

} // verus!
