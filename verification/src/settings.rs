//! The Timer Service's own settings from the configuration file: Session
//! lengths in minutes, the Focus Cycle, and the reminder with its sound and
//! volume.

use crate::domain::{domain_error_text, DomainError, SessionDurations};
use crate::text::str_equal;
use vstd::prelude::*;

verus! {

/// The sound that `builtin:complete` names.
pub open spec fn built_in_sound() -> Seq<char> {
    "/usr/share/sounds/freedesktop/stereo/complete.oga"@
}

/// The settings that the Timer Service reads.
#[derive(Clone, Debug, PartialEq, Eq)]
pub struct ServiceSettings {
    pub focus_minutes: u16,
    pub short_break_minutes: u16,
    pub long_break_minutes: u16,
    pub rounds_per_cycle: u8,
    pub reminder_enabled: bool,
    pub sound: Option<String>,
    pub volume: u8,
}

impl Default for ServiceSettings {
    /// The documented defaults: 25, 5 and 15 minutes, four rounds, reminders
    /// on without a sound, at full volume.
    fn default() -> (settings: Self)
        ensures
            settings.focus_minutes == 25,
            settings.short_break_minutes == 5,
            settings.long_break_minutes == 15,
            settings.rounds_per_cycle == 4,
            settings.reminder_enabled,
            settings.sound is None,
            settings.volume == 100,
    {
        ServiceSettings {
            focus_minutes: 25,
            short_break_minutes: 5,
            long_break_minutes: 15,
            rounds_per_cycle: 4,
            reminder_enabled: true,
            sound: None,
            volume: 100,
        }
    }
}

/// What is wrong with the settings' volume or lengths, if anything.
pub open spec fn settings_error(s: ServiceSettings) -> Option<Seq<char>> {
    if s.volume > 100 {
        Some("volume must be between 0 and 100"@)
    } else if s.focus_minutes == 0 || s.short_break_minutes == 0 || s.long_break_minutes == 0 {
        Some(domain_error_text(DomainError::InvalidDuration))
    } else {
        None
    }
}

impl ServiceSettings {
    /// The Session lengths in seconds, once the volume is a percentage and
    /// every length is nonzero.
    pub fn durations(&self) -> (result: Result<SessionDurations, String>)
        ensures
            match settings_error(*self) {
                Some(m) => result matches Err(e) && e@ == m,
                None => result matches Ok(d) && d.spec_focus() == self.focus_minutes as int * 60
                    && d.spec_short_break() == self.short_break_minutes as int * 60 && d.spec_long_break()
                    == self.long_break_minutes as int * 60,
            },
    {
        if self.volume > 100 {
            return Err(String::from_str("volume must be between 0 and 100"));
        }
        match SessionDurations::new(
            self.focus_minutes as u64 * 60,
            self.short_break_minutes as u64 * 60,
            self.long_break_minutes as u64 * 60,
        ) {
            Ok(d) => Ok(d),
            Err(e) => Err(String::from_str(e.message())),
        }
    }
}

/// The sound file that a setting names.
pub open spec fn sound_file(sound: Seq<char>) -> Seq<char> {
    if sound == "builtin:complete"@ {
        built_in_sound()
    } else {
        sound
    }
}

/// The sound file that a setting names: the built-in completion sound for
/// `builtin:complete`, else the named file.
pub fn sound_path(sound: &str) -> (path: String)
    ensures
        path@ == sound_file(sound@),
{
    if str_equal(sound, "builtin:complete") {
        String::from_str("/usr/share/sounds/freedesktop/stereo/complete.oga")
    } else {
        String::from_str(sound)
    }
}

} // verus!
