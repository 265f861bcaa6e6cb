//! ALE's process-wide logger mode, and the rule that decides when this
//! library quiets it by default.

use vstd::prelude::*;

verus! {

/// Verbosity levels of ALE's C++ logger.
#[derive(Clone, Copy, Debug, PartialEq, Eq, Structural)]
pub enum LoggerMode {
    Info,
    Warning,
    Error,
}

/// The integer ALE's `Logger::mode` enum gives each level.
pub open spec fn mode_code(mode: LoggerMode) -> int {
    match mode {
        LoggerMode::Info => 0,
        LoggerMode::Warning => 1,
        LoggerMode::Error => 2,
    }
}

impl LoggerMode {
    /// The value handed across the C ABI for this level.
    pub fn code(self) -> (c: i32)
        ensures
            c == mode_code(self),
    {
        match self {
            LoggerMode::Info => 0,
            LoggerMode::Warning => 1,
            LoggerMode::Error => 2,
        }
    }
}


/// Whether a logger mode has been chosen in this process, either by a caller
/// through [`set_logger_mode`] or by the library's quiet default.
///
/// One value of this type stands for the whole process: the application keeps
/// it behind a lock and consults it before every change of ALE's logger.
pub struct LoggerSetting {
    chosen: bool,
}

/// What happens to ALE's logger: a caller picks a mode, or an instance is
/// constructed (which quiets the logger unless a mode was already chosen).
#[derive(Clone, Copy, Debug, PartialEq, Eq, Structural)]
pub enum LoggerEvent {
    Explicit(LoggerMode),
    Construction,
}

/// The mode applied to ALE in answer to one event, if any, from a setting
/// that has (`chosen`) or has not yet had a mode chosen. After any event a
/// mode has been chosen.
pub open spec fn applied_by(chosen: bool, event: LoggerEvent) -> Option<LoggerMode> {
    match event {
        LoggerEvent::Explicit(mode) => Some(mode),
        LoggerEvent::Construction => if chosen {
            None
        } else {
            Some(LoggerMode::Error)
        },
    }
}

impl LoggerSetting {
    /// Whether some mode has been chosen.
    pub closed spec fn chosen(self) -> bool {
        self.chosen
    }

    /// The setting of a process in which nothing has touched the logger yet.
    pub fn new() -> (s: Self)
        ensures
            !s.chosen(),
    {
        LoggerSetting { chosen: false }
    }

    /// The answer to a construction of an instance: `Some(LoggerMode::Error)`,
    /// the mode to apply, when no mode was chosen before, else `None`.
    ///
    /// ALE's constructor prints a banner at `Info`; this is what quiets it by
    /// default without overriding a caller's choice.
    pub fn on_construction(&mut self) -> (applied: Option<LoggerMode>)
        ensures
            final(self).chosen(),
            applied == applied_by(old(self).chosen(), LoggerEvent::Construction),
    {
        if self.chosen {
            None
        } else {
            self.chosen = true;
            Some(LoggerMode::Error)
        }
    }
}

/// Process-wide log verbosity for ALE's C++ logger: records that `mode` was
/// chosen and returns the mode to apply, which is `mode` itself.
///
/// Choosing any mode at all also opts out of the quiet default that
/// [`LoggerSetting::on_construction`] would otherwise apply.
pub fn set_logger_mode(setting: &mut LoggerSetting, mode: LoggerMode) -> (applied: LoggerMode)
    ensures
        final(setting).chosen(),
        Some(applied) == applied_by(old(setting).chosen(), LoggerEvent::Explicit(mode)),
        applied == mode,
{
    setting.chosen = true;
    mode
}

/// The last mode applied to ALE over a run of `events`, starting from a
/// setting that has (`chosen`) or has not had a mode chosen; `None` when no
/// event applied one, so that ALE's own default stands.
pub open spec fn last_applied(chosen: bool, events: Seq<LoggerEvent>) -> Option<LoggerMode>
    decreases events.len(),
{
    if events.len() == 0 {
        None
    } else {
        let before = events.drop_last();
        match applied_by(chosen || before.len() > 0, events.last()) {
            Some(mode) => Some(mode),
            None => last_applied(chosen, before),
        }
    }
}

/// The mode of the last explicit choice among `events`, if there is one.
pub open spec fn last_explicit(events: Seq<LoggerEvent>) -> Option<LoggerMode>
    decreases events.len(),
{
    if events.len() == 0 {
        None
    } else {
        match events.last() {
            LoggerEvent::Explicit(mode) => Some(mode),
            LoggerEvent::Construction => last_explicit(events.drop_last()),
        }
    }
}

/// The quiet default never overrides a caller: in a process that starts with
/// no mode chosen, whatever the order of explicit choices and constructions,
/// the mode in force is the last explicit choice when there is one, else
/// `Error` once anything happened, else ALE's own default.
pub proof fn lemma_default_never_overrides_explicit_choice(events: Seq<LoggerEvent>)
    ensures
        last_applied(false, events) == (match last_explicit(events) {
            Some(mode) => Some(mode),
            None => if events.len() > 0 {
                Some(LoggerMode::Error)
            } else {
                None
            },
        }),
    decreases events.len(),
{
    if events.len() > 0 {
        lemma_default_never_overrides_explicit_choice(events.drop_last());
    }
}

} // verus!
