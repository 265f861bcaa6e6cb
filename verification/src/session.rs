//! The checks that stand in front of ALE: every call is decided here before
//! anything reaches the C ABI, because three of ALE's failure paths end the
//! process (`std::exit`) or dereference a null pointer instead of reporting.

use vstd::prelude::*;
use vstd::string::StringSliceAdditionalSpecFns;
use crate::error::{AleError, ROM_PATH, SETTING_KEY};
use crate::text::{contains_nul, has_nul};

verus! {

/// The lowest ALE action value, `PLAYER_A_NOOP`.
pub const MIN_ACTION: i32 = 0;

/// The highest ALE action value, `PLAYER_A_DOWNLEFTFIRE`.
pub const MAX_ACTION: i32 = 17;

/// Whether `action` is one of ALE's `PLAYER_A_*` values. Any other value
/// reaches the `default:` arm of `ALEState::apply_action`, `std::exit(-1)`.
pub open spec fn action_in_range(action: int) -> bool {
    MIN_ACTION <= action <= MAX_ACTION
}

/// The verdict on an action value.
pub open spec fn action_verdict(action: i32) -> Result<(), AleError> {
    if action_in_range(action as int) {
        Ok(())
    } else {
        Err(AleError::ActionOutOfRange(action))
    }
}

/// Rejects an action value outside `0..=17`.
pub fn check_action(action: i32) -> (r: Result<(), AleError>)
    ensures
        r == action_verdict(action),
{
    if MIN_ACTION <= action && action <= MAX_ACTION {
        Ok(())
    } else {
        Err(AleError::ActionOutOfRange(action))
    }
}

/// The verdict on a path whose text, when it is valid UTF-8, is `utf8`: a
/// path that is not cannot be handed to ALE.
pub open spec fn path_verdict_of<'a>(utf8: Option<&'a str>) -> Result<&'a str, AleError> {
    match utf8 {
        Some(text) => Ok(text),
        None => Err(AleError::NonUtf8Path),
    }
}

/// Takes a path's text when it is valid UTF-8 (`utf8` is what
/// `Path::to_str` gives), else [`AleError::NonUtf8Path`].
pub fn path_verdict<'a>(utf8: Option<&'a str>) -> (r: Result<&'a str, AleError>)
    ensures
        r == path_verdict_of(utf8),
{
    match utf8 {
        Some(text) => Ok(text),
        None => Err(AleError::NonUtf8Path),
    }
}

/// The verdict on a string that must become a C string: it cannot hold a NUL
/// byte; `what` names it in the error.
pub open spec fn c_string_verdict(value: Seq<u8>, what: &'static str) -> Result<(), AleError> {
    if has_nul(value) {
        Err(AleError::InteriorNul(what))
    } else {
        Ok(())
    }
}

/// Rejects a string with a NUL byte, which cannot cross the C ABI without
/// being cut short; `what` names it in the error.
pub fn check_c_string(value: &str, what: &'static str) -> (r: Result<(), AleError>)
    ensures
        r == c_string_verdict(value.spec_bytes(), what),
{
    if contains_nul(value) {
        Err(AleError::InteriorNul(what))
    } else {
        Ok(())
    }
}

/// One request to ALE, with the arguments the checks read.
pub enum Call<'a> {
    SetInt { key: &'a str },
    SetFloat { key: &'a str },
    GetInt { key: &'a str },
    GetFloat { key: &'a str },
    SupportedRom { path: &'a str },
    LoadRom { path: &'a str },
    ResetGame,
    Act { action: i32 },
    GameOver,
    GameTruncated,
    Lives,
    FrameNumber,
    EpisodeFrameNumber,
    MinimalActionSet,
    Screen,
    ScreenGrayscale,
    ScreenRgb,
}

/// Whether `call` dereferences ALE's `environment`, which stays a null
/// pointer until a ROM is loaded. The settings and the ROM calls read only
/// what the constructor builds.
pub open spec fn needs_rom(call: Call) -> bool {
    match call {
        Call::SetInt { .. } | Call::SetFloat { .. } | Call::GetInt { .. } | Call::GetFloat { .. }
        | Call::SupportedRom { .. } | Call::LoadRom { .. } => false,
        _ => true,
    }
}

/// The verdict on `call` when a ROM is (`rom_loaded`) or is not loaded: a
/// setting key or ROM path must be free of NUL bytes; an action must be in
/// range, which is checked before the ROM; and a call that needs a ROM needs
/// one.
pub open spec fn admission(rom_loaded: bool, call: Call) -> Result<(), AleError> {
    match call {
        Call::SetInt { key } => c_string_verdict(key.spec_bytes(), SETTING_KEY),
        Call::SetFloat { key } => c_string_verdict(key.spec_bytes(), SETTING_KEY),
        Call::GetInt { key } => c_string_verdict(key.spec_bytes(), SETTING_KEY),
        Call::GetFloat { key } => c_string_verdict(key.spec_bytes(), SETTING_KEY),
        Call::SupportedRom { path } => c_string_verdict(path.spec_bytes(), ROM_PATH),
        Call::LoadRom { path } => c_string_verdict(path.spec_bytes(), ROM_PATH),
        Call::Act { action } => if !action_in_range(action as int) {
            Err(AleError::ActionOutOfRange(action))
        } else if !rom_loaded {
            Err(AleError::NoRomLoaded)
        } else {
            Ok(())
        },
        _ => if rom_loaded {
            Ok(())
        } else {
            Err(AleError::NoRomLoaded)
        },
    }
}

/// Whether a ROM is loaded after a load attempt that succeeded (`ok`) or
/// failed, from a state with (`loaded`) or without one. ALE's `environment`
/// stays valid once set, even when a later load fails.
pub open spec fn loaded_after(loaded: bool, ok: bool) -> bool {
    loaded || ok
}

/// What the library knows of one emulator instance: whether a ROM has been
/// loaded into it.
pub struct Session {
    rom_loaded: bool,
}

impl Session {
    /// Whether a load of a ROM has succeeded on this instance.
    pub closed spec fn rom_loaded(self) -> bool {
        self.rom_loaded
    }

    /// A freshly constructed instance, with no ROM.
    pub fn new() -> (s: Self)
        ensures
            !s.rom_loaded(),
    {
        Session { rom_loaded: false }
    }

    /// Whether a load of a ROM has succeeded on this instance.
    pub fn is_rom_loaded(&self) -> (loaded: bool)
        ensures
            loaded == self.rom_loaded(),
    {
        self.rom_loaded
    }

    /// `Ok` when a ROM is loaded, else [`AleError::NoRomLoaded`].
    pub fn require_rom(&self) -> (r: Result<(), AleError>)
        ensures
            r == (if self.rom_loaded() {
                Ok::<(), AleError>(())
            } else {
                Err(AleError::NoRomLoaded)
            }),
    {
        if self.rom_loaded {
            Ok(())
        } else {
            Err(AleError::NoRomLoaded)
        }
    }

    /// Decides whether `call` may go down to ALE now.
    pub fn check(&self, call: &Call) -> (r: Result<(), AleError>)
        ensures
            r == admission(self.rom_loaded(), *call),
    {
        match call {
            Call::SetInt { key } => check_c_string(key, SETTING_KEY),
            Call::SetFloat { key } => check_c_string(key, SETTING_KEY),
            Call::GetInt { key } => check_c_string(key, SETTING_KEY),
            Call::GetFloat { key } => check_c_string(key, SETTING_KEY),
            Call::SupportedRom { path } => check_c_string(path, ROM_PATH),
            Call::LoadRom { path } => check_c_string(path, ROM_PATH),
            Call::Act { action } => {
                match check_action(*action) {
                    Err(e) => Err(e),
                    Ok(()) => self.require_rom(),
                }
            },
            _ => self.require_rom(),
        }
    }

    /// Records the outcome of a call of ALE's `loadROM`.
    pub fn record_load(&mut self, outcome: &Result<(), AleError>)
        ensures
            final(self).rom_loaded() == loaded_after(old(self).rom_loaded(), outcome is Ok),
    {
        if outcome.is_ok() {
            self.rom_loaded = true;
        }
    }
}

/// The next thing to do in loading a ROM.
///
/// ALE's `loadROM` ends the process on a missing, unreadable or unknown
/// cartridge, so it is reached only after `isSupportedROM`, which reports the
/// same conditions recoverably, has accepted the file.
pub enum LoadStep {
    /// Ask ALE whether the file is a supported cartridge.
    QuerySupported,
    /// Load the file, now known to be supported.
    Load,
    /// The load is over, with this result.
    Finished(Result<(), AleError>),
}

/// The first step of loading the ROM whose path encodes as `path`.
pub open spec fn load_start(path: Seq<u8>) -> LoadStep {
    match c_string_verdict(path, ROM_PATH) {
        Ok(()) => LoadStep::QuerySupported,
        Err(e) => LoadStep::Finished(Err(e)),
    }
}

/// The step after ALE answered whether the ROM is supported.
pub open spec fn load_after_support(answer: Result<String, AleError>) -> LoadStep {
    match answer {
        Ok(_) => LoadStep::Load,
        Err(e) => LoadStep::Finished(Err(e)),
    }
}

impl Session {
    /// The first step of loading the ROM at `path`: the path must be a valid
    /// C string; then ALE is asked whether it is supported.
    pub fn begin_load(&self, path: &str) -> (step: LoadStep)
        ensures
            step == load_start(path.spec_bytes()),
    {
        match check_c_string(path, ROM_PATH) {
            Ok(()) => LoadStep::QuerySupported,
            Err(e) => LoadStep::Finished(Err(e)),
        }
    }

    /// The step after ALE answered whether the ROM is supported: its error
    /// ends the load; a supported ROM is loaded next.
    pub fn after_supported(&self, answer: Result<String, AleError>) -> (step: LoadStep)
        ensures
            step == load_after_support(answer),
    {
        match answer {
            Ok(_) => LoadStep::Load,
            Err(e) => LoadStep::Finished(Err(e)),
        }
    }

    /// The step after ALE answered the load itself: the load is over with
    /// that answer, and a ROM is loaded from now on if it succeeded.
    pub fn after_load(&mut self, answer: Result<(), AleError>) -> (step: LoadStep)
        ensures
            final(self).rom_loaded() == loaded_after(old(self).rom_loaded(), answer is Ok),
            step == LoadStep::Finished(answer),
    {
        self.record_load(&answer);
        LoadStep::Finished(answer)
    }
}

/// Whether a ROM is loaded after a run of load attempts, each of which
/// succeeded or failed, from a state with (`loaded`) or without one.
pub open spec fn loaded_after_all(loaded: bool, outcomes: Seq<bool>) -> bool
    decreases outcomes.len(),
{
    if outcomes.len() == 0 {
        loaded
    } else {
        loaded_after(loaded_after_all(loaded, outcomes.drop_last()), outcomes.last())
    }
}

/// A ROM, once loaded, stays loaded: after any run of load attempts on a
/// fresh instance a ROM is loaded exactly when one of them succeeded, and an
/// instance with a ROM keeps it whatever later loads do.
pub proof fn lemma_rom_stays_loaded(outcomes: Seq<bool>)
    ensures
        loaded_after_all(false, outcomes) == outcomes.contains(true),
        loaded_after_all(true, outcomes),
    decreases outcomes.len(),
{
    if outcomes.len() > 0 {
        let before = outcomes.drop_last();
        lemma_rom_stays_loaded(before);
        if before.contains(true) {
            let i = choose|i: int| 0 <= i < before.len() && before[i] == true;
            assert(outcomes[i] == true);
        }
        if outcomes.contains(true) && !outcomes.last() {
            let i = choose|i: int| 0 <= i < outcomes.len() && outcomes[i] == true;
            assert(before[i] == true);
        }
        if outcomes.last() {
            assert(outcomes[outcomes.len() - 1] == true);
        }
    }
}

/// Before a ROM is loaded, every call that needs one is refused with
/// [`AleError::NoRomLoaded`] instead of reaching a null `environment`; an
/// action is first checked for its range.
pub proof fn lemma_calls_before_rom_are_refused(call: Call)
    requires
        needs_rom(call),
        call matches Call::Act { action } ==> action_in_range(action as int),
    ensures
        admission(false, call) == Err::<(), AleError>(AleError::NoRomLoaded),
{
}

/// The settings and ROM calls do not depend on a loaded ROM: their verdict is
/// the same before and after one is loaded.
pub proof fn lemma_settings_need_no_rom(call: Call)
    requires
        !needs_rom(call),
    ensures
        admission(false, call) == admission(true, call),
        admission(false, call) is Err ==> admission(false, call) matches Err(AleError::InteriorNul(_)),
{
}

/// An action outside `0..=17` never reaches ALE, with or without a ROM.
pub proof fn lemma_out_of_range_action_is_rejected(rom_loaded: bool, action: i32)
    requires
        !action_in_range(action as int),
    ensures
        admission(rom_loaded, Call::Act { action }) == Err::<(), AleError>(AleError::ActionOutOfRange(action)),
{
}


/// A load reaches ALE's `loadROM` only through a supported ROM: the first
/// step never loads, and only when the path can become a C string does it
/// ask ALE anything; after the support query, the load follows exactly when
/// the answer was `Ok`.
pub proof fn lemma_load_only_after_support(path: Seq<u8>, answer: Result<String, AleError>)
    ensures
        load_start(path) != LoadStep::Load,
        load_start(path) == LoadStep::QuerySupported <==> !has_nul(path),
        load_after_support(answer) == LoadStep::Load <==> answer is Ok,
{
}

/// A failed support query ends the load with that very error, never with
/// success: whatever error ALE reported is what the load reports, and no
/// answer to the support query finishes the load successfully.
pub proof fn lemma_failed_support_query_fails_the_load(e: AleError, answer: Result<String, AleError>)
    ensures
        load_after_support(Err(e)) == LoadStep::Finished(Err(e)),
        load_after_support(answer) != LoadStep::Finished(Ok(())),
{
}

/// A setting key or ROM path is refused only for a NUL byte, whatever its
/// length or content and whether a ROM is loaded: without a NUL byte the
/// settings and ROM calls go down to ALE; with one they are refused with
/// [`AleError::InteriorNul`] naming the argument.
pub proof fn lemma_arguments_refused_only_for_nul(rom_loaded: bool, text: &str)
    ensures
        (forall|i: int| 0 <= i < text.spec_bytes().len() ==> text.spec_bytes()[i] != 0u8) ==> {
            &&& admission(rom_loaded, Call::SetInt { key: text }) == Ok::<(), AleError>(())
            &&& admission(rom_loaded, Call::SetFloat { key: text }) == Ok::<(), AleError>(())
            &&& admission(rom_loaded, Call::GetInt { key: text }) == Ok::<(), AleError>(())
            &&& admission(rom_loaded, Call::GetFloat { key: text }) == Ok::<(), AleError>(())
            &&& admission(rom_loaded, Call::SupportedRom { path: text }) == Ok::<(), AleError>(())
            &&& admission(rom_loaded, Call::LoadRom { path: text }) == Ok::<(), AleError>(())
            &&& load_start(text.spec_bytes()) == LoadStep::QuerySupported
        },
        (exists|i: int| 0 <= i < text.spec_bytes().len() && text.spec_bytes()[i] == 0u8) ==> {
            &&& admission(rom_loaded, Call::SetInt { key: text }) == Err::<(), AleError>(AleError::InteriorNul("setting key"))
            &&& admission(rom_loaded, Call::SetFloat { key: text }) == Err::<(), AleError>(AleError::InteriorNul("setting key"))
            &&& admission(rom_loaded, Call::GetInt { key: text }) == Err::<(), AleError>(AleError::InteriorNul("setting key"))
            &&& admission(rom_loaded, Call::GetFloat { key: text }) == Err::<(), AleError>(AleError::InteriorNul("setting key"))
            &&& admission(rom_loaded, Call::SupportedRom { path: text }) == Err::<(), AleError>(AleError::InteriorNul("ROM path"))
            &&& admission(rom_loaded, Call::LoadRom { path: text }) == Err::<(), AleError>(AleError::InteriorNul("ROM path"))
        },
{
    let bytes = text.spec_bytes();
    if forall|i: int| 0 <= i < bytes.len() ==> bytes[i] != 0u8 {
        assert(!bytes.contains(0u8));
    }
    if exists|i: int| 0 <= i < bytes.len() && bytes[i] == 0u8 {
        let i = choose|i: int| 0 <= i < bytes.len() && bytes[i] == 0u8;
        assert(bytes.contains(0u8));
    }
}

/// A path that is valid UTF-8 is accepted unchanged, whatever characters it
/// holds; only a path with no UTF-8 text is refused, with
/// [`AleError::NonUtf8Path`].
pub proof fn lemma_utf8_paths_are_accepted(text: &str)
    ensures
        path_verdict_of(Some(text)) == Ok::<&str, AleError>(text),
        path_verdict_of(None) == Err::<&str, AleError>(AleError::NonUtf8Path),
{
}

} // verus!
