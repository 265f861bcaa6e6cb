//! Everything that can go wrong at the boundary with ALE.

use vstd::prelude::*;
use vstd::string::StringExecFns;
use crate::text::{decimal, decode_lossy, i32_decimal, utf8_lossy};

verus! {

/// The label of a setting key in [`AleError::InteriorNul`].
pub const SETTING_KEY: &'static str = "setting key";

/// The label of a ROM path in [`AleError::InteriorNul`].
pub const ROM_PATH: &'static str = "ROM path";

/// The message of a failure that ALE reported without any text.
pub const NO_MESSAGE: &'static str = "ALE reported a failure with no message";

/// Everything that can go wrong at this boundary.
#[derive(Clone, Debug, PartialEq, Eq)]
pub enum AleError {
    /// This build has no ALE linked.
    NotLinked,
    /// `ALEInterface`'s constructor failed or allocation failed.
    ConstructionFailed,
    /// A string argument contained an interior NUL and cannot cross the C ABI.
    InteriorNul(&'static str),
    /// A path argument was not valid UTF-8.
    NonUtf8Path,
    /// An action value outside `0..=17`, the `PLAYER_A_*` range; ALE would
    /// end the process on it.
    ActionOutOfRange(i32),
    /// A method that needs a loaded ROM was called before a ROM was loaded.
    NoRomLoaded,
    /// The C++ side threw; this is `what()`, or a generic message.
    Ale(String),
}

/// The text a user reads for `err`.
pub open spec fn error_message(err: AleError) -> Seq<char> {
    match err {
        AleError::NotLinked => "ALE is not linked into this build (set ALE_ROOT to a CMake install prefix)"@,
        AleError::ConstructionFailed => "could not construct an ALEInterface"@,
        AleError::InteriorNul(what) => what@ + " contains an interior NUL byte"@,
        AleError::NonUtf8Path => "ROM path is not valid UTF-8"@,
        AleError::ActionOutOfRange(action) => "ALE action value "@ + decimal(action as int)
            + " is outside the PLAYER_A range 0..=17"@,
        AleError::NoRomLoaded => "no ROM is loaded (call load_rom first)"@,
        AleError::Ale(message) => "ALE error: "@ + message@,
    }
}

impl AleError {
    /// The text a user reads for this error (what `Display` would print).
    pub fn message(&self) -> (text: String)
        ensures
            text@ == error_message(*self),
    {
        match self {
            AleError::NotLinked => String::from_str(
                "ALE is not linked into this build (set ALE_ROOT to a CMake install prefix)",
            ),
            AleError::ConstructionFailed => String::from_str("could not construct an ALEInterface"),
            AleError::InteriorNul(what) => {
                let mut text = String::from_str(what);
                text.append(" contains an interior NUL byte");
                text
            },
            AleError::NonUtf8Path => String::from_str("ROM path is not valid UTF-8"),
            AleError::ActionOutOfRange(action) => {
                let mut text = String::from_str("ALE action value ");
                let digits = i32_decimal(*action);
                text.append(digits.as_str());
                text.append(" is outside the PLAYER_A range 0..=17");
                text
            },
            AleError::NoRomLoaded => String::from_str("no ROM is loaded (call load_rom first)"),
            AleError::Ale(message) => {
                let mut text = String::from_str("ALE error: ");
                text.append(message.as_str());
                text
            },
        }
    }
}

/// The error for a failure whose text, as ALE reported it, is `message`:
/// that text, or [`NO_MESSAGE`] when it is empty.
pub open spec fn reported_error(message: Seq<char>) -> Seq<char> {
    if message.len() == 0 {
        NO_MESSAGE@
    } else {
        message
    }
}

/// The error for a failure that ALE reported with the text `message`.
pub fn error_from_text(message: String) -> (err: AleError)
    ensures
        err matches AleError::Ale(text) && text@ == reported_error(message@),
{
    if message.as_str().is_empty() {
        AleError::Ale(String::from_str(NO_MESSAGE))
    } else {
        AleError::Ale(message)
    }
}

/// The error for a failure that ALE reported with the C string whose bytes
/// (without the terminating NUL) are `message`, decoded as UTF-8 with
/// invalid sequences replaced.
pub fn error_from_message(message: &[u8]) -> (err: AleError)
    ensures
        err matches AleError::Ale(text) && text@ == reported_error(utf8_lossy(message@)),
{
    let text = decode_lossy(message);
    error_from_text(text)
}

} // verus!
