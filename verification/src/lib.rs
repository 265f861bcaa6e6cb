//! Verified core of a binding to the Arcade Learning Environment (ALE).
//!
//! The checks that must run before anything reaches ALE's C++ interface
//! (ROM guard, action range, C-string arguments), the interpretation of its
//! answers, the process-wide logger rule and the error type live here; the
//! foreign calls themselves belong to the application around it.

pub mod error;
pub mod logger;
pub mod outcome;
pub mod session;
pub mod text;

pub use error::AleError;
pub use logger::{set_logger_mode, LoggerMode, LoggerSetting};
pub use outcome::Screen;
pub use session::{Call, Session};
