//! Confirmation-gated opening of the documentation site in the default browser.
//!
//! The crate performs no input or output itself. A [`Session`] says what is to
//! be done next, the caller does it and reports what happened, and the session
//! decides how the command goes on.

pub mod answer;
pub mod error;
pub mod laws;
pub mod run;
pub mod session;

pub use answer::interpret_answer;
pub use error::DocsError;
pub use session::{command, Args, Event, Phase, Request, Session, Step, DOCS_URL};
