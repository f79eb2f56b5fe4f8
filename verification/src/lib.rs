//! A small logging facility for embedding in a larger program.
//!
//! Messages carry a severity and, optionally, a tag. Each tag names a channel
//! with its own minimum severity and its own listeners; a message that the
//! channel lets through is handed to every listener of that channel, on the
//! caller's thread, before the call returns.
//!
//! A listener is attached under an identity, a number that the host picks.
//! The listeners of a channel are a set by identity: attaching under an
//! identity that the channel already holds changes nothing.

pub mod console;
pub mod error;
pub mod laws;
pub mod level;
pub mod logger;
pub mod model;
pub mod registry;

pub use console::{console_line, format_line};
pub use error::LogError;
pub use level::LogLevel;
pub use logger::{Channel, Listener, Logger, Subscriber};
pub use registry::Tweetlog;
