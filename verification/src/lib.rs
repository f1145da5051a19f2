//! A quiz that is asked one question at a time over a chat channel.
//!
//! [`QuizManager`] keeps the questions, the cursor and the recorded results.
//! [`EventDispatcher`] decides, for each inbound text, how the manager moves
//! and what is sent back. Every executable function is specified against the
//! mathematical model in [`model`].

pub mod dispatcher;
pub mod laws;
pub mod manager;
pub mod model;
pub mod question;
pub mod state;

pub use dispatcher::{EventDispatcher, Reply};
pub use manager::QuizManager;
pub use question::Question;
pub use state::{BotState, QuizError};
