//! The states of a quiz session and the errors of the library.

use vstd::prelude::*;

verus! {

/// Where a quiz session stands.
#[derive(Clone, Copy, Debug, PartialEq, Eq, Structural)]
pub enum BotState {
    /// The questions are loaded and the first one has not been sent yet.
    Initialized,
    /// A question has been sent and its answer is awaited.
    AwaitingAnswer,
    /// No question is left. Nothing leads out of this state.
    Completed,
}

/// Why an operation was refused.
#[derive(Clone, Copy, Debug, PartialEq, Eq, Structural)]
pub enum QuizError {
    /// The question set is empty or holds an id twice.
    Configuration,
    /// The operation is not allowed in the manager's present state.
    InvalidState,
}

} // verus!
