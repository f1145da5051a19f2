//! The dispatcher: what one inbound text does to the manager, and what is
//! sent back for it.

use crate::manager::QuizManager;
use crate::model::{QuizView, Score};
use crate::state::{BotState, QuizError};
use vstd::prelude::*;

verus! {

/// What is sent back to the channel for one inbound text.
#[derive(Debug, PartialEq, Eq)]
pub enum Reply {
    /// The prompt of the question that is now to be answered.
    Prompt(String),
    /// The quiz is over: the correct answers and the recorded answers.
    Finished { correct: usize, total: usize },
}

/// A reply as the contracts see it.
pub ghost enum ReplyView {
    Prompt(Seq<char>),
    Finished(Score),
}

impl View for Reply {
    type V = ReplyView;

    open spec fn view(&self) -> ReplyView {
        match *self {
            Reply::Prompt(text) => ReplyView::Prompt(text@),
            Reply::Finished { correct, total } => ReplyView::Finished(
                Score { correct: correct as nat, total: total as nat },
            ),
        }
    }
}

/// The view of an optional reply.
pub open spec fn reply_view(reply: Option<Reply>) -> Option<ReplyView> {
    match reply {
        Some(r) => Some(r@),
        None => None,
    }
}

/// What one inbound text leads to: the manager afterwards, and the reply.
pub ghost struct Outcome {
    pub quiz: QuizView,
    pub reply: Option<ReplyView>,
}

/// The reply that presents the active question of `quiz`, if there is one.
pub open spec fn prompt_reply(quiz: QuizView) -> Option<ReplyView> {
    match quiz.current_prompt() {
        Some(prompt) => Some(ReplyView::Prompt(prompt)),
        None => None,
    }
}

/// The rule of the dispatcher, by the state in which `text` arrives.
///
/// - `Initialized`: the start command has the active prompt sent and the
///   manager advanced; every other text is ignored.
/// - `AwaitingAnswer`: `text` is recorded as the answer and the manager is
///   advanced. If an answer is awaited again, the new prompt is sent; else
///   the score is.
/// - `Completed`, or no quiz loaded: nothing changes, nothing is sent.
pub open spec fn dispatch(quiz: QuizView, start: Seq<char>, text: Seq<char>) -> Outcome {
    match quiz.state {
        Some(BotState::Initialized) => {
            if text == start {
                Outcome { quiz: quiz.advance(), reply: prompt_reply(quiz) }
            } else {
                Outcome { quiz, reply: None }
            }
        },
        Some(BotState::AwaitingAnswer) => {
            let next = quiz.record(text).advance();
            Outcome {
                quiz: next,
                reply: match next.state {
                    Some(BotState::AwaitingAnswer) => prompt_reply(next),
                    _ => Some(ReplyView::Finished(next.score())),
                },
            }
        },
        _ => Outcome { quiz, reply: None },
    }
}

/// The manager after the texts of `texts` were dispatched one after the
/// other, the first of them first.
pub open spec fn dispatch_all(quiz: QuizView, start: Seq<char>, texts: Seq<Seq<char>>) -> QuizView
    decreases texts.len(),
{
    if texts.len() == 0 {
        quiz
    } else {
        dispatch(dispatch_all(quiz, start, texts.drop_last()), start, texts.last()).quiz
    }
}

/// Turns inbound texts into steps of a manager. It holds the start command
/// and nothing else; the manager is passed to each call.
#[derive(Debug)]
pub struct EventDispatcher {
    start_command: String,
}

impl View for EventDispatcher {
    type V = Seq<char>;

    /// The start command.
    closed spec fn view(&self) -> Seq<char> {
        self.start_command@
    }
}

impl EventDispatcher {
    /// A dispatcher that starts a quiz on `start_command`.
    pub fn new(start_command: String) -> (dispatcher: EventDispatcher)
        ensures
            dispatcher@ == start_command@,
    {
        EventDispatcher { start_command }
    }

    /// The text that starts a quiz.
    pub fn start_command(&self) -> (command: &str)
        ensures
            command@ == self@,
    {
        self.start_command.as_str()
    }

    /// Handles one inbound text: moves `manager` as `dispatch` says and
    /// returns the one reply to send, or `None` where nothing is to be sent.
    ///
    /// On a manager with a quiz this never fails. On one without, nothing
    /// changes and the call answers `QuizError::InvalidState`.
    pub fn on_message(&self, manager: &mut QuizManager, text: &str) -> (res: Result<
        Option<Reply>,
        QuizError,
    >)
        requires
            old(manager)@.wf(),
        ensures
            final(manager)@.wf(),
            final(manager)@ == dispatch(old(manager)@, self@, text@).quiz,
            match res {
                Ok(reply) => old(manager)@.state is Some && reply_view(reply) == dispatch(
                    old(manager)@,
                    self@,
                    text@,
                ).reply,
                Err(e) => old(manager)@.state is None && e == QuizError::InvalidState,
            },
    {
        match manager.state() {
            None => Err(QuizError::InvalidState),
            Some(BotState::Initialized) => {
                let given: String = text.to_owned();
                if given == self.start_command {
                    let reply = match manager.current_prompt() {
                        Some(prompt) => Some(Reply::Prompt(prompt.to_owned())),
                        None => None,
                    };
                    match manager.setNextQuestion() {
                        Ok(_) => Ok(reply),
                        Err(e) => Err(e),
                    }
                } else {
                    Ok(None)
                }
            },
            Some(BotState::AwaitingAnswer) => {
                match manager.record_answer(text) {
                    Ok(()) => {},
                    Err(e) => {
                        return Err(e);
                    },
                }
                match manager.setNextQuestion() {
                    Ok(BotState::AwaitingAnswer) => match manager.current_prompt() {
                        Some(prompt) => Ok(Some(Reply::Prompt(prompt.to_owned()))),
                        None => Ok(None),
                    },
                    Ok(_) => {
                        let (correct, total) = manager.score();
                        Ok(Some(Reply::Finished { correct, total }))
                    },
                    Err(e) => Err(e),
                }
            },
            Some(BotState::Completed) => Ok(None),
        }
    }
}

} // verus!
