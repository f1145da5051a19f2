//! The quiz as mathematics: a state, and the steps that lead from one state
//! to the next. The executable types are specified against these functions.

use crate::question::{has_id, valid_question_set, QuestionView};
use crate::state::BotState;
use vstd::prelude::*;

verus! {

/// What a manager holds.
pub ghost struct QuizView {
    /// The questions in the order in which they are asked.
    pub questions: Seq<QuestionView>,
    /// The place of the active question; `None` before a quiz is loaded.
    pub cursor: Option<nat>,
    /// For each answered question's id, whether the answer was correct.
    pub results: Map<i8, bool>,
    /// The state of the session; `None` before a quiz is loaded.
    pub state: Option<BotState>,
}

/// How many answers were correct, and how many were recorded.
pub ghost struct Score {
    pub correct: nat,
    pub total: nat,
}

/// The ids that `results` marks as answered correctly.
pub open spec fn correct_ids(results: Map<i8, bool>) -> Set<i8> {
    results.dom().filter(|id: i8| results[id])
}

impl QuizView {
    /// A manager that holds no quiz.
    pub open spec fn empty() -> QuizView {
        QuizView { questions: Seq::empty(), cursor: None, results: Map::empty(), state: None }
    }

    /// A manager right after `questions` were loaded.
    pub open spec fn loaded(questions: Seq<QuestionView>) -> QuizView {
        QuizView {
            questions,
            cursor: Some(0),
            results: Map::empty(),
            state: Some(BotState::Initialized),
        }
    }

    /// The invariant of a manager. Cursor and state are set together; a loaded
    /// quiz is valid; the cursor is past the last question exactly in
    /// `Completed`; and every result belongs to one of the questions.
    pub open spec fn wf(self) -> bool {
        &&& self.results.dom().finite()
        &&& forall|id: i8| self.results.dom().contains(id) ==> has_id(self.questions, id)
        &&& match self.state {
            None => self.cursor is None && self.questions.len() == 0,
            Some(state) => {
                &&& valid_question_set(self.questions)
                &&& self.cursor is Some
                &&& match state {
                    BotState::Initialized => self.cursor->0 == 0 && self.results.dom().is_empty(),
                    BotState::AwaitingAnswer => 0 < self.cursor->0 < self.questions.len(),
                    BotState::Completed => self.cursor->0 == self.questions.len(),
                }
            },
        }
    }

    /// The question at the cursor, while the quiz is running.
    pub open spec fn active_question(self) -> Option<QuestionView> {
        match (self.state, self.cursor) {
            (Some(BotState::Initialized), Some(c)) | (Some(BotState::AwaitingAnswer), Some(c)) => {
                if c < self.questions.len() {
                    Some(self.questions[c as int])
                } else {
                    None
                }
            },
            _ => None,
        }
    }

    /// The active question's prompt.
    pub open spec fn current_prompt(self) -> Option<Seq<char>> {
        match self.active_question() {
            Some(q) => Some(q.prompt),
            None => None,
        }
    }

    /// One step forward. While the quiz is running the cursor moves by one;
    /// where that leaves the questions behind, the quiz is completed. In every
    /// other state nothing changes.
    pub open spec fn advance(self) -> QuizView {
        match (self.state, self.cursor) {
            (Some(BotState::Initialized), Some(c)) | (Some(BotState::AwaitingAnswer), Some(c)) => {
                let next = c + 1;
                QuizView {
                    cursor: Some(next as nat),
                    state: Some(
                        if next < self.questions.len() {
                            BotState::AwaitingAnswer
                        } else {
                            BotState::Completed
                        },
                    ),
                    ..self
                }
            },
            _ => self,
        }
    }

    /// `advance`, `n` times over.
    pub open spec fn advance_by(self, n: nat) -> QuizView
        decreases n,
    {
        if n == 0 {
            self
        } else {
            self.advance().advance_by((n - 1) as nat)
        }
    }

    /// Whether an answer can be recorded: one is awaited, and a question is active.
    pub open spec fn accepts_answer(self) -> bool {
        self.state == Some(BotState::AwaitingAnswer) && self.active_question() is Some
    }

    /// The state after `text` was given as the answer to the active question:
    /// its id is mapped to whether `text` equals the expected answer, an
    /// earlier entry for that id being replaced. Where no answer can be
    /// recorded, nothing changes.
    pub open spec fn record(self, text: Seq<char>) -> QuizView {
        if self.accepts_answer() {
            let q = self.active_question()->0;
            QuizView { results: self.results.insert(q.id, text == q.answer), ..self }
        } else {
            self
        }
    }

    /// The correct and the recorded answers, counted.
    pub open spec fn score(self) -> Score {
        Score { correct: correct_ids(self.results).len(), total: self.results.dom().len() }
    }
}

} // verus!
