//! The manager: the questions, the cursor, the results and the state.

use crate::model::{correct_ids, QuizView};
use crate::question::{
    has_id, has_unique_ids, unique_ids, valid_question_set, views, Question, QuestionView,
};
use crate::state::{BotState, QuizError};
use std::collections::HashMap;
use vstd::prelude::*;

verus! {

broadcast use vstd::std_specs::hash::group_hash_axioms;

/// Owns a quiz: the questions in order, a cursor into them, the result
/// recorded for each answered question, and the state of the session.
///
/// The active question is never stored apart from the cursor: it is the
/// question at the cursor, so the two cannot disagree.
#[derive(Debug)]
pub struct QuizManager {
    questions: Vec<Question>,
    cursor: Option<usize>,
    results: HashMap<i8, bool>,
    state: Option<BotState>,
}

impl View for QuizManager {
    type V = QuizView;

    closed spec fn view(&self) -> QuizView {
        QuizView {
            questions: views(self.questions@),
            cursor: match self.cursor {
                Some(c) => Some(c as nat),
                None => None,
            },
            results: self.results@,
            state: self.state,
        }
    }
}

/// The correctly answered ids among those of the first `n` questions.
spec fn correct_among(results: Map<i8, bool>, questions: Seq<QuestionView>, n: int) -> Set<i8> {
    correct_ids(results).filter(|id: i8| has_id(questions.take(n), id))
}

/// Looking at one more question adds its id where that id was answered
/// correctly, and nothing else.
proof fn lemma_correct_among_step(results: Map<i8, bool>, questions: Seq<QuestionView>, n: int)
    requires
        results.dom().finite(),
        unique_ids(questions),
        0 <= n < questions.len(),
    ensures
        correct_among(results, questions, n).finite(),
        !correct_among(results, questions, n).contains(questions[n].id),
        correct_among(results, questions, n + 1) == if results.dom().contains(questions[n].id)
            && results[questions[n].id] {
            correct_among(results, questions, n).insert(questions[n].id)
        } else {
            correct_among(results, questions, n)
        },
{
    let before = correct_among(results, questions, n);
    let after = correct_among(results, questions, n + 1);
    let id = questions[n].id;
    assert(before.finite()) by {
        results.dom().lemma_len_filter(|id: i8| results[id]);
        correct_ids(results).lemma_len_filter(|id: i8| has_id(questions.take(n), id));
    }
    assert(!has_id(questions.take(n), id)) by {
        if has_id(questions.take(n), id) {
            let i = choose|i: int| 0 <= i < questions.take(n).len() && #[trigger] questions.take(n)[i].id == id;
            assert(questions[i].id == questions[n].id);
        }
    }
    assert forall|other: i8| has_id(questions.take(n + 1), other) <==> (other == id || has_id(
        questions.take(n),
        other,
    )) by {
        if has_id(questions.take(n + 1), other) {
            let i = choose|i: int| 0 <= i < questions.take(n + 1).len() && #[trigger] questions.take(n + 1)[i].id == other;
            if i < n {
                assert(questions.take(n)[i].id == other);
            }
        }
        if other == id {
            assert(questions.take(n + 1)[n].id == other);
        }
        if has_id(questions.take(n), other) {
            let i = choose|i: int| 0 <= i < questions.take(n).len() && #[trigger] questions.take(n)[i].id == other;
            assert(questions.take(n + 1)[i].id == other);
        }
    }
    if results.dom().contains(id) && results[id] {
        assert(after =~= before.insert(id));
    } else {
        assert(after =~= before);
    }
}

impl QuizManager {
    /// A manager that holds no quiz yet: no questions, no cursor, no state.
    pub fn new() -> (manager: QuizManager)
        ensures
            manager@ == QuizView::empty(),
            manager@.wf(),
    {
        let manager = QuizManager {
            questions: Vec::new(),
            cursor: None,
            results: HashMap::new(),
            state: None,
        };
        assert(manager@.questions =~= Seq::empty());
        manager
    }

    /// Loads `questions` and starts a session on them: the cursor stands at
    /// the first question, nothing is recorded, the state is `Initialized`.
    ///
    /// An empty set, or one that holds an id twice, is refused with
    /// `QuizError::Configuration`, and the manager stays as it was.
    pub fn init(&mut self, questions: Vec<Question>) -> (res: Result<(), QuizError>)
        ensures
            valid_question_set(views(questions@)) ==> res is Ok && final(self)@ == QuizView::loaded(
                views(questions@),
            ) && final(self)@.wf(),
            !valid_question_set(views(questions@)) ==> res == Err::<(), QuizError>(
                QuizError::Configuration,
            ) && *final(self) == *old(self),
    {
        if questions.len() == 0 || !has_unique_ids(&questions) {
            return Err(QuizError::Configuration);
        }
        self.questions = questions;
        self.cursor = Some(0);
        self.results = HashMap::new();
        self.state = Some(BotState::Initialized);
        assert(self@.results =~= Map::empty());
        Ok(())
    }

    /// Moves on to the next question and returns the state reached.
    ///
    /// While the quiz is running the cursor moves by one. If a question
    /// stands there, it becomes the active one and its answer is awaited;
    /// if none does, the quiz is completed and no question is active. In
    /// `Completed` nothing changes. A manager without a quiz is left as it is
    /// and answers `QuizError::InvalidState`.
    #[allow(non_snake_case)]
    pub fn setNextQuestion(&mut self) -> (res: Result<BotState, QuizError>)
        requires
            old(self)@.wf(),
        ensures
            final(self)@ == old(self)@.advance(),
            final(self)@.wf(),
            match old(self)@.state {
                None => res == Err::<BotState, QuizError>(QuizError::InvalidState),
                Some(_) => final(self)@.state is Some && res == Ok::<BotState, QuizError>(
                    final(self)@.state->0,
                ),
            },
    {
        match (self.state, self.cursor) {
            (Some(BotState::Completed), _) => Ok(BotState::Completed),
            (Some(_), Some(c)) => {
                assert(c < self.questions.len()) by {
                    assert(self@.questions.len() == self.questions.len());
                }
                let next: usize = c + 1;
                let reached = if next < self.questions.len() {
                    BotState::AwaitingAnswer
                } else {
                    BotState::Completed
                };
                self.cursor = Some(next);
                self.state = Some(reached);
                Ok(reached)
            },
            _ => Err(QuizError::InvalidState),
        }
    }

    /// Records `text` as the answer to the active question: the question's id
    /// is mapped to whether `text` equals the expected answer exactly, and an
    /// earlier result for that id is replaced. The cursor does not move.
    ///
    /// Unless an answer is awaited, nothing is recorded and the call answers
    /// `QuizError::InvalidState`.
    pub fn record_answer(&mut self, text: &str) -> (res: Result<(), QuizError>)
        requires
            old(self)@.wf(),
        ensures
            final(self)@ == old(self)@.record(text@),
            final(self)@.wf(),
            old(self)@.state == Some(BotState::AwaitingAnswer) ==> res is Ok,
            old(self)@.state != Some(BotState::AwaitingAnswer) ==> res == Err::<(), QuizError>(
                QuizError::InvalidState,
            ) && final(self)@ == old(self)@,
    {
        match (self.state, self.cursor) {
            (Some(BotState::AwaitingAnswer), Some(c)) => {
                assert(self@.questions[c as int] == self.questions[c as int]@);
                let id: i8 = self.questions[c].id;
                let correct: bool = self.questions[c].accepts(text);
                self.results.insert(id, correct);
                assert(has_id(self@.questions, id));
                Ok(())
            },
            _ => Err(QuizError::InvalidState),
        }
    }

    /// The question at the cursor while the quiz is running, else `None`.
    pub fn active_question(&self) -> (active: Option<&Question>)
        ensures
            match active {
                Some(q) => self@.active_question() == Some(q@),
                None => self@.active_question() is None,
            },
    {
        match (self.state, self.cursor) {
            (Some(BotState::Initialized), Some(c)) | (Some(BotState::AwaitingAnswer), Some(c)) => {
                if c < self.questions.len() {
                    assert(self@.questions[c as int] == self.questions[c as int]@);
                    Some(&self.questions[c])
                } else {
                    None
                }
            },
            _ => None,
        }
    }

    /// The prompt of the active question while the quiz is running, else
    /// `None`. Changes nothing.
    pub fn current_prompt(&self) -> (prompt: Option<&str>)
        ensures
            match prompt {
                Some(text) => self@.current_prompt() == Some(text@),
                None => self@.current_prompt() is None,
            },
    {
        match self.active_question() {
            Some(q) => Some(q.prompt.as_str()),
            None => None,
        }
    }

    /// The number of correct answers and the number of recorded answers, in
    /// that order. Changes nothing and can be asked in every state.
    pub fn score(&self) -> (counts: (usize, usize))
        requires
            self@.wf(),
        ensures
            counts.0 == self@.score().correct,
            counts.1 == self@.score().total,
    {
        let n: usize = self.questions.len();
        let ghost results = self.results@;
        let ghost questions = self@.questions;
        let mut correct: usize = 0;
        let mut i: usize = 0;
        assert(correct_among(results, questions, 0) =~= Set::empty());
        while i < n
            invariant
                n == self.questions.len(),
                results == self.results@,
                questions == views(self.questions@),
                results.dom().finite(),
                unique_ids(questions),
                i <= n,
                correct <= i,
                correct_among(results, questions, i as int).finite(),
                correct == correct_among(results, questions, i as int).len(),
            decreases n - i,
        {
            proof {
                lemma_correct_among_step(results, questions, i as int);
                assert(questions[i as int] == self.questions[i as int]@);
            }
            let hit: bool = match self.results.get(&self.questions[i].id) {
                Some(flag) => *flag,
                None => false,
            };
            if hit {
                correct = correct + 1;
            }
            i = i + 1;
        }
        proof {
            assert(questions.take(n as int) =~= questions);
            assert(correct_among(results, questions, n as int) =~= correct_ids(results));
        }
        (correct, self.results.len())
    }

    /// The state of the session, or `None` where no quiz is loaded.
    pub fn state(&self) -> (state: Option<BotState>)
        ensures
            state == self@.state,
    {
        self.state
    }

    /// The place of the cursor among the questions, or `None` where no quiz
    /// is loaded. After the last question it equals their number.
    pub fn cursor(&self) -> (cursor: Option<usize>)
        ensures
            match cursor {
                Some(c) => self@.cursor == Some(c as nat),
                None => self@.cursor is None,
            },
    {
        self.cursor
    }

    /// What is recorded for the question `id`: `Some(true)` for a correct
    /// answer, `Some(false)` for a wrong one, `None` where none was given.
    pub fn result_for(&self, id: i8) -> (result: Option<bool>)
        ensures
            match result {
                Some(flag) => self@.results.dom().contains(id) && self@.results[id] == flag,
                None => !self@.results.dom().contains(id),
            },
    {
        match self.results.get(&id) {
            Some(flag) => Some(*flag),
            None => None,
        }
    }
}

} // verus!
