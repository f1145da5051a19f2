//! Questions and what makes a set of them valid.

use vstd::prelude::*;

verus! {

/// A prompt with its expected answer. Once a manager holds it, it never changes.
#[derive(Clone, Debug, PartialEq, Eq)]
pub struct Question {
    /// Identifies the question within its set.
    pub id: i8,
    /// The text that is sent to the channel.
    pub prompt: String,
    /// The text that an answer must equal, character for character.
    pub answer: String,
}

/// A question as the contracts see it.
pub ghost struct QuestionView {
    pub id: i8,
    pub prompt: Seq<char>,
    pub answer: Seq<char>,
}

impl View for Question {
    type V = QuestionView;

    open spec fn view(&self) -> QuestionView {
        QuestionView { id: self.id, prompt: self.prompt@, answer: self.answer@ }
    }
}

/// The views of a sequence of questions, in the same order.
pub open spec fn views(questions: Seq<Question>) -> Seq<QuestionView> {
    questions.map_values(|q: Question| q@)
}

/// No id occurs at two places of `questions`.
pub open spec fn unique_ids(questions: Seq<QuestionView>) -> bool {
    forall|i: int, j: int| 0 <= i < j < questions.len() ==> questions[i].id != questions[j].id
}

/// Some question of `questions` carries `id`.
pub open spec fn has_id(questions: Seq<QuestionView>, id: i8) -> bool {
    exists|i: int| 0 <= i < questions.len() && #[trigger] questions[i].id == id
}

/// A quiz can be run on `questions`: there is at least one, and ids are unique.
pub open spec fn valid_question_set(questions: Seq<QuestionView>) -> bool {
    questions.len() > 0 && unique_ids(questions)
}

impl Question {
    /// A question from its three parts.
    pub fn new(id: i8, prompt: String, answer: String) -> (q: Question)
        ensures
            q@ == (QuestionView { id, prompt: prompt@, answer: answer@ }),
    {
        Question { id, prompt, answer }
    }

    /// Whether `text` is the expected answer: equal character for character,
    /// upper and lower case distinguished, nothing trimmed.
    pub fn accepts(&self, text: &str) -> (correct: bool)
        ensures
            correct == (text@ == self@.answer),
    {
        let given: String = text.to_owned();
        given == self.answer
    }
}

/// Whether no id occurs twice among `questions`.
pub fn has_unique_ids(questions: &Vec<Question>) -> (unique: bool)
    ensures
        unique == unique_ids(views(questions@)),
{
    let n: usize = questions.len();
    let mut i: usize = 0;
    while i < n
        invariant
            n == questions.len(),
            i <= n,
            forall|a: int, b: int| 0 <= a < b < n && a < i ==> questions[a].id != questions[b].id,
        decreases n - i,
    {
        let mut j: usize = i + 1;
        while j < n
            invariant
                n == questions.len(),
                i < n,
                i < j <= n,
                forall|b: int| i < b < j ==> questions[i as int].id != questions[b].id,
            decreases n - j,
        {
            if questions[i].id == questions[j].id {
                assert(views(questions@)[i as int].id == views(questions@)[j as int].id);
                return false;
            }
            j = j + 1;
        }
        i = i + 1;
    }
    assert forall|a: int, b: int| 0 <= a < b < views(questions@).len() implies views(
        questions@,
    )[a].id != views(questions@)[b].id by {
        assert(views(questions@)[a] == questions[a]@);
        assert(views(questions@)[b] == questions[b]@);
    }
    true
}

} // verus!
