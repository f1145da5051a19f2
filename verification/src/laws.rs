//! What holds of every quiz, proved from the model.

use crate::dispatcher::{dispatch, dispatch_all, ReplyView};
use crate::manager::QuizManager;
use crate::model::{correct_ids, QuizView};
use crate::question::{has_id, valid_question_set, QuestionView};
use crate::state::BotState;
use vstd::prelude::*;

verus! {

/// Right after a valid set was loaded, the state is `Initialized`, the
/// first question is the active one, and asking for the prompt gives its
/// prompt.
pub proof fn lemma_loaded_presents_first(questions: Seq<QuestionView>)
    requires
        valid_question_set(questions),
    ensures
        QuizView::loaded(questions).wf(),
        QuizView::loaded(questions).state == Some(BotState::Initialized),
        QuizView::loaded(questions).active_question() == Some(questions[0]),
        QuizView::loaded(questions).current_prompt() == Some(questions[0].prompt),
{
}

/// Advancing and recording keep the invariant.
pub proof fn lemma_steps_keep_wf(quiz: QuizView, text: Seq<char>)
    requires
        quiz.wf(),
    ensures
        quiz.advance().wf(),
        quiz.record(text).wf(),
{
    if quiz.accepts_answer() {
        let q = quiz.active_question()->0;
        assert(has_id(quiz.questions, q.id));
    }
}

/// The cursor never moves back, and only advancing moves it: by one while
/// the quiz is running, not at all once it is completed.
pub proof fn lemma_cursor_only_advances(quiz: QuizView, text: Seq<char>)
    requires
        quiz.wf(),
        quiz.state is Some,
    ensures
        quiz.record(text).cursor == quiz.cursor,
        quiz.state != Some(BotState::Completed) ==> quiz.advance().cursor == Some(
            (quiz.cursor->0 + 1) as nat,
        ),
        quiz.state == Some(BotState::Completed) ==> quiz.advance() == quiz,
        quiz.advance().cursor->0 <= quiz.questions.len(),
{
}

/// From any state of a running quiz, as many steps as there are questions
/// from the cursor on lead to `Completed`; no question is active then, and
/// what was recorded is still there.
pub proof fn lemma_advancing_completes(quiz: QuizView)
    requires
        quiz.wf(),
        quiz.state is Some,
    ensures
        quiz.advance_by((quiz.questions.len() - quiz.cursor->0) as nat).state == Some(
            BotState::Completed,
        ),
        quiz.advance_by((quiz.questions.len() - quiz.cursor->0) as nat).active_question() is None,
        quiz.advance_by((quiz.questions.len() - quiz.cursor->0) as nat).results == quiz.results,
        quiz.advance_by((quiz.questions.len() - quiz.cursor->0) as nat).wf(),
    decreases quiz.questions.len() - quiz.cursor->0,
{
    let left = (quiz.questions.len() - quiz.cursor->0) as nat;
    if left > 0 {
        lemma_steps_keep_wf(quiz, Seq::empty());
        lemma_advancing_completes(quiz.advance());
        assert(quiz.advance_by(left) == quiz.advance().advance_by((left - 1) as nat));
    }
}

/// Advancing once for each question of a freshly loaded quiz completes it,
/// with no question active; a further step changes nothing.
pub proof fn lemma_advance_once_per_question(questions: Seq<QuestionView>)
    requires
        valid_question_set(questions),
    ensures
        QuizView::loaded(questions).advance_by(questions.len()).state == Some(BotState::Completed),
        QuizView::loaded(questions).advance_by(questions.len()).active_question() is None,
        QuizView::loaded(questions).advance_by(questions.len()).advance() == QuizView::loaded(
            questions,
        ).advance_by(questions.len()),
{
    lemma_advancing_completes(QuizView::loaded(questions));
}

/// A first answer to the active question raises the number of recorded
/// answers by one, and the number of correct ones by one exactly if the
/// text equals the expected answer.
pub proof fn lemma_first_answer_counts(quiz: QuizView, text: Seq<char>)
    requires
        quiz.wf(),
        quiz.accepts_answer(),
        !quiz.results.dom().contains(quiz.active_question()->0.id),
    ensures
        quiz.record(text).score().total == quiz.score().total + 1,
        quiz.record(text).score().correct == quiz.score().correct + if text
            == quiz.active_question()->0.answer {
            1nat
        } else {
            0nat
        },
{
    let q = quiz.active_question()->0;
    let hit = text == q.answer;
    let after = quiz.results.insert(q.id, hit);
    quiz.results.dom().lemma_len_filter(|id: i8| quiz.results[id]);
    assert(after.dom() =~= quiz.results.dom().insert(q.id));
    if hit {
        assert(correct_ids(after) =~= correct_ids(quiz.results).insert(q.id));
    } else {
        assert(correct_ids(after) =~= correct_ids(quiz.results));
    }
}

/// A further answer to a question that has one replaces it: the number of
/// recorded answers stays, and the new answer alone decides whether the
/// question counts as correct.
pub proof fn lemma_repeated_answer_replaces(quiz: QuizView, text: Seq<char>)
    requires
        quiz.wf(),
        quiz.accepts_answer(),
        quiz.results.dom().contains(quiz.active_question()->0.id),
    ensures
        quiz.record(text).score().total == quiz.score().total,
        quiz.record(text).results[quiz.active_question()->0.id] == (text
            == quiz.active_question()->0.answer),
        forall|id: i8|
            id != quiz.active_question()->0.id ==> (quiz.record(text).results.dom().contains(id)
                <==> quiz.results.dom().contains(id)) && quiz.record(text).results[id]
                == quiz.results[id],
{
    let q = quiz.active_question()->0;
    assert(quiz.record(text).results.dom() =~= quiz.results.dom());
}

/// Asking for the score twice in a row gives the same pair.
pub proof fn lemma_score_is_repeatable(
    manager: &QuizManager,
    first: (usize, usize),
    second: (usize, usize),
)
    requires
        manager@.wf(),
        call_ensures(QuizManager::score, (manager,), first),
        call_ensures(QuizManager::score, (manager,), second),
    ensures
        first == second,
{
}

/// Asking for the prompt twice in a row gives the same text, or twice none.
pub proof fn lemma_prompt_is_repeatable<'a>(
    manager: &'a QuizManager,
    first: Option<&'a str>,
    second: Option<&'a str>,
)
    requires
        call_ensures(QuizManager::current_prompt, (manager,), first),
        call_ensures(QuizManager::current_prompt, (manager,), second),
    ensures
        first is Some <==> second is Some,
        first is Some ==> first->0@ == second->0@,
{
}

/// The dispatcher keeps the invariant, never unloads a quiz, and never
/// moves the cursor back.
pub proof fn lemma_dispatch_keeps_wf(quiz: QuizView, start: Seq<char>, text: Seq<char>)
    requires
        quiz.wf(),
    ensures
        dispatch(quiz, start, text).quiz.wf(),
        dispatch(quiz, start, text).quiz.questions == quiz.questions,
        quiz.state is Some ==> dispatch(quiz, start, text).quiz.state is Some && dispatch(
            quiz,
            start,
            text,
        ).quiz.cursor->0 >= quiz.cursor->0,
{
    lemma_steps_keep_wf(quiz, text);
    lemma_steps_keep_wf(quiz.record(text), text);
}

/// Whatever texts arrive in whatever order, a loaded quiz stays loaded and
/// well formed, over the same questions, and its cursor never moves back.
/// So the dispatcher never meets a manager that it cannot handle.
pub proof fn lemma_no_text_unloads(quiz: QuizView, start: Seq<char>, texts: Seq<Seq<char>>)
    requires
        quiz.wf(),
        quiz.state is Some,
    ensures
        dispatch_all(quiz, start, texts).wf(),
        dispatch_all(quiz, start, texts).state is Some,
        dispatch_all(quiz, start, texts).questions == quiz.questions,
        dispatch_all(quiz, start, texts).cursor->0 >= quiz.cursor->0,
    decreases texts.len(),
{
    if texts.len() > 0 {
        lemma_no_text_unloads(quiz, start, texts.drop_last());
        lemma_dispatch_keeps_wf(dispatch_all(quiz, start, texts.drop_last()), start, texts.last());
    }
}

/// Before the quiz has started, every text but the start command is
/// ignored: the manager stays as it is and nothing is sent.
pub proof fn lemma_other_text_is_ignored(quiz: QuizView, start: Seq<char>, text: Seq<char>)
    requires
        quiz.state == Some(BotState::Initialized),
        text != start,
    ensures
        dispatch(quiz, start, text).quiz == quiz,
        dispatch(quiz, start, text).reply is None,
{
}

/// The start command has the first prompt sent, and an answer is awaited
/// afterwards unless the quiz has one question only.
pub proof fn lemma_start_sends_first_prompt(quiz: QuizView, start: Seq<char>)
    requires
        quiz.wf(),
        quiz.state == Some(BotState::Initialized),
    ensures
        dispatch(quiz, start, start).reply == Some(ReplyView::Prompt(quiz.questions[0].prompt)),
        dispatch(quiz, start, start).quiz.state == Some(
            if quiz.questions.len() > 1 {
                BotState::AwaitingAnswer
            } else {
                BotState::Completed
            },
        ),
{
}

/// While an answer is awaited, every text is answered by exactly one
/// reply: the next prompt if a question is left, else the score.
pub proof fn lemma_answer_gets_one_reply(quiz: QuizView, start: Seq<char>, text: Seq<char>)
    requires
        quiz.wf(),
        quiz.state == Some(BotState::AwaitingAnswer),
    ensures
        dispatch(quiz, start, text).reply is Some,
        quiz.cursor->0 + 1 < quiz.questions.len() ==> dispatch(quiz, start, text).reply == Some(
            ReplyView::Prompt(quiz.questions[quiz.cursor->0 as int + 1].prompt),
        ) && dispatch(quiz, start, text).quiz.state == Some(BotState::AwaitingAnswer),
        quiz.cursor->0 + 1 == quiz.questions.len() ==> dispatch(quiz, start, text).reply == Some(
            ReplyView::Finished(quiz.record(text).score()),
        ) && dispatch(quiz, start, text).quiz.state == Some(BotState::Completed),
{
}

/// Once the quiz is completed every text is ignored: the manager stays as
/// it is, its score with it, and nothing is sent.
pub proof fn lemma_completed_ignores_text(quiz: QuizView, start: Seq<char>, text: Seq<char>)
    requires
        quiz.state == Some(BotState::Completed),
    ensures
        dispatch(quiz, start, text).quiz == quiz,
        dispatch(quiz, start, text).quiz.score() == quiz.score(),
        dispatch(quiz, start, text).reply is None,
{
}

} // verus!
