use crate::grading::{grade_answer, grade_of, GradeResult};
use crate::verb::{expected_of, form_of, ConjugationForm, PracticeMode, Verb};
use rand::seq::SliceRandom;
use vstd::prelude::*;

verus! {

/// The abstract state of a quiz session.
pub struct QuizState {
    /// The verbs, in the order in which they are asked.
    pub verbs: Seq<Verb>,
    /// The position of the current verb.
    pub index: nat,
    /// Whether the current question asks for the translation or a form.
    pub mode: PracticeMode,
    /// Meaningful only in conjugation mode.
    pub form: ConjugationForm,
    /// The answer typed so far.
    pub answer: Seq<char>,
    /// The outcome of the latest grading of the current question.
    pub result: Option<GradeResult>,
}

/// The position after `i` in a list of `k` verbs, wrapping to the start.
pub open spec fn next_index(i: nat, k: nat) -> nat
    recommends
        k > 0,
{
    (i + 1) % k
}

/// The position reached from `i` after `n` advances in a list of `k` verbs.
pub open spec fn index_after(i: nat, k: nat, n: nat) -> nat
    decreases n,
{
    if n == 0 {
        i
    } else {
        next_index(index_after(i, k, (n - 1) as nat), k)
    }
}

impl QuizState {
    /// A fresh session over `verbs`, in that order.
    pub open spec fn initial(verbs: Seq<Verb>) -> QuizState {
        QuizState {
            verbs,
            index: 0,
            mode: PracticeMode::Translation,
            form: ConjugationForm::Present,
            answer: Seq::empty(),
            result: None,
        }
    }

    /// The verb of the current question.
    pub open spec fn current_verb(self) -> Verb {
        self.verbs[self.index as int]
    }

    /// The answer that the current question expects.
    pub open spec fn expected(self) -> String {
        expected_of(self.current_verb(), self.mode, self.form)
    }

    /// The state after grading `answer` on the current question.
    pub open spec fn graded(self, answer: Seq<char>) -> QuizState {
        QuizState { result: Some(grade_of(answer, self.expected())), ..self }
    }

    /// The state after moving to the next verb, with the mode chosen by
    /// `translation` and, in conjugation mode, the form by `pick`.
    pub open spec fn advanced(self, translation: bool, pick: u8) -> QuizState {
        QuizState {
            index: next_index(self.index, self.verbs.len()),
            mode: if translation {
                PracticeMode::Translation
            } else {
                PracticeMode::Conjugation
            },
            form: if translation {
                self.form
            } else {
                form_of(pick)
            },
            answer: Seq::empty(),
            result: None,
            ..self
        }
    }
}

/// A quiz session: the verb list, the current question and the outcome of
/// the latest grading.
pub struct QuizEngine {
    verbs: Vec<Verb>,
    current_index: usize,
    practice_mode: PracticeMode,
    conjugation_form: ConjugationForm,
    user_answer: String,
    last_result: Option<GradeResult>,
}

impl View for QuizEngine {
    type V = QuizState;

    closed spec fn view(&self) -> QuizState {
        QuizState {
            verbs: self.verbs@,
            index: self.current_index as nat,
            mode: self.practice_mode,
            form: self.conjugation_form,
            answer: self.user_answer@,
            result: self.last_result,
        }
    }
}

/// Relies on `rand::random::<bool>`: a coin flip; nothing is known of it.
#[verifier::external_body]
fn coin_flip() -> (r: bool) {
    rand::random::<bool>()
}

/// Relies on `rand::random_range`: a value drawn out of the range `0..=2`,
/// which is not empty, so the call does not panic.
#[verifier::external_body]
fn draw_form_pick() -> (r: u8)
    ensures
        r <= 2,
{
    rand::random_range(0..=2u8)
}

/// Relies on `rand::seq::SliceRandom::shuffle` with the thread-local
/// generator: it reorders the items by swaps, so the same items remain.
#[verifier::external_body]
fn shuffle_verbs(v: &mut Vec<Verb>)
    ensures
        final(v)@.to_multiset() == old(v)@.to_multiset(),
{
    v.shuffle(&mut rand::rng());
}

impl QuizEngine {
    #[verifier::type_invariant]
    closed spec fn index_in_range(self) -> bool {
        self.verbs.len() > 0 ==> self.current_index < self.verbs.len()
    }

    /// Starts a session over `verbs` in a random order, on the first verb in
    /// translation mode, with no answer and no outcome.
    pub fn new(verbs: Vec<Verb>) -> (r: QuizEngine)
        ensures
            r@.verbs.to_multiset() == verbs@.to_multiset(),
            r@.verbs.len() == verbs@.len(),
            r@ == QuizState::initial(r@.verbs),
    {
        let mut verbs = verbs;
        let ghost before = verbs@;
        shuffle_verbs(&mut verbs);
        proof {
            before.to_multiset_ensures();
            verbs@.to_multiset_ensures();
        }
        QuizEngine::from_order(verbs)
    }

    /// Starts a session over `verbs` in the order given, on the first verb in
    /// translation mode, with no answer and no outcome.
    pub fn from_order(verbs: Vec<Verb>) -> (r: QuizEngine)
        ensures
            r@ == QuizState::initial(verbs@),
    {
        QuizEngine {
            verbs,
            current_index: 0,
            practice_mode: PracticeMode::Translation,
            conjugation_form: ConjugationForm::Present,
            user_answer: String::new(),
            last_result: None,
        }
    }

    /// Moves to the next verb, wrapping at the end of the list, clears the
    /// answer and the outcome, and picks translation mode where `translation`
    /// holds, else conjugation mode with the form that `pick` selects.
    pub fn next_verb_with(&mut self, translation: bool, pick: u8)
        requires
            old(self)@.verbs.len() > 0,
        ensures
            final(self)@ == old(self)@.advanced(translation, pick),
    {
        proof { use_type_invariant(&*self); }
        self.current_index = (self.current_index + 1) % self.verbs.len();
        self.user_answer = String::new();
        self.last_result = None;
        if translation {
            self.practice_mode = PracticeMode::Translation;
        } else {
            self.practice_mode = PracticeMode::Conjugation;
            self.conjugation_form = ConjugationForm::from_pick(pick);
        }
    }

    /// Moves to the next verb, wrapping at the end of the list, clears the
    /// answer and the outcome, and picks the mode by a fair coin and, in
    /// conjugation mode, one of the three forms at random.
    pub fn next_verb(&mut self)
        requires
            old(self)@.verbs.len() > 0,
        ensures
            exists|translation: bool, pick: u8|
                pick <= 2 && final(self)@ == old(self)@.advanced(translation, pick),
    {
        let translation = coin_flip();
        let pick: u8 = if translation {
            0
        } else {
            draw_form_pick()
        };
        self.next_verb_with(translation, pick);
    }

    /// Grades `answer` against the current question and keeps the outcome;
    /// the question and the typed answer stay as they are.
    pub fn grade(&mut self, answer: &str)
        requires
            old(self)@.verbs.len() > 0,
        ensures
            final(self)@ == old(self)@.graded(answer@),
    {
        proof { use_type_invariant(&*self); }
        let expected = self.verbs[self.current_index].expected_answer(
            self.practice_mode,
            self.conjugation_form,
        );
        self.last_result = Some(grade_answer(answer, &expected));
    }

    /// Grades the typed answer against the current question.
    pub fn check_answer(&mut self)
        requires
            old(self)@.verbs.len() > 0,
        ensures
            final(self)@ == old(self)@.graded(old(self)@.answer),
    {
        let answer = self.user_answer.clone();
        self.grade(answer.as_str());
    }
    /// The number of verbs in the session.
    pub fn verb_count(&self) -> (r: usize)
        ensures
            r == self@.verbs.len(),
    {
        self.verbs.len()
    }

    /// The verbs, in the order in which they are asked.
    pub fn verbs(&self) -> (r: &Vec<Verb>)
        ensures
            r@ == self@.verbs,
    {
        &self.verbs
    }

    /// The position of the current verb; within the list unless it is empty.
    pub fn current_index(&self) -> (r: usize)
        ensures
            r == self@.index,
            self@.verbs.len() > 0 ==> r < self@.verbs.len(),
    {
        proof { use_type_invariant(self); }
        self.current_index
    }

    /// The verb of the current question.
    pub fn current_verb(&self) -> (r: &Verb)
        requires
            self@.verbs.len() > 0,
        ensures
            *r == self@.current_verb(),
    {
        proof { use_type_invariant(self); }
        &self.verbs[self.current_index]
    }

    /// The practice mode of the current question.
    pub fn practice_mode(&self) -> (r: PracticeMode)
        ensures
            r == self@.mode,
    {
        self.practice_mode
    }

    /// The form that a conjugation question asks for.
    pub fn conjugation_form(&self) -> (r: ConjugationForm)
        ensures
            r == self@.form,
    {
        self.conjugation_form
    }

    /// The answer that the current question expects.
    pub fn expected_answer(&self) -> (r: String)
        requires
            self@.verbs.len() > 0,
        ensures
            r == self@.expected(),
    {
        self.current_verb().expected_answer(self.practice_mode, self.conjugation_form)
    }

    /// The answer typed so far.
    pub fn user_answer(&self) -> (r: &str)
        ensures
            r@ == self@.answer,
    {
        self.user_answer.as_str()
    }

    /// Replaces the typed answer; nothing else changes.
    pub fn set_user_answer(&mut self, answer: String)
        ensures
            final(self)@ == (QuizState { answer: answer@, ..old(self)@ }),
    {
        proof { use_type_invariant(&*self); }
        self.user_answer = answer;
    }

    /// The outcome of the latest grading of the current question, if any.
    pub fn last_result(&self) -> (r: &Option<GradeResult>)
        ensures
            *r == self@.result,
    {
        &self.last_result
    }
}

} // verus!
