use vstd::prelude::*;

verus! {

/// One dictionary entry: the infinitive, its three conjugated forms and its
/// English translation.
#[derive(Clone, Debug, PartialEq, Eq)]
pub struct Verb {
    pub infinitive: String,
    pub present: String,
    pub past: String,
    pub past_participle: String,
    pub english: String,
}

/// Whether a question asks for the translation or for a conjugated form.
#[derive(Clone, Copy, Debug, PartialEq, Eq, Structural)]
pub enum PracticeMode {
    Translation,
    Conjugation,
}

/// Which of the three conjugated forms a conjugation question asks for.
#[derive(Clone, Copy, Debug, PartialEq, Eq, Structural)]
pub enum ConjugationForm {
    Present,
    Past,
    PastParticiple,
}

/// The answer that a question in `mode` (and, for conjugation, `form`) on
/// `v` expects.
pub open spec fn expected_of(v: Verb, mode: PracticeMode, form: ConjugationForm) -> String {
    match mode {
        PracticeMode::Translation => v.english,
        PracticeMode::Conjugation => match form {
            ConjugationForm::Present => v.present,
            ConjugationForm::Past => v.past,
            ConjugationForm::PastParticiple => v.past_participle,
        },
    }
}

/// The form that a draw out of `0..=2` selects; larger draws select the past
/// participle.
pub open spec fn form_of(pick: u8) -> ConjugationForm {
    if pick == 0 {
        ConjugationForm::Present
    } else if pick == 1 {
        ConjugationForm::Past
    } else {
        ConjugationForm::PastParticiple
    }
}

impl Verb {
    /// The answer that a question in `mode` (and `form`) on this verb expects.
    pub fn expected_answer(&self, mode: PracticeMode, form: ConjugationForm) -> (r: String)
        ensures
            r == expected_of(*self, mode, form),
    {
        match mode {
            PracticeMode::Translation => self.english.clone(),
            PracticeMode::Conjugation => match form {
                ConjugationForm::Present => self.present.clone(),
                ConjugationForm::Past => self.past.clone(),
                ConjugationForm::PastParticiple => self.past_participle.clone(),
            },
        }
    }
}

impl ConjugationForm {
    /// The form selected by a draw out of `0..=2`.
    pub fn from_pick(pick: u8) -> (r: ConjugationForm)
        ensures
            r == form_of(pick),
    {
        if pick == 0 {
            ConjugationForm::Present
        } else if pick == 1 {
            ConjugationForm::Past
        } else {
            ConjugationForm::PastParticiple
        }
    }
}

} // verus!
