use vstd::prelude::*;

verus! {

/// What `str::trim` makes of a string: leading and trailing white space
/// removed.
pub uninterp spec fn trimmed(s: Seq<char>) -> Seq<char>;

/// What `str::to_lowercase` makes of a string: its Unicode lower case.
pub uninterp spec fn lower_of(s: Seq<char>) -> Seq<char>;

/// The form in which answers are compared: trimmed, then lower-cased.
pub open spec fn normal_form(s: Seq<char>) -> Seq<char> {
    lower_of(trimmed(s))
}

/// The outcome of a grading.
#[derive(Clone, Debug, PartialEq, Eq)]
pub enum GradeResult {
    Correct,
    /// Carries the expected answer as it stands, untrimmed.
    Incorrect(String),
}

/// The outcome for an answer whose normal form is `answer_norm`, against an
/// expected answer `expected` whose normal form is `expected_norm`.
pub open spec fn outcome(answer_norm: Seq<char>, expected_norm: Seq<char>, expected: String) -> GradeResult {
    if answer_norm == expected_norm {
        GradeResult::Correct
    } else {
        GradeResult::Incorrect(expected)
    }
}

/// The outcome of grading `answer` against `expected`.
pub open spec fn grade_of(answer: Seq<char>, expected: String) -> GradeResult {
    outcome(normal_form(answer), normal_form(expected@), expected)
}

/// Relies on `str::trim`: the string without leading and trailing white space.
#[verifier::external_body]
fn trim_str(s: &str) -> (r: &str)
    ensures
        r@ == trimmed(s@),
{
    s.trim()
}

/// Relies on `str::to_lowercase`: the lower case of each character.
#[verifier::external_body]
fn lowercase(s: &str) -> (r: String)
    ensures
        r@ == lower_of(s@),
{
    s.to_lowercase()
}

/// The form in which answers are compared: white space trimmed at both ends,
/// then lower-cased.
pub fn normalize(s: &str) -> (r: String)
    ensures
        r@ == normal_form(s@),
{
    lowercase(trim_str(s))
}

/// Decides a grading from the two normal forms: `Correct` where they are
/// equal, else `Incorrect` with the expected answer as given.
pub fn judge(answer_norm: &str, expected_norm: &str, expected: &String) -> (r: GradeResult)
    ensures
        r == outcome(answer_norm@, expected_norm@, *expected),
{
    let a = answer_norm.to_owned();
    let e = expected_norm.to_owned();
    if a == e {
        GradeResult::Correct
    } else {
        GradeResult::Incorrect(expected.clone())
    }
}

/// Grades `answer` against `expected`: equal once both are trimmed and
/// lower-cased.
pub fn grade_answer(answer: &str, expected: &String) -> (r: GradeResult)
    ensures
        r == grade_of(answer@, *expected),
{
    let a = normalize(answer);
    let e = normalize(expected.as_str());
    judge(a.as_str(), e.as_str(), expected)
}

} // verus!
