//! A flashcard quiz for Danish verbs: a verb list, a current question in one
//! of two practice modes, and grading of free-text answers.

pub mod grading;
pub mod laws;
pub mod quiz;
pub mod verb;

pub use grading::{grade_answer, judge, normalize, GradeResult};
pub use quiz::{QuizEngine, QuizState};
pub use verb::{ConjugationForm, PracticeMode, Verb};
