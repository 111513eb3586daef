use danish_verbs::{
    grade_answer, judge, normalize, ConjugationForm, GradeResult, PracticeMode, QuizEngine, Verb,
};

fn verb(inf: &str, present: &str, past: &str, pp: &str, english: &str) -> Verb {
    Verb {
        infinitive: inf.to_string(),
        present: present.to_string(),
        past: past.to_string(),
        past_participle: pp.to_string(),
        english: english.to_string(),
    }
}

fn spise() -> Verb {
    verb("spise", "spiser", "spiste", "spist", "to eat")
}

fn three_verbs() -> Vec<Verb> {
    vec![
        spise(),
        verb("drikke", "drikker", "drak", "drukket", "to drink"),
        verb("sove", "sover", "sov", "sovet", "to sleep"),
    ]
}

#[test]
fn single_verb_scenario() {
    let mut q = QuizEngine::new(vec![spise()]);
    assert_eq!(q.current_index(), 0);
    assert_eq!(q.practice_mode(), PracticeMode::Translation);
    assert_eq!(q.last_result(), &None);
    q.grade("to eat");
    assert_eq!(q.last_result(), &Some(GradeResult::Correct));
    q.grade("to drink");
    assert_eq!(q.last_result(), &Some(GradeResult::Incorrect("to eat".to_string())));
    q.set_user_answer("something".to_string());
    q.next_verb();
    assert_eq!(q.current_index(), 0);
    assert_eq!(q.last_result(), &None);
    assert_eq!(q.user_answer(), "");
}

#[test]
fn grading_ignores_case_and_padding() {
    let mut q = QuizEngine::from_order(vec![spise()]);
    q.next_verb_with(false, 0);
    assert_eq!(q.expected_answer(), "spiser");
    q.grade("spiser");
    let plain = q.last_result().clone();
    q.grade("  Spiser ");
    assert_eq!(q.last_result(), &plain);
    assert_eq!(plain, Some(GradeResult::Correct));
}

#[test]
fn grading_is_exact_otherwise() {
    let mut q = QuizEngine::from_order(vec![spise()]);
    q.next_verb_with(false, 0);
    q.grade("spise");
    assert_eq!(q.last_result(), &Some(GradeResult::Incorrect("spiser".to_string())));
}

#[test]
fn incorrect_carries_untrimmed_expected() {
    let mut q = QuizEngine::from_order(vec![verb("gå", "går", "gik", "gået", "  To Walk ")]);
    q.grade("to walk");
    assert_eq!(q.last_result(), &Some(GradeResult::Correct));
    q.grade("to run");
    assert_eq!(q.last_result(), &Some(GradeResult::Incorrect("  To Walk ".to_string())));
}

#[test]
fn regrade_keeps_only_latest() {
    let mut q = QuizEngine::from_order(three_verbs());
    q.next_verb_with(true, 0);
    let index = q.current_index();
    q.set_user_answer("typed".to_string());
    q.grade("to drink");
    assert_eq!(q.last_result(), &Some(GradeResult::Correct));
    q.grade("to eat");
    assert_eq!(q.last_result(), &Some(GradeResult::Incorrect("to drink".to_string())));
    assert_eq!(q.current_index(), index);
    assert_eq!(q.practice_mode(), PracticeMode::Translation);
    assert_eq!(q.user_answer(), "typed");
}

#[test]
fn check_answer_grades_typed_answer() {
    let mut q = QuizEngine::from_order(vec![spise()]);
    q.next_verb_with(false, 2);
    assert_eq!(q.conjugation_form(), ConjugationForm::PastParticiple);
    q.set_user_answer(" SPIST".to_string());
    q.check_answer();
    assert_eq!(q.last_result(), &Some(GradeResult::Correct));
    assert_eq!(q.user_answer(), " SPIST");
}

#[test]
fn advance_wraps_after_k_calls() {
    let mut q = QuizEngine::new(three_verbs());
    let start = q.current_index();
    let mut seen = Vec::new();
    for _ in 0..3 {
        q.next_verb();
        seen.push(q.current_index());
    }
    assert_eq!(q.current_index(), start);
    assert_eq!(seen, vec![1, 2, 0]);
}

#[test]
fn next_verb_with_sets_mode_and_form() {
    let mut q = QuizEngine::from_order(three_verbs());
    q.next_verb_with(false, 1);
    assert_eq!(q.current_index(), 1);
    assert_eq!(q.practice_mode(), PracticeMode::Conjugation);
    assert_eq!(q.conjugation_form(), ConjugationForm::Past);
    assert_eq!(q.expected_answer(), "drak");
    q.next_verb_with(true, 0);
    assert_eq!(q.current_index(), 2);
    assert_eq!(q.practice_mode(), PracticeMode::Translation);
    assert_eq!(q.conjugation_form(), ConjugationForm::Past);
    assert_eq!(q.expected_answer(), "to sleep");
    assert_eq!(q.current_verb().infinitive, "sove");
    q.next_verb_with(false, 7);
    assert_eq!(q.current_index(), 0);
    assert_eq!(q.conjugation_form(), ConjugationForm::PastParticiple);
    assert_eq!(q.expected_answer(), "spist");
}

#[test]
fn shuffle_keeps_every_verb_and_cycle_covers_them() {
    let original: Vec<Verb> = (0..20)
        .map(|n| verb(&format!("v{n}"), "a", "b", "c", &format!("e{n}")))
        .collect();
    let mut q = QuizEngine::new(original.clone());
    assert_eq!(q.verb_count(), 20);
    let mut names: Vec<String> = q.verbs().iter().map(|v| v.infinitive.clone()).collect();
    names.sort();
    let mut expected: Vec<String> = original.iter().map(|v| v.infinitive.clone()).collect();
    expected.sort();
    assert_eq!(names, expected);
    let mut visited = Vec::new();
    for _ in 0..20 {
        q.next_verb();
        visited.push(q.current_verb().infinitive.clone());
    }
    visited.sort();
    assert_eq!(visited, expected);
}

#[test]
fn from_order_keeps_order() {
    let q = QuizEngine::from_order(three_verbs());
    assert_eq!(q.verbs(), &three_verbs());
    assert_eq!(q.current_index(), 0);
    assert_eq!(q.practice_mode(), PracticeMode::Translation);
    assert_eq!(q.conjugation_form(), ConjugationForm::Present);
    assert_eq!(q.user_answer(), "");
}

#[test]
fn empty_list_is_accepted() {
    let q = QuizEngine::new(Vec::new());
    assert_eq!(q.verb_count(), 0);
    assert_eq!(q.current_index(), 0);
    assert_eq!(q.last_result(), &None);
}

#[test]
fn mode_and_form_distribution() {
    let mut q = QuizEngine::new(three_verbs());
    let rounds = 30000;
    let mut translation = 0;
    let mut forms = [0usize; 3];
    for _ in 0..rounds {
        q.next_verb();
        match q.practice_mode() {
            PracticeMode::Translation => translation += 1,
            PracticeMode::Conjugation => match q.conjugation_form() {
                ConjugationForm::Present => forms[0] += 1,
                ConjugationForm::Past => forms[1] += 1,
                ConjugationForm::PastParticiple => forms[2] += 1,
            },
        }
    }
    let share = translation as f64 / rounds as f64;
    assert!((share - 0.5).abs() < 0.03, "translation share {share}");
    let conj = (rounds - translation) as f64;
    for count in forms {
        let form_share = count as f64 / conj;
        assert!((form_share - 1.0 / 3.0).abs() < 0.03, "form share {form_share}");
    }
}

#[test]
fn normalize_trims_and_lowercases() {
    assert_eq!(normalize("  SpIser\t"), "spiser");
    assert_eq!(normalize("ÆBLE "), "æble");
    assert_eq!(normalize(""), "");
    assert_eq!(normalize("   "), "");
}

#[test]
fn judge_compares_normal_forms() {
    let expected = "Spiser".to_string();
    assert_eq!(judge("spiser", "spiser", &expected), GradeResult::Correct);
    assert_eq!(
        judge("spise", "spiser", &expected),
        GradeResult::Incorrect("Spiser".to_string())
    );
}

#[test]
fn grade_answer_examples() {
    let expected = "spiste".to_string();
    assert_eq!(grade_answer("\tSPISTE\n", &expected), GradeResult::Correct);
    assert_eq!(
        grade_answer("spiser", &expected),
        GradeResult::Incorrect("spiste".to_string())
    );
    assert_eq!(grade_answer("Spiste", &" spiste ".to_string()), GradeResult::Correct);
}

#[test]
fn verb_expected_answer_per_question() {
    let v = spise();
    assert_eq!(v.expected_answer(PracticeMode::Translation, ConjugationForm::Past), "to eat");
    assert_eq!(v.expected_answer(PracticeMode::Conjugation, ConjugationForm::Present), "spiser");
    assert_eq!(v.expected_answer(PracticeMode::Conjugation, ConjugationForm::Past), "spiste");
    assert_eq!(
        v.expected_answer(PracticeMode::Conjugation, ConjugationForm::PastParticiple),
        "spist"
    );
}

#[test]
fn form_from_pick() {
    assert_eq!(ConjugationForm::from_pick(0), ConjugationForm::Present);
    assert_eq!(ConjugationForm::from_pick(1), ConjugationForm::Past);
    assert_eq!(ConjugationForm::from_pick(2), ConjugationForm::PastParticiple);
    assert_eq!(ConjugationForm::from_pick(200), ConjugationForm::PastParticiple);
}
