use lune_stdio::prompt::{
    complete, plan, FacilityAnswer, PromptError, PromptKind, PromptOptions, PromptRequest,
    PromptResult,
};
use lune_stdio::script::{from_script, to_script, ScriptValue};

fn options(kind: PromptKind) -> PromptOptions {
    PromptOptions { kind, text: None, default_string: None, default_bool: None, options: None }
}

fn labels(n: usize) -> Vec<String> {
    (0..n).map(|i| format!("option {}", i)).collect()
}

#[test]
fn prompt_kind_names() {
    assert_eq!(PromptKind::from_name(None), Ok(PromptKind::Text));
    assert_eq!(PromptKind::from_name(Some("text")), Ok(PromptKind::Text));
    assert_eq!(PromptKind::from_name(Some("confirm")), Ok(PromptKind::Confirm));
    assert_eq!(PromptKind::from_name(Some("select")), Ok(PromptKind::Select));
    assert_eq!(PromptKind::from_name(Some("multiselect")), Ok(PromptKind::MultiSelect));
    assert_eq!(PromptKind::from_name(Some("Select")), Err(PromptError::UnknownKind));
}

#[test]
fn text_plan_defaults_to_empty() {
    let q = plan(options(PromptKind::Text)).unwrap();
    assert_eq!(q, PromptRequest::Text { prompt: String::new(), initial: String::new() });
    let mut o = options(PromptKind::Text);
    o.text = Some("Name?".to_string());
    o.default_string = Some("Ann".to_string());
    let q = plan(o).unwrap();
    assert_eq!(q, PromptRequest::Text { prompt: "Name?".to_string(), initial: "Ann".to_string() });
    assert_eq!(
        complete(&q, FacilityAnswer::Text(String::new())),
        Ok(PromptResult::String(String::new()))
    );
}

#[test]
fn confirm_needs_text() {
    assert_eq!(plan(options(PromptKind::Confirm)), Err(PromptError::MissingText));
}

#[test]
fn select_without_options_is_a_contract_violation() {
    let mut o = options(PromptKind::Select);
    o.text = Some("Pick".to_string());
    assert_eq!(plan(o), Err(PromptError::MissingOptions));
    assert_eq!(plan(options(PromptKind::MultiSelect)), Err(PromptError::MissingOptions));
}

#[test]
fn confirm_default_seeds_the_answer() {
    for b in [true, false] {
        let mut o = options(PromptKind::Confirm);
        o.text = Some("Sure?".to_string());
        o.default_bool = Some(b);
        let q = plan(o).unwrap();
        assert_eq!(q, PromptRequest::Confirm { prompt: "Sure?".to_string(), default: Some(b) });
        assert_eq!(complete(&q, FacilityAnswer::Confirmed(b)), Ok(PromptResult::Boolean(b)));
    }
}

#[test]
fn select_positions_are_one_based() {
    let mut o = options(PromptKind::Select);
    o.options = Some(labels(3));
    let q = plan(o).unwrap();
    assert_eq!(q.label_count(), 3);
    assert_eq!(complete(&q, FacilityAnswer::Chosen(Some(0))), Ok(PromptResult::Index(1)));
    assert_eq!(complete(&q, FacilityAnswer::Chosen(Some(2))), Ok(PromptResult::Index(3)));
    assert_eq!(complete(&q, FacilityAnswer::Chosen(None)), Ok(PromptResult::Cancelled));
    assert_eq!(complete(&q, FacilityAnswer::Chosen(Some(3))), Err(PromptError::UnexpectedAnswer));
    assert_eq!(complete(&q, FacilityAnswer::Confirmed(true)), Err(PromptError::UnexpectedAnswer));
}

#[test]
fn multiselect_every_subset_of_five() {
    let mut o = options(PromptKind::MultiSelect);
    o.options = Some(labels(5));
    let q = plan(o).unwrap();
    for mask in 0u32..32 {
        let chosen: Vec<usize> = (0..5).filter(|i| mask & (1 << i) != 0).collect();
        let r = complete(&q, FacilityAnswer::ChosenMany(Some(chosen.clone()))).unwrap();
        let expected: Vec<usize> = chosen.iter().map(|i| i + 1).collect();
        assert_eq!(r, PromptResult::Indices(expected.clone()));
        assert!(expected.windows(2).all(|w| w[0] < w[1]));
        assert!(expected.iter().all(|&i| (1..=5).contains(&i)));
    }
    assert_eq!(complete(&q, FacilityAnswer::ChosenMany(None)), Ok(PromptResult::Cancelled));
}

#[test]
fn multiselect_rejects_bad_positions() {
    let mut o = options(PromptKind::MultiSelect);
    o.options = Some(labels(5));
    let q = plan(o).unwrap();
    for bad in [vec![5], vec![2, 1], vec![3, 3]] {
        assert_eq!(
            complete(&q, FacilityAnswer::ChosenMany(Some(bad))),
            Err(PromptError::UnexpectedAnswer)
        );
    }
}

#[test]
fn fits_checks_bounds_and_order() {
    assert!(FacilityAnswer::ChosenMany(Some(vec![0, 2, 4])).fits(5));
    assert!(!FacilityAnswer::ChosenMany(Some(vec![0, 5])).fits(5));
    assert!(!FacilityAnswer::ChosenMany(Some(vec![4, 0])).fits(5));
    assert!(FacilityAnswer::Chosen(None).fits(0));
    assert!(!FacilityAnswer::Chosen(Some(0)).fits(0));
}

#[test]
fn marshaling_round_trips() {
    let results = vec![
        PromptResult::String("hello".to_string()),
        PromptResult::String(String::new()),
        PromptResult::Boolean(true),
        PromptResult::Boolean(false),
        PromptResult::Index(4),
        PromptResult::Indices(vec![]),
        PromptResult::Indices(vec![1, 3, 5]),
        PromptResult::Cancelled,
    ];
    for r in results {
        assert_eq!(from_script(to_script(r.clone())), r);
    }
    assert_eq!(to_script(PromptResult::Index(2)), ScriptValue::Integer(2));
    assert_eq!(to_script(PromptResult::Cancelled), ScriptValue::Nil);
    assert_eq!(from_script(ScriptValue::Array(vec![2])), PromptResult::Indices(vec![2]));
}
