use tex2typst_core::error::{ErrorKind, Step};
use tex2typst_core::fault::CaughtFault;
use tex2typst_core::outcome::{finish_batch, finish_single, item_failure};

fn s(text: &str) -> String {
    text.to_string()
}

fn thrown(message: &str) -> CaughtFault {
    CaughtFault::Exception { message: Some(s(message)), stack: None }
}

#[test]
fn single_success_is_passed_on() {
    assert_eq!(finish_single(Ok(s("x^2"))), Ok(s("x^2")));
    assert_eq!(finish_single(Ok(String::new())), Ok(String::new()));
}

#[test]
fn single_fault_becomes_a_conversion_failure() {
    let e = finish_single(Err(thrown("Unmatched '{'"))).unwrap_err();
    assert_eq!(e.step, Step::Call);
    assert_eq!(e.kind(), ErrorKind::Conversion);
    assert_eq!(e.subject, None);
    assert_eq!(e.message, "Conversion failed: Unmatched '{'");
}

#[test]
fn single_fault_with_stack_shows_the_stack() {
    let fault = CaughtFault::Exception { message: Some(s("bad")), stack: Some(s("    at f\n")) };
    let e = finish_single(Err(fault)).unwrap_err();
    assert_eq!(e.message, "Conversion failed: bad\nStack trace:\n    at f\n");
}

#[test]
fn item_failure_names_the_input() {
    let e = item_failure(Some(s("\\frac{1}{2")), &thrown("Unmatched '{'"));
    assert_eq!(e.step, Step::Call);
    assert_eq!(e.subject, Some(s("\\frac{1}{2")));
    assert_eq!(e.message, "Conversion failed for '\\frac{1}{2': Unmatched '{'");
    let e = item_failure(None, &CaughtFault::Raw(s("Int(3)")));
    assert_eq!(e.message, "Conversion failed: JavaScript error: Int(3)");
    let e = item_failure(Some(s("a")), &CaughtFault::Engine(s("engine down")));
    assert_eq!(e.message, "Conversion failed for 'a': engine down");
}

#[test]
fn batch_of_successes_keeps_length_and_order() {
    let inputs = vec![s("a"), s("b"), s("c")];
    let outcomes = vec![Ok(s("A")), Ok(s("B")), Ok(s("C"))];
    let singles: Vec<String> =
        outcomes.iter().cloned().map(|o| finish_single(o).unwrap()).collect();
    let batch = finish_batch(&inputs, outcomes).unwrap();
    assert_eq!(batch.len(), inputs.len());
    assert_eq!(batch, vec![s("A"), s("B"), s("C")]);
    assert_eq!(batch, singles);
}

#[test]
fn empty_batch_gives_empty_result() {
    let inputs: Vec<String> = Vec::new();
    assert_eq!(finish_batch(&inputs, Vec::new()), Ok(Vec::new()));
}

#[test]
fn batch_fails_with_its_first_fault() {
    let inputs = vec![s("a"), s("b{"), s("c")];
    let outcomes = vec![Ok(s("A")), Err(thrown("Unmatched '{'"))];
    let e = finish_batch(&inputs, outcomes).unwrap_err();
    assert_eq!(e.step, Step::Call);
    assert_eq!(e.subject, Some(s("b{")));
    assert_eq!(e.message, "Conversion failed for 'b{': Unmatched '{'");
}

#[test]
fn batch_failure_at_the_first_item() {
    let inputs = vec![s("{"), s("b")];
    let e = finish_batch(&inputs, vec![Err(thrown("bad"))]).unwrap_err();
    assert_eq!(e.subject, Some(s("{")));
    assert_eq!(e.message, "Conversion failed for '{': bad");
}

#[test]
fn batch_failure_at_the_last_item() {
    let inputs = vec![s("a"), s("b")];
    let e = finish_batch(&inputs, vec![Ok(s("A")), Err(thrown("bad"))]).unwrap_err();
    assert_eq!(e.subject, Some(s("b")));
    assert_eq!(e.message, "Conversion failed for 'b': bad");
}

#[test]
fn batch_reports_the_first_of_two_faults() {
    let inputs = vec![s("a"), s("b"), s("c")];
    let outcomes = vec![Err(thrown("first")), Ok(s("B")), Err(thrown("second"))];
    let e = finish_batch(&inputs, outcomes).unwrap_err();
    assert_eq!(e.subject, Some(s("a")));
    assert_eq!(e.message, "Conversion failed for 'a': first");
}

#[test]
fn batch_of_one_agrees_with_single() {
    let inputs = vec![s("x^2")];
    assert_eq!(
        finish_batch(&inputs, vec![Ok(s("x^2"))]).unwrap(),
        vec![finish_single(Ok(s("x^2"))).unwrap()]
    );
    let single = finish_single(Err(thrown("bad"))).unwrap_err();
    let batch = finish_batch(&inputs, vec![Err(thrown("bad"))]).unwrap_err();
    assert_eq!(single.step, batch.step);
    assert_eq!(single.message, "Conversion failed: bad");
    assert_eq!(batch.message, "Conversion failed for 'x^2': bad");
}

#[test]
fn fault_without_an_input_names_none() {
    let inputs = vec![s("a")];
    let e = finish_batch(&inputs, vec![Ok(s("A")), Err(thrown("late"))]).unwrap_err();
    assert_eq!(e.subject, None);
    assert_eq!(e.message, "Conversion failed: late");
}
