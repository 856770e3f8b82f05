//! What becomes of the interpreter's answers: how the outcome of one call
//! becomes the result of a single conversion, and how the outcomes of a run
//! of calls become the result of a batch.

use vstd::prelude::*;
use crate::error::{failure, text_of, BridgeError, BridgeErrorView, Step};
use crate::fault::{fault_text, format_js_exception, CaughtFault, FaultView};

verus! {

/// The outcome of one call of a script function: the string it returned,
/// or the fault that was caught.
pub type OutcomeView = Result<Seq<char>, FaultView>;

/// The result of a single conversion.
pub type Conversion = Result<Seq<char>, BridgeErrorView>;

/// The result of a batch.
pub type BatchConversion = Result<Seq<Seq<char>>, BridgeErrorView>;

/// An outcome, as a mathematical value.
pub open spec fn outcome_of(outcome: Result<String, CaughtFault>) -> OutcomeView {
    match outcome {
        Ok(text) => Ok(text@),
        Err(fault) => Err(fault@),
    }
}

/// A run of outcomes, as mathematical values.
pub open spec fn outcomes_of(outcomes: Seq<Result<String, CaughtFault>>) -> Seq<OutcomeView> {
    Seq::new(outcomes.len(), |i: int| outcome_of(outcomes[i]))
}

/// The characters of each string.
pub open spec fn texts_of(strings: Seq<String>) -> Seq<Seq<char>> {
    Seq::new(strings.len(), |i: int| strings[i]@)
}

/// The result of a single conversion, as a mathematical value.
pub open spec fn conversion_of(result: Result<String, BridgeError>) -> Conversion {
    match result {
        Ok(text) => Ok(text@),
        Err(error) => Err(error@),
    }
}

/// The result of a batch, as a mathematical value.
pub open spec fn batch_conversion_of(result: Result<Vec<String>, BridgeError>) -> BatchConversion {
    match result {
        Ok(strings) => Ok(texts_of(strings@)),
        Err(error) => Err(error@),
    }
}

/// The failure of a conversion whose call ended in `fault`. `input` is
/// given where the caller has to be told which input it was.
pub open spec fn conversion_failure(input: Option<Seq<char>>, fault: FaultView) -> BridgeErrorView {
    failure(Step::Call, input, fault_text(fault))
}

/// The result of a single conversion whose call ended in `outcome`: the
/// returned string as it is, or the failure that renders the fault.
pub open spec fn single_result(outcome: OutcomeView) -> Conversion {
    match outcome {
        Ok(text) => Ok(text),
        Err(fault) => Err(conversion_failure(None, fault)),
    }
}

/// Whether the outcome at position `k` is the first fault of the run.
pub open spec fn is_first_failure(outcomes: Seq<OutcomeView>, k: int) -> bool {
    &&& 0 <= k < outcomes.len()
    &&& outcomes[k] is Err
    &&& forall|j: int| 0 <= j < k ==> (#[trigger] outcomes[j]) is Ok
}

/// Whether the run holds a fault.
pub open spec fn has_failure(outcomes: Seq<OutcomeView>) -> bool {
    exists|k: int| is_first_failure(outcomes, k)
}

/// The position of the first fault of a run that holds one.
pub open spec fn first_failure(outcomes: Seq<OutcomeView>) -> int {
    choose|k: int| is_first_failure(outcomes, k)
}

/// The input at position `k`, where there is one.
pub open spec fn input_at(inputs: Seq<Seq<char>>, k: int) -> Option<Seq<char>> {
    if 0 <= k < inputs.len() {
        Some(inputs[k])
    } else {
        None
    }
}

/// The strings of a run without a fault, in the order of the run.
pub open spec fn returned_texts(outcomes: Seq<OutcomeView>) -> Seq<Seq<char>> {
    Seq::new(outcomes.len(), |i: int| outcomes[i]->Ok_0)
}

/// The result of a batch over `inputs` whose calls ended in `outcomes`, the
/// outcome at each position belonging to the input at that position.
///
/// A run without a fault gives the returned strings in order. Otherwise
/// the batch fails with the first fault, named after the input that caused
/// it, and nothing that was returned before it survives.
pub open spec fn batch_result(
    inputs: Seq<Seq<char>>,
    outcomes: Seq<OutcomeView>,
) -> BatchConversion {
    if has_failure(outcomes) {
        let k = first_failure(outcomes);
        Err(conversion_failure(input_at(inputs, k), outcomes[k]->Err_0))
    } else {
        Ok(returned_texts(outcomes))
    }
}

/// Whether `outcomes` is a finished run over `count` inputs: one outcome
/// for each input in order, up to and including the first fault, and none
/// after it.
pub open spec fn settled(count: nat, outcomes: Seq<OutcomeView>) -> bool {
    &&& outcomes.len() <= count
    &&& forall|j: int| 0 <= j < outcomes.len() - 1 ==> (#[trigger] outcomes[j]) is Ok
    &&& outcomes.len() < count ==> outcomes.len() > 0 && outcomes.last() is Err
}

/// A run has one first fault at most.
pub proof fn lemma_first_failure_unique(outcomes: Seq<OutcomeView>, k: int)
    requires
        is_first_failure(outcomes, k),
    ensures
        has_failure(outcomes),
        first_failure(outcomes) == k,
{
}

/// The failure of a conversion of `input` whose call ended in `fault`.
pub fn item_failure(input: Option<String>, fault: &CaughtFault) -> (r: BridgeError)
    ensures
        r@ == conversion_failure(text_of(input), fault@),
{
    let text = format_js_exception(fault);
    BridgeError::new(Step::Call, input, text.as_str())
}

/// Turns the outcome of the one call of a single conversion into the
/// conversion's result.
pub fn finish_single(outcome: Result<String, CaughtFault>) -> (r: Result<String, BridgeError>)
    ensures
        conversion_of(r) == single_result(outcome_of(outcome)),
{
    match outcome {
        Ok(text) => Ok(text),
        Err(fault) => Err(item_failure(None, &fault)),
    }
}

/// Turns the outcomes of a run of calls into the result of the batch over
/// `inputs`.
pub fn finish_batch(
    inputs: &[String],
    outcomes: Vec<Result<String, CaughtFault>>,
) -> (r: Result<Vec<String>, BridgeError>)
    ensures
        batch_conversion_of(r) == batch_result(texts_of(inputs@), outcomes_of(outcomes@)),
{
    let ghost run = outcomes_of(outcomes@);
    let count = outcomes.len();
    let mut results: Vec<String> = Vec::new();
    let mut position: usize = 0;
    for outcome in iter: outcomes.into_iter()
        invariant
            iter.seq() == outcomes@,
            count == outcomes@.len(),
            run == outcomes_of(outcomes@),
            position == iter.index(),
            results@.len() == iter.index(),
            forall|j: int|
                0 <= j < iter.index() ==> (#[trigger] run[j]) == Ok::<Seq<char>, FaultView>(
                    results@[j]@,
                ),
    {
        match outcome {
            Ok(text) => {
                results.push(text);
            },
            Err(fault) => {
                let input = if position < inputs.len() {
                    Some(inputs[position].clone())
                } else {
                    None
                };
                proof {
                    lemma_first_failure_unique(run, position as int);
                }
                return Err(item_failure(input, &fault));
            },
        }
        position = position + 1;
    }
    proof {
        assert(texts_of(results@) =~= returned_texts(run));
    }
    Ok(results)
}

} // verus!
