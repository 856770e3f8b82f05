//! What holds between the single form and the batch form of a conversion,
//! and of the failures of both, for every way the interpreter may answer.

use vstd::prelude::*;
use crate::error::{BridgeErrorView, ErrorKind, HostException};
use crate::fault::{fault_text, FaultView};
use crate::options::OptionEntries;
use crate::outcome::{
    batch_result,
    conversion_failure,
    first_failure,
    has_failure,
    is_first_failure,
    lemma_first_failure_unique,
    returned_texts,
    settled,
    single_result,
    OutcomeView,
};
use crate::session::init_failure;
use crate::translate::{binding_failure, translation_failure};

verus! {

/// A batch of one input gives what the single form gives. Where the one
/// call returns a string, the single form returns it and the batch returns
/// it alone. Where the call ends in a fault, both fail with the same
/// rendering of the fault, and only the batch names the input.
pub proof fn law_single_equals_batch_of_one(input: Seq<char>, outcome: OutcomeView)
    ensures
        settled(1, seq![outcome]),
        outcome matches Ok(text) ==> {
            &&& single_result(outcome) == Ok::<Seq<char>, BridgeErrorView>(text)
            &&& batch_result(seq![input], seq![outcome]) == Ok::<Seq<Seq<char>>, BridgeErrorView>(
                seq![text],
            )
        },
        outcome matches Err(fault) ==> {
            &&& single_result(outcome) == Err::<Seq<char>, BridgeErrorView>(
                conversion_failure(None, fault),
            )
            &&& batch_result(seq![input], seq![outcome]) == Err::<Seq<Seq<char>>, BridgeErrorView>(
                conversion_failure(Some(input), fault),
            )
        },
{
    let outcomes = seq![outcome];
    match outcome {
        Ok(text) => {
            assert(returned_texts(outcomes) =~= seq![text]);
        },
        Err(fault) => {
            lemma_first_failure_unique(outcomes, 0);
        },
    }
}

/// A batch keeps the order of its inputs: where every call returns, the
/// batch returns as many strings as there are inputs, and the string at
/// each position is what the single form makes of the call on the input at
/// that position.
pub proof fn law_batch_preserves_order(inputs: Seq<Seq<char>>, outcomes: Seq<OutcomeView>)
    requires
        outcomes.len() == inputs.len(),
        forall|i: int| 0 <= i < outcomes.len() ==> (#[trigger] outcomes[i]) is Ok,
    ensures
        settled(inputs.len(), outcomes),
        batch_result(inputs, outcomes) matches Ok(texts) ==> {
            &&& texts.len() == inputs.len()
            &&& forall|i: int|
                0 <= i < inputs.len() ==> Ok::<Seq<char>, BridgeErrorView>(#[trigger] texts[i])
                    == single_result(outcomes[i])
        },
        batch_result(inputs, outcomes) is Ok,
{
}

/// A batch stops at the first input whose call fails: where the call on
/// the input at position `k` ends in a fault and every call before it
/// returned, the batch fails, its failure names that input and renders
/// that fault, and no string is returned.
pub proof fn law_batch_stops_at_first_failure(
    inputs: Seq<Seq<char>>,
    outcomes: Seq<OutcomeView>,
    k: int,
)
    requires
        0 <= k < inputs.len(),
        is_first_failure(outcomes, k),
    ensures
        batch_result(inputs, outcomes) == Err::<Seq<Seq<char>>, BridgeErrorView>(
            conversion_failure(Some(inputs[k]), outcomes[k]->Err_0),
        ),
        conversion_failure(Some(inputs[k]), outcomes[k]->Err_0).subject == Some(inputs[k]),
        conversion_failure(Some(inputs[k]), outcomes[k]->Err_0).message == "Conversion failed"@
            + " for '"@ + inputs[k] + "': "@ + fault_text(outcomes[k]->Err_0),
{
}

/// A finished run that is shorter than the batch ends in a fault, and that
/// fault is the first: no call was made after it.
pub proof fn law_nothing_after_failure(count: nat, outcomes: Seq<OutcomeView>)
    requires
        settled(count, outcomes),
    ensures
        has_failure(outcomes) ==> first_failure(outcomes) == outcomes.len() - 1,
        !has_failure(outcomes) ==> outcomes.len() == count,
{
    if !has_failure(outcomes) && outcomes.len() < count {
        assert(is_first_failure(outcomes, outcomes.len() - 1));
    }
}

/// Each failure lies in the family of the operation that failed, and is
/// reported by that family's class of exception, but for a refused JSON
/// text, which is the one failure of translation that is a value error.
pub proof fn law_failures_keep_to_their_family(
    error: BridgeErrorView,
    name: Seq<char>,
    entries: OptionEntries,
    input: Option<Seq<char>>,
    fault: FaultView,
)
    ensures
        init_failure(error) ==> {
            &&& error.step.spec_kind() == ErrorKind::EngineInit
            &&& error.step.spec_host_exception() == HostException::RuntimeError
        },
        error == binding_failure(name) ==> {
            &&& error.step.spec_kind() == ErrorKind::Binding
            &&& error.step.spec_host_exception() == HostException::AttributeError
            &&& error.subject == Some(name)
        },
        translation_failure(entries, error) ==> {
            &&& error.step.spec_kind() == ErrorKind::Translation
            &&& error.step.spec_host_exception() != HostException::AttributeError
        },
        error == conversion_failure(input, fault) ==> {
            &&& error.step.spec_kind() == ErrorKind::Conversion
            &&& error.step.spec_host_exception() == HostException::ValueError
            &&& error.subject == input
        },
{
}

} // verus!
