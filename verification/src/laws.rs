//! What holds of the dispatcher and of the loop, for every input.

use vstd::prelude::*;

use crate::dispatch::reply_for;
use crate::errors::RuntimeApiError;
use crate::messages::{FromOverseer, OverseerSignal};
use crate::metrics::{recorded, MetricsInner};
use crate::provider::RuntimeApiProvider;
use crate::subsystem::{
    is_conclude, is_request, items_read, next_step, outcome_recorded, recorded_all, requests_among,
    Step,
};

verus! {

/// An answer of the provider is replied as it is and counts as one success: the counter of
/// successes goes up by exactly one, unless it stands at `u64::MAX`, and the counter of
/// failures stays.
pub proof fn law_answer_is_passed_on_and_counted<T>(before: MetricsInner, value: T)
    requires
        before.succeeded < u64::MAX,
    ensures
        reply_for(Ok::<T, String>(value)) == Ok::<T, RuntimeApiError>(value),
        recorded(Some(before), Ok::<T, String>(value) is Ok) matches Some(after)
            && after.succeeded == before.succeeded + 1 && after.failed == before.failed,
{
}

/// A failure of the provider is replied as an error that holds its text and counts as one
/// failure: the counter of failures goes up by exactly one, unless it stands at
/// `u64::MAX`, and the counter of successes stays.
pub proof fn law_failure_is_replied_and_counted<T>(before: MetricsInner, text: String)
    requires
        before.failed < u64::MAX,
    ensures
        reply_for(Err::<T, String>(text)) == Err::<T, RuntimeApiError>(RuntimeApiError(text)),
        recorded(Some(before), Err::<T, String>(text) is Ok) matches Some(after) && after.failed
            == before.failed + 1 && after.succeeded == before.succeeded,
{
}

/// An answer that says "no such entry" is an answer: it is replied as `Ok(None)` and counts
/// as a success.
pub proof fn law_absent_is_a_success<T>(before: MetricsInner)
    requires
        before.succeeded < u64::MAX,
    ensures
        reply_for(Ok::<Option<T>, String>(None)) == Ok::<Option<T>, RuntimeApiError>(None),
        recorded(Some(before), Ok::<Option<T>, String>(None) is Ok) matches Some(after)
            && after.succeeded == before.succeeded + 1 && after.failed == before.failed,
{
}

/// A recorder that is disabled stays disabled, whatever is recorded.
pub proof fn law_disabled_records_nothing(outcomes: Seq<bool>)
    ensures
        recorded_all(None, outcomes) is None,
    decreases outcomes.len(),
{
    if outcomes.len() > 0 {
        law_disabled_records_nothing(outcomes.drop_last());
    }
}

/// Neither counter ever goes down, and as long as none reaches `u64::MAX` the two together
/// go up by one for each outcome.
pub proof fn law_counters_grow(before: MetricsInner, outcomes: Seq<bool>)
    ensures
        recorded_all(Some(before), outcomes) matches Some(after) && after.succeeded
            >= before.succeeded && after.failed >= before.failed && (before.succeeded
            + before.failed + outcomes.len() <= u64::MAX ==> after.succeeded + after.failed
            == before.succeeded + before.failed + outcomes.len()),
    decreases outcomes.len(),
{
    if outcomes.len() > 0 {
        law_counters_grow(before, outcomes.drop_last());
    }
}

/// The loop stops at the first signal to conclude: where it stands at `index`, exactly
/// the items up to and with it are read, so that no request behind it is dispatched.
pub proof fn law_conclude_ends_the_loop(items: Seq<FromOverseer>, index: int)
    requires
        0 <= index < items.len(),
        is_conclude(items[index]),
        forall|i: int| 0 <= i < index ==> !is_conclude(#[trigger] items[i]),
    ensures
        items_read(items) == index + 1,
        requests_among(items.take(items_read(items) as int)) == requests_among(items.take(index)),
        next_step(Ok::<FromOverseer, ()>(items[index])) == Step::Stop(Ok::<(), ()>(())),
    decreases index,
{
    if index > 0 {
        let rest = items.skip(1);
        assert forall|i: int| 0 <= i < index - 1 implies !is_conclude(#[trigger] rest[i]) by {
            assert(rest[i] == items[i + 1]);
        }
        law_conclude_ends_the_loop(rest, index - 1);
    }
    assert(items.take(index + 1).drop_last() == items.take(index));
}

/// A signal other than the one to conclude records nothing, and the loop goes on to the
/// next item.
pub proof fn law_other_signals_change_nothing<Client: RuntimeApiProvider>(
    client: &Client,
    signal: OverseerSignal,
    before: Option<MetricsInner>,
    after: Option<MetricsInner>,
)
    requires
        !(signal is Conclude),
        outcome_recorded(client, Ok::<FromOverseer, ()>(FromOverseer::Signal(signal)), before, after),
    ensures
        after == before,
        next_step(Ok::<FromOverseer, ()>(FromOverseer::Signal(signal))) is Continue,
        !is_request(FromOverseer::Signal(signal)),
{
}

} // verus!
