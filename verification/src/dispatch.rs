//! Turning one request into one provider call, one recorded outcome and one reply.

use futures::channel::oneshot::Sender;
use polkadot_primitives::{
    CandidateEvent, CommittedCandidateReceiptV2, CoreState, GroupRotationInfo, OccupiedCoreAssumption,
    PersistedValidationData, ValidationCode, ValidatorId, ValidatorIndex,
};
use vstd::prelude::*;

use crate::errors::RuntimeApiError;
use crate::messages::{Request, RuntimeApiSender};
use crate::metrics::{recorded, Metrics};
use crate::primitives::{BlockHash, ValidationData};
use crate::provider::RuntimeApiProvider;

verus! {

/// The reply that stands for a provider's answer: a value is passed on as it is, also a
/// value that says "no such entry"; a failure becomes the one error kind, with its text.
pub open spec fn reply_for<T>(answer: Result<T, String>) -> Result<T, RuntimeApiError> {
    match answer {
        Ok(value) => Ok(value),
        Err(text) => Err(RuntimeApiError(text)),
    }
}

/// Computes the reply for a provider's answer.
pub fn classify<T>(answer: Result<T, String>) -> (reply: Result<T, RuntimeApiError>)
    ensures
        reply == reply_for(answer),
{
    match answer {
        Ok(value) => Ok(value),
        Err(text) => Err(RuntimeApiError(text)),
    }
}

/// Calls `futures::channel::oneshot::Sender::send`, which uses the channel up. It gives
/// `Ok(())` when the value was left for the receiving end, and hands the same value back in
/// `Err` when the receiving end is gone.
#[verifier::external_body]
fn send_reply<T>(sender: Sender<T>, value: T) -> (fate: Result<(), T>)
    ensures
        fate matches Err(back) ==> back == value,
{
    sender.send(value)
}

/// Answers one request from what the provider gave: records the outcome, then writes the
/// reply into the channel, once. The result tells what became of the reply: `Ok` when it
/// was left for the caller, `Err` with the reply when the caller had stopped listening.
pub fn respond<T>(metrics: &mut Metrics, sender: RuntimeApiSender<T>, answer: Result<T, String>) -> (fate:
    Result<(), Result<T, RuntimeApiError>>)
    ensures
        final(metrics)@ == recorded(old(metrics)@, answer is Ok),
        fate matches Err(back) ==> back == reply_for(answer),
{
    let reply = classify(answer);
    metrics.on_request(reply.is_ok());
    send_reply(sender, reply)
}

/// Whether the provider may answer the request with the given outcome: whether the one
/// operation that the request stands for, asked about the state at `relay_parent` with the
/// parameters that the request carries, may give an answer that is a value (`succeeded`) or
/// a failure (not `succeeded`).
pub open spec fn may_answer<Client: RuntimeApiProvider>(
    client: &Client,
    relay_parent: BlockHash,
    request: Request,
    succeeded: bool,
) -> bool {
    match request {
        Request::Validators(_) => exists|answer: Result<Vec<ValidatorId>, String>|
            #[trigger] call_ensures(Client::validators, (client, relay_parent), answer) && (answer is Ok)
                == succeeded,
        Request::ValidatorGroups(_) => exists|
            answer: Result<(Vec<Vec<ValidatorIndex>>, GroupRotationInfo<u32>), String>,
        |
            #[trigger] call_ensures(Client::validator_groups, (client, relay_parent), answer) && (answer
                is Ok) == succeeded,
        Request::AvailabilityCores(_) => exists|answer: Result<Vec<CoreState<BlockHash, u32>>, String>|
            #[trigger] call_ensures(Client::availability_cores, (client, relay_parent), answer) && (
            answer is Ok) == succeeded,
        Request::PersistedValidationData(para, assumption, _) => exists|
            answer: Result<Option<PersistedValidationData<BlockHash, u32>>, String>,
        |
            #[trigger] call_ensures(
                Client::persisted_validation_data,
                (client, relay_parent, para, assumption),
                answer,
            ) && (answer is Ok) == succeeded,
        Request::FullValidationData(para, assumption, _) => exists|
            answer: Result<Option<ValidationData>, String>,
        |
            #[trigger] call_ensures(
                Client::full_validation_data,
                (client, relay_parent, para, assumption),
                answer,
            ) && (answer is Ok) == succeeded,
        Request::SessionIndexForChild(_) => exists|answer: Result<u32, String>|
            #[trigger] call_ensures(Client::session_index_for_child, (client, relay_parent), answer) && (
            answer is Ok) == succeeded,
        Request::ValidationCode(para, assumption, _) => exists|
            answer: Result<Option<ValidationCode>, String>,
        |
            #[trigger] call_ensures(
                Client::validation_code,
                (client, relay_parent, para, assumption),
                answer,
            ) && (answer is Ok) == succeeded,
        Request::CandidatePendingAvailability(para, _) => exists|
            answer: Result<Option<CommittedCandidateReceiptV2<BlockHash>>, String>,
        |
            #[trigger] call_ensures(
                Client::candidate_pending_availability,
                (client, relay_parent, para),
                answer,
            ) && (answer is Ok) == succeeded,
        Request::CandidateEvents(_) => exists|answer: Result<Vec<CandidateEvent<BlockHash>>, String>|
            #[trigger] call_ensures(Client::candidate_events, (client, relay_parent), answer) && (answer
                is Ok) == succeeded,
    }
}

/// Serves one request against the state at `relay_parent`: asks the provider the one
/// question that the request stands for, records whether it answered, and replies on the
/// channel of the request. A caller that no longer listens is no error.
///
/// Exactly one outcome is recorded, and it is that of an answer which the provider may
/// give to this request.
pub fn make_runtime_api_request<Client: RuntimeApiProvider>(
    client: &Client,
    metrics: &mut Metrics,
    relay_parent: BlockHash,
    request: Request,
)
    ensures
        exists|succeeded: bool| #[trigger]
            may_answer(client, relay_parent, request, succeeded) && final(metrics)@ == recorded(
                old(metrics)@,
                succeeded,
            ),
{
    let ghost asked = request;
    match request {
        Request::Validators(sender) => {
            let answer = client.validators(relay_parent);
            assert(may_answer(client, relay_parent, asked, answer is Ok));
            let _ = respond(metrics, sender, answer);
        },
        Request::ValidatorGroups(sender) => {
            let answer = client.validator_groups(relay_parent);
            assert(may_answer(client, relay_parent, asked, answer is Ok));
            let _ = respond(metrics, sender, answer);
        },
        Request::AvailabilityCores(sender) => {
            let answer = client.availability_cores(relay_parent);
            assert(may_answer(client, relay_parent, asked, answer is Ok));
            let _ = respond(metrics, sender, answer);
        },
        Request::PersistedValidationData(para, assumption, sender) => {
            let answer = client.persisted_validation_data(relay_parent, para, assumption);
            assert(may_answer(client, relay_parent, asked, answer is Ok));
            let _ = respond(metrics, sender, answer);
        },
        Request::FullValidationData(para, assumption, sender) => {
            let answer = client.full_validation_data(relay_parent, para, assumption);
            assert(may_answer(client, relay_parent, asked, answer is Ok));
            let _ = respond(metrics, sender, answer);
        },
        Request::SessionIndexForChild(sender) => {
            let answer = client.session_index_for_child(relay_parent);
            assert(may_answer(client, relay_parent, asked, answer is Ok));
            let _ = respond(metrics, sender, answer);
        },
        Request::ValidationCode(para, assumption, sender) => {
            let answer = client.validation_code(relay_parent, para, assumption);
            assert(may_answer(client, relay_parent, asked, answer is Ok));
            let _ = respond(metrics, sender, answer);
        },
        Request::CandidatePendingAvailability(para, sender) => {
            let answer = client.candidate_pending_availability(relay_parent, para);
            assert(may_answer(client, relay_parent, asked, answer is Ok));
            let _ = respond(metrics, sender, answer);
        },
        Request::CandidateEvents(sender) => {
            let answer = client.candidate_events(relay_parent);
            assert(may_answer(client, relay_parent, asked, answer is Ok));
            let _ = respond(metrics, sender, answer);
        },
    }
}

} // verus!
