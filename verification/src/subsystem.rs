//! The subsystem and its message loop.

use std::collections::VecDeque;
use vstd::prelude::*;

use crate::dispatch::{make_runtime_api_request, may_answer};
use crate::errors::SubsystemError;
use crate::messages::{FromOverseer, OverseerSignal, RuntimeApiMessage};
use crate::metrics::{recorded, Metrics, MetricsInner};
use crate::provider::RuntimeApiProvider;

verus! {

/// The subsystem: a provider of answers and the recorder of the outcomes.
pub struct RuntimeApiSubsystem<Client> {
    pub client: Client,
    pub metrics: Metrics,
}

/// What the loop does after one item of the mailbox.
pub enum Step<E> {
    /// Read the next item.
    Continue,
    /// Read no more; the loop ends with this result.
    Stop(Result<(), E>),
}

/// Whether the item is the signal that ends the loop.
pub open spec fn is_conclude(item: FromOverseer) -> bool {
    item matches FromOverseer::Signal(OverseerSignal::Conclude)
}

/// Whether the item is a request, the one kind of item that is dispatched.
pub open spec fn is_request(item: FromOverseer) -> bool {
    item is Communication
}

/// The number of items that the loop reads from a mailbox holding `items`: all up to and
/// with the first signal to conclude, or all of them where there is none.
pub open spec fn items_read(items: Seq<FromOverseer>) -> nat
    decreases items.len(),
{
    if items.len() == 0 {
        0
    } else if is_conclude(items[0]) {
        1
    } else {
        1 + items_read(items.skip(1))
    }
}

/// Whether the loop finds a signal to conclude among `items`.
pub open spec fn concludes(items: Seq<FromOverseer>) -> bool {
    exists|i: int| 0 <= i < items.len() && is_conclude(#[trigger] items[i])
}

/// The requests among `items`, in their order.
pub open spec fn requests_among(items: Seq<FromOverseer>) -> Seq<FromOverseer>
    decreases items.len(),
{
    if items.len() == 0 {
        Seq::empty()
    } else if is_request(items.last()) {
        requests_among(items.drop_last()).push(items.last())
    } else {
        requests_among(items.drop_last())
    }
}

/// Whether the provider may answer the request that the item holds with the given outcome.
/// An item that is no request has no outcome.
pub open spec fn may_answer_item<Client: RuntimeApiProvider>(
    client: &Client,
    item: FromOverseer,
    succeeded: bool,
) -> bool {
    match item {
        FromOverseer::Communication { msg: RuntimeApiMessage::Request(relay_parent, request) } => may_answer(
            client,
            relay_parent,
            request,
            succeeded,
        ),
        FromOverseer::Signal(_) => false,
    }
}

/// The counters after the outcomes were recorded one after the other.
pub open spec fn recorded_all(before: Option<MetricsInner>, outcomes: Seq<bool>) -> Option<
    MetricsInner,
>
    decreases outcomes.len(),
{
    if outcomes.len() == 0 {
        before
    } else {
        recorded(recorded_all(before, outcomes.drop_last()), outcomes.last())
    }
}

/// How the loop goes on after a read of the mailbox gave `received`: a failed read ends
/// it with that error, the signal to conclude ends it in good order, and after anything
/// else the next item is read.
pub open spec fn next_step<E>(received: Result<FromOverseer, E>) -> Step<E> {
    match received {
        Err(error) => Step::Stop(Err(error)),
        Ok(item) => if is_conclude(item) {
            Step::Stop(Ok(()))
        } else {
            Step::Continue
        },
    }
}

/// How the counters move when a read of the mailbox gave `received`: a request records one
/// outcome, that of an answer which the provider may give to it, and nothing else records
/// anything.
pub open spec fn outcome_recorded<Client: RuntimeApiProvider, E>(
    client: &Client,
    received: Result<FromOverseer, E>,
    before: Option<MetricsInner>,
    after: Option<MetricsInner>,
) -> bool {
    match received {
        Ok(item) => if is_request(item) {
            exists|succeeded: bool| #[trigger]
                may_answer_item(client, item, succeeded) && after == recorded(before, succeeded)
        } else {
            after == before
        },
        Err(_) => after == before,
    }
}

impl<Client> RuntimeApiSubsystem<Client> {
    /// Create a new Runtime API subsystem wrapping the given client and metrics.
    pub fn new(client: Client, metrics: Metrics) -> (subsystem: Self)
        ensures
            subsystem.client == client,
            subsystem.metrics == metrics,
    {
        RuntimeApiSubsystem { client, metrics }
    }
}

impl<Client: RuntimeApiProvider> RuntimeApiSubsystem<Client> {
    /// Takes what a read of the mailbox gave and says how the loop goes on.
    ///
    /// A failed read ends the loop with its error. The signal to conclude ends it in good
    /// order. Any other signal changes nothing. A request is dispatched at once, which
    /// records the outcome of the provider's answer; the loop goes on whatever that was.
    pub fn step<E>(&mut self, received: Result<FromOverseer, E>) -> (next: Step<E>)
        ensures
            final(self).client == old(self).client,
            next == next_step(received),
            outcome_recorded(&old(self).client, received, old(self).metrics@, final(self).metrics@),
    {
        let ghost before = self.metrics@;
        match received {
            Err(error) => Step::Stop(Err(error)),
            Ok(FromOverseer::Signal(OverseerSignal::Conclude)) => Step::Stop(Ok(())),
            Ok(FromOverseer::Signal(OverseerSignal::ActiveLeaves(_))) => Step::Continue,
            Ok(FromOverseer::Signal(OverseerSignal::BlockFinalized(_))) => Step::Continue,
            Ok(FromOverseer::Communication { msg }) => {
                match msg {
                    RuntimeApiMessage::Request(relay_parent, request) => {
                        make_runtime_api_request(
                            &self.client,
                            &mut self.metrics,
                            relay_parent,
                            request,
                        );
                        proof {
                            let succeeded = choose|succeeded: bool| #[trigger]
                                may_answer(&self.client, relay_parent, request, succeeded)
                                    && self.metrics@ == recorded(before, succeeded);
                            assert(may_answer_item(
                                &self.client,
                                FromOverseer::Communication {
                                    msg: RuntimeApiMessage::Request(relay_parent, request),
                                },
                                succeeded,
                            ));
                        }
                    },
                }
                Step::Continue
            },
        }
    }
}

/// Whether `outcomes` are outcomes of a run of the loop over a mailbox that held `items`:
/// there is one for each request among the items that the loop reads, in their order, and
/// each is the outcome of an answer that the provider may give to its request.
pub open spec fn outcomes_of_run<Client: RuntimeApiProvider>(
    client: &Client,
    items: Seq<FromOverseer>,
    outcomes: Seq<bool>,
) -> bool {
    let requests = requests_among(items.take(items_read(items) as int));
    &&& outcomes.len() == requests.len()
    &&& forall|k: int|
        0 <= k < requests.len() ==> may_answer_item(client, #[trigger] requests[k], outcomes[k])
}

/// Runs the message loop over a mailbox that is closed: nothing arrives while the loop
/// runs. Items are read from the front, one at a time, and each request is dispatched
/// before the next item is read.
///
/// The loop ends in good order at the first signal to conclude, and what stood behind that
/// signal stays in the mailbox, unread. A mailbox that runs empty before such a signal
/// came is a failed read, and ends the loop with `SubsystemError::MailboxClosed`.
pub fn run<Client: RuntimeApiProvider>(
    mailbox: &mut VecDeque<FromOverseer>,
    subsystem: &mut RuntimeApiSubsystem<Client>,
) -> (result: Result<(), SubsystemError>)
    ensures
        final(subsystem).client == old(subsystem).client,
        items_read(old(mailbox)@) <= old(mailbox)@.len(),
        final(mailbox)@ == old(mailbox)@.skip(items_read(old(mailbox)@) as int),
        result is Ok <==> concludes(old(mailbox)@),
        exists|outcomes: Seq<bool>|
            #[trigger] outcomes_of_run(&old(subsystem).client, old(mailbox)@, outcomes) && final(subsystem).metrics@
                == recorded_all(old(subsystem).metrics@, outcomes),
{
    let ghost items = mailbox@;
    let ghost start = subsystem.metrics@;
    let ghost mut read: int = 0;
    let ghost mut outcomes: Seq<bool> = Seq::empty();
    loop
        invariant
            items == old(mailbox)@,
            start == old(subsystem).metrics@,
            0 <= read <= items.len(),
            mailbox@ == items.skip(read),
            forall|i: int| 0 <= i < read ==> !is_conclude(#[trigger] items[i]),
            items_read(items) == read + items_read(mailbox@),
            outcomes.len() == requests_among(items.take(read)).len(),
            forall|k: int|
                0 <= k < outcomes.len() ==> may_answer_item(
                    &old(subsystem).client,
                    #[trigger] requests_among(items.take(read))[k],
                    outcomes[k],
                ),
            subsystem.metrics@ == recorded_all(start, outcomes),
            subsystem.client == old(subsystem).client,
        decreases mailbox@.len(),
    {
        let ghost before = mailbox@;
        let ghost counters = subsystem.metrics@;
        let received = match mailbox.pop_front() {
            Some(item) => Ok(item),
            None => Err(SubsystemError::MailboxClosed),
        };
        proof {
            if received is Ok {
                assert(before.skip(1) == mailbox@);
                assert(items.take(read + 1).drop_last() == items.take(read));
            }
        }
        let next = subsystem.step(received);
        proof {
            if received is Ok {
                if is_request(items[read]) {
                    let outcome = choose|succeeded: bool| #[trigger]
                        may_answer_item(&old(subsystem).client, items[read], succeeded)
                            && subsystem.metrics@ == recorded(counters, succeeded);
                    let ghost longer = outcomes.push(outcome);
                    assert(longer.drop_last() == outcomes);
                    outcomes = longer;
                }
                if !is_conclude(items[read]) {
                    read = read + 1;
                }
            }
        }
        match next {
            Step::Continue => {},
            Step::Stop(result) => {
                proof {
                    if received is Ok {
                        assert(items.take(read + 1).drop_last() == items.take(read));
                    } else {
                        assert(items.take(read) == items);
                    }
                    assert(outcomes_of_run(&old(subsystem).client, items, outcomes));
                }
                return result;
            },
        }
    }
}

} // verus!
