//! The accept loop: what follows each accepted connection and each
//! failure, and the sequence of incoming connections.

use vstd::prelude::*;
use crate::addr::VsockAddr;
use crate::error::{ErrorKind, IoError};
use crate::listener::{ignorable, is_ignorable, AcceptError, AcceptErrorClass, VsockListener};
use crate::stream::VsockStream;

verus! {

/// The seconds that the accept loop waits after a failure that is neither
/// transient nor fatal, before it accepts again.
pub const ACCEPT_BACKOFF_SECS: u64 = 1;

/// When the accept loop accepts again after a failure.
#[derive(Clone, Copy, Debug, PartialEq, Eq, Hash)]
pub enum Retry {
    /// At once, with no delay.
    Now,
    /// After waiting this many seconds.
    After { secs: u64 },
}

/// When the loop accepts again after a failure of the given category: at
/// once after a failure of an ignorable category, after the fixed backoff
/// after any other. Nothing but the category decides.
pub open spec fn retry_after(kind: ErrorKind) -> Retry {
    if ignorable(kind) {
        Retry::Now
    } else {
        Retry::After { secs: ACCEPT_BACKOFF_SECS }
    }
}

/// Decides when the loop accepts again after the failure `err`.
pub fn handle_accept_error(err: &IoError) -> (retry: Retry)
    ensures
        retry == retry_after(err.kind),
{
    if is_ignorable(err.kind) {
        Retry::Now
    } else {
        Retry::After { secs: ACCEPT_BACKOFF_SECS }
    }
}

/// What the driver reports to the accept loop.
#[derive(Debug, PartialEq, Eq)]
pub enum AcceptEvent {
    /// A connection is asked for.
    Polled,
    /// Polling the accept has ended with a connection or with a failure.
    Accepted(Result<(VsockStream, VsockAddr), AcceptError>),
    /// The wait that the loop asked for is over.
    Elapsed,
}

/// What the driver has to do next.
#[derive(Debug, PartialEq, Eq)]
pub enum AcceptAction {
    /// Poll an accept until it ends, without delay.
    PollAccept,
    /// Wait this many seconds.
    Sleep { secs: u64 },
    /// Hand this connection to the consumer: the stream and the address of
    /// its remote endpoint.
    Yield(VsockStream, VsockAddr),
    /// Hand this failure to the consumer; nothing follows it.
    Fail(IoError),
    /// The sequence has ended before; there is nothing to hand out.
    End,
}

/// True exactly when the event is a failure of the given class.
pub open spec fn failure_of(event: AcceptEvent, class: AcceptErrorClass) -> bool {
    event matches AcceptEvent::Accepted(Err(e)) && e.class() == class
}

/// The action that follows `event` in the accept loop of a listener, which
/// has to come to a connection and cannot hand out a failure.
///
/// A connection is handed out as it came. After a failure of an ignorable
/// category the accept is polled again at once. After every other failure
/// the loop waits for the fixed backoff, once, and polls again when the
/// wait is over. Nothing but the category of the failure decides.
pub open spec fn accept_action(event: AcceptEvent) -> AcceptAction {
    match event {
        AcceptEvent::Polled => AcceptAction::PollAccept,
        AcceptEvent::Elapsed => AcceptAction::PollAccept,
        AcceptEvent::Accepted(Ok((stream, peer))) => AcceptAction::Yield(stream, peer),
        AcceptEvent::Accepted(Err(e)) => match retry_after(e.error.kind) {
            Retry::Now => AcceptAction::PollAccept,
            Retry::After { secs } => AcceptAction::Sleep { secs },
        },
    }
}

/// The action that follows `event` in a sequence of incoming connections
/// that has not ended: that of the accept loop, but that a fatal failure is
/// handed out, as the last thing that the sequence hands out.
pub open spec fn incoming_action(event: AcceptEvent) -> AcceptAction {
    if failure_of(event, AcceptErrorClass::Fatal) {
        AcceptAction::Fail(event->Accepted_0->Err_0.error)
    } else {
        accept_action(event)
    }
}

/// Whether the sequence has ended after `event`, and the action that
/// follows it. A sequence that has ended stays ended and hands out nothing;
/// a sequence ends by nothing but a fatal failure.
pub open spec fn incoming_step(ended: bool, event: AcceptEvent) -> (bool, AcceptAction) {
    if ended {
        (true, AcceptAction::End)
    } else {
        (failure_of(event, AcceptErrorClass::Fatal), incoming_action(event))
    }
}

/// Whether the sequence has ended after all of `events`, and the actions
/// that followed them, one for each event.
pub open spec fn incoming_run(ended: bool, events: Seq<AcceptEvent>) -> (bool, Seq<AcceptAction>)
    decreases events.len(),
{
    if events.len() == 0 {
        (ended, Seq::empty())
    } else {
        let before = incoming_run(ended, events.drop_last());
        let last = incoming_step(before.0, events.last());
        (last.0, before.1.push(last.1))
    }
}

/// The step of the accept loop of a listener.
fn accept_step(event: AcceptEvent) -> (action: AcceptAction)
    ensures
        action == accept_action(event),
{
    match event {
        AcceptEvent::Polled => AcceptAction::PollAccept,
        AcceptEvent::Elapsed => AcceptAction::PollAccept,
        AcceptEvent::Accepted(accepted) => match accepted {
            Ok((stream, peer)) => AcceptAction::Yield(stream, peer),
            Err(e) => match handle_accept_error(&e.error) {
                Retry::Now => AcceptAction::PollAccept,
                Retry::After { secs } => AcceptAction::Sleep { secs },
            },
        },
    }
}

/// The step of a sequence that has not ended.
fn step(event: AcceptEvent) -> (r: (bool, AcceptAction))
    ensures
        r == incoming_step(false, event),
{
    match event {
        AcceptEvent::Accepted(Err(e)) => match e.classify() {
            AcceptErrorClass::Fatal => (true, AcceptAction::Fail(e.error)),
            _ => (false, accept_step(AcceptEvent::Accepted(Err(e)))),
        },
        _ => (false, accept_step(event)),
    }
}

impl VsockListener {
    /// One step of accepting the next connection in a loop that cannot
    /// hand out a failure: it ends with a connection and with nothing else.
    pub fn accept(&self, event: AcceptEvent) -> (action: AcceptAction)
        ensures
            action == accept_action(event),
            !(action is Fail),
            !(action is End),
    {
        accept_step(event)
    }

    /// The sequence of the connections that come in on this listener. The
    /// listener is consumed: the sequence is walked once.
    pub fn incoming(self) -> (incoming: Incoming)
        ensures
            incoming@ == (IncomingState { listener: self@, ended: false }),
    {
        Incoming { listener: self, ended: false }
    }
}

/// What a sequence of incoming connections stands for: the listening
/// descriptor, and whether the sequence has ended.
pub struct IncomingState {
    pub listener: int,
    pub ended: bool,
}

/// The sequence of the connections that come in on a listener. It has no
/// end of its own: it ends only by a fatal failure.
#[derive(Debug)]
pub struct Incoming {
    listener: VsockListener,
    ended: bool,
}

impl View for Incoming {
    type V = IncomingState;

    closed spec fn view(&self) -> IncomingState {
        IncomingState { listener: self.listener@, ended: self.ended }
    }
}

impl Incoming {
    /// The listener whose connections the sequence hands out.
    pub fn get_ref(&self) -> (listener: &VsockListener)
        ensures
            listener@ == self@.listener,
    {
        &self.listener
    }

    /// Tells whether the sequence has ended.
    pub fn is_ended(&self) -> (b: bool)
        ensures
            b == self@.ended,
    {
        self.ended
    }

    /// One step of asking the sequence for its next connection.
    pub fn poll_next(&mut self, event: AcceptEvent) -> (action: AcceptAction)
        ensures
            (final(self)@.ended, action) == incoming_step(old(self)@.ended, event),
            final(self)@.listener == old(self)@.listener,
    {
        if self.ended {
            AcceptAction::End
        } else {
            let (ended, action) = step(event);
            self.ended = ended;
            action
        }
    }
}

/// True exactly when none of the first `n` events is a fatal failure.
pub open spec fn alive_before(events: Seq<AcceptEvent>, n: int) -> bool {
    forall|j: int| 0 <= j < n && j < events.len() ==> !failure_of(
        #[trigger] events[j],
        AcceptErrorClass::Fatal,
    )
}

/// What a sequence that has not ended does with any events: it answers
/// each event with one action; as long as no fatal failure has come, the
/// action is `incoming_action` of the event, which hands out the first
/// fatal failure; after that failure every action is `End`; and the
/// sequence has ended exactly when a fatal failure has come.
pub proof fn lemma_incoming_run(events: Seq<AcceptEvent>)
    ensures
        incoming_run(false, events).1.len() == events.len(),
        incoming_run(false, events).0 == !alive_before(events, events.len() as int),
        forall|i: int|
            0 <= i < events.len() ==> (#[trigger] incoming_run(false, events).1[i]) == (
            if alive_before(events, i) {
                incoming_action(events[i])
            } else {
                AcceptAction::End
            }),
    decreases events.len(),
{
    if events.len() > 0 {
        let front = events.drop_last();
        lemma_incoming_run(front);
        let before = incoming_run(false, front);
        let n = front.len() as int;
        assert forall|i: int| 0 <= i <= n implies alive_before(front, i) == alive_before(
            events,
            i,
        ) by {
            if alive_before(front, i) {
                assert forall|j: int| 0 <= j < i && j < events.len() implies !failure_of(
                    #[trigger] events[j],
                    AcceptErrorClass::Fatal,
                ) by {
                    assert(front[j] == events[j]);
                }
            }
            if alive_before(events, i) {
                assert forall|j: int| 0 <= j < i && j < front.len() implies !failure_of(
                    #[trigger] front[j],
                    AcceptErrorClass::Fatal,
                ) by {
                    assert(front[j] == events[j]);
                }
            }
        }
        assert(alive_before(events, n + 1) == (alive_before(events, n) && !failure_of(
            events[n],
            AcceptErrorClass::Fatal,
        ))) by {
            if alive_before(events, n) && !failure_of(events[n], AcceptErrorClass::Fatal) {
                assert forall|j: int| 0 <= j < n + 1 && j < events.len() implies !failure_of(
                    #[trigger] events[j],
                    AcceptErrorClass::Fatal,
                ) by {
                    if j < n {
                    }
                }
            }
            if alive_before(events, n + 1) {
                assert(!failure_of(events[n], AcceptErrorClass::Fatal));
            }
        }
        assert forall|i: int| 0 <= i < events.len() implies (#[trigger] incoming_run(
            false,
            events,
        ).1[i]) == (if alive_before(events, i) {
            incoming_action(events[i])
        } else {
            AcceptAction::End
        }) by {
            if i < n {
                assert(incoming_run(false, events).1[i] == before.1[i]);
                assert(front[i] == events[i]);
            }
        }
    }
}

/// However often the accept fails with a transient failure, the sequence
/// neither ends nor hands out a failure nor waits: every such failure is
/// answered by polling the accept again at once.
pub proof fn lemma_transient_failures_are_retried(events: Seq<AcceptEvent>)
    requires
        forall|i: int|
            0 <= i < events.len() ==> failure_of(#[trigger] events[i], AcceptErrorClass::Transient),
    ensures
        !incoming_run(false, events).0,
        incoming_run(false, events).1.len() == events.len(),
        forall|i: int|
            0 <= i < events.len() ==> (#[trigger] incoming_run(false, events).1[i])
                == AcceptAction::PollAccept,
{
    lemma_incoming_run(events);
    assert forall|i: int| 0 <= i <= events.len() implies alive_before(events, i) by {
        assert forall|j: int| 0 <= j < i && j < events.len() implies !failure_of(
            #[trigger] events[j],
            AcceptErrorClass::Fatal,
        ) by {
            assert(failure_of(events[j], AcceptErrorClass::Transient));
        }
    }
}

/// As long as no fatal failure comes, the sequence waits exactly once for
/// every failure that is not transient, for the fixed backoff of one
/// second, and for nothing else; it polls the accept again when a wait is
/// over; it hands out exactly the connections that came, and no failure.
pub proof fn lemma_one_backoff_per_failure(events: Seq<AcceptEvent>)
    requires
        alive_before(events, events.len() as int),
    ensures
        !incoming_run(false, events).0,
        incoming_run(false, events).1.len() == events.len(),
        forall|i: int|
            0 <= i < events.len() ==> {
                let action = #[trigger] incoming_run(false, events).1[i];
                &&& action == incoming_action(events[i])
                &&& action == accept_action(events[i])
                &&& action is Sleep <==> failure_of(events[i], AcceptErrorClass::Exhaustion)
                &&& action is Sleep ==> action == (AcceptAction::Sleep { secs: 1 })
                &&& events[i] is Elapsed ==> action == AcceptAction::PollAccept
                &&& action is Yield <==> (events[i] matches AcceptEvent::Accepted(Ok(_)))
                &&& events[i] matches AcceptEvent::Accepted(Ok((stream, peer))) ==> action
                    == AcceptAction::Yield(stream, peer)
                &&& !(action is Fail)
                &&& !(action is End)
            },
{
    lemma_incoming_run(events);
    assert forall|i: int| 0 <= i <= events.len() implies alive_before(events, i) by {
        assert forall|j: int| 0 <= j < i && j < events.len() implies !failure_of(
            #[trigger] events[j],
            AcceptErrorClass::Fatal,
        ) by {
        }
    }
}

/// The accept loop of a listener never hands out a failure and never
/// ends. Whatever the failure and wherever it arose, the category alone
/// decides: after a failure of an ignorable category the loop polls the
/// accept again at once, with no wait, and after any other it waits exactly
/// once, for one second. It waits for nothing else, and hands out each
/// connection as it came.
pub proof fn lemma_accept_loop_never_fails(event: AcceptEvent)
    ensures
        !(accept_action(event) is Fail),
        !(accept_action(event) is End),
        event matches AcceptEvent::Accepted(Err(e)) ==> accept_action(event) == (if ignorable(
            e.error.kind,
        ) {
            AcceptAction::PollAccept
        } else {
            AcceptAction::Sleep { secs: 1 }
        }),
        accept_action(event) is Sleep <==> (event matches AcceptEvent::Accepted(Err(e))
            && !ignorable(e.error.kind)),
        event is Elapsed ==> accept_action(event) == AcceptAction::PollAccept,
        event matches AcceptEvent::Accepted(Ok((stream, peer))) ==> accept_action(event)
            == AcceptAction::Yield(stream, peer),
{
}

/// The delay that the policy asks for is none exactly for the three
/// ignorable categories, and one second for every other category.
pub proof fn lemma_retry_goes_by_category(kind: ErrorKind)
    ensures
        retry_after(kind) == Retry::Now <==> (kind == ErrorKind::ConnectionRefused || kind
            == ErrorKind::ConnectionAborted || kind == ErrorKind::ConnectionReset),
        retry_after(kind) != Retry::Now ==> retry_after(kind) == (Retry::After { secs: 1 }),
{
}

/// A loop that meets nothing but failures of ignorable categories, however
/// many and wherever they arose, never waits: each is answered by polling
/// the accept again, and the connection that comes in the end is handed
/// out as it came.
pub proof fn lemma_ignorable_failures_cost_no_wait(failures: Seq<AcceptError>)
    requires
        forall|i: int| 0 <= i < failures.len() ==> ignorable((#[trigger] failures[i]).error.kind),
    ensures
        forall|i: int|
            0 <= i < failures.len() ==> accept_action(
                AcceptEvent::Accepted(Err(#[trigger] failures[i])),
            ) == AcceptAction::PollAccept,
        forall|i: int|
            0 <= i < failures.len() ==> incoming_step(
                false,
                AcceptEvent::Accepted(Err(#[trigger] failures[i])),
            ) == (false, AcceptAction::PollAccept),
{
}

} // verus!
