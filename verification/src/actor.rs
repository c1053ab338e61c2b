//! Reply slots, and the owner task as a state machine. The task owns the
//! transport client and serves the requests of its queue one at a time,
//! in the order in which it accepted them; each request is numbered, and
//! its reply goes to the slot that it carries.

use vstd::prelude::*;
use std::collections::VecDeque;
use tokio::sync::oneshot::{Receiver, Sender};

verus! {

/// The writing end of a reply slot, `tokio::sync::oneshot::Sender`: a value
/// of it is carried, never looked into.
#[verifier::external_type_specification]
#[verifier::external_body]
#[verifier::reject_recursive_types(T)]
pub struct ExSlotWriter<T>(Sender<T>);

/// The reading end of a reply slot, `tokio::sync::oneshot::Receiver`: a
/// value of it is carried, never looked into.
#[verifier::external_type_specification]
#[verifier::external_body]
#[verifier::reject_recursive_types(T)]
pub struct ExSlotReader<T>(Receiver<T>);

/// The sending end of an owner task's queue, `tokio::sync::mpsc::Sender`: a
/// value of it is carried, never looked into.
#[verifier::external_type_specification]
#[verifier::external_body]
#[verifier::reject_recursive_types(T)]
pub struct ExQueueEnd<T>(tokio::sync::mpsc::Sender<T>);

/// `Clone` of `tokio::sync::mpsc::Sender` gives another sending end of the
/// same queue. Nothing is claimed of it.
pub assume_specification<T>[ <tokio::sync::mpsc::Sender<T> as Clone>::clone ](
    end: &tokio::sync::mpsc::Sender<T>,
) -> (other: tokio::sync::mpsc::Sender<T>);

/// What the reading end yields when the writing end was dropped without a
/// value, `tokio::sync::oneshot::error::RecvError`.
#[verifier::external_type_specification]
#[verifier::external_body]
pub struct ExSlotAbandoned(tokio::sync::oneshot::error::RecvError);

/// `tokio::sync::oneshot::channel` makes a fresh slot for one value and
/// gives its two ends. Nothing is claimed of them.
pub assume_specification<T>[ tokio::sync::oneshot::channel::<T> ]() -> (ends: (
    Sender<T>,
    Receiver<T>,
));

/// `tokio::sync::oneshot::Sender::send` writes the one value of a slot and
/// uses the writing end up. Whether the value arrives depends on the
/// reader; when the reader is gone the value comes back, and the contract
/// says only that it is then the value that was given.
pub assume_specification<T>[ tokio::sync::oneshot::Sender::<T>::send ](
    slot: Sender<T>,
    t: T,
) -> (r: Result<(), T>)
    ensures
        r matches Err(returned) ==> returned == t,
;

/// What became of a request that a live handle had enqueued.
#[derive(Debug, PartialEq, Eq)]
pub enum Outcome<R> {
    /// The queue was closed: the owner task is gone and the request was
    /// never accepted.
    QueueClosed,
    /// The request was accepted, and its reply slot was given up without
    /// a value.
    SlotAbandoned,
    /// The owner task wrote this reply into the slot.
    Replied(R),
}

impl<R> Outcome<R> {
    /// The outcome that the reading end of a reply slot shows once the
    /// request was accepted: the reply, or that the slot was given up.
    pub fn received(read: Result<R, tokio::sync::oneshot::error::RecvError>) -> (outcome: Outcome<R>)
        ensures
            outcome == match read {
                Ok(reply) => Outcome::Replied(reply),
                Err(_) => Outcome::SlotAbandoned,
            },
    {
        match read {
            Ok(reply) => Outcome::Replied(reply),
            Err(_) => Outcome::SlotAbandoned,
        }
    }
}

/// What is left with the writer after a write into a reply slot: nothing
/// when the slot took the reply, the reply itself when the reader was gone
/// and the write was without effect.
pub fn left_unread<R>(written: Result<(), R>) -> (left: Option<R>)
    ensures
        left == match written {
            Ok(_) => None::<R>,
            Err(reply) => Some(reply),
        },
{
    match written {
        Ok(_) => None,
        Err(reply) => Some(reply),
    }
}

/// A request on the queue, with the number that stands for its reply slot.
#[derive(Debug)]
pub struct Envelope<M> {
    pub slot: u64,
    pub message: M,
}

/// What can happen to an owner task.
pub enum Event<M> {
    /// A handle enqueues a request.
    Accept(Envelope<M>),
    /// The task takes the next request into service.
    Begin,
    /// The request in service is finished and its reply written.
    Finish,
    /// The last handle is dropped: the queue closes.
    Close,
}

/// The state of an owner task.
pub struct OwnerState<M> {
    /// The requests that wait, the oldest first.
    pub waiting: Seq<Envelope<M>>,
    /// The slot of the request in service, if one is.
    pub serving: Option<u64>,
    /// Whether the queue still takes requests.
    pub open: bool,
    /// The slots of all requests accepted so far, in the order of their
    /// acceptance.
    pub accepted: Seq<u64>,
    /// The slots that a reply was written to so far, in the order of the
    /// replies.
    pub replied: Seq<u64>,
}

/// The slots of a run of envelopes.
pub open spec fn slots<M>(envelopes: Seq<Envelope<M>>) -> Seq<u64> {
    envelopes.map_values(|envelope: Envelope<M>| envelope.slot)
}

/// The slot in service as a run of at most one slot.
pub open spec fn in_service(serving: Option<u64>) -> Seq<u64> {
    match serving {
        Some(slot) => seq![slot],
        None => Seq::<u64>::empty(),
    }
}

impl<M> OwnerState<M> {
    /// The state of a task that has just been spawned.
    pub open spec fn initial() -> OwnerState<M> {
        OwnerState {
            waiting: Seq::empty(),
            serving: None,
            open: true,
            accepted: Seq::empty(),
            replied: Seq::empty(),
        }
    }

    /// Every accepted request is replied to, in service or waiting, in
    /// this order.
    pub open spec fn valid(self) -> bool {
        self.accepted == self.replied + in_service(self.serving) + slots(self.waiting)
    }

    /// Whether the task can take a request into service: none is in
    /// service and one waits.
    pub open spec fn ready(self) -> bool {
        self.serving is None && self.waiting.len() > 0
    }

    /// Whether the task is at its end: the queue closed, nothing waiting,
    /// nothing in service.
    pub open spec fn drained(self) -> bool {
        !self.open && self.serving is None && self.waiting.len() == 0
    }

    /// The state after an event. An event that cannot take place leaves
    /// the state as it is: a request for a closed queue, a begin while a
    /// request is in service or none waits, a finish with none in service.
    pub open spec fn step(self, event: Event<M>) -> OwnerState<M> {
        match event {
            Event::Accept(envelope) => if self.open {
                OwnerState {
                    waiting: self.waiting.push(envelope),
                    accepted: self.accepted.push(envelope.slot),
                    ..self
                }
            } else {
                self
            },
            Event::Begin => if self.ready() {
                OwnerState {
                    waiting: self.waiting.subrange(1, self.waiting.len() as int),
                    serving: Some(self.waiting[0].slot),
                    ..self
                }
            } else {
                self
            },
            Event::Finish => match self.serving {
                Some(slot) => OwnerState { serving: None, replied: self.replied.push(slot), ..self },
                None => self,
            },
            Event::Close => OwnerState { open: false, ..self },
        }
    }

    /// The state after a run of events.
    pub open spec fn run(self, events: Seq<Event<M>>) -> OwnerState<M>
        decreases events.len(),
    {
        if events.len() == 0 {
            self
        } else {
            self.run(events.drop_last()).step(events.last())
        }
    }
}

/// No event breaks the bookkeeping of a task.
pub proof fn step_keeps_valid<M>(state: OwnerState<M>, event: Event<M>)
    requires
        state.valid(),
    ensures
        state.step(event).valid(),
{
    let after = state.step(event);
    match event {
        Event::Accept(envelope) => {
            if state.open {
                assert(slots(after.waiting) =~= slots(state.waiting).push(envelope.slot));
                assert(after.accepted =~= after.replied + in_service(after.serving) + slots(
                    after.waiting,
                ));
            }
        },
        Event::Begin => {
            if state.ready() {
                assert(slots(state.waiting) =~= seq![state.waiting[0].slot] + slots(after.waiting));
                assert(after.accepted =~= after.replied + in_service(after.serving) + slots(
                    after.waiting,
                ));
            }
        },
        Event::Finish => {
            if state.serving is Some {
                assert(after.accepted =~= after.replied + in_service(after.serving) + slots(
                    after.waiting,
                ));
            }
        },
        Event::Close => {},
    }
}

/// Whatever happens to a task from its spawning on, its bookkeeping
/// holds.
pub proof fn run_is_valid<M>(events: Seq<Event<M>>)
    ensures
        OwnerState::<M>::initial().run(events).valid(),
    decreases events.len(),
{
    if events.len() == 0 {
        assert(OwnerState::<M>::initial().accepted =~= OwnerState::<M>::initial().replied
            + in_service(None) + slots(Seq::<Envelope<M>>::empty()));
    } else {
        run_is_valid(events.drop_last());
        step_keeps_valid(OwnerState::<M>::initial().run(events.drop_last()), events.last());
    }
}

/// First in, first out: whatever happens to a task, the replies written
/// so far go to the slots of the first requests accepted, in the order of
/// their acceptance.
pub proof fn replies_in_order_of_acceptance<M>(events: Seq<Event<M>>)
    ensures
        ({
            let state = OwnerState::<M>::initial().run(events);
            state.replied.is_prefix_of(state.accepted)
        }),
{
    run_is_valid(events);
    let state = OwnerState::<M>::initial().run(events);
    assert(state.replied =~= state.accepted.subrange(0, state.replied.len() as int));
}

/// One at a time: while a request is in service no other is taken into
/// service, and the one that is finished next is the one in service; the
/// requests that wait are left untouched.
pub proof fn one_request_in_service<M>(state: OwnerState<M>)
    requires
        state.serving is Some,
    ensures
        state.step(Event::Begin) == state,
        state.step(Event::Finish).replied == state.replied.push(state.serving->Some_0),
        state.step(Event::Finish).waiting == state.waiting,
        state.step(Event::Finish).serving is None,
{
}

/// A closed queue takes no request, and a task at its end has replied to
/// every request that it ever accepted.
pub proof fn nothing_pending_at_the_end<M>(state: OwnerState<M>, envelope: Envelope<M>)
    requires
        state.valid(),
        state.drained(),
    ensures
        state.step(Event::Accept(envelope)) == state,
        state.step(Event::Begin) == state,
        state.step(Event::Finish) == state,
        state.replied == state.accepted,
{
    assert(state.accepted =~= state.replied);
}

/// The state after the task has gone on serving for `rounds` more
/// requests: it finishes what is in service, and takes the next.
pub open spec fn wind_down<M>(state: OwnerState<M>, rounds: nat) -> OwnerState<M>
    decreases rounds,
{
    if rounds == 0 {
        state.step(Event::Finish)
    } else {
        wind_down(state.step(Event::Finish).step(Event::Begin), (rounds - 1) as nat)
    }
}

/// Once the queue is closed, the task comes to its end by serving what
/// still waits, one request after the other, and has then replied to
/// every request that it ever accepted.
pub proof fn closed_task_winds_down<M>(state: OwnerState<M>)
    requires
        state.valid(),
        !state.open,
    ensures
        wind_down(state, state.waiting.len()).drained(),
        wind_down(state, state.waiting.len()).valid(),
        wind_down(state, state.waiting.len()).accepted == state.accepted,
        wind_down(state, state.waiting.len()).replied == state.accepted,
    decreases state.waiting.len(),
{
    let finished = state.step(Event::Finish);
    step_keeps_valid(state, Event::Finish);
    if state.waiting.len() == 0 {
        assert(finished.accepted =~= finished.replied);
    } else {
        let next = finished.step(Event::Begin);
        step_keeps_valid(finished, Event::Begin);
        closed_task_winds_down(next);
    }
}

/// The bookkeeping of an owner task: the requests that wait, and the slot
/// of the one in service.
pub struct Owner<M> {
    waiting: VecDeque<Envelope<M>>,
    serving: Option<u64>,
    open: bool,
    accepted: Ghost<Seq<u64>>,
    replied: Ghost<Seq<u64>>,
}

impl<M> View for Owner<M> {
    type V = OwnerState<M>;

    closed spec fn view(&self) -> OwnerState<M> {
        OwnerState {
            waiting: self.waiting@,
            serving: self.serving,
            open: self.open,
            accepted: self.accepted@,
            replied: self.replied@,
        }
    }
}

impl<M> Owner<M> {
    /// A task that has just been spawned: open, with nothing to do.
    pub fn new() -> (owner: Owner<M>)
        ensures
            owner@ == OwnerState::<M>::initial(),
    {
        Owner {
            waiting: VecDeque::new(),
            serving: None,
            open: true,
            accepted: Ghost(Seq::empty()),
            replied: Ghost(Seq::empty()),
        }
    }

    /// Puts a request at the end of the queue. A closed queue refuses it,
    /// and hands it back.
    pub fn accept(&mut self, envelope: Envelope<M>) -> (refused: Option<Envelope<M>>)
        ensures
            final(self)@ == old(self)@.step(Event::Accept(envelope)),
            refused == if old(self)@.open {
                None
            } else {
                Some(envelope)
            },
    {
        if self.open {
            proof {
                self.accepted@ = self.accepted@.push(envelope.slot);
            }
            self.waiting.push_back(envelope);
            None
        } else {
            Some(envelope)
        }
    }

    /// Takes the oldest waiting request into service, unless one is in
    /// service already or none waits.
    pub fn begin(&mut self) -> (next: Option<Envelope<M>>)
        ensures
            final(self)@ == old(self)@.step(Event::Begin),
            next == if old(self)@.ready() {
                Some(old(self)@.waiting[0])
            } else {
                None
            },
    {
        if self.serving.is_some() {
            return None;
        }
        match self.waiting.pop_front() {
            Some(envelope) => {
                self.serving = Some(envelope.slot);
                Some(envelope)
            },
            None => None,
        }
    }

    /// Ends the service of the request in service, and gives the slot
    /// that its reply belongs to.
    pub fn finish(&mut self) -> (slot: Option<u64>)
        ensures
            final(self)@ == old(self)@.step(Event::Finish),
            slot == old(self)@.serving,
    {
        match self.serving {
            Some(slot) => {
                proof {
                    self.replied@ = self.replied@.push(slot);
                }
                self.serving = None;
                Some(slot)
            },
            None => None,
        }
    }

    /// Closes the queue: the last handle is gone.
    pub fn close(&mut self)
        ensures
            final(self)@ == old(self)@.step(Event::Close),
    {
        self.open = false;
    }

    /// Whether the task is at its end.
    pub fn is_drained(&self) -> (r: bool)
        ensures
            r == self@.drained(),
    {
        !self.open && self.serving.is_none() && self.waiting.len() == 0
    }
}

} // verus!
