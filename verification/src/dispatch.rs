//! The dispatcher: from a command to the producer that carries it out in
//! the background.
//!
//! A producer waits for one thing at a time: for its computation, for its
//! sequence, or for the bus. The embedding does the waiting and tells the
//! producer what came of it; what the producer does next is decided here.

use crate::cmd::Cmd;
use vstd::prelude::*;

verus! {

/// One background producer, as the thing it waits for next.
///
/// The embedding looks at the task, does the waiting that the task names, and
/// reports what came of it with [`Task::advance`].
pub enum Task<Msg, Fut, Sub> {
    /// Nothing is left to do: the producer ends.
    Finished,
    /// Wait for the computation to resolve.
    Awaiting(Fut),
    /// Hand this message to the bus; it is the last one.
    Sending(Msg),
    /// Ask the sequence for its next message.
    Pulling(Sub),
    /// Hand this message to the bus, then go back to the sequence.
    Forwarding(Msg, Sub),
}

/// What came of the waiting that a task asked for.
pub enum Signal<Msg> {
    /// The computation resolved to this message.
    Resolved(Msg),
    /// The sequence produced this message.
    Yielded(Msg),
    /// The sequence has ended.
    Ended,
    /// The bus took the message.
    Accepted,
    /// The bus has lost its consumer; the message is dropped.
    Closed,
}

impl<Msg> Signal<Msg> {
    /// The bus's answer as a signal.
    pub open spec fn of_bus(accepted: bool) -> Self {
        if accepted {
            Signal::Accepted
        } else {
            Signal::Closed
        }
    }

    /// A sequence's answer as a signal.
    pub open spec fn of_source(item: Option<Msg>) -> Self {
        match item {
            Some(msg) => Signal::Yielded(msg),
            None => Signal::Ended,
        }
    }
}

impl<Msg, Fut, Sub> Task<Msg, Fut, Sub> {
    /// The producer that a command turns into.
    pub open spec fn of(cmd: Cmd<Msg, Fut, Sub>) -> Self {
        match cmd {
            Cmd::Nothing => Task::Finished,
            Cmd::Msg(msg) => Task::Sending(msg),
            Cmd::Future(fut) => Task::Awaiting(fut),
            Cmd::Sub(sub) => Task::Pulling(sub),
        }
    }

    /// Whether `signal` reports on what the producer is waiting for.
    pub open spec fn answers(self, signal: Signal<Msg>) -> bool {
        match (self, signal) {
            (Task::Awaiting(_), Signal::Resolved(_)) => true,
            (Task::Sending(_), Signal::Accepted) => true,
            (Task::Sending(_), Signal::Closed) => true,
            (Task::Pulling(_), Signal::Yielded(_)) => true,
            (Task::Pulling(_), Signal::Ended) => true,
            (Task::Forwarding(_, _), Signal::Accepted) => true,
            (Task::Forwarding(_, _), Signal::Closed) => true,
            _ => false,
        }
    }

    /// The task after `signal`. A signal that does not answer the task
    /// leaves it as it is.
    pub open spec fn next(self, signal: Signal<Msg>) -> Self {
        match (self, signal) {
            (Task::Awaiting(_), Signal::Resolved(msg)) => Task::Sending(msg),
            (Task::Sending(_), Signal::Accepted) => Task::Finished,
            (Task::Sending(_), Signal::Closed) => Task::Finished,
            (Task::Pulling(sub), Signal::Yielded(msg)) => Task::Forwarding(msg, sub),
            (Task::Pulling(_), Signal::Ended) => Task::Finished,
            (Task::Forwarding(_, sub), Signal::Accepted) => Task::Pulling(sub),
            (Task::Forwarding(_, _), Signal::Closed) => Task::Finished,
            (task, _) => task,
        }
    }

    /// The message that the bus takes from the producer at `signal`, if any.
    pub open spec fn hands_over(self, signal: Signal<Msg>) -> Option<Msg> {
        match (self, signal) {
            (Task::Sending(msg), Signal::Accepted) => Some(msg),
            (Task::Forwarding(msg, _), Signal::Accepted) => Some(msg),
            _ => None,
        }
    }

    /// The message that the bus refuses from the producer at `signal`, if any.
    pub open spec fn lets_go(self, signal: Signal<Msg>) -> Option<Msg> {
        match (self, signal) {
            (Task::Sending(msg), Signal::Closed) => Some(msg),
            (Task::Forwarding(msg, _), Signal::Closed) => Some(msg),
            _ => None,
        }
    }

    /// The message that the producer receives from its source at `signal`, if
    /// any: what the computation resolved to, or what the sequence produced.
    pub open spec fn takes_in(self, signal: Signal<Msg>) -> Option<Msg> {
        match (self, signal) {
            (Task::Awaiting(_), Signal::Resolved(msg)) => Some(msg),
            (Task::Pulling(_), Signal::Yielded(msg)) => Some(msg),
            _ => None,
        }
    }

    /// The message that the producer holds and has not yet offered to the bus.
    pub open spec fn in_hand(self) -> Seq<Msg> {
        match self {
            Task::Sending(msg) => seq![msg],
            Task::Forwarding(msg, _) => seq![msg],
            _ => Seq::empty(),
        }
    }

    /// The task after all of `signals`, one after the other.
    pub open spec fn after(self, signals: Seq<Signal<Msg>>) -> Self
        decreases signals.len(),
    {
        if signals.len() == 0 {
            self
        } else {
            self.next(signals[0]).after(signals.drop_first())
        }
    }

    /// The messages the bus takes from the producer over `signals`, in order.
    pub open spec fn accepted(self, signals: Seq<Signal<Msg>>) -> Seq<Msg>
        decreases signals.len(),
    {
        if signals.len() == 0 {
            Seq::empty()
        } else {
            let rest = self.next(signals[0]).accepted(signals.drop_first());
            match self.hands_over(signals[0]) {
                Some(msg) => seq![msg] + rest,
                None => rest,
            }
        }
    }

    /// The messages the bus refuses from the producer over `signals`, in order.
    pub open spec fn dropped(self, signals: Seq<Signal<Msg>>) -> Seq<Msg>
        decreases signals.len(),
    {
        if signals.len() == 0 {
            Seq::empty()
        } else {
            let rest = self.next(signals[0]).dropped(signals.drop_first());
            match self.lets_go(signals[0]) {
                Some(msg) => seq![msg] + rest,
                None => rest,
            }
        }
    }

    /// The messages the producer receives from its source over `signals`, in
    /// order.
    pub open spec fn taken(self, signals: Seq<Signal<Msg>>) -> Seq<Msg>
        decreases signals.len(),
    {
        if signals.len() == 0 {
            Seq::empty()
        } else {
            let rest = self.next(signals[0]).taken(signals.drop_first());
            match self.takes_in(signals[0]) {
                Some(msg) => seq![msg] + rest,
                None => rest,
            }
        }
    }

    /// Whether the producer has ended.
    pub fn is_finished(&self) -> (done: bool)
        ensures
            done == (*self is Finished),
    {
        match self {
            Task::Finished => true,
            _ => false,
        }
    }

    /// The producer once its computation has resolved to `msg`: it holds the
    /// message for the bus, and that message is its last.
    pub fn resolved(msg: Msg) -> (task: Self)
        ensures
            task == Task::<Msg, Fut, Sub>::Sending(msg),
            forall|fut: Fut| #[trigger]
                Task::<Msg, Fut, Sub>::Awaiting(fut).next(Signal::Resolved(msg)) == task,
    {
        Task::Sending(msg)
    }

    /// The producer once the bus has answered for its last message. Whether
    /// the bus took the message or not, the producer ends: a message that
    /// finds no consumer is dropped and nobody is told.
    pub fn sent(accepted: bool) -> (task: Self)
        ensures
            task == Task::<Msg, Fut, Sub>::Finished,
            forall|msg: Msg| #[trigger]
                Task::<Msg, Fut, Sub>::Sending(msg).next(Signal::of_bus(accepted)) == task,
    {
        Task::Finished
    }

    /// The producer once its sequence has answered: with an item it holds
    /// that item for the bus and keeps what is left of the sequence; at the
    /// end of the sequence it ends.
    pub fn pulled(item: Option<Msg>, rest: Sub) -> (task: Self)
        ensures
            task == match item {
                Some(msg) => Task::<Msg, Fut, Sub>::Forwarding(msg, rest),
                None => Task::<Msg, Fut, Sub>::Finished,
            },
            task == Task::<Msg, Fut, Sub>::Pulling(rest).next(Signal::of_source(item)),
    {
        match item {
            Some(msg) => Task::Forwarding(msg, rest),
            None => Task::Finished,
        }
    }

    /// The producer once the bus has answered for a forwarded item: if the
    /// bus took it the producer goes back to its sequence; if the bus has
    /// lost its consumer the producer ends, and the sequence is not asked
    /// again.
    pub fn forwarded(accepted: bool, rest: Sub) -> (task: Self)
        ensures
            task == if accepted {
                Task::<Msg, Fut, Sub>::Pulling(rest)
            } else {
                Task::<Msg, Fut, Sub>::Finished
            },
            forall|msg: Msg| #[trigger]
                Task::<Msg, Fut, Sub>::Forwarding(msg, rest).next(Signal::of_bus(accepted))
                    == task,
    {
        if accepted {
            Task::Pulling(rest)
        } else {
            Task::Finished
        }
    }

    /// Moves the producer on by what the embedding reports. A signal that
    /// does not report on what the producer waits for is ignored.
    pub fn advance(self, signal: Signal<Msg>) -> (task: Self)
        ensures
            task == self.next(signal),
    {
        match (self, signal) {
            (Task::Awaiting(_), Signal::Resolved(msg)) => Task::resolved(msg),
            (Task::Sending(_), Signal::Accepted) => Task::sent(true),
            (Task::Sending(_), Signal::Closed) => Task::sent(false),
            (Task::Pulling(sub), Signal::Yielded(msg)) => Task::pulled(Some(msg), sub),
            (Task::Pulling(sub), Signal::Ended) => Task::pulled(None, sub),
            (Task::Forwarding(_, sub), Signal::Accepted) => Task::forwarded(true, sub),
            (Task::Forwarding(_, sub), Signal::Closed) => Task::forwarded(false, sub),
            (task, _) => task,
        }
    }
}

/// How many messages the bus holds before a producer has to wait.
pub const BUS_CAPACITY: usize = 1;

/// Turns a command into the producer that carries it out.
///
/// `Cmd::Nothing` gives a producer that has already ended: there is nothing to
/// spawn. Every other command gives one that still has something to wait for.
pub fn process_cmd<Msg, Fut, Sub>(cmd: Cmd<Msg, Fut, Sub>) -> (task: Task<Msg, Fut, Sub>)
    ensures
        task == Task::of(cmd),
        task is Finished <==> cmd is Nothing,
{
    match cmd {
        Cmd::Nothing => Task::Finished,
        Cmd::Msg(msg) => Task::Sending(msg),
        Cmd::Future(fut) => Task::Awaiting(fut),
        Cmd::Sub(sub) => Task::Pulling(sub),
    }
}

} // verus!
