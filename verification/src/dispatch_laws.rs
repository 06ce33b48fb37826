//! What holds of every producer, whatever the embedding tells it.

use crate::cmd::Cmd;
use crate::dispatch::{Signal, Task};
use vstd::prelude::*;

verus! {

/// A producer that has ended stays ended, whatever it is told: it hands
/// nothing to the bus, loses nothing and receives nothing.
pub proof fn finished_is_inert<Msg, Fut, Sub>(signals: Seq<Signal<Msg>>)
    ensures
        Task::<Msg, Fut, Sub>::Finished.after(signals) == Task::<Msg, Fut, Sub>::Finished,
        Task::<Msg, Fut, Sub>::Finished.accepted(signals) == Seq::<Msg>::empty(),
        Task::<Msg, Fut, Sub>::Finished.dropped(signals) == Seq::<Msg>::empty(),
        Task::<Msg, Fut, Sub>::Finished.taken(signals) == Seq::<Msg>::empty(),
    decreases signals.len(),
{
    if signals.len() > 0 {
        finished_is_inert::<Msg, Fut, Sub>(signals.drop_first());
    }
}

/// No message is made up, repeated, lost or moved out of order by a producer.
///
/// What the producer held at the start, followed by what it received from its
/// source, is what the bus accepted, followed by what the bus refused, followed
/// by what the producer still holds.
pub proof fn messages_are_conserved<Msg, Fut, Sub>(
    task: Task<Msg, Fut, Sub>,
    signals: Seq<Signal<Msg>>,
)
    ensures
        task.in_hand() + task.taken(signals) == task.accepted(signals) + task.dropped(signals)
            + task.after(signals).in_hand(),
    decreases signals.len(),
{
    let lhs = task.in_hand() + task.taken(signals);
    let rhs = task.accepted(signals) + task.dropped(signals) + task.after(signals).in_hand();
    if signals.len() == 0 {
        assert(lhs =~= rhs);
    } else {
        let head = signals[0];
        let rest = signals.drop_first();
        let then = task.next(head);
        messages_are_conserved(then, rest);
        if then is Finished {
            finished_is_inert::<Msg, Fut, Sub>(rest);
        }
        assert(lhs =~= rhs);
    }
}

/// Once the bus has refused a message the producer has ended, and it is
/// refused at most one.
pub proof fn a_refusal_ends_the_producer<Msg, Fut, Sub>(
    task: Task<Msg, Fut, Sub>,
    signals: Seq<Signal<Msg>>,
)
    ensures
        task.dropped(signals).len() <= 1,
        task.dropped(signals).len() == 1 ==> task.after(signals) is Finished,
    decreases signals.len(),
{
    if signals.len() > 0 {
        let then = task.next(signals[0]);
        a_refusal_ends_the_producer(then, signals.drop_first());
        if then is Finished {
            finished_is_inert::<Msg, Fut, Sub>(signals.drop_first());
        }
    }
}

/// The first of `signals` that reports on what `task` is waiting for.
pub open spec fn first_answer<Msg, Fut, Sub>(
    task: Task<Msg, Fut, Sub>,
    signals: Seq<Signal<Msg>>,
) -> Option<Signal<Msg>>
    decreases signals.len(),
{
    if signals.len() == 0 {
        None
    } else if task.answers(signals[0]) {
        Some(signals[0])
    } else {
        first_answer(task, signals.drop_first())
    }
}

/// Signals that do not report on what a producer waits for change nothing:
/// the producer stays as it is, and the bus and the source are left alone.
pub proof fn unanswered_signals_change_nothing<Msg, Fut, Sub>(
    task: Task<Msg, Fut, Sub>,
    signals: Seq<Signal<Msg>>,
)
    requires
        first_answer(task, signals) is None,
    ensures
        task.after(signals) == task,
        task.accepted(signals) == Seq::<Msg>::empty(),
        task.dropped(signals) == Seq::<Msg>::empty(),
        task.taken(signals) == Seq::<Msg>::empty(),
    decreases signals.len(),
{
    if signals.len() > 0 {
        unanswered_signals_change_nothing(task, signals.drop_first());
    }
}

/// A command to do nothing gives no producer: the bus sees nothing of it.
pub proof fn nothing_reaches_no_bus<Msg, Fut, Sub>(signals: Seq<Signal<Msg>>)
    ensures
        Task::<Msg, Fut, Sub>::of(Cmd::Nothing) is Finished,
        Task::<Msg, Fut, Sub>::of(Cmd::Nothing).after(signals) is Finished,
        Task::<Msg, Fut, Sub>::of(Cmd::Nothing).accepted(signals) == Seq::<Msg>::empty(),
        Task::<Msg, Fut, Sub>::of(Cmd::Nothing).dropped(signals) == Seq::<Msg>::empty(),
        Task::<Msg, Fut, Sub>::of(Cmd::Nothing).taken(signals) == Seq::<Msg>::empty(),
{
    finished_is_inert::<Msg, Fut, Sub>(signals);
}

/// A message that is queued directly is offered to the bus once and only
/// once, and nothing else is.
///
/// The bus's first answer decides: if it takes the message, that message is
/// all it ever gets from this producer; if it has lost its consumer, the
/// message is dropped and nothing is retried. Either way the producer has
/// then ended. The producer never asks a source for anything.
pub proof fn a_queued_message_is_offered_once<Msg, Fut, Sub>(
    msg: Msg,
    signals: Seq<Signal<Msg>>,
)
    ensures
        ({
            let task = Task::<Msg, Fut, Sub>::of(Cmd::Msg(msg));
            let answer = first_answer(task, signals);
            &&& task.taken(signals) == Seq::<Msg>::empty()
            &&& answer is None ==> {
                &&& task.after(signals) == task
                &&& task.accepted(signals) == Seq::<Msg>::empty()
                &&& task.dropped(signals) == Seq::<Msg>::empty()
            }
            &&& answer == Some(Signal::<Msg>::Accepted) ==> {
                &&& task.after(signals) is Finished
                &&& task.accepted(signals) == seq![msg]
                &&& task.dropped(signals) == Seq::<Msg>::empty()
            }
            &&& answer == Some(Signal::<Msg>::Closed) ==> {
                &&& task.after(signals) is Finished
                &&& task.accepted(signals) == Seq::<Msg>::empty()
                &&& task.dropped(signals) == seq![msg]
            }
            &&& answer is None || answer == Some(Signal::<Msg>::Accepted) || answer == Some(
                Signal::<Msg>::Closed,
            )
        }),
{
    sending_ends_at_first_answer::<Msg, Fut, Sub>(msg, signals);
}

/// The producer that holds its last message: the bus's first answer ends it.
pub proof fn sending_ends_at_first_answer<Msg, Fut, Sub>(msg: Msg, signals: Seq<Signal<Msg>>)
    ensures
        ({
            let task = Task::<Msg, Fut, Sub>::Sending(msg);
            let answer = first_answer(task, signals);
            &&& task.taken(signals) == Seq::<Msg>::empty()
            &&& answer is None ==> {
                &&& task.after(signals) == task
                &&& task.accepted(signals) == Seq::<Msg>::empty()
                &&& task.dropped(signals) == Seq::<Msg>::empty()
            }
            &&& answer == Some(Signal::<Msg>::Accepted) ==> {
                &&& task.after(signals) is Finished
                &&& task.accepted(signals) == seq![msg]
                &&& task.dropped(signals) == Seq::<Msg>::empty()
            }
            &&& answer == Some(Signal::<Msg>::Closed) ==> {
                &&& task.after(signals) is Finished
                &&& task.accepted(signals) == Seq::<Msg>::empty()
                &&& task.dropped(signals) == seq![msg]
            }
            &&& answer is None || answer == Some(Signal::<Msg>::Accepted) || answer == Some(
                Signal::<Msg>::Closed,
            )
        }),
    decreases signals.len(),
{
    let task = Task::<Msg, Fut, Sub>::Sending(msg);
    if signals.len() > 0 {
        let rest = signals.drop_first();
        if task.answers(signals[0]) {
            finished_is_inert::<Msg, Fut, Sub>(rest);
            assert(task.next(signals[0]) is Finished);
            if signals[0] is Accepted {
                assert(task.accepted(signals) =~= seq![msg]);
            } else {
                assert(task.dropped(signals) =~= seq![msg]);
            }
        } else {
            sending_ends_at_first_answer::<Msg, Fut, Sub>(msg, rest);
        }
    }
}

/// An effect's message is offered to the bus once, after the effect has
/// resolved, and not before.
///
/// While the effect has not resolved the producer waits and the bus sees
/// nothing of it. What it resolves to is the only message the producer ever
/// receives, and the only one it can hand over. Over any run, and so over
/// every part of a run from its start, the bus has accepted no more than the
/// producer has received.
pub proof fn an_effect_is_offered_once_resolved<Msg, Fut, Sub>(
    fut: Fut,
    signals: Seq<Signal<Msg>>,
)
    ensures
        ({
            let task = Task::<Msg, Fut, Sub>::of(Cmd::Future(fut));
            let answer = first_answer(task, signals);
            &&& answer is None ==> {
                &&& task.after(signals) == task
                &&& task.taken(signals) == Seq::<Msg>::empty()
                &&& task.accepted(signals) == Seq::<Msg>::empty()
                &&& task.dropped(signals) == Seq::<Msg>::empty()
            }
            &&& answer is Some ==> {
                &&& answer->Some_0 is Resolved
                &&& task.taken(signals) == seq![answer->Some_0->Resolved_0]
            }
            &&& task.accepted(signals) + task.dropped(signals) + task.after(signals).in_hand()
                == task.taken(signals)
            &&& task.accepted(signals).len() <= task.taken(signals).len() <= 1
        }),
    decreases signals.len(),
{
    let task = Task::<Msg, Fut, Sub>::Awaiting(fut);
    messages_are_conserved(task, signals);
    assert(task.in_hand() + task.taken(signals) =~= task.taken(signals));
    if signals.len() > 0 {
        let rest = signals.drop_first();
        if task.answers(signals[0]) {
            let msg = signals[0]->Resolved_0;
            sending_ends_at_first_answer::<Msg, Fut, Sub>(msg, rest);
            assert(task.taken(signals) =~= seq![msg]);
        } else {
            an_effect_is_offered_once_resolved::<Msg, Fut, Sub>(fut, rest);
        }
    }
}

/// Whether the sequence has ended or the bus has lost its consumer somewhere
/// in `signals`.
pub open spec fn has_stop<Msg>(signals: Seq<Signal<Msg>>) -> bool {
    exists|i: int| 0 <= i < signals.len() && (signals[i] is Ended || signals[i] is Closed)
}

/// A forwarding producer goes on for as long as its sequence has not ended
/// and the bus has its consumer, and it keeps the sequence it was given.
pub proof fn forwarding_goes_on<Msg, Fut, Sub>(
    task: Task<Msg, Fut, Sub>,
    sub: Sub,
    signals: Seq<Signal<Msg>>,
)
    requires
        task == Task::<Msg, Fut, Sub>::Pulling(sub) || (task is Forwarding && task->Forwarding_1
            == sub),
    ensures
        !has_stop(signals) ==> !(task.after(signals) is Finished),
        task.after(signals) is Pulling ==> task.after(signals)->Pulling_0 == sub,
        task.after(signals) is Forwarding ==> task.after(signals)->Forwarding_1 == sub,
        !(task.after(signals) is Awaiting),
        !(task.after(signals) is Sending),
    decreases signals.len(),
{
    if signals.len() > 0 {
        let rest = signals.drop_first();
        let then = task.next(signals[0]);
        if then is Finished {
            finished_is_inert::<Msg, Fut, Sub>(rest);
            assert(signals[0] is Ended || signals[0] is Closed);
        } else {
            forwarding_goes_on(then, sub, rest);
            if has_stop(rest) {
                let i = choose|i: int|
                    0 <= i < rest.len() && (rest[i] is Ended || rest[i] is Closed);
                assert(signals[i + 1] == rest[i]);
            }
        }
    }
}

/// A sequence's messages are forwarded to the bus one by one, none left out
/// and none out of order, until the sequence ends or the bus has lost its
/// consumer.
///
/// What the bus has accepted is always the front part of what the producer
/// has received from the sequence, short of it by at most the one message
/// that is still in hand or was refused. When the producer waits for the
/// sequence again, or has ended without a refusal, the two are equal. The
/// producer ends only on the sequence's end or on a refusal.
pub proof fn a_sequence_is_forwarded_in_order<Msg, Fut, Sub>(
    sub: Sub,
    signals: Seq<Signal<Msg>>,
)
    ensures
        ({
            let task = Task::<Msg, Fut, Sub>::of(Cmd::Sub(sub));
            let accepted = task.accepted(signals);
            let taken = task.taken(signals);
            &&& accepted.len() <= taken.len() <= accepted.len() + 1
            &&& accepted == taken.take(accepted.len() as int)
            &&& task.after(signals) is Pulling ==> accepted == taken
            &&& task.after(signals) is Finished && task.dropped(signals).len() == 0 ==> accepted
                == taken
            &&& task.after(signals) is Finished ==> has_stop(signals)
            &&& task.after(signals) is Pulling ==> task.after(signals)->Pulling_0 == sub
        }),
{
    let task = Task::<Msg, Fut, Sub>::Pulling(sub);
    let accepted = task.accepted(signals);
    let taken = task.taken(signals);
    messages_are_conserved(task, signals);
    a_refusal_ends_the_producer(task, signals);
    forwarding_goes_on(task, sub, signals);
    assert(task.in_hand() + taken =~= taken);
    assert(accepted =~= taken.take(accepted.len() as int));
    if task.after(signals) is Pulling || (task.after(signals) is Finished && task.dropped(
        signals,
    ).len() == 0) {
        assert(accepted =~= taken);
    }
}

} // verus!
