//! The runtime as a whole, as a transition system: producers, the bus
//! between them and the loop, and what the loop has been handed so far.
//!
//! Nothing here runs. The producers move by [`Task::next`], which is what
//! the executable producers are proved to follow; the bus is a queue with a
//! fixed capacity, first in and first out; events may come in any order.

use crate::cmd::Cmd;
use crate::dispatch::{Signal, Task};
use crate::program::{Program, Report};
use vstd::prelude::*;

verus! {

/// Where a message that reaches the loop comes from.
pub enum Origin {
    /// From the program's subscription, which is merged into the loop
    /// directly.
    Subscription,
    /// From the producer of this number, through the bus.
    Producer(int),
}

/// A message on its way to the loop.
pub struct Parcel<Msg> {
    pub origin: Origin,
    pub msg: Msg,
}

/// The state of a running program and everything around it.
pub struct World<Msg, Fut, Sub> {
    /// How many messages the bus holds.
    pub capacity: nat,
    /// Whether the loop is there to receive.
    pub listening: bool,
    /// The command that each producer was spawned for, by number.
    pub commands: Seq<Cmd<Msg, Fut, Sub>>,
    /// Each producer as it stands.
    pub producers: Seq<Task<Msg, Fut, Sub>>,
    /// For each producer the messages it has been given so far: the one of
    /// its command, or what its source has handed to it.
    pub given: Seq<Seq<Msg>>,
    /// For each producer the messages that the bus has refused.
    pub refused: Seq<Seq<Msg>>,
    /// What is in the bus, oldest first.
    pub bus: Seq<Parcel<Msg>>,
    /// What the loop has been handed so far, oldest first: one call of
    /// `update` each.
    pub inbox: Seq<Parcel<Msg>>,
}

/// What can happen.
pub enum Event<Msg, Fut, Sub> {
    /// The loop dispatches a command.
    Spawn(Cmd<Msg, Fut, Sub>),
    /// A producer hears from its source: its computation has resolved, or
    /// its sequence has produced an item or has ended.
    Hear(int, Signal<Msg>),
    /// A producer offers the message it holds to the bus.
    Offer(int),
    /// The loop takes the oldest message off the bus.
    Receive,
    /// The subscription hands a message to the loop.
    Subscribed(Msg),
    /// The loop goes away.
    HangUp,
}

/// The messages among `parcels` that come from `origin`, in order.
pub open spec fn from<Msg>(parcels: Seq<Parcel<Msg>>, origin: Origin) -> Seq<Msg>
    decreases parcels.len(),
{
    if parcels.len() == 0 {
        Seq::empty()
    } else if parcels.last().origin == origin {
        from(parcels.drop_last(), origin).push(parcels.last().msg)
    } else {
        from(parcels.drop_last(), origin)
    }
}

/// The messages of `parcels`, in order, wherever they come from.
pub open spec fn messages<Msg>(parcels: Seq<Parcel<Msg>>) -> Seq<Msg> {
    parcels.map_values(|parcel: Parcel<Msg>| parcel.msg)
}

/// Whether every parcel comes from the subscription or from one of the first
/// `count` producers.
pub open spec fn known<Msg>(parcels: Seq<Parcel<Msg>>, count: int) -> bool {
    forall|i: int|
        0 <= i < parcels.len() ==> match (#[trigger] parcels[i]).origin {
            Origin::Subscription => true,
            Origin::Producer(p) => 0 <= p < count,
        }
}

/// Whether a producer and what it has been given fit the command it was
/// spawned for.
pub open spec fn fits<Msg, Fut, Sub>(
    cmd: Cmd<Msg, Fut, Sub>,
    task: Task<Msg, Fut, Sub>,
    given: Seq<Msg>,
) -> bool {
    match cmd {
        Cmd::Nothing => task is Finished && given.len() == 0,
        Cmd::Msg(msg) => given == seq![msg] && (task == Task::<Msg, Fut, Sub>::Sending(msg)
            || task is Finished),
        Cmd::Future(fut) => {
            ||| task == Task::<Msg, Fut, Sub>::Awaiting(fut) && given.len() == 0
            ||| given.len() == 1 && (task == Task::<Msg, Fut, Sub>::Sending(given[0])
                || task is Finished)
        },
        Cmd::Sub(sub) => {
            ||| task == Task::<Msg, Fut, Sub>::Pulling(sub)
            ||| task is Forwarding && task->Forwarding_1 == sub
            ||| task is Finished
        },
    }
}

impl<Msg, Fut, Sub> World<Msg, Fut, Sub> {
    /// A program at its start: a listening loop, an empty bus, no producer.
    pub open spec fn start(capacity: nat) -> Self {
        World {
            capacity,
            listening: true,
            commands: Seq::empty(),
            producers: Seq::empty(),
            given: Seq::empty(),
            refused: Seq::empty(),
            bus: Seq::empty(),
            inbox: Seq::empty(),
        }
    }

    /// Whether `p` is the number of a producer.
    pub open spec fn has(self, p: int) -> bool {
        0 <= p < self.producers.len()
    }

    /// The world after `event`. An event that cannot happen as things stand
    /// leaves the world as it is: a producer that does not exist, a signal
    /// that its producer does not wait for, an offer without a message or
    /// to a full bus, a delivery from an empty bus or to a loop that is gone.
    pub open spec fn step(self, event: Event<Msg, Fut, Sub>) -> Self {
        match event {
            Event::Spawn(cmd) => World {
                commands: self.commands.push(cmd),
                producers: self.producers.push(Task::of(cmd)),
                given: self.given.push(Task::of(cmd).in_hand()),
                refused: self.refused.push(Seq::empty()),
                ..self
            },
            Event::Hear(p, signal) => if self.has(p) && !(signal is Accepted) && !(signal
                is Closed) && self.producers[p].answers(signal) {
                World {
                    producers: self.producers.update(p, self.producers[p].next(signal)),
                    given: self.given.update(
                        p,
                        self.given[p] + match self.producers[p].takes_in(signal) {
                            Some(msg) => seq![msg],
                            None => Seq::empty(),
                        },
                    ),
                    ..self
                }
            } else {
                self
            },
            Event::Offer(p) => if self.has(p) && self.producers[p].in_hand().len() > 0 {
                let msg = self.producers[p].in_hand()[0];
                if !self.listening {
                    World {
                        producers: self.producers.update(
                            p,
                            self.producers[p].next(Signal::Closed),
                        ),
                        refused: self.refused.update(p, self.refused[p].push(msg)),
                        ..self
                    }
                } else if self.bus.len() < self.capacity {
                    World {
                        producers: self.producers.update(
                            p,
                            self.producers[p].next(Signal::Accepted),
                        ),
                        bus: self.bus.push(Parcel { origin: Origin::Producer(p), msg }),
                        ..self
                    }
                } else {
                    self
                }
            } else {
                self
            },
            Event::Receive => if self.listening && self.bus.len() > 0 {
                World { bus: self.bus.drop_first(), inbox: self.inbox.push(self.bus[0]), ..self }
            } else {
                self
            },
            Event::Subscribed(msg) => if self.listening {
                World {
                    inbox: self.inbox.push(Parcel { origin: Origin::Subscription, msg }),
                    ..self
                }
            } else {
                self
            },
            Event::HangUp => World { listening: false, ..self },
        }
    }

    /// The world after all of `events`, one after the other.
    pub open spec fn after(self, events: Seq<Event<Msg, Fut, Sub>>) -> Self
        decreases events.len(),
    {
        if events.len() == 0 {
            self
        } else {
            self.after(events.drop_last()).step(events.last())
        }
    }

    /// What holds of producer `p` at all times: what it has been given is
    /// what the loop has had from it, then what the bus holds of it, then
    /// what the bus has refused, then what it still holds.
    pub open spec fn accounts_for(self, p: int) -> bool {
        &&& self.given[p] == from(self.inbox, Origin::Producer(p)) + from(
            self.bus,
            Origin::Producer(p),
        ) + self.refused[p] + self.producers[p].in_hand()
        &&& self.refused[p].len() > 0 ==> self.producers[p] is Finished
        &&& fits(self.commands[p], self.producers[p], self.given[p])
    }

    /// What holds of the whole at all times.
    pub open spec fn sound(self) -> bool {
        &&& self.commands.len() == self.producers.len()
        &&& self.given.len() == self.producers.len()
        &&& self.refused.len() == self.producers.len()
        &&& self.bus.len() <= self.capacity
        &&& known(self.bus, self.producers.len() as int)
        &&& known(self.inbox, self.producers.len() as int)
        &&& forall|i: int| 0 <= i < self.bus.len() ==> (#[trigger] self.bus[i]).origin is Producer
        &&& forall|p: int| self.has(p) ==> #[trigger] self.accounts_for(p)
    }
}

/// Putting a parcel last puts its message last among those of its origin and
/// leaves the others alone.
pub proof fn from_push<Msg>(parcels: Seq<Parcel<Msg>>, parcel: Parcel<Msg>, origin: Origin)
    ensures
        from(parcels.push(parcel), origin) == if parcel.origin == origin {
            from(parcels, origin).push(parcel.msg)
        } else {
            from(parcels, origin)
        },
{
    assert(parcels.push(parcel).drop_last() =~= parcels);
}

/// Taking the first parcel away takes the first message of its origin away
/// and leaves the others alone.
pub proof fn from_drop_first<Msg>(parcels: Seq<Parcel<Msg>>, origin: Origin)
    requires
        parcels.len() > 0,
    ensures
        from(parcels, origin) == (if parcels[0].origin == origin {
            seq![parcels[0].msg]
        } else {
            Seq::empty()
        }) + from(parcels.drop_first(), origin),
    decreases parcels.len(),
{
    let head = if parcels[0].origin == origin {
        seq![parcels[0].msg]
    } else {
        Seq::empty()
    };
    if parcels.len() == 1 {
        assert(parcels.drop_last() =~= Seq::<Parcel<Msg>>::empty());
        assert(parcels.drop_first() =~= Seq::<Parcel<Msg>>::empty());
        assert(from(parcels, origin) =~= head + from(parcels.drop_first(), origin));
    } else {
        from_drop_first(parcels.drop_last(), origin);
        assert(parcels.drop_last().drop_first() =~= parcels.drop_first().drop_last());
        assert(parcels.drop_last()[0] == parcels[0]);
        assert(parcels.drop_first().last() == parcels.last());
        assert(from(parcels, origin) =~= head + from(parcels.drop_first(), origin));
    }
}

/// A producer that no parcel names has no message among them.
pub proof fn from_unknown<Msg>(parcels: Seq<Parcel<Msg>>, count: int, p: int)
    requires
        known(parcels, count),
        p >= count,
    ensures
        from(parcels, Origin::Producer(p)) == Seq::<Msg>::empty(),
    decreases parcels.len(),
{
    if parcels.len() > 0 {
        assert(parcels.last() == parcels[parcels.len() - 1]);
        assert forall|i: int| 0 <= i < parcels.drop_last().len() implies match (
        #[trigger] parcels.drop_last()[i]).origin {
            Origin::Subscription => true,
            Origin::Producer(q) => 0 <= q < count,
        } by {
            assert(parcels.drop_last()[i] == parcels[i]);
        }
        from_unknown(parcels.drop_last(), count, p);
    }
}

/// Parcels that are known among fewer producers are known among more, and
/// stay known when one of a known producer is put last.
proof fn known_grows<Msg>(parcels: Seq<Parcel<Msg>>, count: int, more: int)
    requires
        known(parcels, count),
        count <= more,
    ensures
        known(parcels, more),
{
    assert forall|i: int| 0 <= i < parcels.len() implies match (#[trigger] parcels[i]).origin {
        Origin::Subscription => true,
        Origin::Producer(p) => 0 <= p < more,
    } by {
        assert(match parcels[i].origin {
            Origin::Subscription => true,
            Origin::Producer(p) => 0 <= p < count,
        });
    }
}

proof fn spawn_keeps_sound<Msg, Fut, Sub>(world: World<Msg, Fut, Sub>, cmd: Cmd<Msg, Fut, Sub>)
    requires
        world.sound(),
    ensures
        world.step(Event::Spawn(cmd)).sound(),
{
    let next = world.step(Event::Spawn(cmd));
    let count = world.producers.len() as int;
    known_grows(world.bus, count, count + 1);
    known_grows(world.inbox, count, count + 1);
    assert forall|p: int| next.has(p) implies #[trigger] next.accounts_for(p) by {
        if p < count {
            assert(world.accounts_for(p));
        } else {
            from_unknown(world.bus, count, p);
            from_unknown(world.inbox, count, p);
            let task = Task::of(cmd);
            assert(next.given[p] =~= from(next.inbox, Origin::Producer(p)) + from(
                next.bus,
                Origin::Producer(p),
            ) + next.refused[p] + next.producers[p].in_hand());
            assert(task.in_hand().len() == 0 || task.in_hand() =~= seq![task.in_hand()[0]]);
        }
    }
}

proof fn hear_keeps_sound<Msg, Fut, Sub>(
    world: World<Msg, Fut, Sub>,
    q: int,
    signal: Signal<Msg>,
)
    requires
        world.sound(),
    ensures
        world.step(Event::Hear(q, signal)).sound(),
{
    let next = world.step(Event::Hear(q, signal));
    if next != world {
        assert forall|p: int| next.has(p) implies #[trigger] next.accounts_for(p) by {
            assert(world.accounts_for(p));
            if p == q {
                assert(next.given[p] =~= from(next.inbox, Origin::Producer(p)) + from(
                    next.bus,
                    Origin::Producer(p),
                ) + next.refused[p] + next.producers[p].in_hand());
                let given = next.given[p];
                if world.commands[p] is Future {
                    assert(given.len() == 1);
                }
            }
        }
    }
}

proof fn offer_keeps_sound<Msg, Fut, Sub>(world: World<Msg, Fut, Sub>, q: int)
    requires
        world.sound(),
    ensures
        world.step(Event::Offer(q)).sound(),
{
    let next = world.step(Event::Offer(q));
    if next != world {
        let msg = world.producers[q].in_hand()[0];
        let parcel = Parcel { origin: Origin::Producer(q), msg };
        assert(world.accounts_for(q));
        assert(world.producers[q].in_hand() =~= seq![msg]);
        if world.listening {
            assert forall|i: int| 0 <= i < next.bus.len() implies match (
            #[trigger] next.bus[i]).origin {
                Origin::Subscription => true,
                Origin::Producer(p) => 0 <= p < next.producers.len(),
            } by {
                if i < world.bus.len() {
                    assert(next.bus[i] == world.bus[i]);
                }
            }
        }
        assert forall|p: int| next.has(p) implies #[trigger] next.accounts_for(p) by {
            assert(world.accounts_for(p));
            if world.listening {
                from_push(world.bus, parcel, Origin::Producer(p));
            }
            if p == q {
                assert(world.refused[p].len() == 0);
                assert(next.producers[p].in_hand().len() == 0);
                assert(next.given[p] =~= from(next.inbox, Origin::Producer(p)) + from(
                    next.bus,
                    Origin::Producer(p),
                ) + next.refused[p] + next.producers[p].in_hand());
            }
        }
    }
}

proof fn receive_keeps_sound<Msg, Fut, Sub>(world: World<Msg, Fut, Sub>)
    requires
        world.sound(),
    ensures
        world.step(Event::Receive).sound(),
{
    let next = world.step(Event::Receive);
    if next != world {
        let parcel = world.bus[0];
        assert forall|i: int| 0 <= i < next.bus.len() implies match (#[trigger] next.bus[i]).origin {
            Origin::Subscription => true,
            Origin::Producer(p) => 0 <= p < next.producers.len(),
        } by {
            assert(next.bus[i] == world.bus[i + 1]);
        }
        assert forall|i: int| 0 <= i < next.inbox.len() implies match (
        #[trigger] next.inbox[i]).origin {
            Origin::Subscription => true,
            Origin::Producer(p) => 0 <= p < next.producers.len(),
        } by {
            if i < world.inbox.len() {
                assert(next.inbox[i] == world.inbox[i]);
            }
        }
        assert forall|p: int| next.has(p) implies #[trigger] next.accounts_for(p) by {
            assert(world.accounts_for(p));
            from_push(world.inbox, parcel, Origin::Producer(p));
            from_drop_first(world.bus, Origin::Producer(p));
            assert(next.given[p] =~= from(next.inbox, Origin::Producer(p)) + from(
                next.bus,
                Origin::Producer(p),
            ) + next.refused[p] + next.producers[p].in_hand());
        }
    }
}

proof fn subscribed_keeps_sound<Msg, Fut, Sub>(world: World<Msg, Fut, Sub>, msg: Msg)
    requires
        world.sound(),
    ensures
        world.step(Event::Subscribed(msg)).sound(),
{
    let next = world.step(Event::Subscribed(msg));
    if next != world {
        let parcel = Parcel { origin: Origin::Subscription, msg };
        assert forall|i: int| 0 <= i < next.inbox.len() implies match (
        #[trigger] next.inbox[i]).origin {
            Origin::Subscription => true,
            Origin::Producer(p) => 0 <= p < next.producers.len(),
        } by {
            if i < world.inbox.len() {
                assert(next.inbox[i] == world.inbox[i]);
            }
        }
        assert forall|p: int| next.has(p) implies #[trigger] next.accounts_for(p) by {
            assert(world.accounts_for(p));
            from_push(world.inbox, parcel, Origin::Producer(p));
        }
    }
}

/// Whatever happens, the accounts stay right.
pub proof fn step_keeps_sound<Msg, Fut, Sub>(
    world: World<Msg, Fut, Sub>,
    event: Event<Msg, Fut, Sub>,
)
    requires
        world.sound(),
    ensures
        world.step(event).sound(),
{
    match event {
        Event::Spawn(cmd) => spawn_keeps_sound(world, cmd),
        Event::Hear(p, signal) => hear_keeps_sound(world, p, signal),
        Event::Offer(p) => offer_keeps_sound(world, p),
        Event::Receive => receive_keeps_sound(world),
        Event::Subscribed(msg) => subscribed_keeps_sound(world, msg),
        Event::HangUp => {
            let next = world.step(event);
            assert forall|p: int| next.has(p) implies #[trigger] next.accounts_for(p) by {
                assert(world.accounts_for(p));
            }
        },
    }
}

/// From the start of a program, whatever happens and in whatever order, the
/// accounts are right.
pub proof fn always_sound<Msg, Fut, Sub>(capacity: nat, events: Seq<Event<Msg, Fut, Sub>>)
    ensures
        World::<Msg, Fut, Sub>::start(capacity).after(events).sound(),
    decreases events.len(),
{
    let start = World::<Msg, Fut, Sub>::start(capacity);
    if events.len() > 0 {
        always_sound::<Msg, Fut, Sub>(capacity, events.drop_last());
        step_keeps_sound(start.after(events.drop_last()), events.last());
    }
}

/// What the loop has had from a producer is the front part of what the
/// producer was given: every message at most once, none made up, and in the
/// order in which the producer got them.
pub proof fn deliveries_keep_their_order<Msg, Fut, Sub>(world: World<Msg, Fut, Sub>, p: int)
    requires
        world.sound(),
        world.has(p),
    ensures
        from(world.inbox, Origin::Producer(p)).len() <= world.given[p].len(),
        from(world.inbox, Origin::Producer(p)) == world.given[p].take(
            from(world.inbox, Origin::Producer(p)).len() as int,
        ),
{
    assert(world.accounts_for(p));
    let had = from(world.inbox, Origin::Producer(p));
    assert(had =~= world.given[p].take(had.len() as int));
}

/// What the loop has from a producer fits the command that the producer was
/// spawned for.
///
/// For a command to do nothing the loop gets nothing and the bus holds
/// nothing. For a queued message the loop gets that message once or not at
/// all. For an effect the loop gets at most one message, and none for as long
/// as the effect has not resolved. For a sequence the loop gets the front
/// part of what the sequence has produced.
pub proof fn deliveries_fit_the_command<Msg, Fut, Sub>(world: World<Msg, Fut, Sub>, p: int)
    requires
        world.sound(),
        world.has(p),
    ensures
        ({
            let had = from(world.inbox, Origin::Producer(p));
            let held = from(world.bus, Origin::Producer(p));
            match world.commands[p] {
                Cmd::Nothing => had.len() == 0 && held.len() == 0,
                Cmd::Msg(msg) => had.len() == 0 || had == seq![msg],
                Cmd::Future(fut) => {
                    &&& had.len() <= 1
                    &&& world.producers[p] is Awaiting ==> had.len() == 0 && held.len() == 0
                },
                Cmd::Sub(sub) => had == world.given[p].take(had.len() as int),
            }
        }),
{
    assert(world.accounts_for(p));
    deliveries_keep_their_order(world, p);
}

/// What the loop has been handed is never taken back, and an event hands it
/// at most one message more.
pub proof fn the_inbox_only_grows<Msg, Fut, Sub>(
    world: World<Msg, Fut, Sub>,
    event: Event<Msg, Fut, Sub>,
)
    ensures
        world.step(event).inbox == world.inbox || (world.step(event).inbox.len()
            == world.inbox.len() + 1 && world.step(event).inbox.drop_last() == world.inbox),
{
    let next = world.step(event);
    if next.inbox != world.inbox {
        assert(next.inbox.drop_last() =~= world.inbox);
    }
}

/// A message that the bus holds is on its way for good: while the loop
/// listens, the oldest is what the loop receives next, wherever its producer
/// stands by then.
pub proof fn the_bus_delivers_what_it_holds<Msg, Fut, Sub>(world: World<Msg, Fut, Sub>)
    requires
        world.listening,
        world.bus.len() > 0,
    ensures
        world.step(Event::Receive).inbox == world.inbox.push(world.bus[0]),
        world.step(Event::Receive).bus == world.bus.drop_first(),
{
}

/// A producer that has ended gives the loop nothing new, whatever happens:
/// it stays ended, and what it was given and what was refused of it stay as
/// they are. What is still in the bus from before is not touched by this.
pub proof fn an_ended_producer_adds_nothing<Msg, Fut, Sub>(
    world: World<Msg, Fut, Sub>,
    p: int,
    events: Seq<Event<Msg, Fut, Sub>>,
)
    requires
        world.sound(),
        world.has(p),
        world.producers[p] is Finished,
    ensures
        world.after(events).sound(),
        world.after(events).has(p),
        world.after(events).producers[p] is Finished,
        world.after(events).commands[p] == world.commands[p],
        world.after(events).given[p] == world.given[p],
        world.after(events).refused[p] == world.refused[p],
        from(world.after(events).inbox, Origin::Producer(p)) + from(
            world.after(events).bus,
            Origin::Producer(p),
        ) == from(world.inbox, Origin::Producer(p)) + from(world.bus, Origin::Producer(p)),
    decreases events.len(),
{
    assert(world.accounts_for(p));
    if events.len() > 0 {
        let before = world.after(events.drop_last());
        an_ended_producer_adds_nothing(world, p, events.drop_last());
        step_keeps_sound(before, events.last());
        let next = before.step(events.last());
        assert(before.accounts_for(p));
        assert(next.accounts_for(p));
        assert(next.producers[p] is Finished);
        assert(next.given[p] == before.given[p]);
        assert(next.refused[p] == before.refused[p]);
    }
    let end = world.after(events);
    assert(end.accounts_for(p));
    let left = from(end.inbox, Origin::Producer(p)) + from(end.bus, Origin::Producer(p));
    let right = from(world.inbox, Origin::Producer(p)) + from(world.bus, Origin::Producer(p));
    assert(left + end.refused[p] =~= end.given[p]);
    assert(right + world.refused[p] =~= world.given[p]);
    assert(left =~= (left + end.refused[p]).take(left.len() as int));
    assert(right =~= (right + world.refused[p]).take(right.len() as int));
}

/// The loop makes one transition for each message it is handed, and no
/// other: a program that is driven over what the inbox holds calls `update`
/// and `view` as many times as there are parcels in it.
pub proof fn one_transition_for_each_delivery<
    Model,
    Msg,
    Fut,
    Sub,
    Source,
    Init,
    View,
    Update,
    Subscriptions,
>(
    world: World<Msg, Fut, Sub>,
    program: Program<Init, View, Update, Subscriptions>,
    report: Report<Model, Msg, Fut, Sub, Source>,
) where
    Init: FnOnce() -> (Model, Cmd<Msg, Fut, Sub>),
    View: Fn(&Model) -> String,
    Update: Fn(Model, Msg) -> (Model, Cmd<Msg, Fut, Sub>),
    Subscriptions: FnOnce(Model) -> (Model, Source),

    requires
        program.reports(messages(world.inbox), report),
    ensures
        report.cmds@.len() == world.inbox.len(),
        report.frames@.len() == world.inbox.len(),
{
}

/// The messages that the subscription hands over in `events`, in order.
pub open spec fn subscribed_in<Msg, Fut, Sub>(events: Seq<Event<Msg, Fut, Sub>>) -> Seq<Msg>
    decreases events.len(),
{
    if events.len() == 0 {
        Seq::empty()
    } else {
        match events.last() {
            Event::Subscribed(msg) => subscribed_in(events.drop_last()).push(msg),
            _ => subscribed_in(events.drop_last()),
        }
    }
}

/// A loop that has gone away does not come back.
pub proof fn gone_is_gone<Msg, Fut, Sub>(
    world: World<Msg, Fut, Sub>,
    events: Seq<Event<Msg, Fut, Sub>>,
)
    ensures
        world.after(events).listening ==> world.listening,
        world.after(events).listening && events.len() > 0 ==> world.after(
            events.drop_last(),
        ).listening,
    decreases events.len(),
{
    if events.len() > 0 {
        gone_is_gone(world, events.drop_last());
    }
}

/// Merging keeps the subscription's order: what the loop has from the
/// subscription is what the subscription handed over, in that order, for as
/// long as the loop listens; the messages of the producers come in between
/// and change nothing of this.
pub proof fn the_subscription_keeps_its_order<Msg, Fut, Sub>(
    world: World<Msg, Fut, Sub>,
    events: Seq<Event<Msg, Fut, Sub>>,
)
    requires
        world.sound(),
    ensures
        world.after(events).sound(),
        world.after(events).listening ==> from(world.after(events).inbox, Origin::Subscription)
            == from(world.inbox, Origin::Subscription) + subscribed_in(events),
    decreases events.len(),
{
    if events.len() == 0 {
        assert(from(world.inbox, Origin::Subscription) + subscribed_in(events) =~= from(
            world.inbox,
            Origin::Subscription,
        ));
    } else {
        let before = world.after(events.drop_last());
        let next = before.step(events.last());
        the_subscription_keeps_its_order(world, events.drop_last());
        step_keeps_sound(before, events.last());
        gone_is_gone(world, events);
        if next.listening {
            match events.last() {
                Event::Subscribed(msg) => {
                    from_push(
                        before.inbox,
                        Parcel { origin: Origin::Subscription, msg },
                        Origin::Subscription,
                    );
                    assert(from(next.inbox, Origin::Subscription) =~= from(
                        world.inbox,
                        Origin::Subscription,
                    ) + subscribed_in(events));
                },
                Event::Receive => {
                    if before.bus.len() > 0 {
                        assert(before.bus[0].origin is Producer);
                        from_push(before.inbox, before.bus[0], Origin::Subscription);
                    }
                },
                _ => {},
            }
        }
    }
}

} // verus!
