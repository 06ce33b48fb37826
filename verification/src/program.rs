//! The loop of a program.
//!
//! A program goes through three stages, each a type of its own. A
//! [`Program`] has not begun. [`Program::start`] calls `init` and gives a
//! [`Started`] program; [`Started::subscribe`] calls `subscriptions` and
//! gives a [`Session`], the running program. Every message that reaches a
//! session is one transition, [`Session::deliver`]. [`Session::finish`] ends
//! the program and gives up the model. [`Sources`] tells when that is due.
//!
//! The model is owned by whoever holds the stage: it is moved into `update`
//! and the next model is moved out, so there is one model at any time and no
//! two transitions overlap.

use crate::cmd::Cmd;
use vstd::prelude::*;

verus! {

/// A program: the four functions that the runtime drives.
pub struct Program<Init, View, Update, Subscriptions> {
    /// Gives the first model and the first command.
    pub init: Init,
    /// Renders a model as text.
    pub view: View,
    /// Takes the model and one message to the next model and a command.
    pub update: Update,
    /// Called once at startup; gives the long-lived source of messages and
    /// may adjust the model.
    pub subscriptions: Subscriptions,
}

/// One transition of the loop, as it happened.
pub struct Step<Model, Msg, Fut, Sub> {
    /// The message that was delivered.
    pub msg: Msg,
    /// The model that `update` returned.
    pub model: Model,
    /// The command that `update` returned.
    pub cmd: Cmd<Msg, Fut, Sub>,
    /// What `view` made of that model.
    pub frame: String,
}

/// The model that goes into transition number `i`.
pub open spec fn model_before<Model, Msg, Fut, Sub>(
    first: Model,
    steps: Seq<Step<Model, Msg, Fut, Sub>>,
    i: int,
) -> Model {
    if i == 0 {
        first
    } else {
        steps[i - 1].model
    }
}

/// Whether `steps` is a run of the loop from the model `first`: each step is
/// one call of `update` on the model that the step before left and on the
/// step's message, and one call of `view` on what that call returned.
pub open spec fn is_run<Model, Msg, Fut, Sub, View, Update>(
    view: View,
    update: Update,
    first: Model,
    steps: Seq<Step<Model, Msg, Fut, Sub>>,
) -> bool where
    View: Fn(&Model) -> String,
    Update: Fn(Model, Msg) -> (Model, Cmd<Msg, Fut, Sub>),
 {
    forall|i: int|
        0 <= i < steps.len() ==> {
            &&& call_ensures(
                update,
                (model_before(first, steps, i), steps[i].msg),
                (#[trigger] steps[i].model, steps[i].cmd),
            )
            &&& call_ensures(view, (&steps[i].model,), steps[i].frame)
        }
}

/// Whether `steps` took in the messages of `inbox`, one step for each and in
/// that order, and gave out `cmds` and `frames`.
pub open spec fn follows<Model, Msg, Fut, Sub>(
    steps: Seq<Step<Model, Msg, Fut, Sub>>,
    inbox: Seq<Msg>,
    cmds: Seq<Cmd<Msg, Fut, Sub>>,
    frames: Seq<String>,
) -> bool {
    &&& steps.len() == inbox.len()
    &&& cmds.len() == inbox.len()
    &&& frames.len() == inbox.len()
    &&& forall|i: int|
        0 <= i < steps.len() ==> {
            &&& (#[trigger] steps[i]).msg == inbox[i]
            &&& steps[i].cmd == cmds[i]
            &&& steps[i].frame == frames[i]
        }
}

/// Whether `update` and `view` can be called on every input.
pub open spec fn is_total<Model, Msg, Fut, Sub, View, Update>(view: View, update: Update) -> bool where
    View: Fn(&Model) -> String,
    Update: Fn(Model, Msg) -> (Model, Cmd<Msg, Fut, Sub>),
 {
    &&& forall|model: Model, msg: Msg| call_requires(update, (model, msg))
    &&& forall|model: Model| call_requires(view, (&model,))
}

/// A program that has been initialised and waits for its subscriptions.
pub struct Started<Model, View, Update, Subscriptions> {
    model: Model,
    view: View,
    update: Update,
    subscriptions: Subscriptions,
}

/// A running program: the one live model, and the transitions that led to it.
pub struct Session<Model, Msg, Fut, Sub, View, Update> {
    model: Model,
    view: View,
    update: Update,
    first: Ghost<Model>,
    steps: Ghost<Seq<Step<Model, Msg, Fut, Sub>>>,
}

/// What a program did over a given run of messages.
pub struct Report<Model, Msg, Fut, Sub, Source> {
    /// The command that `init` returned.
    pub first_cmd: Cmd<Msg, Fut, Sub>,
    /// The source of messages that `subscriptions` returned.
    pub source: Source,
    /// The command of each transition, in order.
    pub cmds: Vec<Cmd<Msg, Fut, Sub>>,
    /// The text of each transition, in order.
    pub frames: Vec<String>,
    /// The model that the last transition left.
    pub model: Model,
}

impl<Init, View, Update, Subscriptions> Program<Init, View, Update, Subscriptions> {
    /// Whether `report` is what this program does when `inbox` is delivered
    /// to it, message by message: `init` once, then `subscriptions` once on
    /// the model from `init`, then for each message, in order, `update` once
    /// on the model so far and `view` once on the model that `update`
    /// returned.
    pub open spec fn reports<Model, Msg, Fut, Sub, Source>(
        self,
        inbox: Seq<Msg>,
        report: Report<Model, Msg, Fut, Sub, Source>,
    ) -> bool where
        Init: FnOnce() -> (Model, Cmd<Msg, Fut, Sub>),
        View: Fn(&Model) -> String,
        Update: Fn(Model, Msg) -> (Model, Cmd<Msg, Fut, Sub>),
        Subscriptions: FnOnce(Model) -> (Model, Source),
     {
        exists|initial: Model, first: Model, steps: Seq<Step<Model, Msg, Fut, Sub>>|
            {
                &&& call_ensures(self.init, (), (initial, report.first_cmd))
                &&& call_ensures(self.subscriptions, (initial,), (first, report.source))
                &&& is_run(self.view, self.update, first, steps)
                &&& follows(steps, inbox, report.cmds@, report.frames@)
                &&& report.model == model_before(first, steps, steps.len() as int)
            }
    }

    /// Drives the program over `inbox`, as the loop does when its sources
    /// deliver exactly these messages in this order, and then ends it.
    ///
    /// `update` is called once for each message and never for anything else,
    /// one call after the other, each on the model that the call before
    /// returned; `view` is called once after each `update`, on the model
    /// that it returned.
    pub fn run<Model, Msg, Fut, Sub, Source>(self, inbox: Vec<Msg>) -> (report: Report<
        Model,
        Msg,
        Fut,
        Sub,
        Source,
    >) where
        Init: FnOnce() -> (Model, Cmd<Msg, Fut, Sub>),
        View: Fn(&Model) -> String,
        Update: Fn(Model, Msg) -> (Model, Cmd<Msg, Fut, Sub>),
        Subscriptions: FnOnce(Model) -> (Model, Source),

        requires
            call_requires(self.init, ()),
            forall|model: Model| call_requires(self.subscriptions, (model,)),
            is_total(self.view, self.update),
        ensures
            self.reports(inbox@, report),
            report.cmds@.len() == inbox@.len(),
            report.frames@.len() == inbox@.len(),
    {
        let (started, first_cmd) = self.start();
        let ghost initial = started.model();
        let (session, source) = started.subscribe();
        let ghost first = session.model();
        let mut session = session;
        let mut cmds: Vec<Cmd<Msg, Fut, Sub>> = Vec::new();
        let mut frames: Vec<String> = Vec::new();
        let ghost all = inbox@;
        for msg in it: inbox
            invariant
                it.seq() == all,
                cmds@.len() == it.index(),
                session.wf(),
                session.view_fn() == self.view,
                session.update_fn() == self.update,
                session.first() == first,
                follows(session.steps(), all.take(cmds@.len() as int), cmds@, frames@),
        {
            let (next, cmd, frame) = session.deliver(msg);
            session = next;
            cmds.push(cmd);
            frames.push(frame);
        }
        let ghost steps = session.steps();
        let model = session.finish();
        let report = Report { first_cmd, source, cmds, frames, model };
        proof {
            assert(all.take(cmds@.len() as int) =~= all);
            assert(call_ensures(self.init, (), (initial, report.first_cmd)));
            assert(call_ensures(self.subscriptions, (initial,), (first, report.source)));
            assert(is_run(self.view, self.update, first, steps));
        }
        report
    }

    /// Calls `init`. The command it returns is to be dispatched before
    /// [`Started::subscribe`] is called.
    pub fn start<Model, Msg, Fut, Sub>(self) -> (out: (
        Started<Model, View, Update, Subscriptions>,
        Cmd<Msg, Fut, Sub>,
    )) where Init: FnOnce() -> (Model, Cmd<Msg, Fut, Sub>)
        requires
            call_requires(self.init, ()),
        ensures
            call_ensures(self.init, (), (out.0.model(), out.1)),
            out.0.view_fn() == self.view,
            out.0.update_fn() == self.update,
            out.0.subscriptions_fn() == self.subscriptions,
    {
        let (model, cmd) = (self.init)();
        (
            Started {
                model,
                view: self.view,
                update: self.update,
                subscriptions: self.subscriptions,
            },
            cmd,
        )
    }
}

impl<Model, View, Update, Subscriptions> Started<Model, View, Update, Subscriptions> {
    /// The model that `init` returned.
    pub closed spec fn model(&self) -> Model {
        self.model
    }

    /// The program's `view`.
    pub closed spec fn view_fn(&self) -> View {
        self.view
    }

    /// The program's `update`.
    pub closed spec fn update_fn(&self) -> Update {
        self.update
    }

    /// The program's `subscriptions`.
    pub closed spec fn subscriptions_fn(&self) -> Subscriptions {
        self.subscriptions
    }

    /// Calls `subscriptions` on the first model. The program is running from
    /// here on, with the model that `subscriptions` returned and no
    /// transition made.
    pub fn subscribe<Msg, Fut, Sub, Source>(self) -> (out: (
        Session<Model, Msg, Fut, Sub, View, Update>,
        Source,
    )) where
        View: Fn(&Model) -> String,
        Update: Fn(Model, Msg) -> (Model, Cmd<Msg, Fut, Sub>),
        Subscriptions: FnOnce(Model) -> (Model, Source),

        requires
            call_requires(self.subscriptions_fn(), (self.model(),)),
            is_total(self.view_fn(), self.update_fn()),
        ensures
            call_ensures(self.subscriptions_fn(), (self.model(),), (out.0.model(), out.1)),
            out.0.wf(),
            out.0.first() == out.0.model(),
            out.0.steps() == Seq::<Step<Model, Msg, Fut, Sub>>::empty(),
            out.0.view_fn() == self.view_fn(),
            out.0.update_fn() == self.update_fn(),
    {
        let (model, source) = (self.subscriptions)(self.model);
        let session = Session {
            model,
            view: self.view,
            update: self.update,
            first: Ghost(model),
            steps: Ghost(Seq::empty()),
        };
        (session, source)
    }
}

impl<Model, Msg, Fut, Sub, View, Update> Session<Model, Msg, Fut, Sub, View, Update> where
    View: Fn(&Model) -> String,
    Update: Fn(Model, Msg) -> (Model, Cmd<Msg, Fut, Sub>),
 {
    /// The live model.
    pub closed spec fn model(&self) -> Model {
        self.model
    }

    /// The program's `view`.
    pub closed spec fn view_fn(&self) -> View {
        self.view
    }

    /// The program's `update`.
    pub closed spec fn update_fn(&self) -> Update {
        self.update
    }

    /// The model the program was running with before any message.
    pub closed spec fn first(&self) -> Model {
        self.first@
    }

    /// Every transition made so far, oldest first.
    pub closed spec fn steps(&self) -> Seq<Step<Model, Msg, Fut, Sub>> {
        self.steps@
    }

    /// The live model is the one that the last transition left, and the
    /// transitions are a run of the loop.
    pub open spec fn wf(&self) -> bool {
        &&& is_total(self.view_fn(), self.update_fn())
        &&& is_run(self.view_fn(), self.update_fn(), self.first(), self.steps())
        &&& self.model() == model_before(self.first(), self.steps(), self.steps().len() as int)
    }

    /// One transition: `update` on the live model and `msg`, then `view` on
    /// the new model. Returns the command to dispatch and the text to show.
    pub fn deliver(self, msg: Msg) -> (out: (Self, Cmd<Msg, Fut, Sub>, String))
        requires
            self.wf(),
        ensures
            out.0.wf(),
            out.0.view_fn() == self.view_fn(),
            out.0.update_fn() == self.update_fn(),
            out.0.first() == self.first(),
            out.0.steps() == self.steps().push(
                Step { msg, model: out.0.model(), cmd: out.1, frame: out.2 },
            ),
            call_ensures(self.update_fn(), (self.model(), msg), (out.0.model(), out.1)),
            call_ensures(self.view_fn(), (&out.0.model(),), out.2),
    {
        let ghost before = self.steps@;
        let ghost first = self.first@;
        let (model, cmd) = (self.update)(self.model, msg);
        let frame = (self.view)(&model);
        let ghost after = before.push(Step { msg, model, cmd, frame });
        let next = Session {
            model,
            view: self.view,
            update: self.update,
            first: Ghost(first),
            steps: Ghost(after),
        };
        proof {
            assert forall|i: int| 0 <= i < after.len() implies {
                &&& call_ensures(
                    next.update,
                    (model_before(first, after, i), after[i].msg),
                    (#[trigger] after[i].model, after[i].cmd),
                )
                &&& call_ensures(next.view, (&after[i].model,), after[i].frame)
            } by {
                if i < before.len() {
                    assert(after[i] == before[i]);
                    assert(model_before(first, after, i) == model_before(first, before, i));
                }
            }
        }
        (next, cmd, frame)
    }

    /// The live model, to look at.
    pub fn current(&self) -> (model: &Model)
        ensures
            *model == self.model(),
    {
        &self.model
    }

    /// Ends the program: no message is left. Gives back the last model.
    pub fn finish(self) -> (model: Model)
        ensures
            model == self.model(),
    {
        self.model
    }
}

/// Who may still deliver a message to a running program: its subscription,
/// until that has ended, and every producer that was spawned and has not
/// ended. The loop ends when nobody is left.
pub struct Sources {
    subscribed: bool,
    producers: usize,
}

impl Sources {
    /// Whether the subscription has not ended.
    pub closed spec fn subscribed(&self) -> bool {
        self.subscribed
    }

    /// How many producers were spawned and have not ended.
    pub closed spec fn producers(&self) -> nat {
        self.producers as nat
    }

    /// Whether nobody is left to deliver a message.
    pub open spec fn exhausted(&self) -> bool {
        !self.subscribed() && self.producers() == 0
    }

    /// A program at its start: the subscription counts as live until it has
    /// ended, and no producer is live.
    pub fn new() -> (sources: Sources)
        ensures
            sources.subscribed(),
            sources.producers() == 0,
    {
        Sources { subscribed: true, producers: 0 }
    }

    /// How many producers were spawned and have not ended.
    pub fn live_producers(&self) -> (n: usize)
        ensures
            n == self.producers(),
    {
        self.producers
    }

    /// A producer was spawned.
    pub fn spawned(&mut self)
        requires
            old(self).producers() < usize::MAX,
        ensures
            final(self).producers() == old(self).producers() + 1,
            final(self).subscribed() == old(self).subscribed(),
    {
        self.producers = self.producers + 1;
    }

    /// A producer has ended. Where none was live nothing changes.
    pub fn producer_ended(&mut self)
        ensures
            final(self).producers() == if old(self).producers() == 0 {
                0
            } else {
                old(self).producers() - 1
            },
            final(self).subscribed() == old(self).subscribed(),
    {
        if self.producers > 0 {
            self.producers = self.producers - 1;
        }
    }

    /// The subscription has ended. It does not come back.
    pub fn subscription_ended(&mut self)
        ensures
            !final(self).subscribed(),
            final(self).producers() == old(self).producers(),
    {
        self.subscribed = false;
    }

    /// Whether nobody is left to deliver a message: the program is over.
    pub fn is_exhausted(&self) -> (over: bool)
        ensures
            over == self.exhausted(),
    {
        !self.subscribed && self.producers == 0
    }
}

} // verus!
