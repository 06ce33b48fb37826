//! Commands: what a transition may ask the runtime to do.

use vstd::prelude::*;

verus! {

/// What the runtime is asked to do after a transition.
///
/// `Fut` stands for a computation that resolves once to a message, `Sub` for
/// a sequence of messages that is produced over time. The runtime never looks
/// inside either: it hands them to the embedding to be awaited.
pub enum Cmd<Msg, Fut, Sub> {
    /// Nothing to do.
    Nothing,
    /// Queue this message; no real work is involved.
    Msg(Msg),
    /// Run the computation once and queue the message it resolves to.
    Future(Fut),
    /// Forward every message of the sequence, in order, until it ends.
    Sub(Sub),
}

impl<Msg, Fut, Sub> Cmd<Msg, Fut, Sub> {
    /// The command that runs `f` once.
    pub fn boxed(f: Fut) -> (cmd: Self)
        ensures
            cmd == Cmd::<Msg, Fut, Sub>::Future(f),
    {
        Cmd::Future(f)
    }

    /// The same command with its computation or its sequence in another
    /// form: `effect` is applied to the computation of a `Future`, `stream` to the
    /// sequence of a `Sub`, and neither to anything else.
    pub fn map<Fut2, Sub2, F, S>(self, effect: F, stream: S) -> (cmd: Cmd<Msg, Fut2, Sub2>) where
        F: FnOnce(Fut) -> Fut2,
        S: FnOnce(Sub) -> Sub2,

        requires
            self is Future ==> call_requires(effect, (self->Future_0,)),
            self is Sub ==> call_requires(stream, (self->Sub_0,)),
        ensures
            match self {
                Cmd::Nothing => cmd is Nothing,
                Cmd::Msg(msg) => cmd == Cmd::<Msg, Fut2, Sub2>::Msg(msg),
                Cmd::Future(f) => cmd is Future && call_ensures(effect, (f,), cmd->Future_0),
                Cmd::Sub(s) => cmd is Sub && call_ensures(stream, (s,), cmd->Sub_0),
            },
    {
        match self {
            Cmd::Nothing => Cmd::Nothing,
            Cmd::Msg(msg) => Cmd::Msg(msg),
            Cmd::Future(f) => Cmd::Future(effect(f)),
            Cmd::Sub(s) => Cmd::Sub(stream(s)),
        }
    }
}

} // verus!
