//! A clock that is switched on and off by lines of input.

use crate::cancel::{scope, Scope};
use crate::cmd::Cmd;
use tokio::time::Instant;
use tokio_util::sync::CancellationToken;
use vstd::prelude::*;
use vstd::string::*;

verus! {

#[verifier::external_type_specification]
#[verifier::external_body]
pub struct ExInstant(Instant);

pub struct Model {
    /// When the clock last ticked, if it has since it was switched on.
    pub last_tick: Option<Instant>,
    /// Held while the clock is ticking; letting go of it stops the clock.
    pub cancel: Option<Scope>,
}

pub enum Msg {
    /// Switch the clock on, or off if it is on.
    Toggle,
    /// A tick of the clock.
    Tick(Instant),
}

/// One tick each second, until `stop` is cancelled.
pub struct Ticks {
    pub stop: CancellationToken,
}

/// Where the program's messages come from.
pub enum Source {
    /// One message for each line of standard input.
    EnterKey,
}

/// The clock is off and has never ticked.
pub fn init() -> (out: (Model, Cmd<Msg, (), Ticks>))
    ensures
        out.0.last_tick is None,
        out.0.cancel is None,
        out.1 is Nothing,
{
    (Model { last_tick: None, cancel: None }, Cmd::Nothing)
}

/// One transition.
///
/// `Toggle` on a clock that is off starts the ticks and keeps their scope;
/// the last tick is forgotten. `Toggle` on a clock that is on lets go of the
/// scope, which stops the ticks, and asks for nothing. `Tick` records the
/// time.
pub fn update(model: Model, msg: Msg) -> (out: (Model, Cmd<Msg, (), Ticks>))
    ensures
        match msg {
            Msg::Toggle => if model.cancel is Some {
                &&& out.0.last_tick == model.last_tick
                &&& out.0.cancel is None
                &&& out.1 is Nothing
            } else {
                &&& out.0.last_tick is None
                &&& out.0.cancel is Some
                &&& out.1 is Sub
                &&& out.1->Sub_0.stop == out.0.cancel->Some_0.token()
            },
            Msg::Tick(at) => {
                &&& out.0.last_tick == Some(at)
                &&& out.0.cancel == model.cancel
                &&& out.1 is Nothing
            },
        },
{
    match msg {
        Msg::Toggle => {
            let Model { last_tick, cancel } = model;
            match cancel {
                Some(held) => {
                    held.release();
                    (Model { last_tick, cancel: None }, Cmd::Nothing)
                },
                None => {
                    let (held, ticks) = tick();
                    (Model { last_tick: None, cancel: Some(held) }, Cmd::Sub(ticks))
                },
            }
        },
        Msg::Tick(new_time) => {
            (Model { last_tick: Some(new_time), cancel: model.cancel }, Cmd::Nothing)
        },
    }
}

/// The message that a line of input stands for: whatever was typed, toggle.
pub fn on_enter_key(line: String) -> (msg: Msg)
    ensures
        msg is Toggle,
{
    Msg::Toggle
}

/// The model as it is, and the lines of standard input as the source.
pub fn subscriptions(model: Model) -> (out: (Model, Source))
    ensures
        out.0 == model,
        out.1 is EnterKey,
{
    (model, Source::EnterKey)
}

/// `Debug` of `tokio::time::Instant`: how the instant is written depends on
/// the platform's clock, so nothing is claimed of the text.
#[verifier::external_body]
fn instant_text(at: &Instant) -> String {
    format!("{:?}", at)
}

/// The time of the last tick, after the words `last tick: `, as `None` or as
/// `Some(..)` around the instant.
pub fn view(model: &Model) -> (text: String)
    ensures
        model.last_tick is None ==> text@ == "last tick: None"@,
        model.last_tick is Some ==> exists|instant: Seq<char>|
            text@ == "last tick: Some("@ + instant + ")"@,
{
    match &model.last_tick {
        None => String::from_str("last tick: None"),
        Some(at) => {
            let instant = instant_text(at);
            let mut text = String::from_str("last tick: Some(");
            text.append(instant.as_str());
            text.append(")");
            assert(text@ == "last tick: Some("@ + instant@ + ")"@);
            text
        },
    }
}

/// A new stream of ticks, and the scope that stops it.
pub fn tick() -> (out: (Scope, Ticks))
    ensures
        out.1.stop == out.0.token(),
{
    let (stop, held) = scope();
    (held, Ticks { stop })
}

} // verus!
