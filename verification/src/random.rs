//! A die that is rolled again at every line of input.

use crate::cmd::Cmd;
use crate::text::{decimal, decimal_text};
use rand::distributions::Distribution;
use rand::distributions::Uniform;
use vstd::prelude::*;
use vstd::string::*;

verus! {

/// The face that the die shows.
#[derive(Debug)]
pub struct Model {
    pub die_face: u8,
}

#[derive(Debug)]
pub enum Msg {
    /// Roll the die.
    Roll,
    /// The die has come to rest on this face.
    NewFace(u8),
}

/// Where the program's messages come from.
pub enum Source {
    /// One message for each line of standard input.
    EnterKey,
}

/// What `view` makes of a model.
pub open spec fn shown(model: Model) -> Seq<char> {
    "Model { die_face: "@ + decimal(model.die_face as nat) + " }"@
}

pub fn view(model: &Model) -> (text: String)
    ensures
        text@ == shown(*model),
{
    let mut text = String::from_str("Model { die_face: ");
    let face = decimal_text(model.die_face as u64);
    text.append(face.as_str());
    text.append(" }");
    text
}

/// One transition. `Roll` leaves the model alone and asks for a new face,
/// which is somewhere from 1 to 5; `NewFace` puts that face on the die.
pub fn update(model: Model, msg: Msg) -> (out: (Model, Cmd<Msg, (), ()>))
    ensures
        match msg {
            Msg::Roll => {
                &&& out.0 == model
                &&& out.1 is Msg
                &&& out.1->Msg_0 is NewFace
                &&& 1 <= out.1->Msg_0->NewFace_0 < 6
            },
            Msg::NewFace(face) => {
                &&& out.0 == (Model { die_face: face })
                &&& out.1 is Nothing
            },
        },
{
    match msg {
        Msg::Roll => (model, Cmd::Msg(Msg::NewFace(roll_dice()))),
        Msg::NewFace(new_face) => (Model { die_face: new_face }, Cmd::Nothing),
    }
}

/// The die shows 1 and nothing is asked of the runtime.
pub fn init() -> (out: (Model, Cmd<Msg, (), ()>))
    ensures
        out.0 == (Model { die_face: 1 }),
        out.1 is Nothing,
{
    (Model { die_face: 1 }, Cmd::Nothing)
}

/// The message that a line of input stands for: whatever was typed, roll.
pub fn on_enter_key(line: String) -> (msg: Msg)
    ensures
        msg is Roll,
{
    Msg::Roll
}

/// The model as it is, and the lines of standard input as the source.
pub fn subscriptions(model: Model) -> (out: (Model, Source))
    ensures
        out.0 == model,
        out.1 is EnterKey,
{
    (model, Source::EnterKey)
}

/// `Uniform::from(low..high)` of rand, sampled once from `thread_rng()`: a
/// number of the half-open range, each as likely as the other. Which one is
/// chance; the range is all that is claimed. rand panics on an empty range.
#[verifier::external_body]
fn sample_between(low: u8, high: u8) -> (n: u8)
    requires
        low < high,
    ensures
        low <= n < high,
{
    Uniform::from(low..high).sample(&mut rand::thread_rng())
}

/// Rolls the die: a face from 1 to 5.
pub fn roll_dice() -> (face: u8)
    ensures
        1 <= face < 6,
{
    sample_between(1, 6)
}

} // verus!
