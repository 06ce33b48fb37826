//! An echo client: lines of input go out over a websocket, and what comes
//! back is listed.

use crate::cmd::Cmd;
use crate::text::{decimal, decimal_text, join_lines, joined, pad_left, padded};
use tokio::sync::mpsc::Receiver;
use tokio::sync::mpsc::Sender;
use vstd::prelude::*;
use vstd::string::*;

verus! {

#[verifier::external_type_specification]
#[verifier::external_body]
#[verifier::reject_recursive_types(T)]
pub struct ExSender<T>(Sender<T>);

#[verifier::external_type_specification]
#[verifier::external_body]
#[verifier::reject_recursive_types(T)]
pub struct ExReceiver<T>(Receiver<T>);

/// How many outgoing lines may wait for the socket.
pub const OUTBOUND_CAPACITY: usize = 64;

/// How wide the counter is written, at least.
pub const COUNTER_WIDTH: usize = 3;

/// The state of the client. The counter is the number of messages listed.
pub struct Model {
    counter: usize,
    input: String,
    ws_sender: Option<Sender<String>>,
    messages: Vec<String>,
}

pub enum Msg {
    /// A line was typed.
    Input(String),
    /// Send what was typed.
    Send,
    /// The line is on its way.
    Sent,
    /// The socket delivered a text frame.
    NewMessage(String),
}

/// What the socket hands over: one of its kinds of frame, or a failure.
pub enum Incoming {
    Text(String),
    Binary(Vec<u8>),
    Ping(Vec<u8>),
    Pong(Vec<u8>),
    Close,
    Frame,
    Failed,
}

/// The effect of putting `text` on the way to the socket through `tx`. It
/// resolves to [`Msg::Sent`].
pub struct Outgoing {
    pub tx: Sender<String>,
    pub text: String,
}

/// Where the program's messages come from: each line of standard input, as
/// [`Msg::Input`], and each text frame of the socket at `url`, as
/// [`Msg::NewMessage`]. What arrives on `outbound` is to go out over the
/// socket.
pub struct Source {
    pub url: &'static str,
    pub outbound: Receiver<String>,
}

/// `tokio::sync::mpsc::channel`: the two ends of a new bounded channel.
/// tokio panics on a buffer of 0 and on one over `usize::MAX >> 3`. The ends
/// are opaque; that they belong together is not claimed here.
#[verifier::external_body]
fn channel(buffer: usize) -> (ends: (Sender<String>, Receiver<String>))
    requires
        0 < buffer <= usize::MAX / 8,
{
    tokio::sync::mpsc::channel(buffer)
}

/// `Sender::clone` of tokio: another handle on the same channel. Here a
/// handle stands for its channel, so the two are one value.
#[verifier::external_body]
fn same_sender(tx: &Sender<String>) -> (twin: Sender<String>)
    ensures
        twin == *tx,
{
    tx.clone()
}

impl Model {
    #[verifier::type_invariant]
    spec fn counts_messages(self) -> bool {
        self.counter == self.messages@.len()
    }

    /// How many messages the socket has delivered.
    pub closed spec fn counter_spec(self) -> nat {
        self.counter as nat
    }

    /// What was typed and not yet sent.
    pub closed spec fn input_spec(self) -> Seq<char> {
        self.input@
    }

    /// The way to the socket, once the program is subscribed.
    pub closed spec fn sender_spec(self) -> Option<Sender<String>> {
        self.ws_sender
    }

    /// The messages that the socket has delivered, oldest first.
    pub closed spec fn messages_spec(self) -> Seq<Seq<char>> {
        self.messages@.map_values(|line: String| line@)
    }

    /// How many messages the socket has delivered.
    pub fn counter(&self) -> (n: usize)
        ensures
            n == self.counter_spec(),
            n == self.messages_spec().len(),
    {
        proof {
            use_type_invariant(self);
        }
        self.counter
    }

    /// What was typed and not yet sent.
    pub fn input(&self) -> (text: &String)
        ensures
            text@ == self.input_spec(),
    {
        &self.input
    }

    /// Whether the way to the socket is there.
    pub fn is_connected(&self) -> (yes: bool)
        ensures
            yes == self.sender_spec() is Some,
    {
        self.ws_sender.is_some()
    }

    /// The messages that the socket has delivered, oldest first.
    pub fn messages(&self) -> (lines: &Vec<String>)
        ensures
            lines@.map_values(|line: String| line@) == self.messages_spec(),
    {
        &self.messages
    }
}

/// Nothing typed, nothing received, no way to the socket yet.
pub fn init() -> (out: (Model, Cmd<Msg, Outgoing, ()>))
    ensures
        out.0.counter_spec() == 0,
        out.0.input_spec() == Seq::<char>::empty(),
        out.0.sender_spec() is None,
        out.0.messages_spec() == Seq::<Seq<char>>::empty(),
        out.1 is Nothing,
{
    let model = Model { counter: 0, input: String::new(), ws_sender: None, messages: Vec::new() };
    assert(model.messages_spec() =~= Seq::<Seq<char>>::empty());
    (model, Cmd::Nothing)
}

/// One transition.
///
/// `Input` keeps the line and asks for `Send` at once. `Send` empties the
/// input and, where there is a way to the socket, puts the line on it;
/// without one the line is dropped. `NewMessage` lists the message and counts
/// it. `Sent` changes nothing.
pub fn update(model: Model, msg: Msg) -> (out: (Model, Cmd<Msg, Outgoing, ()>))
    ensures
        match msg {
            Msg::Input(line) => {
                &&& out.0.input_spec() == line@
                &&& out.0.counter_spec() == model.counter_spec()
                &&& out.0.sender_spec() == model.sender_spec()
                &&& out.0.messages_spec() == model.messages_spec()
                &&& out.1 is Msg
                &&& out.1->Msg_0 is Send
            },
            Msg::Send => {
                &&& out.0.input_spec() == Seq::<char>::empty()
                &&& out.0.counter_spec() == model.counter_spec()
                &&& out.0.sender_spec() == model.sender_spec()
                &&& out.0.messages_spec() == model.messages_spec()
                &&& match model.sender_spec() {
                    Some(tx) => {
                        &&& out.1 is Future
                        &&& out.1->Future_0.tx == tx
                        &&& out.1->Future_0.text@ == model.input_spec()
                    },
                    None => out.1 is Nothing,
                }
            },
            Msg::NewMessage(text) => {
                &&& out.0.input_spec() == model.input_spec()
                &&& out.0.counter_spec() == model.counter_spec() + 1
                &&& out.0.sender_spec() == model.sender_spec()
                &&& out.0.messages_spec() == model.messages_spec().push(text@)
                &&& out.1 is Nothing
            },
            Msg::Sent => {
                &&& out.0 == model
                &&& out.1 is Nothing
            },
        },
{
    proof {
        use_type_invariant(&model);
    }
    match msg {
        Msg::Input(new_input) => {
            let Model { counter, input, ws_sender, messages } = model;
            (Model { counter, input: new_input, ws_sender, messages }, Cmd::Msg(Msg::Send))
        },
        Msg::Send => {
            let Model { counter, input, ws_sender, messages } = model;
            let cmd = match &ws_sender {
                Some(tx) => Cmd::boxed(Outgoing { tx: same_sender(tx), text: input }),
                None => Cmd::Nothing,
            };
            (Model { counter, input: String::new(), ws_sender, messages }, cmd)
        },
        Msg::NewMessage(text) => {
            let Model { counter, input, ws_sender, messages } = model;
            let mut messages = messages;
            let ghost before = messages@;
            messages.push(text);
            assert(counter + 1 == messages.len());
            assert(messages@.map_values(|line: String| line@) =~= before.map_values(
                |line: String| line@,
            ).push(text@));
            (Model { counter: counter + 1, input, ws_sender, messages }, Cmd::Nothing)
        },
        Msg::Sent => (model, Cmd::Nothing),
    }
}

/// The address of the echo server.
pub const ECHO_SERVER: &'static str = "ws://echo.websocket.events";

/// Opens the way to the socket and keeps its sending end in the model. The
/// source listens for typed lines and for the socket's text frames, and
/// holds the receiving end.
pub fn subscriptions(model: Model) -> (out: (Model, Source))
    ensures
        out.0.sender_spec() is Some,
        out.0.counter_spec() == model.counter_spec(),
        out.0.input_spec() == model.input_spec(),
        out.0.messages_spec() == model.messages_spec(),
        out.1.url@ == ECHO_SERVER@,
{
    proof {
        use_type_invariant(&model);
    }
    let (tx, rx) = channel(OUTBOUND_CAPACITY);
    let Model { counter, input, ws_sender, messages } = model;
    (
        Model { counter, input, ws_sender: Some(tx), messages },
        Source { url: ECHO_SERVER, outbound: rx },
    )
}

/// The message that a line of input stands for.
pub fn on_enter_key(line: String) -> (msg: Msg)
    ensures
        msg == Msg::Input(line),
{
    Msg::Input(line)
}

/// The text that the socket delivered, if what it handed over is a text
/// frame. Every other kind of frame, and every failure, is passed over.
pub fn websocket(incoming: Incoming) -> (text: Option<String>)
    ensures
        text == match incoming {
            Incoming::Text(text) => Some(text),
            _ => None,
        },
{
    match incoming {
        Incoming::Text(text) => Some(text),
        _ => None,
    }
}

/// What `view` makes of a counter and a list of messages.
pub open spec fn shown(counter: nat, messages: Seq<Seq<char>>) -> Seq<char> {
    "\n["@ + padded(decimal(counter), COUNTER_WIDTH as nat)
        + "]---------------------------------------------------------\nMessages:\n"@ + joined(
        messages,
    ) + "\n--------------------------------------------------------------"@
}

/// The counter in brackets over a rule, then the messages, one to a line,
/// and a rule below them.
pub fn view(model: &Model) -> (text: String)
    ensures
        text@ == shown(model.counter_spec(), model.messages_spec()),
{
    let mut text = String::from_str("\n[");
    let counter = pad_left(decimal_text(model.counter as u64), COUNTER_WIDTH);
    text.append(counter.as_str());
    text.append("]---------------------------------------------------------\nMessages:\n");
    let list = join_lines(&model.messages);
    text.append(list.as_str());
    text.append("\n--------------------------------------------------------------");
    text
}

} // verus!
