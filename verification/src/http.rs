//! A client that fetches the address of a random picture at every line of
//! input.

use crate::cmd::Cmd;
use vstd::prelude::*;
use vstd::string::*;

verus! {

#[verifier::external_type_specification]
#[verifier::external_body]
pub struct ExError(anyhow::Error);

#[derive(Debug)]
pub struct Model {
    /// What the pictures are to be about.
    pub topic: String,
    /// The address of the last picture.
    pub gif_url: String,
}

#[derive(Debug)]
pub enum Msg {
    /// Fetch another picture.
    MorePlease,
    /// The fetch has ended, with the picture's address or with a failure.
    NewGif(Result<String, anyhow::Error>),
}

/// The effect of asking the server at `url` for a picture. It resolves to
/// [`Msg::NewGif`], with the address that the answer holds or with what went
/// wrong.
pub struct Fetch {
    pub url: String,
}

/// Where the program's messages come from.
pub enum Source {
    /// One message for each line of standard input.
    EnterKey,
}

/// The address that is asked for pictures, up to the topic.
pub const ENDPOINT: &'static str = "https://api.giphy.com/v1/gifs/random?api_key=dc6zaTOxFJmzC&tag=";

/// The topic is cats, and the picture is a placeholder.
pub fn init() -> (out: (Model, Cmd<Msg, Fetch, ()>))
    ensures
        out.0.topic@ == "cats"@,
        out.0.gif_url@ == "waiting.gif"@,
        out.1 is Nothing,
{
    (
        Model { topic: String::from_str("cats"), gif_url: String::from_str("waiting.gif") },
        Cmd::Nothing,
    )
}

/// One transition.
///
/// `MorePlease` asks for a picture on the model's topic. `NewGif` with an
/// address keeps the address; with a failure it keeps the model as it is.
pub fn update(model: Model, msg: Msg) -> (out: (Model, Cmd<Msg, Fetch, ()>))
    ensures
        match msg {
            Msg::MorePlease => {
                &&& out.0 == model
                &&& out.1 is Future
                &&& out.1->Future_0.url@ == ENDPOINT@ + model.topic@
            },
            Msg::NewGif(Ok(gif_url)) => {
                &&& out.0.topic == model.topic
                &&& out.0.gif_url == gif_url
                &&& out.1 is Nothing
            },
            Msg::NewGif(Err(_)) => {
                &&& out.0 == model
                &&& out.1 is Nothing
            },
        },
{
    match msg {
        Msg::MorePlease => {
            let topic = model.topic.clone();
            (model, Cmd::boxed(get_random_gif(topic)))
        },
        Msg::NewGif(res) => {
            match res {
                Ok(gif_url) => (Model { topic: model.topic, gif_url }, Cmd::Nothing),
                Err(_) => (model, Cmd::Nothing),
            }
        },
    }
}

/// The request for a random picture on `topic`.
pub fn get_random_gif(topic: String) -> (fetch: Fetch)
    ensures
        fetch.url@ == ENDPOINT@ + topic@,
{
    let mut url = String::from_str(ENDPOINT);
    url.append(topic.as_str());
    Fetch { url }
}

/// What `Debug` of std writes for a string: the string in double quotes,
/// with the characters escaped that cannot stand there as they are.
pub uninterp spec fn debug_quoted(text: Seq<char>) -> Seq<char>;

/// `Debug` for `str` of std, through `format!`.
#[verifier::external_body]
fn quote(text: &String) -> (out: String)
    ensures
        out@ == debug_quoted(text@),
{
    format!("{:?}", text)
}

/// What `view` makes of a topic and an address, both already quoted.
pub open spec fn shown(topic: Seq<char>, gif_url: Seq<char>) -> Seq<char> {
    "Model { topic: "@ + topic + ", gif_url: "@ + gif_url + " }"@
}

/// Sets the two quoted fields into the model's frame.
pub fn frame(topic: &String, gif_url: &String) -> (text: String)
    ensures
        text@ == shown(topic@, gif_url@),
{
    let mut text = String::from_str("Model { topic: ");
    text.append(topic.as_str());
    text.append(", gif_url: ");
    text.append(gif_url.as_str());
    text.append(" }");
    text
}

/// The model as `Debug` writes a struct: its name, then each field with its
/// value, the strings quoted.
pub fn view(model: &Model) -> (text: String)
    ensures
        text@ == shown(debug_quoted(model.topic@), debug_quoted(model.gif_url@)),
{
    let topic = quote(&model.topic);
    let gif_url = quote(&model.gif_url);
    frame(&topic, &gif_url)
}

/// The message that a line of input stands for: whatever was typed, more.
pub fn on_enter_key(line: String) -> (msg: Msg)
    ensures
        msg is MorePlease,
{
    Msg::MorePlease
}

/// The model as it is, and the lines of standard input as the source.
pub fn subscriptions(model: Model) -> (out: (Model, Source))
    ensures
        out.0 == model,
        out.1 is EnterKey,
{
    (model, Source::EnterKey)
}

} // verus!
