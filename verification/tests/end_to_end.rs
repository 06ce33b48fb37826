use std::sync::{Arc, Mutex};
use std::time::Duration;

use elm_arch::time::{Msg as ClockMsg, Ticks};
use elm_arch::{process_cmd, Cmd, Cutoff, Program, Sources, Task, BUS_CAPACITY};
use futures::future::{self, BoxFuture};
use futures::stream::{self, BoxStream};
use futures::{FutureExt, StreamExt};
use tokio::sync::mpsc::{channel, Sender};
use tokio_stream::wrappers::{IntervalStream, ReceiverStream};

type Effect<Msg> = BoxFuture<'static, Msg>;
type Stream<Msg> = BoxStream<'static, Msg>;
type Real<Msg> = Cmd<Msg, Effect<Msg>, Stream<Msg>>;

enum Incoming<Msg> {
    Message(Msg),
    SubscriptionEnded,
    ProducerEnded,
}

fn spawn<Msg: Send + 'static>(
    task: Task<Msg, Effect<Msg>, Stream<Msg>>,
    bus: &Sender<Option<Msg>>,
    sources: &mut Sources,
) {
    if task.is_finished() {
        return;
    }
    sources.spawned();
    let tx = bus.clone();
    tokio::spawn(async move {
        let mut task = task;
        loop {
            task = match task {
                Task::Finished => break,
                Task::Awaiting(fut) => Task::resolved(fut.await),
                Task::Sending(msg) => Task::sent(tx.send(Some(msg)).await.is_ok()),
                Task::Pulling(mut sub) => {
                    let item = sub.next().await;
                    Task::pulled(item, sub)
                }
                Task::Forwarding(msg, sub) => Task::forwarded(tx.send(Some(msg)).await.is_ok(), sub),
            };
        }
        let _nobody_listens = tx.send(None).await;
    });
}

/// The loop on tokio, with the frames kept in `frames` where they would be
/// printed.
async fn drive<Model, Msg, I, V, U, S>(program: Program<I, V, U, S>, frames: Arc<Mutex<Vec<String>>>) -> Model
where
    Msg: Send + 'static,
    I: FnOnce() -> (Model, Real<Msg>),
    V: Fn(&Model) -> String,
    U: Fn(Model, Msg) -> (Model, Real<Msg>),
    S: FnOnce(Model) -> (Model, Stream<Msg>),
{
    let (bus_tx, bus_rx) = channel::<Option<Msg>>(BUS_CAPACITY);
    let mut sources = Sources::new();
    let (started, initial_cmd) = program.start();
    spawn(process_cmd(initial_cmd), &bus_tx, &mut sources);
    let (mut session, subs) = started.subscribe();
    let from_subs = subs
        .map(Incoming::Message)
        .chain(stream::once(future::ready(Incoming::SubscriptionEnded)));
    let from_bus = ReceiverStream::new(bus_rx).map(|note| match note {
        Some(msg) => Incoming::Message(msg),
        None => Incoming::ProducerEnded,
    });
    let mut merged = stream::select(from_subs, from_bus);
    while !sources.is_exhausted() {
        match merged.next().await {
            Some(Incoming::Message(msg)) => {
                let (next, cmd, frame) = session.deliver(msg);
                session = next;
                spawn(process_cmd(cmd), &bus_tx, &mut sources);
                frames.lock().unwrap().push(frame);
            }
            Some(Incoming::SubscriptionEnded) => sources.subscription_ended(),
            Some(Incoming::ProducerEnded) => sources.producer_ended(),
            None => break,
        }
    }
    session.finish()
}

fn on_tokio<F: std::future::Future>(main: F) -> F::Output {
    tokio::runtime::Builder::new_current_thread()
        .enable_all()
        .build()
        .unwrap()
        .block_on(main)
}

fn log(mut seen: Vec<String>, msg: String) -> (Vec<String>, Real<String>) {
    seen.push(msg);
    (seen, Cmd::Nothing)
}

fn last(seen: &Vec<String>) -> String {
    seen.last().cloned().unwrap_or_default()
}

fn words(items: &[&str]) -> Stream<String> {
    stream::iter(items.iter().map(|item| item.to_string()).collect::<Vec<_>>()).boxed()
}

fn position(frames: &[String], frame: &str) -> usize {
    frames.iter().position(|seen| seen == frame).unwrap()
}

#[test]
fn a_finite_subscription_runs_to_its_end() {
    let frames = Arc::new(Mutex::new(Vec::new()));
    let model = on_tokio(drive(
        Program {
            init: || (Vec::new(), Cmd::Nothing),
            view: last,
            update: log,
            subscriptions: |model| (model, words(&["A", "B", "C"])),
        },
        frames.clone(),
    ));
    assert_eq!(*frames.lock().unwrap(), vec!["A", "B", "C"]);
    assert_eq!(model, vec!["A", "B", "C"]);
}

#[test]
fn a_queued_message_reaches_update_once() {
    let frames = Arc::new(Mutex::new(Vec::new()));
    let model = on_tokio(drive(
        Program {
            init: || (Vec::new(), Cmd::Msg(String::from("first"))),
            view: last,
            update: |seen: Vec<String>, msg: String| {
                let cmd = if msg == "first" { Cmd::Msg(String::from("second")) } else { Cmd::Nothing };
                let (seen, _) = log(seen, msg);
                (seen, cmd)
            },
            subscriptions: |model| (model, words(&[])),
        },
        frames.clone(),
    ));
    assert_eq!(model, vec!["first", "second"]);
    assert_eq!(*frames.lock().unwrap(), vec!["first", "second"]);
}

#[test]
fn an_effect_and_a_subscription_interleave() {
    let frames = Arc::new(Mutex::new(Vec::new()));
    let delayed_ok = async {
        tokio::time::sleep(Duration::from_millis(30)).await;
        String::from("Ok(x)")
    };
    let model = on_tokio(drive(
        Program {
            init: || (Vec::new(), Real::boxed(delayed_ok.boxed())),
            view: last,
            update: log,
            subscriptions: |model| (model, words(&["P", "Q"])),
        },
        frames.clone(),
    ));
    let frames = frames.lock().unwrap();
    assert_eq!(frames.len(), 3);
    assert_eq!(model.len(), 3);
    assert_eq!(position(&frames, "P") + 1, position(&frames, "Q"));
    assert!(frames.contains(&String::from("Ok(x)")));
    assert_eq!(frames.iter().filter(|frame| *frame == "Ok(x)").count(), 1);
}

#[test]
fn an_effect_that_never_resolves_leaves_the_loop_live() {
    let frames = Arc::new(Mutex::new(Vec::new()));
    let running = drive(
        Program {
            init: || (Vec::new(), Real::boxed(future::pending().boxed())),
            view: last,
            update: log,
            subscriptions: |model| (model, words(&["P", "Q", "R"])),
        },
        frames.clone(),
    );
    let outcome =
        on_tokio(async { tokio::time::timeout(Duration::from_millis(150), running).await });
    // the effect is still awaited, so the program has not ended
    assert!(outcome.is_err());
    assert_eq!(*frames.lock().unwrap(), vec!["P", "Q", "R"]);
}

#[test]
fn a_dispatched_sequence_arrives_in_order() {
    let frames = Arc::new(Mutex::new(Vec::new()));
    let model = on_tokio(drive(
        Program {
            init: || (Vec::new(), Cmd::Sub(words(&["s1", "s2", "s3", "s4", "s5"]))),
            view: last,
            update: log,
            subscriptions: |model| (model, words(&["P", "Q"])),
        },
        frames.clone(),
    ));
    let frames = frames.lock().unwrap();
    assert_eq!(frames.len(), 7);
    let from_sequence: Vec<&String> = frames.iter().filter(|frame| frame.starts_with('s')).collect();
    assert_eq!(from_sequence, vec!["s1", "s2", "s3", "s4", "s5"]);
    assert!(position(&frames, "P") < position(&frames, "Q"));
    assert_eq!(model.len(), 7);
}

/// A tick every few milliseconds, each raced against the cancel signal.
fn fast_ticks(ticks: Ticks) -> Stream<ClockMsg> {
    let interval = tokio::time::interval(Duration::from_millis(5));
    stream::select(
        IntervalStream::new(interval).map(Some),
        ticks.stop.cancelled_owned().into_stream().map(|_| None),
    )
    .scan(Cutoff::new(), |cutoff, raced| future::ready(cutoff.pass(raced)))
    .map(ClockMsg::Tick)
    .boxed()
}

#[test]
fn a_released_scope_stops_the_ticks() {
    let frames = Arc::new(Mutex::new(Vec::new()));
    let toggles = stream::iter([40u64, 60])
        .then(|wait| async move {
            tokio::time::sleep(Duration::from_millis(wait)).await;
            ClockMsg::Toggle
        })
        .chain(stream::once(async {
            tokio::time::sleep(Duration::from_millis(60)).await;
            ClockMsg::Tick(tokio::time::Instant::now())
        }))
        .boxed();
    let model = on_tokio(drive(
        Program {
            init: || {
                let (model, cmd) = elm_arch::time::init();
                (model, cmd.map(|_| future::pending().boxed(), fast_ticks))
            },
            view: |model: &elm_arch::time::Model| {
                format!("{} {}", model.cancel.is_some(), model.last_tick.is_some())
            },
            update: |model, msg| {
                let (model, cmd) = elm_arch::time::update(model, msg);
                (model, cmd.map(|_| future::pending().boxed(), fast_ticks))
            },
            subscriptions: |model| (model, toggles),
        },
        frames.clone(),
    ));
    let frames = frames.lock().unwrap();
    // switched on, never ticked yet
    assert_eq!(frames[0], "true false");
    let off = position(&frames, "false true");
    // it ticked while it was on
    assert!(off >= 3);
    assert!(frames[1..off].iter().all(|frame| frame == "true true"));
    // switched off: the one message left is the last of the subscription
    assert_eq!(frames.len(), off + 2);
    assert_eq!(frames[off + 1], "false true");
    assert!(model.cancel.is_none());
}
