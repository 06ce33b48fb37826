use std::cell::Cell;

use elm_arch::{Cmd, Program, Sources};

#[derive(Clone, Copy, Debug, PartialEq)]
enum Letter {
    A,
    B,
    C,
}

type Plain = Cmd<Letter, u8, Vec<Letter>>;

fn spell(mut word: String, letter: Letter) -> (String, Plain) {
    word.push(match letter {
        Letter::A => 'a',
        Letter::B => 'b',
        Letter::C => 'c',
    });
    (word, Cmd::Nothing)
}

fn quoted(word: &String) -> String {
    format!("<{}>", word)
}

#[test]
fn three_messages_give_three_frames() {
    let program = Program {
        init: || (String::from("m0"), Plain::Nothing),
        view: quoted,
        update: spell,
        subscriptions: |model: String| (model, vec![Letter::A, Letter::B, Letter::C]),
    };
    let (started, first) = program.start();
    assert!(matches!(first, Cmd::Nothing));
    let (mut session, source) = started.subscribe();
    assert_eq!(session.current(), "m0");
    let mut frames = Vec::new();
    for letter in source {
        let (next, cmd, frame) = session.deliver(letter);
        assert!(matches!(cmd, Cmd::Nothing));
        session = next;
        frames.push(frame);
    }
    assert_eq!(frames, vec!["<m0a>", "<m0ab>", "<m0abc>"]);
    assert_eq!(session.finish(), "m0abc");
}

#[test]
fn run_replays_an_inbox_in_order() {
    let program = Program {
        init: || (String::new(), Plain::Msg(Letter::C)),
        view: quoted,
        update: |word: String, letter: Letter| {
            let (word, _) = spell(word, letter);
            let cmd = match letter {
                Letter::A => Plain::Nothing,
                Letter::B => Plain::boxed(7),
                Letter::C => Plain::Sub(vec![Letter::A]),
            };
            (word, cmd)
        },
        subscriptions: |mut word: String| {
            word.push('|');
            (word, 42u32)
        },
    };
    let report = program.run(vec![Letter::B, Letter::A, Letter::C, Letter::B]);
    assert!(matches!(report.first_cmd, Cmd::Msg(Letter::C)));
    assert_eq!(report.source, 42);
    assert_eq!(report.frames, vec!["<|b>", "<|ba>", "<|bac>", "<|bacb>"]);
    assert_eq!(report.model, "|bacb");
    assert_eq!(report.cmds.len(), 4);
    assert!(matches!(report.cmds[0], Cmd::Future(7)));
    assert!(matches!(report.cmds[1], Cmd::Nothing));
    assert!(matches!(&report.cmds[2], Cmd::Sub(items) if items == &vec![Letter::A]));
    assert!(matches!(report.cmds[3], Cmd::Future(7)));
}

#[test]
fn an_empty_inbox_renders_nothing() {
    let program = Program {
        init: || (String::from("still"), Plain::Nothing),
        view: quoted,
        update: spell,
        subscriptions: |model: String| (model, ()),
    };
    let report = program.run(Vec::new());
    assert!(report.frames.is_empty());
    assert!(report.cmds.is_empty());
    assert_eq!(report.model, "still");
}

#[test]
fn update_and_view_run_once_for_each_message() {
    let updates = Cell::new(0u32);
    let views = Cell::new(0u32);
    let inits = Cell::new(0u32);
    let subscribes = Cell::new(0u32);
    let program = Program {
        init: || {
            inits.set(inits.get() + 1);
            (0u32, Plain::Nothing)
        },
        view: |seen: &u32| {
            views.set(views.get() + 1);
            // the model that `view` is shown is the one `update` just returned
            assert_eq!(*seen, updates.get());
            format!("{}", seen)
        },
        update: |seen: u32, _letter: Letter| {
            // no two calls overlap: every call finds all earlier views done
            assert_eq!(views.get(), updates.get());
            assert_eq!(seen, updates.get());
            updates.set(updates.get() + 1);
            (seen + 1, Plain::Nothing)
        },
        subscriptions: |seen: u32| {
            subscribes.set(subscribes.get() + 1);
            (seen, ())
        },
    };
    let inbox = vec![Letter::A, Letter::A, Letter::B, Letter::C, Letter::A];
    let report = program.run(inbox);
    assert_eq!(inits.get(), 1);
    assert_eq!(subscribes.get(), 1);
    assert_eq!(updates.get(), 5);
    assert_eq!(views.get(), 5);
    assert_eq!(report.frames, vec!["1", "2", "3", "4", "5"]);
    assert_eq!(report.model, 5);
}

#[test]
fn subscriptions_may_adjust_the_model_before_the_first_message() {
    let program = Program {
        init: || (String::from("x"), Plain::Nothing),
        view: quoted,
        update: spell,
        subscriptions: |model: String| (format!("{}y", model), ()),
    };
    let (started, _) = program.start();
    let (session, ()) = started.subscribe();
    assert_eq!(session.current(), "xy");
    let (session, _, frame) = session.deliver(Letter::A);
    assert_eq!(frame, "<xya>");
    assert_eq!(session.current(), "xya");
}

#[test]
fn a_program_is_over_when_nobody_is_left() {
    let mut sources = Sources::new();
    assert!(!sources.is_exhausted());
    assert_eq!(sources.live_producers(), 0);
    sources.spawned();
    sources.spawned();
    assert_eq!(sources.live_producers(), 2);
    sources.subscription_ended();
    assert!(!sources.is_exhausted());
    sources.producer_ended();
    assert!(!sources.is_exhausted());
    sources.producer_ended();
    assert!(sources.is_exhausted());
    assert_eq!(sources.live_producers(), 0);
}

#[test]
fn a_live_subscription_keeps_the_program_going() {
    let mut sources = Sources::new();
    sources.spawned();
    sources.producer_ended();
    assert!(!sources.is_exhausted());
    // an end without a producer changes nothing
    sources.producer_ended();
    assert_eq!(sources.live_producers(), 0);
    assert!(!sources.is_exhausted());
    sources.subscription_ended();
    assert!(sources.is_exhausted());
    sources.subscription_ended();
    assert!(sources.is_exhausted());
}
