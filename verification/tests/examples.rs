use elm_arch::text::{decimal_text, join_lines, pad_left};
use elm_arch::websocket::Incoming;
use elm_arch::{http, random, time, websocket, Cmd};

#[test]
fn the_die_starts_on_one() {
    let (model, cmd) = random::init();
    assert_eq!(model.die_face, 1);
    assert!(matches!(cmd, Cmd::Nothing));
    assert_eq!(random::view(&model), "Model { die_face: 1 }");
}

#[test]
fn the_die_is_shown_as_debug_shows_it() {
    for die_face in [0u8, 5, 9, 10, 42, 99, 100, 255] {
        let model = random::Model { die_face };
        assert_eq!(random::view(&model), format!("{:?}", model));
    }
}

#[test]
fn a_roll_asks_for_a_face_from_one_to_five() {
    let mut seen = [false; 6];
    for _ in 0..400 {
        let (model, cmd) = random::update(random::Model { die_face: 3 }, random::Msg::Roll);
        assert_eq!(model.die_face, 3);
        match cmd {
            Cmd::Msg(random::Msg::NewFace(face)) => {
                assert!((1..6).contains(&face));
                seen[usize::from(face)] = true;
            }
            _ => panic!("a roll gives a new face"),
        }
    }
    // chance, but not one face four hundred times
    assert!(seen.iter().filter(|&&face| face).count() > 1);
}

#[test]
fn roll_dice_stays_in_range() {
    for _ in 0..400 {
        let face = random::roll_dice();
        assert!(1 <= face && face < 6);
    }
}

#[test]
fn a_new_face_is_put_on_the_die() {
    let (model, cmd) = random::update(random::Model { die_face: 1 }, random::Msg::NewFace(4));
    assert_eq!(model.die_face, 4);
    assert!(matches!(cmd, Cmd::Nothing));
}

#[test]
fn every_line_rolls_the_die() {
    assert!(matches!(random::on_enter_key(String::from("anything")), random::Msg::Roll));
    let (model, source) = random::subscriptions(random::Model { die_face: 2 });
    assert_eq!(model.die_face, 2);
    assert!(matches!(source, random::Source::EnterKey));
}

#[test]
fn the_clock_starts_switched_off() {
    let (model, cmd) = time::init();
    assert!(model.last_tick.is_none());
    assert!(model.cancel.is_none());
    assert!(matches!(cmd, Cmd::Nothing));
    assert_eq!(time::view(&model), "last tick: None");
}

#[test]
fn toggle_starts_the_ticks_and_toggle_stops_them() {
    let (model, _) = time::init();
    let (model, cmd) = time::update(model, time::Msg::Toggle);
    assert!(model.cancel.is_some());
    assert!(model.last_tick.is_none());
    let stop = match cmd {
        Cmd::Sub(ticks) => ticks.stop,
        _ => panic!("the first toggle starts the ticks"),
    };
    assert!(!stop.is_cancelled());

    let at = tokio::time::Instant::now();
    let (model, cmd) = time::update(model, time::Msg::Tick(at));
    assert_eq!(model.last_tick, Some(at));
    assert!(model.cancel.is_some());
    assert!(matches!(cmd, Cmd::Nothing));
    assert!(!stop.is_cancelled());
    assert_eq!(time::view(&model), format!("last tick: {:?}", Some(at)));

    let (model, cmd) = time::update(model, time::Msg::Toggle);
    assert!(model.cancel.is_none());
    assert_eq!(model.last_tick, Some(at));
    assert!(matches!(cmd, Cmd::Nothing));
    assert!(stop.is_cancelled());

    // a new scope is made to start again
    let (model, cmd) = time::update(model, time::Msg::Toggle);
    assert!(model.cancel.is_some());
    assert!(model.last_tick.is_none());
    let again = match cmd {
        Cmd::Sub(ticks) => ticks.stop,
        _ => panic!("the third toggle starts the ticks again"),
    };
    assert!(!again.is_cancelled());
    assert!(stop.is_cancelled());
    assert!(again != stop);
}

#[test]
fn tick_gives_a_scope_for_its_own_token() {
    let (held, ticks) = time::tick();
    assert!(!ticks.stop.is_cancelled());
    held.release();
    assert!(ticks.stop.is_cancelled());
}

#[test]
fn every_line_toggles_the_clock() {
    assert!(matches!(time::on_enter_key(String::new()), time::Msg::Toggle));
    let (model, _) = time::init();
    let (model, source) = time::subscriptions(model);
    assert!(model.cancel.is_none());
    assert!(matches!(source, time::Source::EnterKey));
}

#[test]
fn the_echo_client_starts_empty() {
    let (model, cmd) = websocket::init();
    assert_eq!(model.counter(), 0);
    assert_eq!(model.input(), "");
    assert!(!model.is_connected());
    assert!(model.messages().is_empty());
    assert!(matches!(cmd, Cmd::Nothing));
}

#[test]
fn a_typed_line_is_sent_at_once() {
    let (model, _) = websocket::init();
    let (model, cmd) = websocket::update(model, websocket::Msg::Input(String::from("hello")));
    assert_eq!(model.input(), "hello");
    assert!(matches!(cmd, Cmd::Msg(websocket::Msg::Send)));
}

#[test]
fn send_without_a_socket_drops_the_line() {
    let (model, _) = websocket::init();
    let (model, _) = websocket::update(model, websocket::Msg::Input(String::from("hello")));
    let (model, cmd) = websocket::update(model, websocket::Msg::Send);
    assert_eq!(model.input(), "");
    assert!(matches!(cmd, Cmd::Nothing));
}

#[test]
fn send_puts_the_line_on_the_way_to_the_socket() {
    let (model, _) = websocket::init();
    let (model, mut source) = websocket::subscriptions(model);
    assert!(model.is_connected());
    assert_eq!(source.url, "ws://echo.websocket.events");
    assert_eq!(source.url, websocket::ECHO_SERVER);
    let (model, _) = websocket::update(model, websocket::Msg::Input(String::from("hello")));
    let (model, cmd) = websocket::update(model, websocket::Msg::Send);
    assert_eq!(model.input(), "");
    assert!(model.is_connected());
    let outgoing = match cmd {
        Cmd::Future(outgoing) => outgoing,
        _ => panic!("send asks for the line to go out"),
    };
    assert_eq!(outgoing.text, "hello");
    // the sender in the effect leads to the receiver that the source holds
    assert_eq!(outgoing.tx.max_capacity(), 64);
    outgoing.tx.try_send(outgoing.text).unwrap();
    assert_eq!(source.outbound.try_recv().unwrap(), "hello");
}

#[test]
fn a_new_message_is_listed_and_counted() {
    let (model, _) = websocket::init();
    let (model, cmd) = websocket::update(model, websocket::Msg::NewMessage(String::from("one")));
    assert!(matches!(cmd, Cmd::Nothing));
    let (model, _) = websocket::update(model, websocket::Msg::NewMessage(String::from("two")));
    assert_eq!(model.counter(), 2);
    assert_eq!(model.messages(), &vec![String::from("one"), String::from("two")]);
    let (model, cmd) = websocket::update(model, websocket::Msg::Sent);
    assert!(matches!(cmd, Cmd::Nothing));
    assert_eq!(model.counter(), 2);
    assert_eq!(model.messages().len(), 2);
}

#[test]
fn only_text_frames_are_messages() {
    assert_eq!(websocket::websocket(Incoming::Text(String::from("t"))), Some(String::from("t")));
    assert_eq!(websocket::websocket(Incoming::Binary(vec![1, 2])), None);
    assert_eq!(websocket::websocket(Incoming::Ping(vec![])), None);
    assert_eq!(websocket::websocket(Incoming::Pong(vec![])), None);
    assert_eq!(websocket::websocket(Incoming::Close), None);
    assert_eq!(websocket::websocket(Incoming::Frame), None);
    assert_eq!(websocket::websocket(Incoming::Failed), None);
    assert!(matches!(
        websocket::on_enter_key(String::from("typed")),
        websocket::Msg::Input(line) if line == "typed"
    ));
}

fn echo_frame(counter: usize, messages: &[&str]) -> String {
    format!(
        r#"
[{:#3}]---------------------------------------------------------
Messages:
{}
--------------------------------------------------------------"#,
        counter,
        messages.join("\n")
    )
}

#[test]
fn the_echo_client_shows_its_counter_and_messages() {
    let (mut model, _) = websocket::init();
    assert_eq!(websocket::view(&model), echo_frame(0, &[]));
    assert_eq!(
        websocket::view(&model),
        "\n[  0]---------------------------------------------------------\nMessages:\n\n--------------------------------------------------------------"
    );
    let mut listed = Vec::new();
    for word in ["one", "", "three\nlines", "four"] {
        let (next, _) = websocket::update(model, websocket::Msg::NewMessage(String::from(word)));
        model = next;
        listed.push(word);
        assert_eq!(websocket::view(&model), echo_frame(listed.len(), &listed));
    }
}

#[test]
fn a_wide_counter_is_not_cut() {
    let (mut model, _) = websocket::init();
    let mut listed = Vec::new();
    for _ in 0..1003 {
        let (next, _) = websocket::update(model, websocket::Msg::NewMessage(String::from("m")));
        model = next;
        listed.push("m");
    }
    assert_eq!(model.counter(), 1003);
    assert_eq!(websocket::view(&model), echo_frame(1003, &listed));
}

#[test]
fn numbers_are_written_in_decimal() {
    assert_eq!(decimal_text(0), "0");
    assert_eq!(decimal_text(7), "7");
    assert_eq!(decimal_text(10), "10");
    assert_eq!(decimal_text(1234567890), "1234567890");
    assert_eq!(decimal_text(u64::MAX), "18446744073709551615");
}

#[test]
fn padding_fills_up_from_the_left() {
    assert_eq!(pad_left(String::from("7"), 3), "  7");
    assert_eq!(pad_left(String::from("77"), 3), " 77");
    assert_eq!(pad_left(String::from("777"), 3), "777");
    assert_eq!(pad_left(String::from("7777"), 3), "7777");
    assert_eq!(pad_left(String::new(), 0), "");
    assert_eq!(pad_left(String::from("é"), 2), " é");
}

#[test]
fn lines_are_joined_by_line_feeds() {
    assert_eq!(join_lines(&vec![]), "");
    assert_eq!(join_lines(&vec![String::from("a")]), "a");
    assert_eq!(join_lines(&vec![String::from("a"), String::new(), String::from("c")]), "a\n\nc");
}

#[test]
fn the_gif_client_starts_with_cats() {
    let (model, cmd) = http::init();
    assert_eq!(model.topic, "cats");
    assert_eq!(model.gif_url, "waiting.gif");
    assert!(matches!(cmd, Cmd::Nothing));
    assert_eq!(http::view(&model), r#"Model { topic: "cats", gif_url: "waiting.gif" }"#);
}

#[test]
fn the_gif_model_is_shown_as_debug_shows_it() {
    let model = http::Model {
        topic: String::from("say \"cheese\"\n"),
        gif_url: String::from("back\\slash\t'q' é"),
    };
    assert_eq!(http::view(&model), format!("{:?}", model));
    assert_eq!(http::frame(&String::from("T"), &String::from("U")), "Model { topic: T, gif_url: U }");
}

#[test]
fn more_please_asks_for_a_picture_on_the_topic() {
    let (model, _) = http::init();
    let (model, cmd) = http::update(model, http::Msg::MorePlease);
    assert_eq!(model.topic, "cats");
    assert_eq!(model.gif_url, "waiting.gif");
    match cmd {
        Cmd::Future(fetch) => assert_eq!(
            fetch.url,
            "https://api.giphy.com/v1/gifs/random?api_key=dc6zaTOxFJmzC&tag=cats"
        ),
        _ => panic!("more please asks for a picture"),
    }
    assert_eq!(
        http::get_random_gif(String::from("dogs")).url,
        format!("{}dogs", http::ENDPOINT)
    );
}

#[test]
fn a_new_gif_is_kept_and_a_failure_is_not() {
    let (model, _) = http::init();
    let (model, cmd) = http::update(model, http::Msg::NewGif(Ok(String::from("cat.gif"))));
    assert_eq!(model.gif_url, "cat.gif");
    assert_eq!(model.topic, "cats");
    assert!(matches!(cmd, Cmd::Nothing));
    let failure = anyhow::Error::msg("no network");
    let (model, cmd) = http::update(model, http::Msg::NewGif(Err(failure)));
    assert_eq!(model.gif_url, "cat.gif");
    assert_eq!(model.topic, "cats");
    assert!(matches!(cmd, Cmd::Nothing));
}

#[test]
fn every_line_asks_for_more() {
    assert!(matches!(http::on_enter_key(String::from("x")), http::Msg::MorePlease));
    let (model, _) = http::init();
    let (model, source) = http::subscriptions(model);
    assert_eq!(model.topic, "cats");
    assert!(matches!(source, http::Source::EnterKey));
}
