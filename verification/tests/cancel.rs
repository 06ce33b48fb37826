use elm_arch::{scope, Cutoff};

#[test]
fn a_new_token_is_not_cancelled() {
    let (token, held) = scope();
    assert!(!token.is_cancelled());
    held.release();
}

#[test]
fn releasing_the_scope_sets_the_token() {
    let (token, held) = scope();
    let watcher = token.clone();
    held.release();
    assert!(token.is_cancelled());
    assert!(watcher.is_cancelled());
}

#[test]
fn dropping_the_scope_sets_the_token() {
    let (token, held) = scope();
    {
        let _leaving = held;
    }
    assert!(token.is_cancelled());
}

#[test]
fn scopes_do_not_touch_each_other() {
    let (first, first_held) = scope();
    let (second, second_held) = scope();
    first_held.release();
    assert!(first.is_cancelled());
    assert!(!second.is_cancelled());
    assert!(first != second);
    second_held.release();
    assert!(second.is_cancelled());
}

#[test]
fn everything_passes_until_the_signal_fires() {
    let mut cutoff = Cutoff::new();
    assert_eq!(cutoff.pass(Some(1)), Some(1));
    assert_eq!(cutoff.pass(Some(2)), Some(2));
    assert_eq!(cutoff.pass(Some(3)), Some(3));
}

#[test]
fn nothing_passes_after_the_signal_has_fired() {
    let mut cutoff = Cutoff::new();
    let races = vec![Some('a'), Some('b'), None, Some('c'), None, Some('d')];
    let mut through = Vec::new();
    for raced in races {
        if let Some(item) = cutoff.pass(raced) {
            through.push(item);
        }
    }
    assert_eq!(through, vec!['a', 'b']);
}

#[test]
fn a_signal_that_fires_first_lets_nothing_through() {
    let mut cutoff = Cutoff::new();
    assert_eq!(cutoff.pass(None::<u8>), None);
    assert_eq!(cutoff.pass(Some(1u8)), None);
}
