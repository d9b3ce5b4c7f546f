use rvterminal::events::{InputEvent, KeyCode, RecvOutcome, TerminalEvent};
use rvterminal::prompt::{
    confirm, confirm_enter_to_continue, readline, readpasswd, ConfirmResult, EchoAction,
    LineEditor, LineStep,
};
use rvterminal::TimeoutResult;

fn key(code: KeyCode) -> RecvOutcome {
    RecvOutcome::Received(InputEvent::Terminal(TerminalEvent::Key(code)))
}

fn typed(text: &str) -> Vec<RecvOutcome> {
    let mut out: Vec<RecvOutcome> = Vec::new();
    for c in text.chars() {
        out.push(key(KeyCode::Char(c)));
    }
    out
}

fn result_of(r: TimeoutResult<String>) -> Option<String> {
    match r {
        TimeoutResult::RESULT(s) => Some(s),
        TimeoutResult::TIMEOUT => None,
    }
}

#[test]
fn readline_collects_until_enter() {
    let mut events = typed("hello");
    events.push(key(KeyCode::Enter));
    assert_eq!(result_of(readline(&events)), Some("hello".to_string()));
}

#[test]
fn readline_applies_backspace_and_trim() {
    let mut events = typed("hi");
    events.push(key(KeyCode::Backspace));
    events.push(key(KeyCode::Enter));
    assert_eq!(result_of(readline(&events)), Some("h".to_string()));

    let mut events = typed("  spaced  ");
    events.push(key(KeyCode::Enter));
    assert_eq!(result_of(readline(&events)), Some("spaced".to_string()));

    // A backspace on an empty buffer changes nothing.
    let mut events = vec![key(KeyCode::Backspace)];
    events.push(key(KeyCode::Enter));
    assert_eq!(result_of(readline(&events)), Some("".to_string()));
}

#[test]
fn timed_out_wait_never_completes() {
    // Even when keys and a terminator would have arrived afterwards,
    // the expired wait yields TimedOut once and no Completed result.
    let mut events = vec![RecvOutcome::TimedOut];
    events.extend(typed("late"));
    events.push(key(KeyCode::Enter));
    assert_eq!(result_of(readline(&events)), None);
    assert_eq!(result_of(readpasswd(&events)), None);
    // A wait in which nothing arrives also times out.
    assert_eq!(result_of(readline(&Vec::new())), None);
}

#[test]
fn readline_ignores_scan_events() {
    let mut events = vec![RecvOutcome::Received(InputEvent::Scan("1234".to_string()))];
    events.extend(typed("a"));
    events.push(key(KeyCode::Enter));
    assert_eq!(result_of(readline(&events)), Some("a".to_string()));
}

#[test]
fn passwords_read_like_lines_but_unechoed() {
    let mut events = typed("secret");
    events.push(key(KeyCode::Enter));
    assert_eq!(result_of(readpasswd(&events)), Some("secret".to_string()));

    let mut echoed = LineEditor::new(true);
    let (step, act) = echoed.feed(&key(KeyCode::Char('x')));
    assert!(matches!(step, LineStep::Pending));
    assert_eq!(act, EchoAction::EchoChar('x'));

    let mut silent = LineEditor::new(false);
    let (step, act) = silent.feed(&key(KeyCode::Char('x')));
    assert!(matches!(step, LineStep::Pending));
    assert_eq!(act, EchoAction::Silent);

    let (_, act) = silent.feed(&key(KeyCode::Backspace));
    assert_eq!(act, EchoAction::Silent);
}

#[test]
fn confirm_reads_yes_no_or_expiry() {
    let events = vec![key(KeyCode::Char('x')), key(KeyCode::Char('y'))];
    assert_eq!(confirm(&events), ConfirmResult::YES);
    let events = vec![key(KeyCode::Char('N'))];
    assert_eq!(confirm(&events), ConfirmResult::NO);
    let events = vec![key(KeyCode::Enter), RecvOutcome::TimedOut];
    assert_eq!(confirm(&events), ConfirmResult::TIMEOUT);
    assert_eq!(confirm(&Vec::new()), ConfirmResult::TIMEOUT);
}

#[test]
fn enter_acknowledges_continuation() {
    let events = vec![key(KeyCode::Char('a')), key(KeyCode::Enter)];
    assert_eq!(confirm_enter_to_continue(&events), ConfirmResult::YES);
    let events = vec![RecvOutcome::TimedOut];
    assert_eq!(confirm_enter_to_continue(&events), ConfirmResult::TIMEOUT);
}
