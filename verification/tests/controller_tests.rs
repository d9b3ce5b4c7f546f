use rvterminal::controller::{LoginEffect, LoginMachine, LoginState};
use rvterminal::events::{InputEvent, KeyCode, RecvOutcome, TerminalEvent};
use rvterminal::menu::{MenuEffect, MenuMachine};
use rvterminal::rv_api::UserInfo;
use rvterminal::session::session_prompt_message;

fn key(code: KeyCode) -> RecvOutcome {
    RecvOutcome::Received(InputEvent::Terminal(TerminalEvent::Key(code)))
}

fn send_string_to_machine(text: &str, machine: &mut LoginMachine, output: &mut String) {
    for c in text.chars() {
        match machine.on_event(&key(KeyCode::Char(c))) {
            LoginEffect::Echo(e) => output.push(e),
            LoginEffect::Wait => (),
            _ => panic!("typing must only echo or wait"),
        }
    }
}

#[test]
fn can_quit_main_loop() {
    let mut machine = LoginMachine::new(true);
    let mut output = String::new();
    send_string_to_machine("quit", &mut machine, &mut output);
    let effect = machine.on_event(&key(KeyCode::Enter));
    assert!(matches!(effect, LoginEffect::Quit));
    assert_eq!(machine.state, LoginState::Done);
}

#[test]
fn login_test() {
    let mut machine = LoginMachine::new(true);
    let mut output = String::new();

    // Username "test", then the terminator.
    send_string_to_machine("test", &mut machine, &mut output);
    let effect = machine.on_event(&key(KeyCode::Enter));
    let username = match effect {
        LoginEffect::CheckUser(u) => u,
        _ => panic!("a completed username must be checked"),
    };
    assert_eq!(username, "test");
    machine.on_user_exists(true);
    assert_eq!(machine.state, LoginState::AwaitingPassword);

    // Password "test", then the terminator.
    send_string_to_machine("test", &mut machine, &mut output);
    let effect = machine.on_event(&key(KeyCode::Enter));
    match effect {
        LoginEffect::PasswordLogin(u, p) => {
            assert_eq!(u, "test");
            assert_eq!(p, "test");
        },
        _ => panic!("a completed password must authenticate"),
    }
    let effect = machine.on_password_login(true);
    assert!(matches!(effect, LoginEffect::EnterSession));

    // The authenticated session greets the principal by name.
    let user = UserInfo {
        user_id: 1,
        username: "test".to_string(),
        email: "test@example.com".to_string(),
        money_balance: 0,
        role: "USER".to_string(),
    };
    output.push_str(&session_prompt_message(&user));

    // A bare terminator at the menu logs out.
    let mut menu = MenuMachine::new(false);
    let effect = menu.on_event(&key(KeyCode::Enter));
    assert!(matches!(effect, MenuEffect::Logout));
    machine.on_session_end();
    assert_eq!(machine.state, LoginState::AwaitingUsername);

    // "quit" then leaves the top-level loop.
    send_string_to_machine("quit", &mut machine, &mut output);
    let effect = machine.on_event(&key(KeyCode::Enter));
    assert!(matches!(effect, LoginEffect::Quit));

    assert!(output.contains("Dear test"));
}

#[test]
fn scan_preempts_partial_username() {
    let mut machine = LoginMachine::new(false);
    let mut output = String::new();
    send_string_to_machine("te", &mut machine, &mut output);
    assert_eq!(machine.buffer, "te");

    let effect = machine.on_event(&RecvOutcome::Received(InputEvent::Scan("a1b2c3".to_string())));
    match effect {
        LoginEffect::ScanLogin(text) => assert_eq!(text, "a1b2c3"),
        _ => panic!("a scan must preempt the typed buffer"),
    }
    assert_eq!(machine.state, LoginState::ScanAuthenticating);
    assert_eq!(machine.buffer, "");

    // The backend knows no such card: back to an empty username prompt.
    let effect = machine.on_scan_login(false);
    assert!(matches!(effect, LoginEffect::ScanFailed));
    assert_eq!(machine.state, LoginState::AwaitingUsername);
    assert_eq!(machine.buffer, "");
}

#[test]
fn scan_preempts_partial_password() {
    let mut machine = LoginMachine::new(false);
    let mut output = String::new();
    send_string_to_machine("test", &mut machine, &mut output);
    machine.on_event(&key(KeyCode::Enter));
    machine.on_user_exists(true);
    send_string_to_machine("se", &mut machine, &mut output);
    assert_eq!(machine.buffer, "se");

    let effect = machine.on_event(&RecvOutcome::Received(InputEvent::Scan("ff00".to_string())));
    match effect {
        LoginEffect::ScanLogin(text) => assert_eq!(text, "ff00"),
        _ => panic!("a scan must preempt the typed buffer"),
    }
    assert_eq!(machine.buffer, "");
    let effect = machine.on_scan_login(true);
    assert!(matches!(effect, LoginEffect::EnterSession));
    assert_eq!(machine.state, LoginState::InSession);
}

#[test]
fn username_editing_and_dev_gate() {
    // Without development mode, "quit" is an ordinary username.
    let mut machine = LoginMachine::new(false);
    let mut output = String::new();
    send_string_to_machine("quit", &mut machine, &mut output);
    let effect = machine.on_event(&key(KeyCode::Enter));
    assert!(matches!(effect, LoginEffect::CheckUser(_)));
    assert_eq!(machine.state, LoginState::CheckingUser);

    // An empty username is not submitted; backspace edits the buffer.
    let mut machine = LoginMachine::new(true);
    let effect = machine.on_event(&key(KeyCode::Enter));
    assert!(matches!(effect, LoginEffect::Wait));
    assert_eq!(machine.state, LoginState::AwaitingUsername);
    send_string_to_machine("ab", &mut machine, &mut output);
    let effect = machine.on_event(&key(KeyCode::Backspace));
    assert!(matches!(effect, LoginEffect::Erase));
    assert_eq!(machine.buffer, "a");

    // A password wait that expires returns to the username prompt.
    let mut machine = LoginMachine::new(false);
    send_string_to_machine("test", &mut machine, &mut output);
    machine.on_event(&key(KeyCode::Enter));
    machine.on_user_exists(true);
    let effect = machine.on_event(&RecvOutcome::TimedOut);
    assert!(matches!(effect, LoginEffect::TimedOut));
    assert_eq!(machine.state, LoginState::AwaitingUsername);

    // An unknown username starts registration for it.
    let mut machine = LoginMachine::new(false);
    send_string_to_machine("newbie", &mut machine, &mut output);
    machine.on_event(&key(KeyCode::Enter));
    let effect = machine.on_user_exists(false);
    match effect {
        LoginEffect::BeginRegistration(u) => assert_eq!(u, "newbie"),
        _ => panic!("an unknown username must register"),
    }
    assert_eq!(machine.state, LoginState::Registering);
}

#[test]
fn username_wait_is_bounded() {
    // Like every prompt read, the username prompt can expire: the wait
    // yields the timeout and the partial name is discarded.
    let mut machine = LoginMachine::new(false);
    let mut output = String::new();
    send_string_to_machine("te", &mut machine, &mut output);
    let effect = machine.on_event(&RecvOutcome::TimedOut);
    assert!(matches!(effect, LoginEffect::TimedOut));
    assert_eq!(machine.state, LoginState::AwaitingUsername);
    assert_eq!(machine.buffer, "");
}
