use rvterminal::events::{InputEvent, KeyCode, RecvOutcome, TerminalEvent};
use rvterminal::menu::{MenuEffect, MenuMachine};

fn key(code: KeyCode) -> RecvOutcome {
    RecvOutcome::Received(InputEvent::Terminal(TerminalEvent::Key(code)))
}

fn press(machine: &mut MenuMachine, c: char) -> MenuEffect {
    machine.on_event(&key(KeyCode::Char(c)))
}

#[test]
fn menu_dispatches_commands() {
    let mut menu = MenuMachine::new(false);
    assert!(matches!(press(&mut menu, 'b'), MenuEffect::StartMultibuy));
    assert!(matches!(press(&mut menu, 'd'), MenuEffect::StartDeposit));
    assert!(matches!(press(&mut menu, 'f'), MenuEffect::StartSearch));
    assert!(matches!(press(&mut menu, 'p'), MenuEffect::StartPasswordChange));
    assert!(matches!(press(&mut menu, 'r'), MenuEffect::StartRfidChange));
    assert!(matches!(press(&mut menu, 'u'), MenuEffect::StartReturn));
    assert!(matches!(press(&mut menu, 'q'), MenuEffect::Logout));
    assert!(matches!(press(&mut menu, 'z'), MenuEffect::Wait));
}

#[test]
fn menu_buys_a_typed_barcode() {
    let mut menu = MenuMachine::new(false);
    assert!(matches!(press(&mut menu, '1'), MenuEffect::Echo('1')));
    assert!(matches!(press(&mut menu, '2'), MenuEffect::Echo('2')));
    assert!(matches!(menu.on_event(&key(KeyCode::Backspace)), MenuEffect::Erase));
    assert!(matches!(press(&mut menu, '3'), MenuEffect::Echo('3')));
    match menu.on_event(&key(KeyCode::Enter)) {
        MenuEffect::Purchase(barcode) => assert_eq!(barcode, "13"),
        _ => panic!("a typed identifier must be purchased"),
    }
    assert_eq!(menu.command, "");
}

#[test]
fn menu_logs_out_on_terminator_scan_or_expiry() {
    let mut menu = MenuMachine::new(false);
    assert!(matches!(menu.on_event(&key(KeyCode::Enter)), MenuEffect::Logout));
    assert!(matches!(
        menu.on_event(&RecvOutcome::Received(InputEvent::Scan("beef".to_string()))),
        MenuEffect::Logout
    ));
    assert!(matches!(menu.on_event(&RecvOutcome::TimedOut), MenuEffect::TimedOut));
}

#[test]
fn management_mode_is_gated_and_nested() {
    // Without the administrative capability the command is ignored.
    let mut menu = MenuMachine::new(false);
    assert!(matches!(press(&mut menu, 'm'), MenuEffect::Wait));
    assert!(!menu.elevated);

    let mut menu = MenuMachine::new(true);
    assert!(matches!(press(&mut menu, 'm'), MenuEffect::EnterManagement));
    assert!(menu.elevated);

    // Management commands.
    assert!(matches!(press(&mut menu, 'f'), MenuEffect::StartSearch));
    assert!(matches!(press(&mut menu, 'i'), MenuEffect::StartItemProperties));
    assert!(matches!(press(&mut menu, 'p'), MenuEffect::StartPasswordChangeAdmin));
    // Ordinary-menu commands mean nothing here.
    assert!(matches!(press(&mut menu, 'd'), MenuEffect::Wait));

    // A typed identifier buys stock in.
    assert!(matches!(press(&mut menu, '4'), MenuEffect::Echo('4')));
    match menu.on_event(&key(KeyCode::Enter)) {
        MenuEffect::BuyIn(barcode) => assert_eq!(barcode, "4"),
        _ => panic!("a typed identifier must buy in"),
    }

    // A bare terminator returns to the ordinary menu, not to login.
    assert!(matches!(menu.on_event(&key(KeyCode::Enter)), MenuEffect::LeaveManagement));
    assert!(!menu.elevated);

    // A scan in management mode logs the user out immediately, just as
    // it does at the ordinary menu.
    let mut menu = MenuMachine::new(true);
    press(&mut menu, 'm');
    assert!(matches!(
        menu.on_event(&RecvOutcome::Received(InputEvent::Scan("beef".to_string()))),
        MenuEffect::Logout
    ));

    // An expired wait in management mode still ends the session.
    let mut menu = MenuMachine::new(true);
    press(&mut menu, 'm');
    assert!(matches!(menu.on_event(&RecvOutcome::TimedOut), MenuEffect::TimedOut));
}
