use rvterminal::prompt::ConfirmResult;
use rvterminal::registration::{RegEffect, RegState, RegistrationMachine};
use rvterminal::rv_api::ApiResult;
use rvterminal::TimeoutResult;

fn line(s: &str) -> TimeoutResult<String> {
    TimeoutResult::RESULT(s.to_string())
}

#[test]
fn registration_happy_path() {
    let mut reg = RegistrationMachine::new("newbie".to_string());
    assert!(matches!(reg.on_confirm(ConfirmResult::YES), RegEffect::AskTerms));
    assert!(matches!(reg.on_confirm(ConfirmResult::YES), RegEffect::AskPassword));
    assert!(matches!(reg.on_line(line("pw")), RegEffect::AskPasswordAgain));
    assert!(matches!(reg.on_line(line("pw")), RegEffect::AskFullName));
    assert!(matches!(reg.on_line(line("New Bie")), RegEffect::AskEmail));
    match reg.on_line(line("new@bie.fi")) {
        RegEffect::Submit(req) => {
            assert_eq!(req.username, "newbie");
            assert_eq!(req.password, "pw");
            assert_eq!(req.full_name, "New Bie");
            assert_eq!(req.email, "new@bie.fi");
        },
        _ => panic!("a completed flow must submit"),
    }
    assert!(matches!(reg.on_submit_result(ApiResult::Success), RegEffect::Registered));
    assert_eq!(reg.state, RegState::Finished);
}

#[test]
fn registration_aborts() {
    // A refusal at either confirmation ends the flow.
    let mut reg = RegistrationMachine::new("a".to_string());
    assert!(matches!(reg.on_confirm(ConfirmResult::NO), RegEffect::Aborted));
    assert_eq!(reg.state, RegState::Finished);

    // Disagreeing password entries end the flow before anything is sent.
    let mut reg = RegistrationMachine::new("a".to_string());
    reg.on_confirm(ConfirmResult::YES);
    reg.on_confirm(ConfirmResult::YES);
    reg.on_line(line("one"));
    assert!(matches!(reg.on_line(line("two")), RegEffect::PasswordMismatch));
    assert_eq!(reg.state, RegState::Finished);

    // Any expired wait aborts the whole flow.
    let mut reg = RegistrationMachine::new("a".to_string());
    assert!(matches!(reg.on_confirm(ConfirmResult::TIMEOUT), RegEffect::TimedOutAbort));
    let mut reg = RegistrationMachine::new("a".to_string());
    reg.on_confirm(ConfirmResult::YES);
    reg.on_confirm(ConfirmResult::YES);
    assert!(matches!(
        reg.on_line(TimeoutResult::TIMEOUT),
        RegEffect::TimedOutAbort
    ));

    // A backend refusal carries its message.
    let mut reg = RegistrationMachine::new("a".to_string());
    reg.on_confirm(ConfirmResult::YES);
    reg.on_confirm(ConfirmResult::YES);
    reg.on_line(line("pw"));
    reg.on_line(line("pw"));
    reg.on_line(line("A"));
    reg.on_line(line("a@b.c"));
    match reg.on_submit_result(ApiResult::Fail("username exists".to_string())) {
        RegEffect::RegistrationFailed(m) => assert_eq!(m, "username exists"),
        _ => panic!("a refused registration reports the message"),
    }
}
