use vstd::prelude::*;

use crate::TimeoutResult;
use crate::prompt::ConfirmResult;
use crate::rv_api::ApiResult;

verus! {

/// Where the registration flow stands: two confirmations, four text
/// fields, the backend call, then done.
#[derive(Clone, Copy, Debug, PartialEq, Eq, Structural)]
pub enum RegState {
    ConfirmCreate,
    ConfirmTerms,
    EnterPassword,
    EnterPasswordAgain,
    EnterFullName,
    EnterEmail,
    Submitting,
    Finished,
}

/// Everything the backend needs to create the account.
pub struct RegistrationRequest {
    pub username: String,
    pub password: String,
    pub full_name: String,
    pub email: String,
}

/// What the surrounding loop must do after one registration step.
pub enum RegEffect {
    AskTerms,
    AskPassword,
    AskPasswordAgain,
    AskFullName,
    AskEmail,
    Submit(RegistrationRequest),
    Aborted,
    PasswordMismatch,
    TimedOutAbort,
    Registered,
    RegistrationFailed(String),
}

/// The registration flow: a fixed linear sequence of confirmations and
/// prompts, each bounded by its own timeout; any expiry or refusal
/// aborts the whole flow, and mismatching password entries abort with
/// a message before anything is sent.
pub struct RegistrationMachine {
    pub state: RegState,
    pub username: String,
    pub password: String,
    pub full_name: String,
}

impl RegistrationMachine {
    /// Starts registering `username`, at the first confirmation.
    pub fn new(username: String) -> (m: Self)
        ensures
            m.state == RegState::ConfirmCreate,
            m.username == username,
    {
        RegistrationMachine {
            state: RegState::ConfirmCreate,
            username,
            password: String::new(),
            full_name: String::new(),
        }
    }

    /// Takes the answer of the current yes/no confirmation. Refusal
    /// aborts the flow; an expired wait aborts it as timed out.
    pub fn on_confirm(&mut self, answer: ConfirmResult) -> (r: RegEffect)
        requires
            old(self).state == RegState::ConfirmCreate || old(self).state == RegState::ConfirmTerms,
        ensures
            final(self).username == old(self).username,
            answer == ConfirmResult::NO ==> final(self).state == RegState::Finished && r
                is Aborted,
            answer == ConfirmResult::TIMEOUT ==> final(self).state == RegState::Finished && r
                is TimedOutAbort,
            answer == ConfirmResult::YES && old(self).state == RegState::ConfirmCreate
                ==> final(self).state == RegState::ConfirmTerms && r is AskTerms,
            answer == ConfirmResult::YES && old(self).state == RegState::ConfirmTerms
                ==> final(self).state == RegState::EnterPassword && r is AskPassword,
    {
        match answer {
            ConfirmResult::NO => {
                self.state = RegState::Finished;
                RegEffect::Aborted
            },
            ConfirmResult::TIMEOUT => {
                self.state = RegState::Finished;
                RegEffect::TimedOutAbort
            },
            ConfirmResult::YES => {
                match self.state {
                    RegState::ConfirmCreate => {
                        self.state = RegState::ConfirmTerms;
                        RegEffect::AskTerms
                    },
                    _ => {
                        self.state = RegState::EnterPassword;
                        RegEffect::AskPassword
                    },
                }
            },
        }
    }

    /// Takes the line of the current text prompt. An expired wait
    /// aborts the flow; disagreeing password entries abort it before
    /// anything is committed; the final field submits the request.
    pub fn on_line(&mut self, line: TimeoutResult<String>) -> (r: RegEffect)
        requires
            old(self).state == RegState::EnterPassword || old(self).state
                == RegState::EnterPasswordAgain || old(self).state == RegState::EnterFullName
                || old(self).state == RegState::EnterEmail,
        ensures
            final(self).username == old(self).username,
            old(self).state != RegState::EnterPassword ==> final(self).password == old(
                self,
            ).password,
            old(self).state != RegState::EnterFullName ==> final(self).full_name == old(
                self,
            ).full_name,
            line is TIMEOUT ==> final(self).state == RegState::Finished && r is TimedOutAbort,
            old(self).state == RegState::EnterPassword ==> (match line {
                TimeoutResult::RESULT(s) => final(self).state == RegState::EnterPasswordAgain
                    && final(self).password == s && r is AskPasswordAgain,
                TimeoutResult::TIMEOUT => true,
            }),
            old(self).state == RegState::EnterPasswordAgain ==> (match line {
                TimeoutResult::RESULT(s) => if s@ == old(self).password@ {
                    final(self).state == RegState::EnterFullName && r is AskFullName
                } else {
                    final(self).state == RegState::Finished && r is PasswordMismatch
                },
                TimeoutResult::TIMEOUT => true,
            }),
            old(self).state == RegState::EnterFullName ==> (match line {
                TimeoutResult::RESULT(s) => final(self).state == RegState::EnterEmail
                    && final(self).full_name == s && r is AskEmail,
                TimeoutResult::TIMEOUT => true,
            }),
            old(self).state == RegState::EnterEmail ==> (match line {
                TimeoutResult::RESULT(s) => final(self).state == RegState::Submitting && (match r {
                    RegEffect::Submit(req) => req.username == old(self).username && req.password
                        == old(self).password && req.full_name == old(self).full_name && req.email
                        == s,
                    _ => false,
                }),
                TimeoutResult::TIMEOUT => true,
            }),
    {
        let s = match line {
            TimeoutResult::TIMEOUT => {
                self.state = RegState::Finished;
                return RegEffect::TimedOutAbort;
            },
            TimeoutResult::RESULT(s) => s,
        };
        match self.state {
            RegState::EnterPassword => {
                self.password = s;
                self.state = RegState::EnterPasswordAgain;
                RegEffect::AskPasswordAgain
            },
            RegState::EnterPasswordAgain => {
                if s == self.password {
                    self.state = RegState::EnterFullName;
                    RegEffect::AskFullName
                } else {
                    self.state = RegState::Finished;
                    RegEffect::PasswordMismatch
                }
            },
            RegState::EnterFullName => {
                self.full_name = s;
                self.state = RegState::EnterEmail;
                RegEffect::AskEmail
            },
            _ => {
                self.state = RegState::Submitting;
                RegEffect::Submit(
                    RegistrationRequest {
                        username: self.username.clone(),
                        password: self.password.clone(),
                        full_name: self.full_name.clone(),
                        email: s,
                    },
                )
            },
        }
    }

    /// Takes the backend's answer to the submitted request and reports
    /// it; either way the flow is over.
    pub fn on_submit_result(&mut self, outcome: ApiResult) -> (r: RegEffect)
        requires
            old(self).state == RegState::Submitting,
        ensures
            final(self).state == RegState::Finished,
            (match outcome {
                ApiResult::Success => r is Registered,
                ApiResult::Fail(m) => r matches RegEffect::RegistrationFailed(got) && got == m,
            }),
    {
        self.state = RegState::Finished;
        match outcome {
            ApiResult::Success => RegEffect::Registered,
            ApiResult::Fail(m) => RegEffect::RegistrationFailed(m),
        }
    }
}

} // verus!
