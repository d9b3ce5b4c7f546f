use vstd::prelude::*;

use crate::events::{InputEvent, KeyCode, RecvOutcome, TerminalEvent};
use crate::text::push_char;
use vstd::string::StringExecFns;

verus! {

/// Where the login controller stands: typing a name, typing a
/// password, waiting on one of the backend calls, or having handed
/// control to a sub-machine.
#[derive(Clone, Copy, Debug, PartialEq, Eq, Structural)]
pub enum LoginState {
    AwaitingUsername,
    AwaitingPassword,
    CheckingUser,
    Authenticating,
    ScanAuthenticating,
    Registering,
    InSession,
    Done,
}

/// What the surrounding loop must do after one controller step: wait
/// for the next bus outcome, draw an echo, make a backend call, start
/// a sub-flow, or stop.
pub enum LoginEffect {
    Wait,
    Echo(char),
    Erase,
    CheckUser(String),
    PasswordLogin(String, String),
    ScanLogin(String),
    BeginRegistration(String),
    EnterSession,
    LoginFailed,
    ScanFailed,
    TimedOut,
    Quit,
}

/// The mathematical value of a login effect.
pub enum LoginEffectView {
    Wait,
    Echo(char),
    Erase,
    CheckUser(Seq<char>),
    PasswordLogin(Seq<char>, Seq<char>),
    ScanLogin(Seq<char>),
    BeginRegistration(Seq<char>),
    EnterSession,
    LoginFailed,
    ScanFailed,
    TimedOut,
    Quit,
}

impl View for LoginEffect {
    type V = LoginEffectView;

    open spec fn view(&self) -> LoginEffectView {
        match self {
            LoginEffect::Wait => LoginEffectView::Wait,
            LoginEffect::Echo(c) => LoginEffectView::Echo(*c),
            LoginEffect::Erase => LoginEffectView::Erase,
            LoginEffect::CheckUser(u) => LoginEffectView::CheckUser(u@),
            LoginEffect::PasswordLogin(u, p) => LoginEffectView::PasswordLogin(u@, p@),
            LoginEffect::ScanLogin(t) => LoginEffectView::ScanLogin(t@),
            LoginEffect::BeginRegistration(u) => LoginEffectView::BeginRegistration(u@),
            LoginEffect::EnterSession => LoginEffectView::EnterSession,
            LoginEffect::LoginFailed => LoginEffectView::LoginFailed,
            LoginEffect::ScanFailed => LoginEffectView::ScanFailed,
            LoginEffect::TimedOut => LoginEffectView::TimedOut,
            LoginEffect::Quit => LoginEffectView::Quit,
        }
    }
}

/// The mathematical value of the login controller.
pub struct LoginView {
    pub development_mode: bool,
    pub state: LoginState,
    pub username: Seq<char>,
    pub buffer: Seq<char>,
}

/// The login controller: the sole consumer of the input bus while
/// nobody is authenticated.
pub struct LoginMachine {
    pub development_mode: bool,
    pub state: LoginState,
    pub username: String,
    pub buffer: String,
}

impl View for LoginMachine {
    type V = LoginView;

    open spec fn view(&self) -> LoginView {
        LoginView {
            development_mode: self.development_mode,
            state: self.state,
            username: self.username@,
            buffer: self.buffer@,
        }
    }
}

/// The username that, in a development-mode build, quits the top-level
/// loop instead of being authenticated.
pub open spec fn spec_quit_word() -> Seq<char> {
    seq!['q', 'u', 'i', 't']
}

/// One step of the controller while it reads the username prompt. An
/// expired wait discards the partial name and reports the timeout, so
/// this read, like every other, never blocks forever.
pub open spec fn spec_username_step(m: LoginView, ev: RecvOutcome) -> (LoginView, LoginEffectView) {
    match ev {
        RecvOutcome::TimedOut => (
            LoginView { state: LoginState::AwaitingUsername, buffer: Seq::empty(), ..m },
            LoginEffectView::TimedOut,
        ),
        RecvOutcome::Received(InputEvent::Scan(text)) => (
            LoginView {
                state: LoginState::ScanAuthenticating,
                buffer: Seq::empty(),
                ..m
            },
            LoginEffectView::ScanLogin(text@),
        ),
        RecvOutcome::Received(InputEvent::Terminal(TerminalEvent::Key(k))) => match k {
            KeyCode::Char(c) => (
                LoginView { buffer: m.buffer.push(c), ..m },
                LoginEffectView::Echo(c),
            ),
            KeyCode::Backspace => if m.buffer.len() > 0 {
                (LoginView { buffer: m.buffer.drop_last(), ..m }, LoginEffectView::Erase)
            } else {
                (m, LoginEffectView::Wait)
            },
            KeyCode::Enter => if m.buffer.len() == 0 {
                (m, LoginEffectView::Wait)
            } else if m.development_mode && m.buffer == spec_quit_word() {
                (LoginView { state: LoginState::Done, ..m }, LoginEffectView::Quit)
            } else {
                (
                    LoginView {
                        state: LoginState::CheckingUser,
                        username: m.buffer,
                        buffer: Seq::empty(),
                        ..m
                    },
                    LoginEffectView::CheckUser(m.buffer),
                )
            },
            KeyCode::Other => (m, LoginEffectView::Wait),
        },
        RecvOutcome::Received(InputEvent::Terminal(TerminalEvent::Other)) => (
            m,
            LoginEffectView::Wait,
        ),
    }
}

/// One step of the controller while it reads the password prompt: not
/// echoed, bounded by the short timeout, and preempted by a scan just
/// as the username prompt is.
pub open spec fn spec_password_step(m: LoginView, ev: RecvOutcome) -> (LoginView, LoginEffectView) {
    match ev {
        RecvOutcome::TimedOut => (
            LoginView { state: LoginState::AwaitingUsername, buffer: Seq::empty(), ..m },
            LoginEffectView::TimedOut,
        ),
        RecvOutcome::Received(InputEvent::Scan(text)) => (
            LoginView {
                state: LoginState::ScanAuthenticating,
                buffer: Seq::empty(),
                ..m
            },
            LoginEffectView::ScanLogin(text@),
        ),
        RecvOutcome::Received(InputEvent::Terminal(TerminalEvent::Key(k))) => match k {
            KeyCode::Char(c) => (
                LoginView { buffer: m.buffer.push(c), ..m },
                LoginEffectView::Wait,
            ),
            KeyCode::Backspace => if m.buffer.len() > 0 {
                (LoginView { buffer: m.buffer.drop_last(), ..m }, LoginEffectView::Wait)
            } else {
                (m, LoginEffectView::Wait)
            },
            KeyCode::Enter => (
                LoginView {
                    state: LoginState::Authenticating,
                    buffer: Seq::empty(),
                    ..m
                },
                LoginEffectView::PasswordLogin(m.username, m.buffer),
            ),
            KeyCode::Other => (m, LoginEffectView::Wait),
        },
        RecvOutcome::Received(InputEvent::Terminal(TerminalEvent::Other)) => (
            m,
            LoginEffectView::Wait,
        ),
    }
}

/// One step of the controller on a bus outcome, in whichever prompt it
/// is reading.
pub open spec fn spec_login_step(m: LoginView, ev: RecvOutcome) -> (LoginView, LoginEffectView) {
    if m.state is AwaitingUsername {
        spec_username_step(m, ev)
    } else {
        spec_password_step(m, ev)
    }
}

impl LoginMachine {
    /// A fresh controller reads the username prompt with everything
    /// empty. Development mode is configuration chosen once at startup.
    pub fn new(development_mode: bool) -> (m: Self)
        ensures
            m@.development_mode == development_mode,
            m@.state is AwaitingUsername,
            m@.username == Seq::<char>::empty(),
            m@.buffer == Seq::<char>::empty(),
    {
        LoginMachine {
            development_mode,
            state: LoginState::AwaitingUsername,
            username: String::new(),
            buffer: String::new(),
        }
    }

    /// Consumes one bus outcome at the username or password prompt.
    pub fn on_event(&mut self, ev: &RecvOutcome) -> (r: LoginEffect)
        requires
            old(self)@.state is AwaitingUsername || old(self)@.state is AwaitingPassword,
        ensures
            final(self)@ == spec_login_step(old(self)@, *ev).0,
            r@ == spec_login_step(old(self)@, *ev).1,
    {
        let at_username = match self.state {
            LoginState::AwaitingUsername => true,
            _ => false,
        };
        match ev {
            RecvOutcome::TimedOut => {
                self.state = LoginState::AwaitingUsername;
                self.buffer = String::new();
                LoginEffect::TimedOut
            },
            RecvOutcome::Received(InputEvent::Scan(text)) => {
                self.state = LoginState::ScanAuthenticating;
                self.buffer = String::new();
                LoginEffect::ScanLogin(text.clone())
            },
            RecvOutcome::Received(InputEvent::Terminal(TerminalEvent::Key(k))) => {
                match k {
                    KeyCode::Char(c) => {
                        push_char(&mut self.buffer, *c);
                        if at_username {
                            LoginEffect::Echo(*c)
                        } else {
                            LoginEffect::Wait
                        }
                    },
                    KeyCode::Backspace => {
                        if self.buffer.unicode_len() > 0 {
                            crate::text::pop_char(&mut self.buffer);
                            if at_username {
                                LoginEffect::Erase
                            } else {
                                LoginEffect::Wait
                            }
                        } else {
                            LoginEffect::Wait
                        }
                    },
                    KeyCode::Enter => {
                        if at_username {
                            if self.buffer.unicode_len() == 0 {
                                LoginEffect::Wait
                            } else {
                                let quit_word = String::from_str("quit");
                                proof {
                                    reveal_strlit("quit");
                                    assert("quit"@ =~= spec_quit_word());
                                }
                                if self.development_mode && self.buffer == quit_word {
                                    self.state = LoginState::Done;
                                    LoginEffect::Quit
                                } else {
                                    self.state = LoginState::CheckingUser;
                                    self.username = self.buffer.clone();
                                    self.buffer = String::new();
                                    LoginEffect::CheckUser(self.username.clone())
                                }
                            }
                        } else {
                            self.state = LoginState::Authenticating;
                            let password = self.buffer.clone();
                            self.buffer = String::new();
                            LoginEffect::PasswordLogin(self.username.clone(), password)
                        }
                    },
                    KeyCode::Other => LoginEffect::Wait,
                }
            },
            RecvOutcome::Received(InputEvent::Terminal(TerminalEvent::Other)) => LoginEffect::Wait,
        }
    }

    /// Takes the answer of the account-existence check: an existing
    /// account moves on to the password prompt, a missing one starts
    /// registration for the entered name.
    pub fn on_user_exists(&mut self, exists: bool) -> (r: LoginEffect)
        requires
            old(self)@.state is CheckingUser,
        ensures
            final(self)@.development_mode == old(self)@.development_mode,
            final(self)@.username == old(self)@.username,
            final(self)@.buffer == Seq::<char>::empty(),
            exists ==> final(self)@.state is AwaitingPassword && r@ == LoginEffectView::Wait,
            !exists ==> final(self)@.state is Registering && r@
                == LoginEffectView::BeginRegistration(old(self)@.username),
    {
        self.buffer = String::new();
        if exists {
            self.state = LoginState::AwaitingPassword;
            LoginEffect::Wait
        } else {
            self.state = LoginState::Registering;
            LoginEffect::BeginRegistration(self.username.clone())
        }
    }

    /// Takes the answer of password authentication: success enters the
    /// session, failure reports and returns to the username prompt.
    pub fn on_password_login(&mut self, ok: bool) -> (r: LoginEffect)
        requires
            old(self)@.state is Authenticating,
        ensures
            final(self)@.development_mode == old(self)@.development_mode,
            final(self)@.buffer == Seq::<char>::empty(),
            ok ==> final(self)@.state is InSession && r@ == LoginEffectView::EnterSession,
            !ok ==> final(self)@.state is AwaitingUsername && r@ == LoginEffectView::LoginFailed,
    {
        self.buffer = String::new();
        if ok {
            self.state = LoginState::InSession;
            LoginEffect::EnterSession
        } else {
            self.state = LoginState::AwaitingUsername;
            LoginEffect::LoginFailed
        }
    }

    /// Takes the answer of scan authentication: success enters the
    /// session, failure shows the no-match message and returns to the
    /// username prompt with an empty buffer. The scanned text is never
    /// reinterpreted as typed input.
    pub fn on_scan_login(&mut self, ok: bool) -> (r: LoginEffect)
        requires
            old(self)@.state is ScanAuthenticating,
        ensures
            final(self)@.development_mode == old(self)@.development_mode,
            final(self)@.buffer == Seq::<char>::empty(),
            ok ==> final(self)@.state is InSession && r@ == LoginEffectView::EnterSession,
            !ok ==> final(self)@.state is AwaitingUsername && r@ == LoginEffectView::ScanFailed,
    {
        self.buffer = String::new();
        if ok {
            self.state = LoginState::InSession;
            LoginEffect::EnterSession
        } else {
            self.state = LoginState::AwaitingUsername;
            LoginEffect::ScanFailed
        }
    }

    /// The authenticated session ended (logout, menu timeout, or a scan
    /// while in the menu): back to the username prompt.
    pub fn on_session_end(&mut self)
        requires
            old(self)@.state is InSession,
        ensures
            final(self)@.development_mode == old(self)@.development_mode,
            final(self)@.state is AwaitingUsername,
            final(self)@.buffer == Seq::<char>::empty(),
    {
        self.state = LoginState::AwaitingUsername;
        self.buffer = String::new();
    }

    /// The registration flow ended, however it ended: back to the
    /// username prompt.
    pub fn on_registration_end(&mut self)
        requires
            old(self)@.state is Registering,
        ensures
            final(self)@.development_mode == old(self)@.development_mode,
            final(self)@.state is AwaitingUsername,
            final(self)@.buffer == Seq::<char>::empty(),
    {
        self.state = LoginState::AwaitingUsername;
        self.buffer = String::new();
    }
}

/// A scan arriving at the username or password prompt discards the
/// partial typed input entirely: two controllers that differ only in
/// that partial buffer step to one and the same machine and effect,
/// so what follows depends only on the scanned text.
pub proof fn lemma_scan_discards_partial_input(m1: LoginView, m2: LoginView, ev: RecvOutcome)
    requires
        m1.state is AwaitingUsername || m1.state is AwaitingPassword,
        m2.state == m1.state,
        m2.development_mode == m1.development_mode,
        m2.username == m1.username,
        ev matches RecvOutcome::Received(InputEvent::Scan(_)),
    ensures
        spec_login_step(m1, ev).0 == spec_login_step(m2, ev).0,
        spec_login_step(m1, ev).1 == spec_login_step(m2, ev).1,
        spec_login_step(m1, ev).0.state is ScanAuthenticating,
        spec_login_step(m1, ev).0.buffer == Seq::<char>::empty(),
{
}

} // verus!
