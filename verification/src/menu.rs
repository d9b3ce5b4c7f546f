use vstd::prelude::*;

use crate::events::{InputEvent, KeyCode, RecvOutcome, TerminalEvent};
use crate::text::push_char;

verus! {

/// What the session loop must do after one menu step.
pub enum MenuEffect {
    Wait,
    Echo(char),
    Erase,
    StartMultibuy,
    StartDeposit,
    StartSearch,
    StartPasswordChange,
    StartRfidChange,
    StartReturn,
    EnterManagement,
    LeaveManagement,
    StartItemProperties,
    StartPasswordChangeAdmin,
    Purchase(String),
    BuyIn(String),
    Logout,
    TimedOut,
}

/// The mathematical value of a menu effect.
pub enum MenuEffectView {
    Wait,
    Echo(char),
    Erase,
    StartMultibuy,
    StartDeposit,
    StartSearch,
    StartPasswordChange,
    StartRfidChange,
    StartReturn,
    EnterManagement,
    LeaveManagement,
    StartItemProperties,
    StartPasswordChangeAdmin,
    Purchase(Seq<char>),
    BuyIn(Seq<char>),
    Logout,
    TimedOut,
}

impl View for MenuEffect {
    type V = MenuEffectView;

    open spec fn view(&self) -> MenuEffectView {
        match self {
            MenuEffect::Wait => MenuEffectView::Wait,
            MenuEffect::Echo(c) => MenuEffectView::Echo(*c),
            MenuEffect::Erase => MenuEffectView::Erase,
            MenuEffect::StartMultibuy => MenuEffectView::StartMultibuy,
            MenuEffect::StartDeposit => MenuEffectView::StartDeposit,
            MenuEffect::StartSearch => MenuEffectView::StartSearch,
            MenuEffect::StartPasswordChange => MenuEffectView::StartPasswordChange,
            MenuEffect::StartRfidChange => MenuEffectView::StartRfidChange,
            MenuEffect::StartReturn => MenuEffectView::StartReturn,
            MenuEffect::EnterManagement => MenuEffectView::EnterManagement,
            MenuEffect::LeaveManagement => MenuEffectView::LeaveManagement,
            MenuEffect::StartItemProperties => MenuEffectView::StartItemProperties,
            MenuEffect::StartPasswordChangeAdmin => MenuEffectView::StartPasswordChangeAdmin,
            MenuEffect::Purchase(b) => MenuEffectView::Purchase(b@),
            MenuEffect::BuyIn(b) => MenuEffectView::BuyIn(b@),
            MenuEffect::Logout => MenuEffectView::Logout,
            MenuEffect::TimedOut => MenuEffectView::TimedOut,
        }
    }
}

/// The mathematical value of the menu machine.
pub struct MenuView {
    pub admin: bool,
    pub elevated: bool,
    pub command: Seq<char>,
}

/// The authenticated menu: single-letter commands dispatch sub-flows,
/// digits accumulate an item identifier, a bare terminator logs out
/// (or, in management mode, drops back to the ordinary menu).
pub struct MenuMachine {
    pub admin: bool,
    pub elevated: bool,
    pub command: String,
}

impl View for MenuMachine {
    type V = MenuView;

    open spec fn view(&self) -> MenuView {
        MenuView { admin: self.admin, elevated: self.elevated, command: self.command@ }
    }
}

/// One step of the ordinary (non-management) menu.
pub open spec fn spec_menu_step(m: MenuView, ev: RecvOutcome) -> (MenuView, MenuEffectView) {
    match ev {
        RecvOutcome::TimedOut => (m, MenuEffectView::TimedOut),
        RecvOutcome::Received(InputEvent::Scan(_)) => (m, MenuEffectView::Logout),
        RecvOutcome::Received(InputEvent::Terminal(TerminalEvent::Key(k))) => match k {
            KeyCode::Char(c) => if c == 'b' {
                (MenuView { command: Seq::empty(), ..m }, MenuEffectView::StartMultibuy)
            } else if c == 'd' {
                (MenuView { command: Seq::empty(), ..m }, MenuEffectView::StartDeposit)
            } else if c == 'f' {
                (MenuView { command: Seq::empty(), ..m }, MenuEffectView::StartSearch)
            } else if c == 'p' {
                (MenuView { command: Seq::empty(), ..m }, MenuEffectView::StartPasswordChange)
            } else if c == 'r' {
                (MenuView { command: Seq::empty(), ..m }, MenuEffectView::StartRfidChange)
            } else if c == 'u' {
                (MenuView { command: Seq::empty(), ..m }, MenuEffectView::StartReturn)
            } else if c == 'm' {
                if m.admin {
                    (
                        MenuView { elevated: true, command: Seq::empty(), ..m },
                        MenuEffectView::EnterManagement,
                    )
                } else {
                    (m, MenuEffectView::Wait)
                }
            } else if c == 'q' {
                (m, MenuEffectView::Logout)
            } else if '0' <= c && c <= '9' {
                (MenuView { command: m.command.push(c), ..m }, MenuEffectView::Echo(c))
            } else {
                (m, MenuEffectView::Wait)
            },
            KeyCode::Backspace => if m.command.len() > 0 {
                (MenuView { command: m.command.drop_last(), ..m }, MenuEffectView::Erase)
            } else {
                (m, MenuEffectView::Wait)
            },
            KeyCode::Enter => if m.command.len() == 0 {
                (m, MenuEffectView::Logout)
            } else {
                (MenuView { command: Seq::empty(), ..m }, MenuEffectView::Purchase(m.command))
            },
            KeyCode::Other => (m, MenuEffectView::Wait),
        },
        RecvOutcome::Received(InputEvent::Terminal(TerminalEvent::Other)) => (
            m,
            MenuEffectView::Wait,
        ),
    }
}

/// One step of the elevated (management) menu: a superset of inventory
/// commands; a bare terminator returns to the ordinary menu; a scan
/// still logs the user out immediately, and an expired wait still ends
/// the whole session.
pub open spec fn spec_management_step(m: MenuView, ev: RecvOutcome) -> (MenuView, MenuEffectView) {
    match ev {
        RecvOutcome::TimedOut => (m, MenuEffectView::TimedOut),
        RecvOutcome::Received(InputEvent::Scan(_)) => (m, MenuEffectView::Logout),
        RecvOutcome::Received(InputEvent::Terminal(TerminalEvent::Key(k))) => match k {
            KeyCode::Char(c) => if c == 'f' {
                (MenuView { command: Seq::empty(), ..m }, MenuEffectView::StartSearch)
            } else if c == 'i' {
                (MenuView { command: Seq::empty(), ..m }, MenuEffectView::StartItemProperties)
            } else if c == 'p' {
                (
                    MenuView { command: Seq::empty(), ..m },
                    MenuEffectView::StartPasswordChangeAdmin,
                )
            } else if '0' <= c && c <= '9' {
                (MenuView { command: m.command.push(c), ..m }, MenuEffectView::Echo(c))
            } else {
                (m, MenuEffectView::Wait)
            },
            KeyCode::Backspace => if m.command.len() > 0 {
                (MenuView { command: m.command.drop_last(), ..m }, MenuEffectView::Erase)
            } else {
                (m, MenuEffectView::Wait)
            },
            KeyCode::Enter => if m.command.len() == 0 {
                (MenuView { elevated: false, ..m }, MenuEffectView::LeaveManagement)
            } else {
                (MenuView { command: Seq::empty(), ..m }, MenuEffectView::BuyIn(m.command))
            },
            KeyCode::Other => (m, MenuEffectView::Wait),
        },
        RecvOutcome::Received(InputEvent::Terminal(TerminalEvent::Other)) => (
            m,
            MenuEffectView::Wait,
        ),
    }
}

/// One step of the menu machine, elevated or not.
pub open spec fn spec_session_step(m: MenuView, ev: RecvOutcome) -> (MenuView, MenuEffectView) {
    if m.elevated {
        spec_management_step(m, ev)
    } else {
        spec_menu_step(m, ev)
    }
}

impl MenuMachine {
    /// A fresh menu for an authenticated principal; `admin` says
    /// whether the principal carries the administrative capability.
    pub fn new(admin: bool) -> (m: Self)
        ensures
            m@.admin == admin,
            !m@.elevated,
            m@.command == Seq::<char>::empty(),
    {
        MenuMachine { admin, elevated: false, command: String::new() }
    }

    /// Consumes one bus outcome at the menu prompt.
    pub fn on_event(&mut self, ev: &RecvOutcome) -> (r: MenuEffect)
        ensures
            final(self)@ == spec_session_step(old(self)@, *ev).0,
            r@ == spec_session_step(old(self)@, *ev).1,
    {
        let elevated = self.elevated;
        match ev {
            RecvOutcome::TimedOut => MenuEffect::TimedOut,
            RecvOutcome::Received(InputEvent::Scan(_)) => MenuEffect::Logout,
            RecvOutcome::Received(InputEvent::Terminal(TerminalEvent::Key(k))) => {
                match k {
                    KeyCode::Char(c) => {
                        let c = *c;
                        if !elevated && c == 'b' {
                            self.command = String::new();
                            MenuEffect::StartMultibuy
                        } else if !elevated && c == 'd' {
                            self.command = String::new();
                            MenuEffect::StartDeposit
                        } else if c == 'f' {
                            self.command = String::new();
                            MenuEffect::StartSearch
                        } else if c == 'p' {
                            self.command = String::new();
                            if elevated {
                                MenuEffect::StartPasswordChangeAdmin
                            } else {
                                MenuEffect::StartPasswordChange
                            }
                        } else if !elevated && c == 'r' {
                            self.command = String::new();
                            MenuEffect::StartRfidChange
                        } else if !elevated && c == 'u' {
                            self.command = String::new();
                            MenuEffect::StartReturn
                        } else if !elevated && c == 'm' {
                            if self.admin {
                                self.elevated = true;
                                self.command = String::new();
                                MenuEffect::EnterManagement
                            } else {
                                MenuEffect::Wait
                            }
                        } else if !elevated && c == 'q' {
                            MenuEffect::Logout
                        } else if elevated && c == 'i' {
                            self.command = String::new();
                            MenuEffect::StartItemProperties
                        } else if '0' <= c && c <= '9' {
                            push_char(&mut self.command, c);
                            MenuEffect::Echo(c)
                        } else {
                            MenuEffect::Wait
                        }
                    },
                    KeyCode::Backspace => {
                        if self.command.unicode_len() > 0 {
                            crate::text::pop_char(&mut self.command);
                            MenuEffect::Erase
                        } else {
                            MenuEffect::Wait
                        }
                    },
                    KeyCode::Enter => {
                        if self.command.unicode_len() == 0 {
                            if elevated {
                                self.elevated = false;
                                MenuEffect::LeaveManagement
                            } else {
                                MenuEffect::Logout
                            }
                        } else {
                            let cmd = self.command.clone();
                            self.command = String::new();
                            if elevated {
                                MenuEffect::BuyIn(cmd)
                            } else {
                                MenuEffect::Purchase(cmd)
                            }
                        }
                    },
                    KeyCode::Other => MenuEffect::Wait,
                }
            },
            RecvOutcome::Received(InputEvent::Terminal(TerminalEvent::Other)) => MenuEffect::Wait,
        }
    }
}

} // verus!
