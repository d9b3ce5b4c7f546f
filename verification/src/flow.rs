use vstd::prelude::*;

use crate::TimeoutResult;
use crate::money::{
    all_digits, apply_stock_delta, dec_value, format_money, is_money_format, parse_money,
    parse_u32_digits, spec_money_shape, spec_money_value, spec_new_stock, spec_stock_delta_shape,
};
use crate::events::{InputEvent, KeyCode, RecvOutcome, TerminalEvent};
use crate::rv_api::ProductCategory;
use vstd::string::StringExecFns;

verus! {

/// How one answer to a validated numeric prompt is classified: the
/// wait expired, the answer was empty (take the suggested value), a
/// well-formed value, or a malformed answer (re-prompt).
pub enum FieldStep {
    TimedOut,
    Empty,
    Value(u32),
    Invalid,
}

/// Classifies one answer to a money prompt (`<digits>.<2 digits>`).
pub fn money_field_step(line: &TimeoutResult<String>) -> (r: FieldStep)
    ensures
        match line {
            TimeoutResult::TIMEOUT => r is TimedOut,
            TimeoutResult::RESULT(s) => {
                if s@.len() == 0 {
                    r is Empty
                } else if spec_money_shape(s@) && spec_money_value(s@) <= u32::MAX {
                    r matches FieldStep::Value(v) && v as int == spec_money_value(s@)
                } else {
                    r is Invalid
                }
            },
        },
{
    match line {
        TimeoutResult::TIMEOUT => FieldStep::TimedOut,
        TimeoutResult::RESULT(s) => {
            if s.unicode_len() == 0 {
                FieldStep::Empty
            } else {
                match parse_money(s.as_str()) {
                    Some(v) => FieldStep::Value(v),
                    None => FieldStep::Invalid,
                }
            }
        },
    }
}

/// Classifies one answer to a quantity prompt (`<digits>`).
pub fn count_field_step(line: &TimeoutResult<String>) -> (r: FieldStep)
    ensures
        match line {
            TimeoutResult::TIMEOUT => r is TimedOut,
            TimeoutResult::RESULT(s) => {
                if s@.len() == 0 {
                    r is Empty
                } else if all_digits(s@) && dec_value(s@) <= u32::MAX {
                    r matches FieldStep::Value(v) && v as int == dec_value(s@)
                } else {
                    r is Invalid
                }
            },
        },
{
    match line {
        TimeoutResult::TIMEOUT => FieldStep::TimedOut,
        TimeoutResult::RESULT(s) => {
            if s.unicode_len() == 0 {
                FieldStep::Empty
            } else {
                match parse_u32_digits(s.as_str()) {
                    Some(v) => FieldStep::Value(v),
                    None => FieldStep::Invalid,
                }
            }
        },
    }
}

/// Classifies one answer to a strictly positive count prompt: digits
/// with no leading zero, as the multi-quantity purchase asks.
pub fn positive_count_step(line: &TimeoutResult<String>) -> (r: FieldStep)
    ensures
        match line {
            TimeoutResult::TIMEOUT => r is TimedOut,
            TimeoutResult::RESULT(s) => {
                if s@.len() > 0 && all_digits(s@) && s@[0] != '0' && dec_value(s@) <= u32::MAX {
                    r matches FieldStep::Value(v) && v as int == dec_value(s@)
                } else {
                    r is Invalid
                }
            },
        },
{
    match line {
        TimeoutResult::TIMEOUT => FieldStep::TimedOut,
        TimeoutResult::RESULT(s) => {
            if !crate::money::is_count(s.as_str()) {
                FieldStep::Invalid
            } else {
                match parse_u32_digits(s.as_str()) {
                    Some(v) => FieldStep::Value(v),
                    None => FieldStep::Invalid,
                }
            }
        },
    }
}

/// How one answer to the stock prompt is classified.
pub enum StockFieldStep {
    TimedOut,
    Empty,
    NewStock(i32),
    Invalid,
}

/// Classifies one answer to the stock prompt: `+n` increments the
/// current stock, a plain or negative number replaces it, an empty
/// answer keeps it.
pub fn stock_field_step(current: i32, line: &TimeoutResult<String>) -> (r: StockFieldStep)
    ensures
        match line {
            TimeoutResult::TIMEOUT => r is TimedOut,
            TimeoutResult::RESULT(s) => {
                if s@.len() == 0 {
                    r is Empty
                } else if spec_stock_delta_shape(s@) && i32::MIN <= spec_new_stock(
                    current as int,
                    s@,
                ) <= i32::MAX {
                    r matches StockFieldStep::NewStock(v) && v as int == spec_new_stock(
                        current as int,
                        s@,
                    )
                } else {
                    r is Invalid
                }
            },
        },
{
    match line {
        TimeoutResult::TIMEOUT => StockFieldStep::TimedOut,
        TimeoutResult::RESULT(s) => {
            if s.unicode_len() == 0 {
                StockFieldStep::Empty
            } else {
                match apply_stock_delta(current, s.as_str()) {
                    Some(v) => StockFieldStep::NewStock(v),
                    None => StockFieldStep::Invalid,
                }
            }
        },
    }
}

/// Some listed category carries the wanted identifier.
pub open spec fn spec_category_listed(categories: Seq<ProductCategory>, id: int) -> bool {
    exists|j: int| 0 <= j < categories.len() && (#[trigger] categories[j]).category_id == id
}

/// The first listed category with the wanted identifier, if any: the
/// category prompt accepts an answer only when it names one.
pub fn find_category(categories: &Vec<ProductCategory>, id: i32) -> (r: Option<usize>)
    ensures
        match r {
            Some(i) => i < categories@.len() && categories@[i as int].category_id == id && forall|
                j: int,
            | 0 <= j < i ==> categories@[j].category_id != id,
            None => forall|j: int|
                0 <= j < categories@.len() ==> categories@[j].category_id != id,
        },
{
    let mut i: usize = 0;
    while i < categories.len()
        invariant
            0 <= i <= categories@.len(),
            forall|j: int| 0 <= j < i ==> categories@[j].category_id != id,
        decreases categories@.len() - i,
    {
        if categories[i].category_id == id {
            return Some(i);
        }
        i = i + 1;
    }
    None
}

/// Where the deposit sub-flow stands.
#[derive(Clone, Copy, Debug, PartialEq, Eq, Structural)]
pub enum DepositState {
    EnterAmount,
    ConfirmAmount,
    ChooseType,
    Submitting,
    Finished,
}

/// How the money arrived.
#[derive(Clone, Copy, Debug, PartialEq, Eq, Structural)]
pub enum DepositType {
    Cash,
    BankTransfer,
}

/// What the session loop must do after one deposit step.
pub enum DepositEffect {
    AskConfirm(u32),
    AskType,
    RetryAmount,
    RetryType,
    Submit(u32, DepositType),
    TooLargeAbort,
    CancelledAbort,
    MismatchAbort,
    TimedOutAbort,
    Done(u32),
}

/// The most that one deposit may move, in minor units.
pub const DEPOSIT_LIMIT_CENTS: u32 = 25000;

/// The deposit sub-flow: a validated amount (malformed answers
/// re-prompt), a retyped confirmation of the exact canonical amount,
/// the transfer kind, then the backend call. Every abort leaves
/// nothing committed.
pub struct DepositMachine {
    pub state: DepositState,
    pub amount: u32,
}

impl DepositMachine {
    pub fn new() -> (m: Self)
        ensures
            m.state == DepositState::EnterAmount,
    {
        DepositMachine { state: DepositState::EnterAmount, amount: 0 }
    }

    /// Takes the answer of the current deposit prompt.
    pub fn on_line(&mut self, line: &TimeoutResult<String>) -> (r: DepositEffect)
        requires
            old(self).state == DepositState::EnterAmount || old(self).state
                == DepositState::ConfirmAmount || old(self).state == DepositState::ChooseType,
            old(self).state != DepositState::EnterAmount ==> old(self).amount
                <= DEPOSIT_LIMIT_CENTS,
        ensures
            final(self).state == DepositState::ConfirmAmount || final(self).state
                == DepositState::ChooseType ==> final(self).amount <= DEPOSIT_LIMIT_CENTS,
            old(self).state != DepositState::EnterAmount ==> final(self).amount == old(
                self,
            ).amount,
            line is TIMEOUT ==> final(self).state == DepositState::Finished && r is TimedOutAbort,
            old(self).state == DepositState::EnterAmount ==> (match line {
                TimeoutResult::RESULT(s) => {
                    if !spec_money_shape(s@) {
                        final(self).state == DepositState::EnterAmount && r is RetryAmount
                    } else if spec_money_value(s@) > DEPOSIT_LIMIT_CENTS {
                        final(self).state == DepositState::Finished && r is TooLargeAbort
                    } else {
                        final(self).state == DepositState::ConfirmAmount && final(self).amount
                            == spec_money_value(s@) && (r matches DepositEffect::AskConfirm(a) && a
                            == final(self).amount)
                    }
                },
                TimeoutResult::TIMEOUT => true,
            }),
            old(self).state == DepositState::ConfirmAmount ==> (match line {
                TimeoutResult::RESULT(s) => {
                    if s@.len() == 0 {
                        final(self).state == DepositState::Finished && r is CancelledAbort
                    } else if s@ != crate::money::spec_format_money(old(self).amount as int) {
                        final(self).state == DepositState::Finished && r is MismatchAbort
                    } else {
                        final(self).state == DepositState::ChooseType && final(self).amount == old(
                            self,
                        ).amount && r is AskType
                    }
                },
                TimeoutResult::TIMEOUT => true,
            }),
            old(self).state == DepositState::ChooseType ==> (match line {
                TimeoutResult::RESULT(s) => {
                    if s@.len() == 0 {
                        final(self).state == DepositState::Finished && r is CancelledAbort
                    } else if s@ == "cash"@ {
                        final(self).state == DepositState::Submitting && (
                        r matches DepositEffect::Submit(a, t) && a == old(self).amount && t
                            == DepositType::Cash)
                    } else if s@ == "banktransfer"@ {
                        final(self).state == DepositState::Submitting && (
                        r matches DepositEffect::Submit(a, t) && a == old(self).amount && t
                            == DepositType::BankTransfer)
                    } else {
                        final(self).state == old(self).state && final(self).amount == old(
                            self,
                        ).amount && r is RetryType
                    }
                },
                TimeoutResult::TIMEOUT => true,
            }),
    {
        let s = match line {
            TimeoutResult::TIMEOUT => {
                self.state = DepositState::Finished;
                return DepositEffect::TimedOutAbort;
            },
            TimeoutResult::RESULT(s) => s,
        };
        match self.state {
            DepositState::EnterAmount => {
                if !is_money_format(s.as_str()) {
                    DepositEffect::RetryAmount
                } else {
                    match parse_money(s.as_str()) {
                        Some(v) => {
                            if v > DEPOSIT_LIMIT_CENTS {
                                self.state = DepositState::Finished;
                                DepositEffect::TooLargeAbort
                            } else {
                                self.amount = v;
                                self.state = DepositState::ConfirmAmount;
                                DepositEffect::AskConfirm(v)
                            }
                        },
                        None => {
                            self.state = DepositState::Finished;
                            DepositEffect::TooLargeAbort
                        },
                    }
                }
            },
            DepositState::ConfirmAmount => {
                if s.unicode_len() == 0 {
                    self.state = DepositState::Finished;
                    DepositEffect::CancelledAbort
                } else {
                    let canonical = format_money(&(self.amount as i32));
                    if *s == canonical {
                        self.state = DepositState::ChooseType;
                        DepositEffect::AskType
                    } else {
                        self.state = DepositState::Finished;
                        DepositEffect::MismatchAbort
                    }
                }
            },
            _ => {
                if s.unicode_len() == 0 {
                    self.state = DepositState::Finished;
                    DepositEffect::CancelledAbort
                } else if *s == String::from_str("cash") {
                    self.state = DepositState::Submitting;
                    DepositEffect::Submit(self.amount, DepositType::Cash)
                } else if *s == String::from_str("banktransfer") {
                    self.state = DepositState::Submitting;
                    DepositEffect::Submit(self.amount, DepositType::BankTransfer)
                } else {
                    DepositEffect::RetryType
                }
            },
        }
    }

    /// The backend accepted the deposit; report the amount moved.
    pub fn on_submitted(&mut self) -> (r: DepositEffect)
        requires
            old(self).state == DepositState::Submitting,
        ensures
            final(self).state == DepositState::Finished,
            r matches DepositEffect::Done(a) && a == old(self).amount,
    {
        self.state = DepositState::Finished;
        DepositEffect::Done(self.amount)
    }
}

/// How one answer pair to the password-change prompts is judged.
pub enum PasswordChangeDecision {
    EmptyPassword,
    Mismatch,
    Change,
}

/// Judges a password change: an empty password is refused, disagreeing
/// entries are refused, and only agreeing non-empty entries are sent.
pub fn evaluate_password_change(first: &String, second: &String) -> (r: PasswordChangeDecision)
    ensures
        first@.len() == 0 ==> r is EmptyPassword,
        first@.len() > 0 && first@ != second@ ==> r is Mismatch,
        first@.len() > 0 && first@ == second@ ==> r is Change,
{
    if first.unicode_len() == 0 {
        PasswordChangeDecision::EmptyPassword
    } else if *first == *second {
        PasswordChangeDecision::Change
    } else {
        PasswordChangeDecision::Mismatch
    }
}

/// What one bus outcome decides while waiting for a card to bind.
pub enum RfidChangeStep {
    Cancelled,
    Changed(String),
    TimedOut,
}

/// The card-binding wait: the terminator cancels, a scan binds that
/// card, an expired wait gives up; other keys keep waiting, and any
/// other terminal event cancels.
pub fn rfid_change_step(ev: &RecvOutcome) -> (r: Option<RfidChangeStep>)
    ensures
        match ev {
            RecvOutcome::TimedOut => r matches Some(s) && s is TimedOut,
            RecvOutcome::Received(InputEvent::Scan(text)) => (match r {
                Some(RfidChangeStep::Changed(got)) => got == text,
                _ => false,
            }),
            RecvOutcome::Received(InputEvent::Terminal(TerminalEvent::Key(k))) => if k
                == KeyCode::Enter {
                r matches Some(s) && s is Cancelled
            } else {
                r is None
            },
            RecvOutcome::Received(InputEvent::Terminal(TerminalEvent::Other)) => r matches Some(s)
                && s is Cancelled,
        },
{
    match ev {
        RecvOutcome::TimedOut => Some(RfidChangeStep::TimedOut),
        RecvOutcome::Received(InputEvent::Scan(text)) => Some(
            RfidChangeStep::Changed(text.clone()),
        ),
        RecvOutcome::Received(InputEvent::Terminal(TerminalEvent::Key(KeyCode::Enter))) => Some(
            RfidChangeStep::Cancelled,
        ),
        RecvOutcome::Received(InputEvent::Terminal(TerminalEvent::Key(_))) => None,
        RecvOutcome::Received(InputEvent::Terminal(TerminalEvent::Other)) => Some(
            RfidChangeStep::Cancelled,
        ),
    }
}

/// What the add-a-new-item prompt chooses.
pub enum NewItemChoice {
    Cancel,
    NewBox,
    NewProduct,
    TimedOut,
}

/// The box-or-product choice when a scanned barcode matches nothing:
/// the terminator cancels, `b` starts a box, `p` starts a product, an
/// expired wait aborts; everything else keeps waiting.
pub fn new_item_choice_step(ev: &RecvOutcome) -> (r: Option<NewItemChoice>)
    ensures
        match ev {
            RecvOutcome::TimedOut => r matches Some(c) && c is TimedOut,
            RecvOutcome::Received(InputEvent::Terminal(TerminalEvent::Key(k))) => match k {
                KeyCode::Enter => r matches Some(c) && c is Cancel,
                KeyCode::Char(ch) => if ch == 'b' || ch == 'B' {
                    r matches Some(c) && c is NewBox
                } else if ch == 'p' || ch == 'P' {
                    r matches Some(c) && c is NewProduct
                } else {
                    r is None
                },
                _ => r is None,
            },
            _ => r is None,
        },
{
    match ev {
        RecvOutcome::TimedOut => Some(NewItemChoice::TimedOut),
        RecvOutcome::Received(InputEvent::Terminal(TerminalEvent::Key(KeyCode::Enter))) => Some(
            NewItemChoice::Cancel,
        ),
        RecvOutcome::Received(InputEvent::Terminal(TerminalEvent::Key(KeyCode::Char(c)))) => {
            if *c == 'b' || *c == 'B' {
                Some(NewItemChoice::NewBox)
            } else if *c == 'p' || *c == 'P' {
                Some(NewItemChoice::NewProduct)
            } else {
                None
            }
        },
        _ => None,
    }
}

} // verus!
