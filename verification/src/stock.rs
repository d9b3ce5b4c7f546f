use vstd::prelude::*;

use crate::TimeoutResult;
use crate::money::{
    spec_money_shape, spec_money_value, spec_suggested_price, suggested_sell_price,
};
use crate::flow::{count_field_step, find_category, money_field_step, FieldStep};
use crate::rv_api::ProductCategory;

verus! {

/// Everything the backend needs to create a product.
pub struct NewProductRequest {
    pub barcode: String,
    pub name: String,
    pub category_id: i32,
    pub buy_price: i32,
    pub sell_price: i32,
    pub stock: i32,
}

/// Where the create-a-product flow stands.
#[derive(Clone, Copy, Debug, PartialEq, Eq, Structural)]
pub enum NewProductState {
    EnterName,
    EnterBuyPrice,
    AwaitMargin,
    EnterSellPrice,
    EnterStock,
    EnterCategory,
    Submitting,
    Finished,
}

/// What the surrounding loop must do after one create-a-product step.
pub enum NewProductEffect {
    AskBuyPrice,
    FetchMargin,
    AskSellPrice(u32),
    AskStock,
    AskCategory,
    RetryPrice,
    RetryStock,
    RetryCategory,
    Cancelled,
    TimedOutAbort,
    PriceOutOfRange,
    Submit(NewProductRequest),
}

/// The create-a-product flow: a name, a validated buy price, a sell
/// price suggested from the configured margin, a stock figure with a
/// default of zero, and a category chosen from the listed ones. An
/// empty name or buy price cancels; any expired wait aborts; malformed
/// answers re-prompt.
pub struct NewProductMachine {
    pub state: NewProductState,
    pub barcode: String,
    pub name: String,
    pub buy_price: u32,
    pub sell_price: u32,
    pub suggested: u32,
    pub stock: u32,
}

impl NewProductMachine {
    /// Starts creating a product under `barcode`, at the name prompt.
    pub fn new(barcode: String) -> (m: Self)
        ensures
            m.state == NewProductState::EnterName,
            m.barcode == barcode,
    {
        NewProductMachine {
            state: NewProductState::EnterName,
            barcode,
            name: String::new(),
            buy_price: 0,
            sell_price: 0,
            suggested: 0,
            stock: 0,
        }
    }

    /// Takes the product name: empty cancels, anything else moves on to
    /// the buy price.
    pub fn on_name(&mut self, line: TimeoutResult<String>) -> (r: NewProductEffect)
        requires
            old(self).state == NewProductState::EnterName,
        ensures
            final(self).barcode == old(self).barcode,
            match line {
                TimeoutResult::TIMEOUT => final(self).state == NewProductState::Finished && r
                    is TimedOutAbort,
                TimeoutResult::RESULT(s) => if s@.len() == 0 {
                    final(self).state == NewProductState::Finished && r is Cancelled
                } else {
                    final(self).state == NewProductState::EnterBuyPrice && final(self).name == s
                        && r is AskBuyPrice
                },
            },
    {
        match line {
            TimeoutResult::TIMEOUT => {
                self.state = NewProductState::Finished;
                NewProductEffect::TimedOutAbort
            },
            TimeoutResult::RESULT(s) => {
                if s.unicode_len() == 0 {
                    self.state = NewProductState::Finished;
                    NewProductEffect::Cancelled
                } else {
                    self.name = s;
                    self.state = NewProductState::EnterBuyPrice;
                    NewProductEffect::AskBuyPrice
                }
            },
        }
    }

    /// Takes the buy price answer: empty cancels, a well-formed amount
    /// that fits moves on (the margin must be fetched next), anything
    /// else re-prompts.
    pub fn on_buy_price(&mut self, line: &TimeoutResult<String>) -> (r: NewProductEffect)
        requires
            old(self).state == NewProductState::EnterBuyPrice,
        ensures
            final(self).barcode == old(self).barcode,
            final(self).name == old(self).name,
            match line {
                TimeoutResult::TIMEOUT => final(self).state == NewProductState::Finished && r
                    is TimedOutAbort,
                TimeoutResult::RESULT(s) => if s@.len() == 0 {
                    final(self).state == NewProductState::Finished && r is Cancelled
                } else if spec_money_shape(s@) && spec_money_value(s@) <= i32::MAX {
                    final(self).state == NewProductState::AwaitMargin && final(self).buy_price
                        == spec_money_value(s@) && r is FetchMargin
                } else {
                    final(self).state == old(self).state && r is RetryPrice
                },
            },
    {
        match money_field_step(line) {
            FieldStep::TimedOut => {
                self.state = NewProductState::Finished;
                NewProductEffect::TimedOutAbort
            },
            FieldStep::Empty => {
                self.state = NewProductState::Finished;
                NewProductEffect::Cancelled
            },
            FieldStep::Value(v) => {
                if v <= 0x7fff_ffffu32 {
                    self.buy_price = v;
                    self.state = NewProductState::AwaitMargin;
                    NewProductEffect::FetchMargin
                } else {
                    NewProductEffect::RetryPrice
                }
            },
            FieldStep::Invalid => NewProductEffect::RetryPrice,
        }
    }

    /// Takes the configured margin and computes the suggested sell
    /// price; a suggestion that does not fit aborts the flow.
    pub fn on_margin(&mut self, margin_centibp: u32) -> (r: NewProductEffect)
        requires
            old(self).state == NewProductState::AwaitMargin,
            margin_centibp <= 1_000_000,
        ensures
            final(self).barcode == old(self).barcode,
            final(self).name == old(self).name,
            final(self).buy_price == old(self).buy_price,
            ({
                let suggestion = spec_suggested_price(
                    old(self).buy_price as int,
                    margin_centibp as int,
                );
                if suggestion <= i32::MAX {
                    final(self).state == NewProductState::EnterSellPrice && final(self).suggested
                        == suggestion && (r matches NewProductEffect::AskSellPrice(v) && v
                        == suggestion)
                } else {
                    final(self).state == NewProductState::Finished && r is PriceOutOfRange
                }
            }),
    {
        match suggested_sell_price(self.buy_price, margin_centibp) {
            Some(v) if v <= 0x7fff_ffffu32 => {
                self.suggested = v;
                self.state = NewProductState::EnterSellPrice;
                NewProductEffect::AskSellPrice(v)
            },
            _ => {
                self.state = NewProductState::Finished;
                NewProductEffect::PriceOutOfRange
            },
        }
    }

    /// Takes the sell price answer: empty accepts the suggestion, a
    /// well-formed amount that fits is taken verbatim, anything else
    /// re-prompts.
    pub fn on_sell_price(&mut self, line: &TimeoutResult<String>) -> (r: NewProductEffect)
        requires
            old(self).state == NewProductState::EnterSellPrice,
        ensures
            final(self).barcode == old(self).barcode,
            final(self).name == old(self).name,
            final(self).buy_price == old(self).buy_price,
            final(self).suggested == old(self).suggested,
            match line {
                TimeoutResult::TIMEOUT => final(self).state == NewProductState::Finished && r
                    is TimedOutAbort,
                TimeoutResult::RESULT(s) => if s@.len() == 0 {
                    final(self).state == NewProductState::EnterStock && final(self).sell_price
                        == old(self).suggested && r is AskStock
                } else if spec_money_shape(s@) && spec_money_value(s@) <= i32::MAX {
                    final(self).state == NewProductState::EnterStock && final(self).sell_price
                        == spec_money_value(s@) && r is AskStock
                } else {
                    final(self).state == old(self).state && r is RetryPrice
                },
            },
    {
        match money_field_step(line) {
            FieldStep::TimedOut => {
                self.state = NewProductState::Finished;
                NewProductEffect::TimedOutAbort
            },
            FieldStep::Empty => {
                self.sell_price = self.suggested;
                self.state = NewProductState::EnterStock;
                NewProductEffect::AskStock
            },
            FieldStep::Value(v) => {
                if v <= 0x7fff_ffffu32 {
                    self.sell_price = v;
                    self.state = NewProductState::EnterStock;
                    NewProductEffect::AskStock
                } else {
                    NewProductEffect::RetryPrice
                }
            },
            FieldStep::Invalid => NewProductEffect::RetryPrice,
        }
    }

    /// Takes the stock answer: empty keeps the default of zero.
    pub fn on_stock(&mut self, line: &TimeoutResult<String>) -> (r: NewProductEffect)
        requires
            old(self).state == NewProductState::EnterStock,
        ensures
            final(self).barcode == old(self).barcode,
            final(self).name == old(self).name,
            final(self).buy_price == old(self).buy_price,
            final(self).sell_price == old(self).sell_price,
            match line {
                TimeoutResult::TIMEOUT => final(self).state == NewProductState::Finished && r
                    is TimedOutAbort,
                TimeoutResult::RESULT(s) => if s@.len() == 0 {
                    final(self).state == NewProductState::EnterCategory && final(self).stock == 0
                        && r is AskCategory
                } else if crate::money::all_digits(s@) && crate::money::dec_value(s@) <= i32::MAX {
                    final(self).state == NewProductState::EnterCategory && final(self).stock
                        == crate::money::dec_value(s@) && r is AskCategory
                } else {
                    final(self).state == old(self).state && r is RetryStock
                },
            },
    {
        match count_field_step(line) {
            FieldStep::TimedOut => {
                self.state = NewProductState::Finished;
                NewProductEffect::TimedOutAbort
            },
            FieldStep::Empty => {
                self.stock = 0;
                self.state = NewProductState::EnterCategory;
                NewProductEffect::AskCategory
            },
            FieldStep::Value(v) => {
                if v <= 0x7fff_ffffu32 {
                    self.stock = v;
                    self.state = NewProductState::EnterCategory;
                    NewProductEffect::AskCategory
                } else {
                    NewProductEffect::RetryStock
                }
            },
            FieldStep::Invalid => NewProductEffect::RetryStock,
        }
    }

    /// Takes the category answer against the listed categories: exactly
    /// a digit answer naming a listed identifier is accepted, and
    /// acceptance submits the collected request; any other answer asks
    /// again.
    pub fn on_category(
        &mut self,
        line: &TimeoutResult<String>,
        categories: &Vec<ProductCategory>,
    ) -> (r: NewProductEffect)
        requires
            old(self).state == NewProductState::EnterCategory,
            old(self).buy_price <= i32::MAX,
            old(self).sell_price <= i32::MAX,
            old(self).stock <= i32::MAX,
        ensures
            final(self).barcode == old(self).barcode,
            final(self).name == old(self).name,
            final(self).buy_price == old(self).buy_price,
            final(self).sell_price == old(self).sell_price,
            final(self).stock == old(self).stock,
            match line {
                TimeoutResult::TIMEOUT => final(self).state == NewProductState::Finished && r
                    is TimedOutAbort,
                TimeoutResult::RESULT(s) => if s@.len() > 0 && crate::money::all_digits(s@)
                    && crate::money::dec_value(s@) <= i32::MAX && crate::flow::spec_category_listed(
                    categories@,
                    crate::money::dec_value(s@),
                ) {
                    final(self).state == NewProductState::Submitting && (match r {
                        NewProductEffect::Submit(req) => req.barcode == old(self).barcode
                            && req.name == old(self).name && req.buy_price == old(self).buy_price
                            && req.sell_price == old(self).sell_price && req.stock == old(
                            self,
                        ).stock && req.category_id as int == crate::money::dec_value(s@),
                        _ => false,
                    })
                } else {
                    final(self).state == old(self).state && r is RetryCategory
                },
            },
    {
        let id = match count_field_step(line) {
            FieldStep::TimedOut => {
                self.state = NewProductState::Finished;
                return NewProductEffect::TimedOutAbort;
            },
            FieldStep::Value(v) => {
                if v <= 0x7fff_ffffu32 {
                    v as i32
                } else {
                    return NewProductEffect::RetryCategory;
                }
            },
            _ => {
                return NewProductEffect::RetryCategory;
            },
        };
        match find_category(categories, id) {
            Some(i) => {
                self.state = NewProductState::Submitting;
                NewProductEffect::Submit(
                    NewProductRequest {
                        barcode: self.barcode.clone(),
                        name: self.name.clone(),
                        category_id: categories[i].category_id,
                        buy_price: self.buy_price as i32,
                        sell_price: self.sell_price as i32,
                        stock: self.stock as i32,
                    },
                )
            },
            None => NewProductEffect::RetryCategory,
        }
    }
}

/// Everything the backend needs for one buy-in.
pub struct BuyInRequest {
    pub barcode: String,
    pub buy_price: i32,
    pub sell_price: i32,
    pub count: i32,
}

/// Where the buy-in flow stands.
#[derive(Clone, Copy, Debug, PartialEq, Eq, Structural)]
pub enum BuyInState {
    EnterBuyPrice,
    AwaitMargin,
    EnterSellPrice,
    EnterCount,
    Submitting,
    Finished,
}

/// What the surrounding loop must do after one buy-in step.
pub enum BuyInEffect {
    FetchMargin,
    AskSellPrice,
    AskCount,
    RetryPrice,
    RetryCount,
    NothingAdded,
    TimedOutAbort,
    PriceOutOfRange,
    Submit(BuyInRequest),
    Done(i32),
    Failed(String),
}

/// The buy-in flow for a product or a box of `items_per_box` products
/// (one, for a plain product): prices are entered for the whole unit
/// and held per item, empty answers keep the current price, a changed
/// buy price suggests the sell price from the configured margin, and a
/// count of zero adds nothing.
pub struct BuyInMachine {
    pub state: BuyInState,
    pub barcode: String,
    pub items_per_box: i32,
    pub buy_price: i32,
    pub sell_price: i32,
    pub buy_price_changed: bool,
    pub count: i32,
    pub empty_count_is_zero: bool,
}

impl BuyInMachine {
    /// Starts a buy-in under `barcode` from the current prices.
    /// `empty_count_is_zero` says whether an empty count answer means
    /// zero (as for boxes) or asks again (as for plain products).
    pub fn new(
        barcode: String,
        items_per_box: i32,
        buy_price: i32,
        sell_price: i32,
        empty_count_is_zero: bool,
    ) -> (m: Self)
        requires
            items_per_box >= 1,
        ensures
            m.state == BuyInState::EnterBuyPrice,
            m.barcode == barcode,
            m.items_per_box == items_per_box,
            m.buy_price == buy_price,
            m.sell_price == sell_price,
            !m.buy_price_changed,
            m.empty_count_is_zero == empty_count_is_zero,
    {
        BuyInMachine {
            state: BuyInState::EnterBuyPrice,
            barcode,
            items_per_box,
            buy_price,
            sell_price,
            buy_price_changed: false,
            count: 0,
            empty_count_is_zero,
        }
    }

    /// Takes the unit buy price answer: empty keeps the current price,
    /// a well-formed amount that fits is divided across the items of
    /// the unit, anything else re-prompts.
    pub fn on_buy_price(&mut self, line: &TimeoutResult<String>) -> (r: BuyInEffect)
        requires
            old(self).state == BuyInState::EnterBuyPrice,
            old(self).items_per_box >= 1,
        ensures
            final(self).barcode == old(self).barcode,
            final(self).items_per_box == old(self).items_per_box,
            final(self).sell_price == old(self).sell_price,
            final(self).empty_count_is_zero == old(self).empty_count_is_zero,
            match line {
                TimeoutResult::TIMEOUT => final(self).state == BuyInState::Finished && r
                    is TimedOutAbort,
                TimeoutResult::RESULT(s) => if s@.len() == 0 {
                    final(self).state == BuyInState::EnterSellPrice && final(self).buy_price
                        == old(self).buy_price && !final(self).buy_price_changed && r
                        is AskSellPrice
                } else if spec_money_shape(s@) && spec_money_value(s@) <= i32::MAX {
                    final(self).state == BuyInState::AwaitMargin && final(self).buy_price
                        == spec_money_value(s@) / (old(self).items_per_box as int) && final(self).buy_price_changed && r is FetchMargin
                } else {
                    final(self).state == old(self).state && final(self).buy_price == old(self).buy_price && r is RetryPrice
                },
            },
    {
        match money_field_step(line) {
            FieldStep::TimedOut => {
                self.state = BuyInState::Finished;
                BuyInEffect::TimedOutAbort
            },
            FieldStep::Empty => {
                self.buy_price_changed = false;
                self.state = BuyInState::EnterSellPrice;
                BuyInEffect::AskSellPrice
            },
            FieldStep::Value(v) => {
                if v <= 0x7fff_ffffu32 {
                    self.buy_price = (v / (self.items_per_box as u32)) as i32;
                    self.buy_price_changed = true;
                    self.state = BuyInState::AwaitMargin;
                    BuyInEffect::FetchMargin
                } else {
                    BuyInEffect::RetryPrice
                }
            },
            FieldStep::Invalid => BuyInEffect::RetryPrice,
        }
    }

    /// Takes the configured margin after a changed buy price and
    /// suggests the per-item sell price; a suggestion that does not fit
    /// aborts the flow.
    pub fn on_margin(&mut self, margin_centibp: u32) -> (r: BuyInEffect)
        requires
            old(self).state == BuyInState::AwaitMargin,
            old(self).buy_price >= 0,
            margin_centibp <= 1_000_000,
        ensures
            final(self).barcode == old(self).barcode,
            final(self).items_per_box == old(self).items_per_box,
            final(self).buy_price == old(self).buy_price,
            final(self).buy_price_changed == old(self).buy_price_changed,
            ({
                let suggestion = spec_suggested_price(
                    old(self).buy_price as int,
                    margin_centibp as int,
                );
                if suggestion <= i32::MAX {
                    final(self).state == BuyInState::EnterSellPrice && final(self).sell_price
                        == suggestion && r is AskSellPrice
                } else {
                    final(self).state == BuyInState::Finished && r is PriceOutOfRange
                }
            }),
    {
        match suggested_sell_price(self.buy_price as u32, margin_centibp) {
            Some(v) if v <= 0x7fff_ffffu32 => {
                self.sell_price = v as i32;
                self.state = BuyInState::EnterSellPrice;
                BuyInEffect::AskSellPrice
            },
            _ => {
                self.state = BuyInState::Finished;
                BuyInEffect::PriceOutOfRange
            },
        }
    }

    /// Takes the unit sell price answer: empty keeps the suggested (or
    /// unchanged) price, a well-formed amount that fits is divided
    /// across the items of the unit, anything else re-prompts.
    pub fn on_sell_price(&mut self, line: &TimeoutResult<String>) -> (r: BuyInEffect)
        requires
            old(self).state == BuyInState::EnterSellPrice,
            old(self).items_per_box >= 1,
        ensures
            final(self).barcode == old(self).barcode,
            final(self).items_per_box == old(self).items_per_box,
            final(self).buy_price == old(self).buy_price,
            final(self).empty_count_is_zero == old(self).empty_count_is_zero,
            match line {
                TimeoutResult::TIMEOUT => final(self).state == BuyInState::Finished && r
                    is TimedOutAbort,
                TimeoutResult::RESULT(s) => if s@.len() == 0 {
                    final(self).state == BuyInState::EnterCount && final(self).sell_price == old(self).sell_price && r is AskCount
                } else if spec_money_shape(s@) && spec_money_value(s@) <= i32::MAX {
                    final(self).state == BuyInState::EnterCount && final(self).sell_price
                        == spec_money_value(s@) / (old(self).items_per_box as int) && r is AskCount
                } else {
                    final(self).state == old(self).state && final(self).sell_price == old(self).sell_price && r is RetryPrice
                },
            },
    {
        match money_field_step(line) {
            FieldStep::TimedOut => {
                self.state = BuyInState::Finished;
                BuyInEffect::TimedOutAbort
            },
            FieldStep::Empty => {
                self.state = BuyInState::EnterCount;
                BuyInEffect::AskCount
            },
            FieldStep::Value(v) => {
                if v <= 0x7fff_ffffu32 {
                    self.sell_price = (v / (self.items_per_box as u32)) as i32;
                    self.state = BuyInState::EnterCount;
                    BuyInEffect::AskCount
                } else {
                    BuyInEffect::RetryPrice
                }
            },
            FieldStep::Invalid => BuyInEffect::RetryPrice,
        }
    }

    /// Takes the unit count: zero (typed, or empty where empty means
    /// zero) ends the flow with nothing added; a positive count submits
    /// the collected request.
    pub fn on_count(&mut self, line: &TimeoutResult<String>) -> (r: BuyInEffect)
        requires
            old(self).state == BuyInState::EnterCount,
        ensures
            final(self).barcode == old(self).barcode,
            final(self).items_per_box == old(self).items_per_box,
            match line {
                TimeoutResult::TIMEOUT => final(self).state == BuyInState::Finished && r
                    is TimedOutAbort,
                TimeoutResult::RESULT(s) => if s@.len() == 0 && old(self).empty_count_is_zero {
                    final(self).state == BuyInState::Finished && r is NothingAdded
                } else if s@.len() > 0 && crate::money::all_digits(s@) && crate::money::dec_value(
                    s@,
                ) == 0 {
                    final(self).state == BuyInState::Finished && r is NothingAdded
                } else if s@.len() > 0 && crate::money::all_digits(s@) && crate::money::dec_value(
                    s@,
                ) <= i32::MAX {
                    final(self).state == BuyInState::Submitting && (match r {
                        BuyInEffect::Submit(req) => req.barcode == old(self).barcode
                            && req.buy_price == old(self).buy_price && req.sell_price == old(self).sell_price && req.count == crate::money::dec_value(s@) && final(self).count == req.count,
                        _ => false,
                    })
                } else {
                    final(self).state == old(self).state && r is RetryCount
                },
            },
    {
        match count_field_step(line) {
            FieldStep::TimedOut => {
                self.state = BuyInState::Finished;
                BuyInEffect::TimedOutAbort
            },
            FieldStep::Empty => {
                if self.empty_count_is_zero {
                    self.state = BuyInState::Finished;
                    BuyInEffect::NothingAdded
                } else {
                    BuyInEffect::RetryCount
                }
            },
            FieldStep::Value(v) => {
                if v == 0 {
                    self.state = BuyInState::Finished;
                    BuyInEffect::NothingAdded
                } else if v <= 0x7fff_ffffu32 {
                    self.count = v as i32;
                    self.state = BuyInState::Submitting;
                    BuyInEffect::Submit(
                        BuyInRequest {
                            barcode: self.barcode.clone(),
                            buy_price: self.buy_price,
                            sell_price: self.sell_price,
                            count: self.count,
                        },
                    )
                } else {
                    BuyInEffect::RetryCount
                }
            },
            FieldStep::Invalid => BuyInEffect::RetryCount,
        }
    }

    /// Takes the backend answer to the submitted buy-in and reports it;
    /// either way the flow is over.
    pub fn on_submit_result(&mut self, outcome: crate::rv_api::ApiResult) -> (r: BuyInEffect)
        requires
            old(self).state == BuyInState::Submitting,
        ensures
            final(self).state == BuyInState::Finished,
            (match outcome {
                crate::rv_api::ApiResult::Success => r matches BuyInEffect::Done(n) && n == old(self).count,
                crate::rv_api::ApiResult::Fail(m) => r matches BuyInEffect::Failed(got) && got
                    == m,
            }),
    {
        self.state = BuyInState::Finished;
        match outcome {
            crate::rv_api::ApiResult::Success => BuyInEffect::Done(self.count),
            crate::rv_api::ApiResult::Fail(m) => BuyInEffect::Failed(m),
        }
    }
}

} // verus!
