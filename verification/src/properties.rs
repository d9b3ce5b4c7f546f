use vstd::prelude::*;

use crate::TimeoutResult;
use crate::flow::{
    count_field_step, find_category, money_field_step, spec_category_listed, stock_field_step,
    FieldStep, StockFieldStep,
};
use crate::money::{
    spec_money_shape, spec_money_value, spec_new_stock, spec_stock_delta_shape,
    spec_suggested_price, suggested_sell_price,
};
use crate::rv_api::{ApiResult, ProductCategory};

verus! {

/// Everything the backend needs to overwrite a product.
pub struct UpdateProductRequest {
    pub barcode: String,
    pub name: String,
    pub category_id: i32,
    pub buy_price: i32,
    pub sell_price: i32,
    pub stock: i32,
}

/// Where the change-product-properties flow stands.
#[derive(Clone, Copy, Debug, PartialEq, Eq, Structural)]
pub enum ChangeProductState {
    EnterName,
    EnterBuyPrice,
    AwaitMargin,
    EnterSellPrice,
    EnterStock,
    EnterCategory,
    Submitting,
    Finished,
}

/// What the surrounding loop must do after one change-product step.
pub enum ChangeProductEffect {
    AskBuyPrice,
    FetchMargin,
    AskSellPrice,
    AskStock,
    AskCategory,
    RetryPrice,
    RetryStock,
    RetryCategory,
    TimedOutAbort,
    PriceOutOfRange,
    Submit(UpdateProductRequest),
    Updated,
}

/// The change-product-properties flow: every field starts from the
/// product's current value and an empty answer keeps it; a changed buy
/// price suggests the sell price from the configured margin; malformed
/// answers re-prompt; any expired wait aborts the whole flow.
pub struct ChangeProductMachine {
    pub state: ChangeProductState,
    pub barcode: String,
    pub name: String,
    pub buy_price: i32,
    pub sell_price: i32,
    pub stock: i32,
    pub category_id: i32,
    pub buy_price_changed: bool,
}

impl ChangeProductMachine {
    /// Starts editing the product under `barcode` from its current
    /// fields, at the name prompt.
    pub fn new(
        barcode: String,
        name: String,
        buy_price: i32,
        sell_price: i32,
        stock: i32,
        category_id: i32,
    ) -> (m: Self)
        ensures
            m.state == ChangeProductState::EnterName,
            m.barcode == barcode,
            m.name == name,
            m.buy_price == buy_price,
            m.sell_price == sell_price,
            m.stock == stock,
            m.category_id == category_id,
            !m.buy_price_changed,
    {
        ChangeProductMachine {
            state: ChangeProductState::EnterName,
            barcode,
            name,
            buy_price,
            sell_price,
            stock,
            category_id,
            buy_price_changed: false,
        }
    }

    /// Takes the name answer: empty keeps the current name, anything
    /// else replaces it.
    pub fn on_name(&mut self, line: TimeoutResult<String>) -> (r: ChangeProductEffect)
        requires
            old(self).state == ChangeProductState::EnterName,
        ensures
            final(self).barcode == old(self).barcode,
            final(self).buy_price == old(self).buy_price,
            final(self).sell_price == old(self).sell_price,
            final(self).stock == old(self).stock,
            final(self).category_id == old(self).category_id,
            final(self).buy_price_changed == old(self).buy_price_changed,
            match line {
                TimeoutResult::TIMEOUT => final(self).state == ChangeProductState::Finished && r
                    is TimedOutAbort,
                TimeoutResult::RESULT(s) => final(self).state == ChangeProductState::EnterBuyPrice
                    && r is AskBuyPrice && (if s@.len() == 0 {
                    final(self).name == old(self).name
                } else {
                    final(self).name == s
                }),
            },
    {
        match line {
            TimeoutResult::TIMEOUT => {
                self.state = ChangeProductState::Finished;
                ChangeProductEffect::TimedOutAbort
            },
            TimeoutResult::RESULT(s) => {
                if s.unicode_len() > 0 {
                    self.name = s;
                }
                self.state = ChangeProductState::EnterBuyPrice;
                ChangeProductEffect::AskBuyPrice
            },
        }
    }

    /// Takes the buy price answer: empty keeps the current price, a
    /// well-formed amount that fits replaces it (the margin must be
    /// fetched next), anything else re-prompts.
    pub fn on_buy_price(&mut self, line: &TimeoutResult<String>) -> (r: ChangeProductEffect)
        requires
            old(self).state == ChangeProductState::EnterBuyPrice,
        ensures
            final(self).barcode == old(self).barcode,
            final(self).name == old(self).name,
            final(self).sell_price == old(self).sell_price,
            final(self).stock == old(self).stock,
            final(self).category_id == old(self).category_id,
            match line {
                TimeoutResult::TIMEOUT => final(self).state == ChangeProductState::Finished && r
                    is TimedOutAbort,
                TimeoutResult::RESULT(s) => if s@.len() == 0 {
                    final(self).state == ChangeProductState::EnterSellPrice && final(self).buy_price == old(self).buy_price && !final(self).buy_price_changed && r
                        is AskSellPrice
                } else if spec_money_shape(s@) && spec_money_value(s@) <= i32::MAX {
                    final(self).state == ChangeProductState::AwaitMargin && final(self).buy_price
                        == spec_money_value(s@) && final(self).buy_price_changed && r
                        is FetchMargin
                } else {
                    final(self).state == old(self).state && final(self).buy_price == old(self).buy_price && final(self).buy_price_changed == old(self).buy_price_changed
                        && r is RetryPrice
                },
            },
    {
        match money_field_step(line) {
            FieldStep::TimedOut => {
                self.state = ChangeProductState::Finished;
                ChangeProductEffect::TimedOutAbort
            },
            FieldStep::Empty => {
                self.buy_price_changed = false;
                self.state = ChangeProductState::EnterSellPrice;
                ChangeProductEffect::AskSellPrice
            },
            FieldStep::Value(v) => {
                if v <= 0x7fff_ffffu32 {
                    self.buy_price = v as i32;
                    self.buy_price_changed = true;
                    self.state = ChangeProductState::AwaitMargin;
                    ChangeProductEffect::FetchMargin
                } else {
                    ChangeProductEffect::RetryPrice
                }
            },
            FieldStep::Invalid => ChangeProductEffect::RetryPrice,
        }
    }

    /// Takes the configured margin after a changed buy price and
    /// suggests the sell price; a suggestion that does not fit aborts
    /// the flow.
    pub fn on_margin(&mut self, margin_centibp: u32) -> (r: ChangeProductEffect)
        requires
            old(self).state == ChangeProductState::AwaitMargin,
            old(self).buy_price >= 0,
            margin_centibp <= 1_000_000,
        ensures
            final(self).barcode == old(self).barcode,
            final(self).name == old(self).name,
            final(self).buy_price == old(self).buy_price,
            final(self).stock == old(self).stock,
            final(self).category_id == old(self).category_id,
            final(self).buy_price_changed == old(self).buy_price_changed,
            ({
                let suggestion = spec_suggested_price(
                    old(self).buy_price as int,
                    margin_centibp as int,
                );
                if suggestion <= i32::MAX {
                    final(self).state == ChangeProductState::EnterSellPrice && final(self).sell_price == suggestion && r is AskSellPrice
                } else {
                    final(self).state == ChangeProductState::Finished && r is PriceOutOfRange
                }
            }),
    {
        match suggested_sell_price(self.buy_price as u32, margin_centibp) {
            Some(v) if v <= 0x7fff_ffffu32 => {
                self.sell_price = v as i32;
                self.state = ChangeProductState::EnterSellPrice;
                ChangeProductEffect::AskSellPrice
            },
            _ => {
                self.state = ChangeProductState::Finished;
                ChangeProductEffect::PriceOutOfRange
            },
        }
    }

    /// Takes the sell price answer: empty keeps the suggested (or
    /// current) price, a well-formed amount that fits replaces it,
    /// anything else re-prompts.
    pub fn on_sell_price(&mut self, line: &TimeoutResult<String>) -> (r: ChangeProductEffect)
        requires
            old(self).state == ChangeProductState::EnterSellPrice,
        ensures
            final(self).barcode == old(self).barcode,
            final(self).name == old(self).name,
            final(self).buy_price == old(self).buy_price,
            final(self).stock == old(self).stock,
            final(self).category_id == old(self).category_id,
            final(self).buy_price_changed == old(self).buy_price_changed,
            match line {
                TimeoutResult::TIMEOUT => final(self).state == ChangeProductState::Finished && r
                    is TimedOutAbort,
                TimeoutResult::RESULT(s) => if s@.len() == 0 {
                    final(self).state == ChangeProductState::EnterStock && final(self).sell_price
                        == old(self).sell_price && r is AskStock
                } else if spec_money_shape(s@) && spec_money_value(s@) <= i32::MAX {
                    final(self).state == ChangeProductState::EnterStock && final(self).sell_price
                        == spec_money_value(s@) && r is AskStock
                } else {
                    final(self).state == old(self).state && final(self).sell_price == old(self).sell_price && r is RetryPrice
                },
            },
    {
        match money_field_step(line) {
            FieldStep::TimedOut => {
                self.state = ChangeProductState::Finished;
                ChangeProductEffect::TimedOutAbort
            },
            FieldStep::Empty => {
                self.state = ChangeProductState::EnterStock;
                ChangeProductEffect::AskStock
            },
            FieldStep::Value(v) => {
                if v <= 0x7fff_ffffu32 {
                    self.sell_price = v as i32;
                    self.state = ChangeProductState::EnterStock;
                    ChangeProductEffect::AskStock
                } else {
                    ChangeProductEffect::RetryPrice
                }
            },
            FieldStep::Invalid => ChangeProductEffect::RetryPrice,
        }
    }

    /// Takes the stock answer: empty keeps the current stock, `+n`
    /// increments it, a plain or negative number replaces it, anything
    /// else re-prompts.
    pub fn on_stock(&mut self, line: &TimeoutResult<String>) -> (r: ChangeProductEffect)
        requires
            old(self).state == ChangeProductState::EnterStock,
        ensures
            final(self).barcode == old(self).barcode,
            final(self).name == old(self).name,
            final(self).buy_price == old(self).buy_price,
            final(self).sell_price == old(self).sell_price,
            final(self).category_id == old(self).category_id,
            final(self).buy_price_changed == old(self).buy_price_changed,
            match line {
                TimeoutResult::TIMEOUT => final(self).state == ChangeProductState::Finished && r
                    is TimedOutAbort,
                TimeoutResult::RESULT(s) => if s@.len() == 0 {
                    final(self).state == ChangeProductState::EnterCategory && final(self).stock
                        == old(self).stock && r is AskCategory
                } else if spec_stock_delta_shape(s@) && i32::MIN <= spec_new_stock(
                    old(self).stock as int,
                    s@,
                ) <= i32::MAX {
                    final(self).state == ChangeProductState::EnterCategory && final(self).stock
                        == spec_new_stock(old(self).stock as int, s@) && r is AskCategory
                } else {
                    final(self).state == old(self).state && final(self).stock == old(self).stock
                        && r is RetryStock
                },
            },
    {
        match stock_field_step(self.stock, line) {
            StockFieldStep::TimedOut => {
                self.state = ChangeProductState::Finished;
                ChangeProductEffect::TimedOutAbort
            },
            StockFieldStep::Empty => {
                self.state = ChangeProductState::EnterCategory;
                ChangeProductEffect::AskCategory
            },
            StockFieldStep::NewStock(v) => {
                self.stock = v;
                self.state = ChangeProductState::EnterCategory;
                ChangeProductEffect::AskCategory
            },
            StockFieldStep::Invalid => ChangeProductEffect::RetryStock,
        }
    }

    /// Takes the category answer against the listed categories: an
    /// empty answer keeps the current category, exactly a digit answer
    /// naming a listed identifier replaces it, and either submits the
    /// collected request; any other answer asks again.
    pub fn on_category(
        &mut self,
        line: &TimeoutResult<String>,
        categories: &Vec<ProductCategory>,
    ) -> (r: ChangeProductEffect)
        requires
            old(self).state == ChangeProductState::EnterCategory,
        ensures
            final(self).barcode == old(self).barcode,
            final(self).name == old(self).name,
            final(self).buy_price == old(self).buy_price,
            final(self).sell_price == old(self).sell_price,
            final(self).stock == old(self).stock,
            match line {
                TimeoutResult::TIMEOUT => final(self).state == ChangeProductState::Finished && r
                    is TimedOutAbort,
                TimeoutResult::RESULT(s) => if s@.len() == 0 {
                    final(self).state == ChangeProductState::Submitting && final(self).category_id
                        == old(self).category_id && spec_submits_current(*old(self), r)
                } else if crate::money::all_digits(s@) && crate::money::dec_value(s@) <= i32::MAX
                    && spec_category_listed(categories@, crate::money::dec_value(s@)) {
                    final(self).state == ChangeProductState::Submitting && final(self).category_id
                        as int == crate::money::dec_value(s@) && spec_submits_current(
                        ChangeProductMachine {
                            category_id: final(self).category_id,
                            ..*old(self)
                        },
                        r,
                    )
                } else {
                    final(self).state == old(self).state && final(self).category_id == old(self).category_id && r is RetryCategory
                },
            },
    {
        match count_field_step(line) {
            FieldStep::TimedOut => {
                self.state = ChangeProductState::Finished;
                return ChangeProductEffect::TimedOutAbort;
            },
            FieldStep::Empty => {
                self.state = ChangeProductState::Submitting;
                return ChangeProductEffect::Submit(
                    UpdateProductRequest {
                        barcode: self.barcode.clone(),
                        name: self.name.clone(),
                        category_id: self.category_id,
                        buy_price: self.buy_price,
                        sell_price: self.sell_price,
                        stock: self.stock,
                    },
                );
            },
            FieldStep::Value(v) => {
                if v <= 0x7fff_ffffu32 {
                    match find_category(categories, v as i32) {
                        Some(i) => {
                            self.category_id = categories[i].category_id;
                            self.state = ChangeProductState::Submitting;
                            ChangeProductEffect::Submit(
                                UpdateProductRequest {
                                    barcode: self.barcode.clone(),
                                    name: self.name.clone(),
                                    category_id: self.category_id,
                                    buy_price: self.buy_price,
                                    sell_price: self.sell_price,
                                    stock: self.stock,
                                },
                            )
                        },
                        None => ChangeProductEffect::RetryCategory,
                    }
                } else {
                    ChangeProductEffect::RetryCategory
                }
            },
            FieldStep::Invalid => ChangeProductEffect::RetryCategory,
        }
    }

    /// The backend accepted the update; the flow is over.
    pub fn on_submitted(&mut self) -> (r: ChangeProductEffect)
        requires
            old(self).state == ChangeProductState::Submitting,
        ensures
            final(self).state == ChangeProductState::Finished,
            r is Updated,
    {
        self.state = ChangeProductState::Finished;
        ChangeProductEffect::Updated
    }
}

/// The effect submits exactly the fields the machine holds.
pub open spec fn spec_submits_current(m: ChangeProductMachine, r: ChangeProductEffect) -> bool {
    match r {
        ChangeProductEffect::Submit(req) => req.barcode == m.barcode && req.name == m.name
            && req.category_id == m.category_id && req.buy_price == m.buy_price && req.sell_price
            == m.sell_price && req.stock == m.stock,
        _ => false,
    }
}

/// Everything the backend needs to overwrite a box.
pub struct UpdateBoxRequest {
    pub box_barcode: String,
    pub items_per_box: i32,
    pub product_barcode: String,
}

/// Where the change-box-properties flow stands.
#[derive(Clone, Copy, Debug, PartialEq, Eq, Structural)]
pub enum ChangeBoxState {
    EnterProductBarcode,
    CheckingProduct,
    CheckingBox,
    CreatingProduct,
    EnterItemsPerBox,
    Submitting,
    Finished,
}

/// What the surrounding loop must do after one change-box step.
pub enum ChangeBoxEffect {
    CheckProduct(String),
    CheckBox(String),
    StartNewProduct(String),
    AskItemsPerBox,
    RetryItems,
    BoxExistsAbort,
    CreateFailedAbort,
    TimedOutAbort,
    Submit(UpdateBoxRequest),
    Updated,
    UpdateFailed(String),
}

/// The change-box-properties flow: an empty barcode answer keeps the
/// contained product; a new barcode is bound only after the backend
/// confirms a product carries it (creating one if nothing does, and
/// refusing a barcode that names another box); then the item count per
/// box, an empty answer keeping the current one; then the update.
pub struct ChangeBoxMachine {
    pub state: ChangeBoxState,
    pub box_barcode: String,
    pub product_barcode: String,
    pub items_per_box: i32,
    pub pending_barcode: String,
}

impl ChangeBoxMachine {
    /// Starts editing the box under `box_barcode` from its current
    /// product and item count, at the product-barcode prompt.
    pub fn new(box_barcode: String, product_barcode: String, items_per_box: i32) -> (m: Self)
        ensures
            m.state == ChangeBoxState::EnterProductBarcode,
            m.box_barcode == box_barcode,
            m.product_barcode == product_barcode,
            m.items_per_box == items_per_box,
    {
        ChangeBoxMachine {
            state: ChangeBoxState::EnterProductBarcode,
            box_barcode,
            product_barcode,
            items_per_box,
            pending_barcode: String::new(),
        }
    }

    /// Takes the product-barcode answer: empty keeps the current
    /// product, anything else must first be confirmed by a product
    /// lookup.
    pub fn on_barcode(&mut self, line: TimeoutResult<String>) -> (r: ChangeBoxEffect)
        requires
            old(self).state == ChangeBoxState::EnterProductBarcode,
        ensures
            final(self).box_barcode == old(self).box_barcode,
            final(self).items_per_box == old(self).items_per_box,
            match line {
                TimeoutResult::TIMEOUT => final(self).state == ChangeBoxState::Finished && r
                    is TimedOutAbort,
                TimeoutResult::RESULT(s) => if s@.len() == 0 {
                    final(self).state == ChangeBoxState::EnterItemsPerBox && final(self).product_barcode == old(self).product_barcode && r is AskItemsPerBox
                } else {
                    final(self).state == ChangeBoxState::CheckingProduct && final(self).product_barcode == old(self).product_barcode && final(self).pending_barcode
                        == s && (match r {
                        ChangeBoxEffect::CheckProduct(b) => b == s,
                        _ => false,
                    })
                },
            },
    {
        match line {
            TimeoutResult::TIMEOUT => {
                self.state = ChangeBoxState::Finished;
                ChangeBoxEffect::TimedOutAbort
            },
            TimeoutResult::RESULT(s) => {
                if s.unicode_len() == 0 {
                    self.state = ChangeBoxState::EnterItemsPerBox;
                    ChangeBoxEffect::AskItemsPerBox
                } else {
                    self.pending_barcode = s.clone();
                    self.state = ChangeBoxState::CheckingProduct;
                    ChangeBoxEffect::CheckProduct(s)
                }
            },
        }
    }

    /// Takes the product lookup's answer: a product carrying the
    /// answered barcode binds it; otherwise the barcode must be checked
    /// against the boxes.
    pub fn on_product_check(&mut self, found: bool) -> (r: ChangeBoxEffect)
        requires
            old(self).state == ChangeBoxState::CheckingProduct,
        ensures
            final(self).box_barcode == old(self).box_barcode,
            final(self).items_per_box == old(self).items_per_box,
            final(self).pending_barcode == old(self).pending_barcode,
            found ==> final(self).state == ChangeBoxState::EnterItemsPerBox && final(self).product_barcode == old(self).pending_barcode && r is AskItemsPerBox,
            !found ==> final(self).state == ChangeBoxState::CheckingBox && final(self).product_barcode == old(self).product_barcode && (match r {
                ChangeBoxEffect::CheckBox(b) => b == old(self).pending_barcode,
                _ => false,
            }),
    {
        if found {
            self.product_barcode = self.pending_barcode.clone();
            self.state = ChangeBoxState::EnterItemsPerBox;
            ChangeBoxEffect::AskItemsPerBox
        } else {
            self.state = ChangeBoxState::CheckingBox;
            ChangeBoxEffect::CheckBox(self.pending_barcode.clone())
        }
    }

    /// Takes the box lookup's answer: a barcode already naming a box is
    /// refused; otherwise a product is created under it.
    pub fn on_box_check(&mut self, found: bool) -> (r: ChangeBoxEffect)
        requires
            old(self).state == ChangeBoxState::CheckingBox,
        ensures
            final(self).box_barcode == old(self).box_barcode,
            final(self).items_per_box == old(self).items_per_box,
            final(self).product_barcode == old(self).product_barcode,
            final(self).pending_barcode == old(self).pending_barcode,
            found ==> final(self).state == ChangeBoxState::Finished && r is BoxExistsAbort,
            !found ==> final(self).state == ChangeBoxState::CreatingProduct && (match r {
                ChangeBoxEffect::StartNewProduct(b) => b == old(self).pending_barcode,
                _ => false,
            }),
    {
        if found {
            self.state = ChangeBoxState::Finished;
            ChangeBoxEffect::BoxExistsAbort
        } else {
            self.state = ChangeBoxState::CreatingProduct;
            ChangeBoxEffect::StartNewProduct(self.pending_barcode.clone())
        }
    }

    /// Takes whether the created product now answers to the barcode: if
    /// it does, the barcode is bound; if not, the flow aborts.
    pub fn on_product_created(&mut self, exists_now: bool) -> (r: ChangeBoxEffect)
        requires
            old(self).state == ChangeBoxState::CreatingProduct,
        ensures
            final(self).box_barcode == old(self).box_barcode,
            final(self).items_per_box == old(self).items_per_box,
            exists_now ==> final(self).state == ChangeBoxState::EnterItemsPerBox && final(self).product_barcode == old(self).pending_barcode && r is AskItemsPerBox,
            !exists_now ==> final(self).state == ChangeBoxState::Finished && final(self).product_barcode == old(self).product_barcode && r is CreateFailedAbort,
    {
        if exists_now {
            self.product_barcode = self.pending_barcode.clone();
            self.state = ChangeBoxState::EnterItemsPerBox;
            ChangeBoxEffect::AskItemsPerBox
        } else {
            self.state = ChangeBoxState::Finished;
            ChangeBoxEffect::CreateFailedAbort
        }
    }

    /// Takes the items-per-box answer: empty keeps the current count, a
    /// digit answer that fits replaces it, and either submits the
    /// update; anything else asks again.
    pub fn on_items(&mut self, line: &TimeoutResult<String>) -> (r: ChangeBoxEffect)
        requires
            old(self).state == ChangeBoxState::EnterItemsPerBox,
        ensures
            final(self).box_barcode == old(self).box_barcode,
            final(self).product_barcode == old(self).product_barcode,
            match line {
                TimeoutResult::TIMEOUT => final(self).state == ChangeBoxState::Finished && r
                    is TimedOutAbort,
                TimeoutResult::RESULT(s) => if s@.len() == 0 {
                    final(self).state == ChangeBoxState::Submitting && final(self).items_per_box
                        == old(self).items_per_box && spec_submits_box(*final(self), r)
                } else if crate::money::all_digits(s@) && crate::money::dec_value(s@)
                    <= i32::MAX {
                    final(self).state == ChangeBoxState::Submitting && final(self).items_per_box
                        as int == crate::money::dec_value(s@) && spec_submits_box(
                        *final(self),
                        r,
                    )
                } else {
                    final(self).state == old(self).state && final(self).items_per_box == old(self).items_per_box && r is RetryItems
                },
            },
    {
        match count_field_step(line) {
            FieldStep::TimedOut => {
                self.state = ChangeBoxState::Finished;
                return ChangeBoxEffect::TimedOutAbort;
            },
            FieldStep::Empty => {},
            FieldStep::Value(v) => {
                if v <= 0x7fff_ffffu32 {
                    self.items_per_box = v as i32;
                } else {
                    return ChangeBoxEffect::RetryItems;
                }
            },
            FieldStep::Invalid => {
                return ChangeBoxEffect::RetryItems;
            },
        }
        self.state = ChangeBoxState::Submitting;
        ChangeBoxEffect::Submit(
            UpdateBoxRequest {
                box_barcode: self.box_barcode.clone(),
                items_per_box: self.items_per_box,
                product_barcode: self.product_barcode.clone(),
            },
        )
    }

    /// Takes the backend's answer to the submitted update and reports
    /// it; either way the flow is over.
    pub fn on_submit_result(&mut self, outcome: ApiResult) -> (r: ChangeBoxEffect)
        requires
            old(self).state == ChangeBoxState::Submitting,
        ensures
            final(self).state == ChangeBoxState::Finished,
            (match outcome {
                ApiResult::Success => r is Updated,
                ApiResult::Fail(m) => r matches ChangeBoxEffect::UpdateFailed(got) && got == m,
            }),
    {
        self.state = ChangeBoxState::Finished;
        match outcome {
            ApiResult::Success => ChangeBoxEffect::Updated,
            ApiResult::Fail(m) => ChangeBoxEffect::UpdateFailed(m),
        }
    }
}

/// The effect submits exactly the box fields the machine holds.
pub open spec fn spec_submits_box(m: ChangeBoxMachine, r: ChangeBoxEffect) -> bool {
    match r {
        ChangeBoxEffect::Submit(req) => req.box_barcode == m.box_barcode && req.items_per_box
            == m.items_per_box && req.product_barcode == m.product_barcode,
        _ => false,
    }
}

} // verus!
