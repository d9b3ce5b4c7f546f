use rvterminal::flow::{
    evaluate_password_change, find_category, money_field_step, new_item_choice_step,
    positive_count_step, rfid_change_step, stock_field_step, DepositEffect, DepositMachine,
    DepositState, DepositType, FieldStep, NewItemChoice, PasswordChangeDecision, RfidChangeStep,
    StockFieldStep,
};
use rvterminal::events::{InputEvent, KeyCode, RecvOutcome, TerminalEvent};
use rvterminal::properties::{
    ChangeBoxEffect, ChangeBoxMachine, ChangeBoxState, ChangeProductEffect, ChangeProductMachine,
    ChangeProductState,
};
use rvterminal::rv_api::{ApiResult, ProductCategory};
use rvterminal::stock::{
    BuyInEffect, BuyInMachine, NewProductEffect, NewProductMachine, NewProductState,
};
use rvterminal::TimeoutResult;

fn line(s: &str) -> TimeoutResult<String> {
    TimeoutResult::RESULT(s.to_string())
}

#[test]
fn field_steps_classify_answers() {
    assert!(matches!(money_field_step(&line("1.00")), FieldStep::Value(100)));
    assert!(matches!(money_field_step(&line("0.01")), FieldStep::Value(1)));
    assert!(matches!(money_field_step(&line("14.42")), FieldStep::Value(1442)));
    assert!(matches!(money_field_step(&line("")), FieldStep::Empty));
    assert!(matches!(money_field_step(&line("1,00")), FieldStep::Invalid));
    assert!(matches!(money_field_step(&TimeoutResult::TIMEOUT), FieldStep::TimedOut));

    assert!(matches!(positive_count_step(&line("12")), FieldStep::Value(12)));
    assert!(matches!(positive_count_step(&line("012")), FieldStep::Invalid));
    assert!(matches!(positive_count_step(&line("")), FieldStep::Invalid));

    assert!(matches!(stock_field_step(2, &line("+5")), StockFieldStep::NewStock(7)));
    assert!(matches!(stock_field_step(2, &line("-5")), StockFieldStep::NewStock(-5)));
    assert!(matches!(stock_field_step(2, &line("9")), StockFieldStep::NewStock(9)));
    assert!(matches!(stock_field_step(2, &line("")), StockFieldStep::Empty));
    assert!(matches!(stock_field_step(2, &line("x")), StockFieldStep::Invalid));
}

#[test]
fn categories_are_found_by_identifier() {
    let categories = vec![
        ProductCategory { category_id: 3, description: "Drinks".to_string() },
        ProductCategory { category_id: 7, description: "Snacks".to_string() },
    ];
    assert_eq!(find_category(&categories, 7), Some(1));
    assert_eq!(find_category(&categories, 3), Some(0));
    assert_eq!(find_category(&categories, 4), None);
}

#[test]
fn deposit_happy_path() {
    let mut deposit = DepositMachine::new();
    match deposit.on_line(&line("10.00")) {
        DepositEffect::AskConfirm(amount) => assert_eq!(amount, 1000),
        _ => panic!("a valid amount must ask for confirmation"),
    }
    assert_eq!(deposit.state, DepositState::ConfirmAmount);
    assert!(matches!(deposit.on_line(&line("10.00")), DepositEffect::AskType));
    // An unknown transfer kind re-prompts instead of aborting.
    assert!(matches!(deposit.on_line(&line("card")), DepositEffect::RetryType));
    match deposit.on_line(&line("cash")) {
        DepositEffect::Submit(amount, kind) => {
            assert_eq!(amount, 1000);
            assert_eq!(kind, DepositType::Cash);
        },
        _ => panic!("cash must submit the deposit"),
    }
    match deposit.on_submitted() {
        DepositEffect::Done(amount) => assert_eq!(amount, 1000),
        _ => panic!("a submitted deposit reports the amount"),
    }
    assert_eq!(deposit.state, DepositState::Finished);
}

#[test]
fn deposit_aborts() {
    // A malformed amount re-prompts the same step rather than aborting.
    let mut deposit = DepositMachine::new();
    assert!(matches!(deposit.on_line(&line("ten")), DepositEffect::RetryAmount));
    assert_eq!(deposit.state, DepositState::EnterAmount);
    assert!(matches!(deposit.on_line(&line("1.50")), DepositEffect::AskConfirm(150)));

    // More than the allowed maximum of 250 euros.
    let mut deposit = DepositMachine::new();
    assert!(matches!(deposit.on_line(&line("250.01")), DepositEffect::TooLargeAbort));

    // The retyped confirmation must be the canonical text.
    let mut deposit = DepositMachine::new();
    deposit.on_line(&line("10.00"));
    assert!(matches!(deposit.on_line(&line("9.99")), DepositEffect::MismatchAbort));

    // An empty answer cancels; an expired wait aborts.
    let mut deposit = DepositMachine::new();
    deposit.on_line(&line("10.00"));
    assert!(matches!(deposit.on_line(&line("")), DepositEffect::CancelledAbort));
    let mut deposit = DepositMachine::new();
    assert!(matches!(deposit.on_line(&TimeoutResult::TIMEOUT), DepositEffect::TimedOutAbort));

    // Bank transfer is the other accepted kind.
    let mut deposit = DepositMachine::new();
    deposit.on_line(&line("250.00"));
    deposit.on_line(&line("250.00"));
    match deposit.on_line(&line("banktransfer")) {
        DepositEffect::Submit(amount, kind) => {
            assert_eq!(amount, 25000);
            assert_eq!(kind, DepositType::BankTransfer);
        },
        _ => panic!("banktransfer must submit the deposit"),
    }
}

#[test]
fn password_change_rules() {
    let empty = String::new();
    let pw = "hunter2".to_string();
    let other = "hunter3".to_string();
    assert!(matches!(
        evaluate_password_change(&empty, &empty),
        PasswordChangeDecision::EmptyPassword
    ));
    assert!(matches!(evaluate_password_change(&pw, &other), PasswordChangeDecision::Mismatch));
    assert!(matches!(
        evaluate_password_change(&pw, &pw.clone()),
        PasswordChangeDecision::Change
    ));
}

#[test]
fn card_binding_steps() {
    let enter = RecvOutcome::Received(InputEvent::Terminal(TerminalEvent::Key(KeyCode::Enter)));
    assert!(matches!(rfid_change_step(&enter), Some(RfidChangeStep::Cancelled)));
    let scan = RecvOutcome::Received(InputEvent::Scan("c0ffee".to_string()));
    match rfid_change_step(&scan) {
        Some(RfidChangeStep::Changed(text)) => assert_eq!(text, "c0ffee"),
        _ => panic!("a scan must bind the card"),
    }
    let other_key = RecvOutcome::Received(InputEvent::Terminal(TerminalEvent::Key(
        KeyCode::Char('x'),
    )));
    assert!(rfid_change_step(&other_key).is_none());
    assert!(matches!(rfid_change_step(&RecvOutcome::TimedOut), Some(RfidChangeStep::TimedOut)));
}

#[test]
fn new_item_choice() {
    let enter = RecvOutcome::Received(InputEvent::Terminal(TerminalEvent::Key(KeyCode::Enter)));
    assert!(matches!(new_item_choice_step(&enter), Some(NewItemChoice::Cancel)));
    for c in ['b', 'B'] {
        let ev = RecvOutcome::Received(InputEvent::Terminal(TerminalEvent::Key(KeyCode::Char(c))));
        assert!(matches!(new_item_choice_step(&ev), Some(NewItemChoice::NewBox)));
    }
    for c in ['p', 'P'] {
        let ev = RecvOutcome::Received(InputEvent::Terminal(TerminalEvent::Key(KeyCode::Char(c))));
        assert!(matches!(new_item_choice_step(&ev), Some(NewItemChoice::NewProduct)));
    }
    let ev = RecvOutcome::Received(InputEvent::Terminal(TerminalEvent::Key(KeyCode::Char('z'))));
    assert!(new_item_choice_step(&ev).is_none());
    assert!(matches!(new_item_choice_step(&RecvOutcome::TimedOut), Some(NewItemChoice::TimedOut)));
}

#[test]
fn new_product_flow_collects_fields() {
    let mut machine = NewProductMachine::new("5449".to_string());
    assert!(matches!(machine.on_name(line("Limu")), NewProductEffect::AskBuyPrice));
    assert!(matches!(machine.on_buy_price(&line("oops")), NewProductEffect::RetryPrice));
    assert!(matches!(machine.on_buy_price(&line("1.00")), NewProductEffect::FetchMargin));
    // A 35% margin on 1.00 suggests 1.35.
    match machine.on_margin(3500) {
        NewProductEffect::AskSellPrice(v) => assert_eq!(v, 135),
        _ => panic!("the margin must yield a suggestion"),
    }
    // An empty answer accepts the suggestion.
    assert!(matches!(machine.on_sell_price(&line("")), NewProductEffect::AskStock));
    assert!(matches!(machine.on_stock(&line("7")), NewProductEffect::AskCategory));
    let categories = vec![ProductCategory { category_id: 3, description: "Drinks".to_string() }];
    assert!(matches!(
        machine.on_category(&line("4"), &categories),
        NewProductEffect::RetryCategory
    ));
    match machine.on_category(&line("3"), &categories) {
        NewProductEffect::Submit(req) => {
            assert_eq!(req.barcode, "5449");
            assert_eq!(req.name, "Limu");
            assert_eq!(req.buy_price, 100);
            assert_eq!(req.sell_price, 135);
            assert_eq!(req.stock, 7);
            assert_eq!(req.category_id, 3);
        },
        _ => panic!("a listed category must submit"),
    }
    assert_eq!(machine.state, NewProductState::Submitting);
}

#[test]
fn new_product_flow_cancels_and_aborts() {
    let mut machine = NewProductMachine::new("1".to_string());
    assert!(matches!(machine.on_name(line("")), NewProductEffect::Cancelled));
    let mut machine = NewProductMachine::new("1".to_string());
    machine.on_name(line("x"));
    assert!(matches!(machine.on_buy_price(&line("")), NewProductEffect::Cancelled));
    let mut machine = NewProductMachine::new("1".to_string());
    assert!(matches!(
        machine.on_name(TimeoutResult::TIMEOUT),
        NewProductEffect::TimedOutAbort
    ));
}

#[test]
fn buy_in_flow_divides_prices_across_the_box() {
    // A box of 24 items currently priced 0.50 / 0.80 per item.
    let mut machine = BuyInMachine::new("900".to_string(), 24, 50, 80, true);
    // 24.00 for the box: 1.00 per item.
    assert!(matches!(machine.on_buy_price(&line("24.00")), BuyInEffect::FetchMargin));
    machine.on_margin(3500);
    assert_eq!(machine.sell_price, 135);
    // 26.40 for the box: 1.10 per item.
    assert!(matches!(machine.on_sell_price(&line("26.40")), BuyInEffect::AskCount));
    assert_eq!(machine.buy_price, 100);
    assert_eq!(machine.sell_price, 110);
    match machine.on_count(&line("3")) {
        BuyInEffect::Submit(req) => {
            assert_eq!(req.barcode, "900");
            assert_eq!(req.buy_price, 100);
            assert_eq!(req.sell_price, 110);
            assert_eq!(req.count, 3);
        },
        _ => panic!("a positive count must submit"),
    }
    match machine.on_submit_result(ApiResult::Success) {
        BuyInEffect::Done(n) => assert_eq!(n, 3),
        _ => panic!("an accepted buy-in reports the count"),
    }
}

#[test]
fn buy_in_flow_keeps_prices_and_handles_zero() {
    let mut machine = BuyInMachine::new("5449".to_string(), 1, 120, 150, true);
    // Empty answers keep both prices; no margin fetch happens.
    assert!(matches!(machine.on_buy_price(&line("")), BuyInEffect::AskSellPrice));
    assert!(!machine.buy_price_changed);
    assert!(matches!(machine.on_sell_price(&line("")), BuyInEffect::AskCount));
    assert_eq!(machine.buy_price, 120);
    assert_eq!(machine.sell_price, 150);
    // An empty count means zero here: nothing is added.
    assert!(matches!(machine.on_count(&line("")), BuyInEffect::NothingAdded));

    // For a plain product an empty count asks again, and zero adds nothing.
    let mut machine = BuyInMachine::new("5449".to_string(), 1, 120, 150, false);
    machine.on_buy_price(&line(""));
    machine.on_sell_price(&line(""));
    assert!(matches!(machine.on_count(&line("")), BuyInEffect::RetryCount));
    assert!(matches!(machine.on_count(&line("0")), BuyInEffect::NothingAdded));
}

#[test]
fn change_product_flow_edits_fields() {
    let mut machine = ChangeProductMachine::new(
        "5449".to_string(),
        "Limu".to_string(),
        100,
        135,
        2,
        3,
    );
    // Empty answers keep the name and the buy price; no margin fetch.
    assert!(matches!(machine.on_name(line("")), ChangeProductEffect::AskBuyPrice));
    assert_eq!(machine.name, "Limu");
    assert!(matches!(machine.on_buy_price(&line("")), ChangeProductEffect::AskSellPrice));
    assert_eq!(machine.buy_price, 100);
    assert!(!machine.buy_price_changed);
    // A typed sell price replaces; `+5` increments the stock of 2 to 7.
    assert!(matches!(machine.on_sell_price(&line("1.50")), ChangeProductEffect::AskStock));
    assert_eq!(machine.sell_price, 150);
    assert!(matches!(machine.on_stock(&line("+5")), ChangeProductEffect::AskCategory));
    assert_eq!(machine.stock, 7);
    // An unlisted category asks again; an empty answer keeps the
    // current one and submits.
    let categories = vec![ProductCategory { category_id: 3, description: "Drinks".to_string() }];
    assert!(matches!(
        machine.on_category(&line("9"), &categories),
        ChangeProductEffect::RetryCategory
    ));
    match machine.on_category(&line(""), &categories) {
        ChangeProductEffect::Submit(req) => {
            assert_eq!(req.barcode, "5449");
            assert_eq!(req.name, "Limu");
            assert_eq!(req.buy_price, 100);
            assert_eq!(req.sell_price, 150);
            assert_eq!(req.stock, 7);
            assert_eq!(req.category_id, 3);
        },
        _ => panic!("an empty category answer submits the current one"),
    }
    assert!(matches!(machine.on_submitted(), ChangeProductEffect::Updated));
    assert_eq!(machine.state, ChangeProductState::Finished);
}

#[test]
fn change_product_flow_suggests_on_changed_buy_price() {
    let mut machine = ChangeProductMachine::new(
        "5449".to_string(),
        "Limu".to_string(),
        100,
        135,
        2,
        3,
    );
    assert!(matches!(machine.on_name(line("Limu Zero")), ChangeProductEffect::AskBuyPrice));
    assert_eq!(machine.name, "Limu Zero");
    assert!(matches!(machine.on_buy_price(&line("2.00")), ChangeProductEffect::FetchMargin));
    assert!(machine.buy_price_changed);
    // A 35% margin on the new 2.00 suggests 2.70.
    assert!(matches!(machine.on_margin(3500), ChangeProductEffect::AskSellPrice));
    assert_eq!(machine.sell_price, 270);
    // An expired wait aborts the whole flow.
    assert!(matches!(
        machine.on_sell_price(&TimeoutResult::TIMEOUT),
        ChangeProductEffect::TimedOutAbort
    ));
}

#[test]
fn change_box_flow_binds_a_confirmed_product() {
    let mut machine = ChangeBoxMachine::new("900".to_string(), "5449".to_string(), 24);
    // A new barcode is only bound once a product lookup confirms it.
    match machine.on_barcode(line("7777")) {
        ChangeBoxEffect::CheckProduct(b) => assert_eq!(b, "7777"),
        _ => panic!("a typed barcode must be looked up"),
    }
    assert_eq!(machine.product_barcode, "5449");
    assert!(matches!(machine.on_product_check(true), ChangeBoxEffect::AskItemsPerBox));
    assert_eq!(machine.product_barcode, "7777");
    // An empty count keeps the current one and submits.
    match machine.on_items(&line("")) {
        ChangeBoxEffect::Submit(req) => {
            assert_eq!(req.box_barcode, "900");
            assert_eq!(req.items_per_box, 24);
            assert_eq!(req.product_barcode, "7777");
        },
        _ => panic!("an empty count submits the current one"),
    }
    assert!(matches!(
        machine.on_submit_result(ApiResult::Success),
        ChangeBoxEffect::Updated
    ));
    assert_eq!(machine.state, ChangeBoxState::Finished);
}

#[test]
fn change_box_flow_refuses_a_box_barcode_and_creates_products() {
    // A barcode that names another box is refused.
    let mut machine = ChangeBoxMachine::new("900".to_string(), "5449".to_string(), 24);
    machine.on_barcode(line("901"));
    assert!(matches!(machine.on_product_check(false), ChangeBoxEffect::CheckBox(_)));
    assert!(matches!(machine.on_box_check(true), ChangeBoxEffect::BoxExistsAbort));

    // A barcode naming nothing starts creating a product under it, and
    // binds it only if the product then answers to the barcode.
    let mut machine = ChangeBoxMachine::new("900".to_string(), "5449".to_string(), 24);
    machine.on_barcode(line("7777"));
    machine.on_product_check(false);
    match machine.on_box_check(false) {
        ChangeBoxEffect::StartNewProduct(b) => assert_eq!(b, "7777"),
        _ => panic!("an unknown barcode starts a new product"),
    }
    assert!(matches!(machine.on_product_created(true), ChangeBoxEffect::AskItemsPerBox));
    assert_eq!(machine.product_barcode, "7777");
    // A typed count replaces; a malformed one asks again.
    assert!(matches!(machine.on_items(&line("x")), ChangeBoxEffect::RetryItems));
    match machine.on_items(&line("12")) {
        ChangeBoxEffect::Submit(req) => assert_eq!(req.items_per_box, 12),
        _ => panic!("a digit count submits"),
    }

    // A failed creation aborts.
    let mut machine = ChangeBoxMachine::new("900".to_string(), "5449".to_string(), 24);
    machine.on_barcode(line("7777"));
    machine.on_product_check(false);
    machine.on_box_check(false);
    assert!(matches!(machine.on_product_created(false), ChangeBoxEffect::CreateFailedAbort));
}
