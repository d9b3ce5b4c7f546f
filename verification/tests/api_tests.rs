use rvterminal::rv_api::{
    add_box_result, change_password_admin_result, change_password_result, change_rfid_result,
    get_box_info_admin_result, get_product_info_admin_result, get_user_info_by_username_result,
    login_result, login_rfid_result, purchase_item_result, register_result, return_product_result,
    update_box_result, ApiResult, ApiResultValue, AuthenticationResponse, UserInfo, UserInfoTrait,
};
use rvterminal::session::{
    purchase_items, search_result_lines, session_prompt_message,
};
use rvterminal::rv_api::{BoxInfoAdmin, ProductCategory, ProductInfo, ProductInfoAdmin};

fn fail_message(r: ApiResult) -> String {
    match r {
        ApiResult::Fail(m) => m,
        ApiResult::Success => panic!("expected a failure"),
    }
}

#[test]
fn status_codes_map_to_messages() {
    assert!(matches!(add_box_result(201), ApiResult::Success));
    assert_eq!(fail_message(add_box_result(409)), "error: barcode already in use");
    assert_eq!(fail_message(add_box_result(500)), "api request fail with code: 500");

    assert!(matches!(update_box_result(200), ApiResult::Success));
    assert_eq!(fail_message(update_box_result(404)), "api request fail with code: 404");

    assert!(matches!(change_password_result(204), ApiResult::Success));
    assert_eq!(fail_message(change_password_result(400)), "Missing or invalid fields in request");
    assert_eq!(fail_message(change_password_result(401)), "Not authorized");
    assert_eq!(fail_message(change_password_result(500)), "http response 500");
    assert!(matches!(change_rfid_result(204), ApiResult::Success));

    assert!(matches!(change_password_admin_result(200), ApiResult::Success));
    assert_eq!(
        fail_message(change_password_admin_result(404)),
        "User with the given username not found"
    );

    assert_eq!(
        fail_message(purchase_item_result(404, "123", None)),
        "No product with barcode 123 found!"
    );
    assert_eq!(
        fail_message(purchase_item_result(403, "123", Some("out of stock".to_string()))),
        "out of stock"
    );
    assert_eq!(fail_message(purchase_item_result(403, "123", None)), "unknown 403 error");
    assert!(matches!(purchase_item_result(200, "123", None), ApiResult::Success));

    assert_eq!(
        fail_message(return_product_result(403, Some("too old".to_string()))),
        "too old"
    );
    assert_eq!(fail_message(return_product_result(500, None)), "http response 500");

    assert!(matches!(register_result(201, String::new()), ApiResult::Success));
    assert_eq!(fail_message(register_result(409, "name taken".to_string())), "name taken");
    assert_eq!(fail_message(register_result(500, String::new())), "error code 500");
}

#[test]
fn value_carrying_answers() {
    let auth = AuthenticationResponse { access_token: "tok".to_string() };
    match login_result(200, Some(auth)) {
        ApiResultValue::Success(a) => assert_eq!(a.access_token, "tok"),
        ApiResultValue::Fail(_) => panic!("a parsed answer must succeed"),
    }
    match login_result(401, None) {
        ApiResultValue::Fail(m) => assert_eq!(m, "api request fail with code: 401"),
        ApiResultValue::Success(_) => panic!("a refused login must fail"),
    }

    let auth = AuthenticationResponse { access_token: "tok2".to_string() };
    assert!(login_rfid_result(200, Some(auth)).is_some());
    assert!(login_rfid_result(404, None).is_none());

    let user = UserInfo {
        user_id: 9,
        username: "who".to_string(),
        email: "who@example.com".to_string(),
        money_balance: 100,
        role: "ADMIN".to_string(),
    };
    assert!(user.is_admin());
    match get_user_info_by_username_result(200, Some(user)) {
        ApiResultValue::Success(u) => assert_eq!(u.user_id, 9),
        ApiResultValue::Fail(_) => panic!("a found user must succeed"),
    }
    match get_user_info_by_username_result(404, None) {
        ApiResultValue::Fail(m) => assert_eq!(m, "User with the given username not found"),
        ApiResultValue::Success(_) => panic!("a missing user must fail"),
    }

    let plain = UserInfo {
        user_id: 1,
        username: "who".to_string(),
        email: "who@example.com".to_string(),
        money_balance: 0,
        role: "USER".to_string(),
    };
    assert!(!plain.is_admin());

    assert!(get_box_info_admin_result(404, None).is_none());
    match get_product_info_admin_result(404, None) {
        ApiResultValue::Fail(m) => assert_eq!(m, "Product not found"),
        ApiResultValue::Success(_) => panic!("a missing product must fail"),
    }
    match get_product_info_admin_result(500, None) {
        ApiResultValue::Fail(m) => assert_eq!(m, "error code: 500"),
        ApiResultValue::Success(_) => panic!("an unexpected code must fail"),
    }
}

fn product(name: &str, barcode: &str, price: i32, stock: i32) -> ProductInfo {
    ProductInfo {
        barcode: barcode.to_string(),
        name: name.to_string(),
        price,
        stock,
    }
}

#[test]
fn session_messages() {
    let user = UserInfo {
        user_id: 4,
        username: "test".to_string(),
        email: "test@example.com".to_string(),
        money_balance: 42,
        role: "USER".to_string(),
    };
    assert_eq!(session_prompt_message(&user), "\nDear test, your saldo is 0.42 > ");

    let limu = product("Limu", "5449", 142, 7);
    let report = purchase_items(2, &ApiResult::Success, Some(&limu));
    assert_eq!(report, "Bought 2x Limu (1.42EUR) Total (2.84EUR)");

    let report = purchase_items(1, &ApiResult::Fail("no saldo".to_string()), None);
    assert_eq!(report, "Purchase failed: no saldo");
}

#[test]
fn search_listing_is_sorted_and_deduplicated() {
    let products = vec![
        product("Limu", "5449", 142, 7),
        product("Apple", "1111", 100, 3),
        product("Limu", "5449", 142, 7),
    ];
    let boxes = vec![BoxInfoAdmin {
        box_barcode: "900".to_string(),
        items_per_box: 24,
        product: ProductInfoAdmin {
            barcode: "5449".to_string(),
            name: "Limu".to_string(),
            sell_price: 142,
            buy_price: 100,
            category: ProductCategory { category_id: 1, description: "Drinks".to_string() },
            stock: 7,
        },
    }];
    let lines = search_result_lines(&products, &boxes);
    assert_eq!(
        lines,
        vec![
            "Apple, 1.00 EUR, ID: 1111, 3 in stock.".to_string(),
            "Limu, 1.42 EUR, ID: 5449, 7 in stock.".to_string(),
        ]
    );
}
