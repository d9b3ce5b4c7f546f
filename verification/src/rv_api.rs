use vstd::prelude::*;

use crate::money::{push_u32_digits, spec_digits};
use vstd::string::StringExecFns;

verus! {

/// The token a successful authentication returns; every later backend
/// call carries it.
pub struct AuthenticationResponse {
    pub access_token: String,
}

/// The authenticated principal as the backend reports it.
pub struct UserInfo {
    pub user_id: i32,
    pub username: String,
    pub email: String,
    pub money_balance: i32,
    pub role: String,
}

/// The administrative role name.
pub open spec fn spec_admin_role() -> Seq<char> {
    "ADMIN"@
}

pub trait UserInfoTrait {
    spec fn spec_is_admin(&self) -> bool;

    fn is_admin(&self) -> (r: bool)
        ensures
            r == self.spec_is_admin(),
    ;
}

impl UserInfoTrait for UserInfo {
    open spec fn spec_is_admin(&self) -> bool {
        self.role@ == spec_admin_role()
    }

    /// A principal is administrative exactly when its role is `ADMIN`.
    fn is_admin(&self) -> (r: bool) {
        self.role == String::from_str("ADMIN")
    }
}

/// A backend answer that carries no value: done, or a human-readable
/// failure message.
pub enum ApiResult {
    Success,
    Fail(String),
}

/// A backend answer that carries a value on success.
pub enum ApiResultValue<T> {
    Success(T),
    Fail(String),
}

/// One product category as the backend lists them.
pub struct ProductCategory {
    pub category_id: i32,
    pub description: String,
}

/// One sellable product as ordinary users see it.
pub struct ProductInfo {
    pub barcode: String,
    pub name: String,
    pub price: i32,
    pub stock: i32,
}

/// One product with the administrative fields.
pub struct ProductInfoAdmin {
    pub barcode: String,
    pub name: String,
    pub sell_price: i32,
    pub buy_price: i32,
    pub category: ProductCategory,
    pub stock: i32,
}

/// One box (a bundle of identical products) with the administrative
/// fields.
pub struct BoxInfoAdmin {
    pub box_barcode: String,
    pub items_per_box: i32,
    pub product: ProductInfoAdmin,
}

/// `prefix` followed by the decimal digits of `code`.
pub open spec fn spec_code_message(prefix: Seq<char>, code: int) -> Seq<char> {
    prefix + spec_digits(code as nat)
}

/// Builds the failure message that quotes an unexpected status code.
fn code_message(prefix: &str, code: u16) -> (r: String)
    ensures
        r@ == spec_code_message(prefix@, code as int),
{
    let mut out = String::from_str(prefix);
    push_u32_digits(&mut out, code as u32);
    out
}

/// Classifies the status of creating a box: created, barcode taken,
/// or an unexpected code quoted in the message.
pub fn add_box_result(status: u16) -> (r: ApiResult)
    ensures
        status == 201 ==> r is Success,
        status == 409 ==> (r matches ApiResult::Fail(m) && m@ == "error: barcode already in use"@),
        status != 201 && status != 409 ==> (r matches ApiResult::Fail(m) && m@
            == spec_code_message("api request fail with code: "@, status as int)),
{
    if status == 201 {
        ApiResult::Success
    } else if status == 409 {
        ApiResult::Fail(String::from_str("error: barcode already in use"))
    } else {
        ApiResult::Fail(code_message("api request fail with code: ", status))
    }
}

/// Classifies the status of creating a product; the mapping is the one
/// box creation uses.
pub fn add_product_result(status: u16) -> (r: ApiResult)
    ensures
        status == 201 ==> r is Success,
        status == 409 ==> (r matches ApiResult::Fail(m) && m@ == "error: barcode already in use"@),
        status != 201 && status != 409 ==> (r matches ApiResult::Fail(m) && m@
            == spec_code_message("api request fail with code: "@, status as int)),
{
    add_box_result(status)
}

/// Classifies a password authentication answer: the parsed credentials
/// on success, otherwise a message quoting the code.
pub fn login_result(status: u16, auth: Option<AuthenticationResponse>) -> (r: ApiResultValue<
    AuthenticationResponse,
>)
    requires
        status == 200 ==> auth is Some,
    ensures
        status == 200 ==> (r matches ApiResultValue::Success(a) && Some(a) == auth),
        status != 200 ==> (r matches ApiResultValue::Fail(m) && m@ == spec_code_message(
            "api request fail with code: "@,
            status as int,
        )),
{
    if status == 200 {
        match auth {
            Some(a) => ApiResultValue::Success(a),
            None => ApiResultValue::Fail(String::new()),
        }
    } else {
        ApiResultValue::Fail(code_message("api request fail with code: ", status))
    }
}

/// Classifies a scan authentication answer: credentials on success,
/// absent on any other status.
pub fn login_rfid_result(status: u16, auth: Option<AuthenticationResponse>) -> (r: Option<
    AuthenticationResponse,
>)
    requires
        status == 200 ==> auth is Some,
    ensures
        status == 200 ==> r == auth,
        status != 200 ==> r is None,
{
    if status == 200 {
        auth
    } else {
        None
    }
}

/// Classifies an administrative lookup of a user by name.
pub fn get_user_info_by_username_result(status: u16, user: Option<UserInfo>) -> (r: ApiResultValue<
    UserInfo,
>)
    requires
        status == 200 ==> user is Some,
    ensures
        status == 200 ==> (r matches ApiResultValue::Success(u) && Some(u) == user),
        status == 404 ==> (r matches ApiResultValue::Fail(m) && m@
            == "User with the given username not found"@),
        status == 401 ==> (r matches ApiResultValue::Fail(m) && m@ == "Not authorized"@),
        status != 200 && status != 404 && status != 401 ==> (r matches ApiResultValue::Fail(m)
            && m@ == spec_code_message("http response "@, status as int)),
{
    if status == 200 {
        match user {
            Some(u) => ApiResultValue::Success(u),
            None => ApiResultValue::Fail(String::new()),
        }
    } else if status == 404 {
        ApiResultValue::Fail(String::from_str("User with the given username not found"))
    } else if status == 401 {
        ApiResultValue::Fail(String::from_str("Not authorized"))
    } else {
        ApiResultValue::Fail(code_message("http response ", status))
    }
}

/// Classifies a box buy-in answer.
pub fn buy_in_box_result(status: u16) -> (r: ApiResult)
    ensures
        status == 200 ==> r is Success,
        status != 200 ==> (r matches ApiResult::Fail(m) && m@ == spec_code_message(
            "api request fail with code: "@,
            status as int,
        )),
{
    if status == 200 {
        ApiResult::Success
    } else {
        ApiResult::Fail(code_message("api request fail with code: ", status))
    }
}

/// Classifies a product buy-in answer; the mapping is the one box
/// buy-in uses.
pub fn buy_in_product_result(status: u16) -> (r: ApiResult)
    ensures
        status == 200 ==> r is Success,
        status != 200 ==> (r matches ApiResult::Fail(m) && m@ == spec_code_message(
            "api request fail with code: "@,
            status as int,
        )),
{
    buy_in_box_result(status)
}

/// Classifies a box update answer; the mapping is the one box buy-in
/// uses.
pub fn update_box_result(status: u16) -> (r: ApiResult)
    ensures
        status == 200 ==> r is Success,
        status != 200 ==> (r matches ApiResult::Fail(m) && m@ == spec_code_message(
            "api request fail with code: "@,
            status as int,
        )),
{
    buy_in_box_result(status)
}

/// Classifies an administrative password change.
pub fn change_password_admin_result(status: u16) -> (r: ApiResult)
    ensures
        status == 200 ==> r is Success,
        status == 404 ==> (r matches ApiResult::Fail(m) && m@
            == "User with the given username not found"@),
        status == 400 ==> (r matches ApiResult::Fail(m) && m@
            == "Missing or invalid fields in request"@),
        status == 401 ==> (r matches ApiResult::Fail(m) && m@ == "Not authorized"@),
        status != 200 && status != 404 && status != 400 && status != 401 ==> (
        r matches ApiResult::Fail(m) && m@ == spec_code_message("http response "@, status as int)),
{
    if status == 200 {
        ApiResult::Success
    } else if status == 404 {
        ApiResult::Fail(String::from_str("User with the given username not found"))
    } else if status == 400 {
        ApiResult::Fail(String::from_str("Missing or invalid fields in request"))
    } else if status == 401 {
        ApiResult::Fail(String::from_str("Not authorized"))
    } else {
        ApiResult::Fail(code_message("http response ", status))
    }
}

/// Classifies a user's own password change.
pub fn change_password_result(status: u16) -> (r: ApiResult)
    ensures
        status == 204 ==> r is Success,
        status == 400 ==> (r matches ApiResult::Fail(m) && m@
            == "Missing or invalid fields in request"@),
        status == 401 ==> (r matches ApiResult::Fail(m) && m@ == "Not authorized"@),
        status != 204 && status != 400 && status != 401 ==> (r matches ApiResult::Fail(m) && m@
            == spec_code_message("http response "@, status as int)),
{
    if status == 204 {
        ApiResult::Success
    } else if status == 400 {
        ApiResult::Fail(String::from_str("Missing or invalid fields in request"))
    } else if status == 401 {
        ApiResult::Fail(String::from_str("Not authorized"))
    } else {
        ApiResult::Fail(code_message("http response ", status))
    }
}

/// Classifies a card-credential change; the mapping is the one a
/// password change uses.
pub fn change_rfid_result(status: u16) -> (r: ApiResult)
    ensures
        status == 204 ==> r is Success,
        status == 400 ==> (r matches ApiResult::Fail(m) && m@
            == "Missing or invalid fields in request"@),
        status == 401 ==> (r matches ApiResult::Fail(m) && m@ == "Not authorized"@),
        status != 204 && status != 400 && status != 401 ==> (r matches ApiResult::Fail(m) && m@
            == spec_code_message("http response "@, status as int)),
{
    change_password_result(status)
}

/// Classifies a product return: forbidden returns carry the backend's
/// own message when it could be read.
pub fn return_product_result(status: u16, message: Option<String>) -> (r: ApiResult)
    ensures
        status == 200 ==> r is Success,
        status == 403 ==> (r matches ApiResult::Fail(m) && (match message {
            Some(given) => m == given,
            None => m@ == "unknown 403 error"@,
        })),
        status != 200 && status != 403 ==> (r matches ApiResult::Fail(m) && m@
            == spec_code_message("http response "@, status as int)),
{
    if status == 200 {
        ApiResult::Success
    } else if status == 403 {
        match message {
            Some(given) => ApiResult::Fail(given),
            None => ApiResult::Fail(String::from_str("unknown 403 error")),
        }
    } else {
        ApiResult::Fail(code_message("http response ", status))
    }
}

/// Classifies a purchase: a missing product names the barcode, a
/// forbidden purchase carries the backend's message when readable.
pub fn purchase_item_result(status: u16, barcode: &str, message: Option<String>) -> (r: ApiResult)
    ensures
        status == 200 ==> r is Success,
        status == 404 ==> (r matches ApiResult::Fail(m) && m@ == "No product with barcode "@
            + barcode@ + " found!"@),
        status == 403 ==> (r matches ApiResult::Fail(m) && (match message {
            Some(given) => m == given,
            None => m@ == "unknown 403 error"@,
        })),
        status != 200 && status != 404 && status != 403 ==> (r matches ApiResult::Fail(m) && m@
            == spec_code_message("http response "@, status as int)),
{
    if status == 200 {
        ApiResult::Success
    } else if status == 404 {
        let mut m = String::from_str("No product with barcode ");
        m.append(barcode);
        m.append(" found!");
        ApiResult::Fail(m)
    } else if status == 403 {
        match message {
            Some(given) => ApiResult::Fail(given),
            None => ApiResult::Fail(String::from_str("unknown 403 error")),
        }
    } else {
        ApiResult::Fail(code_message("http response ", status))
    }
}

/// Classifies an administrative box lookup. Any status other than
/// found or not-found is a protocol violation the caller treats as
/// fatal, so it is left out here.
pub fn get_box_info_admin_result(status: u16, found: Option<BoxInfoAdmin>) -> (r: Option<
    BoxInfoAdmin,
>)
    requires
        status == 200 || status == 404,
        status == 200 ==> found is Some,
    ensures
        status == 200 ==> r == found,
        status == 404 ==> r is None,
{
    if status == 200 {
        found
    } else {
        None
    }
}

/// Classifies a plain product lookup, under the same protocol rule as
/// the administrative box lookup.
pub fn get_product_info_result(status: u16, found: Option<ProductInfo>) -> (r: Option<ProductInfo>)
    requires
        status == 200 || status == 404,
        status == 200 ==> found is Some,
    ensures
        status == 200 ==> r == found,
        status == 404 ==> r is None,
{
    if status == 200 {
        found
    } else {
        None
    }
}

/// Classifies an administrative product lookup.
pub fn get_product_info_admin_result(status: u16, found: Option<ProductInfoAdmin>) -> (r:
    ApiResultValue<ProductInfoAdmin>)
    requires
        status == 200 ==> found is Some,
    ensures
        status == 200 ==> (r matches ApiResultValue::Success(p) && Some(p) == found),
        status == 404 ==> (r matches ApiResultValue::Fail(m) && m@ == "Product not found"@),
        status != 200 && status != 404 ==> (r matches ApiResultValue::Fail(m) && m@
            == spec_code_message("error code: "@, status as int)),
{
    if status == 200 {
        match found {
            Some(p) => ApiResultValue::Success(p),
            None => ApiResultValue::Fail(String::new()),
        }
    } else if status == 404 {
        ApiResultValue::Fail(String::from_str("Product not found"))
    } else {
        ApiResultValue::Fail(code_message("error code: ", status))
    }
}

/// Classifies a registration answer: a conflict carries the backend's
/// message (empty when it gave none).
pub fn register_result(status: u16, conflict_message: String) -> (r: ApiResult)
    ensures
        status == 201 ==> r is Success,
        status == 409 ==> (r matches ApiResult::Fail(m) && m == conflict_message),
        status != 201 && status != 409 ==> (r matches ApiResult::Fail(m) && m@
            == spec_code_message("error code "@, status as int)),
{
    if status == 201 {
        ApiResult::Success
    } else if status == 409 {
        ApiResult::Fail(conflict_message)
    } else {
        ApiResult::Fail(code_message("error code ", status))
    }
}

} // verus!
