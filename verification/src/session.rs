use vstd::prelude::*;

use crate::money::{format_money, i32_to_string, spec_format_money, spec_i32_text};
use crate::rv_api::{ApiResult, BoxInfoAdmin, ProductInfo, ProductInfoAdmin, UserInfo};
use vstd::string::StringExecFns;

verus! {

/// The saldo prompt shown before every menu read.
pub open spec fn spec_session_prompt(username: Seq<char>, balance: int) -> Seq<char> {
    "\nDear "@ + username + ", your saldo is "@ + spec_format_money(balance) + " > "@
}

/// Builds the saldo prompt for an authenticated principal.
pub fn session_prompt_message(user: &UserInfo) -> (r: String)
    requires
        user.money_balance > i32::MIN,
    ensures
        r@ == spec_session_prompt(user.username@, user.money_balance as int),
{
    let mut out = String::from_str("\nDear ");
    out.append(user.username.as_str());
    out.append(", your saldo is ");
    let money = format_money(&user.money_balance);
    out.append(money.as_str());
    out.append(" > ");
    out
}

/// The line reporting a completed purchase.
pub open spec fn spec_purchase_summary(count: int, name: Seq<char>, price: int) -> Seq<char> {
    "Bought "@ + spec_i32_text(count) + "x "@ + name + " ("@ + spec_format_money(price) + "EUR) Total ("@
        + spec_format_money(count * price) + "EUR)"@
}

/// The line reporting a refused purchase.
pub open spec fn spec_purchase_failure(message: Seq<char>) -> Seq<char> {
    "Purchase failed: "@ + message
}

/// The report of one purchase attempt of `count` items: the summary
/// with the unit and total price on success, the backend's message on
/// failure.
pub fn purchase_items(count: i32, outcome: &ApiResult, product: Option<&ProductInfo>) -> (r:
    String)
    requires
        count >= 0,
        outcome is Success ==> (product matches Some(p) && 0 <= p.price && count * p.price
            <= i32::MAX),
    ensures
        (match (outcome, product) {
            (ApiResult::Success, Some(p)) => r@ == spec_purchase_summary(
                count as int,
                p.name@,
                p.price as int,
            ),
            (ApiResult::Fail(m), _) => r@ == spec_purchase_failure(m@),
            _ => true,
        }),
{
    match outcome {
        ApiResult::Success => {
            match product {
                Some(p) => {
                    let total: i32 = count * p.price;
                    let mut out = String::from_str("Bought ");
                    let count_text = i32_to_string(count);
                    out.append(count_text.as_str());
                    out.append("x ");
                    out.append(p.name.as_str());
                    out.append(" (");
                    let unit = format_money(&p.price);
                    out.append(unit.as_str());
                    out.append("EUR) Total (");
                    let total_text = format_money(&total);
                    out.append(total_text.as_str());
                    out.append("EUR)");
                    out
                },
                None => String::new(),
            }
        },
        ApiResult::Fail(m) => {
            let mut out = String::from_str("Purchase failed: ");
            out.append(m.as_str());
            out
        },
    }
}

/// One product in the search listing.
pub open spec fn spec_product_line(
    name: Seq<char>,
    price: int,
    barcode: Seq<char>,
    stock: int,
) -> Seq<char> {
    name + ", "@ + spec_format_money(price) + " EUR, ID: "@ + barcode + ", "@ + spec_i32_text(stock)
        + " in stock."@
}

fn product_line_from(name: &str, price: i32, barcode: &str, stock: i32) -> (r: String)
    requires
        price > i32::MIN,
        stock > i32::MIN,
    ensures
        r@ == spec_product_line(name@, price as int, barcode@, stock as int),
{
    let mut out = String::new();
    out.append(name);
    out.append(", ");
    let money = format_money(&price);
    out.append(money.as_str());
    out.append(" EUR, ID: ");
    out.append(barcode);
    out.append(", ");
    let stock_text = i32_to_string(stock);
    out.append(stock_text.as_str());
    out.append(" in stock.");
    proof {
        assert(out@ =~= spec_product_line(name@, price as int, barcode@, stock as int));
    }
    out
}

/// Builds the search listing line of one product.
pub fn product_line(p: &ProductInfo) -> (r: String)
    requires
        p.price > i32::MIN,
        p.stock > i32::MIN,
    ensures
        r@ == spec_product_line(p.name@, p.price as int, p.barcode@, p.stock as int),
{
    product_line_from(p.name.as_str(), p.price, p.barcode.as_str(), p.stock)
}

/// Builds the search listing line of the product inside a box result.
pub fn boxed_product_line(p: &ProductInfoAdmin) -> (r: String)
    requires
        p.sell_price > i32::MIN,
        p.stock > i32::MIN,
    ensures
        r@ == spec_product_line(p.name@, p.sell_price as int, p.barcode@, p.stock as int),
{
    product_line_from(p.name.as_str(), p.sell_price, p.barcode.as_str(), p.stock)
}

/// One box in the administrative search listing.
pub open spec fn spec_box_line(
    box_barcode: Seq<char>,
    items_per_box: int,
    product_barcode: Seq<char>,
    product_name: Seq<char>,
) -> Seq<char> {
    box_barcode + " containing "@ + spec_i32_text(items_per_box) + "x of "@ + product_barcode + " "@
        + product_name
}

/// Builds the administrative search listing line of one box.
pub fn box_line(b: &BoxInfoAdmin) -> (r: String)
    requires
        b.items_per_box > i32::MIN,
    ensures
        r@ == spec_box_line(b.box_barcode@, b.items_per_box as int, b.product.barcode@, b.product.name@),
{
    let mut out = String::new();
    out.append(b.box_barcode.as_str());
    out.append(" containing ");
    let items_text = i32_to_string(b.items_per_box);
    out.append(items_text.as_str());
    out.append("x of ");
    out.append(b.product.barcode.as_str());
    out.append(" ");
    out.append(b.product.name.as_str());
    proof {
        assert(out@ =~= spec_box_line(
            b.box_barcode@,
            b.items_per_box as int,
            b.product.barcode@,
            b.product.name@,
        ));
    }
    out
}

/// `line` is the view of some element of `out`.
pub open spec fn spec_line_listed(out: Seq<String>, line: Seq<char>) -> bool {
    exists|k: int| 0 <= k < out.len() && (#[trigger] out[k])@ == line
}

/// The view of the `j`th line the search wants listed: the product
/// lines first, then the lines of the products inside box results.
pub open spec fn spec_wanted_line(
    products: Seq<ProductInfo>,
    boxes: Seq<BoxInfoAdmin>,
    line: Seq<char>,
) -> bool {
    (exists|j: int|
        0 <= j < products.len() && line == spec_product_line_of(#[trigger] products[j])) || (exists|
        j: int,
    | 0 <= j < boxes.len() && line == spec_boxed_line_of(#[trigger] boxes[j]))
}

pub open spec fn spec_product_line_of(p: ProductInfo) -> Seq<char> {
    spec_product_line(p.name@, p.price as int, p.barcode@, p.stock as int)
}

pub open spec fn spec_boxed_line_of(b: BoxInfoAdmin) -> Seq<char> {
    spec_product_line(
        b.product.name@,
        b.product.sell_price as int,
        b.product.barcode@,
        b.product.stock as int,
    )
}

/// `a` is at or before `b` in lexicographic character order: the
/// order of the sorted search listing.
pub open spec fn spec_lex_le(a: Seq<char>, b: Seq<char>) -> bool
    decreases a.len(),
{
    if a.len() == 0 {
        true
    } else if b.len() == 0 {
        false
    } else if (a.first() as int) < (b.first() as int) {
        true
    } else if a.first() == b.first() {
        spec_lex_le(a.drop_first(), b.drop_first())
    } else {
        false
    }
}

pub proof fn lemma_lex_le_refl(a: Seq<char>)
    ensures
        spec_lex_le(a, a),
    decreases a.len(),
{
    if a.len() > 0 {
        lemma_lex_le_refl(a.drop_first());
    }
}

pub proof fn lemma_lex_le_trans(a: Seq<char>, b: Seq<char>, c: Seq<char>)
    requires
        spec_lex_le(a, b),
        spec_lex_le(b, c),
    ensures
        spec_lex_le(a, c),
    decreases a.len(),
{
    if a.len() > 0 {
        assert(b.len() > 0);
        assert(c.len() > 0);
        if a.first() == b.first() && b.first() == c.first() {
            lemma_lex_le_trans(a.drop_first(), b.drop_first(), c.drop_first());
        } else {
            assert((a.first() as int) < (c.first() as int));
        }
    }
}

/// In a listing whose neighbours are in order, any earlier line is at
/// or before any later one.
pub proof fn lemma_sorted_run(lines: Seq<String>, x: int, y: int)
    requires
        forall|k: int|
            0 < k < lines.len() ==> spec_lex_le(lines[k - 1]@, (#[trigger] lines[k])@),
        0 <= x <= y < lines.len(),
    ensures
        spec_lex_le(lines[x]@, lines[y]@),
    decreases y - x,
{
    if x == y {
        lemma_lex_le_refl(lines[x]@);
    } else {
        lemma_sorted_run(lines, x, y - 1);
        assert(spec_lex_le(lines[y - 1]@, lines[y]@));
        lemma_lex_le_trans(lines[x]@, lines[y - 1]@, lines[y]@);
    }
}

/// Relies on slice::sort (through Vec): reorders the lines in place
/// into lexicographic order — the documented order of `String`, by
/// bytes, which on UTF-8 text coincides with character order — and the
/// lines afterwards are exactly the lines that were there.
#[verifier::external_body]
fn sort_lines(lines: &mut Vec<String>)
    ensures
        final(lines)@.len() == old(lines)@.len(),
        forall|i: int|
            0 <= i < final(lines)@.len() ==> spec_line_listed(
                old(lines)@,
                (#[trigger] final(lines)@[i])@,
            ),
        forall|j: int|
            0 <= j < old(lines)@.len() ==> spec_line_listed(
                final(lines)@,
                (#[trigger] old(lines)@[j])@,
            ),
        forall|i: int|
            0 < i < final(lines)@.len() ==> spec_lex_le(
                final(lines)@[i - 1]@,
                (#[trigger] final(lines)@[i])@,
            ),
{
    lines.sort();
}

/// Keeps the first occurrence of every line, dropping each later
/// repeat, and preserves the relative order of what it keeps.
fn dedup_lines(lines: &Vec<String>) -> (r: Vec<String>)
    ensures
        forall|i: int| 0 <= i < r@.len() ==> spec_line_listed(lines@, (#[trigger] r@[i])@),
        forall|j: int| 0 <= j < lines@.len() ==> spec_line_listed(r@, (#[trigger] lines@[j])@),
        forall|a: int, b: int|
            0 <= a < b < r@.len() ==> (#[trigger] r@[a])@ != (#[trigger] r@[b])@,
        (forall|x: int, y: int|
            0 <= x <= y < lines@.len() ==> spec_lex_le(
                (#[trigger] lines@[x])@,
                (#[trigger] lines@[y])@,
            )) ==> (forall|a: int, b: int|
            0 <= a < b < r@.len() ==> spec_lex_le((#[trigger] r@[a])@, (#[trigger] r@[b])@)),
{
    let mut out: Vec<String> = Vec::new();
    let ghost mut src: Seq<int> = Seq::empty();
    let mut i: usize = 0;
    while i < lines.len()
        invariant
            0 <= i <= lines@.len(),
            src.len() == out@.len(),
            forall|t: int|
                0 <= t < src.len() ==> 0 <= #[trigger] src[t] < i && out@[t]@ == lines@[src[t]]@,
            forall|t1: int, t2: int|
                0 <= t1 < t2 < src.len() ==> #[trigger] src[t1] < #[trigger] src[t2],
            forall|a: int, b: int|
                0 <= a < b < out@.len() ==> (#[trigger] out@[a])@ != (#[trigger] out@[b])@,
            forall|j: int| 0 <= j < i ==> spec_line_listed(out@, (#[trigger] lines@[j])@),
        decreases lines@.len() - i,
    {
        let mut dup = false;
        let mut k: usize = 0;
        while k < out.len() && !dup
            invariant
                0 <= k <= out@.len(),
                i < lines@.len(),
                !dup ==> forall|t: int| 0 <= t < k ==> (#[trigger] out@[t])@ != lines@[i as int]@,
                dup ==> spec_line_listed(out@, lines@[i as int]@),
            decreases out@.len() - k,
        {
            if out[k] == lines[i] {
                dup = true;
            }
            k = k + 1;
        }
        if !dup {
            let ghost prev = out@;
            let ghost prev_src = src;
            out.push(lines[i].clone());
            proof {
                src = prev_src.push(i as int);
                assert forall|t: int| 0 <= t < src.len() implies 0 <= #[trigger] src[t] < i + 1
                    && out@[t]@ == lines@[src[t]]@ by {
                    if t < prev_src.len() {
                        assert(src[t] == prev_src[t]);
                        assert(out@[t] == prev[t]);
                    } else {
                        assert(src[t] == i as int);
                        assert(out@[t]@ == lines@[i as int]@);
                    }
                }
                assert forall|t1: int, t2: int| 0 <= t1 < t2 < src.len() implies #[trigger] src[t1]
                    < #[trigger] src[t2] by {
                    if t2 < prev_src.len() {
                        assert(src[t1] == prev_src[t1]);
                        assert(src[t2] == prev_src[t2]);
                    } else {
                        assert(src[t2] == i as int);
                        assert(src[t1] == prev_src[t1]);
                        assert(prev_src[t1] < i as int);
                    }
                }
                assert forall|a: int, b: int| 0 <= a < b < out@.len() implies (
                #[trigger] out@[a])@ != (#[trigger] out@[b])@ by {
                    if b < prev.len() {
                        assert(out@[a] == prev[a]);
                        assert(out@[b] == prev[b]);
                    } else {
                        assert(out@[b]@ == lines@[i as int]@);
                        assert(out@[a] == prev[a]);
                        assert(prev[a]@ != lines@[i as int]@);
                    }
                }
                assert forall|j: int| 0 <= j < i + 1 implies spec_line_listed(
                    out@,
                    (#[trigger] lines@[j])@,
                ) by {
                    if j < i {
                        let w = choose|w: int|
                            0 <= w < prev.len() && (#[trigger] prev[w])@ == lines@[j]@;
                        assert(out@[w] == prev[w]);
                    } else {
                        assert(out@[out@.len() - 1]@ == lines@[j]@);
                    }
                }
            }
        } else {
            proof {
                let w = choose|w: int|
                    0 <= w < out@.len() && (#[trigger] out@[w])@ == lines@[i as int]@;
                assert(spec_line_listed(out@, lines@[i as int]@));
            }
        }
        i = i + 1;
    }
    proof {
        assert forall|t: int| 0 <= t < out@.len() implies spec_line_listed(
            lines@,
            (#[trigger] out@[t])@,
        ) by {
            assert(out@[t]@ == lines@[src[t]]@);
        }
        if forall|x: int, y: int|
            0 <= x <= y < lines@.len() ==> spec_lex_le(
                (#[trigger] lines@[x])@,
                (#[trigger] lines@[y])@,
            ) {
            assert forall|a: int, b: int| 0 <= a < b < out@.len() implies spec_lex_le(
                (#[trigger] out@[a])@,
                (#[trigger] out@[b])@,
            ) by {
                assert(out@[a]@ == lines@[src[a]]@);
                assert(out@[b]@ == lines@[src[b]]@);
                assert(src[a] < src[b]);
                assert(spec_lex_le(lines@[src[a]]@, lines@[src[b]]@));
            }
        }
    }
    out
}

/// Merges product results and box-product results into one listing:
/// every wanted line is listed exactly once, nothing else is, and the
/// listing is in lexicographic order.
pub fn search_result_lines(products: &Vec<ProductInfo>, boxes: &Vec<BoxInfoAdmin>) -> (r: Vec<
    String,
>)
    requires
        forall|i: int|
            0 <= i < products@.len() ==> (#[trigger] products@[i]).price > i32::MIN
                && products@[i].stock > i32::MIN,
        forall|i: int|
            0 <= i < boxes@.len() ==> (#[trigger] boxes@[i]).product.sell_price > i32::MIN
                && boxes@[i].product.stock > i32::MIN,
    ensures
        forall|i: int|
            0 <= i < r@.len() ==> spec_wanted_line(products@, boxes@, (#[trigger] r@[i])@),
        forall|j: int|
            0 <= j < products@.len() ==> spec_line_listed(
                r@,
                spec_product_line_of(#[trigger] products@[j]),
            ),
        forall|j: int|
            0 <= j < boxes@.len() ==> spec_line_listed(r@, spec_boxed_line_of(#[trigger] boxes@[j])),
        forall|a: int, b: int|
            0 <= a < b < r@.len() ==> (#[trigger] r@[a])@ != (#[trigger] r@[b])@,
        forall|a: int, b: int|
            0 <= a < b < r@.len() ==> spec_lex_le((#[trigger] r@[a])@, (#[trigger] r@[b])@),
{
    let mut lines: Vec<String> = Vec::new();
    let mut i: usize = 0;
    while i < products.len()
        invariant
            0 <= i <= products@.len(),
            forall|j: int|
                0 <= j < products@.len() ==> (#[trigger] products@[j]).price > i32::MIN
                    && products@[j].stock > i32::MIN,
            lines@.len() == i,
            forall|j: int|
                0 <= j < i ==> (#[trigger] lines@[j])@ == spec_product_line_of(products@[j]),
        decreases products@.len() - i,
    {
        let line = product_line(&products[i]);
        lines.push(line);
        i = i + 1;
    }
    let ghost plen = products@.len() as int;
    let mut k: usize = 0;
    while k < boxes.len()
        invariant
            0 <= k <= boxes@.len(),
            plen == products@.len() as int,
            forall|j: int|
                0 <= j < boxes@.len() ==> (#[trigger] boxes@[j]).product.sell_price > i32::MIN
                    && boxes@[j].product.stock > i32::MIN,
            lines@.len() == plen + k,
            forall|j: int|
                0 <= j < plen ==> (#[trigger] lines@[j])@ == spec_product_line_of(products@[j]),
            forall|j: int|
                plen <= j < plen + k ==> (#[trigger] lines@[j])@ == spec_boxed_line_of(
                    boxes@[j - plen],
                ),
        decreases boxes@.len() - k,
    {
        let line = boxed_product_line(&boxes[k].product);
        lines.push(line);
        k = k + 1;
    }
    let ghost built = lines@;
    sort_lines(&mut lines);
    proof {
        assert forall|x: int, y: int| 0 <= x <= y < lines@.len() implies spec_lex_le(
            (#[trigger] lines@[x])@,
            (#[trigger] lines@[y])@,
        ) by {
            lemma_sorted_run(lines@, x, y);
        }
        assert forall|i2: int| 0 <= i2 < lines@.len() implies spec_wanted_line(
            products@,
            boxes@,
            (#[trigger] lines@[i2])@,
        ) by {
            assert(spec_line_listed(built, lines@[i2]@));
            let k = choose|k: int| 0 <= k < built.len() && (#[trigger] built[k])@ == lines@[i2]@;
            if k < plen {
                assert(lines@[i2]@ == spec_product_line_of(products@[k]));
            } else {
                assert(lines@[i2]@ == spec_boxed_line_of(boxes@[k - plen]));
            }
        }
    }
    let deduped = dedup_lines(&lines);
    proof {
        assert forall|i2: int| 0 <= i2 < deduped@.len() implies spec_wanted_line(
            products@,
            boxes@,
            (#[trigger] deduped@[i2])@,
        ) by {
            assert(spec_line_listed(lines@, deduped@[i2]@));
            let k = choose|k: int| 0 <= k < lines@.len() && (#[trigger] lines@[k])@ == deduped@[i2]@;
            assert(spec_wanted_line(products@, boxes@, lines@[k]@));
        }
        assert forall|j: int| 0 <= j < products@.len() implies spec_line_listed(
            deduped@,
            spec_product_line_of(#[trigger] products@[j]),
        ) by {
            assert(built[j]@ == spec_product_line_of(products@[j]));
            assert(spec_line_listed(lines@, built[j]@));
            let k = choose|k: int| 0 <= k < lines@.len() && (#[trigger] lines@[k])@ == built[j]@;
            assert(spec_line_listed(deduped@, lines@[k]@));
        }
        assert forall|j: int| 0 <= j < boxes@.len() implies spec_line_listed(
            deduped@,
            spec_boxed_line_of(#[trigger] boxes@[j]),
        ) by {
            assert(built[plen + j]@ == spec_boxed_line_of(boxes@[j]));
            assert(spec_line_listed(lines@, built[plen + j]@));
            let k = choose|k: int|
                0 <= k < lines@.len() && (#[trigger] lines@[k])@ == built[plen + j]@;
            assert(spec_line_listed(deduped@, lines@[k]@));
        }
    }
    deduped
}

} // verus!
