use vstd::prelude::*;

use crate::text::push_char;

verus! {

/// Monetary amounts are typed as `<digits>.<exactly 2 digits>` with an
/// optional leading sign and stored as integer minor units (cents).
/// This module formats cents into that canonical form and parses the
/// form back, both against one shared mathematical model of decimal
/// digit strings.
pub open spec fn is_digit_char(c: char) -> bool {
    48 <= c as int <= 57
}

/// The numeric value of one decimal digit character.
pub open spec fn digit_of(c: char) -> int {
    c as int - 48
}

/// The decimal digit character for a value below ten.
pub open spec fn digit_char(d: int) -> char {
    if d == 0 {
        '0'
    } else if d == 1 {
        '1'
    } else if d == 2 {
        '2'
    } else if d == 3 {
        '3'
    } else if d == 4 {
        '4'
    } else if d == 5 {
        '5'
    } else if d == 6 {
        '6'
    } else if d == 7 {
        '7'
    } else if d == 8 {
        '8'
    } else {
        '9'
    }
}

/// The shortest decimal digit string of a natural number, most
/// significant digit first.
pub open spec fn spec_digits(n: nat) -> Seq<char>
    decreases n,
{
    if n < 10 {
        seq![digit_char(n as int)]
    } else {
        spec_digits(n / 10).push(digit_char((n % 10) as int))
    }
}

/// The number a digit string denotes.
pub open spec fn dec_value(s: Seq<char>) -> int
    decreases s.len(),
{
    if s.len() == 0 {
        0
    } else {
        dec_value(s.drop_last()) * 10 + digit_of(s.last())
    }
}

pub open spec fn all_digits(s: Seq<char>) -> bool {
    forall|i: int| 0 <= i < s.len() ==> is_digit_char(#[trigger] s[i])
}

/// The canonical text of `cents` minor units: optional minus sign, the
/// whole euros, a period, then exactly two cent digits.
pub open spec fn spec_format_money(cents: int) -> Seq<char> {
    let a = if cents < 0 {
        -cents
    } else {
        cents
    };
    let sign: Seq<char> = if cents < 0 {
        seq!['-']
    } else {
        Seq::empty()
    };
    sign + spec_digits((a / 100) as nat) + seq!['.', digit_char((a % 100) / 10), digit_char(a % 10)]
}

/// The unsigned money grammar: one or more digits, a period, exactly
/// two digits, nothing else.
pub open spec fn spec_money_shape(s: Seq<char>) -> bool {
    &&& s.len() >= 4
    &&& s[s.len() - 3] == '.'
    &&& forall|i: int| 0 <= i < s.len() && i != s.len() - 3 ==> is_digit_char(#[trigger] s[i])
}

/// The minor-unit value of a string of unsigned money shape.
pub open spec fn spec_money_value(s: Seq<char>) -> int {
    dec_value(s.subrange(0, s.len() - 3)) * 100 + dec_value(
        s.subrange(s.len() - 2, s.len() as int),
    )
}

/// The signed money grammar: the unsigned one, or it after a minus sign.
pub open spec fn spec_signed_money_shape(s: Seq<char>) -> bool {
    if s.len() > 0 && s[0] == '-' {
        spec_money_shape(s.skip(1))
    } else {
        spec_money_shape(s)
    }
}

pub open spec fn spec_signed_money_value(s: Seq<char>) -> int {
    if s.len() > 0 && s[0] == '-' {
        -spec_money_value(s.skip(1))
    } else {
        spec_money_value(s)
    }
}

pub proof fn lemma_spec_digits_are_digits(n: nat)
    ensures
        spec_digits(n).len() >= 1,
        all_digits(spec_digits(n)),
    decreases n,
{
    if n >= 10 {
        lemma_spec_digits_are_digits(n / 10);
        let prefix = spec_digits(n / 10);
        let whole = spec_digits(n);
        assert forall|i: int| 0 <= i < whole.len() implies is_digit_char(#[trigger] whole[i]) by {
            if i < prefix.len() {
                assert(whole[i] == prefix[i]);
            }
        }
    }
}

pub proof fn lemma_digit_char_value(d: int)
    requires
        0 <= d < 10,
    ensures
        digit_of(digit_char(d)) == d,
        is_digit_char(digit_char(d)),
{
    assert('0' as int == 48 && '1' as int == 49 && '2' as int == 50 && '3' as int == 51 && '4'
        as int == 52 && '5' as int == 53 && '6' as int == 54 && '7' as int == 55 && '8' as int
        == 56 && '9' as int == 57);
}

pub proof fn lemma_dec_value_of_digits(n: nat)
    ensures
        dec_value(spec_digits(n)) == n,
    decreases n,
{
    if n < 10 {
        lemma_digit_char_value(n as int);
        let s = spec_digits(n);
        assert(s == seq![digit_char(n as int)]);
        assert(s.len() == 1);
        assert(s.last() == digit_char(n as int));
        assert(s.drop_last() =~= Seq::<char>::empty());
        assert(dec_value(Seq::<char>::empty()) == 0);
        assert(dec_value(s) == dec_value(s.drop_last()) * 10 + digit_of(s.last()));
    } else {
        lemma_dec_value_of_digits(n / 10);
        lemma_digit_char_value((n % 10) as int);
        let prefix = spec_digits(n / 10);
        let s = spec_digits(n);
        assert(s == prefix.push(digit_char((n % 10) as int)));
        assert(s.len() == prefix.len() + 1);
        assert(s.last() == digit_char((n % 10) as int));
        assert(s.drop_last() =~= prefix);
        assert(dec_value(s) == dec_value(prefix) * 10 + digit_of(s.last()));
        assert(dec_value(s) == (n / 10) * 10 + (n % 10));
        assert((n / 10) * 10 + (n % 10) == n);
    }
}

pub proof fn lemma_dec_value_bounds(s: Seq<char>)
    requires
        all_digits(s),
    ensures
        dec_value(s) >= 0,
    decreases s.len(),
{
    if s.len() > 0 {
        assert(all_digits(s.drop_last())) by {
            assert(forall|i: int|
                0 <= i < s.len() - 1 ==> #[trigger] s.drop_last()[i] == s[i]);
        }
        lemma_dec_value_bounds(s.drop_last());
        assert(is_digit_char(s.last()));
    }
}

/// A digit prefix never denotes more than the whole string.
pub proof fn lemma_dec_value_take_le(s: Seq<char>, i: int)
    requires
        all_digits(s),
        0 <= i <= s.len(),
    ensures
        dec_value(s.take(i)) <= dec_value(s),
    decreases s.len() - i,
{
    if i < s.len() {
        lemma_dec_value_take_le(s, i + 1);
        assert(s.take(i + 1).drop_last() =~= s.take(i));
        assert(s.take(i + 1).last() == s[i]);
        assert(all_digits(s.take(i))) by {
            assert(forall|j: int| 0 <= j < i ==> #[trigger] s.take(i)[j] == s[j]);
        }
        lemma_dec_value_bounds(s.take(i));
        assert(is_digit_char(s[i]));
        assert(dec_value(s.take(i + 1)) == dec_value(s.take(i)) * 10 + digit_of(s[i]));
    } else {
        assert(s.take(i) =~= s);
    }
}

fn digit_to_char(d: u32) -> (c: char)
    requires
        d < 10,
    ensures
        c == digit_char(d as int),
{
    if d == 0 {
        '0'
    } else if d == 1 {
        '1'
    } else if d == 2 {
        '2'
    } else if d == 3 {
        '3'
    } else if d == 4 {
        '4'
    } else if d == 5 {
        '5'
    } else if d == 6 {
        '6'
    } else if d == 7 {
        '7'
    } else if d == 8 {
        '8'
    } else {
        '9'
    }
}

fn is_digit(c: char) -> (r: bool)
    ensures
        r == is_digit_char(c),
{
    let v = c as u32;
    48 <= v && v <= 57
}

/// Appends the decimal digits of `n` to `out`.
pub fn push_u32_digits(out: &mut String, n: u32)
    ensures
        final(out)@ == old(out)@ + spec_digits(n as nat),
    decreases n,
{
    if n < 10 {
        push_char(out, digit_to_char(n));
        proof {
            assert(old(out)@.push(digit_char(n as int)) =~= old(out)@ + spec_digits(n as nat));
        }
    } else {
        push_u32_digits(out, n / 10);
        push_char(out, digit_to_char(n % 10));
        proof {
            assert((old(out)@ + spec_digits((n / 10) as nat)).push(
                digit_char((n % 10) as int),
            ) =~= old(out)@ + spec_digits(n as nat));
        }
    }
}

/// Formats `cents` minor units in the canonical `<int>.<2 digits>` form,
/// negative amounts with a leading minus sign.
pub fn format_money(cents: &i32) -> (r: String)
    requires
        *cents > i32::MIN,
    ensures
        r@ == spec_format_money(*cents as int),
{
    let mut out = String::new();
    if *cents < 0 {
        push_char(&mut out, '-');
    }
    let a: u32 = if *cents < 0 {
        (-*cents) as u32
    } else {
        *cents as u32
    };
    push_u32_digits(&mut out, a / 100);
    push_char(&mut out, '.');
    push_char(&mut out, digit_to_char((a % 100) / 10));
    push_char(&mut out, digit_to_char(a % 10));
    proof {
        assert(out@ =~= spec_format_money(*cents as int));
    }
    out
}

/// The plain decimal text of a (possibly negative) integer.
pub open spec fn spec_i32_text(n: int) -> Seq<char> {
    let a = if n < 0 {
        -n
    } else {
        n
    };
    let sign: Seq<char> = if n < 0 {
        seq!['-']
    } else {
        Seq::empty()
    };
    sign + spec_digits(a as nat)
}

/// Formats a signed count or stock figure in plain decimal.
pub fn i32_to_string(n: i32) -> (r: String)
    requires
        n > i32::MIN,
    ensures
        r@ == spec_i32_text(n as int),
{
    let mut out = String::new();
    if n < 0 {
        push_char(&mut out, '-');
    }
    let a: u32 = if n < 0 {
        (-n) as u32
    } else {
        n as u32
    };
    push_u32_digits(&mut out, a);
    proof {
        assert(out@ =~= spec_i32_text(n as int));
    }
    out
}

/// True exactly when `s` has the unsigned money shape.
pub fn is_money_format(s: &str) -> (r: bool)
    ensures
        r == spec_money_shape(s@),
{
    let n: usize = s.unicode_len();
    if n < 4 {
        return false;
    }
    let mut i: usize = 0;
    while i < n
        invariant
            0 <= i <= n,
            n == s@.len(),
            4 <= n,
            forall|j: int| 0 <= j < i && j != n - 3 ==> is_digit_char(#[trigger] s@[j]),
            forall|j: int| 0 <= j < i && j == n - 3 ==> s@[j] == '.',
        decreases n - i,
    {
        let c = s.get_char(i);
        if i == n - 3 {
            if c != '.' {
                return false;
            }
        } else {
            if !is_digit(c) {
                return false;
            }
        }
        i = i + 1;
    }
    true
}

/// The value of the digit run `s[from..to]`, or None when it exceeds
/// what fits in 32 bits.
fn scan_digits_value(s: &str, from: usize, to: usize) -> (r: Option<u64>)
    requires
        from <= to <= s@.len(),
        all_digits(s@.subrange(from as int, to as int)),
    ensures
        match r {
            Some(v) => v as int == dec_value(s@.subrange(from as int, to as int)) && v <= 0xffff_ffffu64 * 10 + 9,
            None => dec_value(s@.subrange(from as int, to as int)) > u32::MAX,
        },
{
    let ghost whole = s@.subrange(from as int, to as int);
    let mut v: u64 = 0;
    let mut i: usize = from;
    proof {
        assert(s@.subrange(from as int, from as int) =~= Seq::<char>::empty());
    }
    while i < to
        invariant
            from <= i <= to <= s@.len(),
            whole == s@.subrange(from as int, to as int),
            all_digits(whole),
            v as int == dec_value(s@.subrange(from as int, i as int)),
            v <= 0xffff_ffffu64 * 10 + 9,
        decreases to - i,
    {
        if v > 0xffff_ffffu64 {
            proof {
                assert(s@.subrange(from as int, i as int) =~= whole.take(i - from));
                lemma_dec_value_take_le(whole, i - from);
            }
            return None;
        }
        let c = s.get_char(i);
        proof {
            assert(whole[i - from] == s@[i as int]);
        }
        let d: u64 = (c as u32 - 48) as u64;
        v = v * 10 + d;
        proof {
            let prev = s@.subrange(from as int, i as int);
            let next = s@.subrange(from as int, i as int + 1);
            assert(next.drop_last() =~= prev);
            assert(next.last() == s@[i as int]);
        }
        i = i + 1;
    }
    proof {
        assert(s@.subrange(from as int, i as int) == whole);
    }
    Some(v)
}

/// Parses the unsigned `<digits>.<2 digits>` money form into minor units.
pub fn parse_money(s: &str) -> (r: Option<u32>)
    ensures
        match r {
            Some(v) => spec_money_shape(s@) && v as int == spec_money_value(s@) && spec_money_value(s@) <= u32::MAX,
            None => !spec_money_shape(s@) || spec_money_value(s@) > u32::MAX,
        },
{
    let n: usize = s.unicode_len();
    if n < 4 {
        return None;
    }
    let mut i: usize = 0;
    while i < n
        invariant
            0 <= i <= n,
            n == s@.len(),
            4 <= n,
            forall|j: int| 0 <= j < i && j != n - 3 ==> is_digit_char(#[trigger] s@[j]),
            forall|j: int| 0 <= j < i && j == n - 3 ==> s@[j] == '.',
        decreases n - i,
    {
        let c = s.get_char(i);
        if i == n - 3 {
            if c != '.' {
                return None;
            }
        } else {
            if !is_digit(c) {
                return None;
            }
        }
        i = i + 1;
    }
    let ghost intpart = s@.subrange(0, n as int - 3);
    let ghost fracpart = s@.subrange(n as int - 2, n as int);
    proof {
        assert(all_digits(intpart));
        assert(all_digits(fracpart));
    }
    let d1 = s.get_char(n - 2);
    let d2 = s.get_char(n - 1);
    let f: u64 = ((d1 as u32 - 48) * 10 + (d2 as u32 - 48)) as u64;
    proof {
        assert(fracpart.len() == 2);
        assert(fracpart.last() == s@[n as int - 1]);
        assert(fracpart.drop_last() =~= seq![s@[n as int - 2]]);
        assert(seq![s@[n as int - 2]].drop_last() =~= Seq::<char>::empty());
        assert(dec_value(Seq::<char>::empty()) == 0);
        assert(dec_value(seq![s@[n as int - 2]]) == digit_of(s@[n as int - 2]));
        assert(dec_value(fracpart) == digit_of(s@[n as int - 2]) * 10 + digit_of(
            s@[n as int - 1],
        ));
    }
    let intval: u64 = match scan_digits_value(s, 0, n - 3) {
        Some(v) => v,
        None => {
            proof {
                lemma_dec_value_bounds(fracpart);
            }
            return None;
        },
    };
    let total: u64 = intval * 100 + f;
    if total > 0xffff_ffffu64 {
        None
    } else {
        Some(total as u32)
    }
}

/// Parses the money form with an optional leading minus sign.
pub fn parse_money_signed(s: &str) -> (r: Option<i32>)
    ensures
        match r {
            Some(v) => spec_signed_money_shape(s@) && v as int == spec_signed_money_value(s@),
            None => !spec_signed_money_shape(s@) || spec_signed_money_value(s@) > i32::MAX
                || spec_signed_money_value(s@) < -(i32::MAX as int),
        },
{
    let n: usize = s.unicode_len();
    if n > 0 && s.get_char(0) == '-' {
        let rest = s.substring_char(1, n);
        proof {
            assert(rest@ == s@.skip(1));
        }
        match parse_money(rest) {
            Some(v) => {
                if v <= 0x7fff_ffffu32 {
                    proof {
                        assert(spec_signed_money_value(s@) == -(v as int));
                    }
                    Some(-(v as i32))
                } else {
                    None
                }
            },
            None => None,
        }
    } else {
        match parse_money(s) {
            Some(v) => {
                if v <= 0x7fff_ffffu32 {
                    Some(v as i32)
                } else {
                    None
                }
            },
            None => None,
        }
    }
}

/// True exactly when `s` is one or more decimal digits and nothing else:
/// the shape of quantities and identifiers.
pub fn is_digits(s: &str) -> (r: bool)
    ensures
        r == (s@.len() > 0 && all_digits(s@)),
{
    let n: usize = s.unicode_len();
    if n == 0 {
        return false;
    }
    let mut i: usize = 0;
    while i < n
        invariant
            0 <= i <= n,
            n == s@.len(),
            forall|j: int| 0 <= j < i ==> is_digit_char(#[trigger] s@[j]),
        decreases n - i,
    {
        if !is_digit(s.get_char(i)) {
            return false;
        }
        i = i + 1;
    }
    true
}

/// True exactly when `s` is a positive count: digits with no leading zero.
pub fn is_count(s: &str) -> (r: bool)
    ensures
        r == (s@.len() > 0 && all_digits(s@) && s@[0] != '0'),
{
    if !is_digits(s) {
        return false;
    }
    s.get_char(0) != '0'
}

/// Parses a plain digit string, refusing values that do not fit.
pub fn parse_u32_digits(s: &str) -> (r: Option<u32>)
    ensures
        match r {
            Some(v) => s@.len() > 0 && all_digits(s@) && v as int == dec_value(s@) && dec_value(
                s@,
            ) <= u32::MAX,
            None => !(s@.len() > 0 && all_digits(s@)) || dec_value(s@) > u32::MAX,
        },
{
    if !is_digits(s) {
        return None;
    }
    let n: usize = s.unicode_len();
    proof {
        assert(s@.subrange(0, n as int) =~= s@);
    }
    match scan_digits_value(s, 0, n) {
        Some(v) => {
            if v <= 0xffff_ffffu64 {
                Some(v as u32)
            } else {
                None
            }
        },
        None => None,
    }
}

/// The stock-entry grammar: digits, optionally after a `+` (increment
/// the current stock) or a `-` (set a negative stock).
pub open spec fn spec_stock_delta_shape(s: Seq<char>) -> bool {
    if s.len() > 0 && (s[0] == '+' || s[0] == '-') {
        s.len() > 1 && all_digits(s.skip(1))
    } else {
        s.len() > 0 && all_digits(s)
    }
}

/// The stock that results from answering `s` while the stock is `current`.
pub open spec fn spec_new_stock(current: int, s: Seq<char>) -> int {
    if s.len() > 0 && s[0] == '+' {
        current + dec_value(s.skip(1))
    } else if s.len() > 0 && s[0] == '-' {
        -dec_value(s.skip(1))
    } else {
        dec_value(s)
    }
}

/// Applies a stock answer to the current stock: `+n` increments, a plain
/// or negative number replaces.
pub fn apply_stock_delta(current: i32, s: &str) -> (r: Option<i32>)
    ensures
        match r {
            Some(v) => spec_stock_delta_shape(s@) && v as int == spec_new_stock(
                current as int,
                s@,
            ),
            None => !spec_stock_delta_shape(s@) || spec_new_stock(current as int, s@) > i32::MAX
                || spec_new_stock(current as int, s@) < i32::MIN,
        },
{
    let n: usize = s.unicode_len();
    if n == 0 {
        return None;
    }
    let c0 = s.get_char(0);
    if c0 == '+' || c0 == '-' {
        if n == 1 {
            return None;
        }
        let rest = s.substring_char(1, n);
        proof {
            assert(rest@ == s@.skip(1));
        }
        let m: usize = rest.unicode_len();
        let mut i: usize = 0;
        while i < m
            invariant
                0 <= i <= m,
                m == rest@.len(),
                s@.len() > 1,
                rest@ == s@.skip(1),
                s@[0] == '+' || s@[0] == '-',
                forall|j: int| 0 <= j < i ==> is_digit_char(#[trigger] rest@[j]),
            decreases m - i,
        {
            if !is_digit(rest.get_char(i)) {
                proof {
                    assert(s@.skip(1)[i as int] == rest@[i as int]);
                    assert(!all_digits(s@.skip(1)));
                }
                return None;
            }
            i = i + 1;
        }
        proof {
            assert(rest@.subrange(0, m as int) =~= rest@);
        }
        let v: u64 = match scan_digits_value(rest, 0, m) {
            Some(v) => v,
            None => {
                proof {
                    if s@[0] == '+' {
                        assert(spec_new_stock(current as int, s@) == current as int + dec_value(
                            s@.skip(1),
                        ));
                        assert(current as int + dec_value(s@.skip(1)) > i32::MAX);
                    } else {
                        assert(spec_new_stock(current as int, s@) == -dec_value(s@.skip(1)));
                        assert(-dec_value(s@.skip(1)) < i32::MIN);
                    }
                }
                return None;
            },
        };
        if c0 == '+' {
            let total: i64 = current as i64 + v as i64;
            if total > 0x7fff_ffffi64 {
                None
            } else {
                Some(total as i32)
            }
        } else {
            if v > 0x8000_0000u64 {
                None
            } else {
                Some((-(v as i64)) as i32)
            }
        }
    } else {
        match parse_u32_digits(s) {
            Some(v) => {
                if v <= 0x7fff_ffffu32 {
                    Some(v as i32)
                } else {
                    None
                }
            },
            None => None,
        }
    }
}

/// The sell price suggested for a buy price: the configured margin,
/// given in hundredths of a percent, applied on top and the result
/// rounded up to the next minor unit.
pub open spec fn spec_suggested_price(buy: int, margin_centibp: int) -> int {
    (buy * (10000 + margin_centibp) + 9999) / 10000
}

/// Computes the suggested sell price for `buy_price` under a margin of
/// `margin_centibp` hundredths of a percent.
pub fn suggested_sell_price(buy_price: u32, margin_centibp: u32) -> (r: Option<u32>)
    requires
        margin_centibp <= 1_000_000,
    ensures
        match r {
            Some(v) => v as int == spec_suggested_price(buy_price as int, margin_centibp as int)
                && spec_suggested_price(buy_price as int, margin_centibp as int) <= u32::MAX,
            None => spec_suggested_price(buy_price as int, margin_centibp as int) > u32::MAX,
        },
{
    proof {
        assert(buy_price as int * (10000 + margin_centibp as int) <= 0xffff_ffff * 1_010_000)
            by (nonlinear_arith)
            requires
                buy_price <= 0xffff_ffffu32,
                margin_centibp <= 1_000_000,
        ;
        assert(buy_price as int * (10000 + margin_centibp as int) >= 0) by (nonlinear_arith)
            requires
                buy_price >= 0,
                margin_centibp >= 0,
        ;
    }
    let t: u64 = buy_price as u64 * (10000 + margin_centibp as u64) + 9999;
    let v: u64 = t / 10000;
    if v > 0xffff_ffffu64 {
        None
    } else {
        Some(v as u32)
    }
}

/// Formatting minor units and re-parsing the canonical text yields the
/// amount again: the money grammar loses nothing.
/// The unsigned canonical form of a non-negative amount has the money
/// shape and denotes the amount.
proof fn lemma_format_unsigned(a: int)
    requires
        0 <= a,
    ensures
        spec_money_shape(spec_digits((a / 100) as nat) + seq![
            '.',
            digit_char((a % 100) / 10),
            digit_char(a % 10),
        ]),
        spec_money_value(
            spec_digits((a / 100) as nat) + seq![
                '.',
                digit_char((a % 100) / 10),
                digit_char(a % 10),
            ],
        ) == a,
        is_digit_char(
            (spec_digits((a / 100) as nat) + seq![
                '.',
                digit_char((a % 100) / 10),
                digit_char(a % 10),
            ])[0],
        ),
{
    let q = (a / 100) as nat;
    let r = a % 100;
    lemma_spec_digits_are_digits(q);
    lemma_dec_value_of_digits(q);
    lemma_digit_char_value(r / 10);
    lemma_digit_char_value(r % 10);
    let digs = spec_digits(q);
    let tail = seq!['.', digit_char(r / 10), digit_char(r % 10)];
    let u = digs + tail;
    assert(u.len() == digs.len() + 3);
    assert(u[u.len() - 3] == tail[0]);
    assert forall|i: int| 0 <= i < u.len() && i != u.len() - 3 implies is_digit_char(
        #[trigger] u[i],
    ) by {
        if i < digs.len() {
            assert(u[i] == digs[i]);
        } else {
            assert(u[i] == tail[i - digs.len()]);
        }
    }
    assert(spec_money_shape(u));
    assert(u[0] == digs[0]);
    assert(u.subrange(0, u.len() - 3) =~= digs);
    let two = u.subrange(u.len() - 2, u.len() as int);
    assert(two =~= seq![digit_char(r / 10), digit_char(r % 10)]);
    assert(two.last() == digit_char(r % 10));
    assert(two.drop_last() =~= seq![digit_char(r / 10)]);
    assert(seq![digit_char(r / 10)].drop_last() =~= Seq::<char>::empty());
    assert(dec_value(Seq::<char>::empty()) == 0);
    assert(dec_value(seq![digit_char(r / 10)]) == digit_of(digit_char(r / 10)));
    assert(dec_value(two) == (r / 10) * 10 + r % 10);
    assert((r / 10) * 10 + r % 10 == r);
    assert(spec_money_value(u) == q * 100 + r);
    assert(q * 100 + r == a);
}

/// Formatting minor units and re-parsing the canonical text yields the
/// amount again: the money grammar loses nothing.
pub proof fn lemma_money_round_trip(cents: int)
    requires
        -0x8000_0000 < cents <= 0x7fff_ffff,
    ensures
        spec_signed_money_shape(spec_format_money(cents)),
        spec_signed_money_value(spec_format_money(cents)) == cents,
{
    let a = if cents < 0 {
        -cents
    } else {
        cents
    };
    lemma_format_unsigned(a);
    let u = spec_digits((a / 100) as nat) + seq![
        '.',
        digit_char((a % 100) / 10),
        digit_char(a % 10),
    ];
    let s = spec_format_money(cents);
    assert('-' as int == 45);
    if cents < 0 {
        assert(s =~= seq!['-'] + u);
        assert(s[0] == '-');
        assert(s.skip(1) =~= u);
    } else {
        assert(s =~= u);
        assert(s[0] == u[0]);
        assert(s[0] != '-');
    }
}

} // verus!

