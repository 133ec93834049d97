//! Atomic-unit arithmetic: decimal-string parsing, powers of ten, the
//! truncating unit scaler, and decimal formatting of scaled amounts.
//!
//! Minimum balances and chain-reported amounts travel as decimal strings
//! because they may exceed 64 bits; everything here works in `u128`.
use vstd::prelude::*;

verus! {

/// `10^e`.
pub open spec fn pow10(e: nat) -> nat
    decreases e,
{
    if e == 0 {
        1
    } else {
        10 * pow10((e - 1) as nat)
    }
}

/// A decimal digit `'0'..='9'`.
pub open spec fn is_dec_digit(c: char) -> bool {
    48 <= c as int && c as int <= 57
}

/// Numeric value of a decimal digit.
pub open spec fn digit_val(c: char) -> int {
    c as int - 48
}

/// Value of a digit string, most significant digit first.
pub open spec fn dec_value(s: Seq<char>) -> int
    decreases s.len(),
{
    if s.len() == 0 {
        0
    } else {
        dec_value(s.drop_last()) * 10 + digit_val(s.last())
    }
}

pub open spec fn all_dec_digits(s: Seq<char>) -> bool {
    forall|i: int| 0 <= i < s.len() ==> is_dec_digit(#[trigger] s[i])
}

/// The digit part of an integer literal: `u128::from_str` accepts one
/// optional leading `'+'` before the digits.
pub open spec fn dec_body(s: Seq<char>) -> Seq<char> {
    if s.len() > 0 && s[0] == '+' {
        s.drop_first()
    } else {
        s
    }
}

/// Exactly the strings that parse as a `u128`: a non-empty run of decimal
/// digits after an optional `'+'`, whose value fits in 128 bits.
pub open spec fn parses_as_u128(s: Seq<char>) -> bool {
    let body = dec_body(s);
    body.len() > 0 && all_dec_digits(body) && dec_value(body) <= u128::MAX
}

/// The number a parseable string denotes.
pub open spec fn u128_value(s: Seq<char>) -> int {
    dec_value(dec_body(s))
}

/// Display value of an atomic amount: truncating division by `10^d`.
/// Fractional atomic units below the decimal boundary are dropped.
pub open spec fn scale_spec(amount: u128, decimal_places: u32) -> int {
    (amount as int) / (pow10(decimal_places as nat) as int)
}

/// Character of one decimal digit.
pub open spec fn digit_char(d: int) -> char {
    if d == 0 {
        '0'
    } else if d == 1 {
        '1'
    } else if d == 2 {
        '2'
    } else if d == 3 {
        '3'
    } else if d == 4 {
        '4'
    } else if d == 5 {
        '5'
    } else if d == 6 {
        '6'
    } else if d == 7 {
        '7'
    } else if d == 8 {
        '8'
    } else {
        '9'
    }
}

/// Decimal rendering of `v`, without sign or leading zeros (except `"0"`).
pub open spec fn dec_str_of(v: nat) -> Seq<char>
    decreases v,
{
    if v < 10 {
        seq![digit_char(v as int)]
    } else {
        dec_str_of(v / 10).push(digit_char((v % 10) as int))
    }
}

/// What `from_atomics` renders: the display value of `s` at `d` decimal
/// places, as a decimal string.
pub open spec fn from_atomics_spec(s: Seq<char>, decimal_place: u32) -> Seq<char> {
    dec_str_of((dec_value(dec_body(s)) / pow10(decimal_place as nat) as int) as nat)
}

pub proof fn lemma_dec_value_nonneg(s: Seq<char>)
    requires
        all_dec_digits(s),
    ensures
        dec_value(s) >= 0,
    decreases s.len(),
{
    if s.len() > 0 {
        assert(all_dec_digits(s.drop_last()));
        lemma_dec_value_nonneg(s.drop_last());
    }
}

/// Appending digits never decreases the value a digit string denotes.
proof fn lemma_dec_prefix_le(t: Seq<char>, k: int)
    requires
        all_dec_digits(t),
        0 <= k <= t.len(),
    ensures
        dec_value(t.take(k)) <= dec_value(t),
    decreases t.len() - k,
{
    if k < t.len() {
        lemma_dec_prefix_le(t, k + 1);
        assert(t.take(k + 1).drop_last() =~= t.take(k));
        assert(t.take(k + 1).last() == t[k]);
        assert(all_dec_digits(t.take(k)));
        lemma_dec_value_nonneg(t.take(k));
        assert(dec_value(t.take(k + 1)) == dec_value(t.take(k)) * 10 + digit_val(t[k]));
        assert(dec_value(t.take(k)) * 10 >= dec_value(t.take(k))) by (nonlinear_arith)
            requires
                dec_value(t.take(k)) >= 0,
        ;
    } else {
        assert(t.take(k) =~= t);
    }
}

/// Parse a decimal string exactly as `u128::from_str` does: an optional
/// leading `'+'`, then one or more digits, value at most `u128::MAX`.
pub fn parse_u128(s: &str) -> (r: Option<u128>)
    ensures
        r is Some <==> parses_as_u128(s@),
        r is Some ==> r->0 as int == u128_value(s@),
{
    let n: usize = s.unicode_len();
    let start: usize = if n > 0 && s.get_char(0) as u32 == 43 { 1 } else { 0 };
    proof {
        assert(dec_body(s@) =~= s@.subrange(start as int, n as int));
    }
    if n == start {
        return None;
    }
    let ghost body = s@.subrange(start as int, n as int);
    let mut acc: u128 = 0;
    let mut i: usize = start;
    while i < n
        invariant
            start <= i <= n == s@.len(),
            body == s@.subrange(start as int, n as int),
            body == dec_body(s@),
            n > start,
            all_dec_digits(body.take(i - start)),
            acc as int == dec_value(body.take(i - start)),
        decreases n - i,
    {
        let c: char = s.get_char(i);
        let cv: u32 = c as u32;
        if cv < 48 || cv > 57 {
            proof {
                assert(body[i - start] == c);
                assert(!is_dec_digit(c));
            }
            return None;
        }
        let d: u128 = (cv - 48) as u128;
        proof {
            assert(body.take(i - start + 1).drop_last() =~= body.take(i - start));
            assert(body.take(i - start + 1).last() == c);
            assert(dec_value(body.take(i - start + 1)) == acc as int * 10 + d as int);
            assert(all_dec_digits(body.take(i - start + 1)));
        }
        if acc > u128::MAX / 10 {
            proof {
                assert(acc as int * 10 > u128::MAX) by (nonlinear_arith)
                    requires
                        acc as int > u128::MAX as int / 10,
                ;
                assert(dec_value(body.take(i - start + 1)) > u128::MAX);
                if all_dec_digits(body) {
                    lemma_dec_prefix_le(body, i - start + 1);
                }
            }
            return None;
        }
        proof {
            assert(acc as int * 10 <= u128::MAX as int / 10 * 10) by (nonlinear_arith)
                requires
                    0 <= acc as int <= u128::MAX as int / 10,
            ;
        }
        let shifted: u128 = acc * 10;
        if d > u128::MAX - shifted {
            proof {
                assert(dec_value(body.take(i - start + 1)) > u128::MAX);
                if all_dec_digits(body) {
                    lemma_dec_prefix_le(body, i - start + 1);
                }
            }
            return None;
        }
        acc = shifted + d;
        i = i + 1;
    }
    proof {
        assert(body.take(n - start) =~= body);
    }
    Some(acc)
}

proof fn lemma_pow10_pos(e: nat)
    ensures
        pow10(e) >= 1,
    decreases e,
{
    if e > 0 {
        lemma_pow10_pos((e - 1) as nat);
    }
}

proof fn lemma_pow10_value_18()
    ensures
        pow10(18) == 1000000000000000000,
{
    reveal_with_fuel(pow10, 19);
}

/// `10^e` as a `u128`, for exponents within the configured decimal range.
pub fn pow10_u128(e: u32) -> (r: u128)
    requires
        e <= 18,
    ensures
        r as int == pow10(e as nat),
        r >= 1,
{
    proof {
        lemma_pow10_value_18();
    }
    let mut r: u128 = 1;
    let mut j: u32 = 0;
    while j < e
        invariant
            j <= e <= 18,
            r as int == pow10(j as nat),
        decreases e - j,
    {
        proof {
            lemma_pow10_value_18();
            assert(pow10((j + 1) as nat) == 10 * pow10(j as nat));
            lemma_pow10_mono((j + 1) as nat, 18);
        }
        r = r * 10;
        j = j + 1;
    }
    proof {
        lemma_pow10_pos(e as nat);
    }
    r
}

proof fn lemma_pow10_mono(a: nat, b: nat)
    requires
        a <= b,
    ensures
        pow10(a) <= pow10(b),
    decreases b,
{
    if a < b {
        lemma_pow10_mono(a, (b - 1) as nat);
        lemma_pow10_pos((b - 1) as nat);
    }
}

/// Scale an atomic amount to display units: truncating division by `10^d`.
/// The identity function at zero decimal places.
pub fn scale(amount: u128, decimal_places: u32) -> (r: u128)
    requires
        decimal_places <= 18,
    ensures
        r as int == scale_spec(amount, decimal_places),
        r as int == amount as int / pow10(decimal_places as nat) as int,
        decimal_places == 0 ==> r == amount,
{
    let divisor: u128 = pow10_u128(decimal_places);
    proof {
        assert(pow10(0) == 1);
        assert(amount as int / 1int == amount as int);
    }
    amount / divisor
}

fn digit_str(d: u128) -> (r: &'static str)
    requires
        d < 10,
    ensures
        r@.len() == 1,
        r@[0] == digit_char(d as int),
{
    proof {
        reveal_strlit("0");
        reveal_strlit("1");
        reveal_strlit("2");
        reveal_strlit("3");
        reveal_strlit("4");
        reveal_strlit("5");
        reveal_strlit("6");
        reveal_strlit("7");
        reveal_strlit("8");
        reveal_strlit("9");
    }
    if d == 0 {
        "0"
    } else if d == 1 {
        "1"
    } else if d == 2 {
        "2"
    } else if d == 3 {
        "3"
    } else if d == 4 {
        "4"
    } else if d == 5 {
        "5"
    } else if d == 6 {
        "6"
    } else if d == 7 {
        "7"
    } else if d == 8 {
        "8"
    } else {
        "9"
    }
}

fn push_dec_digits(out: &mut String, v: u128)
    ensures
        final(out)@ == old(out)@ + dec_str_of(v as nat),
    decreases v,
{
    if v < 10 {
        let ds: &str = digit_str(v);
        out.append(ds);
        proof {
            assert(ds@ =~= seq![digit_char(v as int)]);
        }
    } else {
        let q: u128 = v / 10;
        let rd: u128 = v % 10;
        push_dec_digits(out, q);
        let ds: &str = digit_str(rd);
        out.append(ds);
        proof {
            assert(ds@ =~= seq![digit_char(rd as int)]);
            assert(dec_str_of((v / 10) as nat) + seq![digit_char((v % 10) as int)] =~= dec_str_of(
                (v / 10) as nat,
            ).push(digit_char((v % 10) as int)));
        }
    }
}

/// Decimal rendering of a `u128`.
pub fn u128_to_dec_string(v: u128) -> (r: String)
    ensures
        r@ == dec_str_of(v as nat),
{
    let mut s: String = String::new();
    push_dec_digits(&mut s, v);
    proof {
        assert(Seq::<char>::empty() + dec_str_of(v as nat) =~= dec_str_of(v as nat));
    }
    s
}

/// Render an atomic-unit decimal string in display units: divide by
/// `10^decimal_place`, truncating, and format the quotient.  Callers hand in
/// strings the configuration validator accepted, at a validated exponent.
pub fn from_atomics(number: &str, decimal_place: u32) -> (r: String)
    requires
        parses_as_u128(number@),
        decimal_place <= 18,
    ensures
        r@ == from_atomics_spec(number@, decimal_place),
{
    let v: u128 = parse_u128(number).unwrap();
    proof {
        lemma_dec_value_nonneg(dec_body(number@));
        lemma_pow10_pos(decimal_place as nat);
    }
    let scaled: u128 = scale(v, decimal_place);
    u128_to_dec_string(scaled)
}

} // verus!
