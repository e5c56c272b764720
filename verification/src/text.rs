//! Text of numbers: decimal digits, fixed-point amounts, and back.
use crate::fixed::{abs_of, clamp_of, min_of, MAX_AMOUNT, SCALE};
use vstd::prelude::*;

verus! {

/// `String::push` appends one character.
pub assume_specification[ String::push ](s: &mut String, ch: char)
    ensures
        final(s)@ == old(s)@.push(ch),
;

/// The character of a decimal digit.
pub open spec fn digit_char(d: int) -> char {
    (48 + d) as char
}

/// The decimal digits of a natural number, without leading zeros.
pub open spec fn nat_text(n: nat) -> Seq<char>
    decreases n,
{
    if n < 10 {
        seq![digit_char(n as int)]
    } else {
        nat_text(n / 10).push(digit_char((n % 10) as int))
    }
}

/// The decimal text of an integer, with a minus sign where it is negative.
pub open spec fn int_text(i: int) -> Seq<char> {
    if i < 0 {
        seq!['-'] + nat_text((-i) as nat)
    } else {
        nat_text(i as nat)
    }
}

/// The last `width` decimal digits of a natural number, with leading zeros.
pub open spec fn padded_text(n: nat, width: nat) -> Seq<char>
    decreases width,
{
    if width == 0 {
        seq![]
    } else {
        padded_text(n / 10, (width - 1) as nat).push(digit_char((n % 10) as int))
    }
}

/// Ten to the power `e`.
pub open spec fn pow10(e: nat) -> nat
    decreases e,
{
    if e == 0 {
        1
    } else {
        10 * pow10((e - 1) as nat)
    }
}

/// `n / d` rounded to the nearest integer, a tie going to the even one.
pub open spec fn round_half_even(n: nat, d: nat) -> nat {
    let q = n / d;
    let r = n % d;
    if 2 * r > d || (2 * r == d && q % 2 == 1) {
        q + 1
    } else {
        q
    }
}

/// The text of the amount `v` with `places` digits behind the point.
pub open spec fn fixed_text(v: int, places: nat) -> Seq<char> {
    let size = if v < 0 {
        (-v) as nat
    } else {
        v as nat
    };
    let rounded = round_half_even(size, pow10((8 - places) as nat));
    let whole = nat_text(rounded / pow10(places));
    let sign: Seq<char> = if v < 0 {
        seq!['-']
    } else {
        seq![]
    };
    if places == 0 {
        sign + whole
    } else {
        (sign + whole).push('.') + padded_text(rounded % pow10(places), places)
    }
}

fn digit_of(d: u128) -> (c: char)
    requires
        d < 10,
    ensures
        c == digit_char(d as int),
{
    (48u8 + d as u8) as char
}

/// Appends the decimal digits of `n`.
pub fn push_nat(out: &mut String, n: u128)
    ensures
        final(out)@ == old(out)@ + nat_text(n as nat),
    decreases n,
{
    if n >= 10 {
        push_nat(out, n / 10);
    }
    out.push(digit_of(n % 10));
}

/// Appends the decimal text of `i`.
pub fn push_int(out: &mut String, i: i64)
    ensures
        final(out)@ == old(out)@ + int_text(i as int),
{
    if i < 0 {
        out.push('-');
        push_nat(out, (-(i as i128)) as u128);
    } else {
        push_nat(out, i as u128);
    }
}

fn push_padded(out: &mut String, n: u128, width: usize)
    ensures
        final(out)@ == old(out)@ + padded_text(n as nat, width as nat),
    decreases width,
{
    if width > 0 {
        push_padded(out, n / 10, width - 1);
        out.push(digit_of(n % 10));
    }
}

/// The powers of ten up to the eighth are positive and at most `SCALE`.
pub proof fn lemma_pow10(e: nat)
    requires
        e <= 8,
    ensures
        1 <= pow10(e) <= SCALE,
{
    reveal_with_fuel(pow10, 9);
}

fn pow10_exec(e: usize) -> (p: u128)
    requires
        e <= 8,
    ensures
        p == pow10(e as nat),
        1 <= p <= SCALE,
    decreases e,
{
    proof {
        lemma_pow10(e as nat);
    }
    if e == 0 {
        1
    } else {
        let rest: u128 = pow10_exec(e - 1);
        10 * rest
    }
}

/// The size of `v` without its sign.
fn magnitude(v: i128) -> (size: u128)
    ensures
        size == abs_of(v as int),
        size <= 0x8000_0000_0000_0000_0000_0000_0000_0000,
{
    if v < 0 {
        (-(v + 1)) as u128 + 1
    } else {
        v as u128
    }
}

/// Appends the text of the amount `v` with `places` digits behind the point.
pub fn push_fixed(out: &mut String, v: i128, places: usize)
    requires
        places <= 8,
    ensures
        final(out)@ == old(out)@ + fixed_text(v as int, places as nat),
{
    let size: u128 = magnitude(v);
    if v < 0 {
        out.push('-');
    }
    let d: u128 = pow10_exec(8 - places);
    let q: u128 = size / d;
    let r: u128 = size % d;
    let rounded: u128 = if 2 * r > d || (2 * r == d && q % 2 == 1) {
        proof {
            assert(q <= size) by (nonlinear_arith)
                requires
                    q == size / d,
                    d >= 1,
            ;
        }
        q + 1
    } else {
        q
    };
    let p: u128 = pow10_exec(places);
    push_nat(out, rounded / p);
    if places > 0 {
        out.push('.');
        push_padded(out, rounded % p, places);
    }
    proof {
        let sign: Seq<char> = if v < 0 {
            seq!['-']
        } else {
            seq![]
        };
        let whole = nat_text((rounded / p) as nat);
        if places > 0 {
            let frac = padded_text((rounded % p) as nat, places as nat);
            assert(out@ =~= old(out)@ + ((sign + whole).push('.') + frac));
        } else {
            assert(out@ =~= old(out)@ + (sign + whole));
        }
    }
}

/// The text of the amount `v` with `places` digits behind the point.
pub fn fixed_to_string(v: i128, places: usize) -> (s: String)
    requires
        places <= 8,
    ensures
        s@ == fixed_text(v as int, places as nat),
{
    let mut out = String::new();
    push_fixed(&mut out, v, places);
    out
}

/// How many digits behind the point an amount of this size needs, given that
/// it needs no more than `places`.
pub open spec fn needed_places(size: nat, places: nat) -> nat
    decreases places,
{
    if places == 0 || size % pow10((9 - places) as nat) != 0 {
        places
    } else {
        needed_places(size, (places - 1) as nat)
    }
}

/// The text of the amount `v` with as many digits behind the point as it needs.
pub open spec fn plain_text(v: int) -> Seq<char> {
    fixed_text(v, needed_places(abs_of(v) as nat, 8))
}

/// How many digits behind the point the amount `v` needs.
pub fn needed_places_of(v: i128) -> (places: usize)
    ensures
        places == needed_places(abs_of(v as int) as nat, 8),
        places <= 8,
{
    let size: u128 = magnitude(v);
    let mut places: usize = 8;
    while places > 0 && size % pow10_exec(9 - places) == 0
        invariant
            places <= 8,
            needed_places(size as nat, 8) == needed_places(size as nat, places as nat),
        decreases places,
    {
        places = places - 1;
    }
    places
}

/// Appends the text of the amount `v` with as many digits behind the point as
/// it needs.
pub fn push_plain(out: &mut String, v: i128)
    ensures
        final(out)@ == old(out)@ + plain_text(v as int),
{
    push_fixed(out, v, needed_places_of(v));
}

/// Whether a character is a decimal digit.
pub open spec fn is_digit(c: char) -> bool {
    48 <= c as int <= 57
}

/// Whether a text consists of decimal digits.
pub open spec fn all_digits(s: Seq<char>) -> bool {
    forall|i: int| 0 <= i < s.len() ==> is_digit(#[trigger] s[i])
}

/// The number that a text of decimal digits writes.
pub open spec fn digits_value(s: Seq<char>) -> int
    decreases s.len(),
{
    if s.len() == 0 {
        0
    } else {
        10 * digits_value(s.drop_last()) + (s.last() as int - 48)
    }
}

/// The place of the first decimal point from `i` on, or the end of the text.
pub open spec fn point_from(s: Seq<char>, i: int) -> int
    decreases s.len() - i,
{
    if i >= s.len() || s[i] == '.' {
        i
    } else {
        point_from(s, i + 1)
    }
}

/// The place of the first `e` or `E` from `i` on, or the end of the text.
pub open spec fn exponent_from(s: Seq<char>, i: int) -> int
    decreases s.len() - i,
{
    if i >= s.len() || s[i] == 'e' || s[i] == 'E' {
        i
    } else {
        exponent_from(s, i + 1)
    }
}

/// The integer that digits write, with or without a sign before them.
pub open spec fn exponent_value(s: Seq<char>) -> Option<int> {
    let signed = s.len() > 0 && (s[0] == '-' || s[0] == '+');
    let d = if signed {
        s.skip(1)
    } else {
        s
    };
    if d.len() == 0 || !all_digits(d) {
        None
    } else if signed && s[0] == '-' {
        Some(-digits_value(d))
    } else {
        Some(digits_value(d))
    }
}

/// The digits that a text in decimal or scientific notation writes, and how many of
/// them make up its units; there are eight places of units behind the point.
pub open spec fn decimal_of(s: Seq<char>) -> Option<(Seq<char>, int)> {
    let e = exponent_from(s, 0);
    let mantissa = s.take(e);
    let p = point_from(mantissa, 0);
    let whole = mantissa.take(p);
    let fraction = if p < e {
        mantissa.skip(p + 1)
    } else {
        seq![]
    };
    let exponent = if e < s.len() {
        exponent_value(s.skip(e + 1))
    } else {
        Some(0)
    };
    if all_digits(whole) && all_digits(fraction) && whole.len() + fraction.len() > 0 {
        match exponent {
            Some(x) => Some((whole + fraction, whole.len() + x + 8)),
            None => None,
        }
    } else {
        None
    }
}

/// The number that the first `k` digits write, zeros standing for those that are
/// missing.
pub open spec fn leading_value(d: Seq<char>, k: int) -> int {
    if k <= 0 {
        0
    } else if k <= d.len() {
        digits_value(d.take(k))
    } else {
        digits_value(d) * pow10((k - d.len()) as nat)
    }
}

/// Whether a digit behind the first `k` is not zero.
pub open spec fn has_rest(d: Seq<char>, k: int) -> bool {
    exists|i: int| 0 <= i < d.len() && i >= k && #[trigger] d[i] != '0'
}

/// The amount that a text writes, without a sign, rounded down to a unit. One beyond
/// the largest amount counts as the largest.
pub open spec fn unsigned_units(s: Seq<char>) -> Option<int> {
    match decimal_of(s) {
        Some((d, k)) => Some(min_of(leading_value(d, k), MAX_AMOUNT as int)),
        None => None,
    }
}

/// The amount that a text in decimal or scientific notation writes, with or without
/// a sign, its size rounded down to a unit.
pub open spec fn signed_units(s: Seq<char>) -> Option<int> {
    if s.len() > 0 && s[0] == '-' {
        match unsigned_units(s.skip(1)) {
            Some(v) => Some(-v),
            None => None,
        }
    } else if s.len() > 0 && s[0] == '+' {
        unsigned_units(s.skip(1))
    } else {
        unsigned_units(s)
    }
}

pub(crate) fn chars_of(s: &str) -> (v: Vec<char>)
    ensures
        v@ == s@,
{
    let mut v: Vec<char> = Vec::new();
    for c in it: s.chars()
        invariant
            v@ == it.seq().take(it.index()),
            it.seq() == s@,
    {
        v.push(c);
    }
    v
}

fn is_digits(cs: &Vec<char>, from: usize, to: usize) -> (r: bool)
    requires
        from <= to <= cs@.len(),
    ensures
        r == all_digits(cs@.subrange(from as int, to as int)),
{
    let mut i: usize = from;
    while i < to
        invariant
            from <= i <= to <= cs@.len(),
            forall|j: int| from <= j < i ==> is_digit(#[trigger] cs@[j]),
        decreases to - i,
    {
        let c: char = cs[i];
        if !('0' <= c && c <= '9') {
            assert(!is_digit(cs@.subrange(from as int, to as int)[i - from]));
            return false;
        }
        i = i + 1;
    }
    true
}

/// The largest exponent that is told apart.
const EXPONENT_LIMIT: i128 = 1_000_000_000_000_000_000_000_000_000_000;

/// Reads the exponent written from place `from` on, brought into its limits.
fn read_exponent(cs: &Vec<char>, from: usize) -> (r: Option<i128>)
    requires
        from <= cs@.len(),
    ensures
        match r {
            Some(v) => exponent_value(cs@.skip(from as int)) is Some && v == clamp_of(
                exponent_value(cs@.skip(from as int))->Some_0,
                -EXPONENT_LIMIT,
                EXPONENT_LIMIT as int,
            ),
            None => exponent_value(cs@.skip(from as int)) is None,
        },
{
    let ghost s = cs@.skip(from as int);
    let n: usize = cs.len();
    let signed: bool = from < n && (cs[from] == '-' || cs[from] == '+');
    let first: usize = if signed {
        from + 1
    } else {
        from
    };
    let ghost d = cs@.subrange(first as int, n as int);
    proof {
        if signed {
            assert(d =~= s.skip(1));
        } else {
            assert(d =~= s);
        }
    }
    if first == n || !is_digits(cs, first, n) {
        return None;
    }
    let mut acc: i128 = 0;
    let mut i: usize = first;
    while i < n
        invariant
            first <= i <= n == cs@.len(),
            d == cs@.subrange(first as int, n as int),
            all_digits(d),
            0 <= digits_value(d.take(i - first)),
            acc == min_of(digits_value(d.take(i - first)), EXPONENT_LIMIT as int),
        decreases n - i,
    {
        let ghost part = d.take(i - first + 1);
        assert(part.drop_last() =~= d.take(i - first));
        assert(part.last() == cs@[i as int]);
        assert(is_digit(d[i - first]));
        let v: i128 = 10 * acc + (cs[i] as u32 - 48) as i128;
        acc = if v > EXPONENT_LIMIT {
            EXPONENT_LIMIT
        } else {
            v
        };
        i = i + 1;
    }
    assert(d.take(i - first) =~= d);
    if signed && cs[from] == '-' {
        Some(-acc)
    } else {
        Some(acc)
    }
}

/// Digits make a number below the power of ten of their count.
proof fn lemma_digits_bound(s: Seq<char>)
    requires
        all_digits(s),
    ensures
        0 <= digits_value(s) < pow10(s.len()),
    decreases s.len(),
{
    if s.len() > 0 {
        assert(all_digits(s.drop_last()));
        lemma_digits_bound(s.drop_last());
        assert(is_digit(s.last()));
    }
}

/// A number with a power of ten behind it that is beyond the largest amount.
proof fn lemma_far(v: int, z: nat)
    requires
        v >= 1,
        z >= 19,
    ensures
        v * pow10(z) > MAX_AMOUNT,
    decreases z,
{
    if z == 19 {
        reveal_with_fuel(pow10, 20);
        assert(v * pow10(19) >= pow10(19)) by (nonlinear_arith)
            requires
                v >= 1,
                pow10(19) >= 0,
        ;
    } else {
        lemma_far(v, (z - 1) as nat);
        assert(v * pow10(z) == 10 * (v * pow10((z - 1) as nat))) by (nonlinear_arith)
            requires
                pow10(z) == 10 * pow10((z - 1) as nat),
        ;
    }
}

/// The number that the first `k` digits write, up to the largest amount, and whether
/// a digit behind them is not zero.
fn read_leading(d: &Vec<char>, k: i128) -> (r: (u64, bool))
    requires
        all_digits(d@),
    ensures
        r.0 == min_of(leading_value(d@, k as int), MAX_AMOUNT as int),
        r.1 == has_rest(d@, k as int),
{
    let n: usize = d.len();
    let stop: usize = if k <= 0 {
        0
    } else if k < n as i128 {
        k as usize
    } else {
        n
    };
    let mut acc: u64 = 0;
    let mut i: usize = 0;
    while i < stop
        invariant
            i <= stop <= n == d@.len(),
            all_digits(d@),
            0 <= digits_value(d@.take(i as int)),
            acc == min_of(digits_value(d@.take(i as int)), MAX_AMOUNT as int),
        decreases stop - i,
    {
        let ghost part = d@.take(i as int + 1);
        assert(part.drop_last() =~= d@.take(i as int));
        assert(part.last() == d@[i as int]);
        assert(is_digit(d@[i as int]));
        let v: u64 = 10 * acc + (d[i] as u32 - 48) as u64;
        acc = if v > MAX_AMOUNT {
            MAX_AMOUNT
        } else {
            v
        };
        i = i + 1;
    }
    if k > n as i128 {
        assert(d@.take(n as int) =~= d@);
        let mut z: i128 = k - n as i128;
        let ghost whole = leading_value(d@, k as int);
        proof {
            lemma_scaled_cap(digits_value(d@), acc as int, z as nat);
        }
        while z > 0 && acc > 0 && acc < MAX_AMOUNT
            invariant
                0 <= z,
                acc <= MAX_AMOUNT,
                min_of(acc * pow10(z as nat), MAX_AMOUNT as int) == min_of(
                    whole,
                    MAX_AMOUNT as int,
                ),
            decreases z,
        {
            let v: u64 = 10 * acc;
            let ghost before = acc;
            acc = if v > MAX_AMOUNT {
                MAX_AMOUNT
            } else {
                v
            };
            proof {
                assert(before * pow10(z as nat) == v * pow10((z - 1) as nat)) by (nonlinear_arith)
                    requires
                        pow10(z as nat) == 10 * pow10((z - 1) as nat),
                        v == 10 * before,
                ;
                lemma_scaled_cap(v as int, acc as int, (z - 1) as nat);
            }
            z = z - 1;
        }
        proof {
            lemma_scaled_cap(acc as int, acc as int, z as nat);
            if acc == 0 {
                assert(0 * pow10(z as nat) == 0);
            } else if acc == MAX_AMOUNT {
                lemma_pow10_positive(z as nat);
                assert(MAX_AMOUNT * pow10(z as nat) >= MAX_AMOUNT) by (nonlinear_arith)
                    requires
                        pow10(z as nat) >= 1,
                ;
            } else {
                assert(acc * 1 == acc);
            }
        }
    }
    let mut rest: bool = false;
    let mut j: usize = stop;
    while j < n
        invariant
            stop <= j <= n == d@.len(),
            rest == exists|x: int| stop <= x < j && #[trigger] d@[x] != '0',
        decreases n - j,
    {
        if d[j] != '0' {
            rest = true;
        }
        j = j + 1;
    }
    assert(rest == has_rest(d@, k as int)) by {
        if has_rest(d@, k as int) {
            let x = choose|x: int| 0 <= x < d@.len() && x >= k && #[trigger] d@[x] != '0';
            assert(stop <= x < n);
        }
        if rest {
            let x = choose|x: int| stop <= x < n && #[trigger] d@[x] != '0';
            assert(x >= k);
        }
    }
    (acc, rest)
}

proof fn lemma_pow10_positive(e: nat)
    ensures
        pow10(e) >= 1,
    decreases e,
{
    if e > 0 {
        lemma_pow10_positive((e - 1) as nat);
    }
}

/// A number and its capped value are the same up to the cap, however many zeros
/// follow.
proof fn lemma_scaled_cap(v: int, capped: int, z: nat)
    requires
        v >= 0,
        capped == min_of(v, MAX_AMOUNT as int),
    ensures
        min_of(v * pow10(z), MAX_AMOUNT as int) == min_of(capped * pow10(z), MAX_AMOUNT as int),
{
    lemma_pow10_positive(z);
    if v > MAX_AMOUNT {
        assert(v * pow10(z) >= MAX_AMOUNT && MAX_AMOUNT * pow10(z) >= MAX_AMOUNT)
            by (nonlinear_arith)
            requires
                v > MAX_AMOUNT,
                pow10(z) >= 1,
        ;
    }
}

/// An exponent beyond its limits gives the same amount as the limit.
proof fn lemma_clamped(d: Seq<char>, k: int, clamped: int)
    requires
        all_digits(d),
        k == clamped || (d.len() + 19 <= clamped <= k) || (k <= clamped <= 0),
    ensures
        min_of(leading_value(d, k), MAX_AMOUNT as int) == min_of(
            leading_value(d, clamped),
            MAX_AMOUNT as int,
        ),
        has_rest(d, k) == has_rest(d, clamped),
{
    lemma_digits_bound(d);
    if d.len() + 19 <= clamped <= k {
        let v = digits_value(d);
        if v >= 1 {
            lemma_far(v, (k - d.len()) as nat);
            lemma_far(v, (clamped - d.len()) as nat);
        } else {
            assert(0 * pow10((k - d.len()) as nat) == 0);
            assert(0 * pow10((clamped - d.len()) as nat) == 0);
        }
    }
}

/// Reads the amount written from place `from` on, without a sign: its units, rounded
/// down, and whether something was rounded away.
fn read_decimal(cs: &Vec<char>, from: usize) -> (r: Option<(u64, bool)>)
    requires
        from <= cs@.len(),
    ensures
        match (r, decimal_of(cs@.skip(from as int))) {
            (Some(v), Some((d, k))) => v.0 == min_of(leading_value(d, k), MAX_AMOUNT as int)
                && v.1 == has_rest(d, k),
            (None, None) => true,
            _ => false,
        },
{
    let ghost s = cs@.skip(from as int);
    let n: usize = cs.len();
    let mut e: usize = from;
    while e < n && cs[e] != 'e' && cs[e] != 'E'
        invariant
            from <= e <= n == cs@.len(),
            s == cs@.skip(from as int),
            exponent_from(s, 0) == exponent_from(s, e - from),
        decreases n - e,
    {
        e = e + 1;
    }
    let ghost mantissa = s.take(e - from);
    let mut p: usize = from;
    while p < e && cs[p] != '.'
        invariant
            from <= p <= e <= n == cs@.len(),
            s == cs@.skip(from as int),
            mantissa == s.take(e - from),
            point_from(mantissa, 0) == point_from(mantissa, p - from),
        decreases e - p,
    {
        p = p + 1;
    }
    let behind: usize = if p < e {
        p + 1
    } else {
        e
    };
    let ghost whole = mantissa.take(p - from);
    let ghost fraction = if p < e {
        mantissa.skip(p - from + 1)
    } else {
        seq![]
    };
    proof {
        assert(cs@.subrange(from as int, p as int) =~= whole);
        assert(cs@.subrange(behind as int, e as int) =~= fraction);
    }
    if !is_digits(cs, from, p) || !is_digits(cs, behind, e) || p - from + (e - behind) == 0 {
        return None;
    }
    let exponent: i128 = if e < n {
        assert(cs@.skip(e as int + 1) =~= s.skip(e - from + 1));
        match read_exponent(cs, e + 1) {
            Some(x) => x,
            None => {
                return None;
            },
        }
    } else {
        0
    };
    let mut d: Vec<char> = Vec::new();
    let mut i: usize = from;
    while i < p
        invariant
            from <= i <= p <= cs@.len(),
            d@ == cs@.subrange(from as int, i as int),
        decreases p - i,
    {
        d.push(cs[i]);
        i = i + 1;
        assert(d@ =~= cs@.subrange(from as int, i as int));
    }
    let mut j: usize = behind;
    while j < e
        invariant
            behind <= j <= e <= cs@.len(),
            d@ == whole + cs@.subrange(behind as int, j as int),
        decreases e - j,
    {
        d.push(cs[j]);
        j = j + 1;
        assert(d@ =~= whole + cs@.subrange(behind as int, j as int));
    }
    assert(d@ == whole + fraction);
    assert(all_digits(d@)) by {
        assert forall|x: int| 0 <= x < d@.len() implies is_digit(#[trigger] d@[x]) by {
            if x < whole.len() {
                assert(d@[x] == whole[x]);
            } else {
                assert(d@[x] == fraction[x - whole.len()]);
            }
        }
    }
    let k: i128 = (p - from) as i128 + exponent + 8;
    proof {
        let x = if e < n {
            exponent_value(s.skip(e - from + 1))->Some_0
        } else {
            0
        };
        lemma_clamped(d@, whole.len() + x + 8, k as int);
    }
    Some(read_leading(&d, k))
}

/// Reads the amount written from place `from` on, without a sign.
fn read_units(cs: &Vec<char>, from: usize) -> (r: Option<u64>)
    requires
        from <= cs@.len(),
    ensures
        match r {
            Some(v) => unsigned_units(cs@.skip(from as int)) == Some(v as int) && v <= MAX_AMOUNT,
            None => unsigned_units(cs@.skip(from as int)) is None,
        },
{
    match read_decimal(cs, from) {
        Some(v) => Some(v.0),
        None => None,
    }
}

/// The amount that a text in decimal or scientific notation writes, with or without
/// a sign.
pub fn parse_signed(text: &str) -> (r: Option<i64>)
    ensures
        match r {
            Some(v) => signed_units(text@) == Some(v as int) && -MAX_AMOUNT <= v <= MAX_AMOUNT,
            None => signed_units(text@) is None,
        },
{
    let cs = chars_of(text);
    if cs.len() > 0 && cs[0] == '-' {
        match read_units(&cs, 1) {
            Some(v) => Some(-(v as i64)),
            None => None,
        }
    } else if cs.len() > 0 && cs[0] == '+' {
        match read_units(&cs, 1) {
            Some(v) => Some(v as i64),
            None => None,
        }
    } else {
        proof {
            assert(cs@.skip(0) =~= cs@);
        }
        match read_units(&cs, 0) {
            Some(v) => Some(v as i64),
            None => None,
        }
    }
}

/// The amount that a text in decimal or scientific notation writes, where it is not
/// negative.
pub open spec fn amount_units(s: Seq<char>) -> Option<int> {
    match signed_units(s) {
        Some(v) if v >= 0 => Some(v),
        _ => None,
    }
}

/// The amount that a text in decimal or scientific notation writes, where it is not
/// negative.
pub fn parse_amount(text: &str) -> (r: Option<u64>)
    ensures
        match r {
            Some(v) => amount_units(text@) == Some(v as int) && v <= MAX_AMOUNT,
            None => amount_units(text@) is None,
        },
{
    match parse_signed(text) {
        Some(v) => if v >= 0 {
            Some(v as u64)
        } else {
            None
        },
        None => None,
    }
}

/// The step that a text writes: its amount rounded up to a unit, so that a step finer
/// than a unit is one unit, not none. With a minus sign there is none.
pub open spec fn step_units(s: Seq<char>) -> Option<int> {
    let t = if s.len() > 0 && s[0] == '+' {
        s.skip(1)
    } else {
        s
    };
    match decimal_of(t) {
        Some((d, k)) => Some(
            min_of(
                leading_value(d, k) + if has_rest(d, k) {
                    1int
                } else {
                    0
                },
                MAX_AMOUNT as int,
            ),
        ),
        None => None,
    }
}

/// The step that a text writes, rounded up to a unit.
pub fn parse_step(text: &str) -> (r: Option<u64>)
    ensures
        match r {
            Some(v) => step_units(text@) == Some(v as int) && v <= MAX_AMOUNT,
            None => step_units(text@) is None,
        },
{
    let cs = chars_of(text);
    let from: usize = if cs.len() > 0 && cs[0] == '+' {
        1
    } else {
        0
    };
    proof {
        assert(cs@.skip(0) =~= cs@);
    }
    match read_decimal(&cs, from) {
        Some((v, rest)) => if rest && v < MAX_AMOUNT {
            Some(v + 1)
        } else {
            Some(v)
        },
        None => None,
    }
}

proof fn lemma_nat_text_digits(n: nat)
    ensures
        all_digits(nat_text(n)),
        nat_text(n).len() > 0,
        digits_value(nat_text(n)) == n,
    decreases n,
{
    if n >= 10 {
        lemma_nat_text_digits(n / 10);
        assert(nat_text(n).drop_last() =~= nat_text(n / 10));
    } else {
        reveal_with_fuel(digits_value, 2);
        assert(nat_text(n).drop_last() =~= seq![]);
        assert(nat_text(n).last() == digit_char(n as int));
    }
}

proof fn lemma_padded_text_digits(n: nat, width: nat)
    ensures
        all_digits(padded_text(n, width)),
        padded_text(n, width).len() == width,
        n < pow10(width) ==> digits_value(padded_text(n, width)) == n,
    decreases width,
{
    if width > 0 {
        lemma_padded_text_digits(n / 10, (width - 1) as nat);
        assert(padded_text(n, width).drop_last() =~= padded_text(n / 10, (width - 1) as nat));
    }
}

proof fn lemma_point_from(s: Seq<char>, i: int, p: int)
    requires
        0 <= i <= p < s.len(),
        s[p] == '.',
        forall|j: int| i <= j < p ==> #[trigger] s[j] != '.',
    ensures
        point_from(s, i) == p,
    decreases p - i,
{
    if i < p {
        lemma_point_from(s, i + 1, p);
    }
}

/// An amount printed with all its eight places reads back as itself.
pub proof fn law_amount_text_reads_back(v: int)
    requires
        0 <= v <= MAX_AMOUNT,
    ensures
        amount_units(fixed_text(v, 8)) == Some(v),
        unsigned_units(fixed_text(v, 8)) == Some(v),
{
    let n = v as nat;
    reveal_with_fuel(pow10, 9);
    assert(round_half_even(n, 1) == n);
    let unit = pow10(8);
    assert(unit == SCALE);
    let whole = nat_text(n / unit);
    let frac = padded_text(n % unit, 8);
    let s = fixed_text(v, 8);
    assert(s =~= whole.push('.') + frac);
    lemma_nat_text_digits(n / unit);
    assert(n % unit < unit);
    lemma_padded_text_digits(n % unit, 8);
    assert(digits_value(frac) == (n % unit) as int);
    let p = whole.len() as int;
    assert forall|j: int| 0 <= j < s.len() && j != p implies is_digit(#[trigger] s[j]) by {
        if j < p {
            assert(s[j] == whole[j]);
            assert(is_digit(whole[j]));
        } else if j > p {
            assert(s[j] == frac[j - p - 1]);
            assert(is_digit(frac[j - p - 1]));
        }
    }
    lemma_no_exponent(s, 0);
    assert(s.take(s.len() as int) =~= s);
    assert forall|j: int| 0 <= j < p implies #[trigger] s[j] != '.' by {
        assert(is_digit(s[j]));
    }
    lemma_point_from(s, 0, p);
    assert(s.take(p) =~= whole);
    assert(s.skip(p + 1) =~= frac);
    let d = whole + frac;
    assert(decimal_of(s) == Some((d, p + 8)));
    assert(d.take(p + 8) =~= d);
    lemma_digits_joined(whole, frac);
    assert(leading_value(d, p + 8) == digits_value(whole) * unit + digits_value(frac));
    assert((n / unit) * unit + n % unit == n) by (nonlinear_arith)
        requires
            unit > 0,
    ;
    assert(unsigned_units(s) == Some(v));
    assert(s[0] == whole[0]);
    assert(is_digit(s[0]));
    assert(s[0] != '-' && s[0] != '+');
    assert(signed_units(s) == Some(v));
}

proof fn lemma_no_exponent(s: Seq<char>, i: int)
    requires
        0 <= i <= s.len(),
        forall|j: int| i <= j < s.len() ==> #[trigger] s[j] != 'e' && s[j] != 'E',
    ensures
        exponent_from(s, i) == s.len(),
    decreases s.len() - i,
{
    if i < s.len() {
        lemma_no_exponent(s, i + 1);
    }
}

/// Digits put together write the first number with the second behind it.
proof fn lemma_digits_joined(a: Seq<char>, b: Seq<char>)
    ensures
        digits_value(a + b) == digits_value(a) * pow10(b.len()) + digits_value(b),
    decreases b.len(),
{
    if b.len() == 0 {
        assert(a + b =~= a);
        assert(digits_value(a) * 1 == digits_value(a));
    } else {
        lemma_digits_joined(a, b.drop_last());
        assert((a + b).drop_last() =~= a + b.drop_last());
        assert((a + b).last() == b.last());
        let p = pow10((b.len() - 1) as nat);
        assert(10 * (digits_value(a) * p) == digits_value(a) * (10 * p)) by (nonlinear_arith);
    }
}

/// Whether a character is white space in the sense of Unicode.
pub open spec fn is_space(c: char) -> bool {
    let u = c as int;
    ||| 0x9 <= u <= 0xd
    ||| u == 0x20
    ||| u == 0x85
    ||| u == 0xa0
    ||| u == 0x1680
    ||| 0x2000 <= u <= 0x200a
    ||| u == 0x2028
    ||| u == 0x2029
    ||| u == 0x202f
    ||| u == 0x205f
    ||| u == 0x3000
}

/// Where the white space that begins at `i` ends.
pub open spec fn after_space(s: Seq<char>, i: int) -> int
    decreases s.len() - i,
{
    if i < 0 || i >= s.len() || !is_space(s[i]) {
        i
    } else {
        after_space(s, i + 1)
    }
}

/// Where the white space that ends at `j` begins, not before `i`.
pub open spec fn before_space(s: Seq<char>, i: int, j: int) -> int
    decreases j - i,
{
    if j <= i || !is_space(s[j - 1]) {
        j
    } else {
        before_space(s, i, j - 1)
    }
}

/// A text without the white space around it.
pub open spec fn trimmed(s: Seq<char>) -> Seq<char> {
    let i = after_space(s, 0);
    s.subrange(i, before_space(s, i, s.len() as int))
}

fn is_white(c: char) -> (r: bool)
    ensures
        r == is_space(c),
{
    let u: u32 = c as u32;
    (0x9 <= u && u <= 0xd) || u == 0x20 || u == 0x85 || u == 0xa0 || u == 0x1680 || (0x2000 <= u
        && u <= 0x200a) || u == 0x2028 || u == 0x2029 || u == 0x202f || u == 0x205f || u == 0x3000
}

/// A text without the white space around it.
pub fn trim(s: &str) -> (t: &str)
    ensures
        t@ == trimmed(s@),
{
    let cs = chars_of(s);
    let n: usize = cs.len();
    let mut i: usize = 0;
    while i < n && is_white(cs[i])
        invariant
            i <= n == cs@.len(),
            after_space(cs@, 0) == after_space(cs@, i as int),
        decreases n - i,
    {
        i = i + 1;
    }
    let mut j: usize = n;
    while j > i && is_white(cs[j - 1])
        invariant
            i <= j <= n == cs@.len(),
            before_space(cs@, i as int, n as int) == before_space(cs@, i as int, j as int),
        decreases j,
    {
        j = j - 1;
    }
    s.substring_char(i, j)
}

/// The number that a text of digits writes, with or without a plus sign, where
/// it fits in 64 bits.
pub open spec fn nat_units(s: Seq<char>) -> Option<int> {
    let d = if s.len() > 0 && s[0] == '+' {
        s.skip(1)
    } else {
        s
    };
    if d.len() > 0 && all_digits(d) && digits_value(d) <= u64::MAX {
        Some(digits_value(d))
    } else {
        None
    }
}

/// The number that a text of digits writes, where it fits in 64 bits.
pub fn parse_nat(text: &str) -> (r: Option<u64>)
    ensures
        match r {
            Some(v) => nat_units(text@) == Some(v as int),
            None => nat_units(text@) is None,
        },
{
    let cs = chars_of(text);
    let n: usize = cs.len();
    let from: usize = if n > 0 && cs[0] == '+' {
        1
    } else {
        0
    };
    let ghost d = cs@.skip(from as int);
    assert(from == 0 ==> d =~= cs@);
    if n == from {
        return None;
    }
    let mut acc: u128 = 0;
    let mut i: usize = from;
    while i < n
        invariant
            from <= i <= n == cs@.len(),
            cs@ == text@,
            from == if text@.len() > 0 && text@[0] == '+' {
                1int
            } else {
                0
            },
            d == cs@.skip(from as int),
            from == 0 ==> d == cs@,
            all_digits(d.take(i - from)),
            acc == min_of(digits_value(d.take(i - from)), 0x1_0000_0000_0000_0000),
            0 <= digits_value(d.take(i - from)),
        decreases n - i,
    {
        let c: char = cs[i];
        let ghost part = d.take(i - from + 1);
        assert(part.drop_last() =~= d.take(i - from));
        assert(part.last() == c);
        if !('0' <= c && c <= '9') {
            assert(!is_digit(d[i - from]));
            return None;
        }
        let x: u128 = 10 * acc + (c as u32 - 48) as u128;
        acc = if x > 0x1_0000_0000_0000_0000 {
            0x1_0000_0000_0000_0000
        } else {
            x
        };
        i = i + 1;
    }
    assert(d.take(i - from) =~= d);
    if acc <= u64::MAX as u128 {
        Some(acc as u64)
    } else {
        None
    }
}

/// Whether two texts hold the same characters.
pub fn same_text(a: &str, b: &str) -> (r: bool)
    ensures
        r == (a@ == b@),
{
    a.to_owned() == b.to_owned()
}

/// Whether a text ends with another.
pub fn ends_with(s: &str, suffix: &str) -> (r: bool)
    ensures
        r == suffix@.is_suffix_of(s@),
{
    let n: usize = s.unicode_len();
    let m: usize = suffix.unicode_len();
    if m <= n {
        same_text(s.substring_char(n - m, n), suffix)
    } else {
        false
    }
}

/// Whether a text begins with another.
pub fn starts_with(s: &str, prefix: &str) -> (r: bool)
    ensures
        r == prefix@.is_prefix_of(s@),
{
    let n: usize = s.unicode_len();
    let m: usize = prefix.unicode_len();
    if m <= n {
        same_text(s.substring_char(0, m), prefix)
    } else {
        false
    }
}

/// `n` copies of a character.
pub open spec fn repeated(c: char, n: int) -> Seq<char> {
    Seq::new(
        if n > 0 {
            n as nat
        } else {
            0
        },
        |i: int| c,
    )
}

/// A text filled up with spaces on the right to a width.
pub open spec fn left_aligned(s: Seq<char>, width: int) -> Seq<char> {
    s + repeated(' ', width - s.len())
}

/// A text filled up with spaces on the left to a width.
pub open spec fn right_aligned(s: Seq<char>, width: int) -> Seq<char> {
    repeated(' ', width - s.len()) + s
}

/// Appends `n` copies of a character.
pub fn push_repeated(out: &mut String, c: char, n: usize)
    ensures
        final(out)@ == old(out)@ + repeated(c, n as int),
{
    let mut i: usize = 0;
    while i < n
        invariant
            i <= n,
            out@ == old(out)@ + repeated(c, i as int),
        decreases n - i,
    {
        out.push(c);
        i = i + 1;
        assert(out@ =~= old(out)@ + repeated(c, i as int));
    }
}

/// Appends a text filled up with spaces on the right to a width.
pub fn push_left_aligned(out: &mut String, s: &str, width: usize)
    ensures
        final(out)@ == old(out)@ + left_aligned(s@, width as int),
{
    let n: usize = s.unicode_len();
    out.append(s);
    if n < width {
        push_repeated(out, ' ', width - n);
    }
    assert(out@ =~= old(out)@ + left_aligned(s@, width as int));
}

/// Appends a text filled up with spaces on the left to a width.
pub fn push_right_aligned(out: &mut String, s: &str, width: usize)
    ensures
        final(out)@ == old(out)@ + right_aligned(s@, width as int),
{
    let n: usize = s.unicode_len();
    if n < width {
        push_repeated(out, ' ', width - n);
    }
    out.append(s);
    assert(out@ =~= old(out)@ + right_aligned(s@, width as int));
}

/// Texts put together with a separator between them.
pub open spec fn joined(parts: Seq<Seq<char>>, sep: Seq<char>) -> Seq<char>
    decreases parts.len(),
{
    if parts.len() == 0 {
        seq![]
    } else if parts.len() == 1 {
        parts[0]
    } else {
        joined(parts.drop_last(), sep) + sep + parts.last()
    }
}

/// The texts of a sequence of strings.
pub open spec fn texts(v: Seq<String>) -> Seq<Seq<char>> {
    Seq::new(v.len(), |i: int| v[i]@)
}

/// Texts put together with a separator between them.
pub fn join(parts: &Vec<String>, sep: &str) -> (s: String)
    ensures
        s@ == joined(texts(parts@), sep@),
{
    let mut out = String::new();
    let mut i: usize = 0;
    while i < parts.len()
        invariant
            i <= parts@.len(),
            out@ == joined(texts(parts@).take(i as int), sep@),
        decreases parts@.len() - i,
    {
        let ghost all = texts(parts@);
        let ghost before = out@;
        assert(all.take(i as int + 1).drop_last() =~= all.take(i as int));
        if i > 0 {
            out.append(sep);
        }
        out.append(parts[i].as_str());
        if i == 0 {
            assert(out@ =~= parts@[0]@);
        }
        i = i + 1;
    }
    assert(texts(parts@).take(i as int) =~= texts(parts@));
    out
}

/// Pushing a string pushes its text.
pub proof fn lemma_texts_push(v: Seq<String>, s: String)
    ensures
        texts(v.push(s)) == texts(v).push(s@),
{
    assert(texts(v.push(s)) =~= texts(v).push(s@));
}

} // verus!
