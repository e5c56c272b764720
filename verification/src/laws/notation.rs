//! What numbers in texts mean.
use super::amounts::is_quotient;
use crate::text::{
    all_digits, amount_units, decimal_of, digits_value, exponent_from, fixed_text, has_rest,
    int_text, is_digit, joined, leading_value, left_aligned, nat_text, nat_units, point_from,
    pow10, repeated, right_aligned, round_half_even, signed_units, step_units, unsigned_units,
};
use vstd::prelude::*;

verus! {

/// Rounding leads to the nearest number, and halfway between two to the even one.
pub proof fn law_rounding(n: nat, d: nat)
    requires
        d > 0,
    ensures
        ({
            let off = round_half_even(n, d) * d - n;
            &&& -d <= 2 * off <= d
            &&& 2 * off == d || 2 * off == -d ==> round_half_even(n, d) % 2 == 0
        }),
{
    let q = n / d;
    let r = n % d;
    assert(n == q * d + r && r < d) by (nonlinear_arith)
        requires
            d > 0,
            q == n / d,
            r == n % d,
    ;
    assert((q + 1) * d == q * d + d) by (nonlinear_arith);
}

/// A minus sign before an amount turns it round, a plus sign changes nothing. An amount
/// that must not be negative is none where it is.
pub proof fn law_signs(s: Seq<char>)
    requires
        s.len() > 0,
        s[0] != '-',
        s[0] != '+',
    ensures
        signed_units(seq!['-'] + s) is Some <==> signed_units(s) is Some,
        signed_units(s) is Some ==> signed_units(seq!['-'] + s)->Some_0 == -signed_units(
            s,
        )->Some_0,
        signed_units(seq!['+'] + s) == signed_units(s),
        signed_units(s) is Some && signed_units(s)->Some_0 > 0 ==> amount_units(seq!['-'] + s)
            is None,
        signed_units(s) is Some && signed_units(s)->Some_0 >= 0 ==> amount_units(s)
            == signed_units(s),
{
    assert((seq!['-'] + s).skip(1) =~= s);
    assert((seq!['+'] + s).skip(1) =~= s);
}

/// The text of a negative number is a minus sign and the text of its size.
pub proof fn law_number_signs(v: int, places: nat)
    requires
        v > 0,
        0 < places <= 8,
    ensures
        int_text(-v) == seq!['-'] + nat_text(v as nat),
        int_text(v) == nat_text(v as nat),
        fixed_text(-v, places) == seq!['-'] + fixed_text(v, places),
{
    assert(fixed_text(-v, places) =~= seq!['-'] + fixed_text(v, places));
}

proof fn lemma_no_exponent(s: Seq<char>, i: int)
    requires
        0 <= i <= s.len(),
        forall|k: int| i <= k < s.len() ==> #[trigger] s[k] != 'e' && s[k] != 'E',
    ensures
        exponent_from(s, i) == s.len(),
    decreases s.len() - i,
{
    if i < s.len() {
        lemma_no_exponent(s, i + 1);
    }
}

proof fn lemma_point(s: Seq<char>, i: int, p: int)
    requires
        0 <= i <= p <= s.len(),
        p == s.len() || s[p] == '.',
        forall|k: int| i <= k < p ==> #[trigger] s[k] != '.',
    ensures
        point_from(s, i) == p,
    decreases p - i,
{
    if i < p {
        lemma_point(s, i + 1, p);
    }
}

/// Digits with a point among them write their number with as many places as stand behind
/// the point; digits alone write a whole number. There are eight places of units.
pub proof fn law_point(whole: Seq<char>, fraction: Seq<char>)
    requires
        all_digits(whole),
        all_digits(fraction),
        whole.len() > 0,
    ensures
        decimal_of(whole.push('.') + fraction) == Some((whole + fraction, whole.len() as int + 8)),
        decimal_of(whole) == Some((whole, whole.len() as int + 8)),
{
    let s = whole.push('.') + fraction;
    let n = whole.len() as int;
    assert forall|k: int| 0 <= k < s.len() implies #[trigger] s[k] != 'e' && s[k] != 'E' by {
        if k < n {
            assert(s[k] == whole[k] && is_digit(whole[k]));
        } else if k > n {
            assert(s[k] == fraction[k - n - 1] && is_digit(fraction[k - n - 1]));
        }
    }
    lemma_no_exponent(s, 0);
    assert(s.take(s.len() as int) =~= s);
    assert forall|k: int| 0 <= k < n implies #[trigger] s[k] != '.' by {
        assert(s[k] == whole[k] && is_digit(whole[k]));
    }
    lemma_point(s, 0, n);
    assert(s.take(n) =~= whole);
    assert(s.skip(n + 1) =~= fraction);
    assert forall|k: int| 0 <= k < n implies #[trigger] whole[k] != 'e' && whole[k] != 'E'
        && whole[k] != '.' by {
        assert(is_digit(whole[k]));
    }
    lemma_no_exponent(whole, 0);
    assert(whole.take(n) =~= whole);
    lemma_point(whole, 0, n);
    assert(whole + Seq::<char>::empty() =~= whole);
}

proof fn lemma_digits(d: Seq<char>, k: int)
    requires
        all_digits(d),
        0 <= k <= d.len(),
    ensures
        digits_value(d.take(k)) * pow10((d.len() - k) as nat) <= digits_value(d) < (digits_value(
            d.take(k),
        ) + 1) * pow10((d.len() - k) as nat),
    decreases d.len(),
{
    if k == d.len() {
        assert(d.take(k) =~= d);
        let p = pow10((d.len() - k) as nat) as int;
        let a = digits_value(d);
        assert(p == 1);
        assert(a * p <= a < (a + 1) * p) by (nonlinear_arith)
            requires
                p == 1,
        ;
    } else {
        let e = d.drop_last();
        assert forall|i: int| 0 <= i < e.len() implies is_digit(#[trigger] e[i]) by {
            assert(e[i] == d[i]);
        }
        lemma_digits(e, k);
        assert(e.take(k) =~= d.take(k));
        let p = pow10((e.len() - k) as nat) as int;
        let a = digits_value(d.take(k));
        let b = digits_value(e);
        let x = d.last() as int - 48;
        assert(is_digit(d[d.len() - 1]));
        let t = pow10((d.len() - k) as nat) as int;
        assert((d.len() - k) as nat == (e.len() - k) as nat + 1);
        assert(t == 10 * p);
        assert(a * t <= 10 * b + x < (a + 1) * t) by (nonlinear_arith)
            requires
                t == 10 * p,
                a * p <= b,
                b < (a + 1) * p,
                0 <= x <= 9,
        ;
    }
}

/// An amount is rounded down to a unit: what is behind the places that count is left
/// out. Where there are fewer places, the missing ones are zeros. A step is rounded up.
pub proof fn law_places(d: Seq<char>, k: int)
    requires
        all_digits(d),
        0 < k,
    ensures
        k <= d.len() ==> is_quotient(
            leading_value(d, k),
            digits_value(d),
            pow10((d.len() - k) as nat) as int,
        ),
        k > d.len() ==> leading_value(d, k) == digits_value(d) * pow10((k - d.len()) as nat),
        k >= d.len() ==> !has_rest(d, k),
{
    if k <= d.len() {
        lemma_digits(d, k);
    }
}

/// An amount with a point in it is what its digits write, in units; one beyond the
/// largest amount counts as the largest. Its step is the same, or one unit more where a
/// digit that does not count is not zero.
pub proof fn law_amount(whole: Seq<char>, fraction: Seq<char>)
    requires
        all_digits(whole),
        all_digits(fraction),
        whole.len() > 0,
    ensures
        ({
            let s = whole.push('.') + fraction;
            let v = leading_value(whole + fraction, whole.len() as int + 8);
            let most: int = 1_000_000_000_000_000_000;
            let step = if has_rest(whole + fraction, whole.len() as int + 8) {
                v + 1
            } else {
                v
            };
            &&& v <= most ==> unsigned_units(s) == Some(v)
            &&& v > most ==> unsigned_units(s) == Some(most)
            &&& step <= most ==> step_units(s) == Some(step)
            &&& step > most ==> step_units(s) == Some(most)
            &&& signed_units(s) == unsigned_units(s)
        }),
{
    law_point(whole, fraction);
    let s = whole.push('.') + fraction;
    assert(s[0] == whole[0] && is_digit(whole[0]));
}

/// A text of digits writes a natural number, with or without a plus sign; one that does
/// not fit, and any other text, writes none.
pub proof fn law_natural(d: Seq<char>)
    requires
        d.len() > 0,
        d[0] != '+',
    ensures
        all_digits(d) && digits_value(d) <= u64::MAX ==> nat_units(d) == Some(digits_value(d))
            && nat_units(seq!['+'] + d) == Some(digits_value(d)),
        !all_digits(d) || digits_value(d) > u64::MAX ==> nat_units(d) is None,
        nat_units(Seq::empty()) is None,
{
    assert((seq!['+'] + d).skip(1) =~= d);
}

/// Texts are joined in their order, with the separator between two of them and nowhere
/// else.
pub proof fn law_joined(parts: Seq<Seq<char>>, last: Seq<char>, sep: Seq<char>)
    ensures
        joined(Seq::empty(), sep).len() == 0,
        joined(seq![last], sep) == last,
        parts.len() > 0 ==> joined(parts.push(last), sep) == joined(parts, sep) + sep + last,
{
    assert(parts.push(last).drop_last() =~= parts);
}

/// A text is filled up to a width and never cut; on the left side where it is aligned to
/// the right, on the right side where it is aligned to the left.
pub proof fn law_alignment(s: Seq<char>, width: int)
    ensures
        width >= s.len() ==> left_aligned(s, width).len() == width && right_aligned(s, width).len()
            == width,
        width < s.len() ==> left_aligned(s, width) == s && right_aligned(s, width) == s,
        s.is_prefix_of(left_aligned(s, width)),
        s.is_suffix_of(right_aligned(s, width)),
        forall|i: int|
            s.len() <= i < left_aligned(s, width).len() ==> #[trigger] left_aligned(s, width)[i]
                == ' ',
{
    let l = left_aligned(s, width);
    let r = right_aligned(s, width);
    let pad = repeated(' ', width - s.len());
    assert(l.subrange(0, s.len() as int) =~= s);
    assert(r.subrange(r.len() - s.len(), r.len() as int) =~= s);
    if width < s.len() {
        assert(pad.len() == 0);
        assert(l =~= s);
        assert(r =~= s);
    }
}

} // verus!
