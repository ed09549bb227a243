//! How numbers are written in the labels of the loadout screen.

use vstd::prelude::*;

verus! {

/// The character of a decimal digit.
pub open spec fn digit(d: nat) -> char {
    seq!['0', '1', '2', '3', '4', '5', '6', '7', '8', '9'][(d % 10) as int]
}

/// The decimal numeral of `n`, without leading zeros.
pub open spec fn decimal(n: nat) -> Seq<char>
    decreases n,
{
    if n < 10 {
        seq![digit(n)]
    } else {
        decimal(n / 10).push(digit(n % 10))
    }
}

/// The numeral of a number below a thousand, digit by digit.
pub proof fn lemma_decimal_below_thousand(n: nat)
    requires
        n < 1000,
    ensures
        n < 10 ==> decimal(n) == seq![digit(n)],
        10 <= n < 100 ==> decimal(n) == seq![digit(n / 10), digit(n % 10)],
        100 <= n ==> decimal(n) == seq![digit(n / 100), digit((n / 10) % 10), digit(n % 10)],
{
    if n >= 10 {
        let q = n / 10;
        assert(decimal(n) == decimal(q).push(digit(n % 10)));
        if q >= 10 {
            assert(q / 10 == n / 100);
            assert(decimal(q) == decimal(q / 10).push(digit(q % 10)));
            assert(decimal(q / 10) == seq![digit(q / 10)]);
            assert(decimal(n) =~= seq![digit(n / 100), digit((n / 10) % 10), digit(n % 10)]);
        } else {
            assert(decimal(q) == seq![digit(q)]);
            assert(decimal(n) =~= seq![digit(n / 10), digit(n % 10)]);
        }
    }
}

/// `10^k`.
pub open spec fn pow10(k: nat) -> nat
    decreases k,
{
    if k == 0 {
        1
    } else {
        10 * pow10((k - 1) as nat)
    }
}

/// The last `width` decimal digits of `n`, with leading zeros.
pub open spec fn padded(n: nat, width: nat) -> Seq<char>
    decreases width,
{
    if width == 0 {
        seq![]
    } else {
        padded(n / 10, (width - 1) as nat).push(digit(n % 10))
    }
}

/// The fractional digits of `frac` (which has `places` digits) without
/// trailing zeros.
pub open spec fn fraction(frac: nat, places: nat) -> Seq<char>
    decreases places,
{
    if places == 0 {
        seq![]
    } else if frac % 10 == 0 {
        fraction(frac / 10, (places - 1) as nat)
    } else {
        padded(frac, places)
    }
}

/// The numeral of `v / 10^places` as a decimal fraction, written the
/// shortest way: no trailing zeros, and no point for a whole number.
pub open spec fn fixed_text(v: nat, places: nat) -> Seq<char> {
    let unit = pow10(places);
    if v % unit == 0 {
        decimal(v / unit)
    } else {
        decimal(v / unit) + seq!['.'] + fraction(v % unit, places)
    }
}

/// `t` occurs in `s`.
pub open spec fn mentions(s: Seq<char>, t: Seq<char>) -> bool {
    exists|i: int| 0 <= i && i + t.len() <= s.len() && #[trigger] s.subrange(i, i + t.len()) == t
}

/// `t` occurs in `s` where `s` holds it at `i`.
pub proof fn lemma_mentions_at(s: Seq<char>, t: Seq<char>, i: int)
    requires
        0 <= i,
        i + t.len() <= s.len(),
        s.subrange(i, i + t.len()) == t,
    ensures
        mentions(s, t),
{
}

/// A fraction of thousandths below ten, written out: its whole digit, then
/// the point and the significant fractional digits, if any.
pub proof fn lemma_fixed_text_thousandths(v: nat)
    requires
        v < 10000,
    ensures
        ({
            let w = v / 1000;
            let f = v % 1000;
            &&& f == 0 ==> fixed_text(v, 3) == seq![digit(w)]
            &&& f != 0 && f % 100 == 0 ==> fixed_text(v, 3) == seq![digit(w), '.', digit(f / 100)]
            &&& f % 100 != 0 && f % 10 == 0 ==> fixed_text(v, 3) == seq![
                digit(w),
                '.',
                digit(f / 100),
                digit((f / 10) % 10),
            ]
            &&& f % 10 != 0 ==> fixed_text(v, 3) == seq![
                digit(w),
                '.',
                digit(f / 100),
                digit((f / 10) % 10),
                digit(f % 10),
            ]
        }),
{
    reveal_with_fuel(pow10, 4);
    let w = v / 1000;
    let f = v % 1000;
    lemma_decimal_below_thousand(w);
    reveal_with_fuel(padded, 4);
    reveal_with_fuel(fraction, 4);
    if f != 0 {
        if f % 10 == 0 {
            if f % 100 == 0 {
                assert(fraction(f, 3) == fraction(f / 10, 2));
                assert((f / 10) % 10 == 0);
                assert(fraction(f / 10, 2) == fraction(f / 100, 1));
                assert(fraction(f / 100, 1) =~= seq![digit(f / 100)]);
            } else {
                assert(fraction(f, 3) == fraction(f / 10, 2));
                assert(fraction(f / 10, 2) == padded(f / 10, 2));
                assert(padded(f / 10, 2) =~= seq![digit(f / 100), digit((f / 10) % 10)]);
            }
        } else {
            assert(fraction(f, 3) == padded(f, 3));
            assert(padded(f, 3) =~= seq![digit(f / 100), digit((f / 10) % 10), digit(f % 10)]);
        }
        assert(fixed_text(v, 3) =~= seq![digit(w), '.'] + fraction(f, 3));
    }
}

/// A fraction of hundredths below ten, written out: its whole digit, then
/// the point and the significant fractional digits, if any.
pub proof fn lemma_fixed_text_hundredths(v: nat)
    requires
        v < 1000,
    ensures
        ({
            let w = v / 100;
            let f = v % 100;
            &&& f == 0 ==> fixed_text(v, 2) == seq![digit(w)]
            &&& f != 0 && f % 10 == 0 ==> fixed_text(v, 2) == seq![digit(w), '.', digit(f / 10)]
            &&& f % 10 != 0 ==> fixed_text(v, 2) == seq![digit(w), '.', digit(f / 10), digit(f % 10)]
        }),
{
    reveal_with_fuel(pow10, 3);
    let w = v / 100;
    let f = v % 100;
    lemma_decimal_below_thousand(w);
    reveal_with_fuel(padded, 3);
    reveal_with_fuel(fraction, 3);
    if f != 0 {
        if f % 10 == 0 {
            assert(fraction(f, 2) == fraction(f / 10, 1));
            assert(fraction(f / 10, 1) =~= seq![digit(f / 10)]);
        } else {
            assert(fraction(f, 2) == padded(f, 2));
            assert(padded(f, 2) =~= seq![digit(f / 10), digit(f % 10)]);
        }
        assert(fixed_text(v, 2) =~= seq![digit(w), '.'] + fraction(f, 2));
    }
}

} // verus!
