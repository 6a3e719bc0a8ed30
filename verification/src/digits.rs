//! Decimal rendering of small numbers, for choice labels.

use vstd::prelude::*;

verus! {

/// The character of one decimal digit.
pub open spec fn digit_char(d: nat) -> char {
    if d == 0 {
        '0'
    } else if d == 1 {
        '1'
    } else if d == 2 {
        '2'
    } else if d == 3 {
        '3'
    } else if d == 4 {
        '4'
    } else if d == 5 {
        '5'
    } else if d == 6 {
        '6'
    } else if d == 7 {
        '7'
    } else if d == 8 {
        '8'
    } else {
        '9'
    }
}

/// The decimal digits of `n`, most significant first, without leading
/// zeros (except for `n == 0` itself).
pub open spec fn spec_digits(n: nat) -> Seq<char>
    decreases n,
{
    if n < 10 {
        seq![digit_char(n)]
    } else {
        spec_digits(n / 10) + seq![digit_char(n % 10)]
    }
}

pub open spec fn pow10(k: nat) -> nat
    decreases k,
{
    if k == 0 {
        1
    } else {
        10 * pow10((k - 1) as nat)
    }
}

/// A number below `10^k` has at most `k` decimal digits.
pub proof fn lemma_digits_len(n: nat, k: nat)
    requires
        1 <= k,
        n < pow10(k),
    ensures
        1 <= spec_digits(n).len() <= k,
    decreases k,
{
    if n < 10 {
    } else {
        assert(pow10(k) == 10 * pow10((k - 1) as nat));
        if k == 1 {
            assert(pow10(1nat) == 10);
        }
        assert(n / 10 < pow10((k - 1) as nat)) by (nonlinear_arith)
            requires
                n < 10 * pow10((k - 1) as nat),
                10 <= n,
        ;
        lemma_digits_len(n / 10, (k - 1) as nat);
    }
}

/// Any `u32` has at most 10 decimal digits.
pub proof fn lemma_digits_len_u32(n: u32)
    ensures
        1 <= spec_digits(n as nat).len() <= 10,
{
    assert(pow10(0nat) == 1);
    assert(pow10(1nat) == 10);
    assert(pow10(2nat) == 100);
    assert(pow10(3nat) == 1000);
    assert(pow10(4nat) == 10000);
    assert(pow10(5nat) == 100000);
    assert(pow10(6nat) == 1000000);
    assert(pow10(7nat) == 10000000);
    assert(pow10(8nat) == 100000000);
    assert(pow10(9nat) == 1000000000);
    assert(pow10(10nat) == 10000000000);
    lemma_digits_len(n as nat, 10);
}

/// The decimal digits of `n`, most significant first.
pub fn u32_digits(n: u32) -> (r: Vec<char>)
    ensures
        r@ == spec_digits(n as nat),
{
    if n == 0 {
        let mut r: Vec<char> = Vec::new();
        r.push('0');
        proof {
            assert(r@ =~= spec_digits(0));
        }
        return r;
    }
    let mut digits_rev: Vec<char> = Vec::new();
    let mut m = n;
    while m > 0
        invariant
            m > 0 ==> spec_digits(n as nat) == spec_digits(m as nat) + digits_rev@.reverse(),
            m == 0 ==> spec_digits(n as nat) == digits_rev@.reverse(),
        decreases m,
    {
        let d = m % 10;
        let ghost before = digits_rev@;
        digits_rev.push(digit_char_of(d));
        m = m / 10;
        proof {
            assert(before.push(digit_char(d as nat)).reverse() =~= seq![digit_char(d as nat)]
                + before.reverse());
            if m > 0 {
                assert(spec_digits((m * 10 + d) as nat) == spec_digits(m as nat) + seq![
                    digit_char(d as nat),
                ]);
                assert((spec_digits(m as nat) + seq![digit_char(d as nat)]) + before.reverse()
                    =~= spec_digits(m as nat) + (seq![digit_char(d as nat)] + before.reverse()));
            } else {
                assert(spec_digits(d as nat) == seq![digit_char(d as nat)]);
            }
        }
    }
    let mut r: Vec<char> = Vec::new();
    let mut i = digits_rev.len();
    while i > 0
        invariant
            i <= digits_rev@.len(),
            r@ == digits_rev@.skip(i as int).reverse(),
        decreases i,
    {
        i -= 1;
        let c = digits_rev[i];
        r.push(c);
        proof {
            assert(digits_rev@.skip(i as int).reverse() =~= digits_rev@.skip(i + 1).reverse().push(
                digits_rev@[i as int],
            ));
        }
    }
    proof {
        assert(digits_rev@.skip(0) =~= digits_rev@);
    }
    r
}

/// The character of one digit value.
pub fn digit_char_of(d: u32) -> (c: char)
    requires
        d < 10,
    ensures
        c == digit_char(d as nat),
{
    match d {
        0 => '0',
        1 => '1',
        2 => '2',
        3 => '3',
        4 => '4',
        5 => '5',
        6 => '6',
        7 => '7',
        8 => '8',
        _ => '9',
    }
}

} // verus!
