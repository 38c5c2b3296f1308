use vstd::arithmetic::div_mod::{
    lemma_div_by_multiple, lemma_div_denominator, lemma_fundamental_div_mod,
};
use vstd::arithmetic::mul::lemma_mul_inequality;
use crate::text::{all_digits, chars_of, decimal_value, digits_value, is_digit};
use vstd::prelude::*;

verus! {

/// Ten raised to the power `n`.
pub open spec fn pow10(n: nat) -> nat
    decreases n,
{
    if n == 0 {
        1
    } else {
        10 * pow10((n - 1) as nat)
    }
}

/// The value of a decimal quantity `digits / 10^scale` scaled by `10^decimals`,
/// rounded toward zero.
pub open spec fn base_units_of(digits: nat, scale: nat, decimals: nat) -> nat {
    (digits * pow10(decimals)) / pow10(scale)
}

pub proof fn lemma_pow10_positive(n: nat)
    ensures
        pow10(n) >= 1,
    decreases n,
{
    if n > 0 {
        lemma_pow10_positive((n - 1) as nat);
    }
}

pub proof fn lemma_pow10_add(a: nat, b: nat)
    ensures
        pow10(a + b) == pow10(a) * pow10(b),
    decreases a,
{
    if a > 0 {
        lemma_pow10_add((a - 1) as nat, b);
        assert(pow10(a + b) == 10 * pow10((a - 1 + b) as nat));
        assert(10 * (pow10((a - 1) as nat) * pow10(b)) == (10 * pow10((a - 1) as nat)) * pow10(b))
            by (nonlinear_arith);
    } else {
        assert(a + b == b);
        assert(1 * pow10(b) == pow10(b));
    }
}

pub proof fn lemma_pow10_monotone(a: nat, b: nat)
    requires
        a <= b,
    ensures
        pow10(a) <= pow10(b),
{
    lemma_pow10_add(a, (b - a) as nat);
    lemma_pow10_positive((b - a) as nat);
    lemma_pow10_positive(a);
    lemma_mul_inequality(1, pow10((b - a) as nat) as int, pow10(a) as int);
    assert(pow10(a) * 1 == pow10(a));
    assert(pow10(a) * pow10((b - a) as nat) == pow10((b - a) as nat) * pow10(a))
        by (nonlinear_arith);
}

/// The conversion to base units is the floor of the scaled amount: for an
/// amount `a = digits / 10^scale` and `d` decimal places, the result `u`
/// satisfies `u <= a * 10^d < u + 1`.
pub proof fn lemma_base_units_is_floor(digits: nat, scale: nat, decimals: nat)
    ensures
        base_units_of(digits, scale, decimals) * pow10(scale) <= digits * pow10(decimals),
        digits * pow10(decimals) < (base_units_of(digits, scale, decimals) + 1) * pow10(scale),
{
    let x = (digits * pow10(decimals)) as int;
    let m = pow10(scale) as int;
    lemma_pow10_positive(scale);
    lemma_fundamental_div_mod(x, m);
    vstd::arithmetic::div_mod::lemma_mod_bound(x, m);
    let q = x / m;
    assert(q * m == m * q) by (nonlinear_arith);
    assert((q + 1) * m == m * q + m) by (nonlinear_arith);
}

/// A non-negative decimal quantity, worth `digits / 10^scale`.
#[derive(Clone, Copy, Debug, PartialEq, Eq, Structural)]
pub struct DecimalAmount {
    pub digits: u64,
    pub scale: u32,
}

/// `s` splits at `p` into whole digits, then, where `p` is not its end, a
/// decimal point followed by fraction digits.
pub open spec fn decimal_split(s: Seq<char>, p: int) -> bool {
    &&& 0 < p <= s.len()
    &&& all_digits(s.take(p))
    &&& (p == s.len() || (s[p] == '.' && p + 1 < s.len() && all_digits(s.skip(p + 1))))
}

/// The digits of `s` split at `p`, without the decimal point.
pub open spec fn split_digits(s: Seq<char>, p: int) -> Seq<char> {
    if p == s.len() {
        s
    } else {
        s.take(p) + s.skip(p + 1)
    }
}

/// The number of fraction digits of `s` split at `p`.
pub open spec fn split_scale(s: Seq<char>, p: int) -> nat {
    if p == s.len() {
        0
    } else {
        (s.len() - p - 1) as nat
    }
}

proof fn lemma_split_is_at_first_point(s: Seq<char>, p: int, q: int)
    requires
        0 <= p <= s.len(),
        forall|j: int| 0 <= j < p ==> s[j] != '.',
        p == s.len() || s[p] == '.',
        decimal_split(s, q),
    ensures
        q == p,
{
    if q < p {
        assert(s[q] != '.');
    } else if q > p {
        assert(s.take(q)[p] == '.');
        assert(!is_digit(s.take(q)[p]));
    }
}

/// Ten raised to `n`, or `None` where that exceeds `u64::MAX`.
fn checked_pow10(n: u32) -> (r: Option<u64>)
    ensures
        r matches Some(v) ==> v == pow10(n as nat),
        r is None ==> pow10(n as nat) > u64::MAX,
{
    let mut v: u64 = 1;
    let mut i: u32 = 0;
    while i < n
        invariant
            i <= n,
            v == pow10(i as nat),
        decreases n - i,
    {
        match v.checked_mul(10) {
            Some(next) => {
                v = next;
                i = i + 1;
            },
            None => {
                proof {
                    lemma_pow10_monotone((i + 1) as nat, n as nat);
                }
                return None;
            },
        }
    }
    Some(v)
}

impl DecimalAmount {
    /// Reads a decimal such as `12`, `0.5` or `1.25`: digits, then
    /// optionally a point and more digits. `None` where the text is not of
    /// that form, or its digits without the point do not fit in `u64`.
    pub fn parse(s: &str) -> (r: Option<DecimalAmount>)
        ensures
            r matches Some(a) ==> exists|p: int|
                {
                    &&& #[trigger] decimal_split(s@, p)
                    &&& a.digits == decimal_value(split_digits(s@, p))
                    &&& a.scale == split_scale(s@, p)
                },
            r is None ==> forall|p: int| #[trigger]
                decimal_split(s@, p) ==> decimal_value(split_digits(s@, p)) > u64::MAX
                    || split_scale(s@, p) > u32::MAX,
    {
        let cs = chars_of(s);
        let n = cs.len();
        let mut p: usize = 0;
        while p < n && cs[p] != '.'
            invariant
                p <= n,
                n == cs@.len(),
                forall|j: int| 0 <= j < p ==> cs@[j] != '.',
            decreases n - p,
        {
            p = p + 1;
        }
        proof {
            assert forall|q: int| #[trigger] decimal_split(s@, q) implies q == p by {
                lemma_split_is_at_first_point(s@, p as int, q);
            }
        }
        if p == 0 || (p < n && p + 1 == n) {
            return None;
        }
        let scale = n - p - (if p < n { 1usize } else { 0usize });
        if scale > u32::MAX as usize {
            return None;
        }
        let mut d: Vec<char> = Vec::new();
        let mut i: usize = 0;
        while i < n
            invariant
                i <= n,
                n == cs@.len(),
                p <= n,
                d@ == (if i <= p {
                    cs@.take(i as int)
                } else {
                    cs@.take(p as int) + cs@.subrange(p + 1, i as int)
                }),
            decreases n - i,
        {
            if i != p {
                proof {
                    if i < p {
                        assert(cs@.take(i + 1) == cs@.take(i as int).push(cs@[i as int]));
                    } else {
                        assert(cs@.subrange(p + 1, i + 1) == cs@.subrange(p + 1, i as int).push(
                            cs@[i as int],
                        ));
                    }
                }
                d.push(cs[i]);
            } else {
                assert(cs@.subrange(p + 1, p + 1) =~= Seq::<char>::empty());
            }
            i = i + 1;
        }
        let ghost sp = s@;
        proof {
            if p == n {
                assert(cs@.take(n as int) == cs@);
            } else {
                assert(cs@.subrange(p + 1, n as int) == cs@.skip(p + 1));
            }
            assert(d@ == split_digits(sp, p as int));
            assert(all_digits(d@) ==> all_digits(sp.take(p as int))) by {
                if all_digits(d@) {
                    assert forall|j: int| 0 <= j < p implies is_digit(#[trigger] sp.take(p as int)[j]) by {
                        assert(d@[j] == sp.take(p as int)[j]);
                    }
                }
            }
            assert(p < n && all_digits(d@) ==> all_digits(sp.skip(p + 1))) by {
                if p < n && all_digits(d@) {
                    assert forall|j: int| 0 <= j < sp.skip(p + 1).len() implies is_digit(
                        #[trigger] sp.skip(p + 1)[j],
                    ) by {
                        assert(d@[p + j] == sp.skip(p + 1)[j]);
                    }
                }
            }
            assert(decimal_split(sp, p as int) ==> all_digits(d@)) by {
                if decimal_split(sp, p as int) {
                    assert forall|j: int| 0 <= j < d@.len() implies is_digit(#[trigger] d@[j]) by {
                        if j < p {
                            assert(d@[j] == sp.take(p as int)[j]);
                        } else {
                            assert(d@[j] == sp.skip(p + 1)[j - p]);
                        }
                    }
                }
            }
        }
        match digits_value(&d) {
            Some(v) => {
                assert(decimal_split(sp, p as int));
                Some(DecimalAmount { digits: v, scale: scale as u32 })
            },
            None => None,
        }
    }

    /// The amount in integer base units of a token with `decimals` decimal
    /// places, truncated toward zero; `None` where that does not fit in `u64`.
    pub fn to_base_units(&self, decimals: u32) -> (r: Option<u64>)
        ensures
            base_units_of(self.digits as nat, self.scale as nat, decimals as nat) <= u64::MAX
                ==> r == Some(
                base_units_of(self.digits as nat, self.scale as nat, decimals as nat) as u64,
            ),
            base_units_of(self.digits as nat, self.scale as nat, decimals as nat) > u64::MAX
                ==> r is None,
    {
        let ghost d = self.digits as nat;
        let ghost s = self.scale as nat;
        let ghost e = decimals as nat;
        proof {
            lemma_pow10_positive(s);
            lemma_pow10_positive(e);
        }
        if decimals >= self.scale {
            let k = decimals - self.scale;
            proof {
                lemma_pow10_add(s, k as nat);
                assert(d * pow10(e) == (d * pow10(k as nat)) * pow10(s)) by (nonlinear_arith)
                    requires
                        pow10(e) == pow10(s) * pow10(k as nat),
                ;
                lemma_div_by_multiple((d * pow10(k as nat)) as int, pow10(s) as int);
                assert(base_units_of(d, s, e) == d * pow10(k as nat));
            }
            if self.digits == 0 {
                assert(base_units_of(d, s, e) == 0);
                return Some(0);
            }
            match checked_pow10(k) {
                Some(p) => self.digits.checked_mul(p),
                None => {
                    proof {
                        lemma_mul_inequality(1, d as int, pow10(k as nat) as int);
                        assert(1 * pow10(k as nat) == pow10(k as nat));
                    }
                    None
                },
            }
        } else {
            let k = self.scale - decimals;
            proof {
                lemma_pow10_add(e, k as nat);
                lemma_pow10_positive(k as nat);
                lemma_div_denominator((d * pow10(e)) as int, pow10(e) as int, pow10(k as nat) as int);
                assert(d * pow10(e) == pow10(e) * d) by (nonlinear_arith);
                lemma_div_by_multiple(d as int, pow10(e) as int);
                assert(base_units_of(d, s, e) == d / pow10(k as nat));
            }
            match checked_pow10(k) {
                Some(p) => Some(self.digits / p),
                None => {
                    assert(d / pow10(k as nat) == 0) by {
                        lemma_fundamental_div_mod(d as int, pow10(k as nat) as int);
                        if d / pow10(k as nat) >= 1 {
                            lemma_mul_inequality(
                                1,
                                d as int / pow10(k as nat) as int,
                                pow10(k as nat) as int,
                            );
                            assert(pow10(k as nat) * (d as int / pow10(k as nat) as int)
                                == (d as int / pow10(k as nat) as int) * pow10(k as nat))
                                by (nonlinear_arith);
                        }
                    }
                    Some(0)
                },
            }
        }
    }
}

} // verus!
