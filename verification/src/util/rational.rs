//! Exact rational numbers as numerator/denominator pairs, with exact
//! reduction by the greatest common divisor.

use vstd::prelude::*;

use crate::error::Error;

verus! {

/// Greatest common divisor, by Euclid's algorithm.  `gcd(0, 0) == 0`.
pub open spec fn gcd(a: nat, b: nat) -> nat
    decreases b,
{
    if b == 0 {
        a
    } else {
        gcd(b, a % b)
    }
}

/// A rational number `num / den`.  The pair is stored as given; no
/// implicit normalisation happens, mirroring the foreign library's
/// time-base values.
#[derive(Copy, Clone, Debug, PartialEq, Eq, Structural)]
pub struct Rational {
    num: i32,
    den: i32,
}

impl Rational {
    pub closed spec fn spec_num(&self) -> i32 {
        self.num
    }

    pub closed spec fn spec_den(&self) -> i32 {
        self.den
    }

    /// Magnitude of the numerator.
    pub open spec fn abs_num(&self) -> nat {
        if self.spec_num() < 0 {
            (-(self.spec_num() as int)) as nat
        } else {
            self.spec_num() as nat
        }
    }

    /// Magnitude of the denominator.
    pub open spec fn abs_den(&self) -> nat {
        if self.spec_den() < 0 {
            (-(self.spec_den() as int)) as nat
        } else {
            self.spec_den() as nat
        }
    }

    pub fn new(num: i32, den: i32) -> (r: Rational)
        ensures
            r.spec_num() == num,
            r.spec_den() == den,
    {
        Rational { num, den }
    }

    pub fn num(&self) -> (n: i32)
        ensures
            n == self.spec_num(),
    {
        self.num
    }

    pub fn den(&self) -> (d: i32)
        ensures
            d == self.spec_den(),
    {
        self.den
    }

    /// Divide numerator and denominator by their greatest common
    /// divisor, keeping each one's sign.  Fails exactly when a reduced
    /// magnitude still does not fit the 32-bit range (which can only
    /// happen for the most negative numerator or denominator).
    pub fn reduce(&self) -> (r: Result<Rational, Error>)
        ensures
            ({
                let g = gcd(self.abs_num(), self.abs_den());
                if g == 0 {
                    r == Ok::<Rational, Error>(*self)
                } else {
                    let an = self.abs_num() / g;
                    let ad = self.abs_den() / g;
                    if an <= i32::MAX as nat && ad <= i32::MAX as nat {
                        match r {
                            Ok(q) => {
                                &&& q.spec_num() as int == if self.spec_num() < 0 {
                                    -(an as int)
                                } else {
                                    an as int
                                }
                                &&& q.spec_den() as int == if self.spec_den() < 0 {
                                    -(ad as int)
                                } else {
                                    ad as int
                                }
                            },
                            Err(_) => false,
                        }
                    } else {
                        r == Err::<Rational, Error>(Error::InexactRational)
                    }
                }
            }),
    {
        let a: u64 = if self.num < 0 {
            (-(self.num as i64)) as u64
        } else {
            self.num as u64
        };
        let b: u64 = if self.den < 0 {
            (-(self.den as i64)) as u64
        } else {
            self.den as u64
        };
        let g = gcd_u64(a, b);
        if g == 0 {
            return Ok(*self);
        }
        let an: u64 = a / g;
        let ad: u64 = b / g;
        if an > i32::MAX as u64 || ad > i32::MAX as u64 {
            return Err(Error::InexactRational);
        }
        let num: i32 = if self.num < 0 {
            -(an as i32)
        } else {
            an as i32
        };
        let den: i32 = if self.den < 0 {
            -(ad as i32)
        } else {
            ad as i32
        };
        Ok(Rational { num, den })
    }
}

/// The greatest common divisor divides both of its arguments.
pub proof fn lemma_gcd_divides(a: nat, b: nat)
    requires
        gcd(a, b) > 0,
    ensures
        a % gcd(a, b) == 0,
        b % gcd(a, b) == 0,
    decreases b,
{
    let g = gcd(a, b);
    if b == 0 {
        assert(g == a);
        vstd::arithmetic::div_mod::lemma_mod_self_0(a as int);
        vstd::arithmetic::div_mod::lemma_small_mod(0, a);
    } else {
        assert(g == gcd(b, a % b));
        lemma_gcd_divides(b, a % b);
        vstd::arithmetic::div_mod::lemma_fundamental_div_mod(a as int, b as int);
        let q = a as int / b as int;
        let r = a as int % b as int;
        assert(a as int == b as int * q + r);
        let kb = b as int / g as int;
        let kr = r / g as int;
        vstd::arithmetic::div_mod::lemma_fundamental_div_mod(b as int, g as int);
        vstd::arithmetic::div_mod::lemma_fundamental_div_mod(r, g as int);
        assert(b as int == g as int * kb);
        assert(r == g as int * kr);
        assert(a as int == g as int * (kb * q + kr)) by (nonlinear_arith)
            requires
                a as int == b as int * q + r,
                b as int == g as int * kb,
                r == g as int * kr,
        ;
        vstd::arithmetic::div_mod::lemma_mod_multiples_basic(kb * q + kr, g as int);
    }
}

/// Reduction preserves the value: a pair produced by [`Rational::reduce`]
/// cross-multiplies with the original, `reduced.num * orig.den ==
/// reduced.den * orig.num`.
pub proof fn lemma_reduce_preserves_ratio(orig: Rational, reduced: Rational)
    requires
        ({
            let g = gcd(orig.abs_num(), orig.abs_den());
            &&& g > 0
            &&& reduced.spec_num() as int == if orig.spec_num() < 0 {
                -((orig.abs_num() / g) as int)
            } else {
                (orig.abs_num() / g) as int
            }
            &&& reduced.spec_den() as int == if orig.spec_den() < 0 {
                -((orig.abs_den() / g) as int)
            } else {
                (orig.abs_den() / g) as int
            }
        }),
    ensures
        reduced.spec_num() as int * orig.spec_den() as int == reduced.spec_den() as int
            * orig.spec_num() as int,
{
    let g = gcd(orig.abs_num(), orig.abs_den());
    let an = orig.abs_num() / g;
    let ad = orig.abs_den() / g;
    lemma_gcd_divides(orig.abs_num(), orig.abs_den());
    vstd::arithmetic::div_mod::lemma_fundamental_div_mod(orig.abs_num() as int, g as int);
    vstd::arithmetic::div_mod::lemma_fundamental_div_mod(orig.abs_den() as int, g as int);
    assert(orig.abs_num() as int == g as int * an as int);
    assert(orig.abs_den() as int == g as int * ad as int);
    let n = orig.spec_num() as int;
    let d = orig.spec_den() as int;
    let rn = reduced.spec_num() as int;
    let rd = reduced.spec_den() as int;
    assert(rn * d == rd * n) by (nonlinear_arith)
        requires
            orig.abs_num() as int == g as int * an as int,
            orig.abs_den() as int == g as int * ad as int,
            g as int > 0,
            orig.abs_num() as int == if n < 0 {
                -n
            } else {
                n
            },
            orig.abs_den() as int == if d < 0 {
                -d
            } else {
                d
            },
            rn == if n < 0 {
                -(an as int)
            } else {
                an as int
            },
            rd == if d < 0 {
                -(ad as int)
            } else {
                ad as int
            },
    ;
}

/// Euclid's algorithm on machine words.
fn gcd_u64(a: u64, b: u64) -> (g: u64)
    ensures
        g as nat == gcd(a as nat, b as nat),
    decreases b,
{
    if b == 0 {
        a
    } else {
        gcd_u64(b, a % b)
    }
}

} // verus!
