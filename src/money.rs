//! Money amounts: exact decimal values held as whole hundredths of the currency unit.
use vstd::prelude::*;

use crate::outside::decimal_parts;
use crate::outside::decimal_parts_of;
use crate::services::ServiceError;

verus! {

/// Ten to the power `n`.
pub open spec fn pow10(n: nat) -> int
    decreases n,
{
    if n == 0 {
        1
    } else {
        10 * pow10((n - 1) as nat)
    }
}

/// Whether `c` hundredths equal the decimal mantissa × 10^(−scale).
pub open spec fn denotes(c: int, mantissa: int, scale: nat) -> bool {
    c * pow10(scale) == mantissa * 100
}

/// Whether the decimal mantissa × 10^(−scale) is a whole number of hundredths that
/// fits an `i64`.
pub open spec fn representable(mantissa: int, scale: nat) -> bool {
    exists|c: i64| #[trigger] denotes(c as int, mantissa, scale)
}

proof fn lemma_pow10_positive(n: nat)
    ensures
        pow10(n) > 0,
    decreases n,
{
    if n > 0 {
        lemma_pow10_positive((n - 1) as nat);
    }
}

proof fn lemma_pow10_add(x: nat, y: nat)
    ensures
        pow10(x + y) == pow10(x) * pow10(y),
    decreases y,
{
    if y > 0 {
        lemma_pow10_add(x, (y - 1) as nat);
        assert(pow10(x + y) == 10 * pow10((x + y - 1) as nat));
        assert(pow10(x) * (10 * pow10((y - 1) as nat)) == 10 * (pow10(x) * pow10((y - 1) as nat)))
            by (nonlinear_arith);
    }
}

/// Two numbers of hundredths that denote the same decimal are equal.
proof fn lemma_denotes_unique(c: int, d: int, mantissa: int, scale: nat)
    requires
        denotes(c, mantissa, scale),
        denotes(d, mantissa, scale),
    ensures
        c == d,
{
    lemma_pow10_positive(scale);
    let p = pow10(scale);
    assert(c == d) by (nonlinear_arith)
        requires
            c * p == d * p,
            p > 0,
    ;
}

/// At scales up to two a decimal is `mantissa × 10^(2 − scale)` hundredths.
proof fn lemma_small_scale(c: int, mantissa: int, scale: nat)
    requires
        scale <= 2,
    ensures
        scale == 0 ==> (denotes(c, mantissa, scale) <==> c == mantissa * 100),
        scale == 1 ==> (denotes(c, mantissa, scale) <==> c == mantissa * 10),
        scale == 2 ==> (denotes(c, mantissa, scale) <==> c == mantissa),
{
    reveal_with_fuel(pow10, 3);
    if scale == 0 {
        assert(pow10(scale) == 1);
    } else if scale == 1 {
        assert(pow10(scale) == 10);
    } else {
        assert(pow10(scale) == 100);
    }
}

/// The number of hundredths that the decimal mantissa × 10^(−scale) denotes, as read
/// from a parsed decimal.
///
/// Fails with `InvalidInput` exactly when that value is not a whole number of
/// hundredths or does not fit an `i64`.
pub fn amount_from_parts(mantissa: i128, scale: u32) -> (r: Result<i64, ServiceError>)
    ensures
        r matches Ok(c) ==> denotes(c as int, mantissa as int, scale as nat),
        r is Ok <==> representable(mantissa as int, scale as nat),
        r is Err ==> r matches Err(ServiceError::InvalidInput(_)),
{
    let neg = mantissa < 0;
    let a0: u128 = if neg {
        ((-(mantissa + 1)) as u128) + 1
    } else {
        mantissa as u128
    };
    let ghost sign: int = if neg { -1 } else { 1 };
    proof {
        if neg {
            assert(mantissa as int == -(a0 as int));
        }
        assert(mantissa as int == sign * a0);
    }
    if scale <= 2 {
        let f: u128 = if scale == 0 {
            100
        } else if scale == 1 {
            10
        } else {
            1
        };
        proof {
            assert forall|c: int| #[trigger] denotes(c, mantissa as int, scale as nat) <==> c == mantissa * f by {
                lemma_small_scale(c, mantissa as int, scale as nat);
            }
        }
        if a0 > 0x8000_0000_0000_0000 {
            proof {
                assert forall|c: i64| !#[trigger] denotes(c as int, mantissa as int, scale as nat) by {
                    if f == 100 {
                        assert(c as int != mantissa * 100);
                    } else if f == 10 {
                        assert(c as int != mantissa * 10);
                    }
                    assert(denotes(c as int, mantissa as int, scale as nat) <==> c == mantissa * f);
                }
            }
            return Err(ServiceError::InvalidInput(String::from_str("the amount is too large")));
        }
        let m: u128 = a0 * f;
        if (neg && m > 0x8000_0000_0000_0000) || (!neg && m > 0x7fff_ffff_ffff_ffff) {
            proof {
                assert(m as int == a0 * f);
                assert forall|c: i64| !#[trigger] denotes(c as int, mantissa as int, scale as nat) by {
                    if f == 100 {
                        assert(c as int != mantissa * 100);
                    } else if f == 10 {
                        assert(c as int != mantissa * 10);
                    }
                    assert(denotes(c as int, mantissa as int, scale as nat) <==> c == mantissa * f);
                }
            }
            return Err(ServiceError::InvalidInput(String::from_str("the amount is too large")));
        }
        let c: i64 = if neg {
            (-(m as i128)) as i64
        } else {
            m as i64
        };
        proof {
            if f == 100 {
                assert(c as int == mantissa * 100);
            } else if f == 10 {
                assert(c as int == mantissa * 10);
            }
            assert(c as int == mantissa * f);
            assert(denotes(c as int, mantissa as int, scale as nat));
        }
        return Ok(c);
    }
    let mut a: u128 = a0;
    let mut k: u32 = scale;
    while k > 2 && a != 0
        invariant
            2 <= k <= scale,
            sign == 1 || sign == -1,
            mantissa as int == sign * a0,
            a0 as int == a as int * pow10((scale - k) as nat),
        decreases k,
    {
        if a % 10 != 0 {
            proof {
                assert forall|c: i64| !#[trigger] denotes(c as int, mantissa as int, scale as nat) by {
                    let e = (scale - k) as nat;
                    lemma_pow10_add(e, k as nat);
                    lemma_pow10_add(3, (k - 3) as nat);
                    lemma_pow10_positive(e);
                    assert(pow10(3) == 1000) by {
                        reveal_with_fuel(pow10, 4);
                    }
                    let pe = pow10(e);
                    let pk = pow10((k - 3) as nat);
                    let ci = c as int;
                    let ai = a as int;
                    if denotes(ci, mantissa as int, scale as nat) {
                        assert(ci * pe * (1000 * pk) == sign * ai * pe * 100) by (nonlinear_arith)
                            requires
                                ci * (pe * (1000 * pk)) == mantissa * 100,
                                mantissa == sign * (ai * pe),
                        ;
                        assert(ci * (10 * pk) == sign * ai) by (nonlinear_arith)
                            requires
                                ci * pe * (1000 * pk) == sign * ai * pe * 100,
                                pe > 0,
                        ;
                        assert(ai == 10 * (sign * ci * pk)) by (nonlinear_arith)
                            requires
                                ci * (10 * pk) == sign * ai,
                                sign == 1 || sign == -1,
                        ;
                        assert(ai % 10 == 0);
                    }
                }
            }
            return Err(ServiceError::InvalidInput(String::from_str("the amount has more than two decimal places")));
        }
        let ghost prev = a as int;
        a = a / 10;
        k = k - 1;
        proof {
            let e = (scale - k) as nat;
            assert(pow10(e) == 10 * pow10((e - 1) as nat));
            assert(prev == a as int * 10);
            assert(a0 as int == a as int * pow10(e)) by (nonlinear_arith)
                requires
                    a0 as int == prev * pow10((e - 1) as nat),
                    prev == a as int * 10,
                    pow10(e) == 10 * pow10((e - 1) as nat),
            ;
        }
    }
    if a == 0 {
        proof {
            assert(a0 == 0);
            assert(denotes(0, mantissa as int, scale as nat));
        }
        return Ok(0);
    }
    proof {
        lemma_pow10_add((scale - 2) as nat, 2);
        assert(pow10(2) == 100) by {
            reveal_with_fuel(pow10, 3);
        }
        let pe = pow10((scale - 2) as nat);
        assert(sign * a * pow10(scale as nat) == mantissa * 100) by (nonlinear_arith)
            requires
                pow10(scale as nat) == pe * 100,
                a0 as int == a as int * pe,
                mantissa as int == sign * a0,
        ;
        assert(denotes(sign * a, mantissa as int, scale as nat));
    }
    if (neg && a > 0x8000_0000_0000_0000) || (!neg && a > 0x7fff_ffff_ffff_ffff) {
        proof {
            assert forall|c: i64| !#[trigger] denotes(c as int, mantissa as int, scale as nat) by {
                if denotes(c as int, mantissa as int, scale as nat) {
                    lemma_denotes_unique(c as int, sign * a, mantissa as int, scale as nat);
                }
            }
        }
        return Err(ServiceError::InvalidInput(String::from_str("the amount is too large")));
    }
    let c: i64 = if neg {
        (-(a as i128)) as i64
    } else {
        a as i64
    };
    assert(c as int == sign * a);
    Ok(c)
}

/// The number of hundredths that a decimal text such as `"30.25"` denotes.
///
/// Fails with `InvalidInput` when the text is not a decimal number, or its value is
/// not a whole number of hundredths that fits an `i64`.
pub fn parse_amount(text: &str) -> (r: Result<i64, ServiceError>)
    ensures
        r matches Ok(c) ==> (decimal_parts_of(text@) matches Some(p) && denotes(
            c as int,
            p.0 as int,
            p.1 as nat,
        )),
        r is Ok <==> (decimal_parts_of(text@) matches Some(p) && representable(
            p.0 as int,
            p.1 as nat,
        )),
        r is Err ==> r matches Err(ServiceError::InvalidInput(_)),
{
    match decimal_parts(text) {
        Some((mantissa, scale)) => amount_from_parts(mantissa, scale),
        None => Err(ServiceError::InvalidInput(String::from_str("not a decimal number"))),
    }
}

} // verus!
