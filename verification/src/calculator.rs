//! The calculator: addition and division of 32-bit integers.
//!
//! Every call is counted before anything about it is decided, so a division
//! that is refused has been counted all the same.

use vstd::prelude::*;
use crate::counter::RequestCount;
use crate::error::RpcError;
use crate::service::{count_after_call, Call};

verus! {

/// The two operands of a calculation.
#[derive(Debug, Clone, Copy, PartialEq, Eq, Structural)]
pub struct CalculationRequest {
    pub a: i32,
    pub b: i32,
}

/// The result of a calculation.
#[derive(Debug, Clone, Copy, PartialEq, Eq, Structural)]
pub struct CalculationResponse {
    pub result: i32,
}

/// The distance of `x` from zero.
pub open spec fn magnitude(x: int) -> int {
    if x < 0 {
        -x
    } else {
        x
    }
}

/// The quotient of `a` by `b`, rounded toward zero: the quotient of the
/// magnitudes, negative where exactly one of `a` and `b` is negative.
pub open spec fn truncated_quotient(a: int, b: int) -> int
    recommends
        b != 0,
{
    if a >= 0 && b > 0 {
        a / b
    } else if a >= 0 {
        -(a / (-b))
    } else if b > 0 {
        -((-a) / b)
    } else {
        (-a) / (-b)
    }
}

/// Whether the sum of the operands is a 32-bit integer.
pub open spec fn sum_fits(request: CalculationRequest) -> bool {
    i32::MIN <= request.a + request.b <= i32::MAX
}

/// Whether the quotient of the operands, if there is one, is a 32-bit
/// integer. It is not for the least 32-bit integer divided by minus one, and
/// for no other operands.
pub open spec fn quotient_fits(request: CalculationRequest) -> bool {
    !(request.a == i32::MIN && request.b == -1)
}

/// What a division answers: a refusal where the divisor is zero, and
/// otherwise the quotient rounded toward zero.
pub open spec fn division_outcome(request: CalculationRequest, outcome: Result<
    CalculationResponse,
    RpcError,
>) -> bool {
    if request.b == 0 {
        outcome == Err::<CalculationResponse, RpcError>(RpcError::DivisionByZero)
    } else {
        outcome matches Ok(response) && response.result == truncated_quotient(
            request.a as int,
            request.b as int,
        )
    }
}

/// What is left of `a` once the quotient rounded toward zero has been taken
/// out of it `b` times.
pub open spec fn truncated_remainder(a: int, b: int) -> int
    recommends
        b != 0,
{
    a - truncated_quotient(a, b) * b
}

/// Rounding toward zero leaves a remainder that is smaller in magnitude
/// than the divisor and that, unless it is zero, has the sign of the
/// dividend: the quotient never overshoots.
pub proof fn lemma_truncated_quotient_rounds_toward_zero(a: int, b: int)
    requires
        b != 0,
    ensures
        magnitude(truncated_remainder(a, b)) < magnitude(b),
        truncated_remainder(a, b) != 0 ==> (truncated_remainder(a, b) < 0) == (a < 0),
{
    let x = magnitude(a);
    let d = magnitude(b);
    let q = x / d;
    let r = x % d;
    vstd::arithmetic::div_mod::lemma_fundamental_div_mod(x, d);
    vstd::arithmetic::div_mod::lemma_mod_bound(x, d);
    assert(x == d * q + r);
    if (a < 0) == (b < 0) {
        assert(truncated_quotient(a, b) == q);
        if a < 0 {
            assert(a - q * b == -r) by (nonlinear_arith)
                requires
                    -a == (-b) * q + r,
            ;
        } else {
            assert(a - q * b == r) by (nonlinear_arith)
                requires
                    a == b * q + r,
            ;
        }
    } else {
        assert(truncated_quotient(a, b) == -q);
        if a < 0 {
            assert(a - (-q) * b == -r) by (nonlinear_arith)
                requires
                    -a == b * q + r,
            ;
        } else {
            assert(a - (-q) * b == r) by (nonlinear_arith)
                requires
                    a == (-b) * q + r,
            ;
        }
    }
}

/// No other integer does what the quotient rounded toward zero does: a `q`
/// that leaves of `a` a remainder smaller in magnitude than `b` and, unless
/// zero, of the sign of `a`, is that quotient.
pub proof fn lemma_truncated_quotient_is_unique(a: int, b: int, q: int)
    requires
        b != 0,
        magnitude(a - q * b) < magnitude(b),
        a - q * b != 0 ==> (a - q * b < 0) == (a < 0),
    ensures
        q == truncated_quotient(a, b),
{
    lemma_truncated_quotient_rounds_toward_zero(a, b);
    let t = truncated_quotient(a, b);
    let r = a - q * b;
    let s = a - t * b;
    assert(r - s == (t - q) * b) by (nonlinear_arith)
        requires
            r == a - q * b,
            s == a - t * b,
    ;
    assert(magnitude(r - s) < magnitude(b));
    assert(t == q) by (nonlinear_arith)
        requires
            r - s == (t - q) * b,
            -magnitude(b) < r - s < magnitude(b),
            magnitude(b) == b || magnitude(b) == -b,
            b != 0,
    ;
}

/// Dividing a non-negative number by a negative one gives the negated
/// quotient by the divisor's magnitude.
proof fn lemma_divide_by_negative(x: int, d: int)
    requires
        0 <= x,
        d < 0,
    ensures
        x / d == -(x / (-d)),
{
    let q = x / (-d);
    let r = x % (-d);
    vstd::arithmetic::div_mod::lemma_fundamental_div_mod(x, -d);
    vstd::arithmetic::div_mod::lemma_mod_bound(x, -d);
    assert(x == (-q) * d + r) by (nonlinear_arith)
        requires
            x == (-d) * q + r,
    ;
    assert(x / d == -q) by (nonlinear_arith)
        requires
            x == (-q) * d + r,
            0 <= r < -d,
            d < 0,
    ;
}

/// The quotient of a non-negative number by a positive one lies between
/// zero and the number, and below the number where the divisor is above one.
proof fn lemma_quotient_bounds(x: int, d: int)
    requires
        0 <= x,
        0 < d,
    ensures
        0 <= x / d <= x,
        x > 0 && d > 1 ==> x / d < x,
{
    vstd::arithmetic::div_mod::lemma_fundamental_div_mod(x, d);
    vstd::arithmetic::div_mod::lemma_mod_bound(x, d);
    vstd::arithmetic::div_mod::lemma_div_pos_is_pos(x, d);
    let q = x / d;
    let r = x % d;
    assert(q <= x && (x > 0 && d > 1 ==> q < x)) by (nonlinear_arith)
        requires
            x == d * q + r,
            0 <= r < d,
            0 <= q,
            0 < d,
            0 <= x,
    ;
}

/// What the machine's division of 32-bit integers computes is the quotient
/// rounded toward zero, and it is a 32-bit integer but for the least one
/// divided by minus one.
proof fn lemma_machine_quotient(a: int, b: int)
    requires
        i32::MIN <= a <= i32::MAX,
        i32::MIN <= b <= i32::MAX,
        b != 0,
        !(a == i32::MIN && b == -1),
    ensures
        i32::MIN <= truncated_quotient(a, b) <= i32::MAX,
        a >= 0 ==> a / b == truncated_quotient(a, b),
        a < 0 ==> -((-a) / b) == truncated_quotient(a, b),
{
    lemma_quotient_bounds(magnitude(a), magnitude(b));
    if b < 0 {
        lemma_divide_by_negative(magnitude(a), b);
    }
}

impl CalculationRequest {
    /// Whether `add` can answer this request: whether the sum of the
    /// operands is a 32-bit integer.
    pub fn has_sum(&self) -> (fits: bool)
        ensures
            fits == sum_fits(*self),
    {
        self.a.checked_add(self.b).is_some()
    }

    /// Whether `divide` can take this request: whether it is anything but
    /// the least 32-bit integer divided by minus one.
    pub fn has_quotient(&self) -> (fits: bool)
        ensures
            fits == quotient_fits(*self),
    {
        !(self.a == i32::MIN && self.b == -1)
    }
}

/// Serves an addition: counts the call, then answers with the sum.
pub fn add(counter: &mut RequestCount, request: &CalculationRequest) -> (response:
    CalculationResponse)
    requires
        old(counter)@ < u64::MAX,
        sum_fits(*request),
    ensures
        final(counter)@ == old(counter)@ + 1,
        final(counter)@ == count_after_call(old(counter)@, Call::Add(*request)),
        response.result == request.a + request.b,
{
    counter.increment();
    CalculationResponse { result: request.a + request.b }
}

/// Serves a division: counts the call, then refuses a zero divisor and
/// otherwise answers with the quotient rounded toward zero. The call is
/// counted whether or not it is refused.
pub fn divide(counter: &mut RequestCount, request: &CalculationRequest) -> (outcome: Result<
    CalculationResponse,
    RpcError,
>)
    requires
        old(counter)@ < u64::MAX,
        quotient_fits(*request),
    ensures
        final(counter)@ == old(counter)@ + 1,
        final(counter)@ == count_after_call(old(counter)@, Call::Divide(*request)),
        division_outcome(*request, outcome),
{
    counter.increment();
    if request.b == 0 {
        return Err(RpcError::DivisionByZero);
    }
    proof {
        lemma_machine_quotient(request.a as int, request.b as int);
    }
    Ok(CalculationResponse { result: request.a / request.b })
}

} // verus!
