use vstd::prelude::*;

verus! {

/// The platform's cut of a payment of `amount` at `fee_bps` basis points,
/// rounded down.
pub open spec fn fee_of(amount: int, fee_bps: int) -> int {
    amount * fee_bps / 10000
}

/// Computes `floor(amount * fee_bps / 10000)` without forming the product,
/// so that no intermediate value can overflow.
pub fn platform_fee(amount: i128, fee_bps: u32) -> (fee: i128)
    requires
        amount >= 0,
        fee_bps <= 10000,
    ensures
        fee == fee_of(amount as int, fee_bps as int),
        0 <= fee <= amount,
{
    let whole: i128 = amount / 10000;
    let rest: i128 = amount % 10000;
    let bps: i128 = fee_bps as i128;
    proof {
        assert(whole * bps <= whole * 10000) by (nonlinear_arith)
            requires
                whole >= 0,
                0 <= bps <= 10000,
        ;
        assert(rest * bps <= rest * 10000) by (nonlinear_arith)
            requires
                rest >= 0,
                0 <= bps <= 10000,
        ;
    }
    let fee = whole * bps + rest * bps / 10000;
    proof {
        let a = amount as int;
        let b = bps as int;
        assert(a == whole * 10000 + rest);
        assert((whole * 10000 + rest) * b == whole * b * 10000 + rest * b) by (nonlinear_arith);
        assert((whole * b * 10000 + rest * b) / 10000 == whole * b + (rest * b) / 10000)
            by (nonlinear_arith)
            requires
                rest * b >= 0,
        ;
        assert(rest * b / 10000 <= rest * 10000 / 10000) by (nonlinear_arith)
            requires
                0 <= rest * b <= rest * 10000,
        ;
        assert(whole * b + rest <= a);
    }
    fee
}

} // verus!
