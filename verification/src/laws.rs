//! System-wide laws of the settlement core, stated and proved once.
//!
//! The operations' own contracts pin down each step exactly; the proof
//! functions here state what those steps add up to over whole runs: value
//! conservation, single settlement per position, and the bounds and
//! proportionality of the payout arithmetic.

use vstd::prelude::*;
use crate::engine::{claim_gate_error, fee_total_of, payout_of, share_of, user_fee_of};
use crate::engine::{lemma_fee_le_pot, lemma_share_le_whole};
use crate::errors::ErrorCode;
use crate::market::{Market, Position, BPS_DENOMINATOR};

verus! {

/// One movement of value across a market's vault boundary: a stake coming
/// in, or a payment going out (a decisive payout, a refund, or a fee
/// withdrawal).
pub enum Flow {
    Deposit(u64),
    Payment(u64),
}

/// Net effect of one flow on the combined vault balance.
pub open spec fn flow_delta(f: Flow) -> int {
    match f {
        Flow::Deposit(a) => a as int,
        Flow::Payment(a) => -(a as int),
    }
}

/// Total value staked over a sequence of flows.
pub open spec fn staked_total(fs: Seq<Flow>) -> int
    decreases fs.len(),
{
    if fs.len() == 0 {
        0
    } else {
        staked_total(fs.drop_last()) + (match fs.last() {
            Flow::Deposit(a) => a as int,
            Flow::Payment(_) => 0,
        })
    }
}

/// Total value paid out over a sequence of flows.
pub open spec fn paid_total(fs: Seq<Flow>) -> int
    decreases fs.len(),
{
    if fs.len() == 0 {
        0
    } else {
        paid_total(fs.drop_last()) + (match fs.last() {
            Flow::Deposit(_) => 0,
            Flow::Payment(a) => a as int,
        })
    }
}

/// Conservation: over any sequence of stakes and payments on one market, if
/// the combined vault balance starts at zero and each step moves it by
/// exactly the flow's amount — which is what every operation's contract
/// guarantees of `Vaults::sum` — then at the end it equals total staked
/// minus total paid out; and since each balance reading is a sum of
/// unsigned balances and hence non-negative, no run ever pays out more than
/// was staked.
pub proof fn lemma_conservation(fs: Seq<Flow>, sums: Seq<int>)
    requires
        sums.len() == fs.len() + 1,
        sums[0] == 0,
        forall|i: int| 0 <= i < fs.len() ==> sums[i + 1] == sums[i] + flow_delta(#[trigger] fs[i]),
        forall|i: int| 0 <= i <= fs.len() ==> #[trigger] sums[i] >= 0,
    ensures
        sums[fs.len() as int] == staked_total(fs) - paid_total(fs),
        paid_total(fs) <= staked_total(fs),
    decreases fs.len(),
{
    if fs.len() == 0 {
    } else {
        let n = fs.len() as int;
        let fs0 = fs.drop_last();
        let sums0 = sums.drop_last();
        assert forall|i: int| 0 <= i < fs0.len() implies sums0[i + 1] == sums0[i] + flow_delta(
            #[trigger] fs0[i],
        ) by {
            assert(fs0[i] == fs[i]);
            assert(sums0[i] == sums[i]);
            assert(sums0[i + 1] == sums[i + 1]);
        }
        assert forall|i: int| 0 <= i <= fs0.len() implies #[trigger] sums0[i] >= 0 by {
            assert(sums0[i] == sums[i]);
        }
        lemma_conservation(fs0, sums0);
        assert(fs.last() == fs[n - 1]);
        assert(sums0[n - 1] == sums[n - 1]);
        assert(sums[n] == sums[n - 1] + flow_delta(fs[n - 1]));
    }
}

/// No double claim: a claimed position — which is exactly what every
/// successful claim leaves behind, while the market record stays `Resolved`
/// — is rejected with `AlreadyClaimed` before anything else is considered,
/// so a second claim on the same position never succeeds.
pub proof fn lemma_no_double_claim(m: Market, p: Position, caller: u64, market_key: u64)
    requires
        m.status is Resolved,
        p.claimed,
    ensures
        claim_gate_error(m, p, caller, market_key) == Some(ErrorCode::AlreadyClaimed),
{
}

/// Payout boundedness: floor rounding never overpays. A winning position's
/// payout plus its fee share, scaled by the winning total, never exceeds
/// `pot * amount` — that is, the pair stays within the position's exact
/// proportional entitlement computed without rounding — and in particular
/// never exceeds the pot itself.
pub proof fn lemma_payout_bounded(pot: int, fee_bps: int, amount: int, winner_total: int)
    requires
        0 < winner_total <= pot,
        0 <= amount <= winner_total,
        0 <= fee_bps <= BPS_DENOMINATOR,
    ensures
        (payout_of(pot, fee_bps, amount, winner_total) + user_fee_of(
            pot,
            fee_bps,
            amount,
            winner_total,
        )) * winner_total <= pot * amount,
        payout_of(pot, fee_bps, amount, winner_total) + user_fee_of(
            pot,
            fee_bps,
            amount,
            winner_total,
        ) <= share_of(pot, amount, winner_total),
        payout_of(pot, fee_bps, amount, winner_total) + user_fee_of(
            pot,
            fee_bps,
            amount,
            winner_total,
        ) <= pot,
{
    let w = winner_total;
    let f = fee_total_of(pot, fee_bps);
    let d = pot - f;
    lemma_fee_le_pot(pot, fee_bps);
    let pay = share_of(d, amount, w);
    let uf = share_of(f, amount, w);
    vstd::arithmetic::div_mod::lemma_fundamental_div_mod(d * amount, w);
    vstd::arithmetic::div_mod::lemma_mod_division_less_than_divisor(d * amount, w);
    assert(w * pay <= d * amount);
    vstd::arithmetic::div_mod::lemma_fundamental_div_mod(f * amount, w);
    vstd::arithmetic::div_mod::lemma_mod_division_less_than_divisor(f * amount, w);
    assert(w * uf <= f * amount);
    assert((pay + uf) * w <= pot * amount) by (nonlinear_arith)
        requires
            w * pay <= d * amount,
            w * uf <= f * amount,
            pot == d + f,
    ;
    vstd::arithmetic::div_mod::lemma_fundamental_div_mod(pot * amount, w);
    vstd::arithmetic::div_mod::lemma_mod_division_less_than_divisor(pot * amount, w);
    assert(pay + uf <= pot * amount / w) by (nonlinear_arith)
        requires
            (pay + uf) * w <= pot * amount,
            pot * amount == w * (pot * amount / w) + (pot * amount % w),
            0 <= pot * amount % w < w,
            w > 0,
    ;
    lemma_share_le_whole(pot, amount, w);
}

/// Proportionality: payouts are pro-rata. Between two winning positions
/// whose amounts stand in ratio 2:1, the pre-rounding payouts
/// `distributable * amount / winner_total` stand in ratio 2:1 as exact
/// fractions — their numerators over the common denominator do — and the
/// floored payout of the larger stake is within one unit of twice the
/// smaller's.
pub proof fn lemma_proportionality(distributable: int, a1: int, a2: int, winner_total: int)
    requires
        0 < winner_total,
        0 <= distributable,
        0 <= a2,
        a1 == 2 * a2,
    ensures
        distributable * a1 == 2 * (distributable * a2),
        2 * share_of(distributable, a2, winner_total) <= share_of(
            distributable,
            a1,
            winner_total,
        ),
        share_of(distributable, a1, winner_total) <= 2 * share_of(distributable, a2, winner_total)
            + 1,
{
    let w = winner_total;
    let x = distributable * a2;
    assert(distributable * a1 == 2 * x) by (nonlinear_arith)
        requires
            a1 == 2 * a2,
            x == distributable * a2,
    ;
    let q = x / w;
    let r0 = x % w;
    vstd::arithmetic::div_mod::lemma_fundamental_div_mod(x, w);
    vstd::arithmetic::div_mod::lemma_mod_division_less_than_divisor(x, w);
    if 2 * r0 < w {
        assert(2 * x == (2 * q) * w + 2 * r0) by (nonlinear_arith)
            requires
                x == w * q + r0,
        ;
        vstd::arithmetic::div_mod::lemma_fundamental_div_mod_converse_div(2 * x, w, 2 * q, 2 * r0);
    } else {
        assert(2 * x == (2 * q + 1) * w + (2 * r0 - w)) by (nonlinear_arith)
            requires
                x == w * q + r0,
        ;
        vstd::arithmetic::div_mod::lemma_fundamental_div_mod_converse_div(
            2 * x,
            w,
            2 * q + 1,
            2 * r0 - w,
        );
    }
}

} // verus!
