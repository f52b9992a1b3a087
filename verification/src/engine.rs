//! Settlement engine: lifecycle transitions, stake accumulation, and the
//! proportional payout arithmetic.
//!
//! Every operation validates its preconditions against the records it is
//! handed, and either applies its full effect or fails with an `ErrorCode`
//! and no state change at all.

use vstd::prelude::*;
use vstd::string::StringSliceAdditionalSpecFns;
use crate::errors::ErrorCode;
use crate::events::{Claimed, Event, EventLog, Placed, Resolved};
use crate::market::{Market, MarketStatus, Outcome, Position};
use crate::market::{byte_len, BPS_DENOMINATOR, MAX_FEE_BPS, MIN_CLOSE_DELAY, MIN_STAKE, QUESTION_MAX_LEN};
use crate::vault::{transfer_exact_from_pda, transfer_from_any_vault, Vaults};

verus! {

/// Fee taken from the whole pot: `floor(pot * fee_bps / 10000)`.
pub open spec fn fee_total_of(pot: int, fee_bps: int) -> int {
    pot * fee_bps / (BPS_DENOMINATOR as int)
}

/// Pro-rata share of `part` owed to a stake of `amount` among `winner_total`
/// winning stakes: `floor(part * amount / winner_total)`.
pub open spec fn share_of(part: int, amount: int, winner_total: int) -> int
    recommends
        winner_total > 0,
{
    part * amount / winner_total
}

/// A winning position's payout: its share of the fee-adjusted pot.
pub open spec fn payout_of(pot: int, fee_bps: int, amount: int, winner_total: int) -> int {
    share_of(pot - fee_total_of(pot, fee_bps), amount, winner_total)
}

/// A winning position's contribution to the fee pool: its share of the fee.
pub open spec fn user_fee_of(pot: int, fee_bps: int, amount: int, winner_total: int) -> int {
    share_of(fee_total_of(pot, fee_bps), amount, winner_total)
}

/// Floor division distributes over splitting the dividend at a multiple of
/// the divisor: `d * a / w == (d / w) * a + (d % w) * a / w`. This justifies
/// computing `d * a / w` without a product wider than 128 bits.
proof fn lemma_mul_div_decompose(d: int, a: int, w: int)
    requires
        0 < w,
        0 <= a,
        0 <= d,
    ensures
        d * a / w == (d / w) * a + (d % w) * a / w,
        0 <= (d / w) * a,
        0 <= (d % w) * a / w,
{
    let q = d / w;
    let rem = d % w;
    vstd::arithmetic::div_mod::lemma_fundamental_div_mod(d, w);
    vstd::arithmetic::div_mod::lemma_mod_division_less_than_divisor(d, w);
    vstd::arithmetic::div_mod::lemma_div_pos_is_pos(d, w);
    assert(0 <= rem * a) by (nonlinear_arith)
        requires
            0 <= rem,
            0 <= a,
    ;
    let t = rem * a / w;
    let s = rem * a % w;
    vstd::arithmetic::div_mod::lemma_fundamental_div_mod(rem * a, w);
    vstd::arithmetic::div_mod::lemma_mod_division_less_than_divisor(rem * a, w);
    vstd::arithmetic::div_mod::lemma_div_pos_is_pos(rem * a, w);
    assert(0 <= q * a) by (nonlinear_arith)
        requires
            0 <= q,
            0 <= a,
    ;
    assert(d * a == (q * a + t) * w + s) by (nonlinear_arith)
        requires
            d == w * q + rem,
            rem * a == w * t + s,
    ;
    vstd::arithmetic::div_mod::lemma_fundamental_div_mod_converse_div(d * a, w, q * a + t, s);
}

/// A pro-rata share never exceeds the whole it is drawn from: if
/// `amount <= w` then `d * amount / w <= d`.
pub proof fn lemma_share_le_whole(d: int, amount: int, w: int)
    requires
        0 < w,
        0 <= amount <= w,
        0 <= d,
    ensures
        0 <= share_of(d, amount, w) <= d,
{
    assert(d * amount <= d * w) by (nonlinear_arith)
        requires
            0 <= d,
            amount <= w,
    ;
    assert(0 <= d * amount) by (nonlinear_arith)
        requires
            0 <= d,
            0 <= amount,
    ;
    vstd::arithmetic::div_mod::lemma_div_pos_is_pos(d * amount, w);
    vstd::arithmetic::div_mod::lemma_div_is_ordered(d * amount, d * w, w);
    vstd::arithmetic::div_mod::lemma_div_multiples_vanish(d, w);
    assert(d * w == w * d) by (nonlinear_arith);
}

/// The fee taken from the pot never exceeds the pot, since the rate is at
/// most one whole in basis points.
pub proof fn lemma_fee_le_pot(pot: int, fee_bps: int)
    requires
        0 <= pot,
        0 <= fee_bps <= BPS_DENOMINATOR,
    ensures
        0 <= fee_total_of(pot, fee_bps) <= pot,
{
    lemma_share_le_whole(pot, fee_bps, BPS_DENOMINATOR as int);
    assert(share_of(pot, fee_bps, BPS_DENOMINATOR as int) == fee_total_of(pot, fee_bps));
}

/// Computes `d * a / w` exactly in 128-bit arithmetic by splitting `d` at a
/// multiple of `w`, so no intermediate product outgrows `u128`.
fn mul_div(d: u128, a: u128, w: u128) -> (r: u128)
    requires
        0 < w <= u64::MAX,
        a <= w,
    ensures
        r == (d as int) * (a as int) / (w as int),
{
    let q = d / w;
    let rem = d % w;
    proof {
        lemma_mul_div_decompose(d as int, a as int, w as int);
        vstd::arithmetic::div_mod::lemma_fundamental_div_mod(d as int, w as int);
        assert(q * a <= q * w) by (nonlinear_arith)
            requires
                0 <= q,
                a <= w,
        ;
        assert(q * w <= d) by (nonlinear_arith)
            requires
                d == w * q + rem,
                0 <= rem,
        ;
        assert(rem * a <= u64::MAX * u64::MAX) by (nonlinear_arith)
            requires
                0 <= rem < w,
                0 <= a <= w,
                w <= u64::MAX,
        ;
        lemma_share_le_whole(d as int, a as int, w as int);
    }
    q * a + (rem * a) / w
}

/// The stateless payout computation for a decisive outcome.
///
/// From the two running totals, the fee rate and one winning stake, returns
/// the pair `(payout, user_fee)`: the stake's pro-rata share of the
/// fee-adjusted pot, and its pro-rata share of the fee, both floored. Fails
/// with `EmptyPot` if nothing was staked or the winning side's total is zero,
/// and with `MathOverflow` if either computed value does not fit in 64 bits.
pub fn compute_payout(total_yes: u64, total_no: u64, fee_bps: u16, winner: Outcome, amount: u64)
    -> (r: Result<(u64, u64), ErrorCode>)
    requires
        fee_bps <= MAX_FEE_BPS,
        winner is Yes || winner is No,
        winner is Yes ==> amount <= total_yes,
        winner is No ==> amount <= total_no,
    ensures
        ({
            let pot = total_yes + total_no;
            let wt: int = if winner is Yes {
                total_yes as int
            } else {
                total_no as int
            };
            let payout = payout_of(pot, fee_bps as int, amount as int, wt);
            let fee = user_fee_of(pot, fee_bps as int, amount as int, wt);
            if pot == 0 || wt == 0 {
                r == Err::<(u64, u64), ErrorCode>(ErrorCode::EmptyPot)
            } else if payout > u64::MAX {
                r == Err::<(u64, u64), ErrorCode>(ErrorCode::MathOverflow)
            } else if fee > u64::MAX {
                r == Err::<(u64, u64), ErrorCode>(ErrorCode::MathOverflow)
            } else {
                (r matches Ok(pair) && pair.0 == payout && pair.1 == fee)
            }
        }),
{
    let pot: u128 = total_yes as u128 + total_no as u128;
    if pot == 0 {
        return Err(ErrorCode::EmptyPot);
    }
    let wt: u128 = if winner == Outcome::Yes {
        total_yes as u128
    } else {
        total_no as u128
    };
    if wt == 0 {
        return Err(ErrorCode::EmptyPot);
    }
    proof {
        assert(pot * fee_bps <= pot * (BPS_DENOMINATOR as int)) by (nonlinear_arith)
            requires
                0 <= pot,
                fee_bps <= BPS_DENOMINATOR,
        ;
        lemma_fee_le_pot(pot as int, fee_bps as int);
    }
    let fee_total: u128 = pot * (fee_bps as u128) / (BPS_DENOMINATOR as u128);
    let distributable: u128 = pot - fee_total;
    let payout_wide: u128 = mul_div(distributable, amount as u128, wt);
    if payout_wide > u64::MAX as u128 {
        return Err(ErrorCode::MathOverflow);
    }
    let fee_wide: u128 = mul_div(fee_total, amount as u128, wt);
    if fee_wide > u64::MAX as u128 {
        return Err(ErrorCode::MathOverflow);
    }
    Ok((payout_wide as u64, fee_wide as u64))
}

/// Creates a market in the `Open` state with zeroed totals.
///
/// Rejects an oversized question, a fee rate above `MAX_FEE_BPS`, and a close
/// time not at least `MIN_CLOSE_DELAY` beyond `now`, in that order. The host
/// creates the market's vault accounts empty alongside it (`Vaults::new`).
pub fn initialize_market(
    authority: u64,
    question: String,
    close_time_unix: i64,
    fee_bps: u16,
    resolver: u64,
    now: i64,
) -> (r: Result<Market, ErrorCode>)
    ensures
        byte_len(question@) > QUESTION_MAX_LEN ==> r == Err::<Market, ErrorCode>(
            ErrorCode::QuestionTooLong,
        ),
        byte_len(question@) <= QUESTION_MAX_LEN && fee_bps > MAX_FEE_BPS ==> r == Err::<
            Market,
            ErrorCode,
        >(ErrorCode::FeeTooHigh),
        byte_len(question@) <= QUESTION_MAX_LEN && fee_bps <= MAX_FEE_BPS && close_time_unix < now
            + MIN_CLOSE_DELAY ==> r == Err::<Market, ErrorCode>(ErrorCode::CloseTooSoon),
        byte_len(question@) <= QUESTION_MAX_LEN && fee_bps <= MAX_FEE_BPS && close_time_unix >= now
            + MIN_CLOSE_DELAY ==> (r matches Ok(m) && m == (Market {
            authority,
            resolver,
            status: MarketStatus::Open,
            fee_bps,
            close_time: close_time_unix,
            winner: Outcome::Unset,
            total_yes: 0,
            total_no: 0,
            question,
        })),
        r matches Ok(m) ==> m.well_formed(),
{
    let question_str: &str = question.as_str();
    let question_bytes: usize = question_str.as_bytes().len();
    proof {
        assert(question_str@ == question@);
        assert(question_str.spec_bytes() == vstd::utf8::encode_utf8(question_str@));
        assert(question_bytes as int == byte_len(question@));
    }
    if question_bytes > QUESTION_MAX_LEN {
        return Err(ErrorCode::QuestionTooLong);
    }
    if fee_bps > MAX_FEE_BPS {
        return Err(ErrorCode::FeeTooHigh);
    }
    if (close_time_unix as i128) < now as i128 + MIN_CLOSE_DELAY as i128 {
        return Err(ErrorCode::CloseTooSoon);
    }
    Ok(
        Market {
            authority,
            resolver,
            status: MarketStatus::Open,
            fee_bps,
            close_time: close_time_unix,
            winner: Outcome::Unset,
            total_yes: 0,
            total_no: 0,
            question,
        },
    )
}

/// The side index that keys a position record: 1 for Yes, 2 for No.
pub open spec fn expected_side_index(side: Outcome) -> u8 {
    if side is Yes {
        1
    } else {
        2
    }
}

/// Whether the stake passes every gate of `place_bet`: market open and not
/// past its close time, a decisive side with its matching index, and at least
/// the minimum amount.
pub open spec fn bet_accepted(
    m: Market,
    side: Outcome,
    side_index: u8,
    lamports: u64,
    now: i64,
) -> bool {
    &&& m.status is Open
    &&& now < m.close_time
    &&& (side is Yes || side is No)
    &&& side_index == expected_side_index(side)
    &&& lamports >= MIN_STAKE
}

/// Accepts a stake of `lamports` on `side`, escrowing it in that side's vault.
///
/// `pos` is the record stored under the key `(market_key, user, side_index)`;
/// a record the host just created (all zero) is initialized here on first
/// touch. Gates, in order: the market must be `Open` and `now` before its
/// close time; the side must be decisive and `side_index` must match it; the
/// amount must reach `MIN_STAKE`; and neither the side's vault balance nor
/// its running total nor the position's amount may wrap. On success all three
/// grow by `lamports` and a `Placed` event is logged; on failure nothing
/// changes.
pub fn place_bet(
    mkt: &mut Market,
    pos: &mut Position,
    vaults: &mut Vaults,
    log: &mut EventLog,
    market_key: u64,
    user: u64,
    side: Outcome,
    side_index: u8,
    lamports: u64,
    now: i64,
) -> (r: Result<(), ErrorCode>)
    ensures
        r is Err ==> *final(mkt) == *old(mkt) && *final(pos) == *old(pos) && *final(vaults)
            == *old(vaults) && final(log)@ == old(log)@,
        !(old(mkt).status is Open) ==> r == Err::<(), ErrorCode>(ErrorCode::MarketClosed),
        old(mkt).status is Open && now >= old(mkt).close_time ==> r == Err::<(), ErrorCode>(
            ErrorCode::MarketClosed,
        ),
        old(mkt).status is Open && now < old(mkt).close_time && side is Unset ==> r == Err::<
            (),
            ErrorCode,
        >(ErrorCode::InvalidSide),
        old(mkt).status is Open && now < old(mkt).close_time && !(side is Unset) && side_index
            != expected_side_index(side) ==> r == Err::<(), ErrorCode>(ErrorCode::InvalidSeed),
        old(mkt).status is Open && now < old(mkt).close_time && !(side is Unset) && side_index
            == expected_side_index(side) && lamports < MIN_STAKE ==> r == Err::<(), ErrorCode>(
            ErrorCode::MinStake,
        ),
        bet_accepted(*old(mkt), side, side_index, lamports, now) ==> {
            let vault_side = if side is Yes {
                old(vaults).vault_yes
            } else {
                old(vaults).vault_no
            };
            let total_side = if side is Yes {
                old(mkt).total_yes
            } else {
                old(mkt).total_no
            };
            if vault_side + lamports > u64::MAX || total_side + lamports > u64::MAX || old(
                pos,
            ).amount + lamports > u64::MAX {
                r == Err::<(), ErrorCode>(ErrorCode::MathOverflow)
            } else {
                r == Ok::<(), ErrorCode>(())
            }
        },
        r is Ok ==> side_index == expected_side_index(side) && bet_accepted(
            *old(mkt),
            side,
            side_index,
            lamports,
            now,
        ),
        r is Ok && side is Yes ==> *final(mkt) == (Market {
            total_yes: (old(mkt).total_yes + lamports) as u64,
            ..*old(mkt)
        }) && *final(vaults) == (Vaults {
            vault_yes: (old(vaults).vault_yes + lamports) as u64,
            ..*old(vaults)
        }),
        r is Ok && side is No ==> *final(mkt) == (Market {
            total_no: (old(mkt).total_no + lamports) as u64,
            ..*old(mkt)
        }) && *final(vaults) == (Vaults {
            vault_no: (old(vaults).vault_no + lamports) as u64,
            ..*old(vaults)
        }),
        r is Ok && old(pos).amount == 0 ==> *final(pos) == (Position {
            market: market_key,
            owner: user,
            side,
            amount: lamports,
            claimed: false,
        }),
        r is Ok && old(pos).amount != 0 ==> *final(pos) == (Position {
            amount: (old(pos).amount + lamports) as u64,
            ..*old(pos)
        }),
        r is Ok ==> final(log)@ == old(log)@.push(
            Event::Placed(
                Placed { owner: final(pos).owner, market: market_key, side, amount: lamports },
            ),
        ),
        r is Ok ==> final(vaults).sum() == old(vaults).sum() + lamports,
        r is Ok && (old(pos).amount == 0 || old(pos).side == side) && old(pos).consistent_with(
            *old(mkt),
        ) ==> final(pos).consistent_with(*final(mkt)),
{
    if !(mkt.status == MarketStatus::Open) {
        return Err(ErrorCode::MarketClosed);
    }
    if now >= mkt.close_time {
        return Err(ErrorCode::MarketClosed);
    }
    let expected_idx: u8 = match side {
        Outcome::Yes => 1,
        Outcome::No => 2,
        Outcome::Unset => {
            return Err(ErrorCode::InvalidSide);
        },
    };
    if side_index != expected_idx {
        return Err(ErrorCode::InvalidSeed);
    }
    if lamports < MIN_STAKE {
        return Err(ErrorCode::MinStake);
    }
    let is_yes = side == Outcome::Yes;
    let vault_side: u64 = if is_yes {
        vaults.vault_yes
    } else {
        vaults.vault_no
    };
    let total_side: u64 = if is_yes {
        mkt.total_yes
    } else {
        mkt.total_no
    };
    if lamports > u64::MAX - vault_side || lamports > u64::MAX - total_side || (pos.amount > 0
        && lamports > u64::MAX - pos.amount) {
        return Err(ErrorCode::MathOverflow);
    }
    if is_yes {
        vaults.vault_yes = vault_side + lamports;
        mkt.total_yes = total_side + lamports;
    } else {
        vaults.vault_no = vault_side + lamports;
        mkt.total_no = total_side + lamports;
    }
    if pos.amount == 0 {
        pos.market = market_key;
        pos.owner = user;
        pos.side = side;
        pos.claimed = false;
    }
    pos.amount = pos.amount + lamports;
    log.emit(Event::Placed(Placed { owner: pos.owner, market: market_key, side, amount: lamports }));
    Ok(())
}

/// Moves an `Open` market whose close time has passed to `Closed`.
///
/// Callable by anyone, so a market stops accepting stakes at its stated
/// deadline even if no privileged party acts. A second call fails with
/// `InvalidStatus` rather than no-oping.
pub fn close_market(mkt: &mut Market, now: i64) -> (r: Result<(), ErrorCode>)
    ensures
        !(old(mkt).status is Open) ==> r == Err::<(), ErrorCode>(ErrorCode::InvalidStatus)
            && *final(mkt) == *old(mkt),
        old(mkt).status is Open && now < old(mkt).close_time ==> r == Err::<(), ErrorCode>(
            ErrorCode::TooEarlyToClose,
        ) && *final(mkt) == *old(mkt),
        old(mkt).status is Open && now >= old(mkt).close_time ==> r == Ok::<(), ErrorCode>(())
            && *final(mkt) == (Market { status: MarketStatus::Closed, ..*old(mkt) }),
{
    if !(mkt.status == MarketStatus::Open) {
        return Err(ErrorCode::InvalidStatus);
    }
    if now < mkt.close_time {
        return Err(ErrorCode::TooEarlyToClose);
    }
    mkt.status = MarketStatus::Closed;
    Ok(())
}

/// Records the outcome of a `Closed` market and moves it to `Resolved`.
///
/// Only the market's resolver may call this. `Outcome::Unset` is a valid
/// resolution meaning "void": claims then refund stakes instead of paying
/// out.
pub fn resolve_market(
    mkt: &mut Market,
    log: &mut EventLog,
    market_key: u64,
    caller: u64,
    winner: Outcome,
) -> (r: Result<(), ErrorCode>)
    ensures
        !(old(mkt).status is Closed) ==> r == Err::<(), ErrorCode>(ErrorCode::InvalidStatus)
            && *final(mkt) == *old(mkt) && final(log)@ == old(log)@,
        old(mkt).status is Closed && caller != old(mkt).resolver ==> r == Err::<(), ErrorCode>(
            ErrorCode::NotResolver,
        ) && *final(mkt) == *old(mkt) && final(log)@ == old(log)@,
        old(mkt).status is Closed && caller == old(mkt).resolver ==> r == Ok::<(), ErrorCode>(())
            && *final(mkt) == (Market {
            status: MarketStatus::Resolved,
            winner,
            ..*old(mkt)
        }) && final(log)@ == old(log)@.push(
            Event::Resolved(Resolved { market: market_key, winner }),
        ),
{
    if !(mkt.status == MarketStatus::Closed) {
        return Err(ErrorCode::InvalidStatus);
    }
    if caller != mkt.resolver {
        return Err(ErrorCode::NotResolver);
    }
    mkt.winner = winner;
    mkt.status = MarketStatus::Resolved;
    log.emit(Event::Resolved(Resolved { market: market_key, winner }));
    Ok(())
}

/// The first gate of `claim` that rejects, if any: the market must be
/// resolved, the position unclaimed, owned by the caller, and recorded
/// against this market.
pub open spec fn claim_gate_error(m: Market, p: Position, caller: u64, market_key: u64) -> Option<
    ErrorCode,
> {
    if !(m.status is Resolved) {
        Some(ErrorCode::InvalidStatus)
    } else if p.claimed {
        Some(ErrorCode::AlreadyClaimed)
    } else if p.owner != caller {
        Some(ErrorCode::NotOwner)
    } else if p.market != market_key {
        Some(ErrorCode::InvalidMarket)
    } else {
        Option::None
    }
}

/// Pays a position after resolution and marks it claimed, exactly once.
///
/// Gates, in order: `claim_gate_error`. Under a void outcome (`Unset`) the
/// position is refunded its full stake, fee-free, from whichever stake vault
/// covers it. Under a decisive outcome the position must be on the winning
/// side; its payout and fee share (`compute_payout`) are drawn from the
/// winning side's vault, the fee share moving to the fee vault. Either way a
/// successful claim logs a `Claimed` event carrying the amount paid. The
/// returned value is what the owner receives; the host credits it to the
/// owner's account. On any failure no record changes.
pub fn claim(
    mkt: &Market,
    pos: &mut Position,
    vaults: &mut Vaults,
    log: &mut EventLog,
    market_key: u64,
    caller: u64,
) -> (r: Result<u64, ErrorCode>)
    requires
        mkt.well_formed(),
        old(pos).consistent_with(*mkt),
    ensures
        r is Err ==> *final(pos) == *old(pos) && *final(vaults) == *old(vaults) && final(log)@
            == old(log)@,
        claim_gate_error(*mkt, *old(pos), caller, market_key) matches Some(e) ==> r == Err::<
            u64,
            ErrorCode,
        >(e),
        r is Ok ==> claim_gate_error(*mkt, *old(pos), caller, market_key) is None,
        r is Ok ==> *final(pos) == (Position { claimed: true, ..*old(pos) }),
        r matches Ok(paid) ==> final(vaults).sum() == old(vaults).sum() - paid,
        claim_gate_error(*mkt, *old(pos), caller, market_key) is None && mkt.winner is Unset ==> {
            let refund = old(pos).amount;
            if old(vaults).vault_yes >= refund || old(vaults).vault_no >= refund {
                &&& r == Ok::<u64, ErrorCode>(refund)
                &&& final(vaults).fee_vault == old(vaults).fee_vault
                &&& (if old(vaults).vault_yes >= refund {
                    *final(vaults) == (Vaults {
                        vault_yes: (old(vaults).vault_yes - refund) as u64,
                        ..*old(vaults)
                    })
                } else {
                    *final(vaults) == (Vaults {
                        vault_no: (old(vaults).vault_no - refund) as u64,
                        ..*old(vaults)
                    })
                })
                &&& final(log)@ == old(log)@.push(
                    Event::Claimed(Claimed { owner: caller, market: market_key, amount: refund }),
                )
            } else {
                r == Err::<u64, ErrorCode>(ErrorCode::MathOverflow)
            }
        },
        claim_gate_error(*mkt, *old(pos), caller, market_key) is None && !(mkt.winner is Unset)
            && old(pos).side != mkt.winner ==> r == Err::<u64, ErrorCode>(
            ErrorCode::NotWinningSide,
        ),
        claim_gate_error(*mkt, *old(pos), caller, market_key) is None && !(mkt.winner is Unset)
            && old(pos).side == mkt.winner ==> {
            let payout = payout_of(
                mkt.pot(),
                mkt.fee_bps as int,
                old(pos).amount as int,
                mkt.winner_total(),
            );
            let fee = user_fee_of(
                mkt.pot(),
                mkt.fee_bps as int,
                old(pos).amount as int,
                mkt.winner_total(),
            );
            let vault_winner: int = if mkt.winner is Yes {
                old(vaults).vault_yes as int
            } else {
                old(vaults).vault_no as int
            };
            if mkt.pot() == 0 || mkt.winner_total() == 0 {
                r == Err::<u64, ErrorCode>(ErrorCode::EmptyPot)
            } else if payout > u64::MAX || fee > u64::MAX || vault_winner < payout + fee
                || old(vaults).fee_vault + fee > u64::MAX {
                r == Err::<u64, ErrorCode>(ErrorCode::MathOverflow)
            } else {
                &&& (r matches Ok(v) && v == payout && final(log)@ == old(log)@.push(
                    Event::Claimed(Claimed { owner: caller, market: market_key, amount: v }),
                ))
                &&& final(vaults).fee_vault == old(vaults).fee_vault + fee
                &&& (if mkt.winner is Yes {
                    final(vaults).vault_yes == vault_winner - payout - fee
                        && final(vaults).vault_no == old(vaults).vault_no
                } else {
                    final(vaults).vault_no == vault_winner - payout - fee
                        && final(vaults).vault_yes == old(vaults).vault_yes
                })
            }
        },
{
    if !(mkt.status == MarketStatus::Resolved) {
        return Err(ErrorCode::InvalidStatus);
    }
    if pos.claimed {
        return Err(ErrorCode::AlreadyClaimed);
    }
    if pos.owner != caller {
        return Err(ErrorCode::NotOwner);
    }
    if pos.market != market_key {
        return Err(ErrorCode::InvalidMarket);
    }
    let winner = mkt.winner;
    if winner == Outcome::Unset {
        // Void outcome: refund the stake from whichever vault covers it.
        let refund = pos.amount;
        let mut vy = vaults.vault_yes;
        let mut vn = vaults.vault_no;
        let mut owed: u64 = 0;
        match transfer_from_any_vault(refund, &mut vy, &mut vn, &mut owed) {
            Ok(()) => {},
            Err(e) => {
                return Err(e);
            },
        }
        vaults.vault_yes = vy;
        vaults.vault_no = vn;
        pos.claimed = true;
        log.emit(Event::Claimed(Claimed { owner: caller, market: market_key, amount: refund }));
        return Ok(owed);
    }
    if !(pos.side == winner) {
        return Err(ErrorCode::NotWinningSide);
    }
    let (payout, user_fee) = match compute_payout(
        mkt.total_yes,
        mkt.total_no,
        mkt.fee_bps,
        winner,
        pos.amount,
    ) {
        Ok(pair) => pair,
        Err(e) => {
            return Err(e);
        },
    };
    let is_yes = winner == Outcome::Yes;
    let mut vault_winner: u64 = if is_yes {
        vaults.vault_yes
    } else {
        vaults.vault_no
    };
    let mut owed: u64 = 0;
    match transfer_exact_from_pda(payout, &mut vault_winner, &mut owed) {
        Ok(()) => {},
        Err(e) => {
            return Err(e);
        },
    }
    let mut fee_vault: u64 = vaults.fee_vault;
    if user_fee > 0 {
        match transfer_exact_from_pda(user_fee, &mut vault_winner, &mut fee_vault) {
            Ok(()) => {},
            Err(e) => {
                return Err(e);
            },
        }
    }
    if is_yes {
        vaults.vault_yes = vault_winner;
    } else {
        vaults.vault_no = vault_winner;
    }
    vaults.fee_vault = fee_vault;
    pos.claimed = true;
    log.emit(Event::Claimed(Claimed { owner: caller, market: market_key, amount: payout }));
    Ok(owed)
}

/// Pays `lamports` of accumulated fees out of the fee vault to the market's
/// authority, the one operation the authority alone may perform. There is no
/// lifecycle gate: fees only ever enter the fee vault through decisive
/// claims, so before resolution the vault is simply empty. The returned
/// value is what the host credits to the authority's account.
pub fn admin_withdraw_fee(mkt: &Market, vaults: &mut Vaults, caller: u64, lamports: u64) -> (r:
    Result<u64, ErrorCode>)
    ensures
        r is Err ==> *final(vaults) == *old(vaults),
        caller != mkt.authority ==> r == Err::<u64, ErrorCode>(ErrorCode::NotAuthority),
        caller == mkt.authority && old(vaults).fee_vault < lamports ==> r == Err::<u64, ErrorCode>(
            ErrorCode::MathOverflow,
        ),
        caller == mkt.authority && old(vaults).fee_vault >= lamports ==> r == Ok::<u64, ErrorCode>(
            lamports,
        ) && *final(vaults) == (Vaults {
            fee_vault: (old(vaults).fee_vault - lamports) as u64,
            ..*old(vaults)
        }),
        r matches Ok(paid) ==> final(vaults).sum() == old(vaults).sum() - paid,
{
    if caller != mkt.authority {
        return Err(ErrorCode::NotAuthority);
    }
    let mut fee_vault: u64 = vaults.fee_vault;
    let mut owed: u64 = 0;
    match transfer_exact_from_pda(lamports, &mut fee_vault, &mut owed) {
        Ok(()) => {},
        Err(e) => {
            return Err(e);
        },
    }
    vaults.fee_vault = fee_vault;
    Ok(owed)
}

} // verus!
