//! Payout arithmetic, claims, refunds, fee withdrawal and conservation.

use polyswarms::engine::{
    admin_withdraw_fee, claim, close_market, compute_payout, initialize_market, place_bet,
    resolve_market,
};
use polyswarms::errors::ErrorCode;
use polyswarms::events::{Claimed, Event, EventLog};
use polyswarms::market::{Market, MarketStatus, Outcome, Position};
use polyswarms::vault::Vaults;

const MARKET_KEY: u64 = 9;
const AUTHORITY: u64 = 1;
const RESOLVER: u64 = 2;
const ALICE: u64 = 10;
const BOB: u64 = 11;
const CAROL: u64 = 12;

fn fresh_position() -> Position {
    Position { market: 0, owner: 0, side: Outcome::Unset, amount: 0, claimed: false }
}

struct Setup {
    market: Market,
    vaults: Vaults,
    log: EventLog,
    positions: Vec<Position>,
}

/// Opens a market, places the given stakes, closes it and resolves `winner`.
/// Each stake is (owner, side, amount); one position per stake.
fn resolved_market(stakes: &[(u64, Outcome, u64)], winner: Outcome) -> Setup {
    let mut market =
        initialize_market(AUTHORITY, "will it rain".to_string(), 5000, 500, RESOLVER, 100).unwrap();
    let mut vaults = Vaults::new();
    let mut log = EventLog::new();
    let mut positions = Vec::new();
    for &(owner, side, amount) in stakes {
        let mut pos = fresh_position();
        let idx = if side == Outcome::Yes { 1 } else { 2 };
        place_bet(
            &mut market, &mut pos, &mut vaults, &mut log, MARKET_KEY, owner, side, idx, amount, 200,
        )
        .unwrap();
        positions.push(pos);
    }
    close_market(&mut market, 5000).unwrap();
    resolve_market(&mut market, &mut log, MARKET_KEY, RESOLVER, winner).unwrap();
    Setup { market, vaults, log, positions }
}

fn vault_sum(v: &Vaults) -> u64 {
    v.vault_yes + v.vault_no + v.fee_vault
}

#[test]
fn payout_formula_matches_worked_example() {
    // fee_bps = 500 (5%), YES totals 1,000,000 from 700,000 + 300,000,
    // NO totals 500,000, resolved Yes: pot 1,500,000, fee 75,000,
    // distributable 1,425,000.
    let first = compute_payout(1_000_000, 500_000, 500, Outcome::Yes, 700_000).unwrap();
    assert_eq!(first, (997_500, 52_500));
    let second = compute_payout(1_000_000, 500_000, 500, Outcome::Yes, 300_000).unwrap();
    assert_eq!(second, (427_500, 22_500));
    // Payouts plus fee shares reconstruct the pot exactly here: no rounding loss.
    assert_eq!(first.0 + first.1 + second.0 + second.1, 1_500_000);
    // Floor rounding never overpays: each pair stays within the position's
    // exact proportional entitlement pot * amount / winner_total.
    assert!(first.0 + first.1 <= 1_500_000u64 * 700_000 / 1_000_000);
    assert!(second.0 + second.1 <= 1_500_000u64 * 300_000 / 1_000_000);
}

#[test]
fn payout_formula_floors() {
    // With no fee the whole pot of 1,500,000 is distributable; a 333,333
    // stake among 1,000,000 winning units is owed 499,999.5, floored.
    let (p, f) = compute_payout(1_000_000, 500_000, 0, Outcome::Yes, 333_333).unwrap();
    assert_eq!(p, 499_999);
    assert_eq!(f, 0);
}

#[test]
fn payouts_are_proportional_to_stakes() {
    // Two winning stakes in ratio 2:1 are paid in ratio 2:1.
    let (p1, f1) = compute_payout(900_000, 0, 500, Outcome::Yes, 600_000).unwrap();
    let (p2, f2) = compute_payout(900_000, 0, 500, Outcome::Yes, 300_000).unwrap();
    assert_eq!(p1, 2 * p2);
    assert_eq!(f1, 2 * f2);
}

#[test]
fn payout_formula_rejects_empty_pot() {
    assert_eq!(compute_payout(0, 0, 500, Outcome::Yes, 0), Err(ErrorCode::EmptyPot));
    // A pot with no stake on the winning side is rejected too.
    assert_eq!(compute_payout(0, 500_000, 500, Outcome::Yes, 0), Err(ErrorCode::EmptyPot));
}

#[test]
fn claim_pays_proportional_shares_and_fees_accrue() {
    // All stakes on YES: the winning vault covers every payout exactly.
    let mut s = resolved_market(
        &[(ALICE, Outcome::Yes, 700_000), (BOB, Outcome::Yes, 300_000)],
        Outcome::Yes,
    );
    // pot 1,000,000, fee 50,000, distributable 950,000.
    let r = claim(&s.market, &mut s.positions[0], &mut s.vaults, &mut s.log, MARKET_KEY, ALICE);
    assert_eq!(r, Ok(665_000));
    assert!(s.positions[0].claimed);
    let r = claim(&s.market, &mut s.positions[1], &mut s.vaults, &mut s.log, MARKET_KEY, BOB);
    assert_eq!(r, Ok(285_000));
    // 7:3 stakes got 7:3 payouts, the vault drained exactly, fees accrued.
    assert_eq!(s.vaults.vault_yes, 0);
    assert_eq!(s.vaults.vault_no, 0);
    assert_eq!(s.vaults.fee_vault, 50_000);
    assert_eq!(
        &s.log.events[s.log.events.len() - 2..],
        &[
            Event::Claimed(Claimed { owner: ALICE, market: MARKET_KEY, amount: 665_000 }),
            Event::Claimed(Claimed { owner: BOB, market: MARKET_KEY, amount: 285_000 }),
        ]
    );
    // Conservation: staked 1,000,000, paid out 950,000.
    assert_eq!(vault_sum(&s.vaults), 1_000_000 - 665_000 - 285_000);
}

#[test]
fn claim_draws_only_from_the_winning_vault() {
    // With stakes on both sides the distributable pot exceeds the winning
    // vault's balance: a small claim fits, a large one fails with
    // MathOverflow, and the NO vault is never drawn from.
    let mut s = resolved_market(
        &[
            (ALICE, Outcome::Yes, 700_000),
            (BOB, Outcome::Yes, 300_000),
            (CAROL, Outcome::No, 500_000),
        ],
        Outcome::Yes,
    );
    let r = claim(&s.market, &mut s.positions[1], &mut s.vaults, &mut s.log, MARKET_KEY, BOB);
    assert_eq!(r, Ok(427_500));
    assert_eq!(s.vaults.vault_yes, 1_000_000 - 427_500 - 22_500);
    assert_eq!(s.vaults.vault_no, 500_000);
    assert_eq!(s.vaults.fee_vault, 22_500);
    // Alice is owed 997,500 + 52,500 but the YES vault holds only 550,000.
    let r = claim(&s.market, &mut s.positions[0], &mut s.vaults, &mut s.log, MARKET_KEY, ALICE);
    assert_eq!(r, Err(ErrorCode::MathOverflow));
    assert!(!s.positions[0].claimed);
    assert_eq!(s.vaults.vault_no, 500_000);
    // Conservation still holds: staked 1,500,000, paid out 427,500.
    assert_eq!(vault_sum(&s.vaults), 1_500_000 - 427_500);
}

#[test]
fn claim_twice_fails_with_already_claimed() {
    let mut s = resolved_market(&[(ALICE, Outcome::Yes, 700_000)], Outcome::Yes);
    let before = s.log.events.len();
    let r = claim(&s.market, &mut s.positions[0], &mut s.vaults, &mut s.log, MARKET_KEY, ALICE);
    assert!(r.is_ok());
    let vaults_after_first = s.vaults;
    let r = claim(&s.market, &mut s.positions[0], &mut s.vaults, &mut s.log, MARKET_KEY, ALICE);
    assert_eq!(r, Err(ErrorCode::AlreadyClaimed));
    // The second call moved no value and logged nothing.
    assert_eq!(s.vaults, vaults_after_first);
    assert_eq!(s.log.events.len(), before + 1);
}

#[test]
fn claim_requires_resolution() {
    let mut m =
        initialize_market(AUTHORITY, "will it rain".to_string(), 5000, 500, RESOLVER, 100).unwrap();
    let mut vaults = Vaults::new();
    let mut log = EventLog::new();
    let mut pos = fresh_position();
    place_bet(
        &mut m, &mut pos, &mut vaults, &mut log, MARKET_KEY, ALICE, Outcome::Yes, 1, 70_000, 200,
    )
    .unwrap();
    let r = claim(&m, &mut pos, &mut vaults, &mut log, MARKET_KEY, ALICE);
    assert_eq!(r, Err(ErrorCode::InvalidStatus));
    close_market(&mut m, 5000).unwrap();
    let r = claim(&m, &mut pos, &mut vaults, &mut log, MARKET_KEY, ALICE);
    assert_eq!(r, Err(ErrorCode::InvalidStatus));
}

#[test]
fn claim_requires_owner_and_matching_market() {
    let mut s = resolved_market(&[(ALICE, Outcome::Yes, 700_000)], Outcome::Yes);
    let r = claim(&s.market, &mut s.positions[0], &mut s.vaults, &mut s.log, MARKET_KEY, BOB);
    assert_eq!(r, Err(ErrorCode::NotOwner));
    let r = claim(&s.market, &mut s.positions[0], &mut s.vaults, &mut s.log, MARKET_KEY + 1, ALICE);
    assert_eq!(r, Err(ErrorCode::InvalidMarket));
}

#[test]
fn claim_rejects_losing_side() {
    let mut s = resolved_market(
        &[(ALICE, Outcome::Yes, 700_000), (CAROL, Outcome::No, 500_000)],
        Outcome::Yes,
    );
    let r = claim(&s.market, &mut s.positions[1], &mut s.vaults, &mut s.log, MARKET_KEY, CAROL);
    assert_eq!(r, Err(ErrorCode::NotWinningSide));
    assert!(!s.positions[1].claimed);
}

#[test]
fn claim_rejects_empty_pot() {
    // A resolved market that never saw a stake: the gates pass for a
    // zero-amount position, the pot check fails.
    let mut s = resolved_market(&[], Outcome::Yes);
    let mut pos =
        Position { market: MARKET_KEY, owner: ALICE, side: Outcome::Yes, amount: 0, claimed: false };
    let r = claim(&s.market, &mut pos, &mut s.vaults, &mut s.log, MARKET_KEY, ALICE);
    assert_eq!(r, Err(ErrorCode::EmptyPot));
}

#[test]
fn void_resolution_refunds_exact_stake_fee_free() {
    let mut s = resolved_market(
        &[(ALICE, Outcome::Yes, 700_000), (CAROL, Outcome::No, 500_000)],
        Outcome::Unset,
    );
    let before = s.log.events.len();
    let r = claim(&s.market, &mut s.positions[0], &mut s.vaults, &mut s.log, MARKET_KEY, ALICE);
    assert_eq!(r, Ok(700_000));
    assert!(s.positions[0].claimed);
    let r = claim(&s.market, &mut s.positions[1], &mut s.vaults, &mut s.log, MARKET_KEY, CAROL);
    assert_eq!(r, Ok(500_000));
    // No fee was taken and every unit went back to the stakers.
    assert_eq!(s.vaults.fee_vault, 0);
    assert_eq!(vault_sum(&s.vaults), 0);
    // Each refund is logged like any other claim, with the amount paid.
    assert_eq!(
        &s.log.events[before..],
        &[
            Event::Claimed(Claimed { owner: ALICE, market: MARKET_KEY, amount: 700_000 }),
            Event::Claimed(Claimed { owner: CAROL, market: MARKET_KEY, amount: 500_000 }),
        ]
    );
}

#[test]
fn refund_can_draw_from_the_other_vault() {
    // A YES refund is taken from the NO vault when the YES vault cannot
    // cover it.
    let m = Market {
        authority: AUTHORITY,
        resolver: RESOLVER,
        status: MarketStatus::Resolved,
        fee_bps: 500,
        close_time: 5000,
        winner: Outcome::Unset,
        total_yes: 700_000,
        total_no: 500_000,
        question: "will it rain".to_string(),
    };
    let mut vaults = Vaults { vault_yes: 100_000, vault_no: 1_100_000, fee_vault: 0 };
    let mut log = EventLog::new();
    let mut pos =
        Position { market: MARKET_KEY, owner: ALICE, side: Outcome::Yes, amount: 700_000, claimed: false };
    let r = claim(&m, &mut pos, &mut vaults, &mut log, MARKET_KEY, ALICE);
    assert_eq!(r, Ok(700_000));
    assert_eq!(vaults.vault_yes, 100_000);
    assert_eq!(vaults.vault_no, 400_000);
    // A refund that neither vault covers fails without change.
    let mut pos2 =
        Position { market: MARKET_KEY, owner: BOB, side: Outcome::No, amount: 500_000, claimed: false };
    let r = claim(&m, &mut pos2, &mut vaults, &mut log, MARKET_KEY, BOB);
    assert_eq!(r, Err(ErrorCode::MathOverflow));
    assert!(!pos2.claimed);
    assert_eq!(vaults, Vaults { vault_yes: 100_000, vault_no: 400_000, fee_vault: 0 });
}

#[test]
fn fee_withdrawal_requires_authority_and_balance() {
    let mut s = resolved_market(&[(ALICE, Outcome::Yes, 700_000)], Outcome::Yes);
    claim(&s.market, &mut s.positions[0], &mut s.vaults, &mut s.log, MARKET_KEY, ALICE).unwrap();
    // fee 5% of 700,000 = 35,000.
    assert_eq!(s.vaults.fee_vault, 35_000);
    let r = admin_withdraw_fee(&s.market, &mut s.vaults, RESOLVER, 35_000);
    assert_eq!(r, Err(ErrorCode::NotAuthority));
    let r = admin_withdraw_fee(&s.market, &mut s.vaults, AUTHORITY, 35_001);
    assert_eq!(r, Err(ErrorCode::MathOverflow));
    let r = admin_withdraw_fee(&s.market, &mut s.vaults, AUTHORITY, 20_000);
    assert_eq!(r, Ok(20_000));
    assert_eq!(s.vaults.fee_vault, 15_000);
}

#[test]
fn fee_withdrawal_before_resolution_finds_empty_vault() {
    // No lifecycle gate: the authority may try at any time, but fees only
    // enter the fee vault through decisive claims.
    let m =
        initialize_market(AUTHORITY, "will it rain".to_string(), 5000, 500, RESOLVER, 100).unwrap();
    let mut vaults = Vaults::new();
    let r = admin_withdraw_fee(&m, &mut vaults, AUTHORITY, 1);
    assert_eq!(r, Err(ErrorCode::MathOverflow));
    let r = admin_withdraw_fee(&m, &mut vaults, AUTHORITY, 0);
    assert_eq!(r, Ok(0));
}

#[test]
fn conservation_holds_throughout_a_run() {
    // Track staked minus paid against the combined vault balance at every
    // step of a full run.
    let mut s = resolved_market(
        &[
            (ALICE, Outcome::Yes, 700_000),
            (BOB, Outcome::Yes, 300_000),
            (CAROL, Outcome::No, 500_000),
        ],
        Outcome::Yes,
    );
    let staked: u64 = 1_500_000;
    let mut paid: u64 = 0;
    assert_eq!(vault_sum(&s.vaults), staked - paid);
    paid += claim(&s.market, &mut s.positions[1], &mut s.vaults, &mut s.log, MARKET_KEY, BOB)
        .unwrap();
    assert_eq!(vault_sum(&s.vaults), staked - paid);
    paid += admin_withdraw_fee(&s.market, &mut s.vaults, AUTHORITY, 22_500).unwrap();
    assert_eq!(vault_sum(&s.vaults), staked - paid);
    assert!(paid <= staked);
}
