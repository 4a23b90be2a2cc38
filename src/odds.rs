//! Outcome and payout arithmetic: pure functions with no state.
use vstd::prelude::*;
use crate::error::ErrorCode;
use crate::state::BetType;

verus! {

/// Fixed-point scale of a multiplier: six decimal digits.
pub const PRECISION: u64 = 1_000_000;

/// Fair-odds share kept for the player: 95%, scaled by `PRECISION`.
pub const HOUSE_EDGE: u64 = 950_000;

/// Number of outcomes the odds are counted over.
pub const TOTAL_OUTCOMES: u64 = 99;

pub const MIN_GUESS: u8 = 2;

pub const MAX_GUESS: u8 = 98;

pub open spec fn valid_guess(guess: u8) -> bool {
    MIN_GUESS <= guess <= MAX_GUESS
}

/// Whether a draw wins: strictly above the guess for `Over`, strictly
/// below it for `Under`; a draw equal to the guess always loses.
pub open spec fn wins(roll: u8, guess: u8, bet_type: BetType) -> bool {
    match bet_type {
        BetType::Over => roll > guess,
        BetType::Under => roll < guess,
    }
}

/// How many outcomes win for a guess: `99 - guess` above it, `guess - 1`
/// below it, so that every valid guess keeps at least one winning outcome.
pub open spec fn winning_outcomes(guess: u8, bet_type: BetType) -> int {
    match bet_type {
        BetType::Over => 99 - guess,
        BetType::Under => guess - 1,
    }
}

/// The edge-adjusted multiplier, never below one times the stake.
pub open spec fn multiplier(guess: u8, bet_type: BetType) -> int {
    let m = (TOTAL_OUTCOMES * HOUSE_EDGE) as int / winning_outcomes(guess, bet_type);
    if m < PRECISION { PRECISION as int } else { m }
}

/// What a winning wager pays, before any range check.
pub open spec fn payout_amount(wager: u64, guess: u8, bet_type: BetType) -> int {
    wager * multiplier(guess, bet_type) / PRECISION as int
}

/// The payout of a winning wager, or why there is none.
pub open spec fn payout_result(wager: u64, guess: u8, bet_type: BetType) -> Result<u64, ErrorCode> {
    if !valid_guess(guess) {
        Err(ErrorCode::InvalidGuess)
    } else if payout_amount(wager, guess, bet_type) > u64::MAX {
        Err(ErrorCode::MathOverflow)
    } else {
        Ok(payout_amount(wager, guess, bet_type) as u64)
    }
}

/// Decides whether a draw wins against a guess.
pub fn resolve_outcome(roll: u8, guess: u8, bet_type: BetType) -> (r: bool)
    ensures
        r == wins(roll, guess, bet_type),
{
    match bet_type {
        BetType::Over => roll > guess,
        BetType::Under => roll < guess,
    }
}

/// The fixed-point payout multiplier for a guess.
pub fn payout_multiplier(guess: u8, bet_type: BetType) -> (r: Result<u64, ErrorCode>)
    ensures
        valid_guess(guess) ==> r == Ok::<u64, ErrorCode>(multiplier(guess, bet_type) as u64),
        !valid_guess(guess) ==> r == Err::<u64, ErrorCode>(ErrorCode::InvalidGuess),
        r is Ok ==> PRECISION <= r->Ok_0 <= 94_050_000,
{
    proof {
        if valid_guess(guess) {
            lemma_multiplier_bounds(guess, bet_type);
        }
    }
    if guess < MIN_GUESS || guess > MAX_GUESS {
        return Err(ErrorCode::InvalidGuess);
    }
    let winning: u64 = match bet_type {
        BetType::Over => 99 - guess as u64,
        BetType::Under => guess as u64 - 1,
    };
    assert(TOTAL_OUTCOMES as u128 * HOUSE_EDGE as u128 == 94_050_000) by (nonlinear_arith)
        requires TOTAL_OUTCOMES == 99, HOUSE_EDGE == 950_000;
    let numerator: u128 = TOTAL_OUTCOMES as u128 * HOUSE_EDGE as u128;
    let m: u128 = numerator / winning as u128;
    assert(m <= numerator) by (nonlinear_arith)
        requires m == numerator / winning as u128, winning >= 1;
    let m: u128 = if m < PRECISION as u128 { PRECISION as u128 } else { m };
    Ok(m as u64)
}

/// The amount a winning wager pays: the stake times the multiplier, in
/// widened arithmetic, failing rather than truncating when it exceeds `u64`.
pub fn calculate_payout(wager: u64, guess: u8, bet_type: BetType) -> (r: Result<u64, ErrorCode>)
    ensures
        r == payout_result(wager, guess, bet_type),
{
    let m = match payout_multiplier(guess, bet_type) {
        Ok(m) => m,
        Err(e) => return Err(e),
    };
    assert(m <= 94_050_000) by {
        lemma_multiplier_bounds(guess, bet_type);
    }
    assert(wager as u128 * m as u128 <= u64::MAX * 94_050_000) by (nonlinear_arith)
        requires wager <= u64::MAX, m <= 94_050_000;
    let product: u128 = wager as u128 * m as u128;
    let payout: u128 = product / PRECISION as u128;
    if payout > u64::MAX as u128 {
        return Err(ErrorCode::MathOverflow);
    }
    Ok(payout as u64)
}

/// Every multiplier lies between one times the stake and the multiplier of
/// a single winning outcome.
pub proof fn lemma_multiplier_bounds(guess: u8, bet_type: BetType)
    requires
        valid_guess(guess),
    ensures
        PRECISION <= multiplier(guess, bet_type) <= 94_050_000,
        1 <= winning_outcomes(guess, bet_type) <= 97,
{
    let w = winning_outcomes(guess, bet_type);
    assert(94_050_000int / w <= 94_050_000) by (nonlinear_arith)
        requires w >= 1;
}

/// The rarer a win, the larger its multiplier: fewer winning outcomes never
/// give a smaller multiplier.
pub proof fn lemma_multiplier_monotone(g1: u8, b1: BetType, g2: u8, b2: BetType)
    requires
        valid_guess(g1),
        valid_guess(g2),
        winning_outcomes(g1, b1) >= winning_outcomes(g2, b2),
    ensures
        multiplier(g1, b1) <= multiplier(g2, b2),
{
    lemma_multiplier_bounds(g1, b1);
    lemma_multiplier_bounds(g2, b2);
    vstd::arithmetic::div_mod::lemma_div_is_ordered_by_denominator(
        94_050_000int,
        winning_outcomes(g2, b2),
        winning_outcomes(g1, b1),
    );
}

/// A wager on `Over 2`, the likeliest win, has the smallest multiplier and
/// payout of all guesses; `Over 98`, with a single winning outcome, has the
/// largest.
pub proof fn lemma_payout_extremes(wager: u64, guess: u8, bet_type: BetType)
    requires
        valid_guess(guess),
    ensures
        winning_outcomes(98, BetType::Over) == 1,
        multiplier(2, BetType::Over) <= multiplier(guess, bet_type),
        multiplier(guess, bet_type) <= multiplier(98, BetType::Over),
        payout_amount(wager, 2, BetType::Over) <= payout_amount(wager, guess, bet_type),
        payout_amount(wager, guess, bet_type) <= payout_amount(wager, 98, BetType::Over),
{
    lemma_multiplier_bounds(guess, bet_type);
    lemma_multiplier_bounds(2, BetType::Over);
    lemma_multiplier_monotone(2, BetType::Over, guess, bet_type);
    lemma_multiplier_monotone(guess, bet_type, 98, BetType::Over);
    let lo = multiplier(2, BetType::Over);
    let mid = multiplier(guess, bet_type);
    let hi = multiplier(98, BetType::Over);
    assert(wager * lo <= wager * mid) by (nonlinear_arith)
        requires lo <= mid, wager >= 0;
    assert(wager * mid <= wager * hi) by (nonlinear_arith)
        requires mid <= hi, wager >= 0;
    vstd::arithmetic::div_mod::lemma_div_is_ordered(wager * lo, wager * mid, PRECISION as int);
    vstd::arithmetic::div_mod::lemma_div_is_ordered(wager * mid, wager * hi, PRECISION as int);
}

/// A draw equal to the guess loses, whichever side was bet.
pub proof fn lemma_equal_draw_loses(guess: u8, bet_type: BetType)
    ensures
        !wins(guess, guess, bet_type),
{
}

} // verus!
