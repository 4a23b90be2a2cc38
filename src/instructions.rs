//! The four operations: opening a wager, settling it, and setting up and
//! drawing down the treasury. Each works on a context that holds what the
//! operation reads and the balances it moves, and on any error leaves the
//! context exactly as it was.
use vstd::prelude::*;
use crate::draw::{draw_of, generate_dice_roll};
use crate::error::ErrorCode;
use crate::odds::{calculate_payout, payout_amount, payout_result, resolve_outcome, valid_guess, wins, MAX_GUESS, MIN_GUESS};
use crate::randomness::{parse_randomness, randomness_layout_ok, record_read_from, RandomnessRecord};
use crate::state::{AccountKey, BetType, PlayerState, Treasury};

verus! {

pub const MIN_BET: u64 = 1_000_000;

pub const MAX_BET: u64 = 1_000_000_000;

/// Largest amount one withdrawal may take.
pub const MAX_WITHDRAWAL: u64 = 10_000_000_000;

/// A payment of `amount` from one balance to another: the two new balances,
/// or why it cannot be made.
pub open spec fn transfer_spec(from: u64, to: u64, amount: u64) -> Result<(u64, u64), ErrorCode> {
    if from < amount {
        Err(ErrorCode::InsufficientFunds)
    } else if to + amount > u64::MAX {
        Err(ErrorCode::MathOverflow)
    } else {
        Ok(((from - amount) as u64, (to + amount) as u64))
    }
}

/// Moves `amount` from one balance to another.
pub fn transfer_lamports(from: u64, to: u64, amount: u64) -> (r: Result<(u64, u64), ErrorCode>)
    ensures
        r == transfer_spec(from, to, amount),
{
    if from < amount {
        return Err(ErrorCode::InsufficientFunds);
    }
    match to.checked_add(amount) {
        Some(t) => Ok((from - amount, t)),
        None => Err(ErrorCode::MathOverflow),
    }
}

/// What opening a wager reads and changes.
#[derive(Debug)]
pub struct DiceRoll {
    /// The session record; `None` until the wager is opened.
    pub player_state: Option<PlayerState>,
    pub user: AccountKey,
    pub user_lamports: u64,
    pub randomness_account: AccountKey,
    /// The raw contents of the oracle's randomness account.
    pub randomness_account_data: Vec<u8>,
    pub treasury_lamports: u64,
    /// The current slot.
    pub clock_slot: u64,
    /// Derivation seed recorded in the new session.
    pub bump: u8,
}

/// The result of opening a wager, given the randomness record read from
/// the oracle account (`None` when it could not be read).
pub open spec fn open_spec(
    c: DiceRoll,
    guess: u8,
    bet: u64,
    bet_type: BetType,
    rec: Option<RandomnessRecord>,
) -> Result<DiceRoll, ErrorCode> {
    if !valid_guess(guess) {
        Err(ErrorCode::InvalidGuess)
    } else if !(MIN_BET <= bet <= MAX_BET) {
        Err(ErrorCode::BetOutOfRange)
    } else if c.player_state is Some {
        Err(ErrorCode::AlreadyInitialized)
    } else {
        match rec {
            None => Err(ErrorCode::InvalidRandomnessData),
            Some(d) => if d.seed_slot + 1 != c.clock_slot {
                Err(ErrorCode::RandomnessAlreadyRevealed)
            } else {
                match transfer_spec(c.user_lamports, c.treasury_lamports, bet) {
                    Err(e) => Err(e),
                    Ok(balances) => Ok(
                        DiceRoll {
                            player_state: Some(
                                PlayerState {
                                    allowed_user: c.user,
                                    randomness_account: c.randomness_account,
                                    current_guess: guess,
                                    wager: bet,
                                    bet_type,
                                    commit_slot: d.seed_slot,
                                    bump: c.bump,
                                    result: None,
                                },
                            ),
                            user_lamports: balances.0,
                            treasury_lamports: balances.1,
                            ..c
                        },
                    ),
                }
            },
        }
    }
}

/// `after` and `r` are what an operation with outcome `o` leaves: the new
/// context on success, the old one and the error otherwise.
pub open spec fn applied<C, T>(before: C, after: C, r: Result<T, ErrorCode>, o: Result<(T, C), ErrorCode>) -> bool {
    match o {
        Ok(v) => r == Ok::<T, ErrorCode>(v.0) && after == v.1,
        Err(e) => r == Err::<T, ErrorCode>(e) && after == before,
    }
}

/// `rec` is a possible reading of the oracle account `data`: the record its
/// layout holds, or a failed reading.
pub open spec fn randomness_read(data: Seq<u8>, rec: Option<RandomnessRecord>) -> bool {
    match rec {
        Some(d) => randomness_layout_ok(data) && record_read_from(d, data),
        None => true,
    }
}

/// Reads the oracle account; a record that cannot be read is `None`.
pub fn read_randomness(data: &[u8]) -> (r: Option<RandomnessRecord>)
    ensures
        randomness_read(data@, r),
        !randomness_layout_ok(data@) ==> r is None,
{
    match parse_randomness(data) {
        Ok(d) => Some(d),
        Err(_) => None,
    }
}

pub open spec fn open_outcome(
    c: DiceRoll,
    guess: u8,
    bet: u64,
    bet_type: BetType,
    rec: Option<RandomnessRecord>,
) -> Result<((), DiceRoll), ErrorCode> {
    match open_spec(c, guess, bet, bet_type, rec) {
        Ok(n) => Ok(((), n)),
        Err(e) => Err(e),
    }
}

/// Opens a wager: reads the oracle account bound to it, then proceeds as
/// [`open_with_randomness`] with what was read.
pub fn dice_roll(ctx: &mut DiceRoll, _id: u64, guess: u8, bet: u64, bet_type: BetType) -> (r: Result<(), ErrorCode>)
    ensures
        exists|rec: Option<RandomnessRecord>|
            #[trigger] randomness_read(old(ctx).randomness_account_data@, rec)
            && applied(*old(ctx), *final(ctx), r, open_outcome(*old(ctx), guess, bet, bet_type, rec)),
{
    let rec = read_randomness(ctx.randomness_account_data.as_slice());
    let r = open_with_randomness(ctx, guess, bet, bet_type, rec);
    assert(randomness_read(old(ctx).randomness_account_data@, rec));
    r
}

/// Opens a wager against an already read randomness record: checks the
/// guess and stake, requires the record to have been seeded in the slot
/// just before this one, moves the stake to the treasury and records the
/// session.
pub fn open_with_randomness(
    ctx: &mut DiceRoll,
    guess: u8,
    bet: u64,
    bet_type: BetType,
    rec: Option<RandomnessRecord>,
) -> (r: Result<(), ErrorCode>)
    ensures
        applied(*old(ctx), *final(ctx), r, open_outcome(*old(ctx), guess, bet, bet_type, rec)),
{
    if guess < MIN_GUESS || guess > MAX_GUESS {
        return Err(ErrorCode::InvalidGuess);
    }
    if bet < MIN_BET || bet > MAX_BET {
        return Err(ErrorCode::BetOutOfRange);
    }
    if ctx.player_state.is_some() {
        return Err(ErrorCode::AlreadyInitialized);
    }
    let d = match rec {
        Some(d) => d,
        None => return Err(ErrorCode::InvalidRandomnessData),
    };
    if ctx.clock_slot == 0 || d.seed_slot != ctx.clock_slot - 1 {
        return Err(ErrorCode::RandomnessAlreadyRevealed);
    }
    let (user_lamports, treasury_lamports) = match transfer_lamports(ctx.user_lamports, ctx.treasury_lamports, bet) {
        Ok(b) => b,
        Err(e) => return Err(e),
    };
    ctx.player_state = Some(
        PlayerState {
            allowed_user: ctx.user,
            randomness_account: ctx.randomness_account,
            current_guess: guess,
            wager: bet,
            bet_type,
            commit_slot: d.seed_slot,
            bump: ctx.bump,
            result: None,
        },
    );
    ctx.user_lamports = user_lamports;
    ctx.treasury_lamports = treasury_lamports;
    Ok(())
}

/// What settling a wager reads and changes.
#[derive(Debug)]
pub struct SettleFlip {
    /// The settling signer; only the session's own player may settle.
    pub user: AccountKey,
    pub user_lamports: u64,
    pub player_state: PlayerState,
    /// The oracle account presented for settlement.
    pub randomness_account: AccountKey,
    /// The raw contents of that account.
    pub randomness_account_data: Vec<u8>,
    pub treasury_lamports: u64,
    /// The least balance the treasury must keep.
    pub min_balance: u64,
    /// The current slot.
    pub clock_slot: u64,
}

/// How a settled wager came out.
#[derive(Clone, Copy, Debug, PartialEq, Eq, Structural)]
pub struct Settlement {
    /// The draw, in `0..=100`.
    pub roll: u8,
    pub won: bool,
    /// What the player received; zero on a loss.
    pub payout: u64,
}

/// What the treasury may pay out: its balance above the minimum, or nothing.
pub open spec fn available_balance(treasury_lamports: u64, min_balance: u64) -> int {
    if treasury_lamports >= min_balance { treasury_lamports - min_balance } else { 0 }
}

/// The context once settlement `s` has been applied: the session records
/// its result and the payout has moved from the treasury to the player.
pub open spec fn after_settlement(c: SettleFlip, s: Settlement) -> SettleFlip {
    SettleFlip {
        player_state: PlayerState { result: Some(s.won), ..c.player_state },
        treasury_lamports: (c.treasury_lamports - s.payout) as u64,
        user_lamports: (c.user_lamports + s.payout) as u64,
        ..c
    }
}

/// The result of settling, given the randomness record read from the
/// presented oracle account (`None` when it could not be read). The checks
/// come in this order: the signer, the session still open, the oracle
/// account, the record, its seed slot, its reveal, and for a win the payout
/// and the treasury's available funds.
pub open spec fn settle_spec(c: SettleFlip, rec: Option<RandomnessRecord>) -> Result<Settlement, ErrorCode> {
    let ps = c.player_state;
    if c.user.bytes@ != ps.allowed_user.bytes@ {
        Err(ErrorCode::Unauthorized)
    } else if ps.result is Some {
        Err(ErrorCode::AlreadySettled)
    } else if c.randomness_account.bytes@ != ps.randomness_account.bytes@ {
        Err(ErrorCode::InvalidRandomnessAccount)
    } else {
        match rec {
            None => Err(ErrorCode::InvalidRandomnessData),
            Some(d) => if d.seed_slot != ps.commit_slot {
                Err(ErrorCode::RandomnessExpired)
            } else if c.clock_slot != d.reveal_slot {
                Err(ErrorCode::RandomnessNotResolved)
            } else {
                let roll = draw_of(d.value@);
                if !wins(roll, ps.current_guess, ps.bet_type) {
                    Ok(Settlement { roll, won: false, payout: 0 })
                } else {
                    match payout_result(ps.wager, ps.current_guess, ps.bet_type) {
                        Err(e) => Err(e),
                        Ok(p) => if p > available_balance(c.treasury_lamports, c.min_balance) {
                            Err(ErrorCode::InsufficientTreasuryFunds)
                        } else if c.user_lamports + p > u64::MAX {
                            Err(ErrorCode::MathOverflow)
                        } else {
                            Ok(Settlement { roll, won: true, payout: p })
                        },
                    }
                }
            },
        }
    }
}

pub open spec fn settle_outcome(c: SettleFlip, rec: Option<RandomnessRecord>) -> Result<(Settlement, SettleFlip), ErrorCode> {
    match settle_spec(c, rec) {
        Ok(s) => Ok((s, after_settlement(c, s))),
        Err(e) => Err(e),
    }
}

/// Settles a wager against an already read randomness record. A win the
/// treasury cannot cover fails and leaves the session open, so that it can
/// be settled once the treasury is replenished.
pub fn settle_with_randomness(ctx: &mut SettleFlip, rec: Option<RandomnessRecord>) -> (r: Result<Settlement, ErrorCode>)
    ensures
        applied(*old(ctx), *final(ctx), r, settle_outcome(*old(ctx), rec)),
{
    if !ctx.user.same_key(&ctx.player_state.allowed_user) {
        return Err(ErrorCode::Unauthorized);
    }
    if ctx.player_state.result.is_some() {
        return Err(ErrorCode::AlreadySettled);
    }
    if !ctx.randomness_account.same_key(&ctx.player_state.randomness_account) {
        return Err(ErrorCode::InvalidRandomnessAccount);
    }
    let d = match rec {
        Some(d) => d,
        None => return Err(ErrorCode::InvalidRandomnessData),
    };
    if d.seed_slot != ctx.player_state.commit_slot {
        return Err(ErrorCode::RandomnessExpired);
    }
    let value = match d.value_at(ctx.clock_slot) {
        Some(v) => v,
        None => return Err(ErrorCode::RandomnessNotResolved),
    };
    let roll = generate_dice_roll(&value);
    let guess = ctx.player_state.current_guess;
    let bet_type = ctx.player_state.bet_type;
    if !resolve_outcome(roll, guess, bet_type) {
        ctx.player_state.result = Some(false);
        return Ok(Settlement { roll, won: false, payout: 0 });
    }
    let payout = match calculate_payout(ctx.player_state.wager, guess, bet_type) {
        Ok(p) => p,
        Err(e) => return Err(e),
    };
    let available = ctx.treasury_lamports.saturating_sub(ctx.min_balance);
    if payout > available {
        return Err(ErrorCode::InsufficientTreasuryFunds);
    }
    let (treasury_lamports, user_lamports) = match transfer_lamports(ctx.treasury_lamports, ctx.user_lamports, payout) {
        Ok(b) => b,
        Err(e) => return Err(e),
    };
    ctx.treasury_lamports = treasury_lamports;
    ctx.user_lamports = user_lamports;
    ctx.player_state.result = Some(true);
    Ok(Settlement { roll, won: true, payout })
}

/// Settles a wager: reads the presented oracle account, then proceeds as
/// [`settle_with_randomness`] with what was read.
pub fn settle_flip(ctx: &mut SettleFlip, _id: u64) -> (r: Result<Settlement, ErrorCode>)
    ensures
        exists|rec: Option<RandomnessRecord>|
            #[trigger] randomness_read(old(ctx).randomness_account_data@, rec)
            && applied(*old(ctx), *final(ctx), r, settle_outcome(*old(ctx), rec)),
{
    let rec = read_randomness(ctx.randomness_account_data.as_slice());
    let r = settle_with_randomness(ctx, rec);
    assert(randomness_read(old(ctx).randomness_account_data@, rec));
    r
}

/// What setting up the treasury reads and changes.
#[derive(Clone, Copy, Debug)]
pub struct InitTreasury {
    /// Becomes the treasury's owner.
    pub signer: AccountKey,
    /// The treasury record; `None` until it is set up.
    pub treasury: Option<Treasury>,
    /// Derivation seed recorded in the treasury.
    pub bump: u8,
}

/// Sets up the treasury once, owned by the signer.
pub fn initialize_treasury(ctx: &mut InitTreasury) -> (r: Result<(), ErrorCode>)
    ensures
        old(ctx).treasury is Some ==> r == Err::<(), ErrorCode>(ErrorCode::AlreadyInitialized) && *final(ctx) == *old(ctx),
        old(ctx).treasury is None ==> r is Ok && *final(ctx) == (InitTreasury {
            treasury: Some(Treasury { bump: old(ctx).bump, owner: old(ctx).signer }),
            ..*old(ctx)
        }),
{
    if ctx.treasury.is_some() {
        return Err(ErrorCode::AlreadyInitialized);
    }
    ctx.treasury = Some(Treasury { bump: ctx.bump, owner: ctx.signer });
    Ok(())
}

/// What a withdrawal by the treasury's owner reads and changes.
#[derive(Clone, Copy, Debug)]
pub struct Withdraw {
    pub signer: AccountKey,
    pub signer_lamports: u64,
    pub treasury: Treasury,
    pub treasury_lamports: u64,
    /// The least balance the treasury must keep.
    pub min_balance: u64,
}

/// The result of withdrawing `amount`; the checks come in this order.
pub open spec fn withdraw_spec(c: Withdraw, amount: u64) -> Result<Withdraw, ErrorCode> {
    if c.signer.bytes@ != c.treasury.owner.bytes@ {
        Err(ErrorCode::Unauthorized)
    } else if amount == 0 {
        Err(ErrorCode::InvalidAmount)
    } else if c.treasury_lamports - amount < c.min_balance {
        Err(ErrorCode::InsufficientRentBalance)
    } else if amount > MAX_WITHDRAWAL {
        Err(ErrorCode::WithdrawalLimitExceeded)
    } else if c.signer_lamports + amount > u64::MAX {
        Err(ErrorCode::MathOverflow)
    } else {
        Ok(Withdraw {
            treasury_lamports: (c.treasury_lamports - amount) as u64,
            signer_lamports: (c.signer_lamports + amount) as u64,
            ..c
        })
    }
}

pub open spec fn withdraw_outcome(c: Withdraw, amount: u64) -> Result<((), Withdraw), ErrorCode> {
    match withdraw_spec(c, amount) {
        Ok(n) => Ok(((), n)),
        Err(e) => Err(e),
    }
}

/// Moves `amount` from the treasury to its owner, keeping the treasury at
/// or above its minimum balance and each withdrawal under the limit.
pub fn withdraw(ctx: &mut Withdraw, amount: u64) -> (r: Result<(), ErrorCode>)
    ensures
        applied(*old(ctx), *final(ctx), r, withdraw_outcome(*old(ctx), amount)),
{
    if !ctx.signer.same_key(&ctx.treasury.owner) {
        return Err(ErrorCode::Unauthorized);
    }
    if amount == 0 {
        return Err(ErrorCode::InvalidAmount);
    }
    let remaining = ctx.treasury_lamports.saturating_sub(amount);
    if ctx.treasury_lamports < amount || remaining < ctx.min_balance {
        return Err(ErrorCode::InsufficientRentBalance);
    }
    if amount > MAX_WITHDRAWAL {
        return Err(ErrorCode::WithdrawalLimitExceeded);
    }
    let (treasury_lamports, signer_lamports) = match transfer_lamports(ctx.treasury_lamports, ctx.signer_lamports, amount) {
        Ok(b) => b,
        Err(e) => return Err(e),
    };
    ctx.treasury_lamports = treasury_lamports;
    ctx.signer_lamports = signer_lamports;
    Ok(())
}

/// A session settles once: after a successful settlement, settling again,
/// whatever the oracle account then holds, fails with `AlreadySettled` and
/// moves nothing.
pub proof fn lemma_settle_once(c: SettleFlip, first: Option<RandomnessRecord>, second: Option<RandomnessRecord>)
    requires
        settle_spec(c, first) is Ok,
    ensures
        ({
            let settled = after_settlement(c, settle_spec(c, first)->Ok_0);
            &&& settle_spec(settled, second) == Err::<Settlement, ErrorCode>(ErrorCode::AlreadySettled)
            &&& settle_outcome(settled, second) is Err
        }),
{
}

/// A successful settlement moves exactly the payout from the treasury to
/// the player, pays the edge-adjusted amount on a win and nothing on a
/// loss, and a payout never takes the treasury below its minimum balance.
pub proof fn lemma_settlement_accounting(c: SettleFlip, rec: Option<RandomnessRecord>)
    requires
        settle_spec(c, rec) is Ok,
    ensures
        ({
            let s = settle_spec(c, rec)->Ok_0;
            let n = after_settlement(c, s);
            &&& n.treasury_lamports == c.treasury_lamports - s.payout
            &&& n.user_lamports == c.user_lamports + s.payout
            &&& s.won ==> s.payout == payout_amount(c.player_state.wager, c.player_state.current_guess, c.player_state.bet_type)
            &&& !s.won ==> s.payout == 0
            &&& s.payout > 0 ==> n.treasury_lamports >= c.min_balance
        }),
{
}

/// A successful withdrawal moves exactly the amount to the owner and leaves
/// the treasury at or above its minimum balance.
pub proof fn lemma_withdraw_keeps_reserve(c: Withdraw, amount: u64)
    requires
        withdraw_spec(c, amount) is Ok,
    ensures
        withdraw_spec(c, amount)->Ok_0.treasury_lamports >= c.min_balance,
        withdraw_spec(c, amount)->Ok_0.treasury_lamports == c.treasury_lamports - amount,
        withdraw_spec(c, amount)->Ok_0.signer_lamports == c.signer_lamports + amount,
{
}

} // verus!
