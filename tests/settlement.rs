use coin_flip::{
    dice_roll, settle_flip, AccountKey, BetType, DiceRoll, ErrorCode, PlayerState, SettleFlip,
};

const DISCRIMINATOR: [u8; 8] = [10, 66, 229, 135, 220, 239, 217, 114];

fn key(b: u8) -> AccountKey {
    AccountKey { bytes: [b; 32] }
}

/// An oracle randomness account as the oracle lays it out.
fn oracle_account(seed_slot: u64, reveal_slot: u64, value: [u8; 32]) -> Vec<u8> {
    let mut data = vec![0u8; 408];
    data[..8].copy_from_slice(&DISCRIMINATOR);
    data[104..112].copy_from_slice(&seed_slot.to_le_bytes());
    data[144..152].copy_from_slice(&reveal_slot.to_le_bytes());
    data[152..184].copy_from_slice(&value);
    data
}

fn value_with_draw(draw: u8) -> [u8; 32] {
    let mut value = [0u8; 32];
    value[0] = draw;
    value
}

fn open_ctx(seed_slot: u64, clock_slot: u64) -> DiceRoll {
    DiceRoll {
        player_state: None,
        user: key(1),
        user_lamports: 100_000_000,
        randomness_account: key(7),
        randomness_account_data: oracle_account(seed_slot, 0, [0u8; 32]),
        treasury_lamports: 5_000_000_000,
        clock_slot,
        bump: 254,
    }
}

fn opened(guess: u8, bet: u64, bet_type: BetType) -> DiceRoll {
    let mut ctx = open_ctx(100, 101);
    assert_eq!(dice_roll(&mut ctx, 0, guess, bet, bet_type), Ok(()));
    ctx
}

fn settle_ctx(open: &DiceRoll, seed_slot: u64, draw: u8) -> SettleFlip {
    SettleFlip {
        user: open.user,
        user_lamports: open.user_lamports,
        player_state: open.player_state.unwrap(),
        randomness_account: open.randomness_account,
        randomness_account_data: oracle_account(seed_slot, 105, value_with_draw(draw)),
        treasury_lamports: open.treasury_lamports,
        min_balance: 1_000_000,
        clock_slot: 105,
    }
}

#[test]
fn open_records_session_and_takes_stake() {
    let ctx = opened(40, 10_000_000, BetType::Under);
    let ps: PlayerState = ctx.player_state.unwrap();
    assert_eq!(ps.current_guess, 40);
    assert_eq!(ps.wager, 10_000_000);
    assert_eq!(ps.bet_type, BetType::Under);
    assert_eq!(ps.commit_slot, 100);
    assert_eq!(ps.bump, 254);
    assert_eq!(ps.result, None);
    assert_eq!(ps.allowed_user.bytes, [1u8; 32]);
    assert_eq!(ps.randomness_account.bytes, [7u8; 32]);
    assert_eq!(ctx.user_lamports, 90_000_000);
    assert_eq!(ctx.treasury_lamports, 5_010_000_000);
}

#[test]
fn open_rejects_bad_guess() {
    let mut ctx = open_ctx(100, 101);
    assert_eq!(dice_roll(&mut ctx, 0, 1, 10_000_000, BetType::Over), Err(ErrorCode::InvalidGuess));
    assert_eq!(dice_roll(&mut ctx, 0, 99, 10_000_000, BetType::Over), Err(ErrorCode::InvalidGuess));
    assert!(ctx.player_state.is_none());
    assert_eq!(ctx.user_lamports, 100_000_000);
}

#[test]
fn open_rejects_bet_out_of_range() {
    let mut ctx = open_ctx(100, 101);
    assert_eq!(dice_roll(&mut ctx, 0, 50, 999_999, BetType::Over), Err(ErrorCode::BetOutOfRange));
    assert_eq!(dice_roll(&mut ctx, 0, 50, 1_000_000_001, BetType::Over), Err(ErrorCode::BetOutOfRange));
    assert_eq!(dice_roll(&mut ctx, 0, 50, 1_000_000, BetType::Over), Ok(()));
}

#[test]
fn open_rejects_stale_seed() {
    let mut ctx = open_ctx(99, 101);
    assert_eq!(dice_roll(&mut ctx, 0, 50, 10_000_000, BetType::Over), Err(ErrorCode::RandomnessAlreadyRevealed));
    let mut ctx = open_ctx(101, 101);
    assert_eq!(dice_roll(&mut ctx, 0, 50, 10_000_000, BetType::Over), Err(ErrorCode::RandomnessAlreadyRevealed));
    assert!(ctx.player_state.is_none());
}

#[test]
fn open_rejects_unreadable_oracle_account() {
    let mut ctx = open_ctx(100, 101);
    ctx.randomness_account_data[0] = 0;
    assert_eq!(dice_roll(&mut ctx, 0, 50, 10_000_000, BetType::Over), Err(ErrorCode::InvalidRandomnessData));
    let mut ctx = open_ctx(100, 101);
    ctx.randomness_account_data.truncate(200);
    assert_eq!(dice_roll(&mut ctx, 0, 50, 10_000_000, BetType::Over), Err(ErrorCode::InvalidRandomnessData));
}

#[test]
fn open_twice_fails() {
    let mut ctx = opened(40, 10_000_000, BetType::Under);
    assert_eq!(dice_roll(&mut ctx, 0, 40, 10_000_000, BetType::Under), Err(ErrorCode::AlreadyInitialized));
    assert_eq!(ctx.user_lamports, 90_000_000);
}

#[test]
fn open_needs_player_funds() {
    let mut ctx = open_ctx(100, 101);
    ctx.user_lamports = 5_000_000;
    assert_eq!(dice_roll(&mut ctx, 0, 50, 10_000_000, BetType::Over), Err(ErrorCode::InsufficientFunds));
    assert!(ctx.player_state.is_none());
    assert_eq!(ctx.user_lamports, 5_000_000);
    assert_eq!(ctx.treasury_lamports, 5_000_000_000);
}

#[test]
fn winning_settlement_pays_exact_payout() {
    let open = opened(40, 10_000_000, BetType::Under);
    let mut ctx = settle_ctx(&open, 100, 10);
    let s = settle_flip(&mut ctx, 0).unwrap();
    assert_eq!(s.roll, 10);
    assert!(s.won);
    assert_eq!(s.payout, 24_115_380);
    assert_eq!(ctx.treasury_lamports, 5_010_000_000 - 24_115_380);
    assert_eq!(ctx.user_lamports, 90_000_000 + 24_115_380);
    assert_eq!(ctx.player_state.result, Some(true));
}

#[test]
fn losing_settlement_pays_nothing() {
    let open = opened(40, 10_000_000, BetType::Under);
    let mut ctx = settle_ctx(&open, 100, 70);
    let s = settle_flip(&mut ctx, 0).unwrap();
    assert_eq!(s.roll, 70);
    assert!(!s.won);
    assert_eq!(s.payout, 0);
    assert_eq!(ctx.treasury_lamports, 5_010_000_000);
    assert_eq!(ctx.user_lamports, 90_000_000);
    assert_eq!(ctx.player_state.result, Some(false));
}

#[test]
fn draw_equal_to_guess_loses() {
    let open = opened(50, 10_000_000, BetType::Over);
    let mut ctx = settle_ctx(&open, 100, 50);
    let s = settle_flip(&mut ctx, 0).unwrap();
    assert_eq!(s.roll, 50);
    assert!(!s.won);
    assert_eq!(s.payout, 0);
}

#[test]
fn settling_twice_does_not_pay_twice() {
    let open = opened(40, 10_000_000, BetType::Under);
    let mut ctx = settle_ctx(&open, 100, 10);
    assert!(settle_flip(&mut ctx, 0).is_ok());
    let treasury = ctx.treasury_lamports;
    let user = ctx.user_lamports;
    assert_eq!(settle_flip(&mut ctx, 0), Err(ErrorCode::AlreadySettled));
    assert_eq!(ctx.treasury_lamports, treasury);
    assert_eq!(ctx.user_lamports, user);
}

#[test]
fn advanced_seed_slot_expires() {
    let open = opened(40, 10_000_000, BetType::Under);
    let mut ctx = settle_ctx(&open, 101, 10);
    assert_eq!(settle_flip(&mut ctx, 0), Err(ErrorCode::RandomnessExpired));
    assert_eq!(ctx.treasury_lamports, 5_010_000_000);
    assert_eq!(ctx.user_lamports, 90_000_000);
    assert_eq!(ctx.player_state.result, None);
}

#[test]
fn settle_by_other_user_is_refused() {
    let open = opened(40, 10_000_000, BetType::Under);
    let mut ctx = settle_ctx(&open, 100, 10);
    ctx.user = key(2);
    assert_eq!(settle_flip(&mut ctx, 0), Err(ErrorCode::Unauthorized));
}

#[test]
fn settle_with_other_oracle_account_is_refused() {
    let open = opened(40, 10_000_000, BetType::Under);
    let mut ctx = settle_ctx(&open, 100, 10);
    ctx.randomness_account = key(8);
    assert_eq!(settle_flip(&mut ctx, 0), Err(ErrorCode::InvalidRandomnessAccount));
}

#[test]
fn settle_before_reveal_is_retryable() {
    let open = opened(40, 10_000_000, BetType::Under);
    let mut ctx = settle_ctx(&open, 100, 10);
    ctx.clock_slot = 104;
    assert_eq!(settle_flip(&mut ctx, 0), Err(ErrorCode::RandomnessNotResolved));
    assert_eq!(ctx.player_state.result, None);
    ctx.clock_slot = 105;
    assert!(settle_flip(&mut ctx, 0).unwrap().won);
}

#[test]
fn settle_with_unreadable_oracle_account() {
    let open = opened(40, 10_000_000, BetType::Under);
    let mut ctx = settle_ctx(&open, 100, 10);
    ctx.randomness_account_data[3] ^= 1;
    assert_eq!(settle_flip(&mut ctx, 0), Err(ErrorCode::InvalidRandomnessData));
}

#[test]
fn win_beyond_available_funds_keeps_session_open() {
    let open = opened(40, 10_000_000, BetType::Under);
    let mut ctx = settle_ctx(&open, 100, 10);
    ctx.treasury_lamports = 25_000_000;
    assert_eq!(settle_flip(&mut ctx, 0), Err(ErrorCode::InsufficientTreasuryFunds));
    assert_eq!(ctx.player_state.result, None);
    assert_eq!(ctx.treasury_lamports, 25_000_000);
    ctx.treasury_lamports = 25_115_380;
    assert_eq!(settle_flip(&mut ctx, 0).unwrap().payout, 24_115_380);
    assert_eq!(ctx.treasury_lamports, 1_000_000);
}

#[test]
fn read_randomness_takes_fields_from_layout() {
    let data = oracle_account(100, 105, value_with_draw(42));
    let rec = coin_flip::read_randomness(&data).unwrap();
    assert_eq!(rec.seed_slot, 100);
    assert_eq!(rec.reveal_slot, 105);
    assert_eq!(rec.value, value_with_draw(42));
    assert!(coin_flip::read_randomness(&data[..407]).is_none());
    assert!(coin_flip::read_randomness(&[]).is_none());
}

#[test]
fn settle_with_record_given_directly() {
    let open = opened(60, 2_000_000, BetType::Over);
    let mut ctx = settle_ctx(&open, 100, 0);
    let rec = coin_flip::RandomnessRecord { seed_slot: 100, reveal_slot: 105, value: value_with_draw(99) };
    let s = coin_flip::settle_with_randomness(&mut ctx, Some(rec)).unwrap();
    assert_eq!(s.roll, 99);
    assert!(s.won);
    // 39 winning outcomes: multiplier 2_411_538
    assert_eq!(s.payout, 4_823_076);
    let mut ctx = settle_ctx(&open, 100, 0);
    assert_eq!(coin_flip::settle_with_randomness(&mut ctx, None), Err(ErrorCode::InvalidRandomnessData));
}

#[test]
fn open_with_record_given_directly() {
    let mut ctx = open_ctx(0, 101);
    let rec = coin_flip::RandomnessRecord { seed_slot: 100, reveal_slot: 0, value: [0u8; 32] };
    assert_eq!(coin_flip::open_with_randomness(&mut ctx, 30, 5_000_000, BetType::Under, Some(rec)), Ok(()));
    assert_eq!(ctx.player_state.unwrap().commit_slot, 100);
    let mut ctx = open_ctx(0, 0);
    let rec = coin_flip::RandomnessRecord { seed_slot: 0, reveal_slot: 0, value: [0u8; 32] };
    assert_eq!(
        coin_flip::open_with_randomness(&mut ctx, 30, 5_000_000, BetType::Under, Some(rec)),
        Err(ErrorCode::RandomnessAlreadyRevealed)
    );
}
