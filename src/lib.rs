//! A commit-reveal wagering engine: a player commits a guess and a stake
//! against randomness that an oracle reveals later, and settlement decides
//! the outcome and pays out with a house edge.
pub mod error;
pub mod state;
pub mod odds;
pub mod draw;
pub mod randomness;
pub mod instructions;

pub use crate::draw::generate_dice_roll;
pub use crate::error::ErrorCode;
pub use crate::instructions::{
    dice_roll, initialize_treasury, open_with_randomness, read_randomness, settle_flip,
    settle_with_randomness, withdraw, DiceRoll, InitTreasury, SettleFlip, Settlement, Withdraw,
};
pub use crate::odds::{calculate_payout, payout_multiplier, resolve_outcome};
pub use crate::randomness::RandomnessRecord;
pub use crate::state::{AccountKey, BetType, PlayerState, Treasury};
