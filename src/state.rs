use vstd::prelude::*;

verus! {

/// Which side of the guess wins.
#[derive(Clone, Copy, Debug, PartialEq, Eq, Structural)]
pub enum BetType {
    /// Wins when the draw is strictly greater than the guess.
    Over,
    /// Wins when the draw is strictly less than the guess.
    Under,
}

/// The 32-byte identity of an account (a player, an oracle record, an owner).
#[derive(Clone, Copy, Debug)]
pub struct AccountKey {
    pub bytes: [u8; 32],
}

impl AccountKey {
    /// Keys are equal when all their bytes are.
    pub fn same_key(&self, other: &AccountKey) -> (r: bool)
        ensures
            r == (self.bytes@ == other.bytes@),
    {
        let mut i: usize = 0;
        while i < 32
            invariant
                0 <= i <= 32,
                forall|j: int| 0 <= j < i ==> self.bytes@[j] == other.bytes@[j],
            decreases 32 - i,
        {
            if self.bytes[i] != other.bytes[i] {
                return false;
            }
            i = i + 1;
        }
        assert(self.bytes@ =~= other.bytes@);
        true
    }
}

/// One open or settled wager.
#[derive(Clone, Copy, Debug)]
pub struct PlayerState {
    /// The player who placed the wager and alone may settle it.
    pub allowed_user: AccountKey,
    /// The oracle record the wager is bound to.
    pub randomness_account: AccountKey,
    pub current_guess: u8,
    pub wager: u64,
    pub bet_type: BetType,
    /// The oracle's seed slot when the wager was placed.
    pub commit_slot: u64,
    pub bump: u8,
    /// `None` while open; the outcome once settled.
    pub result: Option<bool>,
}

/// The house account: its owner alone may withdraw.
#[derive(Clone, Copy, Debug)]
pub struct Treasury {
    pub bump: u8,
    pub owner: AccountKey,
}

} // verus!
