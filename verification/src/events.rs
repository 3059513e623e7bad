//! The records of what happened to a token balance: mint, transfer, burn.
//!
//! The ledger hands these records back to its caller, who publishes them.

use vstd::prelude::*;
use crate::text::opt_text;

verus! {

/// Data of a mint: `amount` new tokens for `owner_id`.
#[derive(Debug)]
pub struct FtMint {
    pub owner_id: String,
    pub amount: u128,
    pub memo: Option<String>,
}

/// Data of a transfer of `amount` tokens from `old_owner_id` to
/// `new_owner_id`.
#[derive(Debug)]
pub struct FtTransfer {
    pub old_owner_id: String,
    pub new_owner_id: String,
    pub amount: u128,
    pub memo: Option<String>,
}

/// Data of a burn: `amount` tokens of `owner_id` destroyed.
#[derive(Debug)]
pub struct FtBurn {
    pub owner_id: String,
    pub amount: u128,
    pub memo: Option<String>,
}

impl FtMint {
    /// Whether the record says that `amount` was minted for `owner_id`
    /// under `memo`.
    pub open spec fn says(&self, owner_id: Seq<char>, amount: u128, memo: Option<Seq<char>>) -> bool {
        &&& self.owner_id@ == owner_id
        &&& self.amount == amount
        &&& opt_text(self.memo) == memo
    }
}

impl FtTransfer {
    /// Whether the record says that `amount` went from `old_owner_id` to
    /// `new_owner_id` under `memo`.
    pub open spec fn says(
        &self,
        old_owner_id: Seq<char>,
        new_owner_id: Seq<char>,
        amount: u128,
        memo: Option<Seq<char>>,
    ) -> bool {
        &&& self.old_owner_id@ == old_owner_id
        &&& self.new_owner_id@ == new_owner_id
        &&& self.amount == amount
        &&& opt_text(self.memo) == memo
    }
}

impl FtBurn {
    /// Whether the record says that `amount` of `owner_id` was burned under
    /// `memo`.
    pub open spec fn says(&self, owner_id: Seq<char>, amount: u128, memo: Option<Seq<char>>) -> bool {
        &&& self.owner_id@ == owner_id
        &&& self.amount == amount
        &&& opt_text(self.memo) == memo
    }
}

} // verus!
