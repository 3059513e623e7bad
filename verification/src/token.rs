//! The SPOT fungible token: the value ledger, transfers, and the
//! settlement of transfers that notify their receiver.
//!
//! The token never talks to the host. Who calls, what the call carries and
//! what the receiver of a notification replied are handed in as plain
//! values; what has to be sent or published is handed back.

use vstd::prelude::*;
use vstd::hash_map::StringHashMap;
use crate::balances::Balance;
use crate::events::{FtBurn, FtMint, FtTransfer};
use crate::ledger::{unused_of, Ledger, TokenError};
use crate::metadata::{default_ft_metadata, spot_metadata, FungibleTokenMetadata, MetadataView};
use crate::storage::{rent_needed, storage_cost, StorageBalance, StorageBalanceBounds};
use crate::storage_tracker::StorageUsage;
use crate::yocto_near::YoctoNear;
use crate::text::{names, opt_text, same_text};

verus! {

/// A quantity of gas.
pub type Gas = u64;

/// Gas kept back for settling a notified transfer.
pub const GAS_FOR_RESOLVE_TRANSFER: Gas = 5_000_000_000_000;

/// Gas that a notified transfer needs besides what the receiver gets.
pub const GAS_FOR_FT_TRANSFER_CALL: Gas = 30_000_000_000_000;

/// How the notification of a receiver ended.
#[derive(Debug)]
pub enum PromiseResult {
    /// The receiver returned these bytes.
    Successful(Vec<u8>),
    /// The call failed or ran out of gas.
    Failed,
}

/// A notified transfer between its optimistic booking and its settlement.
#[derive(Debug)]
pub struct PendingTransfer {
    /// Who sent the tokens.
    pub sender_id: String,
    /// Who got them and is to be notified.
    pub receiver_id: String,
    /// How many tokens went over.
    pub amount: Balance,
    /// The message for the receiver.
    pub msg: String,
    /// Gas for the receiver's handler.
    pub receiver_gas: Gas,
    /// Gas for the settlement that follows.
    pub resolve_gas: Gas,
    /// The record of the optimistic transfer.
    pub event: FtTransfer,
}

/// What is left of an account that was unregistered.
#[derive(Debug, Clone, Copy, PartialEq, Eq, Structural)]
pub struct Unregistered {
    /// The tokens that were destroyed with the account.
    pub burned: Balance,
    /// What is paid out to the owner of the account.
    pub payout: YoctoNear,
}

/// The end of a notified transfer.
#[derive(Debug)]
pub struct Resolution {
    /// What counts as used by the receiver.
    pub used_amount: Balance,
    /// What was destroyed because the sender is gone.
    pub burned_amount: Balance,
    /// The refund to the sender, where there was one.
    pub refund: Option<FtTransfer>,
    /// The burn, where the sender was gone.
    pub burn: Option<FtBurn>,
}

/// The number that a reply to a notification carries: what the JSON parser
/// reads from the bytes where they are a JSON string that stands for a
/// number of 128 bits. `None` for any other bytes.
pub uninterp spec fn json_u128(bytes: Seq<u8>) -> Option<u128>;

/// `near_sdk::serde_json::from_slice` at `near_sdk::json_types::U128`.
/// Reads `bytes` as JSON. The result depends on the bytes alone: the number,
/// or `None` where the parser reports an error.
#[verifier::external_body]
fn parse_json_u128(bytes: &[u8]) -> (r: Option<u128>)
    ensures
        r == json_u128(bytes@),
{
    match near_sdk::serde_json::from_slice::<near_sdk::json_types::U128>(bytes) {
        Ok(value) => Some(value.0),
        Err(_) => None,
    }
}

/// The reply that a finished notification carries, if it carries one.
pub open spec fn spec_reply(result: &PromiseResult) -> Option<u128> {
    match result {
        PromiseResult::Successful(value) => json_u128(value@),
        PromiseResult::Failed => None,
    }
}

/// The reply that a finished notification carries, if it carries one. A
/// failed call and a reply that cannot be read carry none.
pub fn reply_of(result: &PromiseResult) -> (r: Option<u128>)
    ensures
        r == spec_reply(result),
{
    match result {
        PromiseResult::Successful(value) => parse_json_u128(value.as_slice()),
        PromiseResult::Failed => None,
    }
}

/// The amount that the receiver gives back: its reply, held at the amount
/// sent, and the whole amount where there is no reply.
pub fn unused_amount(amount: Balance, reply: Option<u128>) -> (r: Balance)
    ensures
        r == unused_of(amount, reply),
        r <= amount,
{
    match reply {
        Some(unused) => if amount <= unused {
            amount
        } else {
            unused
        },
        None => amount,
    }
}

/// The token: balances by account, the total supply, and who may mint.
pub struct SpotToken {
    accounts: StringHashMap<Balance>,
    owner_id: String,
    minters: Vec<String>,
    total_supply: Balance,
    account_storage_usage: StorageUsage,
    metadata: Option<FungibleTokenMetadata>,
}

impl SpotToken {
    /// The balances and the total supply.
    pub closed spec fn ledger(&self) -> Ledger {
        Ledger { balances: self.accounts@, total_supply: self.total_supply }
    }

    /// The owner of the token.
    pub closed spec fn owner(&self) -> Seq<char> {
        self.owner_id@
    }

    /// The accounts that may mint, in the order in which they are kept.
    pub closed spec fn minter_names(&self) -> Seq<Seq<char>> {
        names(self.minters@)
    }

    /// The bytes of storage that one account occupies.
    pub closed spec fn account_bytes(&self) -> StorageUsage {
        self.account_storage_usage
    }

    /// The metadata that the token keeps, if it keeps any.
    pub closed spec fn stored_metadata(&self) -> Option<MetadataView> {
        match self.metadata {
            Some(m) => Some(m@),
            None => None,
        }
    }

    /// The token is well formed when its ledger is conserved.
    pub open spec fn wf(&self) -> bool {
        self.ledger().conserved()
    }

    /// Whether owner, minters and the size of an account are those of
    /// `other`.
    pub open spec fn same_roles(&self, other: &Self) -> bool {
        &&& self.owner() == other.owner()
        &&& self.minter_names() == other.minter_names()
        &&& self.account_bytes() == other.account_bytes()
        &&& self.stored_metadata() == other.stored_metadata()
    }

    /// How `r` and the ledger afterwards answer a step of the ledger: the
    /// new ledger where the call succeeded, the error where it did not.
    pub open spec fn answer<T>(r: Result<T, TokenError>, after: Ledger) -> Result<Ledger, TokenError> {
        match r {
            Ok(_) => Ok(after),
            Err(e) => Err(e),
        }
    }

    /// A token without accounts, supply or metadata. `owner_id` owns it and
    /// is its first minter; `account_storage_usage` is the number of bytes
    /// that one account occupies.
    pub fn empty(owner_id: &str, account_storage_usage: StorageUsage) -> (r: Self)
        ensures
            r.wf(),
            r.ledger() == Ledger::empty(),
            r.owner() == owner_id@,
            r.minter_names() == seq![owner_id@],
            r.account_bytes() == account_storage_usage,
            r.stored_metadata() is None,
    {
        let mut minters: Vec<String> = Vec::new();
        minters.push(owner_id.to_owned());
        let r = Self {
            accounts: StringHashMap::new(),
            owner_id: owner_id.to_owned(),
            minters,
            total_supply: 0,
            account_storage_usage,
            metadata: None,
        };
        r
    }

    /// A token as it is kept, before any account is loaded: its owner, the
    /// accounts that may mint, its metadata and the number of bytes that
    /// one account occupies. It has no accounts and no supply.
    pub fn restore(
        owner_id: &str,
        minters: Vec<String>,
        metadata: Option<FungibleTokenMetadata>,
        account_storage_usage: StorageUsage,
    ) -> (r: Self)
        ensures
            r.wf(),
            r.ledger() == Ledger::empty(),
            r.owner() == owner_id@,
            r.minter_names() == names(minters@),
            r.account_bytes() == account_storage_usage,
            r.stored_metadata() == crate::metadata::view_of(metadata),
    {
        proof {
            crate::balances::lemma_total_empty();
        }
        Self {
            accounts: StringHashMap::new(),
            owner_id: owner_id.to_owned(),
            minters,
            total_supply: 0,
            account_storage_usage,
            metadata,
        }
    }

    /// What `new` builds from valid metadata.
    pub open spec fn initial(
        &self,
        owner_id: Seq<char>,
        total_supply: Balance,
        metadata: MetadataView,
        account_storage_usage: StorageUsage,
    ) -> bool {
        &&& self.wf()
        &&& self.ledger().balances == Ledger::empty().balances.insert(owner_id, total_supply)
        &&& self.ledger().total_supply == total_supply
        &&& self.owner() == owner_id
        &&& self.minter_names() == seq![owner_id]
        &&& self.account_bytes() == account_storage_usage
        &&& self.stored_metadata() == Some(metadata)
    }

    /// Initializes the token with the given total supply owned by the given
    /// `owner_id` with the given fungible token metadata: the owner is
    /// registered and the whole supply is minted into its account.
    /// `account_storage_usage` is the number of bytes that one account
    /// occupies. Refused for metadata that are not well formed.
    pub fn new(
        owner_id: &str,
        total_supply: Balance,
        metadata: FungibleTokenMetadata,
        account_storage_usage: StorageUsage,
    ) -> (r: Result<(Self, FtMint), TokenError>)
        ensures
            !metadata@.is_valid() ==> r is Err && r->Err_0 == TokenError::InvalidMetadata,
            metadata@.is_valid() ==> r is Ok && r->Ok_0.0.initial(
                owner_id@,
                total_supply,
                metadata@,
                account_storage_usage,
            ) && r->Ok_0.1.says(owner_id@, total_supply, Some("Initial token supply is minted"@)),
    {
        if !metadata.is_valid() {
            return Err(TokenError::InvalidMetadata);
        }
        let mut this = Self::empty(owner_id, account_storage_usage);
        this.metadata = Some(metadata);
        let registered = this.internal_register_account(owner_id);
        let deposited = this.internal_deposit(owner_id, total_supply);
        assert(this.ledger().balances =~= Ledger::empty().balances.insert(owner_id@, total_supply));
        let event = FtMint {
            owner_id: owner_id.to_owned(),
            amount: total_supply,
            memo: Some("Initial token supply is minted".to_owned()),
        };
        Ok((this, event))
    }

    /// Initializes the token with the given total supply owned by the given
    /// `owner_id` with the metadata of the SPOT token.
    pub fn new_default_meta(
        owner_id: &str,
        total_supply: Balance,
        account_storage_usage: StorageUsage,
    ) -> (r: (Self, FtMint))
        ensures
            r.0.initial(
                owner_id@,
                total_supply,
                MetadataView::spot(crate::metadata::ICON@),
                account_storage_usage,
            ),
            r.1.says(owner_id@, total_supply, Some("Initial token supply is minted"@)),
    {
        match Self::new(owner_id, total_supply, spot_metadata(), account_storage_usage) {
            Ok(made) => made,
            Err(_) => vstd::pervasive::unreached(),
        }
    }

    /// The owner of the token.
    pub fn get_owner_id(&self) -> (r: String)
        ensures
            r@ == self.owner(),
    {
        self.owner_id.clone()
    }

    /// The bytes of storage that one account occupies.
    pub fn account_storage_usage(&self) -> (r: StorageUsage)
        ensures
            r == self.account_bytes(),
    {
        self.account_storage_usage
    }

    /// The total supply.
    pub fn ft_total_supply(&self) -> (r: Balance)
        ensures
            r == self.ledger().total_supply,
    {
        self.total_supply
    }

    /// The balance of `account_id`; zero for an account that is not
    /// registered.
    pub fn ft_balance_of(&self, account_id: &str) -> (r: Balance)
        ensures
            r == self.ledger().balance_of(account_id@),
    {
        match self.accounts.get(account_id) {
            Some(balance) => *balance,
            None => 0,
        }
    }

    /// Whether `account_id` has an entry in the ledger.
    pub fn is_registered(&self, account_id: &str) -> (r: bool)
        ensures
            r == self.ledger().is_registered(account_id@),
    {
        self.accounts.contains_key(account_id)
    }

    /// The balance of a registered account.
    pub fn internal_unwrap_balance_of(&self, account_id: &str) -> (r: Result<Balance, TokenError>)
        ensures
            self.ledger().is_registered(account_id@) ==> r == Ok::<Balance, TokenError>(
                self.ledger().balances[account_id@],
            ),
            !self.ledger().is_registered(account_id@) ==> r == Err::<Balance, TokenError>(
                TokenError::NotRegistered,
            ),
    {
        match self.accounts.get(account_id) {
            Some(balance) => Ok(*balance),
            None => Err(TokenError::NotRegistered),
        }
    }

    /// Gives `account_id` an entry at zero balance. Refused, with nothing
    /// changed, where the account has an entry already.
    pub fn internal_register_account(&mut self, account_id: &str) -> (r: Result<(), TokenError>)
        requires
            old(self).wf(),
        ensures
            final(self).wf(),
            final(self).same_roles(old(self)),
            Self::answer(r, final(self).ledger()) == old(self).ledger().register(account_id@),
            r is Err ==> final(self).ledger() == old(self).ledger(),
    {
        if self.accounts.contains_key(account_id) {
            return Err(TokenError::AlreadyRegistered);
        }
        proof {
            self.ledger().lemma_register_conserves(account_id@);
        }
        self.accounts.insert(account_id.to_owned(), 0);
        Ok(())
    }

    /// Deletes the entry of `account_id` and takes its balance out of the
    /// supply. Returns the balance that was destroyed. Refused, with nothing
    /// changed, where the account has no entry.
    pub fn internal_unregister_account(&mut self, account_id: &str) -> (r: Result<
        Balance,
        TokenError,
    >)
        requires
            old(self).wf(),
        ensures
            final(self).wf(),
            final(self).same_roles(old(self)),
            Self::answer(r, final(self).ledger()) == old(self).ledger().unregister(account_id@),
            r is Ok ==> r->Ok_0 == old(self).ledger().balances[account_id@],
            r is Err ==> final(self).ledger() == old(self).ledger(),
    {
        let balance: Balance = match self.accounts.get(account_id) {
            Some(balance) => *balance,
            None => {
                return Err(TokenError::NotRegistered);
            },
        };
        proof {
            self.ledger().lemma_unregister_conserves(account_id@);
        }
        self.accounts.remove(account_id);
        self.total_supply = self.total_supply - balance;
        Ok(balance)
    }

    /// Adds `amount` to the balance of `account_id` and to the total
    /// supply. Refused, with nothing changed, where the account is not
    /// registered or a sum would overflow.
    pub fn internal_deposit(&mut self, account_id: &str, amount: Balance) -> (r: Result<
        (),
        TokenError,
    >)
        requires
            old(self).wf(),
        ensures
            final(self).wf(),
            final(self).same_roles(old(self)),
            Self::answer(r, final(self).ledger()) == old(self).ledger().deposit(
                account_id@,
                amount,
            ),
            r is Err ==> final(self).ledger() == old(self).ledger(),
    {
        let balance: Balance = match self.accounts.get(account_id) {
            Some(balance) => *balance,
            None => {
                return Err(TokenError::NotRegistered);
            },
        };
        let new_balance: Balance = match balance.checked_add(amount) {
            Some(new_balance) => new_balance,
            None => {
                return Err(TokenError::BalanceOverflow);
            },
        };
        let new_supply: Balance = match self.total_supply.checked_add(amount) {
            Some(new_supply) => new_supply,
            None => {
                return Err(TokenError::TotalSupplyOverflow);
            },
        };
        proof {
            self.ledger().lemma_deposit_conserves(account_id@, amount);
        }
        self.accounts.insert(account_id.to_owned(), new_balance);
        self.total_supply = new_supply;
        Ok(())
    }

    /// Takes `amount` from the balance of `account_id` and from the total
    /// supply. Refused, with nothing changed, where the account is not
    /// registered or holds less than `amount`.
    pub fn internal_withdraw(&mut self, account_id: &str, amount: Balance) -> (r: Result<
        (),
        TokenError,
    >)
        requires
            old(self).wf(),
        ensures
            final(self).wf(),
            final(self).same_roles(old(self)),
            Self::answer(r, final(self).ledger()) == old(self).ledger().withdraw(
                account_id@,
                amount,
            ),
            r is Err ==> final(self).ledger() == old(self).ledger(),
    {
        let balance: Balance = match self.accounts.get(account_id) {
            Some(balance) => *balance,
            None => {
                return Err(TokenError::NotRegistered);
            },
        };
        if balance < amount {
            return Err(TokenError::InsufficientBalance);
        }
        proof {
            self.ledger().lemma_withdraw_conserves(account_id@, amount);
        }
        self.accounts.insert(account_id.to_owned(), balance - amount);
        self.total_supply = self.total_supply - amount;
        Ok(())
    }

    /// Mints `amount` new tokens into `account_id`.
    pub fn mint_into(&mut self, account_id: &str, amount: Balance) -> (r: Result<(), TokenError>)
        requires
            old(self).wf(),
        ensures
            final(self).wf(),
            final(self).same_roles(old(self)),
            Self::answer(r, final(self).ledger()) == old(self).ledger().deposit(
                account_id@,
                amount,
            ),
            r is Err ==> final(self).ledger() == old(self).ledger(),
    {
        self.internal_deposit(account_id, amount)
    }

    /// Burns `amount` tokens of `account_id`.
    pub fn internal_burn(&mut self, account_id: &str, amount: Balance) -> (r: Result<
        (),
        TokenError,
    >)
        requires
            old(self).wf(),
        ensures
            final(self).wf(),
            final(self).same_roles(old(self)),
            Self::answer(r, final(self).ledger()) == old(self).ledger().withdraw(
                account_id@,
                amount,
            ),
            r is Err ==> final(self).ledger() == old(self).ledger(),
    {
        self.internal_withdraw(account_id, amount)
    }

    /// Moves `amount` from `sender_id` to `receiver_id`. Refused where
    /// sender and receiver are the same, the amount is zero, either account
    /// is not registered or the sender holds too little. A transfer that is
    /// refused changes nothing; one that goes through changes the two
    /// balances and nothing else.
    pub fn internal_transfer(
        &mut self,
        sender_id: &str,
        receiver_id: &str,
        amount: Balance,
        memo: Option<String>,
    ) -> (r: Result<FtTransfer, TokenError>)
        requires
            old(self).wf(),
        ensures
            final(self).wf(),
            final(self).same_roles(old(self)),
            Self::answer(r, final(self).ledger()) == old(self).ledger().transfer(
                sender_id@,
                receiver_id@,
                amount,
            ),
            r is Err ==> final(self).ledger() == old(self).ledger(),
            r is Ok ==> r->Ok_0.says(sender_id@, receiver_id@, amount, opt_text(memo)),
            r is Ok ==> {
                &&& final(self).ledger().balance_of(sender_id@) == old(self).ledger().balance_of(
                    sender_id@,
                ) - amount
                &&& final(self).ledger().balance_of(receiver_id@) == old(self).ledger().balance_of(
                    receiver_id@,
                ) + amount
                &&& forall|other: Seq<char>|
                    other != sender_id@ && other != receiver_id@
                        ==> #[trigger] final(self).ledger().balance_of(other) == old(
                        self,
                    ).ledger().balance_of(other)
                &&& final(self).ledger().total_supply == old(self).ledger().total_supply
            },
    {
        if same_text(sender_id, receiver_id) {
            return Err(TokenError::SelfTransfer);
        }
        if amount == 0 {
            return Err(TokenError::ZeroAmount);
        }
        let sender_balance: Balance = match self.accounts.get(sender_id) {
            Some(balance) => *balance,
            None => {
                return Err(TokenError::NotRegistered);
            },
        };
        if sender_balance < amount {
            return Err(TokenError::InsufficientBalance);
        }
        let receiver_balance: Balance = match self.accounts.get(receiver_id) {
            Some(balance) => *balance,
            None => {
                proof {
                    self.ledger().lemma_withdraw_conserves(sender_id@, amount);
                }
                return Err(TokenError::NotRegistered);
            },
        };
        proof {
            self.ledger().lemma_transfer(sender_id@, receiver_id@, amount);
        }
        self.accounts.insert(sender_id.to_owned(), sender_balance - amount);
        self.accounts.insert(receiver_id.to_owned(), receiver_balance + amount);
        Ok(
            FtTransfer {
                old_owner_id: sender_id.to_owned(),
                new_owner_id: receiver_id.to_owned(),
                amount,
                memo,
            },
        )
    }

    /// Settles a notified transfer of `amount` from `sender_id` to
    /// `receiver_id`, given the receiver's reply. The receiver gives back
    /// what it reports as unused, as far as it still holds it. The refund
    /// goes to the sender; where the sender is gone, it is burned, and the
    /// whole amount counts as used. Where sender and receiver are the same
    /// account, its balance stays as it is. Settling never fails.
    pub fn settle(&mut self, sender_id: &str, receiver_id: &str, amount: Balance, reply: Option<u128>) -> (r: Resolution)
        requires
            old(self).wf(),
        ensures
            final(self).wf(),
            final(self).same_roles(old(self)),
            final(self).ledger() == old(self).ledger().settle(
                sender_id@,
                receiver_id@,
                unused_of(amount, reply),
            ),
            r.used_amount == old(self).ledger().used_amount(
                sender_id@,
                receiver_id@,
                amount,
                unused_of(amount, reply),
            ),
            r.burned_amount == old(self).ledger().burned_amount(
                sender_id@,
                receiver_id@,
                unused_of(amount, reply),
            ),
            Self::refund_said(
                r,
                old(self).ledger(),
                sender_id@,
                receiver_id@,
                unused_of(amount, reply),
            ),
    {
        let unused: Balance = unused_amount(amount, reply);
        let receiver_balance: Balance = self.ft_balance_of(receiver_id);
        let refund_amount: Balance = if receiver_balance <= unused {
            receiver_balance
        } else {
            unused
        };
        let sender_balance: Option<Balance> = match self.accounts.get(sender_id) {
            Some(balance) => Some(*balance),
            None => None,
        };
        proof {
            self.ledger().lemma_settle_conserves(sender_id@, receiver_id@, unused);
        }
        if refund_amount == 0 {
            return Resolution {
                used_amount: amount,
                burned_amount: 0,
                refund: None,
                burn: None,
            };
        }
        self.accounts.insert(receiver_id.to_owned(), receiver_balance - refund_amount);
        match sender_balance {
            Some(sender_balance) => {
                let credited: Balance = if same_text(sender_id, receiver_id) {
                    receiver_balance
                } else {
                    sender_balance + refund_amount
                };
                self.accounts.insert(sender_id.to_owned(), credited);
                assert(self.ledger() =~= old(self).ledger().settle(
                    sender_id@,
                    receiver_id@,
                    unused,
                ));
                Resolution {
                    used_amount: amount - refund_amount,
                    burned_amount: 0,
                    refund: Some(
                        FtTransfer {
                            old_owner_id: receiver_id.to_owned(),
                            new_owner_id: sender_id.to_owned(),
                            amount: refund_amount,
                            memo: Some("refund".to_owned()),
                        },
                    ),
                    burn: None,
                }
            },
            None => {
                self.total_supply = self.total_supply - refund_amount;
                Resolution {
                    used_amount: amount,
                    burned_amount: refund_amount,
                    refund: None,
                    burn: Some(
                        FtBurn {
                            owner_id: receiver_id.to_owned(),
                            amount: refund_amount,
                            memo: Some("refund".to_owned()),
                        },
                    ),
                }
            },
        }
    }

    /// Which records a settlement hands back: a transfer from receiver to
    /// sender for a refund, a burn at the receiver where the sender is gone,
    /// none where nothing is given back.
    pub open spec fn refund_said(
        r: Resolution,
        before: Ledger,
        sender: Seq<char>,
        receiver: Seq<char>,
        unused: Balance,
    ) -> bool {
        let refund = before.refund_of(receiver, unused);
        if refund == 0 {
            r.refund is None && r.burn is None
        } else if before.is_registered(sender) {
            &&& r.burn is None
            &&& r.refund is Some
            &&& r.refund->0.says(receiver, sender, refund, Some("refund"@))
        } else {
            &&& r.refund is None
            &&& r.burn is Some
            &&& r.burn->0.says(receiver, refund, Some("refund"@))
        }
    }

    /// Settles a notified transfer from the outcome of the notification: a
    /// reply that reads as a number is the unused amount, a failed call or
    /// any other reply gives everything back.
    pub fn internal_ft_resolve_transfer(
        &mut self,
        sender_id: &str,
        receiver_id: &str,
        amount: Balance,
        result: &PromiseResult,
    ) -> (r: Resolution)
        requires
            old(self).wf(),
        ensures
            final(self).wf(),
            final(self).same_roles(old(self)),
            final(self).ledger() == old(self).ledger().settle(
                sender_id@,
                receiver_id@,
                unused_of(amount, spec_reply(result)),
            ),
            r.used_amount == old(self).ledger().used_amount(
                sender_id@,
                receiver_id@,
                amount,
                unused_of(amount, spec_reply(result)),
            ),
            r.burned_amount == old(self).ledger().burned_amount(
                sender_id@,
                receiver_id@,
                unused_of(amount, spec_reply(result)),
            ),
            Self::refund_said(
                r,
                old(self).ledger(),
                sender_id@,
                receiver_id@,
                unused_of(amount, spec_reply(result)),
            ),
    {
        let reply: Option<u128> = reply_of(result);
        self.settle(sender_id, receiver_id, amount, reply)
    }
}

/// The place of the first `name` in `list`, if it is there.
pub fn position(list: &Vec<String>, name: &str) -> (r: Option<usize>)
    ensures
        match r {
            Some(i) => first_at(names(list@), name@, i as int),
            None => !names(list@).contains(name@),
        },
{
    let mut i: usize = 0;
    while i < list.len()
        invariant
            i <= list.len(),
            forall|j: int| 0 <= j < i ==> (#[trigger] names(list@)[j]) != name@,
        decreases list.len() - i,
    {
        if same_text(list[i].as_str(), name) {
            return Some(i);
        }
        i += 1;
    }
    None
}

/// Whether `i` is the first place of `name` in `list`.
pub open spec fn first_at(list: Seq<Seq<char>>, name: Seq<char>, i: int) -> bool {
    &&& 0 <= i < list.len()
    &&& list[i] == name
    &&& forall|j: int| 0 <= j < i ==> (#[trigger] list[j]) != name
}

/// `list` without its entry at `i`, the last entry moved into the gap.
pub open spec fn swap_removed(list: Seq<Seq<char>>, i: int) -> Seq<Seq<char>> {
    list.update(i, list.last()).drop_last()
}

impl SpotToken {
    /// What a call that has to carry exactly one yoctoNEAR and, for some
    /// calls, has to come from a given account, is refused for; `None`
    /// where it is let in.
    pub open spec fn gate(attached_deposit: u128, allowed: bool, otherwise: TokenError) -> Option<
        TokenError,
    > {
        if attached_deposit != 1 {
            Some(TokenError::RequiresOneYocto)
        } else if !allowed {
            Some(otherwise)
        } else {
            None
        }
    }

    /// Whether `account_id` owns the token.
    pub fn assert_owner(&self, account_id: &str) -> (r: Result<(), TokenError>)
        ensures
            account_id@ == self.owner() ==> r is Ok,
            account_id@ != self.owner() ==> r == Err::<(), TokenError>(TokenError::NotOwner),
    {
        if same_text(account_id, self.owner_id.as_str()) {
            Ok(())
        } else {
            Err(TokenError::NotOwner)
        }
    }

    /// Whether `account_id` may mint.
    pub fn assert_minter(&self, account_id: &str) -> (r: Result<(), TokenError>)
        ensures
            self.minter_names().contains(account_id@) ==> r is Ok,
            !self.minter_names().contains(account_id@) ==> r == Err::<(), TokenError>(
                TokenError::NotAMinter,
            ),
    {
        match position(&self.minters, account_id) {
            Some(_) => Ok(()),
            None => Err(TokenError::NotAMinter),
        }
    }

    /// The accounts that may mint.
    pub fn get_minters(&self) -> (r: Vec<String>)
        ensures
            names(r@) == self.minter_names(),
    {
        let mut r: Vec<String> = Vec::new();
        let mut i: usize = 0;
        while i < self.minters.len()
            invariant
                i <= self.minters.len(),
                r.len() == i,
                forall|j: int| 0 <= j < i ==> (#[trigger] r@[j])@ == self.minters@[j]@,
            decreases self.minters.len() - i,
        {
            r.push(self.minters[i].clone());
            i += 1;
        }
        r
    }

    /// Burns `amount` tokens of `account_id`. Only the owner may burn, and
    /// the call has to carry one yoctoNEAR.
    pub fn burn(
        &mut self,
        predecessor_id: &str,
        attached_deposit: u128,
        account_id: &str,
        amount: Balance,
        memo: Option<String>,
    ) -> (r: Result<FtBurn, TokenError>)
        requires
            old(self).wf(),
        ensures
            final(self).wf(),
            final(self).same_roles(old(self)),
            Self::answer(r, final(self).ledger()) == (match Self::gate(
                attached_deposit,
                predecessor_id@ == old(self).owner(),
                TokenError::NotOwner,
            ) {
                Some(e) => Err(e),
                None => old(self).ledger().withdraw(account_id@, amount),
            }),
            r is Err ==> final(self).ledger() == old(self).ledger(),
            r is Ok ==> r->Ok_0.says(account_id@, amount, opt_text(memo)),
    {
        if attached_deposit != 1 {
            return Err(TokenError::RequiresOneYocto);
        }
        if let Err(e) = self.assert_owner(predecessor_id) {
            return Err(e);
        }
        if let Err(e) = self.internal_burn(account_id, amount) {
            return Err(e);
        }
        Ok(FtBurn { owner_id: account_id.to_owned(), amount, memo })
    }

    /// Mints `amount` new tokens into `account_id`. Only a minter may mint,
    /// and the call has to carry one yoctoNEAR.
    pub fn mint(
        &mut self,
        predecessor_id: &str,
        attached_deposit: u128,
        account_id: &str,
        amount: Balance,
        memo: Option<String>,
    ) -> (r: Result<FtMint, TokenError>)
        requires
            old(self).wf(),
        ensures
            final(self).wf(),
            final(self).same_roles(old(self)),
            Self::answer(r, final(self).ledger()) == (match Self::gate(
                attached_deposit,
                old(self).minter_names().contains(predecessor_id@),
                TokenError::NotAMinter,
            ) {
                Some(e) => Err(e),
                None => old(self).ledger().deposit(account_id@, amount),
            }),
            r is Err ==> final(self).ledger() == old(self).ledger(),
            r is Ok ==> r->Ok_0.says(account_id@, amount, opt_text(memo)),
    {
        if attached_deposit != 1 {
            return Err(TokenError::RequiresOneYocto);
        }
        if let Err(e) = self.assert_minter(predecessor_id) {
            return Err(e);
        }
        if let Err(e) = self.mint_into(account_id, amount) {
            return Err(e);
        }
        Ok(FtMint { owner_id: account_id.to_owned(), amount, memo })
    }

    /// Lets `account_id` mint. Only the owner may do so, the call has to
    /// carry one yoctoNEAR, and the account must not be a minter yet.
    pub fn add_minter(&mut self, predecessor_id: &str, attached_deposit: u128, account_id: &str) -> (r:
        Result<(), TokenError>)
        ensures
            final(self).ledger() == old(self).ledger(),
            final(self).owner() == old(self).owner(),
            final(self).account_bytes() == old(self).account_bytes(),
            final(self).stored_metadata() == old(self).stored_metadata(),
            match Self::gate(
                attached_deposit,
                predecessor_id@ == old(self).owner(),
                TokenError::NotOwner,
            ) {
                Some(e) => r == Err::<(), TokenError>(e),
                None => if old(self).minter_names().contains(account_id@) {
                    r == Err::<(), TokenError>(TokenError::AlreadyMinter)
                } else {
                    r is Ok
                },
            },
            r is Ok ==> final(self).minter_names() == old(self).minter_names().push(account_id@),
            r is Err ==> final(self).minter_names() == old(self).minter_names(),
    {
        if attached_deposit != 1 {
            return Err(TokenError::RequiresOneYocto);
        }
        if let Err(e) = self.assert_owner(predecessor_id) {
            return Err(e);
        }
        if let Some(_) = position(&self.minters, account_id) {
            return Err(TokenError::AlreadyMinter);
        }
        self.minters.push(account_id.to_owned());
        Ok(())
    }

    /// Takes the right to mint from `account_id`: its first entry leaves
    /// the list and the last entry takes its place. Returns where the entry
    /// was. Only the owner may do so, and the call has to carry one
    /// yoctoNEAR.
    pub fn remove_minter(&mut self, predecessor_id: &str, attached_deposit: u128, account_id: &str) -> (r:
        Result<usize, TokenError>)
        ensures
            final(self).ledger() == old(self).ledger(),
            final(self).owner() == old(self).owner(),
            final(self).account_bytes() == old(self).account_bytes(),
            final(self).stored_metadata() == old(self).stored_metadata(),
            match Self::gate(
                attached_deposit,
                predecessor_id@ == old(self).owner(),
                TokenError::NotOwner,
            ) {
                Some(e) => r == Err::<usize, TokenError>(e),
                None => if old(self).minter_names().contains(account_id@) {
                    r is Ok
                } else {
                    r == Err::<usize, TokenError>(TokenError::NotAMinter)
                },
            },
            r is Ok ==> first_at(old(self).minter_names(), account_id@, r->Ok_0 as int)
                && final(self).minter_names() == swap_removed(
                old(self).minter_names(),
                r->Ok_0 as int,
            ),
            r is Err ==> final(self).minter_names() == old(self).minter_names(),
    {
        if attached_deposit != 1 {
            return Err(TokenError::RequiresOneYocto);
        }
        if let Err(e) = self.assert_owner(predecessor_id) {
            return Err(e);
        }
        match position(&self.minters, account_id) {
            Some(inx) => {
                let _removed = self.minters.swap_remove(inx);
                Ok(inx)
            },
            None => Err(TokenError::NotAMinter),
        }
    }

    /// The metadata of the token: those it keeps, or the default ones where
    /// it keeps none.
    pub fn internal_get_ft_metadata(&self) -> (r: FungibleTokenMetadata)
        ensures
            r@ == (match self.stored_metadata() {
                Some(m) => m,
                None => MetadataView::spot(crate::metadata::DEFAULT_ICON@),
            }),
    {
        match &self.metadata {
            Some(m) => m.clone(),
            None => default_ft_metadata(),
        }
    }

    /// The metadata that the token keeps.
    pub fn ft_metadata(&self) -> (r: Option<FungibleTokenMetadata>)
        ensures
            crate::metadata::view_of(r) == self.stored_metadata(),
    {
        match &self.metadata {
            Some(m) => Some(m.clone()),
            None => None,
        }
    }

    /// Sets icon and reference of the metadata, each only where one is
    /// given. Only the owner may do so, and the call has to carry one
    /// yoctoNEAR.
    pub fn set_metadata(
        &mut self,
        predecessor_id: &str,
        attached_deposit: u128,
        svg_string: Option<String>,
        reference: Option<String>,
    ) -> (r: Result<(), TokenError>)
        ensures
            final(self).ledger() == old(self).ledger(),
            final(self).owner() == old(self).owner(),
            final(self).account_bytes() == old(self).account_bytes(),
            final(self).minter_names() == old(self).minter_names(),
            match Self::gate(
                attached_deposit,
                predecessor_id@ == old(self).owner(),
                TokenError::NotOwner,
            ) {
                Some(e) => r == Err::<(), TokenError>(e) && final(self).stored_metadata() == old(
                    self,
                ).stored_metadata(),
                None => r is Ok && final(self).stored_metadata() == Some(
                    (match old(self).stored_metadata() {
                        Some(m) => m,
                        None => MetadataView::spot(crate::metadata::DEFAULT_ICON@),
                    }).updated(opt_text(svg_string), opt_text(reference)),
                ),
            },
    {
        if attached_deposit != 1 {
            return Err(TokenError::RequiresOneYocto);
        }
        if let Err(e) = self.assert_owner(predecessor_id) {
            return Err(e);
        }
        let mut m = self.internal_get_ft_metadata();
        if let Some(s) = svg_string {
            m.icon = Some(s);
        }
        if let Some(r) = reference {
            m.reference = Some(r);
        }
        self.metadata = Some(m);
        Ok(())
    }

    /// What a transfer is refused for before the ledger is asked, or the
    /// ledger's answer.
    pub open spec fn spec_ft_transfer(
        ledger: Ledger,
        sender: Seq<char>,
        receiver: Seq<char>,
        amount: Balance,
        attached_deposit: u128,
    ) -> Result<Ledger, TokenError> {
        if attached_deposit != 1 {
            Err(TokenError::RequiresOneYocto)
        } else {
            ledger.transfer(sender, receiver, amount)
        }
    }

    /// What a notified transfer is refused for before the ledger is asked,
    /// or the ledger's answer.
    pub open spec fn spec_ft_transfer_call(
        ledger: Ledger,
        sender: Seq<char>,
        receiver: Seq<char>,
        amount: Balance,
        attached_deposit: u128,
        prepaid_gas: Gas,
    ) -> Result<Ledger, TokenError> {
        if attached_deposit != 1 {
            Err(TokenError::RequiresOneYocto)
        } else if prepaid_gas <= GAS_FOR_FT_TRANSFER_CALL {
            Err(TokenError::MoreGasRequired)
        } else {
            ledger.transfer(sender, receiver, amount)
        }
    }

    /// Transfers `amount` from the caller `sender_id` to `receiver_id`. The
    /// call has to carry one yoctoNEAR.
    pub fn ft_transfer(
        &mut self,
        sender_id: &str,
        attached_deposit: u128,
        receiver_id: &str,
        amount: Balance,
        memo: Option<String>,
    ) -> (r: Result<FtTransfer, TokenError>)
        requires
            old(self).wf(),
        ensures
            final(self).wf(),
            final(self).same_roles(old(self)),
            Self::answer(r, final(self).ledger()) == Self::spec_ft_transfer(
                old(self).ledger(),
                sender_id@,
                receiver_id@,
                amount,
                attached_deposit,
            ),
            r is Err ==> final(self).ledger() == old(self).ledger(),
            r is Ok ==> r->Ok_0.says(sender_id@, receiver_id@, amount, opt_text(memo)),
    {
        if attached_deposit != 1 {
            return Err(TokenError::RequiresOneYocto);
        }
        self.internal_transfer(sender_id, receiver_id, amount, memo)
    }

    /// Starts a transfer that notifies its receiver. The tokens go over at
    /// once. What comes back says whom to notify, with how much gas, and
    /// how much gas the settlement gets; the transfer is final only when it
    /// has been settled. Refused, before anything changes, where the call
    /// does not carry one yoctoNEAR or carries no more gas than the
    /// settlement needs, and where the transfer itself is refused.
    pub fn ft_transfer_call(
        &mut self,
        sender_id: &str,
        attached_deposit: u128,
        prepaid_gas: Gas,
        receiver_id: &str,
        amount: Balance,
        memo: Option<String>,
        msg: String,
    ) -> (r: Result<PendingTransfer, TokenError>)
        requires
            old(self).wf(),
        ensures
            final(self).wf(),
            final(self).same_roles(old(self)),
            Self::answer(r, final(self).ledger()) == Self::spec_ft_transfer_call(
                old(self).ledger(),
                sender_id@,
                receiver_id@,
                amount,
                attached_deposit,
                prepaid_gas,
            ),
            r is Err ==> final(self).ledger() == old(self).ledger(),
            r is Ok ==> {
                let pending = r->Ok_0;
                &&& pending.sender_id@ == sender_id@
                &&& pending.receiver_id@ == receiver_id@
                &&& pending.amount == amount
                &&& pending.msg@ == msg@
                &&& pending.receiver_gas == prepaid_gas - GAS_FOR_FT_TRANSFER_CALL
                &&& pending.resolve_gas == GAS_FOR_RESOLVE_TRANSFER
                &&& pending.event.says(sender_id@, receiver_id@, amount, opt_text(memo))
            },
    {
        if attached_deposit != 1 {
            return Err(TokenError::RequiresOneYocto);
        }
        if prepaid_gas <= GAS_FOR_FT_TRANSFER_CALL {
            return Err(TokenError::MoreGasRequired);
        }
        let event = match self.internal_transfer(sender_id, receiver_id, amount, memo) {
            Ok(event) => event,
            Err(e) => {
                return Err(e);
            },
        };
        Ok(
            PendingTransfer {
                sender_id: sender_id.to_owned(),
                receiver_id: receiver_id.to_owned(),
                amount,
                msg,
                receiver_gas: prepaid_gas - GAS_FOR_FT_TRANSFER_CALL,
                resolve_gas: GAS_FOR_RESOLVE_TRANSFER,
                event,
            },
        )
    }

    /// Settles a notified transfer and returns what the receiver used. Only
    /// the token itself may call this: `predecessor_id` has to be
    /// `current_id`. Once let in, settling never fails.
    pub fn ft_resolve_transfer(
        &mut self,
        predecessor_id: &str,
        current_id: &str,
        sender_id: &str,
        receiver_id: &str,
        amount: Balance,
        result: &PromiseResult,
    ) -> (r: Result<Resolution, TokenError>)
        requires
            old(self).wf(),
        ensures
            final(self).wf(),
            final(self).same_roles(old(self)),
            predecessor_id@ != current_id@ ==> r is Err && r->Err_0 == TokenError::NotSelf
                && final(self).ledger() == old(self).ledger(),
            predecessor_id@ == current_id@ ==> {
                &&& r is Ok
                &&& final(self).ledger() == old(self).ledger().settle(
                    sender_id@,
                    receiver_id@,
                    unused_of(amount, spec_reply(result)),
                )
                &&& r->Ok_0.used_amount == old(self).ledger().used_amount(
                    sender_id@,
                    receiver_id@,
                    amount,
                    unused_of(amount, spec_reply(result)),
                )
                &&& r->Ok_0.burned_amount == old(self).ledger().burned_amount(
                    sender_id@,
                    receiver_id@,
                    unused_of(amount, spec_reply(result)),
                )
                &&& Self::refund_said(
                    r->Ok_0,
                    old(self).ledger(),
                    sender_id@,
                    receiver_id@,
                    unused_of(amount, spec_reply(result)),
                )
            },
    {
        if !same_text(predecessor_id, current_id) {
            return Err(TokenError::NotSelf);
        }
        Ok(self.internal_ft_resolve_transfer(sender_id, receiver_id, amount, result))
    }
}

impl SpotToken {
    /// The rent of an account: the price of the bytes that one account
    /// occupies.
    pub open spec fn account_rent(&self) -> int {
        rent_needed(self.account_bytes())
    }

    /// The least and the greatest rent of an account: both are the price of
    /// the bytes that one account occupies.
    pub fn storage_balance_bounds(&self) -> (r: StorageBalanceBounds)
        ensures
            r.min@ == self.account_rent(),
            r.max == Some(r.min),
    {
        let required_storage_balance: YoctoNear = storage_cost(self.account_storage_usage);
        StorageBalanceBounds { min: required_storage_balance, max: Some(required_storage_balance) }
    }

    /// The storage balance of an account, if it is registered: the rent of
    /// an account, none of it available.
    pub fn internal_storage_balance_of(&self, account_id: &str) -> (r: Option<StorageBalance>)
        ensures
            !self.ledger().is_registered(account_id@) ==> r is None,
            self.ledger().is_registered(account_id@) ==> r is Some && r->0.total@
                == self.account_rent() && r->0.available@ == 0,
    {
        if self.accounts.contains_key(account_id) {
            Some(
                StorageBalance {
                    total: self.storage_balance_bounds().min,
                    available: YoctoNear(0),
                },
            )
        } else {
            None
        }
    }

    /// The storage balance of an account, if it is registered.
    pub fn storage_balance_of(&self, account_id: &str) -> (r: Option<StorageBalance>)
        ensures
            !self.ledger().is_registered(account_id@) ==> r is None,
            self.ledger().is_registered(account_id@) ==> r is Some && r->0.total@
                == self.account_rent() && r->0.available@ == 0,
    {
        self.internal_storage_balance_of(account_id)
    }

    /// The account that a deposit for storage is for: the one given, or
    /// the caller.
    pub open spec fn payee(predecessor_id: Seq<char>, account_id: Option<&str>) -> Seq<char> {
        match account_id {
            Some(account_id) => account_id@,
            None => predecessor_id,
        }
    }

    /// Takes a deposit for the storage of `account_id`, or of the caller
    /// where no account is given. An account that is registered gets the
    /// whole deposit back. One that is not is registered at zero balance
    /// for the rent of an account, and gets the rest back. Returns the
    /// storage balance of the account and what goes back to the caller.
    /// Refused, with nothing changed, where the account is not registered
    /// and the deposit is less than the rent of an account.
    pub fn storage_deposit(
        &mut self,
        predecessor_id: &str,
        amount: YoctoNear,
        account_id: Option<&str>,
        registration_only: Option<bool>,
    ) -> (r: Result<(StorageBalance, YoctoNear), TokenError>)
        requires
            old(self).wf(),
        ensures
            final(self).wf(),
            final(self).same_roles(old(self)),
            old(self).ledger().is_registered(Self::payee(predecessor_id@, account_id)) ==> {
                &&& r is Ok
                &&& r->Ok_0.1 == amount
                &&& final(self).ledger() == old(self).ledger()
            },
            !old(self).ledger().is_registered(Self::payee(predecessor_id@, account_id))
                && amount@ < old(self).account_rent() ==> {
                &&& r is Err
                &&& r->Err_0 == TokenError::InsufficientDeposit
                &&& final(self).ledger() == old(self).ledger()
            },
            !old(self).ledger().is_registered(Self::payee(predecessor_id@, account_id))
                && amount@ >= old(self).account_rent() ==> {
                &&& r is Ok
                &&& r->Ok_0.1@ == amount@ - old(self).account_rent()
                &&& Ok::<Ledger, TokenError>(final(self).ledger()) == old(self).ledger().register(
                    Self::payee(predecessor_id@, account_id),
                )
            },
            r is Ok ==> r->Ok_0.0.total@ == old(self).account_rent() && r->Ok_0.0.available@ == 0,
    {
        let account_id: &str = match account_id {
            Some(account_id) => account_id,
            None => predecessor_id,
        };
        let min_balance: YoctoNear = self.storage_balance_bounds().min;
        let balance = StorageBalance { total: min_balance, available: YoctoNear(0) };
        if self.accounts.contains_key(account_id) {
            return Ok((balance, amount));
        }
        if amount.as_yoctonear() < min_balance.as_yoctonear() {
            return Err(TokenError::InsufficientDeposit);
        }
        if let Err(e) = self.internal_register_account(account_id) {
            return Err(e);
        }
        Ok((balance, amount.saturating_sub(min_balance)))
    }

    /// Answers a request of the caller to withdraw rent. The call has to
    /// carry one yoctoNEAR and the caller has to be registered. No rent is
    /// ever available: a request for more than nothing is refused, any other
    /// is answered with the caller's storage balance.
    pub fn storage_withdraw(&self, predecessor_id: &str, attached_deposit: u128, amount: Option<YoctoNear>) -> (r:
        Result<StorageBalance, TokenError>)
        ensures
            attached_deposit != 1 ==> r is Err && r->Err_0 == TokenError::RequiresOneYocto,
            attached_deposit == 1 && !self.ledger().is_registered(predecessor_id@) ==> r is Err
                && r->Err_0 == TokenError::NotRegistered,
            attached_deposit == 1 && self.ledger().is_registered(predecessor_id@) && amount is Some
                && amount->0@ > 0 ==> r is Err && r->Err_0 == TokenError::AmountExceedsAvailable,
            attached_deposit == 1 && self.ledger().is_registered(predecessor_id@) && !(amount
                is Some && amount->0@ > 0) ==> r is Ok && r->Ok_0.total@ == self.account_rent()
                && r->Ok_0.available@ == 0,
    {
        if attached_deposit != 1 {
            return Err(TokenError::RequiresOneYocto);
        }
        match self.internal_storage_balance_of(predecessor_id) {
            Some(storage_balance) => match amount {
                Some(amount) => if amount.as_yoctonear() > 0 {
                    Err(TokenError::AmountExceedsAvailable)
                } else {
                    Ok(storage_balance)
                },
                None => Ok(storage_balance),
            },
            None => Err(TokenError::NotRegistered),
        }
    }

    /// What unregistering the caller gives: the ledger afterwards and, where
    /// the caller was registered, the tokens that were destroyed with the
    /// account.
    pub open spec fn spec_storage_unregister(
        ledger: Ledger,
        caller: Seq<char>,
        attached_deposit: u128,
        force: Option<bool>,
    ) -> Result<(Ledger, Option<Balance>), TokenError> {
        if attached_deposit != 1 {
            Err(TokenError::RequiresOneYocto)
        } else if !ledger.is_registered(caller) {
            Ok((ledger, None))
        } else if ledger.balances[caller] != 0 && force != Some(true) {
            Err(TokenError::PositiveBalance)
        } else {
            match ledger.unregister(caller) {
                Ok(next) => Ok((next, Some(ledger.balances[caller]))),
                Err(e) => Err(e),
            }
        }
    }

    /// Unregisters the caller. The call has to carry one yoctoNEAR. An
    /// account without tokens leaves at once; one with tokens leaves only
    /// when forced, and its tokens are destroyed. Returns the tokens that
    /// were destroyed and what is paid out to the caller, the rent of an
    /// account and one yoctoNEAR; `None` where the caller was not registered.
    pub fn storage_unregister(&mut self, predecessor_id: &str, attached_deposit: u128, force: Option<bool>) -> (r:
        Result<Option<Unregistered>, TokenError>)
        requires
            old(self).wf(),
        ensures
            final(self).wf(),
            final(self).same_roles(old(self)),
            match Self::spec_storage_unregister(
                old(self).ledger(),
                predecessor_id@,
                attached_deposit,
                force,
            ) {
                Ok((next, burned)) => {
                    &&& r is Ok
                    &&& final(self).ledger() == next
                    &&& burned is None ==> r->Ok_0 is None
                    &&& burned is Some ==> r->Ok_0 is Some && r->Ok_0->0.burned == burned->0
                        && r->Ok_0->0.payout@ == crate::yocto_near::spec_saturating_add(
                        old(self).account_rent() as u128,
                        1,
                    )
                },
                Err(e) => r is Err && r->Err_0 == e && final(self).ledger() == old(
                    self,
                ).ledger(),
            },
    {
        if attached_deposit != 1 {
            return Err(TokenError::RequiresOneYocto);
        }
        let balance: Balance = match self.accounts.get(predecessor_id) {
            Some(balance) => *balance,
            None => {
                return Ok(None);
            },
        };
        let forced: bool = match force {
            Some(force) => force,
            None => false,
        };
        if balance != 0 && !forced {
            return Err(TokenError::PositiveBalance);
        }
        match self.internal_unregister_account(predecessor_id) {
            Ok(burned) => {
                let payout: YoctoNear = self.storage_balance_bounds().min.saturating_add(
                    YoctoNear(1),
                );
                Ok(Some(Unregistered { burned, payout }))
            },
            Err(e) => Err(e),
        }
    }
}

/// The prefixes under which the token keeps its collections.
#[derive(Debug, Clone, Copy, PartialEq, Eq, Structural)]
pub enum StorageKey {
    Accounts,
    Metadata,
}

impl StorageKey {
    /// The bytes of the prefix: the place of the key among the keys.
    pub fn into_storage_key(self) -> (r: Vec<u8>)
        ensures
            r@ == seq![
                match self {
                    StorageKey::Accounts => 0u8,
                    StorageKey::Metadata => 1u8,
                },
            ],
    {
        let mut r: Vec<u8> = Vec::new();
        r.push(
            match self {
                StorageKey::Accounts => 0,
                StorageKey::Metadata => 1,
            },
        );
        r
    }
}

} // verus!
