//! The value ledger as a mathematical object: balances by account, a total
//! supply, and the steps that move them. The executable token in
//! `crate::token` is specified by these steps.

use vstd::prelude::*;
use crate::balances::{
    balance_or_zero, lemma_total_delete, lemma_total_insert, lemma_two_balances_le_total, total,
    Balance, Balances,
};

verus! {

/// Why the token refuses an operation.
#[derive(Debug, Clone, Copy, PartialEq, Eq, Structural)]
pub enum TokenError {
    /// Sender and receiver of a transfer are the same account.
    SelfTransfer,
    /// A transfer of zero tokens.
    ZeroAmount,
    /// The account has no entry in the ledger.
    NotRegistered,
    /// The account holds less than is to be taken.
    InsufficientBalance,
    /// The account has an entry already.
    AlreadyRegistered,
    /// A balance would leave the range of `Balance`.
    BalanceOverflow,
    /// The total supply would leave the range of `Balance`.
    TotalSupplyOverflow,
    /// The call did not carry exactly one yoctoNEAR.
    RequiresOneYocto,
    /// The call carries too little gas to notify the receiver and settle.
    MoreGasRequired,
    /// The caller is not the owner of the token.
    NotOwner,
    /// The account is not a minter.
    NotAMinter,
    /// The account is a minter already.
    AlreadyMinter,
    /// The caller is not the token contract itself.
    NotSelf,
    /// The token's metadata is not well formed.
    InvalidMetadata,
    /// The deposit is less than the rent of an account.
    InsufficientDeposit,
    /// More rent was asked back than is available.
    AmountExceedsAvailable,
    /// The account still holds tokens and is not forced out.
    PositiveBalance,
}

impl TokenError {
    /// Whether the error shows a corrupted ledger rather than a mistake of
    /// the caller.
    pub open spec fn spec_is_fatal(self) -> bool {
        ||| self == TokenError::BalanceOverflow
        ||| self == TokenError::TotalSupplyOverflow
        ||| self == TokenError::AlreadyRegistered
    }

    /// Whether the error shows a corrupted ledger rather than a mistake of
    /// the caller.
    pub fn is_fatal(&self) -> (r: bool)
        ensures
            r == self.spec_is_fatal(),
    {
        match self {
            TokenError::BalanceOverflow => true,
            TokenError::TotalSupplyOverflow => true,
            TokenError::AlreadyRegistered => true,
            _ => false,
        }
    }

    /// The text that accompanies the error.
    pub fn message(&self) -> (r: &'static str)
        ensures
            r@ == (match *self {
                TokenError::SelfTransfer => "Sender and receiver should be different"@,
                TokenError::ZeroAmount => "The amount should be a positive number"@,
                TokenError::NotRegistered => "The account is not registered"@,
                TokenError::InsufficientBalance => "The account doesn't have enough balance"@,
                TokenError::AlreadyRegistered => "The account is already registered"@,
                TokenError::BalanceOverflow => "Balance overflow"@,
                TokenError::TotalSupplyOverflow => "Total supply overflow"@,
                TokenError::RequiresOneYocto => "Requires attached deposit of exactly 1 yoctoNEAR"@,
                TokenError::MoreGasRequired => "More gas is required"@,
                TokenError::NotOwner => "can only be called by the owner"@,
                TokenError::NotAMinter => "not a minter"@,
                TokenError::AlreadyMinter => "already in the list"@,
                TokenError::NotSelf => "Method is private"@,
                TokenError::InvalidMetadata => "Invalid token metadata"@,
                TokenError::InsufficientDeposit => "The attached deposit is less than the minimum storage balance"@,
                TokenError::AmountExceedsAvailable => "The amount is greater than the available storage balance"@,
                TokenError::PositiveBalance => "Can't unregister the account with the positive balance without force"@,
            }),
    {
        match self {
            TokenError::SelfTransfer => "Sender and receiver should be different",
            TokenError::ZeroAmount => "The amount should be a positive number",
            TokenError::NotRegistered => "The account is not registered",
            TokenError::InsufficientBalance => "The account doesn't have enough balance",
            TokenError::AlreadyRegistered => "The account is already registered",
            TokenError::BalanceOverflow => "Balance overflow",
            TokenError::TotalSupplyOverflow => "Total supply overflow",
            TokenError::RequiresOneYocto => "Requires attached deposit of exactly 1 yoctoNEAR",
            TokenError::MoreGasRequired => "More gas is required",
            TokenError::NotOwner => "can only be called by the owner",
            TokenError::NotAMinter => "not a minter",
            TokenError::AlreadyMinter => "already in the list",
            TokenError::NotSelf => "Method is private",
            TokenError::InvalidMetadata => "Invalid token metadata",
            TokenError::InsufficientDeposit => "The attached deposit is less than the minimum storage balance",
            TokenError::AmountExceedsAvailable => "The amount is greater than the available storage balance",
            TokenError::PositiveBalance => "Can't unregister the account with the positive balance without force",
        }
    }
}

/// The smaller of two balances.
pub open spec fn spec_min(a: Balance, b: Balance) -> Balance {
    if a <= b {
        a
    } else {
        b
    }
}

/// What the receiver of a notified transfer gives back: its reply, held at
/// the amount sent; all of it where there is no usable reply.
pub open spec fn unused_of(amount: Balance, reply: Option<Balance>) -> Balance {
    match reply {
        Some(unused) => spec_min(amount, unused),
        None => amount,
    }
}

/// The balances of all accounts and the total supply.
pub struct Ledger {
    pub balances: Balances,
    pub total_supply: Balance,
}

/// One operation on the ledger.
pub enum Op {
    Register { account: Seq<char> },
    Unregister { account: Seq<char> },
    Mint { account: Seq<char>, amount: Balance },
    Burn { account: Seq<char>, amount: Balance },
    Transfer { sender: Seq<char>, receiver: Seq<char>, amount: Balance },
    Settle { sender: Seq<char>, receiver: Seq<char>, amount: Balance, reply: Option<Balance> },
}

impl Ledger {
    /// The ledger without accounts and without supply.
    pub open spec fn empty() -> Ledger {
        Ledger { balances: Map::empty(), total_supply: 0 }
    }

    /// Conservation: the total supply is the sum of all balances.
    pub open spec fn conserved(self) -> bool {
        &&& self.balances.dom().finite()
        &&& total(self.balances) == self.total_supply
    }

    /// Whether `account` has an entry.
    pub open spec fn is_registered(self, account: Seq<char>) -> bool {
        self.balances.contains_key(account)
    }

    /// The balance of `account`, zero without an entry.
    pub open spec fn balance_of(self, account: Seq<char>) -> Balance {
        balance_or_zero(self.balances, account)
    }

    /// A new entry at zero balance; refused where there is one already.
    pub open spec fn register(self, account: Seq<char>) -> Result<Ledger, TokenError> {
        if self.is_registered(account) {
            Err(TokenError::AlreadyRegistered)
        } else {
            Ok(Ledger { balances: self.balances.insert(account, 0), ..self })
        }
    }

    /// The entry of `account` deleted and its balance taken out of the
    /// supply; refused where there is no entry.
    pub open spec fn unregister(self, account: Seq<char>) -> Result<Ledger, TokenError> {
        if !self.is_registered(account) {
            Err(TokenError::NotRegistered)
        } else if self.total_supply < self.balances[account] {
            Err(TokenError::TotalSupplyOverflow)
        } else {
            Ok(
                Ledger {
                    balances: self.balances.remove(account),
                    total_supply: (self.total_supply - self.balances[account]) as Balance,
                },
            )
        }
    }

    /// `amount` added to the balance of `account` and to the supply.
    pub open spec fn deposit(self, account: Seq<char>, amount: Balance) -> Result<
        Ledger,
        TokenError,
    > {
        if !self.is_registered(account) {
            Err(TokenError::NotRegistered)
        } else if self.balances[account] + amount > Balance::MAX {
            Err(TokenError::BalanceOverflow)
        } else if self.total_supply + amount > Balance::MAX {
            Err(TokenError::TotalSupplyOverflow)
        } else {
            Ok(
                Ledger {
                    balances: self.balances.insert(
                        account,
                        (self.balances[account] + amount) as Balance,
                    ),
                    total_supply: (self.total_supply + amount) as Balance,
                },
            )
        }
    }

    /// `amount` taken from the balance of `account` and from the supply.
    pub open spec fn withdraw(self, account: Seq<char>, amount: Balance) -> Result<
        Ledger,
        TokenError,
    > {
        if !self.is_registered(account) {
            Err(TokenError::NotRegistered)
        } else if self.balances[account] < amount {
            Err(TokenError::InsufficientBalance)
        } else if self.total_supply < amount {
            Err(TokenError::TotalSupplyOverflow)
        } else {
            Ok(
                Ledger {
                    balances: self.balances.insert(
                        account,
                        (self.balances[account] - amount) as Balance,
                    ),
                    total_supply: (self.total_supply - amount) as Balance,
                },
            )
        }
    }

    /// `amount` moved from `sender` to `receiver`: taken from the one, then
    /// given to the other, or nothing at all.
    pub open spec fn transfer(
        self,
        sender: Seq<char>,
        receiver: Seq<char>,
        amount: Balance,
    ) -> Result<Ledger, TokenError> {
        if sender == receiver {
            Err(TokenError::SelfTransfer)
        } else if amount == 0 {
            Err(TokenError::ZeroAmount)
        } else {
            match self.withdraw(sender, amount) {
                Err(e) => Err(e),
                Ok(taken) => taken.deposit(receiver, amount),
            }
        }
    }

    /// What can be clawed back from `receiver` when it returns `unused`:
    /// no more than it still holds.
    pub open spec fn refund_of(self, receiver: Seq<char>, unused: Balance) -> Balance {
        spec_min(self.balance_of(receiver), unused)
    }

    /// The ledger after a notified transfer is settled with `unused` tokens
    /// returned. The refund leaves the receiver. It goes to the sender if
    /// the sender still has an entry, and out of the supply if not. Where
    /// sender and receiver are the same account, what leaves it comes back
    /// to it, and the ledger is as it was.
    pub open spec fn settle(self, sender: Seq<char>, receiver: Seq<char>, unused: Balance) -> Ledger {
        let refund = self.refund_of(receiver, unused);
        if refund == 0 {
            self
        } else {
            let taken = self.balances.insert(
                receiver,
                (self.balances[receiver] - refund) as Balance,
            );
            if self.is_registered(sender) {
                Ledger {
                    balances: taken.insert(sender, (taken[sender] + refund) as Balance),
                    ..self
                }
            } else {
                Ledger {
                    balances: taken,
                    total_supply: (self.total_supply - refund) as Balance,
                }
            }
        }
    }

    /// The amount that counts as used by the receiver. Where the sender is
    /// gone, the whole amount counts as used, whatever was burned.
    pub open spec fn used_amount(
        self,
        sender: Seq<char>,
        receiver: Seq<char>,
        amount: Balance,
        unused: Balance,
    ) -> Balance {
        if self.is_registered(sender) {
            (amount - self.refund_of(receiver, unused)) as Balance
        } else {
            amount
        }
    }

    /// The amount destroyed in settling: the refund, where the sender is
    /// gone.
    pub open spec fn burned_amount(self, sender: Seq<char>, receiver: Seq<char>, unused: Balance) -> Balance {
        if self.is_registered(sender) {
            0
        } else {
            self.refund_of(receiver, unused)
        }
    }

    /// The ledger after `op`; an operation that is refused leaves it as it
    /// was.
    pub open spec fn step(self, op: Op) -> Ledger {
        match op {
            Op::Register { account } => match self.register(account) {
                Ok(next) => next,
                Err(_) => self,
            },
            Op::Unregister { account } => match self.unregister(account) {
                Ok(next) => next,
                Err(_) => self,
            },
            Op::Mint { account, amount } => match self.deposit(account, amount) {
                Ok(next) => next,
                Err(_) => self,
            },
            Op::Burn { account, amount } => match self.withdraw(account, amount) {
                Ok(next) => next,
                Err(_) => self,
            },
            Op::Transfer { sender, receiver, amount } => match self.transfer(
                sender,
                receiver,
                amount,
            ) {
                Ok(next) => next,
                Err(_) => self,
            },
            Op::Settle { sender, receiver, amount, reply } => self.settle(
                sender,
                receiver,
                unused_of(amount, reply),
            ),
        }
    }

    /// The ledger after all of `ops`, in order.
    pub open spec fn run(self, ops: Seq<Op>) -> Ledger
        decreases ops.len(),
    {
        if ops.len() == 0 {
            self
        } else {
            self.run(ops.drop_last()).step(ops.last())
        }
    }

    /// The empty ledger is conserved.
    pub proof fn lemma_empty_conserved()
        ensures
            Self::empty().conserved(),
    {
    }

    /// Registering keeps conservation.
    pub proof fn lemma_register_conserves(self, account: Seq<char>)
        requires
            self.conserved(),
            self.register(account) is Ok,
        ensures
            self.register(account)->Ok_0.conserved(),
    {
        lemma_total_insert(self.balances, account, 0);
    }

    /// Deleting an entry keeps conservation, and never underflows the
    /// supply of a conserved ledger.
    pub proof fn lemma_unregister_conserves(self, account: Seq<char>)
        requires
            self.conserved(),
            self.is_registered(account),
        ensures
            self.unregister(account) is Ok,
            self.unregister(account)->Ok_0.conserved(),
    {
        lemma_total_delete(self.balances, account);
    }

    /// A deposit keeps conservation.
    pub proof fn lemma_deposit_conserves(self, account: Seq<char>, amount: Balance)
        requires
            self.conserved(),
            self.deposit(account, amount) is Ok,
        ensures
            self.deposit(account, amount)->Ok_0.conserved(),
    {
        lemma_total_insert(
            self.balances,
            account,
            (self.balances[account] + amount) as Balance,
        );
    }

    /// A withdrawal keeps conservation, and on a conserved ledger it is
    /// refused only for a missing entry or a balance too small.
    pub proof fn lemma_withdraw_conserves(self, account: Seq<char>, amount: Balance)
        requires
            self.conserved(),
        ensures
            self.withdraw(account, amount) is Ok ==> self.withdraw(account, amount)->Ok_0.conserved(),
            self.withdraw(account, amount) is Ok <==> self.is_registered(account)
                && self.balances[account] >= amount,
    {
        if self.is_registered(account) && self.balances[account] >= amount {
            lemma_total_insert(
                self.balances,
                account,
                (self.balances[account] - amount) as Balance,
            );
        }
    }

    /// When a transfer between two accounts of a conserved ledger goes
    /// through, and what it then leaves behind.
    pub proof fn lemma_transfer(self, sender: Seq<char>, receiver: Seq<char>, amount: Balance)
        requires
            self.conserved(),
        ensures
            self.transfer(sender, receiver, amount) is Ok <==> {
                &&& sender != receiver
                &&& amount > 0
                &&& self.is_registered(sender)
                &&& self.balances[sender] >= amount
                &&& self.is_registered(receiver)
            },
            self.transfer(sender, receiver, amount) is Ok ==> {
                let next = self.transfer(sender, receiver, amount)->Ok_0;
                &&& next.conserved()
                &&& next.total_supply == self.total_supply
                &&& next.balances == self.balances.insert(
                    sender,
                    (self.balances[sender] - amount) as Balance,
                ).insert(receiver, (self.balances[receiver] + amount) as Balance)
                &&& self.balances[receiver] + amount <= Balance::MAX
            },
    {
        self.lemma_withdraw_conserves(sender, amount);
        if sender != receiver && amount > 0 && self.withdraw(sender, amount) is Ok {
            let taken = self.withdraw(sender, amount)->Ok_0;
            if taken.is_registered(receiver) {
                lemma_two_balances_le_total(taken.balances, sender, receiver);
                taken.lemma_deposit_conserves(receiver, amount);
            }
        }
    }

    /// Settling keeps conservation, and on a conserved ledger none of its
    /// sums leaves the range of `Balance`.
    pub proof fn lemma_settle_conserves(self, sender: Seq<char>, receiver: Seq<char>, unused: Balance)
        requires
            self.conserved(),
        ensures
            self.settle(sender, receiver, unused).conserved(),
            self.refund_of(receiver, unused) <= self.total_supply,
            self.is_registered(sender) && sender != receiver ==> self.balances[sender]
                + self.refund_of(receiver, unused) <= Balance::MAX,
    {
        let refund = self.refund_of(receiver, unused);
        if refund > 0 {
            let taken = self.balances.insert(
                receiver,
                (self.balances[receiver] - refund) as Balance,
            );
            lemma_total_insert(
                self.balances,
                receiver,
                (self.balances[receiver] - refund) as Balance,
            );
            if self.is_registered(sender) {
                if sender != receiver {
                    lemma_two_balances_le_total(self.balances, sender, receiver);
                }
                lemma_total_insert(taken, sender, (taken[sender] + refund) as Balance);
            }
        }
    }

    /// Settling a transfer of an account to itself leaves the ledger as it
    /// was: what leaves the account comes back to it.
    pub proof fn lemma_settle_with_itself(self, account: Seq<char>, unused: Balance)
        ensures
            self.settle(account, account, unused) == self,
    {
        assert(self.settle(account, account, unused).balances =~= self.balances);
    }

    /// Every single operation keeps conservation.
    pub proof fn lemma_step_conserves(self, op: Op)
        requires
            self.conserved(),
        ensures
            self.step(op).conserved(),
    {
        match op {
            Op::Register { account } => {
                if self.register(account) is Ok {
                    self.lemma_register_conserves(account);
                }
            },
            Op::Unregister { account } => {
                if self.is_registered(account) {
                    self.lemma_unregister_conserves(account);
                }
            },
            Op::Mint { account, amount } => {
                if self.deposit(account, amount) is Ok {
                    self.lemma_deposit_conserves(account, amount);
                }
            },
            Op::Burn { account, amount } => {
                self.lemma_withdraw_conserves(account, amount);
            },
            Op::Transfer { sender, receiver, amount } => {
                self.lemma_transfer(sender, receiver, amount);
            },
            Op::Settle { sender, receiver, amount, reply } => {
                self.lemma_settle_conserves(sender, receiver, unused_of(amount, reply));
            },
        }
    }

    /// Conservation: after any sequence of operations on a conserved
    /// ledger, the total supply is the sum of all balances.
    pub proof fn lemma_conservation(self, ops: Seq<Op>)
        requires
            self.conserved(),
        ensures
            self.run(ops).conserved(),
            self.run(ops).total_supply == total(self.run(ops).balances),
        decreases ops.len(),
    {
        if ops.len() > 0 {
            self.lemma_conservation(ops.drop_last());
            self.run(ops.drop_last()).lemma_step_conserves(ops.last());
        }
    }

    /// Atomicity of a transfer: either the sender has `amount` less, the
    /// receiver `amount` more and every other account what it had, or the
    /// transfer is refused.
    pub proof fn lemma_transfer_atomic(self, sender: Seq<char>, receiver: Seq<char>, amount: Balance)
        requires
            self.conserved(),
        ensures
            match self.transfer(sender, receiver, amount) {
                Ok(next) => {
                    &&& next.balance_of(sender) == self.balance_of(sender) - amount
                    &&& next.balance_of(receiver) == self.balance_of(receiver) + amount
                    &&& forall|other: Seq<char>|
                        other != sender && other != receiver ==> #[trigger] next.balance_of(other)
                            == self.balance_of(other)
                    &&& next.balances.dom() == self.balances.dom()
                    &&& next.total_supply == self.total_supply
                },
                Err(_) => true,
            },
    {
    }
}

} // verus!
