//! The storage ledger of ArtSpot: what every user has paid in advance for
//! storage, how many bytes the user's data occupy, and the rule that the
//! rent paid always covers the bytes used.
//!
//! The ledger never reads the host. The caller, the deposit attached to a
//! call, the time and the host's storage counter before and after a record
//! was written are handed in as plain values; what has to be paid out is
//! handed back.

use vstd::prelude::*;
use vstd::hash_map::StringHashMap;
use crate::id::{is_valid_account_id, spec_valid_account_id, Id};
use crate::storage_tracker::{StorageTracker, StorageUsage, TrackerError};
use crate::text::{names, opt_text};
use crate::user::{or_keep, or_keep_opt, Role, User, UserView};
use crate::yocto_near::YoctoNear;

verus! {

/// The bytes that the smallest record of a user occupies.
pub const MIN_STORAGE_BYTES: StorageUsage = 2000;

/// The price of one byte of storage, in yoctoNEAR.
pub const STORAGE_COST_PER_BYTE: u128 = 10_000_000_000_000_000_000u128;

/// The least rent that a user can be registered with: the price of
/// `MIN_STORAGE_BYTES` bytes.
pub const MIN_STORAGE_BALANCE: u128 = 20_000_000_000_000_000_000_000u128;

/// A span of time in nanoseconds.
pub type Duration = u64;

/// A point in time in nanoseconds.
pub type Timestamp = u64;

/// Why the storage ledger refuses an operation.
#[derive(Debug, Clone, Copy, PartialEq, Eq, Structural)]
pub enum StorageError {
    /// The deposit is less than the least rent.
    InsufficientDeposit,
    /// The rent paid does not cover the bytes used.
    NotEnoughStorageBalance,
    /// A user was to be made who is there already.
    AccountExists,
    /// More bytes were released than the user was using.
    AccountingBug,
    /// The count of used bytes would leave its range.
    UsedBytesOverflow,
    /// The meter of the record was misused.
    Tracker(TrackerError),
    /// The user is not registered.
    NotRegistered,
    /// More was asked back than is available.
    AmountExceedsAvailable,
    /// Users cannot be unregistered.
    CannotUnregister,
    /// The call did not carry exactly one yoctoNEAR.
    RequiresOneYocto,
    /// The caller is not the owner.
    NotOwner,
    /// The caller is not the contract itself.
    NotSelf,
    /// The caller is not on the allowlist.
    NotAllowlisted,
    /// The caller lacks the role that the call asks for.
    MissingRole,
    /// No role has this name.
    InvalidRole,
    /// The identifier has no name to register a user under.
    NoAccountName,
    /// A point in time would leave its range.
    TimeOverflow,
    /// The time to put staged code in place has not come.
    DeployTooEarly,
    /// The time given for staged code is not later than the staging time
    /// allows.
    StagingTooShort,
    /// The name of the new account is no valid account name.
    InvalidSubaccount,
    /// The identifier of the new user is no valid identifier.
    InvalidId,
}

impl StorageError {
    /// Whether the error shows a fault in the accounting rather than a
    /// mistake of the caller.
    pub open spec fn spec_is_fatal(self) -> bool {
        ||| self == StorageError::AccountExists
        ||| self == StorageError::AccountingBug
        ||| self == StorageError::UsedBytesOverflow
        ||| self is Tracker
        ||| self == StorageError::TimeOverflow
    }

    /// Whether the error shows a fault in the accounting rather than a
    /// mistake of the caller.
    pub fn is_fatal(&self) -> (r: bool)
        ensures
            r == self.spec_is_fatal(),
    {
        match self {
            StorageError::AccountExists => true,
            StorageError::AccountingBug => true,
            StorageError::UsedBytesOverflow => true,
            StorageError::Tracker(_) => true,
            StorageError::TimeOverflow => true,
            _ => false,
        }
    }

    /// The text that accompanies the error.
    pub fn message(&self) -> (r: &'static str)
        ensures
            r@ == (match *self {
                StorageError::InsufficientDeposit => "The attached deposit is less than the minimum storage balance"@,
                StorageError::NotEnoughStorageBalance => "Not enough storage balance"@,
                StorageError::AccountExists => "Internal bug. Account already exists."@,
                StorageError::AccountingBug => "Internal storage accounting bug"@,
                StorageError::UsedBytesOverflow => "Used bytes overflow"@,
                StorageError::Tracker(e) => e.message_text(),
                StorageError::NotRegistered => "The account is not registered"@,
                StorageError::AmountExceedsAvailable => "The amount is greater than the available storage balance"@,
                StorageError::CannotUnregister => "The account can't be unregistered"@,
                StorageError::RequiresOneYocto => "Requires attached deposit of exactly 1 yoctoNEAR"@,
                StorageError::NotOwner => "Only owner can call this method"@,
                StorageError::NotSelf => "Callback can only be called from the contract"@,
                StorageError::NotAllowlisted => "Only allowlisted accounts can call this method"@,
                StorageError::MissingRole => "Only accounts with the required role can call this method"@,
                StorageError::InvalidRole => "Invalid role"@,
                StorageError::NoAccountName => "unwrap! called on a None value"@,
                StorageError::TimeOverflow => "Timestamp overflow"@,
                StorageError::DeployTooEarly => "Deploy code too early"@,
                StorageError::StagingTooShort => "Timestamp must be later than staging duration"@,
                StorageError::InvalidSubaccount => "Invalid subaccount"@,
                StorageError::InvalidId => "Invalid id"@,
            }),
    {
        match self {
            StorageError::InsufficientDeposit => "The attached deposit is less than the minimum storage balance",
            StorageError::NotEnoughStorageBalance => "Not enough storage balance",
            StorageError::AccountExists => "Internal bug. Account already exists.",
            StorageError::AccountingBug => "Internal storage accounting bug",
            StorageError::UsedBytesOverflow => "Used bytes overflow",
            StorageError::Tracker(e) => e.message(),
            StorageError::NotRegistered => "The account is not registered",
            StorageError::AmountExceedsAvailable => "The amount is greater than the available storage balance",
            StorageError::CannotUnregister => "The account can't be unregistered",
            StorageError::RequiresOneYocto => "Requires attached deposit of exactly 1 yoctoNEAR",
            StorageError::NotOwner => "Only owner can call this method",
            StorageError::NotSelf => "Callback can only be called from the contract",
            StorageError::NotAllowlisted => "Only allowlisted accounts can call this method",
            StorageError::MissingRole => "Only accounts with the required role can call this method",
            StorageError::InvalidRole => "Invalid role",
            StorageError::NoAccountName => "unwrap! called on a None value",
            StorageError::TimeOverflow => "Timestamp overflow",
            StorageError::DeployTooEarly => "Deploy code too early",
            StorageError::StagingTooShort => "Timestamp must be later than staging duration",
            StorageError::InvalidSubaccount => "Invalid subaccount",
            StorageError::InvalidId => "Invalid id",
        }
    }
}

/// What a user has paid for storage, and how much of it is free.
#[derive(Debug, Clone, Copy, PartialEq, Eq, Structural)]
pub struct StorageBalance {
    /// The rent paid in advance.
    pub total: YoctoNear,
    /// What of it the bytes in use do not need.
    pub available: YoctoNear,
}

/// The least and the greatest rent of a user.
#[derive(Debug, Clone, Copy, PartialEq, Eq, Structural)]
pub struct StorageBalanceBounds {
    pub min: YoctoNear,
    pub max: Option<YoctoNear>,
}

/// The users of a ledger, by the text of their identifier.
pub type Accounts = Map<Seq<char>, UserView>;

/// The rent that `used_bytes` bytes need.
pub open spec fn rent_needed(used_bytes: StorageUsage) -> int {
    used_bytes * STORAGE_COST_PER_BYTE
}

/// The storage invariant of one user: the rent paid covers the bytes used.
pub open spec fn covered(storage_balance: u128, used_bytes: StorageUsage) -> bool {
    rent_needed(used_bytes) <= storage_balance
}

/// What of `storage_balance` the bytes in use do not need; never negative.
pub open spec fn available(storage_balance: u128, used_bytes: StorageUsage) -> u128 {
    if covered(storage_balance, used_bytes) {
        (storage_balance - rent_needed(used_bytes)) as u128
    } else {
        0
    }
}

/// The storage balance of a user.
pub open spec fn balance_of(user: UserView) -> StorageBalance {
    StorageBalance {
        total: YoctoNear(user.storage_balance),
        available: YoctoNear(available(user.storage_balance, user.used_bytes)),
    }
}

/// The bytes that a user uses once the meter of the record is booked: the
/// bytes used before, more by what was added, less by what was released.
/// Refused where the meter is still measuring, where the count would leave
/// its range or fall below zero, and where the rent paid does not cover the
/// new count.
pub open spec fn spec_apply(
    used_bytes: StorageUsage,
    storage_balance: u128,
    tracker: StorageTracker,
) -> Result<StorageUsage, StorageError> {
    let used = used_bytes + tracker.bytes_added - tracker.bytes_released;
    if tracker.is_active() {
        Err(StorageError::Tracker(TrackerError::NonTrackedChange))
    } else if used > StorageUsage::MAX {
        Err(StorageError::UsedBytesOverflow)
    } else if used < 0 {
        Err(StorageError::AccountingBug)
    } else if !covered(storage_balance, used as StorageUsage) {
        Err(StorageError::NotEnoughStorageBalance)
    } else {
        Ok(used as StorageUsage)
    }
}

/// The record that is kept once the meter of `user` is booked.
pub open spec fn settled(user: UserView, used_bytes: StorageUsage) -> UserView {
    UserView { used_bytes, storage_tracker: StorageTracker::spec_new(), ..user }
}

/// The users after the record `user` is put under `key`, its meter booked;
/// or why the record is refused.
pub open spec fn spec_set_account(accounts: Accounts, key: Seq<char>, user: UserView) -> Result<
    Accounts,
    StorageError,
> {
    match spec_apply(user.used_bytes, user.storage_balance, user.storage_tracker) {
        Err(e) => Err(e),
        Ok(used) => Ok(accounts.insert(key, settled(user, used))),
    }
}

/// The storage invariant of a ledger: of every user the rent paid covers
/// the bytes used, and nothing is left on the meter of a record that is
/// kept.
pub open spec fn all_covered(accounts: Accounts) -> bool {
    forall|key: Seq<char>| #[trigger]
        accounts.contains_key(key) ==> covered(
            accounts[key].storage_balance,
            accounts[key].used_bytes,
        ) && accounts[key].storage_tracker == StorageTracker::spec_new()
}

/// A record that is put into a ledger keeps the storage invariant, and a
/// record that is refused leaves the ledger as it was.
pub proof fn lemma_set_account_keeps_cover(accounts: Accounts, key: Seq<char>, user: UserView)
    requires
        all_covered(accounts),
    ensures
        match spec_set_account(accounts, key, user) {
            Ok(next) => all_covered(next),
            Err(_) => true,
        },
{
}

/// `near_sdk::env::storage_byte_cost`: the price of one byte of storage.
/// The function returns a constant, 10^19 yoctoNEAR.
#[verifier::external_body]
fn storage_byte_cost() -> (r: YoctoNear)
    ensures
        r.0 == STORAGE_COST_PER_BYTE,
{
    YoctoNear(near_sdk::env::storage_byte_cost().as_yoctonear())
}

/// The rent that `used_bytes` bytes need.
pub fn storage_cost(used_bytes: StorageUsage) -> (r: YoctoNear)
    ensures
        r.0 == rent_needed(used_bytes),
{
    storage_byte_cost().saturating_mul(used_bytes as u128)
}

impl User {
    /// Whether the rent paid covers the bytes used.
    pub fn assert_storage_covered(&self) -> (r: Result<(), StorageError>)
        ensures
            covered(self@.storage_balance, self@.used_bytes) ==> r is Ok,
            !covered(self@.storage_balance, self@.used_bytes) ==> r == Err::<(), StorageError>(
                StorageError::NotEnoughStorageBalance,
            ),
    {
        let storage_balance_needed: YoctoNear = storage_cost(self.used_bytes);
        if storage_balance_needed.as_yoctonear() <= self.storage_balance.as_yoctonear() {
            Ok(())
        } else {
            Err(StorageError::NotEnoughStorageBalance)
        }
    }

    /// The storage balance of the user.
    pub fn storage_balance(&self) -> (r: StorageBalance)
        ensures
            r == balance_of(self@),
    {
        StorageBalance {
            total: self.storage_balance,
            available: self.storage_balance.saturating_sub(storage_cost(self.used_bytes)),
        }
    }

    /// Books the meter of the record on the bytes used and empties the
    /// meter. Refused, with the record unchanged, where `spec_apply` refuses.
    pub fn apply_tracker(&mut self) -> (r: Result<(), StorageError>)
        ensures
            match spec_apply(
                old(self)@.used_bytes,
                old(self)@.storage_balance,
                old(self)@.storage_tracker,
            ) {
                Ok(used) => r is Ok && final(self)@ == settled(old(self)@, used),
                Err(e) => r == Err::<(), StorageError>(e) && *final(self) == *old(self),
            },
    {
        if self.storage_tracker.is_tracking() {
            return Err(StorageError::Tracker(TrackerError::NonTrackedChange));
        }
        let bytes_added: StorageUsage = self.storage_tracker.bytes_added;
        let bytes_released: StorageUsage = self.storage_tracker.bytes_released;
        let used_bytes: StorageUsage = if bytes_added > bytes_released {
            let extra_bytes_used: StorageUsage = bytes_added - bytes_released;
            match self.used_bytes.checked_add(extra_bytes_used) {
                Some(used) => used,
                None => {
                    return Err(StorageError::UsedBytesOverflow);
                },
            }
        } else {
            let bytes_released: StorageUsage = bytes_released - bytes_added;
            if self.used_bytes < bytes_released {
                return Err(StorageError::AccountingBug);
            }
            self.used_bytes - bytes_released
        };
        if storage_cost(used_bytes).as_yoctonear() > self.storage_balance.as_yoctonear() {
            return Err(StorageError::NotEnoughStorageBalance);
        }
        self.used_bytes = used_bytes;
        self.storage_tracker.bytes_released = 0;
        self.storage_tracker.bytes_added = 0;
        Ok(())
    }
}

/// The record of a user who is about to be registered.
#[derive(Debug)]
pub struct NewAccount {
    /// The record, its rent set and its meter fresh.
    pub account: User,
    /// What of the deposit goes back to the caller.
    pub refund: YoctoNear,
}

/// The state of the ArtSpot contract.
pub struct ArtSpot {
    owner: Id,
    staging_duration: Duration,
    staging_timestamp: Timestamp,
    allowlist: Vec<Id>,
    users: StringHashMap<User>,
}

/// The texts of a list of identifiers.
pub open spec fn id_texts(list: Seq<Id>) -> Seq<Seq<char>> {
    list.map_values(|id: Id| id@)
}

/// The roles that a list of names stands for, where the caller may give
/// them. The names are taken in order. A name that no role has is refused;
/// the role of an admin is refused to a caller who is not on the allowlist;
/// the role of a moderator is refused with `admin` to a caller who is no
/// admin.
pub open spec fn spec_roles(
    role_names: Seq<Seq<char>>,
    allowlisted: bool,
    admin: Option<StorageError>,
) -> Result<Seq<Role>, StorageError>
    decreases role_names.len(),
{
    if role_names.len() == 0 {
        Ok(Seq::empty())
    } else {
        match spec_roles(role_names.drop_last(), allowlisted, admin) {
            Err(e) => Err(e),
            Ok(roles) => match Role::spec_from_name(role_names.last()) {
                None => Err(StorageError::InvalidRole),
                Some(role) => if role == Role::Admin && !allowlisted {
                    Err(StorageError::NotAllowlisted)
                } else if role == Role::Moderator && admin is Some {
                    Err(admin->0)
                } else {
                    Ok(roles.push(role))
                },
            },
        }
    }
}

/// The changes that `update_account` makes to the profile of a user.
pub struct ProfileChange {
    pub email: Option<Seq<char>>,
    pub name: Option<Seq<char>>,
    pub bio: Option<Seq<char>>,
    pub avatar: Option<Seq<char>>,
    pub cover: Option<Seq<char>>,
    pub roles: Option<Seq<Role>>,
}

/// What a request to update a profile carries: the fields as they are
/// given, the roles by their names.
pub struct ProfileRequest {
    pub email: Option<Seq<char>>,
    pub name: Option<Seq<char>>,
    pub bio: Option<Seq<char>>,
    pub avatar: Option<Seq<char>>,
    pub cover: Option<Seq<char>>,
    pub roles: Option<Seq<Seq<char>>>,
}

impl ProfileRequest {
    /// The request that the arguments of an update make.
    pub open spec fn of(
        email: Option<String>,
        name: Option<String>,
        bio: Option<String>,
        avatar: Option<String>,
        cover: Option<String>,
        roles: Option<Vec<String>>,
    ) -> ProfileRequest {
        ProfileRequest {
            email: opt_text(email),
            name: opt_text(name),
            bio: opt_text(bio),
            avatar: opt_text(avatar),
            cover: opt_text(cover),
            roles: match roles {
                Some(list) => Some(names(list@)),
                None => None,
            },
        }
    }
}

impl ProfileChange {
    /// The record with the changes made: what is given replaces what was
    /// there.
    pub open spec fn on(self, user: UserView) -> UserView {
        UserView {
            email: or_keep(self.email, user.email),
            name: or_keep(self.name, user.name),
            bio: or_keep_opt(self.bio, user.bio),
            avatar: or_keep_opt(self.avatar, user.avatar),
            cover: or_keep_opt(self.cover, user.cover),
            roles: or_keep(self.roles, user.roles),
            ..user
        }
    }
}

impl ArtSpot {
    /// The users, by the text of their identifier.
    pub closed spec fn accounts(&self) -> Accounts {
        self.users@.map_values(|u: User| u@)
    }

    /// The owner of the contract.
    pub closed spec fn owner_id(&self) -> Id {
        self.owner
    }

    /// The text of the owner's identifier.
    pub open spec fn owner_text(&self) -> Seq<char> {
        self.owner_id()@
    }

    /// The accounts that may create users, in the order in which they were
    /// added.
    pub closed spec fn allowed_ids(&self) -> Seq<Id> {
        self.allowlist@
    }

    /// The texts of the identifiers on the allowlist.
    pub open spec fn allowed(&self) -> Seq<Seq<char>> {
        id_texts(self.allowed_ids())
    }

    /// How long new code has to be staged before it is put in place.
    pub closed spec fn staging_time(&self) -> Duration {
        self.staging_duration
    }

    /// The time for which new code is staged.
    pub closed spec fn staged_for(&self) -> Timestamp {
        self.staging_timestamp
    }

    /// The ledger is well formed when it keeps the storage invariant.
    pub open spec fn wf(&self) -> bool {
        all_covered(self.accounts())
    }

    /// Whether owner, allowlist and staging are those of `other`.
    pub open spec fn same_admin(&self, other: &Self) -> bool {
        &&& self.owner_id() == other.owner_id()
        &&& self.allowed_ids() == other.allowed_ids()
        &&& self.staging_time() == other.staging_time()
        &&& self.staged_for() == other.staged_for()
    }

    /// How `r` and the users afterwards answer a step of the ledger: the
    /// new users where the call succeeded, the error where it did not.
    pub open spec fn answer<T>(r: Result<T, StorageError>, after: Accounts) -> Result<
        Accounts,
        StorageError,
    > {
        match r {
            Ok(_) => Ok(after),
            Err(e) => Err(e),
        }
    }

    /// A contract without users. The owner is the first account on the
    /// allowlist.
    pub fn new(owner_id: Id, staging_duration: Duration) -> (r: Self)
        ensures
            r.wf(),
            r.accounts() == Map::<Seq<char>, UserView>::empty(),
            r.owner_id() == owner_id,
            r.allowed_ids() == seq![owner_id],
            r.staging_time() == staging_duration,
            r.staged_for() == 0,
    {
        let mut allowlist: Vec<Id> = Vec::new();
        allowlist.push(owner_id.clone());
        let r = Self {
            owner: owner_id,
            staging_duration,
            staging_timestamp: 0,
            allowlist,
            users: StringHashMap::new(),
        };
        r
    }

    /// A contract as it is kept, before any user is loaded: its owner, the
    /// allowlist and the staging of new code. It has no users.
    pub fn restore(
        owner_id: Id,
        allowlist: Vec<Id>,
        staging_duration: Duration,
        staging_timestamp: Timestamp,
    ) -> (r: Self)
        ensures
            r.wf(),
            r.accounts() == Map::<Seq<char>, UserView>::empty(),
            r.owner_id() == owner_id,
            r.allowed_ids() == allowlist@,
            r.staging_time() == staging_duration,
            r.staged_for() == staging_timestamp,
    {
        Self {
            owner: owner_id,
            staging_duration,
            staging_timestamp,
            allowlist,
            users: StringHashMap::new(),
        }
    }

    /// The owner of the contract.
    pub fn get_owner(&self) -> (r: Id)
        ensures
            r == self.owner_id(),
    {
        self.owner.clone()
    }

    /// Whether `predecessor_id` owns the contract.
    pub fn assert_owner(&self, predecessor_id: &Id) -> (r: Result<(), StorageError>)
        ensures
            predecessor_id@ == self.owner_text() ==> r is Ok,
            predecessor_id@ != self.owner_text() ==> r == Err::<(), StorageError>(
                StorageError::NotOwner,
            ),
    {
        if predecessor_id.same_as(&self.owner) {
            Ok(())
        } else {
            Err(StorageError::NotOwner)
        }
    }

    /// Whether the call comes from the contract itself.
    pub fn assert_self(predecessor_id: &Id, current_id: &Id) -> (r: Result<(), StorageError>)
        ensures
            predecessor_id@ == current_id@ ==> r is Ok,
            predecessor_id@ != current_id@ ==> r == Err::<(), StorageError>(StorageError::NotSelf),
    {
        if predecessor_id.same_as(current_id) {
            Ok(())
        } else {
            Err(StorageError::NotSelf)
        }
    }

    /// Whether `predecessor_id` is on the allowlist.
    pub fn assert_allowlisted(&self, predecessor_id: &Id) -> (r: Result<(), StorageError>)
        ensures
            self.allowed().contains(predecessor_id@) ==> r is Ok,
            !self.allowed().contains(predecessor_id@) ==> r == Err::<(), StorageError>(
                StorageError::NotAllowlisted,
            ),
    {
        let mut i: usize = 0;
        while i < self.allowlist.len()
            invariant
                i <= self.allowlist.len(),
                forall|j: int| 0 <= j < i ==> (#[trigger] id_texts(self.allowlist@)[j]) != predecessor_id@,
            decreases self.allowlist.len() - i,
        {
            if self.allowlist[i].same_as(predecessor_id) {
                assert(id_texts(self.allowlist@)[i as int] == predecessor_id@);
                return Ok(());
            }
            i += 1;
        }
        Err(StorageError::NotAllowlisted)
    }

    /// What a caller who is to have `role` is refused for: not being
    /// registered, or not having the role.
    pub open spec fn role_refusal(accounts: Accounts, caller: Seq<char>, role: Role) -> Option<
        StorageError,
    > {
        if !accounts.contains_key(caller) {
            Some(StorageError::NotRegistered)
        } else if !accounts[caller].roles.contains(role) {
            Some(StorageError::MissingRole)
        } else {
            None
        }
    }

    /// Whether `predecessor_id` is a user with the role.
    pub fn assert_role(&self, predecessor_id: &Id, role: Role) -> (r: Result<(), StorageError>)
        ensures
            match Self::role_refusal(self.accounts(), predecessor_id@, role) {
                Some(e) => r == Err::<(), StorageError>(e),
                None => r is Ok,
            },
    {
        match self.users.get(predecessor_id.as_str()) {
            None => Err(StorageError::NotRegistered),
            Some(user) => if user.has_role(role) {
                Ok(())
            } else {
                Err(StorageError::MissingRole)
            },
        }
    }

    /// Whether `predecessor_id` is an admin.
    pub fn assert_admin(&self, predecessor_id: &Id) -> (r: Result<(), StorageError>)
        ensures
            match Self::role_refusal(self.accounts(), predecessor_id@, Role::Admin) {
                Some(e) => r == Err::<(), StorageError>(e),
                None => r is Ok,
            },
    {
        self.assert_role(predecessor_id, Role::Admin)
    }

    /// Hands the contract to a new owner. Only the owner may do so.
    pub fn set_owner(&mut self, predecessor_id: &Id, id: Id) -> (r: Result<(), StorageError>)
        ensures
            final(self).accounts() == old(self).accounts(),
            final(self).allowed_ids() == old(self).allowed_ids(),
            final(self).staging_time() == old(self).staging_time(),
            final(self).staged_for() == old(self).staged_for(),
            predecessor_id@ == old(self).owner_text() ==> r is Ok && final(self).owner_id()
                == id,
            predecessor_id@ != old(self).owner_text() ==> r == Err::<(), StorageError>(
                StorageError::NotOwner,
            ) && final(self).owner_id() == old(self).owner_id(),
    {
        if let Err(e) = self.assert_owner(predecessor_id) {
            return Err(e);
        }
        self.owner = id;
        Ok(())
    }

    /// The accounts that may create users.
    pub fn get_allowlist(&self) -> (r: Vec<Id>)
        ensures
            r@ == self.allowed_ids(),
    {
        let mut r: Vec<Id> = Vec::new();
        let mut i: usize = 0;
        while i < self.allowlist.len()
            invariant
                i <= self.allowlist.len(),
                r.len() == i,
                forall|j: int| 0 <= j < i ==> (#[trigger] r@[j]) == self.allowlist@[j],
            decreases self.allowlist.len() - i,
        {
            r.push(self.allowlist[i].clone());
            i += 1;
        }
        r
    }

    /// Puts `account_id` on the allowlist. Only the owner may do so.
    pub fn add_to_allowlist(&mut self, predecessor_id: &Id, account_id: Id) -> (r: Result<
        (),
        StorageError,
    >)
        ensures
            final(self).accounts() == old(self).accounts(),
            final(self).owner_id() == old(self).owner_id(),
            final(self).staging_time() == old(self).staging_time(),
            final(self).staged_for() == old(self).staged_for(),
            predecessor_id@ == old(self).owner_text() ==> r is Ok && final(self).allowed_ids()
                == old(self).allowed_ids().push(account_id),
            predecessor_id@ != old(self).owner_text() ==> r == Err::<(), StorageError>(
                StorageError::NotOwner,
            ) && final(self).allowed_ids() == old(self).allowed_ids(),
    {
        if let Err(e) = self.assert_owner(predecessor_id) {
            return Err(e);
        }
        self.allowlist.push(account_id);
        Ok(())
    }

    /// The record of a user, if the user is registered.
    pub fn internal_get_account(&self, id: &Id) -> (r: Option<User>)
        ensures
            self.accounts().contains_key(id@) ==> r is Some && r->0@ == self.accounts()[id@],
            !self.accounts().contains_key(id@) ==> r is None,
    {
        match self.users.get(id.as_str()) {
            Some(user) => Some(user.clone()),
            None => None,
        }
    }

    /// The record of a registered user.
    pub fn internal_unwrap_account(&self, id: &Id) -> (r: Result<User, StorageError>)
        ensures
            self.accounts().contains_key(id@) ==> r is Ok && r->Ok_0@ == self.accounts()[id@],
            !self.accounts().contains_key(id@) ==> r is Err && r->Err_0
                == StorageError::NotRegistered,
    {
        match self.internal_get_account(id) {
            Some(user) => Ok(user),
            None => Err(StorageError::NotRegistered),
        }
    }

    /// Puts the record `account` under `id`, after the meter of the record
    /// is booked on its used bytes and emptied. Returns whether there was a
    /// record under `id` before. Refused, with nothing changed, where the
    /// meter is still measuring, the count of bytes would leave its range or
    /// fall below zero, or the rent of the record does not cover the new
    /// count.
    pub fn internal_set_account(&mut self, id: &Id, account: User) -> (r: Result<
        bool,
        StorageError,
    >)
        requires
            old(self).wf(),
        ensures
            final(self).wf(),
            final(self).same_admin(old(self)),
            Self::answer(r, final(self).accounts()) == spec_set_account(
                old(self).accounts(),
                id@,
                account@,
            ),
            r is Ok ==> r->Ok_0 == old(self).accounts().contains_key(id@),
            r is Err ==> final(self).accounts() == old(self).accounts(),
    {
        let mut account = account;
        if let Err(e) = account.apply_tracker() {
            return Err(e);
        }
        let existed: bool = self.users.contains_key(id.as_str());
        self.users.insert(id.to_string(), account);
        assert(self.accounts() =~= old(self).accounts().insert(id@, account@));
        Ok(existed)
    }

    /// The storage balance of a user, if the user is registered.
    pub fn internal_storage_balance_of(&self, id: &Id) -> (r: Option<StorageBalance>)
        ensures
            self.accounts().contains_key(id@) ==> r == Some(balance_of(self.accounts()[id@])),
            !self.accounts().contains_key(id@) ==> r is None,
    {
        match self.users.get(id.as_str()) {
            Some(account) => Some(account.storage_balance()),
            None => None,
        }
    }

    /// The storage balance of a user, if the user is registered.
    pub fn storage_balance_of(&self, account_id: &Id) -> (r: Option<StorageBalance>)
        ensures
            self.accounts().contains_key(account_id@) ==> r == Some(
                balance_of(self.accounts()[account_id@]),
            ),
            !self.accounts().contains_key(account_id@) ==> r is None,
    {
        self.internal_storage_balance_of(account_id)
    }

    /// The least rent of a user, the price of `MIN_STORAGE_BYTES` bytes;
    /// there is no greatest.
    pub fn storage_balance_bounds(&self) -> (r: StorageBalanceBounds)
        ensures
            r.min.0 == MIN_STORAGE_BALANCE,
            r.max is None,
    {
        let required_storage_balance: YoctoNear = storage_cost(MIN_STORAGE_BYTES);
        StorageBalanceBounds { min: required_storage_balance, max: None }
    }

    /// What a withdrawal of rent gives: the users afterwards and what is
    /// paid out. Without an amount, all that is available is withdrawn.
    pub open spec fn spec_withdraw(accounts: Accounts, key: Seq<char>, amount: Option<YoctoNear>) -> Result<
        (Accounts, u128),
        StorageError,
    > {
        if !accounts.contains_key(key) {
            Err(StorageError::NotRegistered)
        } else {
            let user = accounts[key];
            let free = available(user.storage_balance, user.used_bytes);
            let paid = match amount {
                Some(a) => a.0,
                None => free,
            };
            if paid > free {
                Err(StorageError::AmountExceedsAvailable)
            } else if paid == 0 {
                Ok((accounts, 0))
            } else {
                Ok(
                    (
                        accounts.insert(
                            key,
                            UserView {
                                storage_balance: (user.storage_balance - paid) as u128,
                                ..user
                            },
                        ),
                        paid,
                    ),
                )
            }
        }
    }

    /// Withdraws rent of a user: `amount`, or all that is available where
    /// none is given. Returns the storage balance afterwards and what is to
    /// be paid out to the caller. Refused, with nothing changed, for a user
    /// who is not registered and for more than is available.
    pub fn internal_storage_withdraw(&mut self, withdraw_from: &Id, amount: Option<YoctoNear>) -> (r:
        Result<(StorageBalance, YoctoNear), StorageError>)
        requires
            old(self).wf(),
        ensures
            final(self).wf(),
            final(self).same_admin(old(self)),
            match Self::spec_withdraw(old(self).accounts(), withdraw_from@, amount) {
                Ok((next, paid)) => {
                    &&& r is Ok
                    &&& final(self).accounts() == next
                    &&& r->Ok_0.0 == balance_of(next[withdraw_from@])
                    &&& r->Ok_0.1@ == paid
                },
                Err(e) => r is Err && r->Err_0 == e && final(self).accounts() == old(
                    self,
                ).accounts(),
            },
    {
        let storage_balance: StorageBalance = match self.internal_storage_balance_of(
            withdraw_from,
        ) {
            Some(storage_balance) => storage_balance,
            None => {
                return Err(StorageError::NotRegistered);
            },
        };
        let amount: YoctoNear = match amount {
            Some(amount) => amount,
            None => storage_balance.available,
        };
        if amount.as_yoctonear() > storage_balance.available.as_yoctonear() {
            return Err(StorageError::AmountExceedsAvailable);
        }
        if amount.as_yoctonear() == 0 {
            return Ok((storage_balance, amount));
        }
        let mut account: User = match self.internal_unwrap_account(withdraw_from) {
            Ok(account) => account,
            Err(e) => {
                return Err(e);
            },
        };
        account.storage_balance = account.storage_balance.saturating_sub(amount);
        let after: StorageBalance = account.storage_balance();
        match self.internal_set_account(withdraw_from, account) {
            Ok(_) => {
                assert(self.accounts() =~= Self::spec_withdraw(
                    old(self).accounts(),
                    withdraw_from@,
                    Some(amount),
                )->Ok_0.0);
                Ok((after, amount))
            },
            Err(_) => vstd::pervasive::unreached(),
        }
    }

    /// What a deposit of rent gives: the users afterwards. The rent is held
    /// at the top of its range.
    pub open spec fn spec_deposit(accounts: Accounts, key: Seq<char>, amount: YoctoNear) -> Result<
        Accounts,
        StorageError,
    > {
        if !accounts.contains_key(key) {
            Err(StorageError::NotRegistered)
        } else {
            let user = accounts[key];
            Ok(
                accounts.insert(
                    key,
                    UserView {
                        storage_balance: if user.storage_balance + amount.0 > u128::MAX {
                            u128::MAX
                        } else {
                            (user.storage_balance + amount.0) as u128
                        },
                        ..user
                    },
                ),
            )
        }
    }

    /// Adds `amount` to the rent of a user. Refused, with nothing changed,
    /// for a user who is not registered.
    pub fn internal_deposit_storage(&mut self, id: &Id, amount: YoctoNear) -> (r: Result<
        (),
        StorageError,
    >)
        requires
            old(self).wf(),
        ensures
            final(self).wf(),
            final(self).same_admin(old(self)),
            Self::answer(r, final(self).accounts()) == Self::spec_deposit(
                old(self).accounts(),
                id@,
                amount,
            ),
            r is Err ==> final(self).accounts() == old(self).accounts(),
    {
        let mut account: User = match self.internal_unwrap_account(id) {
            Ok(account) => account,
            Err(e) => {
                return Err(e);
            },
        };
        account.storage_balance = account.storage_balance.saturating_add(amount);
        match self.internal_set_account(id, account) {
            Ok(_) => {
                assert(self.accounts() =~= Self::spec_deposit(
                    old(self).accounts(),
                    id@,
                    amount,
                )->Ok_0);
                Ok(())
            },
            Err(_) => vstd::pervasive::unreached(),
        }
    }

    /// The meter of a fresh record after the host's counter went from
    /// `usage_before` to `usage_after` while the record was written.
    pub open spec fn measured(usage_before: StorageUsage, usage_after: StorageUsage) -> StorageTracker {
        StorageTracker::spec_new().spec_start(usage_before).spec_stop(usage_after)
    }

    /// What the registration of a user gives: the users afterwards and what
    /// of the deposit goes back to the caller.
    pub open spec fn spec_create(
        accounts: Accounts,
        id: Id,
        storage_deposit: YoctoNear,
        registration_only: bool,
        now: u64,
        usage_before: StorageUsage,
        usage_after: StorageUsage,
    ) -> Result<(Accounts, u128), StorageError> {
        match Self::spec_prepare(accounts, id, storage_deposit, registration_only, now) {
            Err(e) => Err(e),
            Ok((user, refund)) => match spec_set_account(
                accounts,
                id@,
                UserView { storage_tracker: Self::measured(usage_before, usage_after), ..user },
            ) {
                Err(e) => Err(e),
                Ok(next) => Ok((next, refund)),
            },
        }
    }

    /// What the record of a new user is, and what of the deposit goes back
    /// to the caller; or why the user cannot be registered.
    pub open spec fn spec_prepare(
        accounts: Accounts,
        id: Id,
        storage_deposit: YoctoNear,
        registration_only: bool,
        now: u64,
    ) -> Result<(UserView, u128), StorageError> {
        if storage_deposit.0 < MIN_STORAGE_BALANCE {
            Err(StorageError::InsufficientDeposit)
        } else if id.spec_name() is None {
            Err(StorageError::NoAccountName)
        } else if accounts.contains_key(id@) {
            Err(StorageError::AccountExists)
        } else {
            let rent = if registration_only {
                MIN_STORAGE_BALANCE
            } else {
                storage_deposit.0
            };
            Ok(
                (
                    UserView {
                        storage_balance: rent,
                        ..UserView::fresh(id, Seq::empty(), id.spec_name()->0, now)
                    },
                    (storage_deposit.0 - rent) as u128,
                ),
            )
        }
    }

    /// Makes the record of a new user, to be written and then put with
    /// `internal_set_account`: the name is that of the identifier, the rent
    /// is the deposit, or the least rent with `registration_only`. Returns
    /// the record and what of the deposit goes back to the caller. Refused
    /// where the deposit is less than the least rent, the identifier has no
    /// name, or the user is there already.
    pub fn prepare_account(
        &self,
        id: &Id,
        storage_deposit: YoctoNear,
        registration_only: bool,
        now: u64,
    ) -> (r: Result<NewAccount, StorageError>)
        ensures
            match Self::spec_prepare(
                self.accounts(),
                *id,
                storage_deposit,
                registration_only,
                now,
            ) {
                Ok((user, refund)) => r is Ok && r->Ok_0.account@ == user && r->Ok_0.refund@
                    == refund,
                Err(e) => r is Err && r->Err_0 == e,
            },
    {
        let min_balance: YoctoNear = self.storage_balance_bounds().min;
        if storage_deposit.as_yoctonear() < min_balance.as_yoctonear() {
            return Err(StorageError::InsufficientDeposit);
        }
        let name: String = match id.name() {
            Some(name) => name.to_owned(),
            None => {
                return Err(StorageError::NoAccountName);
            },
        };
        if self.users.contains_key(id.as_str()) {
            return Err(StorageError::AccountExists);
        }
        let mut account = User::new(id.clone(), String::new(), name, now);
        let refund: YoctoNear = if registration_only {
            account.storage_balance = min_balance;
            storage_deposit.saturating_sub(min_balance)
        } else {
            account.storage_balance = storage_deposit;
            YoctoNear(0)
        };
        Ok(NewAccount { account, refund })
    }

    /// Registers a user with the deposit that came with the call.
    /// `usage_before` and `usage_after` are the host's storage counter
    /// before and after the new record was written; their difference is
    /// booked on the user. With `registration_only` the user keeps the least
    /// rent and the rest of the deposit is handed back; it is returned.
    /// Refused, with nothing changed, where the deposit is less than the
    /// least rent, the identifier has no name, the user is there already, or
    /// the rent does not cover the bytes of the record.
    pub fn internal_create_account(
        &mut self,
        id: &Id,
        storage_deposit: YoctoNear,
        registration_only: bool,
        now: u64,
        usage_before: StorageUsage,
        usage_after: StorageUsage,
    ) -> (r: Result<YoctoNear, StorageError>)
        requires
            old(self).wf(),
        ensures
            final(self).wf(),
            final(self).same_admin(old(self)),
            match Self::spec_create(
                old(self).accounts(),
                *id,
                storage_deposit,
                registration_only,
                now,
                usage_before,
                usage_after,
            ) {
                Ok((next, refund)) => r is Ok && final(self).accounts() == next && r->Ok_0@
                    == refund,
                Err(e) => r is Err && r->Err_0 == e && final(self).accounts() == old(
                    self,
                ).accounts(),
            },
    {
        let prepared: NewAccount = match self.prepare_account(
            id,
            storage_deposit,
            registration_only,
            now,
        ) {
            Ok(prepared) => prepared,
            Err(e) => {
                return Err(e);
            },
        };
        let mut account: User = prepared.account;
        let refund: YoctoNear = prepared.refund;
        if let Err(e) = account.storage_tracker.start(usage_before) {
            return Err(StorageError::Tracker(e));
        }
        if let Err(e) = account.storage_tracker.stop(usage_after) {
            return Err(StorageError::Tracker(e));
        }
        match self.internal_set_account(id, account) {
            Ok(_) => Ok(refund),
            Err(e) => Err(e),
        }
    }

    /// What a deposit for storage gives: the users afterwards and what of
    /// the deposit goes back to the caller.
    pub open spec fn spec_storage_deposit(
        accounts: Accounts,
        id: Id,
        registration_only: bool,
        amount: YoctoNear,
        now: u64,
        usage_before: StorageUsage,
        usage_after: StorageUsage,
    ) -> Result<(Accounts, u128), StorageError> {
        if accounts.contains_key(id@) {
            if registration_only {
                Ok((accounts, amount.0))
            } else {
                match Self::spec_deposit(accounts, id@, amount) {
                    Ok(next) => Ok((next, 0)),
                    Err(e) => Err(e),
                }
            }
        } else {
            Self::spec_create(
                accounts,
                id,
                amount,
                registration_only,
                now,
                usage_before,
                usage_after,
            )
        }
    }

    /// Takes a deposit for the storage of `account_id`, or of the caller
    /// where no account is given. A user who is registered gets the deposit
    /// added to the rent, or, with `registration_only`, handed back whole. A
    /// user who is not registered is registered with it. Returns the storage
    /// balance of the user afterwards and what goes back to the caller.
    pub fn storage_deposit(
        &mut self,
        predecessor_id: &Id,
        amount: YoctoNear,
        account_id: Option<Id>,
        registration_only: Option<bool>,
        now: u64,
        usage_before: StorageUsage,
        usage_after: StorageUsage,
    ) -> (r: Result<(StorageBalance, YoctoNear), StorageError>)
        requires
            old(self).wf(),
        ensures
            final(self).wf(),
            final(self).same_admin(old(self)),
            match Self::spec_storage_deposit(
                old(self).accounts(),
                or_keep(account_id, *predecessor_id),
                or_keep(registration_only, false),
                amount,
                now,
                usage_before,
                usage_after,
            ) {
                Ok((next, refund)) => {
                    &&& r is Ok
                    &&& final(self).accounts() == next
                    &&& r->Ok_0.0 == balance_of(next[or_keep(account_id, *predecessor_id)@])
                    &&& r->Ok_0.1@ == refund
                },
                Err(e) => r is Err && r->Err_0 == e && final(self).accounts() == old(
                    self,
                ).accounts(),
            },
    {
        let id: Id = match account_id {
            Some(id) => id,
            None => predecessor_id.clone(),
        };
        let registration_only: bool = match registration_only {
            Some(flag) => flag,
            None => false,
        };
        let refund: YoctoNear = if self.users.contains_key(id.as_str()) {
            if registration_only {
                amount
            } else {
                if let Err(e) = self.internal_deposit_storage(&id, amount) {
                    return Err(e);
                }
                YoctoNear(0)
            }
        } else {
            match self.internal_create_account(
                &id,
                amount,
                registration_only,
                now,
                usage_before,
                usage_after,
            ) {
                Ok(refund) => refund,
                Err(e) => {
                    return Err(e);
                },
            }
        };
        match self.internal_storage_balance_of(&id) {
            Some(balance) => Ok((balance, refund)),
            None => vstd::pervasive::unreached(),
        }
    }

    /// Answers a request of the caller to withdraw rent. The call has to
    /// carry one yoctoNEAR and the caller has to be registered. No rent is
    /// ever paid out this way: a request for more than nothing is refused,
    /// any other is answered with the caller's storage balance.
    pub fn storage_withdraw(&self, predecessor_id: &Id, attached_deposit: u128, amount: Option<YoctoNear>) -> (r:
        Result<StorageBalance, StorageError>)
        ensures
            r == (if attached_deposit != 1 {
                Err::<StorageBalance, StorageError>(StorageError::RequiresOneYocto)
            } else if !self.accounts().contains_key(predecessor_id@) {
                Err(StorageError::NotRegistered)
            } else if amount is Some && amount->0@ > 0 {
                Err(StorageError::AmountExceedsAvailable)
            } else {
                Ok(balance_of(self.accounts()[predecessor_id@]))
            }),
    {
        if attached_deposit != 1 {
            return Err(StorageError::RequiresOneYocto);
        }
        match self.internal_storage_balance_of(predecessor_id) {
            Some(storage_balance) => match amount {
                Some(amount) => if amount.as_yoctonear() > 0 {
                    Err(StorageError::AmountExceedsAvailable)
                } else {
                    Ok(storage_balance)
                },
                None => Ok(storage_balance),
            },
            None => Err(StorageError::NotRegistered),
        }
    }

    /// Users cannot be unregistered: every request is refused.
    pub fn storage_unregister(&mut self, force: Option<bool>) -> (r: Result<bool, StorageError>)
        ensures
            r == Err::<bool, StorageError>(StorageError::CannotUnregister),
            *final(self) == *old(self),
    {
        Err(StorageError::CannotUnregister)
    }
}

impl ArtSpot {
    /// The roles that `predecessor_id` may give, of those named.
    pub fn parse_roles(&self, predecessor_id: &Id, roles: &Vec<String>) -> (r: Result<
        Vec<Role>,
        StorageError,
    >)
        ensures
            match spec_roles(
                names(roles@),
                self.allowed().contains(predecessor_id@),
                Self::role_refusal(self.accounts(), predecessor_id@, Role::Admin),
            ) {
                Ok(parsed) => r is Ok && r->Ok_0@ == parsed,
                Err(e) => r is Err && r->Err_0 == e,
            },
    {
        let ghost allowlisted = self.allowed().contains(predecessor_id@);
        let ghost admin = Self::role_refusal(self.accounts(), predecessor_id@, Role::Admin);
        let mut new_roles: Vec<Role> = Vec::new();
        let mut i: usize = 0;
        while i < roles.len()
            invariant
                i <= roles.len(),
                allowlisted == self.allowed().contains(predecessor_id@),
                admin == Self::role_refusal(self.accounts(), predecessor_id@, Role::Admin),
                spec_roles(names(roles@).take(i as int), allowlisted, admin) == Ok::<
                    Seq<Role>,
                    StorageError,
                >(new_roles@),
            decreases roles.len() - i,
        {
            proof {
                let upto = names(roles@).take(i + 1);
                assert(upto.drop_last() =~= names(roles@).take(i as int));
                if spec_roles(upto, allowlisted, admin) is Err {
                    lemma_roles_stay_refused(names(roles@), i + 1, allowlisted, admin);
                }
            }
            let new_role: Role = match Role::from_name(roles[i].as_str()) {
                Some(role) => role,
                None => {
                    return Err(StorageError::InvalidRole);
                },
            };
            if new_role == Role::Admin {
                if let Err(e) = self.assert_allowlisted(predecessor_id) {
                    return Err(e);
                }
            }
            if new_role == Role::Moderator {
                if let Err(e) = self.assert_admin(predecessor_id) {
                    return Err(e);
                }
            }
            new_roles.push(new_role);
            i += 1;
        }
        assert(names(roles@).take(i as int) =~= names(roles@));
        Ok(new_roles)
    }

    /// What an update of a user's profile gives: the users afterwards.
    pub open spec fn spec_update(
        accounts: Accounts,
        key: Seq<char>,
        change: ProfileChange,
        usage_before: StorageUsage,
        usage_after: StorageUsage,
    ) -> Result<Accounts, StorageError> {
        if !accounts.contains_key(key) {
            Err(StorageError::NotRegistered)
        } else {
            spec_set_account(
                accounts,
                key,
                UserView {
                    storage_tracker: Self::measured(usage_before, usage_after),
                    ..change.on(accounts[key])
                },
            )
        }
    }

    /// The changes that a request asks for, where the caller may make
    /// them: the fields as they are given, the roles as their names read.
    pub open spec fn requested_change(
        accounts: Accounts,
        allowlisted: bool,
        caller: Seq<char>,
        request: ProfileRequest,
    ) -> Result<ProfileChange, StorageError> {
        let fields = ProfileChange {
            email: request.email,
            name: request.name,
            bio: request.bio,
            avatar: request.avatar,
            cover: request.cover,
            roles: None,
        };
        match request.roles {
            None => Ok(fields),
            Some(role_names) => match spec_roles(
                role_names,
                allowlisted,
                Self::role_refusal(accounts, caller, Role::Admin),
            ) {
                Err(e) => Err(e),
                Ok(roles) => Ok(ProfileChange { roles: Some(roles), ..fields }),
            },
        }
    }

    /// The record of the user under `key` with the changes that a request
    /// asks for; or why the request is refused.
    pub open spec fn spec_prepare_update(
        accounts: Accounts,
        allowlisted: bool,
        caller: Seq<char>,
        key: Seq<char>,
        request: ProfileRequest,
    ) -> Result<UserView, StorageError> {
        if !accounts.contains_key(key) {
            Err(StorageError::NotRegistered)
        } else {
            match Self::requested_change(accounts, allowlisted, caller, request) {
                Err(e) => Err(e),
                Ok(change) => Ok(change.on(accounts[key])),
            }
        }
    }

    /// What a request to update a profile gives: the users afterwards.
    pub open spec fn spec_update_account(
        accounts: Accounts,
        allowlisted: bool,
        caller: Seq<char>,
        key: Seq<char>,
        request: ProfileRequest,
        usage_before: StorageUsage,
        usage_after: StorageUsage,
    ) -> Result<Accounts, StorageError> {
        if !accounts.contains_key(key) {
            Err(StorageError::NotRegistered)
        } else {
            match Self::requested_change(accounts, allowlisted, caller, request) {
                Err(e) => Err(e),
                Ok(change) => Self::spec_update(accounts, key, change, usage_before, usage_after),
            }
        }
    }

    /// Makes the changed record of the user `id`, to be written and then
    /// put with `internal_set_account`: every field that is given replaces
    /// the one kept. Roles are given by name; the role of an admin may be
    /// given by a caller on the allowlist, that of a moderator by an admin.
    /// Refused for a user who is not registered and for roles that the
    /// caller may not give.
    pub fn prepare_update(
        &self,
        predecessor_id: &Id,
        id: &Id,
        email: Option<String>,
        name: Option<String>,
        bio: Option<String>,
        avatar: Option<String>,
        cover: Option<String>,
        roles: Option<Vec<String>>,
    ) -> (r: Result<User, StorageError>)
        ensures
            match Self::spec_prepare_update(
                self.accounts(),
                self.allowed().contains(predecessor_id@),
                predecessor_id@,
                id@,
                ProfileRequest::of(email, name, bio, avatar, cover, roles),
            ) {
                Ok(user) => r is Ok && r->Ok_0@ == user,
                Err(e) => r is Err && r->Err_0 == e,
            },
    {
        let mut user: User = match self.internal_unwrap_account(id) {
            Ok(user) => user,
            Err(e) => {
                return Err(e);
            },
        };
        if let Some(email) = email {
            user.email = email;
        }
        if let Some(name) = name {
            user.name = name;
        }
        if let Some(bio) = bio {
            user.bio = Some(bio);
        }
        if let Some(avatar) = avatar {
            user.avatar = Some(avatar);
        }
        if let Some(cover) = cover {
            user.cover = Some(cover);
        }
        if let Some(roles) = roles {
            match self.parse_roles(predecessor_id, &roles) {
                Ok(new_roles) => {
                    user.roles = new_roles;
                },
                Err(e) => {
                    return Err(e);
                },
            }
        }
        Ok(user)
    }

    /// Changes the profile of the user `id`: every field that is given
    /// replaces the one kept. Roles are given by name; the role of an admin
    /// may be given by a caller on the allowlist, that of a moderator by an
    /// admin. `usage_before` and `usage_after` are the host's storage
    /// counter before and after the changed record was written; their
    /// difference is booked on the user. Refused, with nothing changed, for
    /// a user who is not registered, for roles that the caller may not give,
    /// and where the rent of the user does not cover the changed record.
    pub fn update_account(
        &mut self,
        predecessor_id: &Id,
        id: &Id,
        email: Option<String>,
        name: Option<String>,
        bio: Option<String>,
        avatar: Option<String>,
        cover: Option<String>,
        roles: Option<Vec<String>>,
        usage_before: StorageUsage,
        usage_after: StorageUsage,
    ) -> (r: Result<(), StorageError>)
        requires
            old(self).wf(),
        ensures
            final(self).wf(),
            final(self).same_admin(old(self)),
            r is Err ==> final(self).accounts() == old(self).accounts(),
            Self::answer(r, final(self).accounts()) == Self::spec_update_account(
                old(self).accounts(),
                old(self).allowed().contains(predecessor_id@),
                predecessor_id@,
                id@,
                ProfileRequest::of(email, name, bio, avatar, cover, roles),
                usage_before,
                usage_after,
            ),
    {
        let mut user: User = match self.prepare_update(
            predecessor_id,
            id,
            email,
            name,
            bio,
            avatar,
            cover,
            roles,
        ) {
            Ok(user) => user,
            Err(e) => {
                return Err(e);
            },
        };
        if let Err(e) = user.storage_tracker.start(usage_before) {
            return Err(StorageError::Tracker(e));
        }
        if let Err(e) = user.storage_tracker.stop(usage_after) {
            return Err(StorageError::Tracker(e));
        }
        match self.internal_set_account(id, user) {
            Ok(_) => Ok(()),
            Err(e) => Err(e),
        }
    }

    /// How long new code has to be staged before it is put in place.
    pub fn staging_duration(&self) -> (r: Duration)
        ensures
            r == self.staging_time(),
    {
        self.staging_duration
    }

    /// The time for which new code is staged.
    pub fn staging_timestamp(&self) -> (r: Timestamp)
        ensures
            r == self.staged_for(),
    {
        self.staging_timestamp
    }

    /// Stages new code for `timestamp`. Only the owner may do so, and
    /// `timestamp` has to be later than the staging time after `now`, the
    /// time of the block.
    pub fn stage(&mut self, predecessor_id: &Id, now: Timestamp, timestamp: Timestamp) -> (r: Result<
        (),
        StorageError,
    >)
        ensures
            final(self).accounts() == old(self).accounts(),
            final(self).owner_id() == old(self).owner_id(),
            final(self).allowed_ids() == old(self).allowed_ids(),
            final(self).staging_time() == old(self).staging_time(),
            r == (if predecessor_id@ != old(self).owner_text() {
                Err::<(), StorageError>(StorageError::NotOwner)
            } else if now + old(self).staging_time() > Timestamp::MAX {
                Err(StorageError::TimeOverflow)
            } else if now + old(self).staging_time() >= timestamp {
                Err(StorageError::StagingTooShort)
            } else {
                Ok(())
            }),
            r is Ok ==> final(self).staged_for() == timestamp,
            r is Err ==> final(self).staged_for() == old(self).staged_for(),
    {
        if let Err(e) = self.assert_owner(predecessor_id) {
            return Err(e);
        }
        let earliest: Timestamp = match now.checked_add(self.staging_duration) {
            Some(earliest) => earliest,
            None => {
                return Err(StorageError::TimeOverflow);
            },
        };
        if earliest >= timestamp {
            return Err(StorageError::StagingTooShort);
        }
        self.staging_timestamp = timestamp;
        Ok(())
    }

    /// Whether staged code may be put in place at `now`, the time of the
    /// block. Only the owner may do so, and not after the time the code was
    /// staged for.
    pub fn deploy(&self, predecessor_id: &Id, now: Timestamp) -> (r: Result<(), StorageError>)
        ensures
            r == (if predecessor_id@ != self.owner_text() {
                Err::<(), StorageError>(StorageError::NotOwner)
            } else if self.staged_for() < now {
                Err(StorageError::DeployTooEarly)
            } else {
                Ok(())
            }),
    {
        if let Err(e) = self.assert_owner(predecessor_id) {
            return Err(e);
        }
        if self.staging_timestamp < now {
            return Err(StorageError::DeployTooEarly);
        }
        Ok(())
    }
}

/// Roles that are refused stay refused when more names follow.
pub proof fn lemma_roles_stay_refused(
    role_names: Seq<Seq<char>>,
    upto: int,
    allowlisted: bool,
    admin: Option<StorageError>,
)
    requires
        0 <= upto <= role_names.len(),
        spec_roles(role_names.take(upto), allowlisted, admin) is Err,
    ensures
        spec_roles(role_names, allowlisted, admin) == spec_roles(
            role_names.take(upto),
            allowlisted,
            admin,
        ),
    decreases role_names.len() - upto,
{
    if upto < role_names.len() {
        assert(role_names.take(upto + 1).drop_last() =~= role_names.take(upto));
        lemma_roles_stay_refused(role_names, upto + 1, allowlisted, admin);
    } else {
        assert(role_names.take(upto) =~= role_names);
    }
}

/// The prefixes under which the contract keeps its collections.
#[derive(Debug, Clone, Copy, PartialEq, Eq, Structural)]
pub enum StorageKey {
    Users,
    Allowlist,
}

impl StorageKey {
    /// The bytes of the prefix: the place of the key among the keys.
    pub fn into_storage_key(self) -> (r: Vec<u8>)
        ensures
            r@ == seq![
                match self {
                    StorageKey::Users => 0u8,
                    StorageKey::Allowlist => 1u8,
                },
            ],
    {
        let mut r: Vec<u8> = Vec::new();
        r.push(
            match self {
                StorageKey::Users => 0,
                StorageKey::Allowlist => 1,
            },
        );
        r
    }
}

/// What is to be done once the creation of an account has ended.
#[derive(Debug, Clone, Copy, PartialEq, Eq, Structural)]
pub struct AccountCreated {
    /// Whether the account was created.
    pub creation_succeeded: bool,
    /// What goes back to the account that asked for the creation.
    pub refund: YoctoNear,
}

impl ArtSpot {
    /// The name of the account that `create_contract` makes: the prefix, a
    /// dot, the name of the contract's own account.
    pub open spec fn subaccount(prefix: Seq<char>, current_account: Seq<char>) -> Seq<char> {
        prefix + "."@ + current_account
    }

    /// Decides whether a user account may be created for `id` with the
    /// deposit that came with the call, and returns the identifier. Only an
    /// account on the allowlist may create users, and `id` has to be a valid
    /// identifier. The deposit goes to the new account.
    pub fn create_account(&self, predecessor_id: &Id, id: &str) -> (r: Result<Id, StorageError>)
        ensures
            !self.allowed().contains(predecessor_id@) ==> r is Err && r->Err_0
                == StorageError::NotAllowlisted,
            self.allowed().contains(predecessor_id@) ==> (match crate::id::spec_new_error(id@) {
                Some(_) => r is Err && r->Err_0 == StorageError::InvalidId,
                None => r is Ok && r->Ok_0@ == crate::id::spec_classify(id@).0 && r->Ok_0.1
                    == crate::id::spec_classify(id@).1,
            }),
    {
        if let Err(e) = self.assert_allowlisted(predecessor_id) {
            return Err(e);
        }
        match Id::new(id) {
            Ok(account_id) => Ok(account_id),
            Err(_) => Err(StorageError::InvalidId),
        }
    }

    /// Decides what follows the creation of an account. Only the contract
    /// itself may call this. Where the creation failed, the deposit goes
    /// back to the account that asked for it.
    pub fn on_account_created(
        predecessor_id: &Id,
        current_id: &Id,
        creation_succeeded: bool,
        amount: YoctoNear,
    ) -> (r: Result<AccountCreated, StorageError>)
        ensures
            predecessor_id@ != current_id@ ==> r == Err::<AccountCreated, StorageError>(
                StorageError::NotSelf,
            ),
            predecessor_id@ == current_id@ ==> r == Ok::<AccountCreated, StorageError>(
                AccountCreated {
                    creation_succeeded,
                    refund: if creation_succeeded {
                        YoctoNear(0)
                    } else {
                        amount
                    },
                },
            ),
    {
        if let Err(e) = Self::assert_self(predecessor_id, current_id) {
            return Err(e);
        }
        Ok(
            AccountCreated {
                creation_succeeded,
                refund: if creation_succeeded {
                    YoctoNear(0)
                } else {
                    amount
                },
            },
        )
    }

    /// Decides whether a contract of `code_len` bytes may be put under the
    /// name `prefix` below the contract's own account, and returns the name
    /// of the new account. Only an account on the allowlist may do so, the
    /// name has to be a valid account name, and the deposit attached has to
    /// pay for the bytes of the code.
    pub fn create_contract(
        &self,
        predecessor_id: &Id,
        current_account: &str,
        attached: YoctoNear,
        prefix: &str,
        code_len: usize,
    ) -> (r: Result<String, StorageError>)
        ensures
            match r {
                Ok(account_id) => account_id@ == Self::subaccount(prefix@, current_account@),
                Err(_) => true,
            },
            !self.allowed().contains(predecessor_id@) ==> r is Err && r->Err_0
                == StorageError::NotAllowlisted,
            self.allowed().contains(predecessor_id@) ==> (if !spec_valid_account_id(
                vstd::utf8::encode_utf8(Self::subaccount(prefix@, current_account@)),
            ) {
                r is Err && r->Err_0 == StorageError::InvalidSubaccount
            } else if attached@ < crate::yocto_near::spec_saturating_mul(
                STORAGE_COST_PER_BYTE,
                code_len as u128,
            ) {
                r is Err && r->Err_0 == StorageError::InsufficientDeposit
            } else {
                r is Ok
            }),
    {
        if let Err(e) = self.assert_allowlisted(predecessor_id) {
            return Err(e);
        }
        let mut account_id: String = prefix.to_owned();
        account_id.append(".");
        account_id.append(current_account);
        if !is_valid_account_id(account_id.as_str().as_bytes()) {
            return Err(StorageError::InvalidSubaccount);
        }
        let minimum_needed: YoctoNear = storage_byte_cost().saturating_mul(code_len as u128);
        if attached.as_yoctonear() < minimum_needed.as_yoctonear() {
            return Err(StorageError::InsufficientDeposit);
        }
        Ok(account_id)
    }
}

/// One operation on the users of the ledger.
pub enum StorageOp {
    /// A record is put under a key, its meter booked.
    Put { key: Seq<char>, user: UserView },
    /// A user is registered.
    Create {
        id: Id,
        storage_deposit: YoctoNear,
        registration_only: bool,
        now: u64,
        usage_before: StorageUsage,
        usage_after: StorageUsage,
    },
    /// Rent is added.
    Deposit { key: Seq<char>, amount: YoctoNear },
    /// Rent is taken back.
    Withdraw { key: Seq<char>, asked: Option<YoctoNear> },
    /// A profile is changed.
    Update {
        key: Seq<char>,
        change: ProfileChange,
        usage_before: StorageUsage,
        usage_after: StorageUsage,
    },
}

/// The users after `op`; an operation that is refused leaves them as they
/// were.
pub open spec fn storage_step(accounts: Accounts, op: StorageOp) -> Accounts {
    match op {
        StorageOp::Put { key, user } => match spec_set_account(accounts, key, user) {
            Ok(next) => next,
            Err(_) => accounts,
        },
        StorageOp::Create {
            id,
            storage_deposit,
            registration_only,
            now,
            usage_before,
            usage_after,
        } => match ArtSpot::spec_create(
            accounts,
            id,
            storage_deposit,
            registration_only,
            now,
            usage_before,
            usage_after,
        ) {
            Ok((next, _)) => next,
            Err(_) => accounts,
        },
        StorageOp::Deposit { key, amount } => match ArtSpot::spec_deposit(accounts, key, amount) {
            Ok(next) => next,
            Err(_) => accounts,
        },
        StorageOp::Withdraw { key, asked } => match ArtSpot::spec_withdraw(accounts, key, asked) {
            Ok((next, _)) => next,
            Err(_) => accounts,
        },
        StorageOp::Update { key, change, usage_before, usage_after } => match ArtSpot::spec_update(
            accounts,
            key,
            change,
            usage_before,
            usage_after,
        ) {
            Ok(next) => next,
            Err(_) => accounts,
        },
    }
}

/// The users after all of `ops`, in order.
pub open spec fn storage_run(accounts: Accounts, ops: Seq<StorageOp>) -> Accounts
    decreases ops.len(),
{
    if ops.len() == 0 {
        accounts
    } else {
        storage_step(storage_run(accounts, ops.drop_last()), ops.last())
    }
}

/// Putting one record with covered rent and an empty meter into a ledger
/// keeps the storage invariant.
pub proof fn lemma_insert_keeps_cover(accounts: Accounts, key: Seq<char>, user: UserView)
    requires
        all_covered(accounts),
        covered(user.storage_balance, user.used_bytes),
        user.storage_tracker == StorageTracker::spec_new(),
    ensures
        all_covered(accounts.insert(key, user)),
{
}

/// Every single operation keeps the storage invariant: an operation that
/// would break it is refused and changes nothing.
pub proof fn lemma_step_keeps_cover(accounts: Accounts, op: StorageOp)
    requires
        all_covered(accounts),
    ensures
        all_covered(storage_step(accounts, op)),
{
}

/// The storage invariant: after any sequence of operations on a ledger
/// that keeps it, the rent of every user covers the bytes the user uses.
pub proof fn lemma_storage_invariant(accounts: Accounts, ops: Seq<StorageOp>)
    requires
        all_covered(accounts),
    ensures
        all_covered(storage_run(accounts, ops)),
        forall|key: Seq<char>| #[trigger]
            storage_run(accounts, ops).contains_key(key) ==> storage_run(
                accounts,
                ops,
            )[key].used_bytes * STORAGE_COST_PER_BYTE <= storage_run(
                accounts,
                ops,
            )[key].storage_balance,
    decreases ops.len(),
{
    if ops.len() > 0 {
        lemma_storage_invariant(accounts, ops.drop_last());
    }
}

/// The bytes that a user uses follow the meter: rent that goes in or out
/// and the registration of another user leave them as they are, and an
/// update of the user's profile moves them by what the host's storage
/// counter moved while the record was written. Only a record that is put
/// directly brings a count of its own.
pub proof fn lemma_used_bytes_follow_meter(accounts: Accounts, op: StorageOp, key: Seq<char>)
    requires
        all_covered(accounts),
        accounts.contains_key(key),
        !(op is Put),
    ensures
        storage_step(accounts, op).contains_key(key),
        match op {
            StorageOp::Update { key: updated, change, usage_before, usage_after } => if updated
                == key && ArtSpot::spec_update(
                accounts,
                updated,
                change,
                usage_before,
                usage_after,
            ) is Ok {
                storage_step(accounts, op)[key].used_bytes == accounts[key].used_bytes
                    + usage_after - usage_before
            } else {
                storage_step(accounts, op)[key].used_bytes == accounts[key].used_bytes
            },
            _ => storage_step(accounts, op)[key].used_bytes == accounts[key].used_bytes,
        },
{
}

} // verus!
