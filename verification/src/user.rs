//! The record that ArtSpot keeps of a user, and the roles a user can have.

use vstd::prelude::*;
use vstd::string::*;
use crate::id::{Id, IdType};
use crate::storage_tracker::{StorageTracker, StorageUsage};
use crate::text::{opt_text, same_text};
use crate::yocto_near::YoctoNear;

verus! {

/// What a user may do on ArtSpot.
#[derive(Debug, Clone, Copy, PartialEq, Eq, Structural, PartialOrd, Ord, Hash)]
pub enum Role {
    Admin,
    Contract,
    Moderator,
    Developer,
    Artist,
    Collector,
}

impl Role {
    /// The name of the role.
    pub open spec fn spec_name(self) -> Seq<char> {
        match self {
            Role::Admin => "Admin"@,
            Role::Contract => "Contract"@,
            Role::Moderator => "Moderator"@,
            Role::Developer => "Developer"@,
            Role::Artist => "Artist"@,
            Role::Collector => "Collector"@,
        }
    }

    /// The role of the given name, if there is one.
    pub open spec fn spec_from_name(name: Seq<char>) -> Option<Role> {
        if name == "Admin"@ {
            Some(Role::Admin)
        } else if name == "Moderator"@ {
            Some(Role::Moderator)
        } else if name == "Contract"@ {
            Some(Role::Contract)
        } else if name == "Developer"@ {
            Some(Role::Developer)
        } else if name == "Artist"@ {
            Some(Role::Artist)
        } else if name == "Collector"@ {
            Some(Role::Collector)
        } else {
            None
        }
    }

    /// The number that stands for the role.
    pub open spec fn spec_code(self) -> u8 {
        match self {
            Role::Admin => 0,
            Role::Moderator => 1,
            Role::Developer => 2,
            Role::Artist => 3,
            Role::Collector => 4,
            Role::Contract => 5,
        }
    }

    /// The name of the role.
    pub fn to_string(&self) -> (r: String)
        ensures
            r@ == self.spec_name(),
    {
        match self {
            Role::Admin => "Admin".to_owned(),
            Role::Contract => "Contract".to_owned(),
            Role::Moderator => "Moderator".to_owned(),
            Role::Developer => "Developer".to_owned(),
            Role::Artist => "Artist".to_owned(),
            Role::Collector => "Collector".to_owned(),
        }
    }

    /// The role of the given name; `None` for a name that no role has.
    pub fn from_name(role: &str) -> (r: Option<Role>)
        ensures
            r == Self::spec_from_name(role@),
    {
        if same_text(role, "Admin") {
            Some(Role::Admin)
        } else if same_text(role, "Moderator") {
            Some(Role::Moderator)
        } else if same_text(role, "Contract") {
            Some(Role::Contract)
        } else if same_text(role, "Developer") {
            Some(Role::Developer)
        } else if same_text(role, "Artist") {
            Some(Role::Artist)
        } else if same_text(role, "Collector") {
            Some(Role::Collector)
        } else {
            None
        }
    }

    /// The number that stands for the role.
    pub fn code(self) -> (r: u8)
        ensures
            r == self.spec_code(),
    {
        match self {
            Role::Admin => 0,
            Role::Moderator => 1,
            Role::Developer => 2,
            Role::Artist => 3,
            Role::Collector => 4,
            Role::Contract => 5,
        }
    }

    /// The role that a number stands for; `None` for a number above five.
    pub fn from_code(role: u8) -> (r: Option<Role>)
        ensures
            role <= 5 ==> r is Some && r->0.spec_code() == role,
            role > 5 ==> r is None,
    {
        match role {
            0 => Some(Role::Admin),
            1 => Some(Role::Moderator),
            2 => Some(Role::Developer),
            3 => Some(Role::Artist),
            4 => Some(Role::Collector),
            5 => Some(Role::Contract),
            _ => None,
        }
    }

    /// Every role is found again by its number.
    pub proof fn lemma_code_round_trip(self)
        ensures
            self.spec_code() <= 5,
            forall|other: Role| other.spec_code() == self.spec_code() ==> other == self,
    {
    }
}

/// The record of a user.
#[derive(Debug)]
pub struct User {
    /// The rent that the user has paid in advance.
    pub storage_balance: YoctoNear,
    /// The bytes of storage that the user's data occupy.
    pub used_bytes: StorageUsage,
    pub id: Id,
    pub email: String,
    pub name: String,
    pub bio: Option<String>,
    pub avatar: Option<String>,
    pub cover: Option<String>,
    pub created_at: u64,
    pub updated_at: u64,
    pub roles: Vec<Role>,
    pub verified: bool,
    /// The meter of the changes that are not yet booked on `used_bytes`. It
    /// is not part of what is stored.
    pub storage_tracker: StorageTracker,
}

/// The record of a user, as text and numbers.
pub struct UserView {
    pub storage_balance: u128,
    pub used_bytes: StorageUsage,
    pub id: Seq<char>,
    pub kind: IdType,
    pub email: Seq<char>,
    pub name: Seq<char>,
    pub bio: Option<Seq<char>>,
    pub avatar: Option<Seq<char>>,
    pub cover: Option<Seq<char>>,
    pub created_at: u64,
    pub updated_at: u64,
    pub roles: Seq<Role>,
    pub verified: bool,
    pub storage_tracker: StorageTracker,
}

/// `new` where one is given, `old` where none is.
pub open spec fn or_keep<T>(new: Option<T>, old: T) -> T {
    match new {
        Some(v) => v,
        None => old,
    }
}

/// `new` where one is given, `old` where none is.
pub open spec fn or_keep_opt<T>(new: Option<T>, old: Option<T>) -> Option<T> {
    match new {
        Some(v) => Some(v),
        None => old,
    }
}

impl UserView {
    /// The record of a user who has just been made: no rent, no bytes, the
    /// role of an artist, a fresh meter.
    pub open spec fn fresh(id: Id, email: Seq<char>, name: Seq<char>, now: u64) -> UserView {
        UserView {
            storage_balance: 0,
            used_bytes: 0,
            id: id@,
            kind: id.1,
            email,
            name,
            bio: None,
            avatar: None,
            cover: None,
            created_at: now,
            updated_at: now,
            roles: seq![Role::Artist],
            verified: false,
            storage_tracker: StorageTracker::spec_new(),
        }
    }
}

impl View for User {
    type V = UserView;

    open spec fn view(&self) -> UserView {
        UserView {
            storage_balance: self.storage_balance.0,
            used_bytes: self.used_bytes,
            id: self.id@,
            kind: self.id.1,
            email: self.email@,
            name: self.name@,
            bio: opt_text(self.bio),
            avatar: opt_text(self.avatar),
            cover: opt_text(self.cover),
            created_at: self.created_at,
            updated_at: self.updated_at,
            roles: self.roles@,
            verified: self.verified,
            storage_tracker: self.storage_tracker,
        }
    }
}

impl Clone for User {
    fn clone(&self) -> (r: Self)
        ensures
            r@ == self@,
    {
        let roles: Vec<Role> = self.roles.clone();
        User {
            storage_balance: self.storage_balance,
            used_bytes: self.used_bytes,
            id: self.id.clone(),
            email: self.email.clone(),
            name: self.name.clone(),
            bio: self.bio.clone(),
            avatar: self.avatar.clone(),
            cover: self.cover.clone(),
            created_at: self.created_at,
            updated_at: self.updated_at,
            roles,
            verified: self.verified,
            storage_tracker: self.storage_tracker.clone(),
        }
    }
}

impl User {
    /// The record of a new user. `now` is the time of the block in which
    /// the user is made.
    pub fn new(id: Id, email: String, name: String, now: u64) -> (r: Self)
        ensures
            r@ == UserView::fresh(id, email@, name@, now),
    {
        let mut roles: Vec<Role> = Vec::new();
        roles.push(Role::Artist);
        Self {
            storage_balance: YoctoNear(0),
            used_bytes: 0,
            id,
            email,
            name,
            bio: None,
            avatar: None,
            cover: None,
            created_at: now,
            updated_at: now,
            roles,
            verified: false,
            storage_tracker: StorageTracker::new(),
        }
    }

    /// Whether the user has the role.
    pub fn has_role(&self, role: Role) -> (r: bool)
        ensures
            r == self@.roles.contains(role),
    {
        let mut i: usize = 0;
        while i < self.roles.len()
            invariant
                i <= self.roles.len(),
                forall|j: int| 0 <= j < i ==> self.roles@[j] != role,
            decreases self.roles.len() - i,
        {
            if self.roles[i] == role {
                return true;
            }
            i += 1;
        }
        false
    }
}

impl From<Role> for u8 {
    fn from(role: Role) -> (r: u8) {
        role.code()
    }
}

impl vstd::std_specs::convert::FromSpecImpl<Role> for u8 {
    open spec fn obeys_from_spec() -> bool {
        true
    }

    open spec fn from_spec(role: Role) -> u8 {
        role.spec_code()
    }
}

} // verus!
