use art_spot::id::{Id, IdType};
use art_spot::storage::{
    storage_cost, ArtSpot, StorageBalance, StorageError, StorageKey, MIN_STORAGE_BALANCE,
    MIN_STORAGE_BYTES, STORAGE_COST_PER_BYTE,
};
use art_spot::storage_tracker::{StorageTracker, TrackerError};
use art_spot::user::{Role, User};
use art_spot::yocto_near::YoctoNear;

const NOW: u64 = 1_700_000_000_000_000_000;

fn id(text: &str) -> Id {
    Id::new(text).unwrap()
}

fn near(amount: u128) -> YoctoNear {
    YoctoNear::new(amount)
}

/// A contract of `owner` with the user `alice`, who paid the least rent and
/// uses 300 bytes.
fn contract_with_alice() -> ArtSpot {
    let mut contract = ArtSpot::new(id("owner"), 1000);
    let refund = contract
        .internal_create_account(&id("alice"), near(MIN_STORAGE_BALANCE), false, NOW, 5_000, 5_300)
        .unwrap();
    assert_eq!(refund, near(0));
    contract
}

fn covered(contract: &ArtSpot, who: &str) -> bool {
    let user = contract.internal_get_account(&id(who)).unwrap();
    user.used_bytes as u128 * STORAGE_COST_PER_BYTE <= user.storage_balance.as_yoctonear()
        && user.storage_tracker.is_empty()
}

#[test]
fn the_price_of_storage() {
    assert_eq!(STORAGE_COST_PER_BYTE, 10_000_000_000_000_000_000);
    assert_eq!(MIN_STORAGE_BYTES, 2000);
    assert_eq!(MIN_STORAGE_BALANCE, 2000 * STORAGE_COST_PER_BYTE);
    assert_eq!(storage_cost(0), near(0));
    assert_eq!(storage_cost(1), near(STORAGE_COST_PER_BYTE));
    assert_eq!(storage_cost(125), near(1_250_000_000_000_000_000_000));
    assert_eq!(storage_cost(u64::MAX), near(u64::MAX as u128 * STORAGE_COST_PER_BYTE));
    let contract = ArtSpot::new(id("owner"), 0);
    let bounds = contract.storage_balance_bounds();
    assert_eq!(bounds.min, near(20_000_000_000_000_000_000_000));
    assert_eq!(bounds.max, None);
}

#[test]
fn registration_books_the_bytes_of_the_record() {
    let contract = contract_with_alice();
    let alice = contract.internal_get_account(&id("alice")).unwrap();
    assert_eq!(alice.storage_balance, near(MIN_STORAGE_BALANCE));
    assert_eq!(alice.used_bytes, 300);
    assert_eq!(alice.id.as_str(), "alice");
    assert_eq!(alice.id.kind(), IdType::ArtSpot);
    assert_eq!(alice.email, "");
    assert_eq!(alice.name, "alice");
    assert_eq!((alice.bio, alice.avatar, alice.cover), (None, None, None));
    assert_eq!((alice.created_at, alice.updated_at), (NOW, NOW));
    assert_eq!(alice.roles, vec![Role::Artist]);
    assert!(!alice.verified);
    assert!(alice.storage_tracker.is_empty());
    assert_eq!(
        contract.internal_storage_balance_of(&id("alice")),
        Some(StorageBalance {
            total: near(MIN_STORAGE_BALANCE),
            available: near(MIN_STORAGE_BALANCE - 300 * STORAGE_COST_PER_BYTE),
        })
    );
    assert_eq!(contract.storage_balance_of(&id("bob")), None);
    assert!(contract.internal_get_account(&id("bob")).is_none());
    assert_eq!(contract.internal_unwrap_account(&id("bob")).err(), Some(StorageError::NotRegistered));
    assert!(covered(&contract, "alice"));
}

#[test]
fn registration_only_keeps_the_least_rent() {
    let mut contract = ArtSpot::new(id("owner"), 0);
    let refund = contract
        .internal_create_account(&id("bob"), near(MIN_STORAGE_BALANCE + 77), true, NOW, 10, 2_010)
        .unwrap();
    assert_eq!(refund, near(77));
    let bob = contract.internal_get_account(&id("bob")).unwrap();
    assert_eq!(bob.storage_balance, near(MIN_STORAGE_BALANCE));
    assert_eq!(bob.used_bytes, 2_000);
    assert_eq!(
        contract.internal_storage_balance_of(&id("bob")).unwrap().available,
        near(0)
    );
    assert!(covered(&contract, "bob"));
}

#[test]
fn registration_is_refused_without_a_trace() {
    let mut contract = contract_with_alice();
    let cases = [
        (id("bob"), MIN_STORAGE_BALANCE - 1, false, 0, 10, StorageError::InsufficientDeposit),
        (id("alice"), MIN_STORAGE_BALANCE, false, 0, 10, StorageError::AccountExists),
        (id("bob"), MIN_STORAGE_BALANCE, false, 0, 2_001, StorageError::NotEnoughStorageBalance),
        (id("bob"), 10 * MIN_STORAGE_BALANCE, true, 0, 2_001, StorageError::NotEnoughStorageBalance),
        (id("bob"), MIN_STORAGE_BALANCE, false, 10, 5, StorageError::AccountingBug),
        (
            id(&"0123456789abcdef".repeat(4)),
            MIN_STORAGE_BALANCE,
            false,
            0,
            10,
            StorageError::NoAccountName,
        ),
    ];
    for (who, deposit, only, before, after, error) in cases {
        let r = contract.internal_create_account(&who, near(deposit), only, NOW, before, after);
        assert_eq!(r, Err(error));
        assert!(contract.internal_get_account(&id("bob")).is_none());
        assert_eq!(contract.internal_get_account(&id("alice")).unwrap().used_bytes, 300);
    }
    assert!(StorageError::AccountExists.is_fatal());
    assert!(StorageError::AccountingBug.is_fatal());
    assert!(!StorageError::NotEnoughStorageBalance.is_fatal());
    assert!(!StorageError::InsufficientDeposit.is_fatal());
    assert_eq!(
        StorageError::InsufficientDeposit.message(),
        "The attached deposit is less than the minimum storage balance"
    );
    assert_eq!(StorageError::AccountExists.message(), "Internal bug. Account already exists.");
    assert_eq!(StorageError::AccountingBug.message(), "Internal storage accounting bug");
    assert_eq!(StorageError::NotEnoughStorageBalance.message(), "Not enough storage balance");
}

#[test]
fn a_record_is_booked_when_it_is_put() {
    let mut contract = contract_with_alice();
    let mut alice = contract.internal_get_account(&id("alice")).unwrap();
    alice.storage_tracker = StorageTracker { bytes_added: 50, bytes_released: 20, initial_storage_usage: None };
    assert_eq!(contract.internal_set_account(&id("alice"), alice), Ok(true));
    let alice = contract.internal_get_account(&id("alice")).unwrap();
    assert_eq!(alice.used_bytes, 330);
    assert!(alice.storage_tracker.is_empty());

    let mut released = alice.clone();
    released.storage_tracker = StorageTracker { bytes_added: 10, bytes_released: 340, initial_storage_usage: None };
    assert_eq!(contract.internal_set_account(&id("alice"), released), Ok(true));
    assert_eq!(contract.internal_get_account(&id("alice")).unwrap().used_bytes, 0);

    let mut too_much = contract.internal_get_account(&id("alice")).unwrap();
    too_much.storage_tracker = StorageTracker { bytes_added: 0, bytes_released: 1, initial_storage_usage: None };
    assert_eq!(contract.internal_set_account(&id("alice"), too_much), Err(StorageError::AccountingBug));

    let mut uncovered = contract.internal_get_account(&id("alice")).unwrap();
    uncovered.storage_tracker = StorageTracker { bytes_added: 2_001, bytes_released: 0, initial_storage_usage: None };
    assert_eq!(
        contract.internal_set_account(&id("alice"), uncovered),
        Err(StorageError::NotEnoughStorageBalance)
    );

    let mut exact = contract.internal_get_account(&id("alice")).unwrap();
    exact.storage_tracker = StorageTracker { bytes_added: 2_000, bytes_released: 0, initial_storage_usage: None };
    assert_eq!(contract.internal_set_account(&id("alice"), exact), Ok(true));
    assert_eq!(contract.internal_get_account(&id("alice")).unwrap().used_bytes, 2_000);

    let mut overflow = contract.internal_get_account(&id("alice")).unwrap();
    overflow.storage_tracker = StorageTracker { bytes_added: u64::MAX, bytes_released: 0, initial_storage_usage: None };
    assert_eq!(
        contract.internal_set_account(&id("alice"), overflow),
        Err(StorageError::UsedBytesOverflow)
    );

    let mut measuring = contract.internal_get_account(&id("alice")).unwrap();
    measuring.storage_tracker.start(5).unwrap();
    assert_eq!(
        contract.internal_set_account(&id("alice"), measuring),
        Err(StorageError::Tracker(TrackerError::NonTrackedChange))
    );
    assert_eq!(contract.internal_get_account(&id("alice")).unwrap().used_bytes, 2_000);
    assert!(covered(&contract, "alice"));

    let carol = User::new(id("carol"), String::new(), "carol".to_string(), NOW);
    assert_eq!(contract.internal_set_account(&id("carol"), carol), Ok(false));
    assert!(covered(&contract, "carol"));
    let mut poor = User::new(id("dave"), String::new(), "dave".to_string(), NOW);
    poor.used_bytes = 1;
    assert_eq!(
        contract.internal_set_account(&id("dave"), poor),
        Err(StorageError::NotEnoughStorageBalance)
    );
    assert!(contract.internal_get_account(&id("dave")).is_none());
}

#[test]
fn a_user_checks_its_own_cover() {
    let mut user = User::new(id("erin"), String::new(), "erin".to_string(), NOW);
    assert_eq!(user.assert_storage_covered(), Ok(()));
    user.used_bytes = 3;
    assert_eq!(user.assert_storage_covered(), Err(StorageError::NotEnoughStorageBalance));
    user.storage_balance = near(3 * STORAGE_COST_PER_BYTE - 1);
    assert_eq!(user.assert_storage_covered(), Err(StorageError::NotEnoughStorageBalance));
    assert_eq!(user.storage_balance().available, near(0));
    user.storage_balance = near(3 * STORAGE_COST_PER_BYTE);
    assert_eq!(user.assert_storage_covered(), Ok(()));
    user.storage_balance = near(3 * STORAGE_COST_PER_BYTE + 9);
    assert_eq!(
        user.storage_balance(),
        StorageBalance { total: near(3 * STORAGE_COST_PER_BYTE + 9), available: near(9) }
    );
    user.storage_tracker = StorageTracker { bytes_added: 1, bytes_released: 0, initial_storage_usage: None };
    assert_eq!(user.apply_tracker(), Err(StorageError::NotEnoughStorageBalance));
    assert_eq!(user.used_bytes, 3);
    assert_eq!(user.storage_tracker.bytes_added, 1);
    user.storage_tracker = StorageTracker { bytes_added: 1, bytes_released: 2, initial_storage_usage: None };
    assert_eq!(user.apply_tracker(), Ok(()));
    assert_eq!(user.used_bytes, 2);
    assert!(user.storage_tracker.is_empty());
    assert!(user.has_role(Role::Artist));
    assert!(!user.has_role(Role::Admin));
}

#[test]
fn rent_goes_in_and_out() {
    let mut contract = contract_with_alice();
    assert_eq!(contract.internal_deposit_storage(&id("bob"), near(5)), Err(StorageError::NotRegistered));
    assert_eq!(contract.internal_deposit_storage(&id("alice"), near(500)), Ok(()));
    let free = MIN_STORAGE_BALANCE + 500 - 300 * STORAGE_COST_PER_BYTE;
    assert_eq!(
        contract.internal_storage_balance_of(&id("alice")),
        Some(StorageBalance { total: near(MIN_STORAGE_BALANCE + 500), available: near(free) })
    );

    assert_eq!(
        contract.internal_storage_withdraw(&id("bob"), None),
        Err(StorageError::NotRegistered)
    );
    assert_eq!(
        contract.internal_storage_withdraw(&id("alice"), Some(near(free + 1))),
        Err(StorageError::AmountExceedsAvailable)
    );
    assert_eq!(
        contract.internal_storage_balance_of(&id("alice")).unwrap().total,
        near(MIN_STORAGE_BALANCE + 500)
    );
    let (balance, paid) = contract.internal_storage_withdraw(&id("alice"), Some(near(0))).unwrap();
    assert_eq!((balance.total, paid), (near(MIN_STORAGE_BALANCE + 500), near(0)));
    let (balance, paid) = contract.internal_storage_withdraw(&id("alice"), Some(near(500))).unwrap();
    assert_eq!(paid, near(500));
    assert_eq!(
        balance,
        StorageBalance { total: near(MIN_STORAGE_BALANCE), available: near(free - 500) }
    );
    assert!(covered(&contract, "alice"));
    let (balance, paid) = contract.internal_storage_withdraw(&id("alice"), None).unwrap();
    assert_eq!(paid, near(free - 500));
    assert_eq!(
        balance,
        StorageBalance { total: near(300 * STORAGE_COST_PER_BYTE), available: near(0) }
    );
    assert_eq!(contract.internal_storage_balance_of(&id("alice")), Some(balance));
    assert!(covered(&contract, "alice"));
    assert_eq!(
        contract.internal_storage_withdraw(&id("alice"), Some(near(1))),
        Err(StorageError::AmountExceedsAvailable)
    );
    assert_eq!(contract.internal_storage_withdraw(&id("alice"), None).unwrap().1, near(0));

    assert_eq!(contract.internal_deposit_storage(&id("alice"), near(u128::MAX)), Ok(()));
    assert_eq!(contract.internal_storage_balance_of(&id("alice")).unwrap().total, near(u128::MAX));
}

#[test]
fn deposits_for_storage() {
    let mut contract = contract_with_alice();
    // A new user: the caller, where no account is named.
    let (balance, refund) = contract
        .storage_deposit(&id("bob"), near(MIN_STORAGE_BALANCE + 9), None, None, NOW, 100, 150)
        .unwrap();
    assert_eq!(refund, near(0));
    assert_eq!(balance.total, near(MIN_STORAGE_BALANCE + 9));
    assert_eq!(balance.available, near(MIN_STORAGE_BALANCE + 9 - 50 * STORAGE_COST_PER_BYTE));
    // A new user, the account named, registration only.
    let (balance, refund) = contract
        .storage_deposit(
            &id("bob"),
            near(MIN_STORAGE_BALANCE + 9),
            Some(id("carol")),
            Some(true),
            NOW,
            100,
            150,
        )
        .unwrap();
    assert_eq!(refund, near(9));
    assert_eq!(balance.total, near(MIN_STORAGE_BALANCE));
    // A user who is there: registration only hands the deposit back.
    let (balance, refund) = contract
        .storage_deposit(&id("bob"), near(40), Some(id("carol")), Some(true), NOW, 0, 0)
        .unwrap();
    assert_eq!(refund, near(40));
    assert_eq!(balance.total, near(MIN_STORAGE_BALANCE));
    // A user who is there: the deposit is added.
    let (balance, refund) = contract
        .storage_deposit(&id("carol"), near(40), None, Some(false), NOW, 0, 9_999)
        .unwrap();
    assert_eq!(refund, near(0));
    assert_eq!(balance.total, near(MIN_STORAGE_BALANCE + 40));
    assert_eq!(contract.internal_get_account(&id("carol")).unwrap().used_bytes, 50);
    // Too little for a new user.
    let r = contract.storage_deposit(&id("dave"), near(1), None, None, NOW, 0, 1);
    assert_eq!(r, Err(StorageError::InsufficientDeposit));
    assert!(contract.internal_get_account(&id("dave")).is_none());
    for who in ["alice", "bob", "carol"] {
        assert!(covered(&contract, who));
    }
}

#[test]
fn storage_withdraw_of_a_user_never_pays() {
    let contract = contract_with_alice();
    let balance = contract.internal_storage_balance_of(&id("alice")).unwrap();
    assert_eq!(contract.storage_withdraw(&id("alice"), 0, None), Err(StorageError::RequiresOneYocto));
    assert_eq!(contract.storage_withdraw(&id("bob"), 1, None), Err(StorageError::NotRegistered));
    assert_eq!(
        contract.storage_withdraw(&id("alice"), 1, Some(near(1))),
        Err(StorageError::AmountExceedsAvailable)
    );
    assert_eq!(contract.storage_withdraw(&id("alice"), 1, Some(near(0))), Ok(balance));
    assert_eq!(contract.storage_withdraw(&id("alice"), 1, None), Ok(balance));
}

#[test]
fn users_cannot_be_unregistered() {
    let mut contract = contract_with_alice();
    assert_eq!(contract.storage_unregister(None), Err(StorageError::CannotUnregister));
    assert_eq!(contract.storage_unregister(Some(true)), Err(StorageError::CannotUnregister));
    assert!(contract.internal_get_account(&id("alice")).is_some());
    assert_eq!(StorageError::CannotUnregister.message(), "The account can't be unregistered");
}

#[test]
fn a_profile_is_updated_and_its_bytes_are_booked() {
    let mut contract = contract_with_alice();
    let r = contract.update_account(
        &id("alice"),
        &id("alice"),
        Some("alice@example.org".to_string()),
        None,
        Some("paints".to_string()),
        None,
        Some("cover.png".to_string()),
        Some(vec!["Collector".to_string(), "Developer".to_string()]),
        6_000,
        6_040,
    );
    assert_eq!(r, Ok(()));
    let alice = contract.internal_get_account(&id("alice")).unwrap();
    assert_eq!(alice.email, "alice@example.org");
    assert_eq!(alice.name, "alice");
    assert_eq!(alice.bio.as_deref(), Some("paints"));
    assert_eq!(alice.avatar, None);
    assert_eq!(alice.cover.as_deref(), Some("cover.png"));
    assert_eq!(alice.roles, vec![Role::Collector, Role::Developer]);
    assert_eq!(alice.used_bytes, 340);
    assert_eq!(alice.storage_balance, near(MIN_STORAGE_BALANCE));
    assert!(covered(&contract, "alice"));

    // A smaller record releases bytes; fields that are not given stay.
    let r = contract.update_account(
        &id("alice"),
        &id("alice"),
        None,
        Some("Alice".to_string()),
        None,
        Some("a.png".to_string()),
        None,
        None,
        6_040,
        6_000,
    );
    assert_eq!(r, Ok(()));
    let alice = contract.internal_get_account(&id("alice")).unwrap();
    assert_eq!(alice.email, "alice@example.org");
    assert_eq!(alice.name, "Alice");
    assert_eq!(alice.bio.as_deref(), Some("paints"));
    assert_eq!(alice.avatar.as_deref(), Some("a.png"));
    assert_eq!(alice.roles, vec![Role::Collector, Role::Developer]);
    assert_eq!(alice.used_bytes, 300);
}

#[test]
fn an_update_that_is_not_covered_changes_nothing() {
    let mut contract = contract_with_alice();
    let r = contract.update_account(
        &id("alice"),
        &id("alice"),
        Some("new@example.org".to_string()),
        None,
        None,
        None,
        None,
        Some(vec![]),
        0,
        1_701,
    );
    assert_eq!(r, Err(StorageError::NotEnoughStorageBalance));
    let alice = contract.internal_get_account(&id("alice")).unwrap();
    assert_eq!(alice.email, "");
    assert_eq!(alice.roles, vec![Role::Artist]);
    assert_eq!(alice.used_bytes, 300);
    assert!(covered(&contract, "alice"));

    let r = contract.update_account(&id("alice"), &id("alice"), None, None, None, None, None, Some(vec![]), 0, 1_700);
    assert_eq!(r, Ok(()));
    let alice = contract.internal_get_account(&id("alice")).unwrap();
    assert_eq!(alice.roles, vec![]);
    assert_eq!(alice.used_bytes, 2_000);
    assert!(covered(&contract, "alice"));

    let r = contract.update_account(&id("alice"), &id("bob"), None, None, None, None, None, None, 0, 0);
    assert_eq!(r, Err(StorageError::NotRegistered));
    let r = contract.update_account(&id("alice"), &id("alice"), None, None, None, None, None, None, 2_001, 0);
    assert_eq!(r, Err(StorageError::AccountingBug));
}

fn update_roles(contract: &mut ArtSpot, caller: &str, who: &str, roles: &[&str]) -> Result<(), StorageError> {
    contract.update_account(
        &id(caller),
        &id(who),
        None,
        None,
        None,
        None,
        None,
        Some(roles.iter().map(|r| r.to_string()).collect()),
        0,
        0,
    )
}

#[test]
fn roles_are_given_by_those_who_may() {
    let mut contract = contract_with_alice();
    contract
        .internal_create_account(&id("owner"), near(MIN_STORAGE_BALANCE), false, NOW, 0, 10)
        .unwrap();
    assert_eq!(update_roles(&mut contract, "alice", "alice", &["Painter"]), Err(StorageError::InvalidRole));
    assert_eq!(update_roles(&mut contract, "alice", "alice", &["admin"]), Err(StorageError::InvalidRole));
    assert_eq!(update_roles(&mut contract, "alice", "alice", &["Admin"]), Err(StorageError::NotAllowlisted));
    assert_eq!(update_roles(&mut contract, "alice", "alice", &["Moderator"]), Err(StorageError::MissingRole));
    assert_eq!(update_roles(&mut contract, "zed", "alice", &["Moderator"]), Err(StorageError::NotRegistered));
    // The first name that is refused decides.
    assert_eq!(
        update_roles(&mut contract, "alice", "alice", &["Artist", "Moderator", "Painter"]),
        Err(StorageError::MissingRole)
    );
    assert_eq!(
        update_roles(&mut contract, "alice", "alice", &["Artist", "Painter", "Admin"]),
        Err(StorageError::InvalidRole)
    );
    assert_eq!(contract.internal_get_account(&id("alice")).unwrap().roles, vec![Role::Artist]);
    // The owner is on the allowlist and may make admins.
    assert_eq!(update_roles(&mut contract, "owner", "owner", &["Admin", "Contract"]), Ok(()));
    assert_eq!(contract.assert_admin(&id("owner")), Ok(()));
    assert_eq!(contract.assert_role(&id("owner"), Role::Contract), Ok(()));
    assert_eq!(contract.assert_role(&id("owner"), Role::Artist), Err(StorageError::MissingRole));
    assert_eq!(contract.assert_admin(&id("alice")), Err(StorageError::MissingRole));
    assert_eq!(contract.assert_admin(&id("zed")), Err(StorageError::NotRegistered));
    // An admin may make moderators.
    assert_eq!(update_roles(&mut contract, "owner", "alice", &["Moderator", "Artist", "Collector"]), Ok(()));
    assert_eq!(
        contract.internal_get_account(&id("alice")).unwrap().roles,
        vec![Role::Moderator, Role::Artist, Role::Collector]
    );
    assert_eq!(
        contract.parse_roles(&id("owner"), &vec!["Admin".to_string(), "Developer".to_string()]),
        Ok(vec![Role::Admin, Role::Developer])
    );
    assert_eq!(contract.parse_roles(&id("alice"), &vec![]), Ok(vec![]));
}

#[test]
fn owner_and_allowlist() {
    let mut contract = ArtSpot::new(id("owner"), 1000);
    assert_eq!(contract.get_owner().as_str(), "owner");
    assert_eq!(contract.get_allowlist(), vec![id("owner")]);
    assert_eq!(contract.assert_owner(&id("owner")), Ok(()));
    assert_eq!(contract.assert_owner(&id("alice")), Err(StorageError::NotOwner));
    assert_eq!(contract.assert_allowlisted(&id("owner")), Ok(()));
    assert_eq!(contract.assert_allowlisted(&id("alice")), Err(StorageError::NotAllowlisted));
    assert_eq!(contract.add_to_allowlist(&id("alice"), id("alice")), Err(StorageError::NotOwner));
    assert_eq!(contract.add_to_allowlist(&id("owner"), id("alice")), Ok(()));
    assert_eq!(contract.get_allowlist(), vec![id("owner"), id("alice")]);
    assert_eq!(contract.assert_allowlisted(&id("alice")), Ok(()));
    assert_eq!(contract.set_owner(&id("alice"), id("alice")), Err(StorageError::NotOwner));
    assert_eq!(contract.get_owner().as_str(), "owner");
    assert_eq!(contract.set_owner(&id("owner"), id("alice")), Ok(()));
    assert_eq!(contract.get_owner().as_str(), "alice");
    assert_eq!(contract.assert_owner(&id("owner")), Err(StorageError::NotOwner));
    assert_eq!(ArtSpot::assert_self(&id("alice"), &id("alice")), Ok(()));
    assert_eq!(ArtSpot::assert_self(&id("alice"), &id("owner")), Err(StorageError::NotSelf));
    assert_eq!(StorageError::NotOwner.message(), "Only owner can call this method");
    assert_eq!(
        StorageError::NotAllowlisted.message(),
        "Only allowlisted accounts can call this method"
    );
}

#[test]
fn staging_new_code() {
    let mut contract = ArtSpot::new(id("owner"), 1000);
    assert_eq!(contract.staging_duration(), 1000);
    assert_eq!(contract.staging_timestamp(), 0);
    assert_eq!(contract.stage(&id("alice"), 50, 5_000), Err(StorageError::NotOwner));
    assert_eq!(contract.stage(&id("owner"), 50, 1_050), Err(StorageError::StagingTooShort));
    assert_eq!(contract.stage(&id("owner"), u64::MAX, 1_050), Err(StorageError::TimeOverflow));
    assert_eq!(contract.staging_timestamp(), 0);
    assert_eq!(contract.stage(&id("owner"), 50, 1_051), Ok(()));
    assert_eq!(contract.staging_timestamp(), 1_051);
    assert_eq!(contract.deploy(&id("alice"), 1_000), Err(StorageError::NotOwner));
    assert_eq!(contract.deploy(&id("owner"), 1_052), Err(StorageError::DeployTooEarly));
    assert_eq!(contract.deploy(&id("owner"), 1_051), Ok(()));
    assert_eq!(contract.deploy(&id("owner"), 0), Ok(()));
    assert!(StorageError::TimeOverflow.is_fatal());
}

#[test]
fn creating_accounts_and_contracts() {
    let mut contract = ArtSpot::new(id("owner"), 1000);
    assert_eq!(contract.create_account(&id("alice"), "bob").err(), Some(StorageError::NotAllowlisted));
    assert_eq!(contract.create_account(&id("owner"), "Bob").err(), Some(StorageError::InvalidId));
    assert_eq!(
        contract.create_account(&id("owner"), "bob.art-spot.near").err(),
        Some(StorageError::InvalidId)
    );
    let made = contract.create_account(&id("owner"), "bobart-spot.near").unwrap();
    assert_eq!((made.as_str(), made.kind()), ("bob", IdType::ArtSpot));

    let cost = STORAGE_COST_PER_BYTE;
    let r = contract.create_contract(&id("alice"), "art-spot.near", near(cost), "shop", 1);
    assert_eq!(r, Err(StorageError::NotAllowlisted));
    let r = contract.create_contract(&id("owner"), "art-spot.near", near(100 * cost), "shop", 100);
    assert_eq!(r, Ok("shop.art-spot.near".to_string()));
    let r = contract.create_contract(&id("owner"), "art-spot.near", near(100 * cost - 1), "shop", 100);
    assert_eq!(r, Err(StorageError::InsufficientDeposit));
    for prefix in ["Shop", "", "shop.", "-shop", "sh..op", "sh_-op", "shöp", &"a".repeat(51)] {
        let r = contract.create_contract(&id("owner"), "art-spot.near", near(u128::MAX), prefix, 0);
        assert_eq!(r, Err(StorageError::InvalidSubaccount));
    }
    for prefix in ["a", "sh-op_1.x", &"a".repeat(50)] {
        let r = contract.create_contract(&id("owner"), "art-spot.near", near(0), prefix, 0);
        assert_eq!(r, Ok(format!("{prefix}.art-spot.near")));
    }
    contract.add_to_allowlist(&id("owner"), id("alice")).unwrap();
    assert!(contract.create_contract(&id("alice"), "near", near(0), "x", 0).is_ok());

    let done = ArtSpot::on_account_created(&id("me"), &id("me"), true, near(5)).unwrap();
    assert_eq!((done.creation_succeeded, done.refund), (true, near(0)));
    let done = ArtSpot::on_account_created(&id("me"), &id("me"), false, near(5)).unwrap();
    assert_eq!((done.creation_succeeded, done.refund), (false, near(5)));
    assert_eq!(
        ArtSpot::on_account_created(&id("alice"), &id("me"), false, near(5)),
        Err(StorageError::NotSelf)
    );
}

#[test]
fn storage_keys_of_the_contract() {
    assert_eq!(StorageKey::Users.into_storage_key(), vec![0]);
    assert_eq!(StorageKey::Allowlist.into_storage_key(), vec![1]);
}

#[test]
fn a_record_is_prepared_before_it_is_written() {
    let mut contract = contract_with_alice();
    let made = contract.prepare_account(&id("bob"), near(MIN_STORAGE_BALANCE + 5), true, NOW).unwrap();
    assert_eq!(made.refund, near(5));
    assert_eq!(made.account.storage_balance, near(MIN_STORAGE_BALANCE));
    assert_eq!(made.account.name, "bob");
    assert_eq!(made.account.used_bytes, 0);
    assert!(made.account.storage_tracker.is_empty());
    assert!(contract.internal_get_account(&id("bob")).is_none());
    assert_eq!(
        contract.prepare_account(&id("bob"), near(1), false, NOW).err(),
        Some(StorageError::InsufficientDeposit)
    );
    assert_eq!(
        contract.prepare_account(&id("alice"), near(MIN_STORAGE_BALANCE), false, NOW).err(),
        Some(StorageError::AccountExists)
    );

    // The record is written, measured and put.
    let mut account = made.account;
    account.storage_tracker.start(9_000).unwrap();
    account.storage_tracker.stop(9_400).unwrap();
    assert_eq!(contract.internal_set_account(&id("bob"), account), Ok(false));
    assert_eq!(contract.internal_get_account(&id("bob")).unwrap().used_bytes, 400);

    let changed = contract
        .prepare_update(&id("bob"), &id("bob"), None, Some("Bob".to_string()), None, None, None, None)
        .unwrap();
    assert_eq!(changed.name, "Bob");
    assert_eq!(changed.used_bytes, 400);
    assert_eq!(contract.internal_get_account(&id("bob")).unwrap().name, "bob");
    assert_eq!(
        contract
            .prepare_update(&id("bob"), &id("zed"), None, None, None, None, None, None)
            .err(),
        Some(StorageError::NotRegistered)
    );
    assert_eq!(
        contract
            .prepare_update(&id("bob"), &id("bob"), None, None, None, None, None, Some(vec!["Admin".to_string()]))
            .err(),
        Some(StorageError::NotAllowlisted)
    );
}
