use art_spot::ledger::TokenError;
use art_spot::metadata::{default_ft_metadata, spot_metadata, FungibleTokenMetadata, DEFAULT_ICON, ICON};
use art_spot::token::{
    position, reply_of, unused_amount, PromiseResult, SpotToken, StorageKey,
    GAS_FOR_FT_TRANSFER_CALL, GAS_FOR_RESOLVE_TRANSFER,
};
use art_spot::yocto_near::YoctoNear;

const ONE_NEAR: u128 = 1_000_000_000_000_000_000_000_000;
const BYTE_COST: u128 = 10_000_000_000_000_000_000;

/// A token owned by `owner`, with `a` holding 100 and `b` holding nothing.
fn token_with_a_and_b() -> SpotToken {
    let (mut token, _) = SpotToken::new_default_meta("owner", 100, 125);
    token.internal_register_account("a").unwrap();
    token.internal_register_account("b").unwrap();
    token.internal_transfer("owner", "a", 100, None).unwrap();
    token
}

fn sum_of(token: &SpotToken, accounts: &[&str]) -> u128 {
    accounts.iter().map(|a| token.ft_balance_of(a)).sum()
}

fn pending(token: &mut SpotToken) {
    let started = token
        .ft_transfer_call(
            "a",
            1,
            GAS_FOR_FT_TRANSFER_CALL + 7,
            "b",
            40,
            Some("memo".to_string()),
            "message".to_string(),
        )
        .unwrap();
    assert_eq!(started.sender_id, "a");
    assert_eq!(started.receiver_id, "b");
    assert_eq!(started.amount, 40);
    assert_eq!(started.msg, "message");
    assert_eq!(started.receiver_gas, 7);
    assert_eq!(started.resolve_gas, GAS_FOR_RESOLVE_TRANSFER);
    assert_eq!(started.event.old_owner_id, "a");
    assert_eq!(started.event.new_owner_id, "b");
    assert_eq!(started.event.amount, 40);
    assert_eq!(started.event.memo.as_deref(), Some("memo"));
    assert_eq!(token.ft_balance_of("a"), 60);
    assert_eq!(token.ft_balance_of("b"), 40);
}

fn json_reply(text: &str) -> PromiseResult {
    PromiseResult::Successful(format!("\"{}\"", text).into_bytes())
}

#[test]
fn test_total_supply() {
    let initial_balance = 10000 * ONE_NEAR;
    let (token, minted) = SpotToken::new_default_meta("owner", initial_balance, 125);
    assert_eq!(token.ft_total_supply(), initial_balance);
    assert_eq!(token.ft_balance_of("owner"), initial_balance);
    assert_eq!(minted.owner_id, "owner");
    assert_eq!(minted.amount, initial_balance);
    assert_eq!(minted.memo.as_deref(), Some("Initial token supply is minted"));
    assert_eq!(token.get_owner_id(), "owner");
    assert_eq!(token.get_minters(), vec!["owner".to_string()]);
    assert_eq!(token.account_storage_usage(), 125);
}

#[test]
fn test_simple_transfer() {
    let initial_balance = 10000 * ONE_NEAR;
    let transfer_amount = 100 * ONE_NEAR;
    let (mut token, _) = SpotToken::new_default_meta("owner", initial_balance, 125);
    token.storage_deposit("alice", YoctoNear::new(BYTE_COST * 125), Some("alice"), None).unwrap();
    let event = token.ft_transfer("owner", 1, "alice", transfer_amount, None).unwrap();
    assert_eq!(event.old_owner_id, "owner");
    assert_eq!(event.new_owner_id, "alice");
    assert_eq!(event.amount, transfer_amount);
    assert_eq!(event.memo, None);
    assert_eq!(initial_balance - transfer_amount, token.ft_balance_of("owner"));
    assert_eq!(transfer_amount, token.ft_balance_of("alice"));
    assert_eq!(token.ft_total_supply(), initial_balance);
}

#[test]
fn test_storage_deposit_not_enough_deposit() {
    let (mut token, _) = SpotToken::new_default_meta("owner", 10000 * ONE_NEAR, 125);
    let minimal_deposit = BYTE_COST * 125;
    let r = token.storage_deposit("new-account", YoctoNear::new(minimal_deposit - 1), None, None);
    assert_eq!(r.err(), Some(TokenError::InsufficientDeposit));
    assert!(!token.is_registered("new-account"));
    assert_eq!(token.storage_balance_of("new-account"), None);
}

#[test]
fn test_storage_deposit_minimal_deposit() {
    let (mut token, _) = SpotToken::new_default_meta("owner", 10000 * ONE_NEAR, 125);
    let minimal_deposit = BYTE_COST * 125;
    let (balance, refund) =
        token.storage_deposit("new-account", YoctoNear::new(minimal_deposit), None, None).unwrap();
    assert_eq!(balance.total, YoctoNear::new(minimal_deposit));
    assert_eq!(balance.available, YoctoNear::new(0));
    assert_eq!(refund, YoctoNear::new(0));
    assert!(token.is_registered("new-account"));
    assert_eq!(token.ft_balance_of("new-account"), 0);
}

#[test]
fn test_storage_deposit_refunds_excessive_deposit() {
    let (mut token, _) = SpotToken::new_default_meta("owner", 10000 * ONE_NEAR, 125);
    let minimal_deposit = BYTE_COST * 125;
    let bounds = token.storage_balance_bounds();
    assert_eq!(bounds.min, YoctoNear::new(minimal_deposit));
    assert_eq!(bounds.max, Some(YoctoNear::new(minimal_deposit)));
    assert_eq!(token.storage_balance_of("non-registered-account"), None);

    let (balance, refund) =
        token.storage_deposit("new-account", YoctoNear::from_near(5), None, None).unwrap();
    assert_eq!(balance.total, YoctoNear::new(minimal_deposit));
    assert_eq!(balance.available, YoctoNear::new(0));
    assert_eq!(refund, YoctoNear::new(5 * ONE_NEAR - minimal_deposit));
    let kept = token.storage_balance_of("new-account").unwrap();
    assert_eq!(kept.total, YoctoNear::new(minimal_deposit));
    assert_eq!(kept.available, YoctoNear::new(0));

    // A second deposit for an account that is registered goes back whole.
    let (balance, refund) =
        token.storage_deposit("new-account", YoctoNear::new(ONE_NEAR), None, None).unwrap();
    assert_eq!(balance.total, YoctoNear::new(minimal_deposit));
    assert_eq!(balance.available, YoctoNear::new(0));
    assert_eq!(refund, YoctoNear::new(ONE_NEAR));
    assert_eq!(token.storage_balance_of("new-account"), Some(balance));
}

#[test]
fn test_close_account_empty_balance() {
    let (mut token, _) = SpotToken::new_default_meta("owner", 10000 * ONE_NEAR, 125);
    token.storage_deposit("alice", YoctoNear::new(BYTE_COST * 125), None, None).unwrap();
    let left = token.storage_unregister("alice", 1, None).unwrap();
    let left = left.unwrap();
    assert_eq!(left.burned, 0);
    assert_eq!(left.payout, YoctoNear::new(BYTE_COST * 125 + 1));
    assert!(!token.is_registered("alice"));
    assert_eq!(token.ft_total_supply(), 10000 * ONE_NEAR);
}

#[test]
fn test_close_account_non_empty_balance() {
    let (mut token, _) = SpotToken::new_default_meta("owner", 10000 * ONE_NEAR, 125);
    let r = token.storage_unregister("owner", 1, None);
    assert_eq!(r, Err(TokenError::PositiveBalance));
    assert_eq!(
        TokenError::PositiveBalance.message(),
        "Can't unregister the account with the positive balance without force"
    );
    let r = token.storage_unregister("owner", 1, Some(false));
    assert_eq!(r, Err(TokenError::PositiveBalance));
    assert_eq!(token.ft_balance_of("owner"), 10000 * ONE_NEAR);
    assert_eq!(token.ft_total_supply(), 10000 * ONE_NEAR);
}

#[test]
fn simulate_close_account_force_non_empty_balance() {
    let (mut token, _) = SpotToken::new_default_meta("owner", 10000 * ONE_NEAR, 125);
    let left = token.storage_unregister("owner", 1, Some(true)).unwrap().unwrap();
    assert_eq!(left.burned, 10000 * ONE_NEAR);
    assert_eq!(token.ft_total_supply(), 0);
    assert!(!token.is_registered("owner"));
}

#[test]
fn unregistering_needs_one_yocto_and_an_account() {
    let (mut token, _) = SpotToken::new_default_meta("owner", 5, 125);
    assert_eq!(token.storage_unregister("owner", 0, Some(true)), Err(TokenError::RequiresOneYocto));
    assert_eq!(token.storage_unregister("nobody", 1, Some(true)), Ok(None));
    assert_eq!(token.ft_total_supply(), 5);
}

#[test]
fn storage_withdraw_never_pays() {
    let (token, _) = SpotToken::new_default_meta("owner", 5, 125);
    assert_eq!(token.storage_withdraw("owner", 0, None), Err(TokenError::RequiresOneYocto));
    assert_eq!(token.storage_withdraw("nobody", 1, None), Err(TokenError::NotRegistered));
    assert_eq!(
        token.storage_withdraw("owner", 1, Some(YoctoNear::new(1))),
        Err(TokenError::AmountExceedsAvailable)
    );
    let balance = token.storage_withdraw("owner", 1, Some(YoctoNear::new(0))).unwrap();
    assert_eq!(balance.total, YoctoNear::new(BYTE_COST * 125));
    assert_eq!(balance.available, YoctoNear::new(0));
    assert_eq!(token.storage_withdraw("owner", 1, None), Ok(balance));
}

#[test]
fn scenario_full_acceptance() {
    let mut token = token_with_a_and_b();
    pending(&mut token);
    let end = token.internal_ft_resolve_transfer("a", "b", 40, &json_reply("0"));
    assert_eq!(end.used_amount, 40);
    assert_eq!(end.burned_amount, 0);
    assert!(end.refund.is_none());
    assert!(end.burn.is_none());
    assert_eq!(token.ft_balance_of("a"), 60);
    assert_eq!(token.ft_balance_of("b"), 40);
    assert_eq!(token.ft_total_supply(), 100);
}

#[test]
fn scenario_partial_refund() {
    let mut token = token_with_a_and_b();
    pending(&mut token);
    let end = token.internal_ft_resolve_transfer("a", "b", 40, &json_reply("15"));
    assert_eq!(end.used_amount, 25);
    assert_eq!(end.burned_amount, 0);
    let refund = end.refund.unwrap();
    assert_eq!(refund.old_owner_id, "b");
    assert_eq!(refund.new_owner_id, "a");
    assert_eq!(refund.amount, 15);
    assert_eq!(refund.memo.as_deref(), Some("refund"));
    assert!(end.burn.is_none());
    assert_eq!(token.ft_balance_of("a"), 75);
    assert_eq!(token.ft_balance_of("b"), 25);
    assert_eq!(token.ft_total_supply(), 100);
}

#[test]
fn scenario_sender_deleted_mid_flight() {
    let mut token = token_with_a_and_b();
    pending(&mut token);
    let gone = token.storage_unregister("a", 1, Some(true)).unwrap().unwrap();
    assert_eq!(gone.burned, 60);
    let supply_before = token.ft_total_supply();
    assert_eq!(supply_before, 40);
    let end = token.internal_ft_resolve_transfer("a", "b", 40, &json_reply("40"));
    assert_eq!(end.used_amount, 40);
    assert_eq!(end.burned_amount, 40);
    assert!(end.refund.is_none());
    let burn = end.burn.unwrap();
    assert_eq!(burn.owner_id, "b");
    assert_eq!(burn.amount, 40);
    assert_eq!(burn.memo.as_deref(), Some("refund"));
    assert_eq!(token.ft_balance_of("b"), 0);
    assert_eq!(token.ft_total_supply(), supply_before - 40);
    assert!(!token.is_registered("a"));
    assert_eq!(token.ft_balance_of("a"), 0);
}

#[test]
fn scenario_receiver_spent_funds_before_refund() {
    let mut token = token_with_a_and_b();
    token.internal_register_account("shop").unwrap();
    pending(&mut token);
    token.internal_transfer("b", "shop", 30, None).unwrap();
    assert_eq!(token.ft_balance_of("b"), 10);
    let end = token.internal_ft_resolve_transfer("a", "b", 40, &json_reply("40"));
    let refund = end.refund.unwrap();
    assert_eq!(refund.amount, 10);
    assert_eq!(end.used_amount, 30);
    assert_eq!(end.burned_amount, 0);
    assert_eq!(token.ft_balance_of("a"), 70);
    assert_eq!(token.ft_balance_of("b"), 0);
    assert_eq!(token.ft_balance_of("shop"), 30);
    assert_eq!(token.ft_total_supply(), 100);
}

#[test]
fn a_failed_notification_gives_everything_back() {
    let mut token = token_with_a_and_b();
    pending(&mut token);
    let end = token.internal_ft_resolve_transfer("a", "b", 40, &PromiseResult::Failed);
    assert_eq!(end.used_amount, 0);
    assert_eq!(end.refund.unwrap().amount, 40);
    assert_eq!(token.ft_balance_of("a"), 100);
    assert_eq!(token.ft_balance_of("b"), 0);
}

#[test]
fn a_reply_that_cannot_be_read_gives_everything_back() {
    for reply in [&b"15"[..], b"\"abc\"", b"", b"{\"unused\":\"1\"}", b"\"-1\"", b"\"1\" x"] {
        let mut token = token_with_a_and_b();
        pending(&mut token);
        let end = token.internal_ft_resolve_transfer(
            "a",
            "b",
            40,
            &PromiseResult::Successful(reply.to_vec()),
        );
        assert_eq!(end.used_amount, 0);
        assert_eq!(token.ft_balance_of("a"), 100);
        assert_eq!(token.ft_balance_of("b"), 0);
    }
}

#[test]
fn a_reply_above_the_amount_counts_as_the_amount() {
    let mut token = token_with_a_and_b();
    pending(&mut token);
    let end = token.internal_ft_resolve_transfer("a", "b", 40, &json_reply("1000"));
    assert_eq!(end.used_amount, 0);
    assert_eq!(end.refund.unwrap().amount, 40);
    assert_eq!(token.ft_balance_of("a"), 100);
}

#[test]
fn replies_are_read_as_json_strings_of_digits() {
    assert_eq!(reply_of(&json_reply("15")), Some(15));
    assert_eq!(reply_of(&json_reply("0")), Some(0));
    assert_eq!(
        reply_of(&json_reply("340282366920938463463374607431768211455")),
        Some(u128::MAX)
    );
    assert_eq!(reply_of(&json_reply("340282366920938463463374607431768211456")), None);
    assert_eq!(reply_of(&PromiseResult::Successful(b" \"7\" ".to_vec())), Some(7));
    assert_eq!(reply_of(&PromiseResult::Successful(b"7".to_vec())), None);
    assert_eq!(reply_of(&PromiseResult::Successful(vec![0xff, 0xfe])), None);
    assert_eq!(reply_of(&PromiseResult::Failed), None);
}

#[test]
fn unused_amount_is_held_at_the_amount() {
    assert_eq!(unused_amount(40, Some(15)), 15);
    assert_eq!(unused_amount(40, Some(40)), 40);
    assert_eq!(unused_amount(40, Some(41)), 40);
    assert_eq!(unused_amount(40, Some(0)), 0);
    assert_eq!(unused_amount(40, None), 40);
    assert_eq!(unused_amount(0, None), 0);
}

#[test]
fn settle_with_the_reply_given() {
    let mut token = token_with_a_and_b();
    pending(&mut token);
    let end = token.settle("a", "b", 40, Some(15));
    assert_eq!(end.used_amount, 25);
    assert_eq!(token.ft_balance_of("a"), 75);
    assert_eq!(token.ft_balance_of("b"), 25);

    // Nothing unused: nothing moves.
    let end = token.settle("a", "b", 40, Some(0));
    assert_eq!(end.used_amount, 40);
    assert!(end.refund.is_none() && end.burn.is_none());
    assert_eq!(token.ft_balance_of("a"), 75);

    // A receiver without an entry has nothing to give back.
    let end = token.settle("a", "nobody", 40, None);
    assert_eq!(end.used_amount, 40);
    assert_eq!(end.burned_amount, 0);
    assert!(end.refund.is_none() && end.burn.is_none());
    assert_eq!(token.ft_total_supply(), 100);

    // Sender and receiver the same: the balance stays.
    let end = token.settle("b", "b", 10, None);
    assert_eq!(end.used_amount, 0);
    assert_eq!(end.refund.unwrap().amount, 10);
    assert_eq!(token.ft_balance_of("b"), 25);
    assert_eq!(token.ft_total_supply(), 100);
}

#[test]
fn only_the_token_itself_settles() {
    let mut token = token_with_a_and_b();
    pending(&mut token);
    let r = token.ft_resolve_transfer("a", "token", "a", "b", 40, &json_reply("15"));
    assert_eq!(r.err(), Some(TokenError::NotSelf));
    assert_eq!(token.ft_balance_of("b"), 40);
    let end = token.ft_resolve_transfer("token", "token", "a", "b", 40, &json_reply("15")).unwrap();
    assert_eq!(end.used_amount, 25);
    assert_eq!(token.ft_balance_of("a"), 75);
}

#[test]
fn a_notified_transfer_is_refused_before_anything_changes() {
    let mut token = token_with_a_and_b();
    let r = token.ft_transfer_call("a", 0, GAS_FOR_FT_TRANSFER_CALL + 1, "b", 40, None, String::new());
    assert_eq!(r.err(), Some(TokenError::RequiresOneYocto));
    let r = token.ft_transfer_call("a", 1, GAS_FOR_FT_TRANSFER_CALL, "b", 40, None, String::new());
    assert_eq!(r.err(), Some(TokenError::MoreGasRequired));
    let r = token.ft_transfer_call("a", 1, 0, "b", 40, None, String::new());
    assert_eq!(r.err(), Some(TokenError::MoreGasRequired));
    let r = token.ft_transfer_call("a", 1, u64::MAX, "b", 101, None, String::new());
    assert_eq!(r.err(), Some(TokenError::InsufficientBalance));
    assert_eq!(token.ft_balance_of("a"), 100);
    assert_eq!(token.ft_balance_of("b"), 0);
    let ok = token.ft_transfer_call("a", 1, u64::MAX, "b", 100, None, String::new()).unwrap();
    assert_eq!(ok.receiver_gas, u64::MAX - GAS_FOR_FT_TRANSFER_CALL);
    assert_eq!(GAS_FOR_FT_TRANSFER_CALL, 30_000_000_000_000);
    assert_eq!(GAS_FOR_RESOLVE_TRANSFER, 5_000_000_000_000);
}

#[test]
fn transfer_is_atomic() {
    let mut token = token_with_a_and_b();
    let cases: [(&str, &str, u128, TokenError); 6] = [
        ("a", "a", 10, TokenError::SelfTransfer),
        ("a", "b", 0, TokenError::ZeroAmount),
        ("nobody", "b", 10, TokenError::NotRegistered),
        ("a", "b", 101, TokenError::InsufficientBalance),
        ("a", "nobody", 10, TokenError::NotRegistered),
        ("b", "a", 1, TokenError::InsufficientBalance),
    ];
    for (sender, receiver, amount, error) in cases {
        let r = token.internal_transfer(sender, receiver, amount, None);
        assert_eq!(r.err(), Some(error));
        assert_eq!(token.ft_balance_of("a"), 100);
        assert_eq!(token.ft_balance_of("b"), 0);
        assert_eq!(token.ft_balance_of("owner"), 0);
        assert_eq!(token.ft_total_supply(), 100);
        assert!(!token.is_registered("nobody"));
    }
    token.internal_transfer("a", "b", 100, None).unwrap();
    assert_eq!(token.ft_balance_of("a"), 0);
    assert_eq!(token.ft_balance_of("b"), 100);
    assert_eq!(token.ft_balance_of("owner"), 0);
    assert_eq!(token.ft_total_supply(), 100);
    assert_eq!(token.ft_transfer("b", 2, "a", 1, None).err(), Some(TokenError::RequiresOneYocto));
}

#[test]
fn supply_is_the_sum_of_all_balances() {
    let accounts = ["owner", "a", "b", "c"];
    let (mut token, _) = SpotToken::new_default_meta("owner", 1000, 125);
    assert_eq!(token.ft_total_supply(), sum_of(&token, &accounts));
    for account in ["a", "b", "c"] {
        token.internal_register_account(account).unwrap();
        assert_eq!(token.ft_total_supply(), sum_of(&token, &accounts));
    }
    token.mint_into("a", 50).unwrap();
    assert_eq!(token.ft_total_supply(), 1050);
    assert_eq!(token.ft_total_supply(), sum_of(&token, &accounts));
    token.internal_transfer("owner", "b", 300, None).unwrap();
    assert_eq!(token.ft_total_supply(), sum_of(&token, &accounts));
    token.internal_burn("b", 120).unwrap();
    assert_eq!(token.ft_total_supply(), 930);
    assert_eq!(token.ft_total_supply(), sum_of(&token, &accounts));
    assert!(token.internal_burn("b", 1000).is_err());
    assert!(token.internal_transfer("c", "a", 1, None).is_err());
    assert_eq!(token.ft_total_supply(), sum_of(&token, &accounts));
    token.ft_transfer_call("b", 1, u64::MAX, "c", 100, None, String::new()).unwrap();
    token.settle("b", "c", 100, Some(30));
    assert_eq!(token.ft_total_supply(), sum_of(&token, &accounts));
    assert_eq!(token.internal_unregister_account("b"), Ok(110));
    assert_eq!(token.ft_total_supply(), 820);
    assert_eq!(token.ft_total_supply(), sum_of(&token, &accounts));
    token.settle("b", "c", 70, None);
    assert_eq!(token.ft_total_supply(), 750);
    assert_eq!(token.ft_total_supply(), sum_of(&token, &accounts));
}

#[test]
fn deposits_and_withdrawals() {
    let (mut token, _) = SpotToken::new_default_meta("owner", 100, 125);
    assert_eq!(token.internal_deposit("nobody", 1), Err(TokenError::NotRegistered));
    assert_eq!(token.internal_withdraw("nobody", 1), Err(TokenError::NotRegistered));
    assert_eq!(token.internal_withdraw("owner", 101), Err(TokenError::InsufficientBalance));
    assert_eq!(token.internal_unwrap_balance_of("owner"), Ok(100));
    assert_eq!(token.internal_unwrap_balance_of("nobody"), Err(TokenError::NotRegistered));
    assert_eq!(token.internal_register_account("owner"), Err(TokenError::AlreadyRegistered));
    assert_eq!(token.internal_unregister_account("nobody"), Err(TokenError::NotRegistered));
    token.internal_register_account("a").unwrap();
    assert_eq!(token.internal_deposit("a", u128::MAX), Err(TokenError::TotalSupplyOverflow));
    assert_eq!(token.internal_deposit("owner", u128::MAX), Err(TokenError::BalanceOverflow));
    assert_eq!(token.mint_into("a", u128::MAX - 100), Ok(()));
    assert_eq!(token.ft_total_supply(), u128::MAX);
    assert_eq!(token.mint_into("a", 1), Err(TokenError::TotalSupplyOverflow));
    assert_eq!(token.internal_withdraw("a", u128::MAX - 100), Ok(()));
    assert_eq!(token.ft_balance_of("a"), 0);
    assert_eq!(token.ft_total_supply(), 100);
    assert!(TokenError::BalanceOverflow.is_fatal());
    assert!(TokenError::TotalSupplyOverflow.is_fatal());
    assert!(TokenError::AlreadyRegistered.is_fatal());
    assert!(!TokenError::NotRegistered.is_fatal());
    assert!(!TokenError::InsufficientBalance.is_fatal());
    assert!(!TokenError::SelfTransfer.is_fatal());
    assert_eq!(TokenError::SelfTransfer.message(), "Sender and receiver should be different");
    assert_eq!(TokenError::ZeroAmount.message(), "The amount should be a positive number");
    assert_eq!(TokenError::TotalSupplyOverflow.message(), "Total supply overflow");
}

#[test]
fn minting_and_burning_are_guarded() {
    let (mut token, _) = SpotToken::new_default_meta("owner", 100, 125);
    token.internal_register_account("a").unwrap();
    assert_eq!(token.mint("owner", 0, "a", 5, None).err(), Some(TokenError::RequiresOneYocto));
    assert_eq!(token.mint("a", 1, "a", 5, None).err(), Some(TokenError::NotAMinter));
    assert_eq!(token.mint("owner", 1, "nobody", 5, None).err(), Some(TokenError::NotRegistered));
    let minted = token.mint("owner", 1, "a", 5, Some("gift".to_string())).unwrap();
    assert_eq!((minted.owner_id.as_str(), minted.amount), ("a", 5));
    assert_eq!(minted.memo.as_deref(), Some("gift"));
    assert_eq!(token.ft_balance_of("a"), 5);
    assert_eq!(token.ft_total_supply(), 105);

    assert_eq!(token.burn("owner", 2, "a", 5, None).err(), Some(TokenError::RequiresOneYocto));
    assert_eq!(token.burn("a", 1, "a", 5, None).err(), Some(TokenError::NotOwner));
    assert_eq!(token.burn("owner", 1, "a", 6, None).err(), Some(TokenError::InsufficientBalance));
    let burned = token.burn("owner", 1, "a", 2, None).unwrap();
    assert_eq!((burned.owner_id.as_str(), burned.amount, burned.memo), ("a", 2, None));
    assert_eq!(token.ft_balance_of("a"), 3);
    assert_eq!(token.ft_total_supply(), 103);
}

#[test]
fn minters_come_and_go() {
    let (mut token, _) = SpotToken::new_default_meta("owner", 100, 125);
    assert_eq!(token.add_minter("owner", 0, "a"), Err(TokenError::RequiresOneYocto));
    assert_eq!(token.add_minter("a", 1, "a"), Err(TokenError::NotOwner));
    assert_eq!(token.add_minter("owner", 1, "owner"), Err(TokenError::AlreadyMinter));
    assert_eq!(token.add_minter("owner", 1, "a"), Ok(()));
    assert_eq!(token.add_minter("owner", 1, "b"), Ok(()));
    assert_eq!(token.add_minter("owner", 1, "c"), Ok(()));
    assert_eq!(token.get_minters(), vec!["owner", "a", "b", "c"]);
    assert_eq!(token.assert_minter("b"), Ok(()));
    assert_eq!(token.assert_minter("d"), Err(TokenError::NotAMinter));
    assert_eq!(token.assert_owner("owner"), Ok(()));
    assert_eq!(token.assert_owner("a"), Err(TokenError::NotOwner));

    assert_eq!(token.remove_minter("owner", 3, "a"), Err(TokenError::RequiresOneYocto));
    assert_eq!(token.remove_minter("b", 1, "a"), Err(TokenError::NotOwner));
    assert_eq!(token.remove_minter("owner", 1, "d"), Err(TokenError::NotAMinter));
    assert_eq!(token.remove_minter("owner", 1, "a"), Ok(1));
    assert_eq!(token.get_minters(), vec!["owner", "c", "b"]);
    assert_eq!(token.remove_minter("owner", 1, "b"), Ok(2));
    assert_eq!(token.get_minters(), vec!["owner", "c"]);
    assert_eq!(position(&token.get_minters(), "c"), Some(1));
    assert_eq!(position(&token.get_minters(), "b"), None);
}

fn metadata(spec: &str, reference: Option<&str>, hash: Option<Vec<u8>>) -> FungibleTokenMetadata {
    FungibleTokenMetadata {
        spec: spec.to_string(),
        name: "Token".to_string(),
        symbol: "TKN".to_string(),
        icon: None,
        reference: reference.map(|r| r.to_string()),
        reference_hash: hash,
        decimals: 6,
    }
}

#[test]
fn metadata_have_to_be_valid() {
    assert!(metadata("ft-1.0.0", None, None).is_valid());
    assert!(metadata("ft-1.0.0", Some("r"), Some(vec![0; 32])).is_valid());
    assert!(!metadata("ft-2.0.0", None, None).is_valid());
    assert!(!metadata("ft-1.0.0", Some("r"), None).is_valid());
    assert!(!metadata("ft-1.0.0", None, Some(vec![0; 32])).is_valid());
    assert!(!metadata("ft-1.0.0", Some("r"), Some(vec![0; 31])).is_valid());
    assert!(!metadata("ft-1.0.0", Some("r"), Some(vec![0; 33])).is_valid());

    let r = SpotToken::new("owner", 7, metadata("ft-2.0.0", None, None), 125);
    assert_eq!(r.err().map(|e| e), Some(TokenError::InvalidMetadata));
    let (token, minted) = SpotToken::new("owner", 7, metadata("ft-1.0.0", None, None), 125)
        .ok()
        .unwrap();
    assert_eq!(minted.amount, 7);
    assert_eq!(token.ft_balance_of("owner"), 7);
    let kept = token.ft_metadata().unwrap();
    assert_eq!(kept.name, "Token");
    assert_eq!(kept.symbol, "TKN");
    assert_eq!(kept.decimals, 6);
    assert_eq!(kept.icon, None);
}

#[test]
fn metadata_of_the_spot_token() {
    let default = default_ft_metadata();
    assert_eq!(default.spec, "ft-1.0.0");
    assert_eq!(default.name, "ArtSpot Token");
    assert_eq!(default.symbol, "SPOT");
    assert_eq!(default.decimals, 18);
    assert_eq!(default.icon.as_deref(), Some(DEFAULT_ICON));
    assert!(DEFAULT_ICON.starts_with("data:image/svg+xml,%3Csvg xmlns="));
    assert!(default.is_valid());
    let spot = spot_metadata();
    assert_eq!(spot.icon.as_deref(), Some(ICON));
    assert!(ICON.contains("style='background:%23f5f5f5'"));
    assert!(!DEFAULT_ICON.contains("style='background:%23f5f5f5'"));

    let empty = SpotToken::empty("owner", 1);
    assert!(empty.ft_metadata().is_none());
    assert_eq!(empty.internal_get_ft_metadata().icon.as_deref(), Some(DEFAULT_ICON));
    assert_eq!(empty.ft_total_supply(), 0);
    assert!(!empty.is_registered("owner"));

    let (mut token, _) = SpotToken::new_default_meta("owner", 1, 125);
    assert_eq!(token.internal_get_ft_metadata().icon.as_deref(), Some(ICON));
    assert_eq!(
        token.set_metadata("owner", 0, Some("svg".to_string()), None),
        Err(TokenError::RequiresOneYocto)
    );
    assert_eq!(
        token.set_metadata("a", 1, Some("svg".to_string()), None),
        Err(TokenError::NotOwner)
    );
    assert_eq!(token.ft_metadata().unwrap().icon.as_deref(), Some(ICON));
    assert_eq!(token.set_metadata("owner", 1, Some("svg".to_string()), None), Ok(()));
    let kept = token.ft_metadata().unwrap();
    assert_eq!(kept.icon.as_deref(), Some("svg"));
    assert_eq!(kept.reference, None);
    assert_eq!(token.set_metadata("owner", 1, None, Some("ref".to_string())), Ok(()));
    let kept = token.ft_metadata().unwrap();
    assert_eq!(kept.icon.as_deref(), Some("svg"));
    assert_eq!(kept.reference.as_deref(), Some("ref"));
    assert_eq!(kept.name, "ArtSpot Token");
}

#[test]
fn storage_keys_of_the_token() {
    assert_eq!(StorageKey::Accounts.into_storage_key(), vec![0]);
    assert_eq!(StorageKey::Metadata.into_storage_key(), vec![1]);
}
