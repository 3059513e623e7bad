use art_spot::ledger::TokenError;
use art_spot::settlement::{Settlement, SettlementFault, SettlementState, SettlementStep};
use art_spot::token::{PromiseResult, SpotToken, GAS_FOR_FT_TRANSFER_CALL, GAS_FOR_RESOLVE_TRANSFER};

fn token_with_a_and_b() -> SpotToken {
    let (mut token, _) = SpotToken::new_default_meta("owner", 100, 125);
    token.internal_register_account("a").unwrap();
    token.internal_register_account("b").unwrap();
    token.internal_transfer("owner", "a", 100, None).unwrap();
    token
}

fn started(token: &mut SpotToken) -> Settlement {
    let (record, event) = Settlement::initiate(
        token,
        "a",
        1,
        GAS_FOR_FT_TRANSFER_CALL + 11,
        "b",
        40,
        None,
        "hello".to_string(),
    )
    .unwrap();
    assert_eq!((event.old_owner_id.as_str(), event.new_owner_id.as_str(), event.amount), ("a", "b", 40));
    record
}

#[test]
fn a_transfer_goes_through_its_three_states() {
    let mut token = token_with_a_and_b();
    let mut record = started(&mut token);
    assert_eq!(record.state(), SettlementState::Initiated);
    assert_eq!((record.sender_id(), record.receiver_id(), record.amount()), ("a", "b", 40));
    assert_eq!((token.ft_balance_of("a"), token.ft_balance_of("b")), (60, 40));

    let note = record.notify().unwrap();
    assert_eq!(record.state(), SettlementState::Notified);
    assert_eq!(note.receiver_id, "b");
    assert_eq!(note.sender_id, "a");
    assert_eq!(note.amount, 40);
    assert_eq!(note.msg, "hello");
    assert_eq!(note.receiver_gas, 11);
    assert_eq!(note.resolve_gas, GAS_FOR_RESOLVE_TRANSFER);

    let end = record.resolve(&mut token, &PromiseResult::Successful(b"\"15\"".to_vec())).unwrap();
    assert_eq!(record.state(), SettlementState::Resolved);
    assert_eq!(end.used_amount, 25);
    assert_eq!((token.ft_balance_of("a"), token.ft_balance_of("b")), (75, 25));
}

#[test]
fn a_transfer_is_settled_once() {
    let mut token = token_with_a_and_b();
    let mut record = started(&mut token);
    // Not before the receiver was notified.
    let early = record.resolve(&mut token, &PromiseResult::Failed);
    assert_eq!(early.err(), Some(SettlementFault::NotNotified));
    assert_eq!(record.state(), SettlementState::Initiated);
    assert_eq!((token.ft_balance_of("a"), token.ft_balance_of("b")), (60, 40));

    record.notify().unwrap();
    assert_eq!(record.notify().err(), Some(SettlementFault::AlreadyNotified));
    assert_eq!(record.state(), SettlementState::Notified);

    let end = record.resolve(&mut token, &PromiseResult::Failed).unwrap();
    assert_eq!(end.used_amount, 0);
    assert_eq!((token.ft_balance_of("a"), token.ft_balance_of("b")), (100, 0));

    // Not a second time.
    token.internal_transfer("a", "b", 50, None).unwrap();
    let again = record.resolve(&mut token, &PromiseResult::Failed);
    assert_eq!(again.err(), Some(SettlementFault::AlreadyResolved));
    assert_eq!(record.notify().err(), Some(SettlementFault::AlreadyResolved));
    assert_eq!(record.state(), SettlementState::Resolved);
    assert_eq!((token.ft_balance_of("a"), token.ft_balance_of("b")), (50, 50));
}

#[test]
fn a_transfer_that_is_refused_leaves_no_record() {
    let mut token = token_with_a_and_b();
    let r = Settlement::initiate(&mut token, "a", 1, GAS_FOR_FT_TRANSFER_CALL, "b", 40, None, String::new());
    assert_eq!(r.err(), Some(TokenError::MoreGasRequired));
    let r = Settlement::initiate(&mut token, "a", 1, u64::MAX, "b", 400, None, String::new());
    assert_eq!(r.err(), Some(TokenError::InsufficientBalance));
    let r = Settlement::initiate(&mut token, "a", 2, u64::MAX, "b", 40, None, String::new());
    assert_eq!(r.err(), Some(TokenError::RequiresOneYocto));
    assert_eq!((token.ft_balance_of("a"), token.ft_balance_of("b")), (100, 0));
}

#[test]
fn the_outcome_arrives_in_a_later_call() {
    let mut token = token_with_a_and_b();
    let mut record = started(&mut token);
    record.notify().unwrap();
    drop(record);
    // The receiver spent most of what it got.
    token.internal_transfer("b", "owner", 30, None).unwrap();
    let mut record = Settlement::awaited("a", "b", 40);
    assert_eq!(record.state(), SettlementState::Notified);
    let end = record.resolve(&mut token, &PromiseResult::Successful(b"\"40\"".to_vec())).unwrap();
    assert_eq!(end.refund.unwrap().amount, 10);
    assert_eq!(end.used_amount, 30);
    assert_eq!((token.ft_balance_of("a"), token.ft_balance_of("b")), (70, 0));
    assert_eq!(token.ft_total_supply(), 100);
}

#[test]
fn the_steps_of_the_protocol() {
    let (initiated, notified, resolved) =
        (SettlementState::Initiated, SettlementState::Notified, SettlementState::Resolved);
    let (notify, resolve) = (SettlementStep::Notify, SettlementStep::Resolve);
    assert_eq!(initiated.step(notify), Ok(notified));
    assert_eq!(initiated.step(resolve), Err(SettlementFault::NotNotified));
    assert_eq!(notified.step(notify), Err(SettlementFault::AlreadyNotified));
    assert_eq!(notified.step(resolve), Ok(resolved));
    assert_eq!(resolved.step(notify), Err(SettlementFault::AlreadyResolved));
    assert_eq!(resolved.step(resolve), Err(SettlementFault::AlreadyResolved));
    assert_eq!(SettlementFault::AlreadyResolved.message(), "The transfer is resolved already");
    assert_eq!(SettlementFault::NotNotified.message(), "The receiver has not been notified");
    assert_eq!(SettlementFault::AlreadyNotified.message(), "The receiver was notified already");
}
