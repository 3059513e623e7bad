//! The settlement of a transfer that notifies its receiver, as a protocol
//! of three states.
//!
//! A transfer is booked at once and is then `Initiated`. The receiver is
//! notified: `Notified`. When the outcome of the notification is known, the
//! transfer is settled against the balances as they are then: `Resolved`. A
//! record of the transfer goes through these states in this order, and is
//! settled once.

use vstd::prelude::*;
use crate::balances::Balance;
use crate::events::FtTransfer;
use crate::ledger::{unused_of, TokenError};
use crate::text::opt_text;
use crate::token::{
    spec_reply, Gas, PendingTransfer, PromiseResult, Resolution, SpotToken,
    GAS_FOR_FT_TRANSFER_CALL, GAS_FOR_RESOLVE_TRANSFER,
};

verus! {

/// Where a notified transfer stands.
#[derive(Debug, Clone, Copy, PartialEq, Eq, Structural)]
pub enum SettlementState {
    /// The tokens went over; the receiver does not know yet.
    Initiated,
    /// The receiver was notified; its answer is awaited.
    Notified,
    /// The transfer was settled. Nothing follows.
    Resolved,
}

/// What moves a notified transfer on.
#[derive(Debug, Clone, Copy, PartialEq, Eq, Structural)]
pub enum SettlementStep {
    /// The receiver is notified.
    Notify,
    /// The outcome of the notification is taken in.
    Resolve,
}

/// Why a step is refused.
#[derive(Debug, Clone, Copy, PartialEq, Eq, Structural)]
pub enum SettlementFault {
    /// The receiver was notified before.
    AlreadyNotified,
    /// The receiver has not been notified yet.
    NotNotified,
    /// The transfer was settled before.
    AlreadyResolved,
}

impl SettlementFault {
    /// The text that accompanies the fault.
    pub fn message(&self) -> (r: &'static str)
        ensures
            r@ == (match *self {
                SettlementFault::AlreadyNotified => "The receiver was notified already"@,
                SettlementFault::NotNotified => "The receiver has not been notified"@,
                SettlementFault::AlreadyResolved => "The transfer is resolved already"@,
            }),
    {
        match self {
            SettlementFault::AlreadyNotified => "The receiver was notified already",
            SettlementFault::NotNotified => "The receiver has not been notified",
            SettlementFault::AlreadyResolved => "The transfer is resolved already",
        }
    }
}

impl SettlementState {
    /// The state after `step`, or why the step is refused: notifying leads
    /// from `Initiated` to `Notified`, resolving from `Notified` to
    /// `Resolved`.
    pub open spec fn next(self, step: SettlementStep) -> Result<SettlementState, SettlementFault> {
        match (self, step) {
            (SettlementState::Initiated, SettlementStep::Notify) => Ok(SettlementState::Notified),
            (SettlementState::Notified, SettlementStep::Notify) => Err(
                SettlementFault::AlreadyNotified,
            ),
            (SettlementState::Initiated, SettlementStep::Resolve) => Err(
                SettlementFault::NotNotified,
            ),
            (SettlementState::Notified, SettlementStep::Resolve) => Ok(SettlementState::Resolved),
            (SettlementState::Resolved, _) => Err(SettlementFault::AlreadyResolved),
        }
    }

    /// The state after all of `steps`, where none of them is refused.
    pub open spec fn after(self, steps: Seq<SettlementStep>) -> Option<SettlementState>
        decreases steps.len(),
    {
        if steps.len() == 0 {
            Some(self)
        } else {
            match self.after(steps.drop_last()) {
                Some(state) => match state.next(steps.last()) {
                    Ok(next) => Some(next),
                    Err(_) => None,
                },
                None => None,
            }
        }
    }

    /// How many of `steps` resolve.
    pub open spec fn resolutions(steps: Seq<SettlementStep>) -> nat
        decreases steps.len(),
    {
        if steps.len() == 0 {
            0
        } else {
            Self::resolutions(steps.drop_last()) + if steps.last() == SettlementStep::Resolve {
                1nat
            } else {
                0nat
            }
        }
    }

    /// The state after `step`, or why the step is refused.
    pub fn step(self, step: SettlementStep) -> (r: Result<SettlementState, SettlementFault>)
        ensures
            r == self.next(step),
    {
        match self {
            SettlementState::Initiated => match step {
                SettlementStep::Notify => Ok(SettlementState::Notified),
                SettlementStep::Resolve => Err(SettlementFault::NotNotified),
            },
            SettlementState::Notified => match step {
                SettlementStep::Notify => Err(SettlementFault::AlreadyNotified),
                SettlementStep::Resolve => Ok(SettlementState::Resolved),
            },
            SettlementState::Resolved => Err(SettlementFault::AlreadyResolved),
        }
    }

    /// Nothing follows `Resolved`.
    pub proof fn lemma_resolved_is_final(step: SettlementStep)
        ensures
            SettlementState::Resolved.next(step) is Err,
    {
    }

    /// The steps that a transfer can take from its start are none, a
    /// notification, or a notification and a resolution: it is resolved at
    /// most once, and exactly once where it ends `Resolved`.
    pub proof fn lemma_resolved_once(steps: Seq<SettlementStep>)
        requires
            SettlementState::Initiated.after(steps) is Some,
        ensures
            steps.len() <= 2,
            Self::resolutions(steps) <= 1,
            SettlementState::Initiated.after(steps) == Some(SettlementState::Resolved) <==> steps
                == seq![SettlementStep::Notify, SettlementStep::Resolve],
            SettlementState::Initiated.after(steps) == Some(SettlementState::Resolved)
                <==> Self::resolutions(steps) == 1,
            SettlementState::Initiated.after(steps) == Some(SettlementState::Notified) <==> steps
                == seq![SettlementStep::Notify],
            SettlementState::Initiated.after(steps) == Some(SettlementState::Initiated)
                <==> steps.len() == 0,
        decreases steps.len(),
    {
        if steps.len() > 0 {
            let head = steps.drop_last();
            Self::lemma_resolved_once(head);
            let before = SettlementState::Initiated.after(head)->0;
            if before == SettlementState::Initiated {
                assert(steps =~= seq![SettlementStep::Notify]);
            } else if before == SettlementState::Notified {
                assert(steps =~= seq![SettlementStep::Notify, SettlementStep::Resolve]);
            }
        } 
    }
}

/// What is sent to the receiver of a notified transfer.
#[derive(Debug)]
pub struct Notification {
    /// Who is notified.
    pub receiver_id: String,
    /// Who sent the tokens.
    pub sender_id: String,
    /// How many tokens went over.
    pub amount: Balance,
    /// The message of the sender.
    pub msg: String,
    /// Gas for the receiver's handler.
    pub receiver_gas: Gas,
    /// Gas for the settlement that follows.
    pub resolve_gas: Gas,
}

/// The record of one notified transfer. It lives from the start of the
/// transfer to its settlement and is kept nowhere else.
#[derive(Debug)]
pub struct Settlement {
    sender_id: String,
    receiver_id: String,
    amount: Balance,
    msg: String,
    receiver_gas: Gas,
    state: SettlementState,
}

impl Settlement {
    /// Who sent the tokens.
    pub closed spec fn sender(&self) -> Seq<char> {
        self.sender_id@
    }

    /// Who got the tokens.
    pub closed spec fn receiver(&self) -> Seq<char> {
        self.receiver_id@
    }

    /// How many tokens went over.
    pub closed spec fn sent(&self) -> Balance {
        self.amount
    }

    /// The message for the receiver.
    pub closed spec fn message(&self) -> Seq<char> {
        self.msg@
    }

    /// Gas for the receiver's handler.
    pub closed spec fn gas(&self) -> Gas {
        self.receiver_gas
    }

    /// Where the transfer stands.
    pub closed spec fn spec_state(&self) -> SettlementState {
        self.state
    }

    /// Whether the two records are of the same transfer.
    pub open spec fn same_transfer(&self, other: &Self) -> bool {
        &&& self.sender() == other.sender()
        &&& self.receiver() == other.receiver()
        &&& self.sent() == other.sent()
        &&& self.message() == other.message()
        &&& self.gas() == other.gas()
    }

    /// Where the transfer stands.
    pub fn state(&self) -> (r: SettlementState)
        ensures
            r == self.spec_state(),
    {
        self.state
    }

    /// How many tokens went over.
    pub fn amount(&self) -> (r: Balance)
        ensures
            r == self.sent(),
    {
        self.amount
    }

    /// Who sent the tokens.
    pub fn sender_id(&self) -> (r: &str)
        ensures
            r@ == self.sender(),
    {
        self.sender_id.as_str()
    }

    /// Who got the tokens.
    pub fn receiver_id(&self) -> (r: &str)
        ensures
            r@ == self.receiver(),
    {
        self.receiver_id.as_str()
    }

    /// Starts a transfer that notifies its receiver: the tokens go over at
    /// once, and the record of the transfer is `Initiated`. Refused, before
    /// anything changes, where the call does not carry one yoctoNEAR or
    /// carries no more gas than the settlement needs, and where the transfer
    /// itself is refused.
    pub fn initiate(
        token: &mut SpotToken,
        sender_id: &str,
        attached_deposit: u128,
        prepaid_gas: Gas,
        receiver_id: &str,
        amount: Balance,
        memo: Option<String>,
        msg: String,
    ) -> (r: Result<(Settlement, FtTransfer), TokenError>)
        requires
            old(token).wf(),
        ensures
            final(token).wf(),
            final(token).same_roles(old(token)),
            SpotToken::answer(r, final(token).ledger()) == SpotToken::spec_ft_transfer_call(
                old(token).ledger(),
                sender_id@,
                receiver_id@,
                amount,
                attached_deposit,
                prepaid_gas,
            ),
            r is Err ==> final(token).ledger() == old(token).ledger(),
            r is Ok ==> {
                let (record, event) = r->Ok_0;
                &&& record.spec_state() == SettlementState::Initiated
                &&& record.sender() == sender_id@
                &&& record.receiver() == receiver_id@
                &&& record.sent() == amount
                &&& record.message() == msg@
                &&& record.gas() == prepaid_gas - GAS_FOR_FT_TRANSFER_CALL
                &&& event.says(sender_id@, receiver_id@, amount, opt_text(memo))
            },
    {
        let pending: PendingTransfer = match token.ft_transfer_call(
            sender_id,
            attached_deposit,
            prepaid_gas,
            receiver_id,
            amount,
            memo,
            msg,
        ) {
            Ok(pending) => pending,
            Err(e) => {
                return Err(e);
            },
        };
        Ok(
            (
                Settlement {
                    sender_id: pending.sender_id,
                    receiver_id: pending.receiver_id,
                    amount: pending.amount,
                    msg: pending.msg,
                    receiver_gas: pending.receiver_gas,
                    state: SettlementState::Initiated,
                },
                pending.event,
            ),
        )
    }

    /// The record of a transfer whose receiver was notified in an earlier
    /// call, and whose outcome has now arrived.
    pub fn awaited(sender_id: &str, receiver_id: &str, amount: Balance) -> (r: Settlement)
        ensures
            r.spec_state() == SettlementState::Notified,
            r.sender() == sender_id@,
            r.receiver() == receiver_id@,
            r.sent() == amount,
            r.message() == Seq::<char>::empty(),
            r.gas() == 0,
    {
        Settlement {
            sender_id: sender_id.to_owned(),
            receiver_id: receiver_id.to_owned(),
            amount,
            msg: String::new(),
            receiver_gas: 0,
            state: SettlementState::Notified,
        }
    }

    /// Marks the receiver as notified and hands back what is to be sent to
    /// it. Refused, with nothing changed, unless the transfer is
    /// `Initiated`.
    pub fn notify(&mut self) -> (r: Result<Notification, SettlementFault>)
        ensures
            final(self).same_transfer(old(self)),
            match old(self).spec_state().next(SettlementStep::Notify) {
                Ok(state) => {
                    &&& final(self).spec_state() == state
                    &&& r is Ok
                    &&& r->Ok_0.receiver_id@ == old(self).receiver()
                    &&& r->Ok_0.sender_id@ == old(self).sender()
                    &&& r->Ok_0.amount == old(self).sent()
                    &&& r->Ok_0.msg@ == old(self).message()
                    &&& r->Ok_0.receiver_gas == old(self).gas()
                    &&& r->Ok_0.resolve_gas == GAS_FOR_RESOLVE_TRANSFER
                },
                Err(e) => r is Err && r->Err_0 == e && final(self).spec_state() == old(
                    self,
                ).spec_state(),
            },
    {
        match self.state.step(SettlementStep::Notify) {
            Ok(state) => {
                self.state = state;
                Ok(
                    Notification {
                        receiver_id: self.receiver_id.clone(),
                        sender_id: self.sender_id.clone(),
                        amount: self.amount,
                        msg: self.msg.clone(),
                        receiver_gas: self.receiver_gas,
                        resolve_gas: GAS_FOR_RESOLVE_TRANSFER,
                    },
                )
            },
            Err(e) => Err(e),
        }
    }

    /// Settles the transfer from the outcome of the notification, against
    /// the balances as they are now, and marks it `Resolved`. Refused, with
    /// neither the record nor the ledger changed, unless the transfer is
    /// `Notified`; so a transfer is settled once.
    pub fn resolve(&mut self, token: &mut SpotToken, result: &PromiseResult) -> (r: Result<
        Resolution,
        SettlementFault,
    >)
        requires
            old(token).wf(),
        ensures
            final(token).wf(),
            final(token).same_roles(old(token)),
            final(self).same_transfer(old(self)),
            match old(self).spec_state().next(SettlementStep::Resolve) {
                Ok(state) => {
                    let unused = unused_of(old(self).sent(), spec_reply(result));
                    &&& final(self).spec_state() == state
                    &&& r is Ok
                    &&& final(token).ledger() == old(token).ledger().settle(
                        old(self).sender(),
                        old(self).receiver(),
                        unused,
                    )
                    &&& r->Ok_0.used_amount == old(token).ledger().used_amount(
                        old(self).sender(),
                        old(self).receiver(),
                        old(self).sent(),
                        unused,
                    )
                    &&& r->Ok_0.burned_amount == old(token).ledger().burned_amount(
                        old(self).sender(),
                        old(self).receiver(),
                        unused,
                    )
                    &&& SpotToken::refund_said(
                        r->Ok_0,
                        old(token).ledger(),
                        old(self).sender(),
                        old(self).receiver(),
                        unused,
                    )
                },
                Err(e) => {
                    &&& r is Err
                    &&& r->Err_0 == e
                    &&& final(self).spec_state() == old(self).spec_state()
                    &&& final(token).ledger() == old(token).ledger()
                },
            },
    {
        match self.state.step(SettlementStep::Resolve) {
            Ok(state) => {
                self.state = state;
                Ok(
                    token.internal_ft_resolve_transfer(
                        self.sender_id.as_str(),
                        self.receiver_id.as_str(),
                        self.amount,
                        result,
                    ),
                )
            },
            Err(e) => Err(e),
        }
    }
}

} // verus!
