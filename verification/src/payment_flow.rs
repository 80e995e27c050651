//! The order of a charged payment (a bill payment or a stablecoin send): the
//! PIN, then the risk assessment, then the charge of the wallet, then the
//! provider, and what each answer leads to. The handler performs each action
//! and hands back what came of it.

use crate::ledger::{Charge, PaymentEnd, WalletMove};
use vstd::prelude::*;

verus! {

/// Where a charged payment stands.
#[derive(Clone, Copy)]
pub enum PaymentStage {
    /// The PIN is being checked.
    Authorising,
    /// The risk of the payment is being assessed.
    Assessing,
    /// The wallet is being locked and charged.
    Charging,
    /// The debit has been written and the provider called.
    Settling { charge: Charge },
    /// Nothing more happens.
    Closed,
}

/// What came of the last action.
#[derive(Clone, Copy)]
pub enum PaymentEvent {
    PinChecked(bool),
    RiskAssessed(bool),
    /// The charge of the locked wallet, `None` when the wallet is missing or
    /// short.
    WalletCharged(Option<Charge>),
    ProviderDone(PaymentEnd),
}

/// What the handler does next.
#[derive(Clone, Copy)]
pub enum PaymentAction {
    AssessRisk,
    ChargeWallet,
    /// Write this debit, then call the provider.
    Debit(WalletMove),
    Commit,
    /// Write this refund, then commit.
    Refund(WalletMove),
    Rollback,
    /// Answer with the refusal that came back, writing nothing more.
    Stop,
    /// The event does not belong to this stage; nothing changes.
    Ignore,
}

/// The next stage and action of a payment at `stage` once `event` came back.
pub open spec fn payment_next(stage: PaymentStage, event: PaymentEvent) -> (PaymentStage, PaymentAction) {
    match (stage, event) {
        (PaymentStage::Authorising, PaymentEvent::PinChecked(ok)) => if ok {
            (PaymentStage::Assessing, PaymentAction::AssessRisk)
        } else {
            (PaymentStage::Closed, PaymentAction::Stop)
        },
        (PaymentStage::Assessing, PaymentEvent::RiskAssessed(ok)) => if ok {
            (PaymentStage::Charging, PaymentAction::ChargeWallet)
        } else {
            (PaymentStage::Closed, PaymentAction::Stop)
        },
        (PaymentStage::Charging, PaymentEvent::WalletCharged(c)) => match c {
            Some(charge) => (PaymentStage::Settling { charge }, PaymentAction::Debit(charge.debit)),
            None => (PaymentStage::Closed, PaymentAction::Stop),
        },
        (PaymentStage::Settling { charge }, PaymentEvent::ProviderDone(end)) => match end {
            PaymentEnd::Completed => (PaymentStage::Closed, PaymentAction::Commit),
            PaymentEnd::Refunded => (PaymentStage::Closed, PaymentAction::Refund(charge.refund)),
            PaymentEnd::Abandoned => (PaymentStage::Closed, PaymentAction::Rollback),
        },
        _ => (stage, PaymentAction::Ignore),
    }
}

/// One step of a charged payment, as `payment_next` says.
pub fn payment_step(stage: PaymentStage, event: PaymentEvent) -> (r: (PaymentStage, PaymentAction))
    ensures
        r == payment_next(stage, event),
{
    match (stage, event) {
        (PaymentStage::Authorising, PaymentEvent::PinChecked(ok)) => if ok {
            (PaymentStage::Assessing, PaymentAction::AssessRisk)
        } else {
            (PaymentStage::Closed, PaymentAction::Stop)
        },
        (PaymentStage::Assessing, PaymentEvent::RiskAssessed(ok)) => if ok {
            (PaymentStage::Charging, PaymentAction::ChargeWallet)
        } else {
            (PaymentStage::Closed, PaymentAction::Stop)
        },
        (PaymentStage::Charging, PaymentEvent::WalletCharged(c)) => match c {
            Some(charge) => (PaymentStage::Settling { charge }, PaymentAction::Debit(charge.debit)),
            None => (PaymentStage::Closed, PaymentAction::Stop),
        },
        (PaymentStage::Settling { charge }, PaymentEvent::ProviderDone(end)) => match end {
            PaymentEnd::Completed => (PaymentStage::Closed, PaymentAction::Commit),
            PaymentEnd::Refunded => (PaymentStage::Closed, PaymentAction::Refund(charge.refund)),
            PaymentEnd::Abandoned => (PaymentStage::Closed, PaymentAction::Rollback),
        },
        _ => (stage, PaymentAction::Ignore),
    }
}

/// The stage reached and the actions taken when `events` come back in order
/// to a payment that starts by checking the PIN.
pub open spec fn payment_run(events: Seq<PaymentEvent>) -> (PaymentStage, Seq<PaymentAction>)
    decreases events.len(),
{
    if events.len() == 0 {
        (PaymentStage::Authorising, Seq::empty())
    } else {
        let (stage, actions) = payment_run(events.drop_last());
        let (next, action) = payment_next(stage, events.last());
        (next, actions.push(action))
    }
}

/// `events` holds a passed PIN check.
pub open spec fn pin_passed(events: Seq<PaymentEvent>) -> bool {
    exists|i: int| 0 <= i < events.len() && #[trigger] events[i] == PaymentEvent::PinChecked(true)
}

/// `events` holds a passed risk assessment.
pub open spec fn risk_passed(events: Seq<PaymentEvent>) -> bool {
    exists|i: int| 0 <= i < events.len() && #[trigger] events[i] == PaymentEvent::RiskAssessed(true)
}

/// What the stage reached says of the events behind it.
proof fn lemma_run_stage(events: Seq<PaymentEvent>)
    ensures
        payment_run(events).0 is Assessing ==> pin_passed(events),
        payment_run(events).0 is Charging ==> pin_passed(events) && risk_passed(events),
        payment_run(events).0 is Settling ==> pin_passed(events) && risk_passed(events),
        payment_run(events).1.len() == events.len(),
        forall|k: int|
            0 <= k < events.len() && (#[trigger] payment_run(events).1[k]) is Debit ==> pin_passed(events)
                && risk_passed(events),
    decreases events.len(),
{
    if events.len() > 0 {
        let prev = events.drop_last();
        lemma_run_stage(prev);
        let e = events.last();
        assert(events[events.len() - 1] == e);
        if pin_passed(prev) {
            let i = choose|i: int| 0 <= i < prev.len() && #[trigger] prev[i] == PaymentEvent::PinChecked(true);
            assert(events[i] == prev[i]);
        }
        if risk_passed(prev) {
            let i = choose|i: int| 0 <= i < prev.len() && #[trigger] prev[i] == PaymentEvent::RiskAssessed(true);
            assert(events[i] == prev[i]);
        }
        let actions = payment_run(events).1;
        assert forall|k: int| 0 <= k < events.len() && (#[trigger] actions[k]) is Debit implies pin_passed(events)
            && risk_passed(events) by {
            if k < prev.len() {
                assert(actions[k] == payment_run(prev).1[k]);
            }
        }
    }
}

/// Nothing is written to a wallet before the PIN check and the risk
/// assessment have both passed: whatever answers come back, a debit is
/// among the actions only if both passed before it, and a refused PIN or
/// risk assessment closes the payment with no write.
pub proof fn law_no_debit_before_pin_and_risk(events: Seq<PaymentEvent>)
    ensures
        forall|k: int|
            0 <= k < payment_run(events).1.len() && (#[trigger] payment_run(events).1[k]) is Debit ==> pin_passed(
                events.take(k + 1),
            ) && risk_passed(events.take(k + 1)),
{
    lemma_run_stage(events);
    assert forall|k: int|
        0 <= k < payment_run(events).1.len() && (#[trigger] payment_run(events).1[k]) is Debit implies pin_passed(
            events.take(k + 1),
        ) && risk_passed(events.take(k + 1)) by {
        lemma_run_prefix(events, k + 1);
        lemma_run_stage(events.take(k + 1));
        assert(payment_run(events.take(k + 1)).1[k] == payment_run(events).1[k]);
    }
}

/// The actions of a run begin with those of the run of any prefix.
proof fn lemma_run_prefix(events: Seq<PaymentEvent>, n: int)
    requires
        0 <= n <= events.len(),
    ensures
        payment_run(events).1.len() == events.len(),
        forall|k: int| 0 <= k < n ==> #[trigger] payment_run(events).1[k] == payment_run(events.take(n)).1[k],
    decreases events.len(),
{
    if events.len() > 0 {
        lemma_run_prefix(events.drop_last(), if n == events.len() { n - 1 } else { n });
        if n == events.len() {
            assert(events.take(n) =~= events);
        } else {
            assert(events.drop_last().take(n) =~= events.take(n));
            lemma_run_stage(events.drop_last());
            assert forall|k: int| 0 <= k < n implies #[trigger] payment_run(events).1[k] == payment_run(
                events.take(n),
            ).1[k] by {
                assert(payment_run(events).1[k] == payment_run(events.drop_last()).1[k]);
            }
        }
    }
}

} // verus!
