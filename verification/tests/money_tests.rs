use pera::convert::{
    check_source_wallet, check_target_wallet, conversion_entries, conversion_moves,
    currency_to_wallet_key, markup_applies, needs_live_rate, validate_conversion,
};
use pera::crypto_transfers::{
    brails_send_payload, check_usd_wallet, crypto_send_entry, fraud_gate, send_amount_minor,
    send_charge, send_end, send_failure,
};
use pera::error::AppError;
use pera::ledger::{PaymentEnd, WalletRow};
use pera::payment_flow::{payment_step, PaymentAction, PaymentEvent, PaymentStage};

fn provider_msg<T>(r: Result<T, AppError>) -> String {
    match r {
        Err(AppError::ProviderError(m)) => m,
        Err(e) => panic!("expected a provider error, got {:?}", e),
        Ok(_) => panic!("expected a provider error, got Ok"),
    }
}

#[test]
fn usdt_is_held_in_the_usd_wallet() {
    assert_eq!(currency_to_wallet_key("USDT"), "USD");
    assert_eq!(currency_to_wallet_key("NGN"), "NGN");
    assert_eq!(currency_to_wallet_key("usdt"), "usdt");
}

#[test]
fn conversions_need_a_positive_amount_and_two_currencies() {
    assert!(validate_conversion("NGN", "USD", 1).is_ok());
    assert_eq!(provider_msg(validate_conversion("NGN", "USD", 0)), "Invalid amount");
    assert_eq!(provider_msg(validate_conversion("NGN", "NGN", -1)), "Invalid amount");
    assert_eq!(provider_msg(validate_conversion("NGN", "NGN", 10)), "Cannot convert to same currency");
    // USDT to USD is allowed, and needs no live rate.
    assert!(validate_conversion("USDT", "USD", 10).is_ok());
    assert!(!needs_live_rate(currency_to_wallet_key("USDT"), currency_to_wallet_key("USD")));
    assert!(needs_live_rate("NGN", "USD"));
    assert!(markup_applies("NGN", "USD"));
    assert!(markup_applies("USD", "NGN"));
    assert!(!markup_applies("USD", "GBP"));
}

#[test]
fn conversion_wallets() {
    assert_eq!(provider_msg(check_source_wallet(None, "NGN", 10)), "NGN wallet not found");
    assert_eq!(
        provider_msg(check_source_wallet(Some(WalletRow { id: 1, balance_minor: 5 }), "NGN", 10)),
        "Insufficient funds"
    );
    assert_eq!(check_source_wallet(Some(WalletRow { id: 1, balance_minor: 10 }), "NGN", 10).unwrap().id, 1);
    assert_eq!(provider_msg(check_target_wallet(None, "USD")), "USD wallet not found");
    assert_eq!(check_target_wallet(Some(WalletRow { id: 2, balance_minor: 0 }), "USD").unwrap().id, 2);
}

#[test]
fn a_conversion_writes_a_debit_and_a_credit_under_one_reference() {
    let (d, c) = conversion_entries(1, 10, 20, "NGN", "USD", "NGN", "USDT", 150_000, 100, "conv-1");
    assert_eq!((d.wallet_id, c.wallet_id), (10, 20));
    assert_eq!((d.amount_minor, c.amount_minor), (-150_000, 100));
    assert_eq!((d.currency.as_str(), c.currency.as_str()), ("NGN", "USD"));
    assert_eq!(d.title, "Convert to USDT");
    assert_eq!(c.title, "Convert from NGN");
    assert_eq!(d.reference, c.reference);
    assert_eq!(d.counterparty.as_deref(), Some("Pera Convert"));
    assert_eq!((d.kind.as_str(), d.status.as_str()), ("convert", "completed"));
}

#[test]
fn crypto_sends() {
    assert_eq!(send_amount_minor(250).unwrap(), 250);
    assert_eq!(provider_msg(send_amount_minor(0)), "Invalid amount");
    assert!(fraud_gate("ALLOW").is_ok());
    assert!(fraud_gate("REVIEW").is_ok());
    match fraud_gate("BLOCK") {
        Err(AppError::TransactionDeclined(m)) => assert_eq!(m, "Transaction blocked by risk policy"),
        _ => panic!("expected a declined send"),
    }
    assert_eq!(provider_msg(check_usd_wallet(None, 1)), "USD wallet not found");
    assert_eq!(
        provider_msg(check_usd_wallet(Some(WalletRow { id: 1, balance_minor: 0 }), 1)),
        "Insufficient USD funds"
    );
    let e = crypto_send_entry(1, 2, "pending", 250, "usdt", "TXYZ", "ref-1");
    assert_eq!(e.amount_minor, -250);
    assert_eq!(e.title, "Send usdt");
    assert_eq!(e.currency, "USD");
    assert_eq!(e.kind, "crypto_send");
    let p = brails_send_payload(250, "TXYZ".to_string(), "tron".to_string(), 0xab, "a@b.co".to_string());
    assert_eq!(p.reference, "00000000-0000-0000-0000-0000000000ab");
    assert_eq!(p.description, "Pera tx 00000000-0000-0000-0000-0000000000ab");
    assert_eq!(p.callback_url.as_deref(), Some("https://api.pera.com/api/v1/webhooks/brails/crypto-send"));
    match send_failure("timeout") {
        AppError::ProviderError(m) => assert_eq!(m, "Crypto send failed: timeout"),
        e => panic!("unexpected {:?}", e),
    }
}

#[test]
fn no_debit_overdraws_a_wallet() {
    for (balance, amount) in [(0i64, 1i64), (99, 100), (100, 100), (500, 1)] {
        let w = WalletRow { id: 4, balance_minor: balance };
        let checks = [
            check_usd_wallet(Some(WalletRow { id: 4, balance_minor: balance }), amount),
            check_source_wallet(Some(WalletRow { id: 4, balance_minor: balance }), "NGN", amount),
            pera::bills::check_ngn_wallet(Some(w), amount),
        ];
        for r in checks {
            match r {
                Ok(passed) => {
                    assert_eq!(passed.id, 4);
                    assert!(passed.balance_minor - amount >= 0);
                }
                Err(_) => assert!(balance < amount),
            }
        }
    }
}

#[test]
fn conversion_moves_debit_source_and_credit_target() {
    let from = WalletRow { id: 1, balance_minor: 10_000 };
    let to = WalletRow { id: 2, balance_minor: 500 };
    let (from_before, to_before) = (from.balance_minor, to.balance_minor);
    let m = conversion_moves(from, to, 4_000, 6_200_000);
    assert_eq!((m.debit.wallet_id, m.debit.delta_minor), (1, -4_000));
    assert_eq!((m.credit.wallet_id, m.credit.delta_minor), (2, 6_200_000));
    assert_eq!(from_before + m.debit.delta_minor, 6_000);
    assert_eq!(to_before + m.credit.delta_minor, 6_200_500);
}

#[test]
fn conversion_within_one_wallet_nets_both_moves() {
    let w = WalletRow { id: 7, balance_minor: 1_000 };
    let same = WalletRow { id: 7, balance_minor: 1_000 };
    let m = conversion_moves(w, same, 300, 300);
    assert_eq!(m.debit.wallet_id, m.credit.wallet_id);
    assert_eq!(1_000 + m.debit.delta_minor + m.credit.delta_minor, 1_000);
}

#[test]
fn send_charge_debits_and_restores_the_amount() {
    let w = WalletRow { id: 3, balance_minor: 2_500 };
    let before = w.balance_minor;
    let c = send_charge(Some(w), 1_000).unwrap();
    assert_eq!((c.debit.wallet_id, c.debit.delta_minor), (3, -1_000));
    assert_eq!((c.refund.wallet_id, c.refund.delta_minor), (3, 1_000));
    assert_eq!(before + c.debit.delta_minor + c.refund.delta_minor, 2_500);
}

#[test]
fn send_charge_refuses_missing_wallet_and_short_funds() {
    assert_eq!(provider_msg(send_charge(None, 1)), "USD wallet not found");
    let w = WalletRow { id: 3, balance_minor: 999 };
    assert_eq!(provider_msg(send_charge(Some(w), 1_000)), "Insufficient USD funds");
}

#[test]
fn only_a_keyed_accepted_send_completes() {
    assert!(matches!(send_end(true, true), PaymentEnd::Completed));
    assert!(matches!(send_end(false, false), PaymentEnd::Abandoned));
    assert!(matches!(send_end(true, false), PaymentEnd::Abandoned));
}

#[test]
fn payment_flow_runs_pin_risk_charge_then_provider() {
    let w = WalletRow { id: 4, balance_minor: 900 };
    let charge = send_charge(Some(w), 300).unwrap();
    let (s, a) = payment_step(PaymentStage::Authorising, PaymentEvent::PinChecked(true));
    assert!(matches!(a, PaymentAction::AssessRisk));
    let (s, a) = payment_step(s, PaymentEvent::RiskAssessed(true));
    assert!(matches!(a, PaymentAction::ChargeWallet));
    let (s, a) = payment_step(s, PaymentEvent::WalletCharged(Some(charge)));
    match a {
        PaymentAction::Debit(m) => assert_eq!((m.wallet_id, m.delta_minor), (4, -300)),
        _ => panic!("expected the debit"),
    }
    let (_, a) = payment_step(s, PaymentEvent::ProviderDone(PaymentEnd::Refunded));
    match a {
        PaymentAction::Refund(m) => assert_eq!((m.wallet_id, m.delta_minor), (4, 300)),
        _ => panic!("expected the refund"),
    }
    let (_, a) = payment_step(s, PaymentEvent::ProviderDone(PaymentEnd::Abandoned));
    assert!(matches!(a, PaymentAction::Rollback));
    let (_, a) = payment_step(s, PaymentEvent::ProviderDone(PaymentEnd::Completed));
    assert!(matches!(a, PaymentAction::Commit));
}

#[test]
fn payment_flow_refusals_write_nothing() {
    let (s, a) = payment_step(PaymentStage::Authorising, PaymentEvent::PinChecked(false));
    assert!(matches!(a, PaymentAction::Stop) && matches!(s, PaymentStage::Closed));
    let (s, _) = payment_step(PaymentStage::Authorising, PaymentEvent::PinChecked(true));
    let (s2, a) = payment_step(s, PaymentEvent::RiskAssessed(false));
    assert!(matches!(a, PaymentAction::Stop) && matches!(s2, PaymentStage::Closed));
    // A charge before the risk assessment is not acted on.
    let (s3, a) = payment_step(s, PaymentEvent::WalletCharged(None));
    assert!(matches!(a, PaymentAction::Ignore) && matches!(s3, PaymentStage::Assessing));
    let (_, a) = payment_step(PaymentStage::Charging, PaymentEvent::WalletCharged(None));
    assert!(matches!(a, PaymentAction::Stop));
}
