use pera::cash_withdrawal::{
    check_partner_action, compute_quote, confirm_write, new_withdrawal_status, ready_write, confirm_withdrawal_at, create_hold_and_transaction,
    created_withdrawal_detail, delivery_address_for, ensure_ng_and_kyc, ensure_partner_role,
    ensure_pin, generate_pickup_code, get_quote, normalize_uppercase, pickup_expiry_at,
    price_withdrawal, ready_location, refund_hold_and_wallet, should_rate_limit_at,
    validate_currency, validate_method, validate_withdrawal_request, withdrawal_config,
    withdrawal_detail, CashWithdrawalRow, ConfirmCandidate, ConfirmOutcome, DeliveryAddress,
    HoldRecord, KycProfile, PartnerContext, PartnerLocation, PartnerMembership, PinRecord,
    DEFAULT_PICKUP_EXPIRY_HOURS, MIN_FEE_MINOR,
};
use pera::error::AppError;
use pera::ledger::WalletRow;
use pera::security::hash_value;

fn provider_msg<T>(r: Result<T, AppError>) -> String {
    match r {
        Err(AppError::ProviderError(m)) => m,
        Err(e) => panic!("expected a provider error, got {:?}", e),
        Ok(_) => panic!("expected a provider error, got Ok"),
    }
}

#[test]
fn quote_fee_is_one_percent_rounded_with_a_minimum() {
    // 1% of 100_000 is 1_000, above the minimum.
    assert_eq!(compute_quote(100_000), (1_000, 101_000));
    // 1% of 10_000 is 100, below the minimum of 500.
    assert_eq!(compute_quote(10_000), (MIN_FEE_MINOR, 10_500));
    // 1% of 123_450 is 1_234.5, rounded half away from zero.
    assert_eq!(compute_quote(123_450), (1_235, 124_685));
    assert_eq!(compute_quote(123_449), (1_234, 124_683));
    // 1% of 50_000 is exactly the minimum.
    assert_eq!(compute_quote(50_000), (500, 50_500));
}

#[test]
fn price_withdrawal_refuses_amounts_out_of_range() {
    assert_eq!(provider_msg(price_withdrawal(0)), "INVALID_AMOUNT");
    assert_eq!(provider_msg(price_withdrawal(-5)), "INVALID_AMOUNT");
    // The largest amount whose total debit still fits in an i64.
    let largest = 9_132_051_521_638_391_888;
    let (_, fee, total) = price_withdrawal(largest).unwrap();
    assert_eq!(fee, 91_320_515_216_383_919);
    assert_eq!(total, i64::MAX);
    assert_eq!(provider_msg(price_withdrawal(largest + 1)), "INVALID_AMOUNT");
    assert_eq!(provider_msg(price_withdrawal(i64::MAX)), "INVALID_AMOUNT");
    let (a, fee, total) = price_withdrawal(200_000).unwrap();
    assert_eq!((a, fee, total), (200_000, 2_000, 202_000));
}

#[test]
fn currencies_and_methods_are_normalised_and_checked() {
    assert_eq!(normalize_uppercase("  usd "), "USD");
    assert_eq!(normalize_uppercase("pickup"), "PICKUP");
    assert!(validate_currency("USD").is_ok());
    assert!(validate_currency("GBP").is_ok());
    assert_eq!(provider_msg(validate_currency("EUR")), "UNSUPPORTED_CURRENCY");
    assert!(validate_method("DELIVERY").is_ok());
    assert_eq!(provider_msg(validate_method("POST")), "UNSUPPORTED_METHOD");
    let (c, m) = validate_withdrawal_request(" gbp", "delivery ").unwrap();
    assert_eq!((c.as_str(), m.as_str()), ("GBP", "DELIVERY"));
    assert_eq!(provider_msg(validate_withdrawal_request("ngn", "pickup")), "UNSUPPORTED_CURRENCY");
    assert_eq!(provider_msg(validate_withdrawal_request("usd", "drone")), "UNSUPPORTED_METHOD");
}

#[test]
fn get_quote_answers_fee_total_and_expiry() {
    let q = get_quote("usd", "pickup", 100_000).unwrap();
    assert_eq!(q.fee_minor, 1_000);
    assert_eq!(q.total_debit_minor, 101_000);
    assert_eq!(q.expiry_hours, DEFAULT_PICKUP_EXPIRY_HOURS);
    assert_eq!(provider_msg(get_quote("usd", "pickup", 0)), "INVALID_AMOUNT");
    assert_eq!(provider_msg(get_quote("xyz", "pickup", 0)), "UNSUPPORTED_CURRENCY");
}

#[test]
fn cash_services_need_a_nigerian_profile_with_an_id() {
    assert!(matches!(ensure_ng_and_kyc(None), Err(AppError::KycIncomplete)));
    let foreign = KycProfile {
        country: Some("gh".to_string()),
        bvn_encrypted: Some("x".to_string()),
        nin_encrypted: None,
    };
    assert_eq!(provider_msg(ensure_ng_and_kyc(Some(foreign))), "NG_ONLY");
    let no_country = KycProfile { country: None, bvn_encrypted: Some("x".to_string()), nin_encrypted: None };
    assert_eq!(provider_msg(ensure_ng_and_kyc(Some(no_country))), "NG_ONLY");
    let no_id = KycProfile { country: Some("ng".to_string()), bvn_encrypted: None, nin_encrypted: None };
    assert!(matches!(ensure_ng_and_kyc(Some(no_id)), Err(AppError::KycIncomplete)));
    let ok = KycProfile { country: Some("NG".to_string()), bvn_encrypted: None, nin_encrypted: Some("n".to_string()) };
    assert!(ensure_ng_and_kyc(Some(ok)).is_ok());
}

#[test]
fn pin_checks_follow_the_stored_hash() {
    let hash = hash_value("1234".to_string()).unwrap();
    assert!(ensure_pin(Some(PinRecord { pin_hash: Some(hash.clone()) }), "1234".to_string()).is_ok());
    assert!(matches!(
        ensure_pin(Some(PinRecord { pin_hash: Some(hash) }), "9999".to_string()),
        Err(AppError::InvalidCredentials)
    ));
    assert_eq!(provider_msg(ensure_pin(Some(PinRecord { pin_hash: None }), "1234".to_string())), "PIN_NOT_SET");
    assert!(matches!(ensure_pin(None, "1234".to_string()), Err(AppError::Unauthorized)));
    assert!(matches!(
        ensure_pin(Some(PinRecord { pin_hash: Some("not a hash".to_string()) }), "1234".to_string()),
        Err(AppError::HashError(_))
    ));
}

#[test]
fn pickup_codes_are_six_digits_and_verify_against_their_hash() {
    let (code, hash) = generate_pickup_code().unwrap();
    assert_eq!(code.len(), 6);
    assert!(code.chars().all(|c| c.is_ascii_digit()));
    assert!(bcrypt::verify(&code, &hash).unwrap());
}

#[test]
fn opening_a_withdrawal_debits_and_holds_the_total() {
    let w = WalletRow { id: 7, balance_minor: 200_000 };
    let p = create_hold_and_transaction(1, Some(w), "USD", 101_000, "CW-1").unwrap();
    assert_eq!(p.wallet_id, 7);
    assert_eq!(p.debit_minor, 101_000);
    assert_eq!(p.entry.amount_minor, -101_000);
    assert_eq!(p.entry.kind, "cash_withdrawal");
    assert_eq!(p.entry.status, "pending");
    assert_eq!(p.entry.title, "Cash withdrawal USD");
    assert_eq!(p.entry.reference, "CW-1");
    assert_eq!(p.hold.amount_minor, 101_000);
    assert_eq!(p.hold.status, "HELD");
    assert_eq!(p.hold.reason, "cash_withdrawal");
    assert_eq!(
        provider_msg(create_hold_and_transaction(1, None, "USD", 10, "CW-1")),
        "WALLET_NOT_FOUND"
    );
    let poor = WalletRow { id: 7, balance_minor: 100 };
    assert_eq!(
        provider_msg(create_hold_and_transaction(1, Some(poor), "USD", 101, "CW-1")),
        "INSUFFICIENT_FUNDS"
    );
}

#[test]
fn a_refund_gives_back_exactly_what_was_held() {
    let balance = 200_000;
    let w = WalletRow { id: 7, balance_minor: balance };
    let p = create_hold_and_transaction(1, Some(w), "USD", 101_000, "CW-1").unwrap();
    let held = HoldRecord {
        wallet_id: p.hold.wallet_id,
        amount_minor: p.hold.amount_minor,
        currency: p.hold.currency.clone(),
        status: p.hold.status.clone(),
    };
    let q = refund_hold_and_wallet(held, "CW-1", 1).unwrap();
    assert_eq!(q.wallet_id, p.wallet_id);
    assert_eq!(balance - p.debit_minor + q.credit_minor, balance);
    assert_eq!(q.new_status, "RELEASED");
    assert_eq!(q.entry.kind, "cash_withdrawal_refund");
    assert_eq!(q.entry.title, "Cash withdrawal refund");
    assert_eq!(q.entry.amount_minor, 101_000);
    // A hold already settled is not refunded twice.
    for status in ["RELEASED", "CONSUMED"] {
        let settled = HoldRecord { wallet_id: 7, amount_minor: 5, currency: "USD".to_string(), status: status.to_string() };
        assert!(refund_hold_and_wallet(settled, "CW-1", 1).is_none());
    }
}

#[test]
fn partner_roles_pick_the_first_granting_membership() {
    let ms = vec![
        PartnerMembership { partner_org_id: 10, role: "PARTNER_AGENT".to_string() },
        PartnerMembership { partner_org_id: 20, role: "PARTNER_ADMIN".to_string() },
        PartnerMembership { partner_org_id: 30, role: "PARTNER_OPS".to_string() },
    ];
    let ctx = ensure_partner_role(&ms, 5, "PARTNER_OPS").unwrap();
    assert_eq!((ctx.user_id, ctx.partner_org_id), (5, 20));
    let ctx = ensure_partner_role(&ms, 5, "PARTNER_AGENT").unwrap();
    assert_eq!(ctx.partner_org_id, 10);
    let agents = vec![PartnerMembership { partner_org_id: 10, role: "PARTNER_AGENT".to_string() }];
    assert!(matches!(ensure_partner_role(&agents, 5, "PARTNER_OPS"), Err(AppError::Forbidden)));
    assert!(matches!(ensure_partner_role(&vec![], 5, "PARTNER_OPS"), Err(AppError::Forbidden)));
}

#[test]
fn pickup_expiry_defaults_to_two_days_and_is_at_least_an_hour() {
    let now = 1_700_000_000_000_000;
    assert_eq!(pickup_expiry_at(None, now), Some(now + 48 * 3600 * 1_000_000));
    assert_eq!(pickup_expiry_at(Some(0), now), Some(now + 3600 * 1_000_000));
    assert_eq!(pickup_expiry_at(Some(-3), now), Some(now + 3600 * 1_000_000));
    assert_eq!(pickup_expiry_at(Some(5), now), Some(now + 5 * 3600 * 1_000_000));
    assert_eq!(pickup_expiry_at(Some(i64::MAX), now), None);
}

#[test]
fn rate_limit_after_five_failures_within_fifteen_minutes() {
    let now = 1_700_000_000_000_000;
    let minute = 60 * 1_000_000;
    assert!(should_rate_limit_at(5, Some(now - 14 * minute), now));
    assert!(!should_rate_limit_at(5, Some(now - 15 * minute), now));
    assert!(!should_rate_limit_at(4, Some(now), now));
    assert!(!should_rate_limit_at(9, None, now));
}

#[test]
fn config_lists_currencies_methods_and_delivery() {
    let c = withdrawal_config(vec!["Lagos".to_string()], Some(2));
    assert_eq!(c.supported_currencies, vec!["USD".to_string(), "GBP".to_string()]);
    assert_eq!(c.methods, vec!["PICKUP".to_string(), "DELIVERY".to_string()]);
    assert!(c.supports_delivery);
    assert_eq!(c.pickup_expiry_hours, 48);
    assert_eq!(c.cities, vec!["Lagos".to_string()]);
    assert!(!withdrawal_config(vec![], Some(0)).supports_delivery);
    assert!(!withdrawal_config(vec![], None).supports_delivery);
}

#[test]
fn delivery_needs_an_address() {
    match delivery_address_for("DELIVERY", Some("1 Road".to_string()), None, None).unwrap() {
        Some(DeliveryAddress::Given(a)) => assert_eq!(a, "1 Road"),
        _ => panic!("expected the given address"),
    }
    match delivery_address_for("DELIVERY", None, Some("Abuja".to_string()), Some("Gate 2".to_string())).unwrap() {
        Some(DeliveryAddress::FromLocation { city, address }) => {
            assert_eq!(city.as_deref(), Some("Abuja"));
            assert_eq!(address, "Gate 2");
        }
        _ => panic!("expected the location's address"),
    }
    assert_eq!(provider_msg(delivery_address_for("DELIVERY", None, None, None)), "DELIVERY_ADDRESS_REQUIRED");
    assert!(delivery_address_for("PICKUP", None, None, None).unwrap().is_none());
}

fn row(status: &str) -> CashWithdrawalRow {
    CashWithdrawalRow {
        id: 1,
        reference: "CW-9".to_string(),
        user_id: 2,
        partner_org_id: Some(3),
        location_id: Some(4),
        currency: "USD".to_string(),
        method: "PICKUP".to_string(),
        amount_minor: 100_000,
        fee_minor: 1_000,
        total_debit_minor: 101_000,
        requested_city: Some("Lagos".to_string()),
        location_detail: Some("Shop 5".to_string()),
        status: status.to_string(),
        pickup_code_expires_at: Some(99),
        delivery_address: Some("Home".to_string()),
        failed_attempts: 0,
        created_at: 1,
        updated_at: 2,
    }
}

#[test]
fn details_show_pickup_instructions_only_when_ready() {
    let d = withdrawal_detail(row("READY"));
    let p = d.pickup_instructions.unwrap();
    assert_eq!(p.location_id, Some(4));
    assert_eq!(p.address.as_deref(), Some("Shop 5"));
    assert_eq!(p.expires_at, Some(99));
    assert_eq!(d.delivery_address.as_deref(), Some("Home"));
    let d = withdrawal_detail(row("COLLECTED"));
    assert!(d.pickup_instructions.is_none());
    assert_eq!(d.delivery_address.as_deref(), Some("Home"));
    let d = withdrawal_detail(row("PENDING_PARTNER"));
    assert!(d.pickup_instructions.is_none());
    assert!(d.delivery_address.is_none());
    assert_eq!(d.total_debit_minor, 101_000);
    let d = created_withdrawal_detail(row("PENDING_PARTNER"));
    assert_eq!(d.delivery_address.as_deref(), Some("Home"));
    assert_eq!(d.reference, "CW-9");
}

#[test]
fn partner_actions_need_the_expected_status_and_organisation() {
    let ctx = PartnerContext { user_id: 1, partner_org_id: 3 };
    assert!(check_partner_action("PENDING_PARTNER", "PENDING_PARTNER", Some(3), ctx).is_ok());
    assert!(check_partner_action("PENDING_PARTNER", "PENDING_PARTNER", None, ctx).is_ok());
    assert!(matches!(
        check_partner_action("PENDING_PARTNER", "PENDING_PARTNER", Some(8), ctx),
        Err(AppError::Forbidden)
    ));
    assert_eq!(provider_msg(check_partner_action("READY", "PENDING_PARTNER", Some(3), ctx)), "INVALID_STATUS");
}

#[test]
fn ready_location_must_serve_the_method() {
    assert_eq!(ready_location("PICKUP", Some(1), None, None).unwrap(), Some(1));
    assert_eq!(provider_msg(ready_location("PICKUP", None, Some(2), None)), "LOCATION_NOT_FOUND");
    let no_pickup = PartnerLocation { id: 2, supports_pickup: false, supports_delivery: true };
    assert_eq!(provider_msg(ready_location("PICKUP", None, Some(2), Some(no_pickup))), "LOCATION_NOT_PICKUP_READY");
    let no_delivery = PartnerLocation { id: 2, supports_pickup: true, supports_delivery: false };
    assert_eq!(provider_msg(ready_location("DELIVERY", None, Some(2), Some(no_delivery))), "LOCATION_NOT_DELIVERY_READY");
    let both = PartnerLocation { id: 2, supports_pickup: true, supports_delivery: true };
    assert_eq!(ready_location("DELIVERY", Some(1), Some(2), Some(both)).unwrap(), Some(2));
}

fn candidate(method: &str, hash: Option<String>) -> ConfirmCandidate {
    ConfirmCandidate {
        status: "READY".to_string(),
        partner_org_id: Some(3),
        method: method.to_string(),
        pickup_code_hash: hash,
        pickup_code_expires_at: Some(2_000),
        failed_attempts: 0,
        last_failed_at: None,
    }
}

#[test]
fn confirming_a_pickup_checks_the_code() {
    let ctx = PartnerContext { user_id: 1, partner_org_id: 3 };
    let hash = hash_value("042195".to_string()).unwrap();
    let ok = confirm_withdrawal_at(candidate("PICKUP", Some(hash.clone())), ctx, Some("042195".to_string()), None, 1_000);
    assert!(matches!(ok, Ok(ConfirmOutcome::Collected { partner_org_id: 3 })));
    let wrong = confirm_withdrawal_at(candidate("PICKUP", Some(hash.clone())), ctx, Some("000000".to_string()), None, 1_000);
    assert!(matches!(wrong, Ok(ConfirmOutcome::FailedAttempt)));
    let late = confirm_withdrawal_at(candidate("PICKUP", Some(hash.clone())), ctx, Some("042195".to_string()), None, 3_000);
    assert!(matches!(late, Ok(ConfirmOutcome::Expired)));
    assert_eq!(
        provider_msg(confirm_withdrawal_at(candidate("PICKUP", Some(hash.clone())), ctx, None, None, 1_000)),
        "PICKUP_CODE_REQUIRED"
    );
    assert_eq!(
        provider_msg(confirm_withdrawal_at(candidate("PICKUP", None), ctx, Some("1".to_string()), None, 1_000)),
        "PICKUP_CODE_MISSING"
    );
    let mut limited = candidate("PICKUP", Some(hash));
    limited.failed_attempts = 5;
    limited.last_failed_at = Some(900);
    assert_eq!(
        provider_msg(confirm_withdrawal_at(limited, ctx, Some("042195".to_string()), None, 1_000)),
        "TOO_MANY_ATTEMPTS"
    );
}

#[test]
fn confirming_a_delivery_needs_the_flag_and_a_ready_withdrawal() {
    let ctx = PartnerContext { user_id: 1, partner_org_id: 3 };
    assert!(matches!(
        confirm_withdrawal_at(candidate("DELIVERY", None), ctx, None, Some(true), 1_000),
        Ok(ConfirmOutcome::Collected { partner_org_id: 3 })
    ));
    assert_eq!(
        provider_msg(confirm_withdrawal_at(candidate("DELIVERY", None), ctx, None, Some(false), 1_000)),
        "DELIVERY_CONFIRMATION_REQUIRED"
    );
    assert_eq!(
        provider_msg(confirm_withdrawal_at(candidate("DELIVERY", None), ctx, None, None, 1_000)),
        "DELIVERY_CONFIRMATION_REQUIRED"
    );
    // Only a READY withdrawal moves on, and only for its own organisation.
    let mut pending = candidate("DELIVERY", None);
    pending.status = "PENDING_PARTNER".to_string();
    assert_eq!(provider_msg(confirm_withdrawal_at(pending, ctx, None, Some(true), 1_000)), "INVALID_STATUS");
    let other = PartnerContext { user_id: 1, partner_org_id: 4 };
    assert!(matches!(
        confirm_withdrawal_at(candidate("DELIVERY", None), other, None, Some(true), 1_000),
        Err(AppError::Forbidden)
    ));
}

#[test]
fn the_hold_is_the_quoted_total() {
    let (amount, fee, total) = price_withdrawal(250_000).unwrap();
    assert_eq!((amount, fee, total), (250_000, 2_500, 252_500));
    let w = WalletRow { id: 3, balance_minor: 300_000 };
    let p = create_hold_and_transaction(9, Some(w), "GBP", total, "CW-2").unwrap();
    assert_eq!(p.debit_minor, amount + fee);
    assert_eq!(p.hold.amount_minor, p.debit_minor);
    assert_eq!(p.entry.amount_minor, -p.debit_minor);
    assert_eq!((p.hold.wallet_id, p.entry.wallet_id, p.wallet_id), (3, 3, 3));
}

#[test]
fn settled_withdrawals_take_no_partner_action() {
    let ctx = PartnerContext { user_id: 1, partner_org_id: 3 };
    for settled in ["COLLECTED", "EXPIRED"] {
        assert_eq!(provider_msg(check_partner_action(settled, "PENDING", Some(3), ctx)), "INVALID_STATUS");
        let mut rec = candidate("DELIVERY", None);
        rec.status = settled.to_string();
        assert_eq!(provider_msg(confirm_withdrawal_at(rec, ctx, None, Some(true), 1_000)), "INVALID_STATUS");
    }
}

#[test]
fn withdrawal_statuses_written() {
    assert_eq!(new_withdrawal_status(), "PENDING");
    let ctx = PartnerContext { user_id: 1, partner_org_id: 2 };
    let w = ready_write(ctx, Some(4), "hash".to_string(), 1_700_000_000_000_000);
    assert_eq!(w.status, "READY");
    assert_eq!(w.partner_org_id, 2);
    assert_eq!(w.location_id, Some(4));
    assert_eq!(w.pickup_code_hash, "hash");
    assert_eq!(w.pickup_code_expires_at, 1_700_000_000_000_000);
}

#[test]
fn confirm_writes_per_outcome() {
    let e = confirm_write(&ConfirmOutcome::Expired);
    assert_eq!(e.status.as_deref(), Some("EXPIRED"));
    assert!(e.refund_hold && e.failed_attempts_added == 0 && e.hold_status.is_none());
    let f = confirm_write(&ConfirmOutcome::FailedAttempt);
    assert_eq!(f.status, None);
    assert_eq!(f.failed_attempts_added, 1);
    assert!(!f.refund_hold && !f.reset_failed_attempts && f.debit_status.is_none());
    let c = confirm_write(&ConfirmOutcome::Collected { partner_org_id: 5 });
    assert_eq!(c.status.as_deref(), Some("COLLECTED"));
    assert!(c.reset_failed_attempts && !c.refund_hold);
    assert_eq!(c.hold_status.as_deref(), Some("CONSUMED"));
    assert_eq!(c.debit_status.as_deref(), Some("completed"));
}
