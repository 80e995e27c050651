use pera::accounts::{
    beneficiary_insert_error, check_beneficiary_deleted, check_closure_pin, get_app_config,
    insert_conflict_error, ClosurePayload,
};
use pera::analytics::{
    dashboard_stats, default_days, dormancy_csv, dormancy_cutoff_at, DashboardCounts,
    DashboardStats, DormantUserRecord,
};
use pera::brails::{
    api_error_text, card_user_result, create_customer_payload, customer_envelope_result,
    update_customer_payload, virtual_account_result, wallet_envelope_result,
    BrailsRegisterUserData, BrailsVirtualAccountData, CreateCustomerRequest,
    UpdateCustomerRequest,
};
use pera::cards::{
    card_user_payload, check_kyc, physical_card, registered_kyc_status, require_kyc_profile,
    virtual_card, CardUserProfile,
};
use pera::crypto::CryptoService;
use pera::dto::VendEpinRequest;
use pera::error::AppError;
use pera::security::hash_value;

fn provider_msg<T>(r: Result<T, AppError>) -> String {
    match r {
        Err(AppError::ProviderError(m)) => m,
        Err(e) => panic!("expected a provider error, got {:?}", e),
        Ok(_) => panic!("expected a provider error, got Ok"),
    }
}

#[test]
fn cards_need_verified_kyc() {
    assert!(check_kyc(Some("verified".to_string())).is_ok());
    assert!(matches!(check_kyc(Some("pending".to_string())), Err(AppError::KycIncomplete)));
    assert!(matches!(check_kyc(None), Err(AppError::KycIncomplete)));
}

fn profile(bvn: Option<String>, first: Option<&str>, last: Option<&str>) -> CardUserProfile {
    CardUserProfile {
        first_name: first.map(|s| s.to_string()),
        surname: last.map(|s| s.to_string()),
        bvn_encrypted: bvn,
    }
}

#[test]
fn card_user_registration_payload() {
    let svc = CryptoService::new("k");
    let bvn = svc.encrypt("22233344455");
    let p = card_user_payload(profile(Some(bvn.clone()), Some("Ada"), Some("Obi")), "a@b.co".to_string(), "080".to_string(), &svc).unwrap();
    assert_eq!(p.bvn, "22233344455");
    assert_eq!(p.id_number, "22233344455");
    assert_eq!(p.id_type, "BVN");
    assert_eq!((p.first_name.as_str(), p.last_name.as_str()), ("Ada", "Obi"));
    assert_eq!((p.city.as_str(), p.state.as_str(), p.country.as_str()), ("Lagos", "Lagos", "NG"));
    assert_eq!(p.customer_email, "a@b.co");
    assert_eq!(p.phone_number, "080");
    assert_eq!(p.user_photo, "mock-base-64-string");

    let none = card_user_payload(profile(None, Some("Ada"), Some("Obi")), String::new(), String::new(), &svc);
    assert_eq!(provider_msg(none), "BVN is required");
    let undecryptable = card_user_payload(profile(Some("zzz".to_string()), Some("Ada"), Some("Obi")), String::new(), String::new(), &svc);
    assert_eq!(provider_msg(undecryptable), "BVN is required");
    let no_first = card_user_payload(profile(Some(bvn.clone()), None, Some("Obi")), String::new(), String::new(), &svc);
    assert_eq!(provider_msg(no_first), "First name required");
    let no_last = card_user_payload(profile(Some(bvn), Some("Ada"), None), String::new(), String::new(), &svc);
    assert_eq!(provider_msg(no_last), "Surname required");

    assert_eq!(provider_msg(require_kyc_profile(None)), "KYC profile not found. Please submit first.");
    assert!(require_kyc_profile(Some(profile(None, None, None))).is_ok());
    assert_eq!(registered_kyc_status("PENDING"), "pending");
}

#[test]
fn issued_cards() {
    let v = virtual_card("visa".to_string());
    assert_eq!((v.kind.as_str(), v.product.as_str(), v.currency.as_str()), ("virtual", "standard", "USD"));
    assert_eq!(v.holder_name, "Pera User");
    assert_eq!(v.masked_pan, "**** **** **** 1234");
    assert!(v.activated);
    let p = physical_card("mastercard".to_string(), "Ada Obi".to_string());
    assert_eq!((p.kind.as_str(), p.product.as_str()), ("physical", "umrahPrepaid"));
    assert_eq!(p.holder_name, "Ada Obi");
    assert_eq!(p.masked_pan, "**** **** **** 5678");
    assert!(!p.activated);
}

#[test]
fn provider_answers() {
    assert_eq!(api_error_text("502 Bad Gateway", "oops"), "Brails API error: 502 Bad Gateway - oops");
    assert_eq!(customer_envelope_result(true, None, 7).unwrap(), 7);
    assert_eq!(customer_envelope_result(false, Some("bad email".to_string()), 7).unwrap_err(), "bad email");
    assert_eq!(customer_envelope_result(false, None, 7).unwrap_err(), "Brails returned failure");
    assert_eq!(wallet_envelope_result(false, "no chain".to_string(), 1).unwrap_err(), "no chain");
    assert_eq!(wallet_envelope_result(true, "ok".to_string(), 1).unwrap(), 1);
    let acct = BrailsVirtualAccountData {
        id: "1".to_string(),
        bank: "providus".to_string(),
        account_name: "Ada".to_string(),
        account_number: "0123".to_string(),
        status: "BVN_INVALID".to_string(),
    };
    match virtual_account_result(false, acct) {
        Err(m) => assert_eq!(m, "BVN_INVALID"),
        Ok(_) => panic!("expected the account status as the reason"),
    }
    let user = BrailsRegisterUserData {
        user_id: "u1".to_string(),
        customer_email: "a@b.co".to_string(),
        kyc_status: "BVN_MISMATCH".to_string(),
    };
    match card_user_result(false, user) {
        Err(m) => assert_eq!(m, "BVN_MISMATCH"),
        Ok(_) => panic!("expected the KYC status as the reason"),
    }
    let req = CreateCustomerRequest {
        first_name: Some("Ada".to_string()),
        last_name: None,
        email: "a@b.co".to_string(),
        phone: None,
        country_code: Some("NG".to_string()),
    };
    let p = create_customer_payload(req);
    assert_eq!(p.first_name.as_deref(), Some("Ada"));
    assert_eq!(p.email, "a@b.co");
    assert_eq!(p.country_code.as_deref(), Some("NG"));
    let up = update_customer_payload(UpdateCustomerRequest {
        email: "a@b.co".to_string(),
        first_name: "Ada".to_string(),
        last_name: "Obi".to_string(),
        phone: Some("080".to_string()),
        country_code: None,
    });
    assert_eq!(up.last_name, "Obi");
    assert_eq!(up.phone.as_deref(), Some("080"));
}

#[test]
fn beneficiaries_and_closure() {
    match insert_conflict_error(true, sqlx::Error::RowNotFound) {
        AppError::ProviderError(m) => assert_eq!(m, "Beneficiary already exists"),
        e => panic!("unexpected {:?}", e),
    }
    assert!(matches!(insert_conflict_error(false, sqlx::Error::RowNotFound), AppError::DatabaseError(_)));
    // A missing row is not a unique violation.
    assert!(matches!(beneficiary_insert_error(sqlx::Error::RowNotFound), AppError::DatabaseError(_)));
    assert_eq!(provider_msg(check_beneficiary_deleted(0)), "Beneficiary not found");
    assert!(check_beneficiary_deleted(1).is_ok());

    let h = hash_value("4321".to_string()).unwrap();
    let ok = ClosurePayload { reason: None, pin: "4321".to_string() };
    assert!(check_closure_pin(Some(h.clone()), &ok).is_ok());
    let wrong = ClosurePayload { reason: Some("moving".to_string()), pin: "0000".to_string() };
    assert!(matches!(check_closure_pin(Some(h), &wrong), Err(AppError::InvalidCredentials)));
    assert_eq!(provider_msg(check_closure_pin(None, &ok)), "PIN_NOT_SET");
}

#[test]
fn app_config() {
    let c = get_app_config();
    assert_eq!(c.referral_code, "PERA1234");
    assert_eq!(c.daily_limit_fmt, "₦10,000");
    assert_eq!(c.monthly_limit_fmt, "₦30,000");
    assert_eq!(c.app_version, "1.0.0");
    assert_eq!(c.copyright_text, "© 2026 Pera Fide Services Limited");
    assert_eq!(c.certificate_url, "https://pera.com/certificates/islamic_governance.pdf");
}

#[test]
fn dashboard_counts_missing_aggregates_as_zero() {
    let s = dashboard_stats(DashboardCounts {
        total_users: Some(10),
        new_users_today: None,
        total_volume_ngn: Some(5_000),
        total_volume_usd: None,
        dormant_users_7_days: Some(3),
        dormant_users_30_days: Some(2),
        dormant_users_90_days: None,
    });
    assert_eq!((s.total_users, s.new_users_today, s.total_volume_ngn, s.total_volume_usd), (10, 0, 5_000, 0));
    assert_eq!((s.dormant_users_7_days, s.dormant_users_30_days, s.dormant_users_90_days), (3, 2, 0));
    let z = DashboardStats::default();
    assert_eq!(z.total_users + z.dormant_users_90_days, 0);
}

#[test]
fn dormancy_report() {
    assert_eq!(default_days(), 30);
    assert_eq!(dormancy_cutoff_at(100 * 86_400_000_000, 30), Some(70 * 86_400_000_000));
    assert_eq!(dormancy_cutoff_at(0, i64::MAX), None);
    let users = vec![
        DormantUserRecord {
            user_id: 1,
            email: "a@b.co".to_string(),
            phone: "080".to_string(),
            last_transaction_at: Some(0),
        },
        DormantUserRecord {
            user_id: 2,
            email: "c,d@e.co".to_string(),
            phone: "081".to_string(),
            last_transaction_at: None,
        },
    ];
    let csv = dormancy_csv(&users).unwrap();
    assert_eq!(
        csv,
        "user_id,email,phone,last_transaction_at\n\
         00000000-0000-0000-0000-000000000001,a@b.co,080,1970-01-01T00:00:00+00:00\n\
         00000000-0000-0000-0000-000000000002,\"c,d@e.co\",081,\n"
    );
}

#[test]
fn epin_orders_name_our_reference_ref() {
    let full = VendEpinRequest {
        qty: 2,
        id: "mtn-100".to_string(),
        ref_: Some("REF-7".to_string()),
        account: None,
        phone: Some("080".to_string()),
    };
    let fields = full.wire_fields();
    assert_eq!(
        fields,
        vec![
            ("id".to_string(), "mtn-100".to_string()),
            ("ref".to_string(), "REF-7".to_string()),
            ("phone".to_string(), "080".to_string()),
        ]
    );
    let bare = VendEpinRequest { qty: 1, id: "x".to_string(), ref_: None, account: None, phone: None };
    assert_eq!(bare.wire_fields(), vec![("id".to_string(), "x".to_string())]);
}
