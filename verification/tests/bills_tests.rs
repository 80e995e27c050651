use pera::bills::{
    bill_charge, bill_end, bill_pay_response, bill_payment_entry, check_ngn_wallet, effective_reference,
    fraud_counterparty, plan_bill_vend, provider_reference_or_unknown, req_str, services_for,
    unsupported_category, validation_route, BillPayPayload, BillVend, ValidationRoute,
};
use pera::bills_mock::{get_mock_products, get_mock_providers, get_mock_schema};
use pera::error::AppError;
use pera::ledger::{PaymentEnd, WalletRow};

fn provider_msg<T>(r: Result<T, AppError>) -> String {
    match r {
        Err(AppError::ProviderError(m)) => m,
        Err(e) => panic!("expected a provider error, got {:?}", e),
        Ok(_) => panic!("expected a provider error, got Ok"),
    }
}

fn payload(category: &str) -> BillPayPayload {
    BillPayPayload {
        category: category.to_string(),
        service_code: "mtn".to_string(),
        amount: 50_000,
        account_number: "0801".to_string(),
        product_code: None,
        product_token: None,
        meter_type: None,
        phone_number: None,
        from_phone: None,
        pin: "1234".to_string(),
        reference: "REF-1".to_string(),
        extra: None,
    }
}

#[test]
fn service_catalogue_per_category() {
    let e = services_for("electricity");
    assert_eq!(e.len(), 2);
    assert_eq!(e[0].code, "ikedc_prepaid");
    assert_eq!(e[0].service_type, "electricity");
    assert_eq!(e[1].service_type, "electricity");
    assert_eq!(e[1].label, "IKEDC Postpaid");
    assert_eq!((e[0].min_amount, e[0].max_amount), (10_000, 50_000_000));
    let a = services_for("airtime");
    assert_eq!(a.len(), 2);
    assert_eq!(a[1].label, "GLO Airtime");
    let d = services_for("data");
    assert_eq!(d.len(), 1);
    assert_eq!(d[0].max_amount, 100_000_000);
    assert_eq!(services_for("cable_tv")[1].code, "gotv");
    assert_eq!(services_for("epin")[0].provider, "Payscribe");
    assert!(services_for("gas").is_empty());
}

#[test]
fn required_fields_are_trimmed_and_non_empty() {
    assert_eq!(req_str(&Some("  080 ".to_string()), "missing").unwrap(), "080");
    assert_eq!(provider_msg(req_str(&Some("   ".to_string()), "missing")), "missing");
    assert_eq!(provider_msg(req_str(&None, "missing")), "missing");
}

#[test]
fn validation_routes() {
    match validation_route("electricity", &Some("prepaid".to_string())).unwrap() {
        ValidationRoute::Electricity { meter_type } => assert_eq!(meter_type, "prepaid"),
        _ => panic!("expected electricity"),
    }
    assert_eq!(provider_msg(validation_route("electricity", &None)), "meter_type is required for electricity");
    assert!(matches!(validation_route("cable_tv", &None), Ok(ValidationRoute::CableTv)));
    assert_eq!(provider_msg(validation_route("airtime", &None)), "Category not supported for validation");
}

#[test]
fn a_blank_reference_gets_a_fresh_uuid() {
    assert_eq!(effective_reference("ABC".to_string()), "ABC");
    let r = effective_reference("   ".to_string());
    assert_eq!(r.len(), 36);
    assert_eq!(r.as_bytes()[14], b'4');
    assert_ne!(r, effective_reference(String::new()));
}

#[test]
fn risk_counterparty_prefers_a_product_code() {
    let svc = "dstv".to_string();
    assert_eq!(fraud_counterparty(&Some("padi".to_string()), &svc), "padi");
    assert_eq!(fraud_counterparty(&Some("  ".to_string()), &svc), "dstv");
    assert_eq!(fraud_counterparty(&None, &svc), "dstv");
}

#[test]
fn bills_are_paid_from_the_ngn_wallet() {
    assert_eq!(provider_msg(check_ngn_wallet(None, 10)), "NGN wallet not found");
    assert_eq!(
        provider_msg(check_ngn_wallet(Some(WalletRow { id: 1, balance_minor: 9 }), 10)),
        "Insufficient NGN funds"
    );
    assert_eq!(check_ngn_wallet(Some(WalletRow { id: 1, balance_minor: 10 }), 10).unwrap().id, 1);
}

#[test]
fn vend_requests_per_category() {
    let mut p = payload("airtime");
    assert_eq!(provider_msg(plan_bill_vend(&p)), "phone_number required for airtime");
    p.phone_number = Some(" 0803 ".to_string());
    assert_eq!(provider_msg(plan_bill_vend(&p)), "from_phone required for airtime");
    p.from_phone = Some("0804".to_string());
    match plan_bill_vend(&p).unwrap() {
        Some(BillVend::Airtime { service_code, amount, phone, from, reference }) => {
            assert_eq!(service_code, "mtn");
            assert_eq!(amount, 50_000);
            assert_eq!(phone, "0803");
            assert_eq!(from, "0804");
            assert_eq!(reference, "REF-1");
        }
        _ => panic!("expected an airtime vend"),
    }

    let mut p = payload("data");
    assert_eq!(provider_msg(plan_bill_vend(&p)), "phone_number required for data");
    p.phone_number = Some("0803".to_string());
    assert!(matches!(plan_bill_vend(&p), Ok(Some(BillVend::Data { .. }))));

    let mut p = payload("electricity");
    assert_eq!(provider_msg(plan_bill_vend(&p)), "product_code required for electricity vend");
    p.product_code = Some("P1".to_string());
    assert_eq!(provider_msg(plan_bill_vend(&p)), "product_token required for electricity vend");
    p.product_token = Some("T1".to_string());
    match plan_bill_vend(&p).unwrap() {
        Some(BillVend::Electricity { product_code, product_token, .. }) => {
            assert_eq!((product_code.as_str(), product_token.as_str()), ("P1", "T1"));
        }
        _ => panic!("expected an electricity vend"),
    }

    let mut p = payload("cable_tv");
    assert_eq!(provider_msg(plan_bill_vend(&p)), "product_code required for cable_tv vend");
    p.product_code = Some("P1".to_string());
    p.product_token = Some(" ".to_string());
    assert_eq!(provider_msg(plan_bill_vend(&p)), "product_token required for cable_tv vend");

    let mut p = payload("epin");
    assert_eq!(provider_msg(plan_bill_vend(&p)), "extra payload required for epin vend");
    p.extra = Some("{\"qty\":1}".to_string());
    match plan_bill_vend(&p).unwrap() {
        Some(BillVend::Epin { payload }) => assert_eq!(payload, "{\"qty\":1}"),
        _ => panic!("expected an epin vend"),
    }

    assert!(plan_bill_vend(&payload("gas")).unwrap().is_none());
    match unsupported_category() {
        AppError::ProviderError(m) => assert_eq!(m, "Category not supported"),
        e => panic!("unexpected {:?}", e),
    }
}

#[test]
fn ledger_entry_and_answer_of_a_payment() {
    let e = bill_payment_entry(1, 2, 50_000, "mtn", "REF-1");
    assert_eq!(e.amount_minor, -50_000);
    assert_eq!(e.kind, "bill_payment");
    assert_eq!(e.status, "pending");
    assert_eq!(e.currency, "NGN");
    assert_eq!(e.title, "Bill Payment: mtn");
    assert_eq!(e.counterparty.as_deref(), Some("mtn"));
    let r = bill_pay_response("REF-1".to_string(), "PS-9".to_string(), 50_000, "airtime".to_string(), "mtn".to_string());
    assert_eq!(r.status, "processing");
    assert_eq!(r.message, "Bill payment initiated successfully");
    assert_eq!(r.provider_reference, "PS-9");
    assert_eq!(provider_reference_or_unknown(None), "unknown");
    assert_eq!(provider_reference_or_unknown(Some("T1".to_string())), "T1");
}

#[test]
fn mock_catalogue() {
    let cable = get_mock_providers("cable");
    assert_eq!(cable.len(), 3);
    assert_eq!((cable[2].code, cable[2].name), ("startimes", "StarTimes"));
    let power = get_mock_providers("electricity");
    assert_eq!(power[0].name, "Ikeja Electric");
    assert!(get_mock_providers("water").is_empty());
    let dstv = get_mock_products("dstv");
    assert_eq!(dstv.len(), 3);
    assert_eq!((dstv[2].code, dstv[2].price), ("dstv-premium", 2_100_000));
    assert!(get_mock_products("gotv").is_empty());
    let schema = get_mock_schema("electricity", "ikedc");
    assert_eq!(schema.len(), 2);
    assert_eq!(schema[1].field_type, "select");
    let options = schema[1].options.as_ref().unwrap();
    assert_eq!(options[0].code, "prepaid");
    assert_eq!(options[1].name, "Postpaid");
    assert_eq!(get_mock_schema("cable", "dstv")[0].key, "smartcard");
    assert!(get_mock_schema("water", "x").is_empty());
}

#[test]
fn bill_charge_debits_and_refunds_the_amount() {
    let w = WalletRow { id: 9, balance_minor: 5_000 };
    let before = w.balance_minor;
    let c = bill_charge(Some(w), 5_000).unwrap();
    assert_eq!((c.debit.wallet_id, c.debit.delta_minor), (9, -5_000));
    assert_eq!((c.refund.wallet_id, c.refund.delta_minor), (9, 5_000));
    assert_eq!(before + c.debit.delta_minor, 0);
    assert_eq!(before + c.debit.delta_minor + c.refund.delta_minor, 5_000);
}

#[test]
fn bill_charge_refuses_missing_wallet_and_short_funds() {
    assert_eq!(provider_msg(bill_charge(None, 10)), "NGN wallet not found");
    let w = WalletRow { id: 9, balance_minor: 9 };
    assert_eq!(provider_msg(bill_charge(Some(w), 10)), "Insufficient NGN funds");
}

#[test]
fn bill_end_follows_plan_and_vend() {
    let unsupported = plan_bill_vend(&payload("gaming"));
    assert!(matches!(bill_end(&unsupported, false), PaymentEnd::Refunded));
    let missing = plan_bill_vend(&payload("airtime"));
    assert!(missing.is_err());
    assert!(matches!(bill_end(&missing, false), PaymentEnd::Abandoned));
    let planned: Result<Option<BillVend>, AppError> = Ok(Some(BillVend::Epin { payload: "{}".to_string() }));
    assert!(matches!(bill_end(&planned, true), PaymentEnd::Completed));
    assert!(matches!(bill_end(&planned, false), PaymentEnd::Abandoned));
}
