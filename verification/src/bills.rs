//! Bill payments: the service catalogue, customer validation routes, and the
//! decisions of a payment (reference, PIN, funds, provider request, ledger).

use crate::error::{fails_with, provider_error, AppError};
use crate::ids::{is_uuid_v4, random_uuid_v4};
use crate::ledger::{
    balance_after, charge, funds_decided, is_charge, require_funds, standing_moves, Charge, LedgerEntry,
    PaymentEnd, WalletRow,
};
use crate::text::{append_text, same_text, trim_text, trimmed, uuid_string, uuid_text};
use vstd::prelude::*;
use vstd::string::*;

verus! {

/// `GET /bills/services?category=..`
pub struct ServiceQuery {
    pub category: String,
}

/// `GET /bills/cable/bouquets?service=..`
pub struct CableBouquetQuery {
    pub service: String,
}

/// A billable service (amounts in kobo); its type is its category.
pub struct BillService {
    pub code: String,
    pub provider: String,
    pub label: String,
    pub service_type: String,
    pub min_amount: i64,
    pub max_amount: i64,
}

/// A customer validation request (meter, smartcard, decoder).
pub struct ValidatePayload {
    pub category: String,
    pub service_code: String,
    pub account_number: String,
    pub meter_type: Option<String>,
    pub amount: i64,
}

/// A bill payment request.
pub struct BillPayPayload {
    pub category: String,
    pub service_code: String,
    pub amount: i64,
    pub account_number: String,
    pub product_code: Option<String>,
    pub product_token: Option<String>,
    pub meter_type: Option<String>,
    pub phone_number: Option<String>,
    pub from_phone: Option<String>,
    pub pin: String,
    pub reference: String,
    /// The provider-specific payload, as JSON text.
    pub extra: Option<String>,
}

/// The answer to an accepted bill payment.
pub struct BillPayResponse {
    pub status: String,
    pub reference: String,
    pub provider_reference: String,
    pub message: String,
    pub amount: i64,
    pub category: String,
    pub service_code: String,
}

proof fn lemma_categories_distinct()
    ensures
        "electricity"@ != "airtime"@,
        "electricity"@ != "data"@,
        "electricity"@ != "cable_tv"@,
        "electricity"@ != "epin"@,
        "airtime"@ != "data"@,
        "airtime"@ != "cable_tv"@,
        "airtime"@ != "epin"@,
        "data"@ != "cable_tv"@,
        "data"@ != "epin"@,
        "cable_tv"@ != "epin"@,
{
    reveal_strlit("electricity");
    reveal_strlit("airtime");
    reveal_strlit("data");
    reveal_strlit("cable_tv");
    reveal_strlit("epin");
    assert("electricity"@.len() == 11);
    assert("airtime"@.len() == 7);
    assert("data"@.len() == 4);
    assert("cable_tv"@.len() == 8);
    assert("epin"@.len() == 4);
    assert("data"@[0] != "epin"@[0]);
}

/// `s` is the service with these fields.
pub open spec fn service_is(
    s: BillService,
    code: Seq<char>,
    provider: Seq<char>,
    label: Seq<char>,
    service_type: Seq<char>,
    min_amount: i64,
    max_amount: i64,
) -> bool {
    &&& s.code@ == code
    &&& s.provider@ == provider
    &&& s.label@ == label
    &&& s.service_type@ == service_type
    &&& s.min_amount == min_amount
    &&& s.max_amount == max_amount
}

fn service(
    code: &str,
    provider: &str,
    label: &str,
    service_type: &str,
    min_amount: i64,
    max_amount: i64,
) -> (s: BillService)
    ensures
        service_is(s, code@, provider@, label@, service_type@, min_amount, max_amount),
{
    BillService {
        code: String::from_str(code),
        provider: String::from_str(provider),
        label: String::from_str(label),
        service_type: String::from_str(service_type),
        min_amount,
        max_amount,
    }
}

/// The services offered in a category; none for an unknown category.
pub fn services_for(category: &str) -> (r: Vec<BillService>)
    ensures
        forall|i: int|
            0 <= i < r@.len() ==> (#[trigger] r@[i]).service_type@ == category@ && r@[i].min_amount
                <= r@[i].max_amount,
        category@ == "electricity"@ ==> r@.len() == 2 && service_is(
            r@[0],
            "ikedc_prepaid"@,
            "IKEDC"@,
            "IKEDC Prepaid"@,
            "electricity"@,
            10_000,
            50_000_000,
        ) && service_is(
            r@[1],
            "ikedc_postpaid"@,
            "IKEDC"@,
            "IKEDC Postpaid"@,
            "electricity"@,
            10_000,
            50_000_000,
        ),
        category@ == "airtime"@ ==> r@.len() == 2 && service_is(
            r@[0],
            "mtn"@,
            "MTN"@,
            "MTN Airtime"@,
            "airtime"@,
            100,
            50_000_000,
        ) && service_is(r@[1], "glo"@, "GLO"@, "GLO Airtime"@, "airtime"@, 100, 50_000_000),
        category@ == "data"@ ==> r@.len() == 1 && service_is(
            r@[0],
            "mtn"@,
            "MTN"@,
            "MTN Data"@,
            "data"@,
            100,
            100_000_000,
        ),
        category@ == "cable_tv"@ ==> r@.len() == 2 && service_is(
            r@[0],
            "dstv"@,
            "DSTV"@,
            "DSTV"@,
            "cable_tv"@,
            100,
            50_000_000,
        ) && service_is(r@[1], "gotv"@, "GOTV"@, "GOTV"@, "cable_tv"@, 100, 50_000_000),
        category@ == "epin"@ ==> r@.len() == 1 && service_is(
            r@[0],
            "epin"@,
            "Payscribe"@,
            "ePins"@,
            "epin"@,
            0,
            0,
        ),
        category@ != "electricity"@ && category@ != "airtime"@ && category@ != "data"@
            && category@ != "cable_tv"@ && category@ != "epin"@ ==> r@.len() == 0,
{
    proof {
        lemma_categories_distinct();
    }
    let mut v: Vec<BillService> = Vec::new();
    if same_text(category, "electricity") {
        v.push(service("ikedc_prepaid", "IKEDC", "IKEDC Prepaid", "electricity", 10_000, 50_000_000));
        v.push(
            service("ikedc_postpaid", "IKEDC", "IKEDC Postpaid", "electricity", 10_000, 50_000_000),
        );
    } else if same_text(category, "airtime") {
        v.push(service("mtn", "MTN", "MTN Airtime", "airtime", 100, 50_000_000));
        v.push(service("glo", "GLO", "GLO Airtime", "airtime", 100, 50_000_000));
    } else if same_text(category, "data") {
        v.push(service("mtn", "MTN", "MTN Data", "data", 100, 100_000_000));
    } else if same_text(category, "cable_tv") {
        v.push(service("dstv", "DSTV", "DSTV", "cable_tv", 100, 50_000_000));
        v.push(service("gotv", "GOTV", "GOTV", "cable_tv", 100, 50_000_000));
    } else if same_text(category, "epin") {
        v.push(service("epin", "Payscribe", "ePins", "epin", 0, 0));
    }
    v
}

/// The trimmed text of an optional field, when there is any.
pub open spec fn required_text(v: Option<String>) -> Option<Seq<char>> {
    match v {
        Some(s) => if trimmed(s@).len() > 0 {
            Some(trimmed(s@))
        } else {
            None
        },
        None => None,
    }
}

/// A field the request must carry: trimmed, and not empty (else the error `err`).
pub fn req_str(v: &Option<String>, err: &str) -> (r: Result<String, AppError>)
    ensures
        match required_text(*v) {
            Some(t) => r matches Ok(s) && s@ == t,
            None => fails_with(r, err@),
        },
{
    match v {
        Some(s) => {
            let t = trim_text(s.as_str());
            if t.as_str().unicode_len() == 0 {
                Err(provider_error(err))
            } else {
                Ok(t)
            }
        },
        None => Err(provider_error(err)),
    }
}

/// Which provider check validates a customer.
pub enum ValidationRoute {
    Electricity { meter_type: String },
    CableTv,
}

/// The provider check for a validation request: electricity needs a meter
/// type; only electricity and cable TV customers are validated.
pub fn validation_route(category: &str, meter_type: &Option<String>) -> (r: Result<
    ValidationRoute,
    AppError,
>)
    ensures
        category@ == "electricity"@ ==> match meter_type {
            Some(m) => r matches Ok(ValidationRoute::Electricity { meter_type: t }) && t@ == m@,
            None => fails_with(r, "meter_type is required for electricity"@),
        },
        category@ == "cable_tv"@ ==> r matches Ok(ValidationRoute::CableTv),
        category@ != "electricity"@ && category@ != "cable_tv"@ ==> fails_with(
            r,
            "Category not supported for validation"@,
        ),
{
    proof {
        lemma_categories_distinct();
    }
    if same_text(category, "electricity") {
        match meter_type {
            Some(m) => Ok(ValidationRoute::Electricity { meter_type: m.clone() }),
            None => Err(provider_error("meter_type is required for electricity")),
        }
    } else if same_text(category, "cable_tv") {
        Ok(ValidationRoute::CableTv)
    } else {
        Err(provider_error("Category not supported for validation"))
    }
}

/// The payment's reference: the one sent, or a fresh id when it is blank.
pub fn effective_reference(reference: String) -> (r: String)
    ensures
        trimmed(reference@).len() > 0 ==> r == reference,
        trimmed(reference@).len() == 0 ==> exists|u: u128| is_uuid_v4(u) && r@ == uuid_text(u),
{
    let t = trim_text(reference.as_str());
    if t.as_str().unicode_len() == 0 {
        let u = random_uuid_v4();
        uuid_string(u)
    } else {
        reference
    }
}

/// What the risk check is told the payment goes to: the product code when one
/// is given and not blank, else the service code.
pub fn fraud_counterparty(product_code: &Option<String>, service_code: &String) -> (r: String)
    ensures
        match product_code {
            Some(p) => if trimmed(p@).len() > 0 {
                r@ == p@
            } else {
                r@ == service_code@
            },
            None => r@ == service_code@,
        },
{
    match product_code {
        Some(p) => {
            let t = trim_text(p.as_str());
            if t.as_str().unicode_len() == 0 {
                service_code.clone()
            } else {
                p.clone()
            }
        },
        None => service_code.clone(),
    }
}

/// The locked NGN wallet a bill is paid from.
pub fn check_ngn_wallet(wallet: Option<WalletRow>, amount: i64) -> (r: Result<WalletRow, AppError>)
    ensures
        funds_decided(wallet, amount as int, "NGN wallet not found"@, "Insufficient NGN funds"@, r),
{
    require_funds(wallet, amount, "NGN wallet not found", "Insufficient NGN funds")
}

/// The charge of a bill to the user's locked NGN wallet: the wallet must
/// exist and cover the amount; the debit takes the amount, and the refund of
/// an unsupported category gives exactly that back.
pub fn bill_charge(wallet: Option<WalletRow>, amount: i64) -> (r: Result<Charge, AppError>)
    requires
        amount > i64::MIN,
    ensures
        match wallet {
            None => fails_with(r, "NGN wallet not found"@),
            Some(w) => if w.balance_minor < amount {
                fails_with(r, "Insufficient NGN funds"@)
            } else {
                r matches Ok(c) && is_charge(c, w, amount as int)
            },
        },
{
    let w = check_ngn_wallet(wallet, amount)?;
    Ok(charge(w, amount))
}

/// How a charged bill payment ends, from its provider request (`Err` when a
/// field is missing, `None` when the category is unsupported) and whether the
/// provider accepted the vend.
pub open spec fn bill_payment_end(plan: Result<Option<BillVend>, AppError>, vended: bool) -> PaymentEnd {
    match plan {
        Ok(Some(_)) => if vended {
            PaymentEnd::Completed
        } else {
            PaymentEnd::Abandoned
        },
        Ok(None) => PaymentEnd::Refunded,
        Err(_) => PaymentEnd::Abandoned,
    }
}

/// The end of a charged bill payment: a missing field or a refused vend
/// abandons its transaction, an unsupported category is refunded, and an
/// accepted vend completes it.
pub fn bill_end(plan: &Result<Option<BillVend>, AppError>, vended: bool) -> (e: PaymentEnd)
    ensures
        e == bill_payment_end(*plan, vended),
{
    match plan {
        Ok(Some(_)) => if vended {
            PaymentEnd::Completed
        } else {
            PaymentEnd::Abandoned
        },
        Ok(None) => PaymentEnd::Refunded,
        Err(_) => PaymentEnd::Abandoned,
    }
}

/// A bill payment costs the NGN wallet exactly its amount when the vend was
/// planned and accepted, and nothing otherwise.
pub proof fn law_failed_bill_payments_cost_nothing(
    c: Charge,
    w: WalletRow,
    amount: int,
    plan: Result<Option<BillVend>, AppError>,
    vended: bool,
)
    requires
        is_charge(c, w, amount),
    ensures
        balance_after(w, standing_moves(c, bill_payment_end(plan, vended))) == if plan is Ok && plan->Ok_0
            is Some && vended {
            w.balance_minor - amount
        } else {
            w.balance_minor as int
        },
{
}

/// The provider request a payment makes.
pub enum BillVend {
    Airtime { service_code: String, amount: i64, phone: String, from: String, reference: String },
    Data { plan_code: String, phone: String, reference: String },
    Electricity { product_code: String, product_token: String, reference: String },
    CableTv { product_code: String, product_token: String, reference: String },
    /// The provider-specific ePin payload, as JSON text.
    Epin { payload: String },
}

/// The provider request for a payment: `Err` when a field the category needs
/// is missing, `Ok(None)` for a category that is not supported (answered with
/// `unsupported_category`), `Ok(Some(..))` for the request to make. In the
/// first case the payment's database transaction is abandoned, in the second
/// the debit already made is credited back; either way nothing is charged.
pub fn plan_bill_vend(p: &BillPayPayload) -> (r: Result<Option<BillVend>, AppError>)
    ensures
        p.category@ == "airtime"@ ==> match (
            required_text(p.phone_number),
            required_text(p.from_phone),
        ) {
            (None, _) => fails_with(r, "phone_number required for airtime"@),
            (Some(_), None) => fails_with(r, "from_phone required for airtime"@),
            (Some(ph), Some(fr)) => r matches Ok(
                Some(BillVend::Airtime { service_code, amount, phone, from, reference }),
            ) && service_code@ == p.service_code@ && amount == p.amount && phone@ == ph
                && from@ == fr && reference@ == p.reference@,
        },
        p.category@ == "data"@ ==> match required_text(p.phone_number) {
            None => fails_with(r, "phone_number required for data"@),
            Some(ph) => r matches Ok(Some(BillVend::Data { plan_code, phone, reference }))
                && plan_code@ == p.service_code@ && phone@ == ph && reference@ == p.reference@,
        },
        p.category@ == "electricity"@ ==> match (
            required_text(p.product_code),
            required_text(p.product_token),
        ) {
            (None, _) => fails_with(r, "product_code required for electricity vend"@),
            (Some(_), None) => fails_with(r, "product_token required for electricity vend"@),
            (Some(c), Some(t)) => r matches Ok(
                Some(BillVend::Electricity { product_code, product_token, reference }),
            ) && product_code@ == c && product_token@ == t && reference@ == p.reference@,
        },
        p.category@ == "cable_tv"@ ==> match (
            required_text(p.product_code),
            required_text(p.product_token),
        ) {
            (None, _) => fails_with(r, "product_code required for cable_tv vend"@),
            (Some(_), None) => fails_with(r, "product_token required for cable_tv vend"@),
            (Some(c), Some(t)) => r matches Ok(
                Some(BillVend::CableTv { product_code, product_token, reference }),
            ) && product_code@ == c && product_token@ == t && reference@ == p.reference@,
        },
        p.category@ == "epin"@ ==> match p.extra {
            None => fails_with(r, "extra payload required for epin vend"@),
            Some(x) => r matches Ok(Some(BillVend::Epin { payload })) && payload@ == x@,
        },
        p.category@ != "airtime"@ && p.category@ != "data"@ && p.category@ != "electricity"@
            && p.category@ != "cable_tv"@ && p.category@ != "epin"@ ==> r matches Ok(None),
{
    proof {
        lemma_categories_distinct();
    }
    let category = p.category.as_str();
    if same_text(category, "airtime") {
        let phone = req_str(&p.phone_number, "phone_number required for airtime")?;
        let from = req_str(&p.from_phone, "from_phone required for airtime")?;
        Ok(
            Some(
                BillVend::Airtime {
                    service_code: p.service_code.clone(),
                    amount: p.amount,
                    phone,
                    from,
                    reference: p.reference.clone(),
                },
            ),
        )
    } else if same_text(category, "data") {
        let phone = req_str(&p.phone_number, "phone_number required for data")?;
        Ok(
            Some(
                BillVend::Data {
                    plan_code: p.service_code.clone(),
                    phone,
                    reference: p.reference.clone(),
                },
            ),
        )
    } else if same_text(category, "electricity") {
        let product_code = req_str(&p.product_code, "product_code required for electricity vend")?;
        let product_token = req_str(
            &p.product_token,
            "product_token required for electricity vend",
        )?;
        Ok(
            Some(
                BillVend::Electricity { product_code, product_token, reference: p.reference.clone() },
            ),
        )
    } else if same_text(category, "cable_tv") {
        let product_code = req_str(&p.product_code, "product_code required for cable_tv vend")?;
        let product_token = req_str(&p.product_token, "product_token required for cable_tv vend")?;
        Ok(Some(BillVend::CableTv { product_code, product_token, reference: p.reference.clone() }))
    } else if same_text(category, "epin") {
        match &p.extra {
            Some(x) => Ok(Some(BillVend::Epin { payload: x.clone() })),
            None => Err(provider_error("extra payload required for epin vend")),
        }
    } else {
        Ok(None)
    }
}

/// The provider's reference of an ePin vend, `unknown` when its answer has none.
pub fn provider_reference_or_unknown(found: Option<String>) -> (r: String)
    ensures
        match found {
            Some(f) => r@ == f@,
            None => r@ == "unknown"@,
        },
{
    match found {
        Some(f) => f,
        None => String::from_str("unknown"),
    }
}

/// The error a payment in an unsupported category ends with, after its
/// debit is refunded.
pub fn unsupported_category() -> (e: AppError)
    ensures
        crate::error::is_provider_error(e, "Category not supported"@),
{
    provider_error("Category not supported")
}

/// The pending ledger entry of a bill payment.
pub fn bill_payment_entry(
    user_id: u128,
    wallet_id: u128,
    amount: i64,
    service_code: &str,
    reference: &str,
) -> (e: LedgerEntry)
    requires
        amount > i64::MIN,
    ensures
        e.user_id == user_id,
        e.wallet_id == wallet_id,
        e.kind@ == "bill_payment"@,
        e.status@ == "pending"@,
        e.amount_minor == -amount,
        e.currency@ == "NGN"@,
        e.title@ == "Bill Payment: "@ + service_code@,
        e.counterparty matches Some(c) && c@ == service_code@,
        e.reference@ == reference@,
{
    let mut title = String::from_str("Bill Payment: ");
    append_text(&mut title, service_code);
    LedgerEntry {
        user_id,
        wallet_id,
        kind: String::from_str("bill_payment"),
        status: String::from_str("pending"),
        amount_minor: -amount,
        currency: String::from_str("NGN"),
        title,
        counterparty: Some(String::from_str(service_code)),
        reference: String::from_str(reference),
    }
}

/// The answer to a payment the provider accepted.
pub fn bill_pay_response(
    reference: String,
    provider_reference: String,
    amount: i64,
    category: String,
    service_code: String,
) -> (r: BillPayResponse)
    ensures
        r.status@ == "processing"@,
        r.reference == reference,
        r.provider_reference == provider_reference,
        r.message@ == "Bill payment initiated successfully"@,
        r.amount == amount,
        r.category == category,
        r.service_code == service_code,
{
    BillPayResponse {
        status: String::from_str("processing"),
        reference,
        provider_reference,
        message: String::from_str("Bill payment initiated successfully"),
        amount,
        category,
        service_code,
    }
}

} // verus!
