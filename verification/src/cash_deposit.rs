//! Cash deposits through partner bureaux: request validation and the
//! PENDING_SELLER -> ACCEPTED -> COMPLETED (or REJECTED) lifecycle, whose
//! completion credits the customer's wallet.

use crate::cash_withdrawal::{check_partner_action, PartnerContext};
use crate::error::{fails_with, provider_error, AppError};
use crate::ledger::{LedgerEntry, WalletRow};
use crate::text::{append_text, same_text, trim_text, trimmed, unicode_uppercase};
use vstd::prelude::*;
use vstd::string::*;

verus! {

/// Currencies that can be deposited in cash.
pub open spec fn is_deposit_currency(c: Seq<char>) -> bool {
    c == "USD"@ || c == "GBP"@
}

/// Where the customer and the bureau meet.
pub open spec fn is_meeting_method(m: Seq<char>) -> bool {
    m == "SAFE_PUBLIC_PLACE"@ || m == "PICKUP_AT_SELLER_LOCATION"@
}

/// What the cash deposit screen is configured with.
pub struct CashDepositConfig {
    pub supported_currencies: Vec<String>,
    pub meeting_methods: Vec<String>,
    pub cities: Vec<String>,
}

/// The configuration from the cities that have an active partner location.
pub fn get_config(cities: Vec<String>) -> (c: CashDepositConfig)
    ensures
        c.supported_currencies@.len() == 2,
        c.supported_currencies@[0]@ == "USD"@,
        c.supported_currencies@[1]@ == "GBP"@,
        c.meeting_methods@.len() == 2,
        c.meeting_methods@[0]@ == "SAFE_PUBLIC_PLACE"@,
        c.meeting_methods@[1]@ == "PICKUP_AT_SELLER_LOCATION"@,
        c.cities == cities,
{
    let mut methods: Vec<String> = Vec::new();
    methods.push(String::from_str("SAFE_PUBLIC_PLACE"));
    methods.push(String::from_str("PICKUP_AT_SELLER_LOCATION"));
    CashDepositConfig {
        supported_currencies: crate::cash_withdrawal::supported_currencies(),
        meeting_methods: methods,
        cities,
    }
}

/// The checked fields of a deposit request.
pub struct DepositFields {
    pub currency: String,
    pub method: String,
    pub city: String,
    pub location_detail: String,
}

/// Checks a deposit request in order: currency, meeting method, city,
/// location detail, and the customer's safety confirmation.
pub fn validate_deposit_request(
    currency: &str,
    method: &str,
    city: &str,
    location_detail: &str,
    safety_confirmed: bool,
) -> (r: Result<DepositFields, AppError>)
    ensures
        ({
            let c = unicode_uppercase(trimmed(currency@));
            let m = unicode_uppercase(trimmed(method@));
            let ci = trimmed(city@);
            let ld = trimmed(location_detail@);
            if !is_deposit_currency(c) {
                fails_with(r, "UNSUPPORTED_CURRENCY"@)
            } else if !is_meeting_method(m) {
                fails_with(r, "UNSUPPORTED_MEETING_METHOD"@)
            } else if ci.len() == 0 {
                fails_with(r, "CITY_REQUIRED"@)
            } else if ld.len() == 0 {
                fails_with(r, "LOCATION_DETAIL_REQUIRED"@)
            } else if !safety_confirmed {
                fails_with(r, "SAFETY_CONFIRMATION_REQUIRED"@)
            } else {
                r matches Ok(f) && f.currency@ == c && f.method@ == m && f.city@ == ci
                    && f.location_detail@ == ld
            }
        }),
{
    let c = crate::cash_withdrawal::normalize_uppercase(currency);
    if !(same_text(c.as_str(), "USD") || same_text(c.as_str(), "GBP")) {
        return Err(provider_error("UNSUPPORTED_CURRENCY"));
    }
    let m = crate::cash_withdrawal::normalize_uppercase(method);
    if !(same_text(m.as_str(), "SAFE_PUBLIC_PLACE") || same_text(
        m.as_str(),
        "PICKUP_AT_SELLER_LOCATION",
    )) {
        return Err(provider_error("UNSUPPORTED_MEETING_METHOD"));
    }
    let ci = trim_text(city);
    if ci.as_str().unicode_len() == 0 {
        return Err(provider_error("CITY_REQUIRED"));
    }
    let ld = trim_text(location_detail);
    if ld.as_str().unicode_len() == 0 {
        return Err(provider_error("LOCATION_DETAIL_REQUIRED"));
    }
    if !safety_confirmed {
        return Err(provider_error("SAFETY_CONFIRMATION_REQUIRED"));
    }
    Ok(DepositFields { currency: c, method: m, city: ci, location_detail: ld })
}

/// A `cash_deposits` row.
pub struct CashDepositRow {
    pub id: u128,
    pub reference: String,
    pub user_id: u128,
    pub partner_org_id: Option<u128>,
    pub location_id: Option<u128>,
    pub currency: String,
    pub amount_minor: i64,
    pub requested_city: String,
    pub meeting_method: String,
    pub location_detail: String,
    pub preferred_window: Option<String>,
    pub safety_confirmed: bool,
    pub status: String,
    pub instructions: Option<String>,
    pub rejection_reason: Option<String>,
    pub credited_transaction_id: Option<u128>,
    pub created_at: i64,
    pub updated_at: i64,
}

/// A deposit as its owner sees it.
pub struct DepositDetailResponse {
    pub reference: String,
    pub currency: String,
    pub amount_minor: i64,
    pub city: String,
    pub method: String,
    pub location_detail: String,
    pub preferred_window: Option<String>,
    pub safety_confirmed: bool,
    pub status: String,
    pub instructions: Option<String>,
    pub rejection_reason: Option<String>,
    pub created_at: i64,
    pub updated_at: i64,
}

/// A deposit in a list.
pub struct DepositHistoryItem {
    pub reference: String,
    pub currency: String,
    pub amount_minor: i64,
    pub city: String,
    pub method: String,
    pub status: String,
    pub created_at: i64,
}

/// A partner accepting a deposit, optionally naming the location.
pub struct PartnerDepositAcceptRequest {
    pub location_id: Option<u128>,
    pub instructions: Option<String>,
}

/// A partner rejecting a deposit.
pub struct PartnerDepositRejectRequest {
    pub reason: Option<String>,
}

/// What a partner is told after acting on a deposit.
pub struct PartnerDepositActionResponse {
    pub reference: String,
    pub status: String,
}

/// The owner's view of a deposit row.
pub fn deposit_detail(row: CashDepositRow) -> (d: DepositDetailResponse)
    ensures
        d.reference == row.reference,
        d.currency == row.currency,
        d.amount_minor == row.amount_minor,
        d.city == row.requested_city,
        d.method == row.meeting_method,
        d.location_detail == row.location_detail,
        d.preferred_window == row.preferred_window,
        d.safety_confirmed == row.safety_confirmed,
        d.status == row.status,
        d.instructions == row.instructions,
        d.rejection_reason == row.rejection_reason,
        d.created_at == row.created_at,
        d.updated_at == row.updated_at,
{
    DepositDetailResponse {
        reference: row.reference,
        currency: row.currency,
        amount_minor: row.amount_minor,
        city: row.requested_city,
        method: row.meeting_method,
        location_detail: row.location_detail,
        preferred_window: row.preferred_window,
        safety_confirmed: row.safety_confirmed,
        status: row.status,
        instructions: row.instructions,
        rejection_reason: row.rejection_reason,
        created_at: row.created_at,
        updated_at: row.updated_at,
    }
}

/// What a partner does to a deposit.
#[derive(Clone, Copy)]
pub enum DepositAction {
    Accept,
    Complete,
    Reject,
}

/// The status a deposit moves to when a partner acts on it in `status`, or
/// `None` when the action is not allowed there.
pub open spec fn deposit_transition(status: Seq<char>, action: DepositAction) -> Option<Seq<char>> {
    let allowed = match action {
        DepositAction::Accept => status == "PENDING_SELLER"@,
        DepositAction::Complete => status == "ACCEPTED"@,
        DepositAction::Reject => status == "PENDING_SELLER"@ || status == "ACCEPTED"@,
    };
    if allowed {
        Some(status_after(action))
    } else {
        None
    }
}

/// The status a deposit has after `action`.
pub open spec fn status_after(action: DepositAction) -> Seq<char> {
    match action {
        DepositAction::Accept => "ACCEPTED"@,
        DepositAction::Complete => "COMPLETED"@,
        DepositAction::Reject => "REJECTED"@,
    }
}

/// The status a deposit is requested in, in which a partner can accept it.
pub fn new_deposit_status() -> (s: &'static str)
    ensures
        s@ == "PENDING_SELLER"@,
        deposit_transition(s@, DepositAction::Accept) is Some,
{
    "PENDING_SELLER"
}

/// The answer to a partner's action on deposit `reference`: its new status.
pub fn deposit_action_response(reference: String, action: DepositAction) -> (r:
    PartnerDepositActionResponse)
    ensures
        r.reference == reference,
        r.status@ == status_after(action),
        action is Accept ==> r.status@ == "ACCEPTED"@,
        action is Complete ==> r.status@ == "COMPLETED"@,
        action is Reject ==> r.status@ == "REJECTED"@,
{
    let status = match action {
        DepositAction::Accept => String::from_str("ACCEPTED"),
        DepositAction::Complete => String::from_str("COMPLETED"),
        DepositAction::Reject => String::from_str("REJECTED"),
    };
    PartnerDepositActionResponse { reference, status }
}

/// A partner accepting a deposit: it must be PENDING_SELLER and not another
/// organisation's; a named location must be one of the partner's active ones.
pub fn check_accept(
    status: &str,
    record_org: Option<u128>,
    ctx: PartnerContext,
    requested_location: Option<u128>,
    location_found: bool,
) -> (r: Result<(), AppError>)
    ensures
        deposit_transition(status@, DepositAction::Accept) is None ==> fails_with(
            r,
            "INVALID_STATUS"@,
        ),
        deposit_transition(status@, DepositAction::Accept) is Some ==> match record_org {
            Some(o) if o != ctx.partner_org_id => r matches Err(AppError::Forbidden),
            _ => if requested_location is Some && !location_found {
                fails_with(r, "LOCATION_NOT_FOUND"@)
            } else {
                r is Ok
            },
        },
{
    check_partner_action(status, "PENDING_SELLER", record_org, ctx)?;
    if requested_location.is_some() && !location_found {
        return Err(provider_error("LOCATION_NOT_FOUND"));
    }
    Ok(())
}

/// A partner completing a deposit: it must be ACCEPTED, by this organisation.
pub fn check_complete(status: &str, record_org: Option<u128>, ctx: PartnerContext) -> (r: Result<
    (),
    AppError,
>)
    ensures
        deposit_transition(status@, DepositAction::Complete) is None ==> fails_with(
            r,
            "INVALID_STATUS"@,
        ),
        deposit_transition(status@, DepositAction::Complete) is Some ==> if record_org == Some(
            ctx.partner_org_id,
        ) {
            r is Ok
        } else {
            r matches Err(AppError::Forbidden)
        },
{
    if !same_text(status, "ACCEPTED") {
        return Err(provider_error("INVALID_STATUS"));
    }
    match record_org {
        Some(o) => if o != ctx.partner_org_id {
            Err(AppError::Forbidden)
        } else {
            Ok(())
        },
        None => Err(AppError::Forbidden),
    }
}

/// A partner rejecting a deposit: it must be PENDING_SELLER or ACCEPTED and
/// not another organisation's; the result is the organisation it ends up with.
pub fn check_reject(status: &str, record_org: Option<u128>, ctx: PartnerContext) -> (r: Result<
    u128,
    AppError,
>)
    ensures
        deposit_transition(status@, DepositAction::Reject) is None ==> fails_with(
            r,
            "INVALID_STATUS"@,
        ),
        deposit_transition(status@, DepositAction::Reject) is Some ==> match record_org {
            Some(o) => if o != ctx.partner_org_id {
                r matches Err(AppError::Forbidden)
            } else {
                r == Ok::<u128, AppError>(o)
            },
            None => r == Ok::<u128, AppError>(ctx.partner_org_id),
        },
{
    if !(same_text(status, "PENDING_SELLER") || same_text(status, "ACCEPTED")) {
        return Err(provider_error("INVALID_STATUS"));
    }
    match record_org {
        Some(o) => if o != ctx.partner_org_id {
            Err(AppError::Forbidden)
        } else {
            Ok(o)
        },
        None => Ok(ctx.partner_org_id),
    }
}

/// What completing a deposit writes: the wallet is credited and a completed
/// ledger entry records it.
pub struct CreditPlan {
    pub wallet_id: u128,
    pub credit_minor: i64,
    pub entry: LedgerEntry,
}

/// The credit of a completed deposit of `amount_minor` in `currency` to
/// `user_id`'s wallet in that currency.
pub fn plan_deposit_credit(
    user_id: u128,
    wallet: Option<WalletRow>,
    currency: &str,
    amount_minor: i64,
    reference: &str,
) -> (r: Result<CreditPlan, AppError>)
    ensures
        wallet is None ==> fails_with(r, "WALLET_NOT_FOUND"@),
        wallet matches Some(w) ==> (r matches Ok(p) && p.wallet_id == w.id && p.credit_minor
            == amount_minor && p.entry.user_id == user_id && p.entry.wallet_id == w.id
            && p.entry.kind@ == "cash_deposit"@ && p.entry.status@ == "completed"@
            && p.entry.amount_minor == amount_minor && p.entry.currency@ == currency@
            && p.entry.title@ == "Cash deposit "@ + currency@ && p.entry.counterparty is None
            && p.entry.reference@ == reference@),
{
    let w = match wallet {
        Some(w) => w,
        None => return Err(provider_error("WALLET_NOT_FOUND")),
    };
    let mut title = String::from_str("Cash deposit ");
    append_text(&mut title, currency);
    let entry = LedgerEntry {
        user_id,
        wallet_id: w.id,
        kind: String::from_str("cash_deposit"),
        status: String::from_str("completed"),
        amount_minor,
        currency: String::from_str(currency),
        title,
        counterparty: None,
        reference: String::from_str(reference),
    };
    Ok(CreditPlan { wallet_id: w.id, credit_minor: amount_minor, entry })
}

/// Each action moves a deposit to a new status, never the one it acted in,
/// and answers with it: accepting gives ACCEPTED, completing COMPLETED,
/// rejecting REJECTED. Completing or rejecting settles the deposit: no
/// action applies after it.
pub proof fn law_each_action_moves_to_its_own_status(status: Seq<char>, action: DepositAction, next: DepositAction)
    ensures
        status_after(DepositAction::Accept) == "ACCEPTED"@,
        status_after(DepositAction::Complete) == "COMPLETED"@,
        status_after(DepositAction::Reject) == "REJECTED"@,
        deposit_transition(status, action) matches Some(t) ==> t != status,
        deposit_transition(status, DepositAction::Complete) matches Some(t) ==> deposit_transition(t, next)
            is None,
        deposit_transition(status, DepositAction::Reject) matches Some(t) ==> deposit_transition(t, next)
            is None,
{
    reveal_strlit("COMPLETED");
    reveal_strlit("REJECTED");
    reveal_strlit("PENDING_SELLER");
    reveal_strlit("ACCEPTED");
    assert("COMPLETED"@.len() != "PENDING_SELLER"@.len());
    assert("COMPLETED"@.len() != "ACCEPTED"@.len());
    assert("REJECTED"@.len() != "PENDING_SELLER"@.len());
    assert("REJECTED"@[0] != "ACCEPTED"@[0]);
    assert("PENDING_SELLER"@.len() != "ACCEPTED"@.len());
}

/// A deposit that was completed or rejected is final: no partner action
/// applies to it, so a completed deposit is never credited twice.
pub proof fn law_settled_deposits_are_final(action: DepositAction)
    ensures
        deposit_transition("COMPLETED"@, action) is None,
        deposit_transition("REJECTED"@, action) is None,
        deposit_transition("PENDING_SELLER"@, DepositAction::Complete) is None,
{
    reveal_strlit("COMPLETED");
    reveal_strlit("REJECTED");
    reveal_strlit("PENDING_SELLER");
    reveal_strlit("ACCEPTED");
    assert("COMPLETED"@.len() != "PENDING_SELLER"@.len());
    assert("COMPLETED"@.len() != "ACCEPTED"@.len());
    assert("REJECTED"@.len() != "PENDING_SELLER"@.len());
    assert("REJECTED"@[0] != "ACCEPTED"@[0]);
    assert("PENDING_SELLER"@.len() != "ACCEPTED"@.len());
}

} // verus!
