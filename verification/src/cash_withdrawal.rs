//! Cash withdrawals: quotes and fees, the hold that reserves the money, the
//! partner's pickup code, and the PENDING -> READY -> COLLECTED / EXPIRED
//! lifecycle with its refund.

use crate::clock::{in_datetime_range, now_micros, shift, shifted};
use crate::error::{fails_with, provider_error, AppError};
use crate::ids::random_six_digit_number;
use crate::ledger::{require_funds, LedgerEntry, WalletRow};
use crate::security::{bcrypt_verdict, check_stored_pin, hash_value};
use crate::text::{
    append_dec_text, uuid_string, uuid_text, append_text, dec_text, same_text, trim_text, trimmed, unicode_uppercase,
    upper_case_text,
};
use vstd::prelude::*;
use vstd::string::*;

verus! {

/// Hours a pickup code stays valid unless the partner says otherwise.
pub const DEFAULT_PICKUP_EXPIRY_HOURS: i64 = 48;

/// Fee rate in basis points (1%).
pub const FEE_BPS: i64 = 100;

/// The smallest fee charged, in minor units.
pub const MIN_FEE_MINOR: i64 = 500;

/// Failed pickup-code attempts after which confirmation is throttled.
pub const MAX_FAILED_ATTEMPTS: i32 = 5;

/// Minutes a throttled withdrawal waits after its last failed attempt.
pub const ATTEMPT_COOLDOWN_MINUTES: i64 = 15;

/// Currencies that can be withdrawn in cash.
pub open spec fn is_supported_currency(c: Seq<char>) -> bool {
    c == "USD"@ || c == "GBP"@
}

/// How the cash reaches the customer.
pub open spec fn is_supported_method(m: Seq<char>) -> bool {
    m == "PICKUP"@ || m == "DELIVERY"@
}

/// The currencies of `is_supported_currency`, in the order the config lists them.
pub fn supported_currencies() -> (v: Vec<String>)
    ensures
        v@.len() == 2,
        v@[0]@ == "USD"@,
        v@[1]@ == "GBP"@,
{
    let mut v: Vec<String> = Vec::new();
    v.push(String::from_str("USD"));
    v.push(String::from_str("GBP"));
    v
}

/// The methods of `is_supported_method`, in the order the config lists them.
pub fn supported_methods() -> (v: Vec<String>)
    ensures
        v@.len() == 2,
        v@[0]@ == "PICKUP"@,
        v@[1]@ == "DELIVERY"@,
{
    let mut v: Vec<String> = Vec::new();
    v.push(String::from_str("PICKUP"));
    v.push(String::from_str("DELIVERY"));
    v
}

/// Trimmed and upper-cased, the form in which codes are compared.
pub fn normalize_uppercase(input: &str) -> (r: String)
    ensures
        r@ == unicode_uppercase(trimmed(input@)),
{
    let t = trim_text(input);
    upper_case_text(t.as_str())
}

/// Only the currencies of `is_supported_currency` can be withdrawn.
pub fn validate_currency(currency: &str) -> (r: Result<(), AppError>)
    ensures
        r is Ok <==> is_supported_currency(currency@),
        !is_supported_currency(currency@) ==> fails_with(r, "UNSUPPORTED_CURRENCY"@),
{
    if same_text(currency, "USD") || same_text(currency, "GBP") {
        Ok(())
    } else {
        Err(provider_error("UNSUPPORTED_CURRENCY"))
    }
}

/// Only the methods of `is_supported_method` are offered.
pub fn validate_method(method: &str) -> (r: Result<(), AppError>)
    ensures
        r is Ok <==> is_supported_method(method@),
        !is_supported_method(method@) ==> fails_with(r, "UNSUPPORTED_METHOD"@),
{
    if same_text(method, "PICKUP") || same_text(method, "DELIVERY") {
        Ok(())
    } else {
        Err(provider_error("UNSUPPORTED_METHOD"))
    }
}

/// The amount in minor units, once the major amount has been scaled by 100
/// and rounded: only a positive amount is accepted.
pub fn amount_to_minor(rounded_minor: i64) -> (r: Result<i64, AppError>)
    ensures
        r is Ok <==> rounded_minor > 0,
        r matches Ok(m) ==> m == rounded_minor,
        rounded_minor <= 0 ==> fails_with(r, "INVALID_AMOUNT"@),
{
    if rounded_minor <= 0 {
        return Err(provider_error("INVALID_AMOUNT"));
    }
    Ok(rounded_minor)
}

/// `a / 100` rounded to the nearest integer, halves away from zero.
pub open spec fn rounded_hundredth(a: int) -> int {
    if a >= 0 {
        (a + 50) / 100
    } else {
        -((-a + 50) / 100)
    }
}

/// The fee on a withdrawal of `a` minor units: 1% rounded, and at least `MIN_FEE_MINOR`.
pub open spec fn withdrawal_fee(a: int) -> int {
    let f = rounded_hundredth(a);
    if f > MIN_FEE_MINOR {
        f
    } else {
        MIN_FEE_MINOR as int
    }
}

/// The fee on a positive amount is 100 basis points of it (1%), rounded
/// half up to whole minor units, and never less than 500 minor units.
pub proof fn law_fee_is_one_percent_with_a_floor(a: int)
    requires
        a > 0,
    ensures
        withdrawal_fee(a) == if (a * 100 + 5000) / 10000 > 500 {
            (a * 100 + 5000) / 10000
        } else {
            500
        },
        withdrawal_fee(a) >= 500,
        a >= 50_000 ==> withdrawal_fee(a) * 10000 <= a * 100 + 5000 && a * 100 + 5000 < (
        withdrawal_fee(a) + 1) * 10000,
{
    assert((a * 100 + 5000) / 10000 == (a + 50) / 100) by (nonlinear_arith)
        requires
            a > 0,
    {
        assert(a * 100 + 5000 == (a + 50) * 100);
        vstd::arithmetic::div_mod::lemma_div_denominator(a + 50, 100, 100);
    }
}

/// The fee and the total debit for a withdrawal of `amount_minor`; the
/// total must fit in an `i64`.
pub fn compute_quote(amount_minor: i64) -> (r: (i64, i64))
    requires
        amount_minor + withdrawal_fee(amount_minor as int) <= i64::MAX,
    ensures
        r.0 == withdrawal_fee(amount_minor as int),
        r.1 == amount_minor + r.0,
        r.0 >= MIN_FEE_MINOR,
        amount_minor > 0 ==> r.0 == if (amount_minor * 100 + 5000) / 10000 > 500 {
            (amount_minor * 100 + 5000) / 10000
        } else {
            500
        },
{
    proof {
        if amount_minor > 0 {
            law_fee_is_one_percent_with_a_floor(amount_minor as int);
        }
    }
    // A non-positive amount rounds to a non-positive hundredth, below the minimum.
    let fee_minor = if amount_minor > 0 {
        let f: i64 = (amount_minor + 50) / 100;
        if f > MIN_FEE_MINOR {
            f
        } else {
            MIN_FEE_MINOR
        }
    } else {
        MIN_FEE_MINOR
    };
    (fee_minor, amount_minor + fee_minor)
}

/// A positive amount whose total debit fits in an `i64`.
pub open spec fn quotable(a: i64) -> bool {
    0 < a && a + withdrawal_fee(a as int) <= i64::MAX
}

/// The amount, fee and total debit of a withdrawal request whose major amount,
/// scaled by 100 and rounded, is `rounded_minor`: the amount must be positive
/// and its total must fit in an `i64`.
pub fn price_withdrawal(rounded_minor: i64) -> (r: Result<(i64, i64, i64), AppError>)
    ensures
        r is Ok <==> quotable(rounded_minor),
        r is Err ==> fails_with(r, "INVALID_AMOUNT"@),
        r matches Ok((a, fee, total)) ==> a == rounded_minor && fee == withdrawal_fee(a as int)
            && total == a + fee,
        r matches Ok((a, fee, total)) ==> fee == if (a * 100 + 5000) / 10000 > 500 {
            (a * 100 + 5000) / 10000
        } else {
            500
        },
{
    proof {
        if rounded_minor > 0 {
            law_fee_is_one_percent_with_a_floor(rounded_minor as int);
        }
    }
    let amount_minor = amount_to_minor(rounded_minor)?;
    let hundredth: i64 = amount_minor / 100 + if amount_minor % 100 >= 50 {
        1
    } else {
        0
    };
    let fee_minor = if hundredth > MIN_FEE_MINOR {
        hundredth
    } else {
        MIN_FEE_MINOR
    };
    assert(fee_minor == withdrawal_fee(amount_minor as int));
    if amount_minor > i64::MAX - fee_minor {
        return Err(provider_error("INVALID_AMOUNT"));
    }
    let (fee_minor, total_debit_minor) = compute_quote(amount_minor);
    Ok((amount_minor, fee_minor, total_debit_minor))
}

/// What a user's KYC profile holds that matters for cash services.
pub struct KycProfile {
    pub country: Option<String>,
    pub bvn_encrypted: Option<String>,
    pub nin_encrypted: Option<String>,
}

/// The country of a profile, empty when unset.
pub open spec fn country_text(p: KycProfile) -> Seq<char> {
    match p.country {
        Some(c) => c@,
        None => ""@,
    }
}

/// Cash services are for Nigerian users with a BVN or a NIN on file.
pub fn ensure_ng_and_kyc(profile: Option<KycProfile>) -> (r: Result<(), AppError>)
    ensures
        profile is None ==> r matches Err(AppError::KycIncomplete),
        profile matches Some(p) ==> if unicode_uppercase(country_text(p)) != "NG"@ {
            fails_with(r, "NG_ONLY"@)
        } else if p.bvn_encrypted is None && p.nin_encrypted is None {
            r matches Err(AppError::KycIncomplete)
        } else {
            r is Ok
        },
{
    let p = match profile {
        Some(p) => p,
        None => return Err(AppError::KycIncomplete),
    };
    let country = match &p.country {
        Some(c) => upper_case_text(c.as_str()),
        None => upper_case_text(""),
    };
    if !same_text(country.as_str(), "NG") {
        return Err(provider_error("NG_ONLY"));
    }
    if p.bvn_encrypted.is_none() && p.nin_encrypted.is_none() {
        return Err(AppError::KycIncomplete);
    }
    Ok(())
}

/// The user row that a PIN is checked against.
pub struct PinRecord {
    pub pin_hash: Option<String>,
}

/// The transaction PIN check: an unknown user is `Unauthorized`, then as
/// `check_stored_pin`.
pub fn ensure_pin(user: Option<PinRecord>, pin: String) -> (r: Result<(), AppError>)
    ensures
        user is None ==> r matches Err(AppError::Unauthorized),
        user matches Some(u) ==> (u.pin_hash is None ==> fails_with(r, "PIN_NOT_SET"@)),
        user matches Some(u) ==> (u.pin_hash matches Some(h) ==> match bcrypt_verdict(pin@, h@) {
            Some(true) => r is Ok,
            Some(false) => r matches Err(AppError::InvalidCredentials),
            None => r matches Err(e) && e is HashError,
        }),
{
    match user {
        None => Err(AppError::Unauthorized),
        Some(u) => check_stored_pin(u.pin_hash, pin),
    }
}

/// A six-digit pickup code (zero padded) and its bcrypt hash.
pub fn generate_pickup_code() -> (r: Result<(String, String), AppError>)
    ensures
        r matches Ok((code, hash)) ==> (exists|n: nat| n <= 999_999 && code@ == dec_text(n, 6))
            && bcrypt_verdict(code@, hash@) == Some(true),
        r matches Err(e) ==> e is HashError,
{
    let n = random_six_digit_number();
    let mut code = String::new();
    append_dec_text(&mut code, n as u64, 6);
    assert(code@ == dec_text(n as nat, 6));
    let hash = hash_value(code.clone())?;
    Ok((code, hash))
}

/// The money held back from a wallet while a withdrawal is open.
pub struct WalletHold {
    pub wallet_id: u128,
    pub amount_minor: i64,
    pub currency: String,
    pub reason: String,
    pub status: String,
    pub reference: String,
}

/// What opening a withdrawal writes: the wallet is debited by `debit_minor`,
/// a pending ledger entry records the debit, and a hold reserves the amount.
pub struct HoldPlan {
    pub wallet_id: u128,
    pub debit_minor: i64,
    pub entry: LedgerEntry,
    pub hold: WalletHold,
}

/// `p` is what opening a withdrawal of `total` in `currency` under `reference`
/// writes for `user_id`'s wallet `w`.
pub open spec fn is_hold_plan(
    p: HoldPlan,
    user_id: u128,
    w: WalletRow,
    currency: Seq<char>,
    total: int,
    reference: Seq<char>,
) -> bool {
    &&& p.wallet_id == w.id
    &&& p.debit_minor == total
    &&& p.entry.user_id == user_id
    &&& p.entry.wallet_id == w.id
    &&& p.entry.kind@ == "cash_withdrawal"@
    &&& p.entry.status@ == "pending"@
    &&& p.entry.amount_minor == -total
    &&& p.entry.currency@ == currency
    &&& p.entry.title@ == "Cash withdrawal "@ + currency
    &&& p.entry.counterparty is None
    &&& p.entry.reference@ == reference
    &&& p.hold.wallet_id == w.id
    &&& p.hold.amount_minor == total
    &&& p.hold.currency@ == currency
    &&& p.hold.reason@ == "cash_withdrawal"@
    &&& p.hold.status@ == "HELD"@
    &&& p.hold.reference@ == reference
}

/// Decides the debit, ledger entry and hold of a new withdrawal from the
/// user's locked wallet in that currency.
pub fn create_hold_and_transaction(
    user_id: u128,
    wallet: Option<WalletRow>,
    currency: &str,
    total_debit_minor: i64,
    reference: &str,
) -> (r: Result<HoldPlan, AppError>)
    requires
        total_debit_minor > i64::MIN,
    ensures
        wallet is None ==> fails_with(r, "WALLET_NOT_FOUND"@),
        wallet matches Some(w) ==> (w.balance_minor < total_debit_minor ==> fails_with(
            r,
            "INSUFFICIENT_FUNDS"@,
        )),
        wallet matches Some(w) ==> (w.balance_minor >= total_debit_minor ==> (r matches Ok(p)
            && is_hold_plan(p, user_id, w, currency@, total_debit_minor as int, reference@))),
{
    let w = require_funds(wallet, total_debit_minor, "WALLET_NOT_FOUND", "INSUFFICIENT_FUNDS")?;
    let mut title = String::from_str("Cash withdrawal ");
    append_text(&mut title, currency);
    let entry = LedgerEntry {
        user_id,
        wallet_id: w.id,
        kind: String::from_str("cash_withdrawal"),
        status: String::from_str("pending"),
        amount_minor: -total_debit_minor,
        currency: String::from_str(currency),
        title,
        counterparty: None,
        reference: String::from_str(reference),
    };
    let hold = WalletHold {
        wallet_id: w.id,
        amount_minor: total_debit_minor,
        currency: String::from_str(currency),
        reason: String::from_str("cash_withdrawal"),
        status: String::from_str("HELD"),
        reference: String::from_str(reference),
    };
    Ok(HoldPlan { wallet_id: w.id, debit_minor: total_debit_minor, entry, hold })
}

/// A hold as read back when a withdrawal is refunded.
pub struct HoldRecord {
    pub wallet_id: u128,
    pub amount_minor: i64,
    pub currency: String,
    pub status: String,
}

/// A hold that was released or consumed is settled: nothing more moves for it.
pub open spec fn hold_is_settled(status: Seq<char>) -> bool {
    status == "RELEASED"@ || status == "CONSUMED"@
}

/// What a refund writes: the wallet is credited by `credit_minor`, a completed
/// refund entry records it, and the hold becomes `new_status`.
pub struct RefundPlan {
    pub wallet_id: u128,
    pub credit_minor: i64,
    pub entry: LedgerEntry,
    pub new_status: String,
}

/// `p` is the refund of hold `h` of `user_id`'s withdrawal `reference`.
pub open spec fn is_refund_plan(p: RefundPlan, h: HoldRecord, user_id: u128, reference: Seq<char>) -> bool {
    &&& p.wallet_id == h.wallet_id
    &&& p.credit_minor == h.amount_minor
    &&& p.entry.user_id == user_id
    &&& p.entry.wallet_id == h.wallet_id
    &&& p.entry.kind@ == "cash_withdrawal_refund"@
    &&& p.entry.status@ == "completed"@
    &&& p.entry.amount_minor == h.amount_minor
    &&& p.entry.currency@ == h.currency@
    &&& p.entry.title@ == "Cash withdrawal refund"@
    &&& p.entry.counterparty is None
    &&& p.entry.reference@ == reference
    &&& p.new_status@ == "RELEASED"@
}

/// Decides the refund of a withdrawal's hold: nothing for a settled hold,
/// otherwise the hold's amount goes back to its wallet and the hold is released.
pub fn refund_hold_and_wallet(hold: HoldRecord, withdrawal_reference: &str, user_id: u128) -> (r:
    Option<RefundPlan>)
    ensures
        hold_is_settled(hold.status@) ==> r is None,
        !hold_is_settled(hold.status@) ==> (r matches Some(p) && is_refund_plan(
            p,
            hold,
            user_id,
            withdrawal_reference@,
        )),
{
    if same_text(hold.status.as_str(), "RELEASED") || same_text(hold.status.as_str(), "CONSUMED") {
        return None;
    }
    let entry = LedgerEntry {
        user_id,
        wallet_id: hold.wallet_id,
        kind: String::from_str("cash_withdrawal_refund"),
        status: String::from_str("completed"),
        amount_minor: hold.amount_minor,
        currency: hold.currency.clone(),
        title: String::from_str("Cash withdrawal refund"),
        counterparty: None,
        reference: String::from_str(withdrawal_reference),
    };
    Some(
        RefundPlan {
            wallet_id: hold.wallet_id,
            credit_minor: hold.amount_minor,
            entry,
            new_status: String::from_str("RELEASED"),
        },
    )
}

/// The hold as it reads back after it was written.
pub open spec fn hold_as_read(h: WalletHold) -> HoldRecord {
    HoldRecord {
        wallet_id: h.wallet_id,
        amount_minor: h.amount_minor,
        currency: h.currency,
        status: h.status,
    }
}

/// Opening a priced withdrawal debits the wallet by the amount plus its fee,
/// and the ledger entry and the hold record that same total.
pub proof fn law_hold_is_the_quoted_total(
    amount: i64,
    fee: i64,
    total: i64,
    p: HoldPlan,
    user_id: u128,
    w: WalletRow,
    currency: Seq<char>,
    reference: Seq<char>,
)
    requires
        fee == withdrawal_fee(amount as int),
        total == amount + fee,
        is_hold_plan(p, user_id, w, currency, total as int, reference),
    ensures
        p.debit_minor == amount + withdrawal_fee(amount as int),
        p.hold.amount_minor == p.debit_minor,
        p.entry.amount_minor == -p.debit_minor,
        p.hold.wallet_id == p.entry.wallet_id && p.entry.wallet_id == p.wallet_id,
        p.debit_minor >= amount + MIN_FEE_MINOR,
{
}

/// Refunding the hold that a withdrawal opened gives its wallet back exactly
/// what was debited: the balance after the debit and the refund is the balance
/// before. Once refunded, the hold is settled and a second refund moves nothing.
pub proof fn law_refund_restores_balance(
    p: HoldPlan,
    q: RefundPlan,
    user_id: u128,
    w: WalletRow,
    currency: Seq<char>,
    total: int,
    reference: Seq<char>,
)
    requires
        is_hold_plan(p, user_id, w, currency, total, reference),
        is_refund_plan(q, hold_as_read(p.hold), user_id, reference),
    ensures
        !hold_is_settled(hold_as_read(p.hold).status@),
        q.wallet_id == p.wallet_id,
        w.balance_minor - p.debit_minor + q.credit_minor == w.balance_minor,
        hold_is_settled(q.new_status@),
{
    reveal_strlit("HELD");
    reveal_strlit("RELEASED");
    reveal_strlit("CONSUMED");
    assert("HELD"@.len() != "RELEASED"@.len());
    assert("HELD"@.len() != "CONSUMED"@.len());
}

/// A partner organisation the user belongs to, with the user's role in it.
pub struct PartnerMembership {
    pub partner_org_id: u128,
    pub role: String,
}

/// The partner on whose behalf a request acts.
#[derive(Clone, Copy)]
pub struct PartnerContext {
    pub user_id: u128,
    pub partner_org_id: u128,
}

/// A role grants `required` when it is that role or the partner admin role.
pub open spec fn role_grants(role: Seq<char>, required: Seq<char>) -> bool {
    role == required || role == "PARTNER_ADMIN"@
}

/// A membership in exactly the required role grants it, whatever the role
/// is, and so does the partner admin role; no other role grants anything.
pub proof fn law_a_role_grants_itself_and_admin_grants_all(role: Seq<char>, required: Seq<char>)
    ensures
        role_grants(required, required),
        role_grants("PARTNER_ADMIN"@, required),
        role_grants(role, required) <==> (role == required || role == "PARTNER_ADMIN"@),
{
}

/// Membership `i` is the first one whose role grants `required`.
pub open spec fn first_granting(m: Seq<PartnerMembership>, required: Seq<char>, i: int) -> bool {
    &&& 0 <= i < m.len()
    &&& role_grants(m[i].role@, required)
    &&& forall|j: int| 0 <= j < i ==> !role_grants(#[trigger] m[j].role@, required)
}

/// The partner context of a user among their active memberships in approved
/// organisations: the first membership whose role grants `required_role`.
pub fn ensure_partner_role(
    memberships: &Vec<PartnerMembership>,
    user_id: u128,
    required_role: &str,
) -> (r: Result<PartnerContext, AppError>)
    ensures
        r matches Ok(ctx) ==> ctx.user_id == user_id && exists|i: int|
            first_granting(memberships@, required_role@, i) && ctx.partner_org_id
                == memberships@[i].partner_org_id,
        r is Err ==> (r matches Err(AppError::Forbidden) && forall|i: int|
            0 <= i < memberships@.len() ==> !role_grants(
                #[trigger] memberships@[i].role@,
                required_role@,
            )),
        (exists|i: int|
            0 <= i < memberships@.len() && (#[trigger] memberships@[i].role@ == required_role@
                || memberships@[i].role@ == "PARTNER_ADMIN"@)) ==> r is Ok,
        r matches Ok(ctx) ==> exists|i: int|
            0 <= i < memberships@.len() && (#[trigger] memberships@[i].role@ == required_role@
                || memberships@[i].role@ == "PARTNER_ADMIN"@) && ctx.partner_org_id
                == memberships@[i].partner_org_id && forall|j: int|
                0 <= j < i ==> #[trigger] memberships@[j].role@ != required_role@
                    && memberships@[j].role@ != "PARTNER_ADMIN"@,
{
    let mut i: usize = 0;
    while i < memberships.len()
        invariant
            i <= memberships@.len(),
            forall|j: int| 0 <= j < i ==> !role_grants(#[trigger] memberships@[j].role@, required_role@),
        decreases memberships.len() - i,
    {
        let role = memberships[i].role.as_str();
        if same_text(role, required_role) || same_text(role, "PARTNER_ADMIN") {
            assert(first_granting(memberships@, required_role@, i as int));
            return Ok(PartnerContext { user_id, partner_org_id: memberships[i].partner_org_id });
        }
        i = i + 1;
    }
    Err(AppError::Forbidden)
}

/// How many hours a pickup code lives: as asked, the default when not asked,
/// and at least one.
pub open spec fn pickup_hours(hours: Option<i64>) -> int {
    let h = match hours {
        Some(h) => h as int,
        None => DEFAULT_PICKUP_EXPIRY_HOURS as int,
    };
    if h > 1 {
        h
    } else {
        1
    }
}

/// When a pickup code made at `now` expires; `None` where chrono would panic
/// (the hours are out of its range).
pub fn pickup_expiry_at(hours: Option<i64>, now: i64) -> (r: Option<i64>)
    ensures
        r matches Some(t) ==> shifted(now as int, pickup_hours(hours) * 3600) == Some(t as int),
        r is None ==> shifted(now as int, pickup_hours(hours) * 3600) is None,
{
    let h = match hours {
        Some(h) => h,
        None => DEFAULT_PICKUP_EXPIRY_HOURS,
    };
    let hrs = if h > 1 {
        h
    } else {
        1
    };
    match crate::clock::checked_scale(hrs, 3600) {
        None => None,
        Some(secs) => shift(now, secs),
    }
}

/// When a pickup code made now expires; `None` where chrono would panic.
pub fn pickup_expiry(hours: Option<i64>) -> (r: Option<i64>)
    ensures
        exists|now: int|
            in_datetime_range(now) && match r {
                Some(t) => shifted(now, pickup_hours(hours) * 3600) == Some(t as int),
                None => shifted(now, pickup_hours(hours) * 3600) is None,
            },
{
    let now = now_micros();
    pickup_expiry_at(hours, now)
}

/// Confirmation is throttled after `MAX_FAILED_ATTEMPTS` failures until
/// `ATTEMPT_COOLDOWN_MINUTES` have passed since the last one.
pub open spec fn rate_limited(failed_attempts: i32, last_failed_at: Option<i64>, now: int) -> bool {
    &&& failed_attempts >= MAX_FAILED_ATTEMPTS
    &&& last_failed_at matches Some(ts) && ts > now - ATTEMPT_COOLDOWN_MINUTES * 60 * 1_000_000
}

/// Whether a confirmation at instant `now` is throttled.
pub fn should_rate_limit_at(failed_attempts: i32, last_failed_at: Option<i64>, now: i64) -> (r: bool)
    ensures
        r == rate_limited(failed_attempts, last_failed_at, now as int),
{
    if failed_attempts < MAX_FAILED_ATTEMPTS {
        return false;
    }
    match last_failed_at {
        Some(ts) => (ts as i128) > (now as i128) - (ATTEMPT_COOLDOWN_MINUTES as i128) * 60
            * 1_000_000,
        None => false,
    }
}

/// Whether confirmation is throttled now.
pub fn should_rate_limit(failed_attempts: i32, last_failed_at: Option<i64>) -> (r: bool)
    ensures
        failed_attempts < MAX_FAILED_ATTEMPTS ==> !r,
        last_failed_at is None ==> !r,
        exists|now: int| in_datetime_range(now) && r == rate_limited(failed_attempts, last_failed_at, now),
{
    let now = now_micros();
    should_rate_limit_at(failed_attempts, last_failed_at, now)
}

/// What the cash withdrawal screen is configured with.
pub struct CashWithdrawalConfig {
    pub supported_currencies: Vec<String>,
    pub methods: Vec<String>,
    pub supports_delivery: bool,
    pub pickup_expiry_hours: i64,
    pub cities: Vec<String>,
}

/// The configuration from the active partner cities and the number of active
/// locations that deliver.
pub fn withdrawal_config(cities: Vec<String>, delivery_locations: Option<i64>) -> (c:
    CashWithdrawalConfig)
    ensures
        c.supported_currencies@.len() == 2,
        c.supported_currencies@[0]@ == "USD"@,
        c.supported_currencies@[1]@ == "GBP"@,
        c.methods@.len() == 2,
        c.methods@[0]@ == "PICKUP"@,
        c.methods@[1]@ == "DELIVERY"@,
        c.supports_delivery == match delivery_locations {
            Some(n) => n > 0,
            None => false,
        },
        c.pickup_expiry_hours == DEFAULT_PICKUP_EXPIRY_HOURS,
        c.cities == cities,
{
    let n = match delivery_locations {
        Some(n) => n,
        None => 0,
    };
    CashWithdrawalConfig {
        supported_currencies: supported_currencies(),
        methods: supported_methods(),
        supports_delivery: n > 0,
        pickup_expiry_hours: DEFAULT_PICKUP_EXPIRY_HOURS,
        cities,
    }
}

/// The price of a withdrawal before it is made.
pub struct QuoteResponse {
    pub fee_minor: i64,
    pub total_debit_minor: i64,
    pub expiry_hours: i64,
}

/// Normalises and checks the currency, then the method, of a request.
pub fn validate_withdrawal_request(currency: &str, method: &str) -> (r: Result<
    (String, String),
    AppError,
>)
    ensures
        ({
            let c = unicode_uppercase(trimmed(currency@));
            let m = unicode_uppercase(trimmed(method@));
            &&& !is_supported_currency(c) ==> fails_with(r, "UNSUPPORTED_CURRENCY"@)
            &&& is_supported_currency(c) && !is_supported_method(m) ==> fails_with(
                r,
                "UNSUPPORTED_METHOD"@,
            )
            &&& is_supported_currency(c) && is_supported_method(m) ==> (r matches Ok((rc, rm))
                && rc@ == c && rm@ == m)
        }),
{
    let c = normalize_uppercase(currency);
    let m = normalize_uppercase(method);
    validate_currency(c.as_str())?;
    validate_method(m.as_str())?;
    Ok((c, m))
}

/// The quote for a request, once its major amount has been scaled by 100 and
/// rounded to `rounded_minor`.
pub fn get_quote(currency: &str, method: &str, rounded_minor: i64) -> (r: Result<
    QuoteResponse,
    AppError,
>)
    ensures
        ({
            let c = unicode_uppercase(trimmed(currency@));
            let m = unicode_uppercase(trimmed(method@));
            &&& !is_supported_currency(c) ==> fails_with(r, "UNSUPPORTED_CURRENCY"@)
            &&& is_supported_currency(c) && !is_supported_method(m) ==> fails_with(
                r,
                "UNSUPPORTED_METHOD"@,
            )
            &&& is_supported_currency(c) && is_supported_method(m) && !quotable(rounded_minor)
                ==> fails_with(r, "INVALID_AMOUNT"@)
            &&& is_supported_currency(c) && is_supported_method(m) && quotable(rounded_minor)
                ==> (r matches Ok(q) && q.fee_minor == withdrawal_fee(
                rounded_minor as int,
            ) && q.total_debit_minor == rounded_minor + q.fee_minor && q.expiry_hours
                == DEFAULT_PICKUP_EXPIRY_HOURS)
        }),
        r matches Ok(q) ==> q.fee_minor == if (rounded_minor * 100 + 5000) / 10000 > 500 {
            (rounded_minor * 100 + 5000) / 10000
        } else {
            500
        } && q.total_debit_minor == rounded_minor + q.fee_minor,
{
    let _ = validate_withdrawal_request(currency, method)?;
    let (_, fee_minor, total_debit_minor) = price_withdrawal(rounded_minor)?;
    Ok(QuoteResponse { fee_minor, total_debit_minor, expiry_hours: DEFAULT_PICKUP_EXPIRY_HOURS })
}

/// Where a delivery goes.
pub enum DeliveryAddress {
    /// The address object the customer sent, as JSON text.
    Given(String),
    /// Built from the request's city and location detail.
    FromLocation { city: Option<String>, address: String },
}

/// The delivery address of a new withdrawal: the one sent, or for a delivery
/// the request's location detail; a delivery must have one.
pub fn delivery_address_for(
    method: &str,
    delivery_address: Option<String>,
    city: Option<String>,
    location_detail: Option<String>,
) -> (r: Result<Option<DeliveryAddress>, AppError>)
    ensures
        delivery_address matches Some(a) ==> (r matches Ok(Some(DeliveryAddress::Given(g)))
            && g@ == a@),
        delivery_address is None && method@ == "DELIVERY"@ ==> match location_detail {
            Some(d) => r matches Ok(Some(DeliveryAddress::FromLocation { city: c, address }))
                && address@ == d@ && c == city,
            None => fails_with(r, "DELIVERY_ADDRESS_REQUIRED"@),
        },
        delivery_address is None && method@ != "DELIVERY"@ ==> r matches Ok(None),
{
    match delivery_address {
        Some(a) => Ok(Some(DeliveryAddress::Given(a))),
        None => {
            if same_text(method, "DELIVERY") {
                match location_detail {
                    Some(d) => Ok(Some(DeliveryAddress::FromLocation { city, address: d })),
                    None => Err(provider_error("DELIVERY_ADDRESS_REQUIRED")),
                }
            } else {
                Ok(None)
            }
        },
    }
}

/// A `cash_withdrawals` row.
pub struct CashWithdrawalRow {
    pub id: u128,
    pub reference: String,
    pub user_id: u128,
    pub partner_org_id: Option<u128>,
    pub location_id: Option<u128>,
    pub currency: String,
    pub method: String,
    pub amount_minor: i64,
    pub fee_minor: i64,
    pub total_debit_minor: i64,
    pub requested_city: Option<String>,
    pub location_detail: Option<String>,
    pub status: String,
    pub pickup_code_expires_at: Option<i64>,
    /// The delivery address object, as JSON text.
    pub delivery_address: Option<String>,
    pub failed_attempts: i32,
    pub created_at: i64,
    pub updated_at: i64,
}

/// Where and until when the cash can be picked up.
pub struct PickupInstructions {
    pub location_id: Option<u128>,
    pub city: Option<String>,
    pub address: Option<String>,
    pub expires_at: Option<i64>,
}

/// A withdrawal as its owner sees it.
pub struct WithdrawalDetailResponse {
    pub reference: String,
    pub currency: String,
    pub method: String,
    pub amount_minor: i64,
    pub fee_minor: i64,
    pub total_debit_minor: i64,
    pub city: Option<String>,
    pub location_detail: Option<String>,
    pub status: String,
    pub pickup_instructions: Option<PickupInstructions>,
    pub delivery_address: Option<String>,
    pub created_at: i64,
    pub updated_at: i64,
}

/// A withdrawal in a list.
pub struct WithdrawalHistoryItem {
    pub reference: String,
    pub currency: String,
    pub method: String,
    pub amount_minor: i64,
    pub fee_minor: i64,
    pub total_debit_minor: i64,
    pub city: Option<String>,
    pub status: String,
    pub created_at: i64,
}

/// The fields that every view of a withdrawal copies from its row.
pub open spec fn detail_copies_row(d: WithdrawalDetailResponse, row: CashWithdrawalRow) -> bool {
    &&& d.reference == row.reference
    &&& d.currency == row.currency
    &&& d.method == row.method
    &&& d.amount_minor == row.amount_minor
    &&& d.fee_minor == row.fee_minor
    &&& d.total_debit_minor == row.total_debit_minor
    &&& d.city == row.requested_city
    &&& d.location_detail == row.location_detail
    &&& d.status == row.status
    &&& d.created_at == row.created_at
    &&& d.updated_at == row.updated_at
}

/// The answer to the customer who just created the withdrawal `row`.
pub fn created_withdrawal_detail(row: CashWithdrawalRow) -> (d: WithdrawalDetailResponse)
    ensures
        detail_copies_row(d, row),
        d.pickup_instructions is None,
        d.delivery_address == row.delivery_address,
{
    WithdrawalDetailResponse {
        reference: row.reference,
        currency: row.currency,
        method: row.method,
        amount_minor: row.amount_minor,
        fee_minor: row.fee_minor,
        total_debit_minor: row.total_debit_minor,
        city: row.requested_city,
        location_detail: row.location_detail,
        status: row.status,
        pickup_instructions: None,
        delivery_address: row.delivery_address,
        created_at: row.created_at,
        updated_at: row.updated_at,
    }
}

/// A withdrawal as its owner sees it later: pickup instructions only while it
/// is READY, the delivery address only once it is READY or COLLECTED.
pub fn withdrawal_detail(row: CashWithdrawalRow) -> (d: WithdrawalDetailResponse)
    ensures
        detail_copies_row(d, row),
        row.status@ == "READY"@ ==> (d.pickup_instructions matches Some(p) && p.location_id
            == row.location_id && p.city == row.requested_city && p.address == row.location_detail
            && p.expires_at == row.pickup_code_expires_at),
        row.status@ != "READY"@ ==> d.pickup_instructions is None,
        d.delivery_address == if row.status@ == "READY"@ || row.status@ == "COLLECTED"@ {
            row.delivery_address
        } else {
            None
        },
{
    let ready = same_text(row.status.as_str(), "READY");
    let shown = ready || same_text(row.status.as_str(), "COLLECTED");
    let pickup_instructions = if ready {
        Some(
            PickupInstructions {
                location_id: row.location_id,
                city: row.requested_city.clone(),
                address: row.location_detail.clone(),
                expires_at: row.pickup_code_expires_at,
            },
        )
    } else {
        None
    };
    let delivery_address = if shown {
        row.delivery_address
    } else {
        None
    };
    WithdrawalDetailResponse {
        reference: row.reference,
        currency: row.currency,
        method: row.method,
        amount_minor: row.amount_minor,
        fee_minor: row.fee_minor,
        total_debit_minor: row.total_debit_minor,
        city: row.requested_city,
        location_detail: row.location_detail,
        status: row.status,
        pickup_instructions,
        delivery_address,
        created_at: row.created_at,
        updated_at: row.updated_at,
    }
}

/// `r` answers a partner acting on a request in `status` that the action
/// expects in `expected`: the wrong status is `INVALID_STATUS`, a request of
/// another organisation is `Forbidden`.
pub open spec fn partner_action_decided(
    status: Seq<char>,
    expected: Seq<char>,
    record_org: Option<u128>,
    ctx: PartnerContext,
    r: Result<(), AppError>,
) -> bool {
    if status != expected {
        fails_with(r, "INVALID_STATUS"@)
    } else {
        match record_org {
            Some(o) => if o != ctx.partner_org_id {
                r matches Err(AppError::Forbidden)
            } else {
                r is Ok
            },
            None => r is Ok,
        }
    }
}

/// The status a withdrawal is opened in, which a partner marks ready.
pub fn new_withdrawal_status() -> (s: &'static str)
    ensures
        s@ == "PENDING"@,
{
    "PENDING"
}

/// What marking a withdrawal ready writes.
pub struct ReadyWrite {
    pub status: String,
    pub partner_org_id: u128,
    /// The location to set; `None` keeps the one the withdrawal has.
    pub location_id: Option<u128>,
    pub pickup_code_hash: String,
    pub pickup_code_expires_at: i64,
}

/// Marking a withdrawal ready: it becomes READY for the partner's
/// organisation, with the location, the pickup code's hash and its expiry.
pub fn ready_write(ctx: PartnerContext, location_id: Option<u128>, pickup_code_hash: String, expires_at: i64) -> (w:
    ReadyWrite)
    ensures
        w.status@ == "READY"@,
        w.partner_org_id == ctx.partner_org_id,
        w.location_id == location_id,
        w.pickup_code_hash == pickup_code_hash,
        w.pickup_code_expires_at == expires_at,
{
    ReadyWrite {
        status: String::from_str("READY"),
        partner_org_id: ctx.partner_org_id,
        location_id,
        pickup_code_hash,
        pickup_code_expires_at: expires_at,
    }
}

/// A partner may act on a request only in the status the action expects and
/// only if it is unassigned or assigned to the partner's organisation.
pub fn check_partner_action(
    status: &str,
    expected: &str,
    record_org: Option<u128>,
    ctx: PartnerContext,
) -> (r: Result<(), AppError>)
    ensures
        partner_action_decided(status@, expected@, record_org, ctx, r),
{
    if !same_text(status, expected) {
        return Err(provider_error("INVALID_STATUS"));
    }
    if let Some(o) = record_org {
        if o != ctx.partner_org_id {
            return Err(AppError::Forbidden);
        }
    }
    Ok(())
}

/// An active location of the partner's organisation.
pub struct PartnerLocation {
    pub id: u128,
    pub supports_pickup: bool,
    pub supports_delivery: bool,
}

/// The location a READY withdrawal is served from: the current one unless the
/// partner names another, which must be theirs, active, and serve the method.
pub fn ready_location(
    method: &str,
    current: Option<u128>,
    requested: Option<u128>,
    found: Option<PartnerLocation>,
) -> (r: Result<Option<u128>, AppError>)
    ensures
        requested is None ==> r == Ok::<Option<u128>, AppError>(current),
        requested is Some ==> match found {
            None => fails_with(r, "LOCATION_NOT_FOUND"@),
            Some(loc) => if method@ == "PICKUP"@ && !loc.supports_pickup {
                fails_with(r, "LOCATION_NOT_PICKUP_READY"@)
            } else if method@ == "DELIVERY"@ && !loc.supports_delivery {
                fails_with(r, "LOCATION_NOT_DELIVERY_READY"@)
            } else {
                r == Ok::<Option<u128>, AppError>(Some(loc.id))
            },
        },
{
    if requested.is_none() {
        return Ok(current);
    }
    let loc = match found {
        Some(l) => l,
        None => return Err(provider_error("LOCATION_NOT_FOUND")),
    };
    if same_text(method, "PICKUP") && !loc.supports_pickup {
        return Err(provider_error("LOCATION_NOT_PICKUP_READY"));
    }
    if same_text(method, "DELIVERY") && !loc.supports_delivery {
        return Err(provider_error("LOCATION_NOT_DELIVERY_READY"));
    }
    Ok(Some(loc.id))
}

/// What a partner is told when a withdrawal is ready.
pub struct PartnerReadyResponse {
    pub reference: String,
    pub pickup_code: String,
    pub expires_at: i64,
}

/// What a partner is told after acting on a request.
pub struct PartnerActionResponse {
    pub reference: String,
    pub status: String,
}

/// A withdrawal as read (and locked) when a partner confirms it.
pub struct ConfirmCandidate {
    pub status: String,
    pub partner_org_id: Option<u128>,
    pub method: String,
    pub pickup_code_hash: Option<String>,
    pub pickup_code_expires_at: Option<i64>,
    pub failed_attempts: i32,
    pub last_failed_at: Option<i64>,
}

/// What a confirmation that got past the plain refusals does.
pub enum ConfirmOutcome {
    /// The pickup code has expired: the withdrawal becomes EXPIRED, its hold
    /// is refunded, and the partner is told `PICKUP_CODE_EXPIRED`.
    Expired,
    /// The pickup code is wrong: the failed attempt is recorded and the
    /// partner is told `InvalidCredentials`.
    FailedAttempt,
    /// The cash was handed over: the withdrawal becomes COLLECTED for this
    /// organisation, its hold is consumed and its debit completed.
    Collected { partner_org_id: u128 },
}

/// The refusal a confirmation ends with once its outcome is written: an
/// expired code and a wrong code are refused, a collection is not.
pub fn outcome_refusal(o: &ConfirmOutcome) -> (r: Option<AppError>)
    ensures
        *o is Expired ==> (r matches Some(e) && crate::error::is_provider_error(
            e,
            "PICKUP_CODE_EXPIRED"@,
        )),
        *o is FailedAttempt ==> r matches Some(AppError::InvalidCredentials),
        *o is Collected ==> r is None,
{
    match o {
        ConfirmOutcome::Expired => Some(provider_error("PICKUP_CODE_EXPIRED")),
        ConfirmOutcome::FailedAttempt => Some(AppError::InvalidCredentials),
        ConfirmOutcome::Collected { .. } => None,
    }
}

/// What a confirmation writes, by its outcome.
pub struct ConfirmWrite {
    /// The withdrawal's new status, if it changes.
    pub status: Option<String>,
    /// Added to the withdrawal's failed attempts (the time of the failure is
    /// recorded with it).
    pub failed_attempts_added: i32,
    /// The failed attempts start again from zero.
    pub reset_failed_attempts: bool,
    /// The hold is refunded (as `refund_hold_and_wallet` decides).
    pub refund_hold: bool,
    /// The hold's new status, if it is consumed.
    pub hold_status: Option<String>,
    /// The new status of the withdrawal's debit entry, if it completes.
    pub debit_status: Option<String>,
}

/// The writes of a confirmation: an expired code expires the withdrawal and
/// refunds its hold; a wrong code counts one more failed attempt; a
/// collection marks it COLLECTED, clears the attempts, consumes the hold and
/// completes the debit.
pub fn confirm_write(o: &ConfirmOutcome) -> (w: ConfirmWrite)
    ensures
        *o is Expired ==> (w.status matches Some(s) && s@ == "EXPIRED"@) && w.refund_hold
            && w.failed_attempts_added == 0 && !w.reset_failed_attempts && w.hold_status is None
            && w.debit_status is None,
        *o is FailedAttempt ==> w.status is None && !w.refund_hold && w.failed_attempts_added == 1
            && !w.reset_failed_attempts && w.hold_status is None && w.debit_status is None,
        *o is Collected ==> (w.status matches Some(s) && s@ == "COLLECTED"@) && !w.refund_hold
            && w.failed_attempts_added == 0 && w.reset_failed_attempts && (w.hold_status matches Some(
            h,
        ) && h@ == "CONSUMED"@) && (w.debit_status matches Some(d) && d@ == "completed"@),
{
    match o {
        ConfirmOutcome::Expired => ConfirmWrite {
            status: Some(String::from_str("EXPIRED")),
            failed_attempts_added: 0,
            reset_failed_attempts: false,
            refund_hold: true,
            hold_status: None,
            debit_status: None,
        },
        ConfirmOutcome::FailedAttempt => ConfirmWrite {
            status: None,
            failed_attempts_added: 1,
            reset_failed_attempts: false,
            refund_hold: false,
            hold_status: None,
            debit_status: None,
        },
        ConfirmOutcome::Collected { .. } => ConfirmWrite {
            status: Some(String::from_str("COLLECTED")),
            failed_attempts_added: 0,
            reset_failed_attempts: true,
            refund_hold: false,
            hold_status: Some(String::from_str("CONSUMED")),
            debit_status: Some(String::from_str("completed")),
        },
    }
}

/// The decision on a partner's confirmation at instant `now`.
pub open spec fn confirm_decided(
    rec: ConfirmCandidate,
    ctx: PartnerContext,
    pickup_code: Option<String>,
    delivered: Option<bool>,
    now: int,
    r: Result<ConfirmOutcome, AppError>,
) -> bool {
    if rec.status@ != "READY"@ {
        fails_with(r, "INVALID_STATUS"@)
    } else if rec.partner_org_id matches Some(o) && o != ctx.partner_org_id {
        r matches Err(AppError::Forbidden)
    } else if rec.pickup_code_expires_at matches Some(e) && e < now {
        r matches Ok(ConfirmOutcome::Expired)
    } else if rate_limited(rec.failed_attempts, rec.last_failed_at, now) {
        fails_with(r, "TOO_MANY_ATTEMPTS"@)
    } else if rec.method@ == "PICKUP"@ {
        match pickup_code {
            None => fails_with(r, "PICKUP_CODE_REQUIRED"@),
            Some(code) => match rec.pickup_code_hash {
                None => fails_with(r, "PICKUP_CODE_MISSING"@),
                Some(h) => match bcrypt_verdict(code@, h@) {
                    None => r matches Err(e) && e is HashError,
                    Some(false) => r matches Ok(ConfirmOutcome::FailedAttempt),
                    Some(true) => r matches Ok(ConfirmOutcome::Collected { partner_org_id: o })
                        && o == ctx.partner_org_id,
                },
            },
        }
    } else if delivered != Some(true) {
        fails_with(r, "DELIVERY_CONFIRMATION_REQUIRED"@)
    } else {
        r matches Ok(ConfirmOutcome::Collected { partner_org_id: o }) && o == ctx.partner_org_id
    }
}

/// Decides a partner's confirmation that a READY withdrawal was collected
/// (pickup, checked by code) or delivered, at instant `now`.
pub fn confirm_withdrawal_at(
    rec: ConfirmCandidate,
    ctx: PartnerContext,
    pickup_code: Option<String>,
    delivered: Option<bool>,
    now: i64,
) -> (r: Result<ConfirmOutcome, AppError>)
    ensures
        confirm_decided(rec, ctx, pickup_code, delivered, now as int, r),
{
    check_partner_action(rec.status.as_str(), "READY", rec.partner_org_id, ctx)?;
    if let Some(e) = rec.pickup_code_expires_at {
        if e < now {
            return Ok(ConfirmOutcome::Expired);
        }
    }
    if should_rate_limit_at(rec.failed_attempts, rec.last_failed_at, now) {
        return Err(provider_error("TOO_MANY_ATTEMPTS"));
    }
    if same_text(rec.method.as_str(), "PICKUP") {
        let code = match pickup_code {
            Some(c) => c,
            None => return Err(provider_error("PICKUP_CODE_REQUIRED")),
        };
        let hash = match rec.pickup_code_hash {
            Some(h) => h,
            None => return Err(provider_error("PICKUP_CODE_MISSING")),
        };
        let valid = crate::security::verify_value(code, hash)?;
        if !valid {
            return Ok(ConfirmOutcome::FailedAttempt);
        }
    } else {
        let confirmed = match delivered {
            Some(b) => b,
            None => false,
        };
        if !confirmed {
            return Err(provider_error("DELIVERY_CONFIRMATION_REQUIRED"));
        }
    }
    Ok(ConfirmOutcome::Collected { partner_org_id: ctx.partner_org_id })
}

/// Decides a partner's confirmation now.
pub fn confirm_withdrawal(
    rec: ConfirmCandidate,
    ctx: PartnerContext,
    pickup_code: Option<String>,
    delivered: Option<bool>,
) -> (r: Result<ConfirmOutcome, AppError>)
    ensures
        exists|now: int|
            in_datetime_range(now) && confirm_decided(rec, ctx, pickup_code, delivered, now, r),
{
    let now = now_micros();
    confirm_withdrawal_at(rec, ctx, pickup_code, delivered, now)
}

/// Only a READY withdrawal is ever collected, expired or charged a failed
/// attempt: every outcome other than a refusal comes from READY.
pub proof fn law_only_ready_withdrawals_progress(
    rec: ConfirmCandidate,
    ctx: PartnerContext,
    pickup_code: Option<String>,
    delivered: Option<bool>,
    now: int,
    r: Result<ConfirmOutcome, AppError>,
)
    requires
        confirm_decided(rec, ctx, pickup_code, delivered, now, r),
        r is Ok,
    ensures
        rec.status@ == "READY"@,
        rec.partner_org_id matches Some(o) ==> o == ctx.partner_org_id,
{
}

/// A withdrawal that was collected or has expired is settled: a partner can
/// neither mark it ready (which needs PENDING) nor confirm it (which needs
/// READY).
pub proof fn law_settled_withdrawals_are_final(
    rec: ConfirmCandidate,
    ctx: PartnerContext,
    pickup_code: Option<String>,
    delivered: Option<bool>,
    now: int,
    confirmed: Result<ConfirmOutcome, AppError>,
    readied: Result<(), AppError>,
)
    requires
        rec.status@ == "COLLECTED"@ || rec.status@ == "EXPIRED"@,
        confirm_decided(rec, ctx, pickup_code, delivered, now, confirmed),
        partner_action_decided(rec.status@, "PENDING"@, rec.partner_org_id, ctx, readied),
    ensures
        fails_with(confirmed, "INVALID_STATUS"@),
        fails_with(readied, "INVALID_STATUS"@),
{
    reveal_strlit("COLLECTED");
    reveal_strlit("EXPIRED");
    reveal_strlit("READY");
    reveal_strlit("PENDING");
    assert("COLLECTED"@.len() != "READY"@.len());
    assert("COLLECTED"@.len() != "PENDING"@.len());
    assert("EXPIRED"@.len() != "READY"@.len());
    assert("EXPIRED"@[0] != "PENDING"@[0]);
}

/// The answer to a travel partner's action on booking `id`.
pub fn travel_action_response(id: u128, status: &str) -> (r: PartnerActionResponse)
    ensures
        r.reference@ == uuid_text(id),
        r.status@ == status@,
{
    PartnerActionResponse { reference: uuid_string(id), status: String::from_str(status) }
}

} // verus!
