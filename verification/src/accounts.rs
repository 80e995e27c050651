//! Account housekeeping: saved beneficiaries, account closure and the app's
//! configuration.

use crate::error::{fails_with, is_provider_error, provider_error, sqlx_unique_violation, AppError};
use crate::security::{bcrypt_verdict, check_stored_pin};
use vstd::prelude::*;
use vstd::string::*;

verus! {

/// A saved payee.
pub struct Beneficiary {
    pub id: u128,
    pub name: String,
    pub channel: String,
    pub provider: String,
    pub account: String,
}

/// The fields of a payee as a user sends them (the id is ours to give).
pub struct BeneficiaryPayload {
    pub name: String,
    pub channel: String,
    pub provider: String,
    pub account: String,
}

/// A request to close one's account.
pub struct ClosurePayload {
    pub reason: Option<String>,
    pub pin: String,
}

/// The app's static configuration.
pub struct AppConfigResponse {
    pub referral_code: String,
    pub daily_limit_fmt: String,
    pub monthly_limit_fmt: String,
    pub app_version: String,
    pub build_number: String,
    pub company_name: String,
    pub copyright_text: String,
    pub support_email: String,
    /// Where the governance certificate (a PDF) is.
    pub certificate_url: String,
}

/// The error an insert of a payee fails with: a duplicate payee is reported
/// as such, any other failure is a database error.
pub fn insert_conflict_error(unique_violation: bool, e: sqlx::Error) -> (r: AppError)
    ensures
        unique_violation ==> is_provider_error(r, "Beneficiary already exists"@),
        !unique_violation ==> r == AppError::DatabaseError(e),
{
    if unique_violation {
        provider_error("Beneficiary already exists")
    } else {
        AppError::DatabaseError(e)
    }
}

/// The error a failed insert of a payee is answered with: a duplicate or the
/// database error itself (which one the database's answer decides).
pub fn beneficiary_insert_error(e: sqlx::Error) -> (r: AppError)
    ensures
        is_provider_error(r, "Beneficiary already exists"@) || r == AppError::DatabaseError(e),
{
    let unique = sqlx_unique_violation(&e);
    insert_conflict_error(unique, e)
}

/// A delete that removed no row touched no payee of this user.
pub fn check_beneficiary_deleted(rows_affected: u64) -> (r: Result<(), AppError>)
    ensures
        rows_affected == 0 ==> fails_with(r, "Beneficiary not found"@),
        rows_affected > 0 ==> r is Ok,
{
    if rows_affected == 0 {
        Err(provider_error("Beneficiary not found"))
    } else {
        Ok(())
    }
}

/// A closure request must carry the user's PIN: no PIN set is `PIN_NOT_SET`
/// and a wrong one `InvalidCredentials`.
pub fn check_closure_pin(pin_hash: Option<String>, payload: &ClosurePayload) -> (r: Result<
    (),
    AppError,
>)
    ensures
        pin_hash is None ==> fails_with(r, "PIN_NOT_SET"@),
        pin_hash matches Some(h) ==> match bcrypt_verdict(payload.pin@, h@) {
            Some(true) => r is Ok,
            Some(false) => r matches Err(AppError::InvalidCredentials),
            None => r matches Err(e) && e is HashError,
        },
{
    check_stored_pin(pin_hash, payload.pin.clone())
}

/// The app's configuration.
pub fn get_app_config() -> (c: AppConfigResponse)
    ensures
        c.referral_code@ == "PERA1234"@,
        c.daily_limit_fmt@ == "₦10,000"@,
        c.monthly_limit_fmt@ == "₦30,000"@,
        c.app_version@ == "1.0.0"@,
        c.build_number@ == "1"@,
        c.company_name@ == "Pera Fide Services Limited"@,
        c.copyright_text@ == "© 2026 Pera Fide Services Limited"@,
        c.support_email@ == "support@pera.com"@,
        c.certificate_url@ == "https://pera.com/certificates/islamic_governance.pdf"@,
{
    AppConfigResponse {
        referral_code: String::from_str("PERA1234"),
        daily_limit_fmt: String::from_str("₦10,000"),
        monthly_limit_fmt: String::from_str("₦30,000"),
        app_version: String::from_str("1.0.0"),
        build_number: String::from_str("1"),
        company_name: String::from_str("Pera Fide Services Limited"),
        copyright_text: String::from_str("© 2026 Pera Fide Services Limited"),
        support_email: String::from_str("support@pera.com"),
        certificate_url: String::from_str("https://pera.com/certificates/islamic_governance.pdf"),
    }
}

} // verus!
