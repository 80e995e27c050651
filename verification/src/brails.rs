//! What the Brails provider is sent and how its answers are read: customer
//! and card-user payloads, the HTTP error text and the envelopes' verdicts.

use crate::text::append_text;
use vstd::prelude::*;
use vstd::string::*;

verus! {

/// A new provider customer (absent optional fields are left out of the JSON).
pub struct BrailsCreateCustomerPayload {
    pub first_name: Option<String>,
    pub last_name: Option<String>,
    pub email: String,
    pub phone: Option<String>,
    pub country_code: Option<String>,
}

/// The new details of a provider customer.
pub struct BrailsUpdateCustomerPayload {
    pub email: String,
    pub first_name: String,
    pub last_name: String,
    pub phone: Option<String>,
    pub country_code: Option<String>,
}

/// The KYC submission that registers a user for cards.
pub struct BrailsRegisterUserPayload {
    pub customer_email: String,
    pub id_number: String,
    pub id_type: String,
    pub first_name: String,
    pub last_name: String,
    pub phone_number: String,
    pub city: String,
    pub state: String,
    pub country: String,
    pub bvn: String,
    /// Base64 of the user's photo.
    pub user_photo: String,
}

/// The provider's answer to a card-user registration.
pub struct BrailsRegisterUserData {
    /// The provider's id of the user.
    pub user_id: String,
    pub customer_email: String,
    /// Such as `PENDING`.
    pub kyc_status: String,
}

/// A request for a virtual bank account.
pub struct BrailsVirtualAccountPayload {
    pub first_name: String,
    pub last_name: String,
    pub bvn: String,
    /// `YYYY-MM-DD`.
    pub date_of_birth: String,
    pub customer_email: String,
    /// Our user id.
    pub reference: String,
    pub bank: String,
    pub phone_number: String,
}

/// The virtual account the provider opened.
pub struct BrailsVirtualAccountData {
    pub id: String,
    pub bank: String,
    pub account_name: String,
    pub account_number: String,
    pub status: String,
}

/// A user's request to create a provider customer.
pub struct CreateCustomerRequest {
    pub first_name: Option<String>,
    pub last_name: Option<String>,
    pub email: String,
    pub phone: Option<String>,
    pub country_code: Option<String>,
}

/// A user's request to change a provider customer.
pub struct UpdateCustomerRequest {
    pub email: String,
    pub first_name: String,
    pub last_name: String,
    pub phone: Option<String>,
    pub country_code: Option<String>,
}

/// The provider payload of a create request: the same fields.
pub fn create_customer_payload(req: CreateCustomerRequest) -> (p: BrailsCreateCustomerPayload)
    ensures
        p.first_name == req.first_name,
        p.last_name == req.last_name,
        p.email == req.email,
        p.phone == req.phone,
        p.country_code == req.country_code,
{
    BrailsCreateCustomerPayload {
        first_name: req.first_name,
        last_name: req.last_name,
        email: req.email,
        phone: req.phone,
        country_code: req.country_code,
    }
}

/// The provider payload of an update request: the same fields.
pub fn update_customer_payload(req: UpdateCustomerRequest) -> (p: BrailsUpdateCustomerPayload)
    ensures
        p.email == req.email,
        p.first_name == req.first_name,
        p.last_name == req.last_name,
        p.phone == req.phone,
        p.country_code == req.country_code,
{
    BrailsUpdateCustomerPayload {
        email: req.email,
        first_name: req.first_name,
        last_name: req.last_name,
        phone: req.phone,
        country_code: req.country_code,
    }
}

/// The error text of a provider answer whose HTTP status is not a success:
/// the status line and the body.
pub fn api_error_text(status: &str, body: &str) -> (r: String)
    ensures
        r@ == "Brails API error: "@ + status@ + " - "@ + body@,
{
    let mut r = String::from_str("Brails API error: ");
    append_text(&mut r, status);
    append_text(&mut r, " - ");
    append_text(&mut r, body);
    r
}

/// The text a customer envelope that reports failure is answered with: its
/// message, or a fixed text when it has none.
pub open spec fn customer_failure_text(message: Option<String>) -> Seq<char> {
    match message {
        Some(m) => m@,
        None => "Brails returned failure"@,
    }
}

/// The verdict of a customer envelope: its data when it reports success.
pub fn customer_envelope_result<T>(status: bool, message: Option<String>, data: T) -> (r: Result<
    T,
    String,
>)
    ensures
        status ==> r == Ok::<T, String>(data),
        !status ==> (r matches Err(m) && m@ == customer_failure_text(message)),
{
    if status {
        Ok(data)
    } else {
        match message {
            Some(m) => Err(m),
            None => Err(String::from_str("Brails returned failure")),
        }
    }
}

/// The verdict of a wallet envelope: its data, or its message.
pub fn wallet_envelope_result<T>(status: bool, message: String, data: T) -> (r: Result<
    T,
    String,
>)
    ensures
        status ==> r == Ok::<T, String>(data),
        !status ==> r == Err::<T, String>(message),
{
    if status {
        Ok(data)
    } else {
        Err(message)
    }
}

/// The verdict of a virtual-account answer: a failure passes back the
/// account's status as the reason.
pub fn virtual_account_result(status: bool, data: BrailsVirtualAccountData) -> (r: Result<
    BrailsVirtualAccountData,
    String,
>)
    ensures
        status ==> r == Ok::<BrailsVirtualAccountData, String>(data),
        !status ==> r == Err::<BrailsVirtualAccountData, String>(data.status),
{
    if status {
        Ok(data)
    } else {
        Err(data.status)
    }
}

/// The verdict of a card-user registration: a failure passes back the KYC
/// status (such as `BVN_MISMATCH`) as the reason.
pub fn card_user_result(status: bool, data: BrailsRegisterUserData) -> (r: Result<
    BrailsRegisterUserData,
    String,
>)
    ensures
        status ==> r == Ok::<BrailsRegisterUserData, String>(data),
        !status ==> r == Err::<BrailsRegisterUserData, String>(data.kyc_status),
{
    if status {
        Ok(data)
    } else {
        Err(data.kyc_status)
    }
}

} // verus!
