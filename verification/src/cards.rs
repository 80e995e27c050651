//! Cards: the KYC gate, the card-user registration sent to the provider and
//! the cards that are issued.

use crate::brails::BrailsRegisterUserPayload;
use crate::crypto::{aes256_decrypt_base64, CryptoService};
use crate::error::{fails_with, provider_error, AppError};
use crate::text::{lower_case_text, same_text, unicode_lowercase};
use vstd::prelude::*;
use vstd::string::*;

verus! {

/// A card as the app lists it.
pub struct CardItem {
    pub id: u128,
    /// `virtual` or `physical`.
    pub kind: String,
    pub network: String,
    pub currency: String,
    pub holder_name: String,
    pub masked_pan: String,
    pub balance_minor: i64,
    pub activated: bool,
    pub frozen: bool,
    pub allow_foreign: bool,
    pub product: String,
}

/// A request for a virtual card.
pub struct CreateVirtualCardPayload {
    /// `visa` or `mastercard`.
    pub network: String,
}

/// A request for a physical card.
pub struct RequestPhysicalCardPayload {
    pub network: String,
    /// `pickup` or `home`.
    pub delivery_type: String,
    pub full_name: String,
    pub phone: String,
    pub address: Option<String>,
    pub city: Option<String>,
    pub state_region: Option<String>,
}

/// The switches of a card.
pub struct CardToggles {
    pub allow_foreign: bool,
}

/// The saved KYC profile fields a card-user registration needs (the BVN as
/// stored, encrypted).
pub struct CardUserProfile {
    pub first_name: Option<String>,
    pub surname: Option<String>,
    pub bvn_encrypted: Option<String>,
}

/// A card to be issued, before the database gives it an id.
pub struct NewCard {
    pub kind: String,
    pub product: String,
    pub network: String,
    pub currency: String,
    pub holder_name: String,
    pub masked_pan: String,
    pub activated: bool,
}

/// Cards are only issued to users whose KYC status is `verified`; an unknown
/// user counts as unverified.
pub fn check_kyc(kyc_status: Option<String>) -> (r: Result<(), AppError>)
    ensures
        r is Ok <==> (kyc_status matches Some(s) && s@ == "verified"@),
        r is Err ==> r matches Err(AppError::KycIncomplete),
{
    match kyc_status {
        Some(s) => {
            if same_text(s.as_str(), "verified") {
                Ok(())
            } else {
                Err(AppError::KycIncomplete)
            }
        },
        None => Err(AppError::KycIncomplete),
    }
}

/// The saved KYC profile, which must exist before a card-user registration.
pub fn require_kyc_profile(profile: Option<CardUserProfile>) -> (r: Result<
    CardUserProfile,
    AppError,
>)
    ensures
        profile is None ==> fails_with(r, "KYC profile not found. Please submit first."@),
        profile matches Some(p) ==> r == Ok::<CardUserProfile, AppError>(p),
{
    match profile {
        Some(p) => Ok(p),
        None => Err(provider_error("KYC profile not found. Please submit first.")),
    }
}

/// The BVN of a profile, decrypted: `None` when none is stored or it does
/// not decrypt.
pub open spec fn profile_bvn(key: Seq<char>, bvn_encrypted: Option<String>) -> Option<Seq<char>> {
    match bvn_encrypted {
        Some(b) => aes256_decrypt_base64(key, b@),
        None => None,
    }
}

/// The photo sent with a registration until photos are stored.
pub open spec fn placeholder_photo() -> Seq<char> {
    "mock-base-64-string"@
}

/// The card-user registration of a user: the BVN (decrypted, also sent as
/// the id number), then the first name and the surname must be there, in
/// that order; the city and state are Lagos and the country NG.
pub fn card_user_payload(
    profile: CardUserProfile,
    email: String,
    phone: String,
    crypto: &CryptoService,
) -> (r: Result<BrailsRegisterUserPayload, AppError>)
    ensures
        profile_bvn(crypto@, profile.bvn_encrypted) is None ==> fails_with(r, "BVN is required"@),
        profile_bvn(crypto@, profile.bvn_encrypted) is Some && profile.first_name is None
            ==> fails_with(r, "First name required"@),
        profile_bvn(crypto@, profile.bvn_encrypted) is Some && profile.first_name is Some
            && profile.surname is None ==> fails_with(r, "Surname required"@),
        r is Ok <==> (profile_bvn(crypto@, profile.bvn_encrypted) is Some
            && profile.first_name is Some && profile.surname is Some),
        r matches Ok(p) ==> {
            &&& p.customer_email == email
            &&& Some(p.bvn@) == profile_bvn(crypto@, profile.bvn_encrypted)
            &&& p.id_number@ == p.bvn@
            &&& p.id_type@ == "BVN"@
            &&& Some(p.first_name) == profile.first_name
            &&& Some(p.last_name) == profile.surname
            &&& p.phone_number == phone
            &&& p.city@ == "Lagos"@
            &&& p.state@ == "Lagos"@
            &&& p.country@ == "NG"@
            &&& p.user_photo@ == placeholder_photo()
        },
{
    let bvn = match profile.bvn_encrypted {
        Some(b) => match crypto.decrypt(b.as_str()) {
            Ok(t) => t,
            Err(_) => {
                return Err(provider_error("BVN is required"));
            },
        },
        None => {
            return Err(provider_error("BVN is required"));
        },
    };
    let first_name = match profile.first_name {
        Some(f) => f,
        None => {
            return Err(provider_error("First name required"));
        },
    };
    let last_name = match profile.surname {
        Some(s) => s,
        None => {
            return Err(provider_error("Surname required"));
        },
    };
    Ok(BrailsRegisterUserPayload {
        customer_email: email,
        id_number: bvn.clone(),
        id_type: String::from_str("BVN"),
        first_name,
        last_name,
        phone_number: phone,
        city: String::from_str("Lagos"),
        state: String::from_str("Lagos"),
        country: String::from_str("NG"),
        bvn,
        user_photo: String::from_str("mock-base-64-string"),
    })
}

/// The KYC status saved after a registration: the provider's, lower-cased.
pub fn registered_kyc_status(kyc_status: &str) -> (r: String)
    ensures
        r@ == unicode_lowercase(kyc_status@),
{
    lower_case_text(kyc_status)
}

/// A virtual card on `network`: standard USD, held by "Pera User", active.
pub fn virtual_card(network: String) -> (c: NewCard)
    ensures
        c.kind@ == "virtual"@,
        c.product@ == "standard"@,
        c.network == network,
        c.currency@ == "USD"@,
        c.holder_name@ == "Pera User"@,
        c.masked_pan@ == "**** **** **** 1234"@,
        c.activated,
{
    NewCard {
        kind: String::from_str("virtual"),
        product: String::from_str("standard"),
        network,
        currency: String::from_str("USD"),
        holder_name: String::from_str("Pera User"),
        masked_pan: String::from_str("**** **** **** 1234"),
        activated: true,
    }
}

/// A physical card on `network` for `full_name`: an Umrah prepaid USD card,
/// inactive until it is delivered.
pub fn physical_card(network: String, full_name: String) -> (c: NewCard)
    ensures
        c.kind@ == "physical"@,
        c.product@ == "umrahPrepaid"@,
        c.network == network,
        c.currency@ == "USD"@,
        c.holder_name == full_name,
        c.masked_pan@ == "**** **** **** 5678"@,
        !c.activated,
{
    NewCard {
        kind: String::from_str("physical"),
        product: String::from_str("umrahPrepaid"),
        network,
        currency: String::from_str("USD"),
        holder_name: full_name,
        masked_pan: String::from_str("**** **** **** 5678"),
        activated: false,
    }
}

} // verus!
