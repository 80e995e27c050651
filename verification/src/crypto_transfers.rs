//! Stablecoin sends from the USD wallet and deposit addresses.

use crate::error::{fails_with, provider_error, AppError};
use crate::ledger::{
    balance_after, charge, funds_decided, is_charge, require_funds, standing_moves, Charge, LedgerEntry,
    PaymentEnd, WalletRow,
};
use crate::text::{append_text, same_text, uuid_string, uuid_text};
use vstd::prelude::*;
use vstd::string::*;

verus! {

/// The pair of a conversion quote.
pub struct QuoteQuery {
    pub from: String,
    pub to: String,
}

/// A send order to the provider (amount in minor units).
pub struct BrailsSendPayload {
    pub amount: i64,
    pub address: String,
    pub chain: String,
    /// Our transaction id, which the provider uses as the idempotency key.
    pub reference: String,
    pub description: String,
    pub customer_email: String,
    pub callback_url: Option<String>,
}

/// A deposit address the provider issued.
pub struct BrailsAddressData {
    pub id: String,
    pub address: String,
    pub customer_email: Option<String>,
    pub network: String,
    pub address_type: String,
}

/// Where the provider reports on crypto sends.
pub open spec fn send_callback_url() -> Seq<char> {
    "https://api.pera.com/api/v1/webhooks/brails/crypto-send"@
}

/// The amount of a send in minor units, once its major amount has been scaled
/// by 100 and rounded: it must be positive.
pub fn send_amount_minor(rounded_minor: i64) -> (r: Result<i64, AppError>)
    ensures
        rounded_minor <= 0 ==> fails_with(r, "Invalid amount"@),
        rounded_minor > 0 ==> r == Ok::<i64, AppError>(rounded_minor),
{
    if rounded_minor <= 0 {
        return Err(provider_error("Invalid amount"));
    }
    Ok(rounded_minor)
}

/// A send the risk check blocks is declined.
pub fn fraud_gate(decision: &str) -> (r: Result<(), AppError>)
    ensures
        decision@ == "BLOCK"@ ==> (r matches Err(AppError::TransactionDeclined(m)) && m@
            == "Transaction blocked by risk policy"@),
        decision@ != "BLOCK"@ ==> r is Ok,
{
    if same_text(decision, "BLOCK") {
        return Err(AppError::TransactionDeclined(String::from_str("Transaction blocked by risk policy")));
    }
    Ok(())
}

/// The locked USD wallet a send is paid from.
pub fn check_usd_wallet(wallet: Option<WalletRow>, amount_minor: i64) -> (r: Result<
    WalletRow,
    AppError,
>)
    ensures
        funds_decided(wallet, amount_minor as int, "USD wallet not found"@, "Insufficient USD funds"@, r),
{
    require_funds(wallet, amount_minor, "USD wallet not found", "Insufficient USD funds")
}

/// The charge of a send to the user's locked USD wallet: the wallet must
/// exist and cover the amount; the debit takes the amount, and abandoning the
/// send (no API key, or the provider refuses it) undoes exactly that.
pub fn send_charge(wallet: Option<WalletRow>, amount_minor: i64) -> (r: Result<Charge, AppError>)
    requires
        amount_minor > 0,
    ensures
        match wallet {
            None => fails_with(r, "USD wallet not found"@),
            Some(w) => if w.balance_minor < amount_minor {
                fails_with(r, "Insufficient USD funds"@)
            } else {
                r matches Ok(c) && is_charge(c, w, amount_minor as int)
            },
        },
{
    let w = check_usd_wallet(wallet, amount_minor)?;
    Ok(charge(w, amount_minor))
}

/// How a charged send ends: it completes only when the provider key is set
/// and the provider accepted the send; otherwise its transaction is
/// abandoned, so the debit never stands.
pub open spec fn send_payment_end(key_set: bool, sent: bool) -> PaymentEnd {
    if key_set && sent {
        PaymentEnd::Completed
    } else {
        PaymentEnd::Abandoned
    }
}

/// The end of a charged send, as `send_payment_end` says.
pub fn send_end(key_set: bool, sent: bool) -> (e: PaymentEnd)
    ensures
        e == send_payment_end(key_set, sent),
{
    if key_set && sent {
        PaymentEnd::Completed
    } else {
        PaymentEnd::Abandoned
    }
}

/// A send costs the USD wallet exactly its amount when the key was set and
/// the provider accepted it; a missing key or a failed send leaves the
/// balance as it was.
pub proof fn law_failed_sends_cost_nothing(c: Charge, w: WalletRow, amount: int, key_set: bool, sent: bool)
    requires
        is_charge(c, w, amount),
    ensures
        balance_after(w, standing_moves(c, send_payment_end(key_set, sent))) == if key_set && sent {
            w.balance_minor - amount
        } else {
            w.balance_minor as int
        },
{
}

/// The ledger entry of a send, written before the provider is called; its
/// status is the risk check's.
pub fn crypto_send_entry(
    user_id: u128,
    wallet_id: u128,
    status: &str,
    amount_minor: i64,
    asset: &str,
    counterparty: &str,
    reference: &str,
) -> (e: LedgerEntry)
    requires
        amount_minor > 0,
    ensures
        e.user_id == user_id,
        e.wallet_id == wallet_id,
        e.kind@ == "crypto_send"@,
        e.status@ == status@,
        e.amount_minor == -amount_minor,
        e.currency@ == "USD"@,
        e.title@ == "Send "@ + asset@,
        e.counterparty matches Some(c) && c@ == counterparty@,
        e.reference@ == reference@,
{
    let mut title = String::from_str("Send ");
    append_text(&mut title, asset);
    LedgerEntry {
        user_id,
        wallet_id,
        kind: String::from_str("crypto_send"),
        status: String::from_str(status),
        amount_minor: -amount_minor,
        currency: String::from_str("USD"),
        title,
        counterparty: Some(String::from_str(counterparty)),
        reference: String::from_str(reference),
    }
}

/// The provider's send order for our transaction `tx_id`.
pub fn brails_send_payload(
    amount_minor: i64,
    to_address: String,
    network: String,
    tx_id: u128,
    customer_email: String,
) -> (p: BrailsSendPayload)
    ensures
        p.amount == amount_minor,
        p.address == to_address,
        p.chain == network,
        p.reference@ == uuid_text(tx_id),
        p.description@ == "Pera tx "@ + uuid_text(tx_id),
        p.customer_email == customer_email,
        p.callback_url matches Some(u) && u@ == send_callback_url(),
{
    let reference = uuid_string(tx_id);
    let mut description = String::from_str("Pera tx ");
    append_text(&mut description, reference.as_str());
    BrailsSendPayload {
        amount: amount_minor,
        address: to_address,
        chain: network,
        reference,
        description,
        customer_email,
        callback_url: Some(String::from_str("https://api.pera.com/api/v1/webhooks/brails/crypto-send")),
    }
}

/// The error a failed provider send is answered with.
pub fn send_failure(reason: &str) -> (e: AppError)
    ensures
        e matches AppError::ProviderError(m) && m@ == "Crypto send failed: "@ + reason@,
{
    let mut m = String::from_str("Crypto send failed: ");
    append_text(&mut m, reason);
    AppError::ProviderError(m)
}

} // verus!
