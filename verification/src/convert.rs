//! Currency conversion between a user's own wallets.

use crate::error::{fails_with, provider_error, AppError};
use crate::ledger::{
    balance_after, funds_decided, lemma_balance_after_two, require_funds, require_wallet, LedgerEntry,
    WalletMove, WalletRow,
};
use crate::text::{append_text, same_text};
use vstd::prelude::*;
use vstd::string::*;

verus! {

/// A conversion request.
pub struct ConvertPayload {
    pub from_currency: String,
    pub to_currency: String,
    pub amount_minor: i64,
    pub pin: String,
}

/// The wallet a currency is held in: USDT is held in the USD wallet.
pub open spec fn wallet_key(currency: Seq<char>) -> Seq<char> {
    if currency == "USDT"@ {
        "USD"@
    } else {
        currency
    }
}

/// Only USDT is held in another currency's wallet (the USD wallet); every
/// other currency is its own wallet, so the USD wallet is the wallet of USD
/// and USDT and of nothing else, and distinct currencies other than USDT
/// have distinct wallets.
pub proof fn law_only_usdt_shares_a_wallet(c: Seq<char>, d: Seq<char>)
    ensures
        c != "USDT"@ ==> wallet_key(c) == c,
        c == "USDT"@ ==> wallet_key(c) == "USD"@,
        wallet_key(c) == "USD"@ <==> (c == "USDT"@ || c == "USD"@),
        c != "USDT"@ && d != "USDT"@ && c != d ==> wallet_key(c) != wallet_key(d),
{
    reveal_strlit("USDT");
    reveal_strlit("USD");
    assert("USDT"@.len() != "USD"@.len());
}

/// The wallet `currency` is held in.
pub fn currency_to_wallet_key<'a>(currency: &'a str) -> (r: &'a str)
    ensures
        r@ == wallet_key(currency@),
        currency@ == "USDT"@ ==> r@ == "USD"@,
        currency@ != "USDT"@ ==> r@ == currency@,
{
    if same_text(currency, "USDT") {
        "USD"
    } else {
        currency
    }
}

/// A conversion moves a positive amount between two different currencies.
pub fn validate_conversion(from_currency: &str, to_currency: &str, amount_minor: i64) -> (r: Result<
    (),
    AppError,
>)
    ensures
        amount_minor <= 0 ==> fails_with(r, "Invalid amount"@),
        amount_minor > 0 && from_currency@ == to_currency@ ==> fails_with(
            r,
            "Cannot convert to same currency"@,
        ),
        amount_minor > 0 && from_currency@ != to_currency@ ==> r is Ok,
{
    if amount_minor <= 0 {
        return Err(provider_error("Invalid amount"));
    }
    if same_text(from_currency, to_currency) {
        return Err(provider_error("Cannot convert to same currency"));
    }
    Ok(())
}

/// Wallets that are the same need no rate from the provider (the rate is 1).
pub fn needs_live_rate(from_key: &str, to_key: &str) -> (r: bool)
    ensures
        r == (from_key@ != to_key@),
{
    !same_text(from_key, to_key)
}

/// The administrators' markup is added to the rate only on pairs with NGN.
pub fn markup_applies(from_key: &str, to_key: &str) -> (r: bool)
    ensures
        r == (from_key@ == "NGN"@ || to_key@ == "NGN"@),
{
    same_text(from_key, "NGN") || same_text(to_key, "NGN")
}

/// The text of the error for a wallet `key` the user does not have.
pub open spec fn missing_wallet_text(key: Seq<char>) -> Seq<char> {
    key + " wallet not found"@
}

/// The locked wallet to debit: it must exist and cover the amount.
pub fn check_source_wallet(wallet: Option<WalletRow>, from_key: &str, amount_minor: i64) -> (r:
    Result<WalletRow, AppError>)
    ensures
        funds_decided(wallet, amount_minor as int, missing_wallet_text(from_key@), "Insufficient funds"@, r),
{
    let mut missing = String::from_str(from_key);
    append_text(&mut missing, " wallet not found");
    require_funds(wallet, amount_minor, missing.as_str(), "Insufficient funds")
}

/// The locked wallet to credit: it must exist.
pub fn check_target_wallet(wallet: Option<WalletRow>, to_key: &str) -> (r: Result<
    WalletRow,
    AppError,
>)
    ensures
        wallet is None ==> fails_with(r, missing_wallet_text(to_key@)),
        wallet matches Some(w) ==> r == Ok::<WalletRow, AppError>(w),
{
    let mut missing = String::from_str(to_key);
    append_text(&mut missing, " wallet not found");
    require_wallet(wallet, missing.as_str())
}

/// The balance moves of a conversion: the source wallet is debited by the
/// amount and the target wallet credited by the converted amount.
pub struct ConversionMoves {
    pub debit: WalletMove,
    pub credit: WalletMove,
}

/// The moves of converting `amount_minor` from the locked wallet `from`
/// (which covers it) into `to_amount_minor` in the locked wallet `to`. When
/// both currencies are held in one wallet, it sees both moves.
pub fn conversion_moves(from: WalletRow, to: WalletRow, amount_minor: i64, to_amount_minor: i64) -> (m:
    ConversionMoves)
    requires
        amount_minor > 0,
        from.balance_minor >= amount_minor,
    ensures
        m.debit.wallet_id == from.id && m.debit.delta_minor == -amount_minor,
        m.credit.wallet_id == to.id && m.credit.delta_minor == to_amount_minor,
        balance_after(from, seq![m.debit, m.credit]) == from.balance_minor - amount_minor + if from.id
            == to.id {
            to_amount_minor as int
        } else {
            0
        },
        balance_after(to, seq![m.debit, m.credit]) == to.balance_minor + to_amount_minor - if from.id
            == to.id {
            amount_minor as int
        } else {
            0
        },
{
    let m = ConversionMoves {
        debit: WalletMove { wallet_id: from.id, delta_minor: -amount_minor },
        credit: WalletMove { wallet_id: to.id, delta_minor: to_amount_minor },
    };
    proof {
        lemma_balance_after_two(from, m.debit, m.credit);
        lemma_balance_after_two(to, m.debit, m.credit);
    }
    m
}

/// The two ledger entries of a conversion: a completed debit of the source
/// wallet and a completed credit of the target one, under one reference.
pub fn conversion_entries(
    user_id: u128,
    from_wallet_id: u128,
    to_wallet_id: u128,
    from_key: &str,
    to_key: &str,
    from_currency: &str,
    to_currency: &str,
    amount_minor: i64,
    to_amount_minor: i64,
    conversion_id: &str,
) -> (r: (LedgerEntry, LedgerEntry))
    requires
        amount_minor > 0,
    ensures
        r.0.user_id == user_id && r.1.user_id == user_id,
        r.0.wallet_id == from_wallet_id && r.1.wallet_id == to_wallet_id,
        r.0.kind@ == "convert"@ && r.1.kind@ == "convert"@,
        r.0.status@ == "completed"@ && r.1.status@ == "completed"@,
        r.0.amount_minor == -amount_minor,
        r.1.amount_minor == to_amount_minor,
        r.0.currency@ == from_key@ && r.1.currency@ == to_key@,
        r.0.title@ == "Convert to "@ + to_currency@,
        r.1.title@ == "Convert from "@ + from_currency@,
        r.0.counterparty matches Some(c) && c@ == "Pera Convert"@,
        r.1.counterparty matches Some(c) && c@ == "Pera Convert"@,
        r.0.reference@ == conversion_id@ && r.1.reference@ == conversion_id@,
{
    let mut debit_title = String::from_str("Convert to ");
    append_text(&mut debit_title, to_currency);
    let mut credit_title = String::from_str("Convert from ");
    append_text(&mut credit_title, from_currency);
    let debit = LedgerEntry {
        user_id,
        wallet_id: from_wallet_id,
        kind: String::from_str("convert"),
        status: String::from_str("completed"),
        amount_minor: -amount_minor,
        currency: String::from_str(from_key),
        title: debit_title,
        counterparty: Some(String::from_str("Pera Convert")),
        reference: String::from_str(conversion_id),
    };
    let credit = LedgerEntry {
        user_id,
        wallet_id: to_wallet_id,
        kind: String::from_str("convert"),
        status: String::from_str("completed"),
        amount_minor: to_amount_minor,
        currency: String::from_str(to_key),
        title: credit_title,
        counterparty: Some(String::from_str("Pera Convert")),
        reference: String::from_str(conversion_id),
    };
    (debit, credit)
}

} // verus!
