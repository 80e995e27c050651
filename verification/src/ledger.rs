//! Wallet rows and the ledger entries that money movements write.

use crate::error::{fails_with, provider_error, AppError};
use vstd::prelude::*;

verus! {

/// A wallet as read (and locked) before it is debited or credited.
pub struct WalletRow {
    pub id: u128,
    pub balance_minor: i64,
}

/// A row of the `transactions` ledger.
pub struct LedgerEntry {
    pub user_id: u128,
    pub wallet_id: u128,
    /// The `type` column: what moved the money.
    pub kind: String,
    pub status: String,
    /// Signed amount in minor units: negative for a debit, positive for a credit.
    pub amount_minor: i64,
    pub currency: String,
    pub title: String,
    pub counterparty: Option<String>,
    pub reference: String,
}

/// `r` is the answer to a request to debit `amount_minor` from `wallet`: the
/// error `missing` when there is no wallet, the error `short` when its balance
/// does not cover the amount, and otherwise the wallet itself.
pub open spec fn funds_decided(
    wallet: Option<WalletRow>,
    amount_minor: int,
    missing: Seq<char>,
    short: Seq<char>,
    r: Result<WalletRow, AppError>,
) -> bool {
    match wallet {
        None => fails_with(r, missing),
        Some(w) => if w.balance_minor < amount_minor {
            fails_with(r, short)
        } else {
            r == Ok::<WalletRow, AppError>(w)
        },
    }
}

/// The wallet to debit `amount_minor` from: it must exist (else the error
/// `missing`) and hold at least the amount (else the error `short`).
pub fn require_funds(wallet: Option<WalletRow>, amount_minor: i64, missing: &str, short: &str) -> (r:
    Result<WalletRow, AppError>)
    ensures
        funds_decided(wallet, amount_minor as int, missing@, short@, r),
{
    match wallet {
        None => Err(provider_error(missing)),
        Some(w) => if w.balance_minor < amount_minor {
            Err(provider_error(short))
        } else {
            Ok(w)
        },
    }
}

/// No debit passes the funds check unless the wallet's balance covers it: the
/// wallet that passes is the one read, and its balance less the amount is
/// not negative.
pub proof fn law_no_overdraft(
    wallet: Option<WalletRow>,
    amount_minor: int,
    missing: Seq<char>,
    short: Seq<char>,
    r: Result<WalletRow, AppError>,
)
    requires
        funds_decided(wallet, amount_minor, missing, short, r),
        r is Ok,
    ensures
        wallet is Some,
        r == Ok::<WalletRow, AppError>(wallet->0),
        wallet->0.balance_minor - amount_minor >= 0,
{
}

/// The wallet, which must exist (else the error `missing`).
pub fn require_wallet(wallet: Option<WalletRow>, missing: &str) -> (r: Result<
    WalletRow,
    AppError,
>)
    ensures
        wallet is None ==> fails_with(r, missing@),
        wallet matches Some(w) ==> r == Ok::<WalletRow, AppError>(w),
{
    match wallet {
        None => Err(provider_error(missing)),
        Some(w) => Ok(w),
    }
}

/// A change of one wallet's balance by `delta_minor` (negative for a debit).
#[derive(Clone, Copy)]
pub struct WalletMove {
    pub wallet_id: u128,
    pub delta_minor: i64,
}

/// The balance of `w` once the moves `ms` have been applied in order: the
/// balance before plus the deltas of the moves of that wallet.
pub open spec fn balance_after(w: WalletRow, ms: Seq<WalletMove>) -> int
    decreases ms.len(),
{
    if ms.len() == 0 {
        w.balance_minor as int
    } else {
        balance_after(w, ms.drop_last()) + if ms.last().wallet_id == w.id {
            ms.last().delta_minor as int
        } else {
            0
        }
    }
}

/// One move, then another, change `w` by the sum of their deltas on it.
pub proof fn lemma_balance_after_two(w: WalletRow, a: WalletMove, b: WalletMove)
    ensures
        balance_after(w, seq![a]) == w.balance_minor + if a.wallet_id == w.id {
            a.delta_minor as int
        } else {
            0
        },
        balance_after(w, seq![a, b]) == balance_after(w, seq![a]) + if b.wallet_id == w.id {
            b.delta_minor as int
        } else {
            0
        },
{
    assert(seq![a].drop_last() =~= Seq::<WalletMove>::empty());
    assert(seq![a].last() == a);
    assert(balance_after(w, Seq::<WalletMove>::empty()) == w.balance_minor);
    assert(seq![a, b].drop_last() =~= seq![a]);
    assert(seq![a, b].last() == b);
}

/// A payment taken from one wallet: the debit, and the move that undoes it
/// when the payment is refunded.
#[derive(Clone, Copy)]
pub struct Charge {
    pub debit: WalletMove,
    pub refund: WalletMove,
}

/// `c` charges `amount` to `w`: the debit takes the amount, the refund gives
/// exactly that back, so debit then refund leaves the balance as it was.
pub open spec fn is_charge(c: Charge, w: WalletRow, amount: int) -> bool {
    &&& c.debit.wallet_id == w.id
    &&& c.refund.wallet_id == w.id
    &&& c.debit.delta_minor == -amount
    &&& c.refund.delta_minor == amount
    &&& balance_after(w, seq![c.debit]) == w.balance_minor - amount
    &&& balance_after(w, seq![c.debit, c.refund]) == w.balance_minor
}

/// The charge of `amount` to a wallet that covers it (as `require_funds`
/// checked).
pub fn charge(w: WalletRow, amount: i64) -> (c: Charge)
    requires
        amount > i64::MIN,
        w.balance_minor >= amount,
    ensures
        is_charge(c, w, amount as int),
        balance_after(w, seq![c.debit]) >= 0,
{
    let c = Charge {
        debit: WalletMove { wallet_id: w.id, delta_minor: -amount },
        refund: WalletMove { wallet_id: w.id, delta_minor: amount },
    };
    proof {
        lemma_balance_after_two(w, c.debit, c.refund);
    }
    c
}

/// How a charged payment ends: the provider took it, it was refunded, or its
/// database transaction was abandoned (so the debit never stood).
#[derive(Clone, Copy)]
pub enum PaymentEnd {
    Completed,
    Refunded,
    Abandoned,
}

/// The moves of a charge that stand once the payment has ended.
pub open spec fn standing_moves(c: Charge, end: PaymentEnd) -> Seq<WalletMove> {
    match end {
        PaymentEnd::Completed => seq![c.debit],
        PaymentEnd::Refunded => seq![c.debit, c.refund],
        PaymentEnd::Abandoned => Seq::empty(),
    }
}

/// Only a completed payment costs the wallet anything: it costs exactly the
/// amount; a refunded or abandoned one leaves the balance as it was.
pub proof fn law_only_completed_payments_cost(c: Charge, w: WalletRow, amount: int, end: PaymentEnd)
    requires
        is_charge(c, w, amount),
    ensures
        balance_after(w, standing_moves(c, end)) == match end {
            PaymentEnd::Completed => w.balance_minor - amount,
            _ => w.balance_minor as int,
        },
{
}

} // verus!
