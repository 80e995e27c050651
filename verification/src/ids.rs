//! Fresh identifiers, random codes and the clock.

use crate::text::{uuid_string, uuid_text};
use rand::Rng;
use vstd::prelude::*;

verus! {

/// A version-4 id: the version nibble (bits 76 to 79) is 4 and the two
/// variant bits (62 and 63) are `10`.
pub open spec fn is_uuid_v4(u: u128) -> bool {
    (u as nat / 0x1000_0000_0000_0000_0000nat) % 16 == 4 && (u as nat
        / 0x4000_0000_0000_0000nat) % 4 == 2
}

/// uuid's `Uuid::new_v4`, read as its 128-bit value: random, with the
/// version and variant bits that `new_v4` sets.
#[verifier::external_body]
pub(crate) fn random_uuid_v4() -> (u: u128)
    ensures
        is_uuid_v4(u),
{
    uuid::Uuid::new_v4().as_u128()
}

/// rand's `thread_rng().gen_range(0..=999_999)`: random, within the range.
#[verifier::external_body]
pub(crate) fn random_six_digit_number() -> (n: u32)
    ensures
        n <= 999_999,
{
    rand::thread_rng().gen_range(0..=999_999)
}

/// A fresh random reference: the text of a new version-4 id.
pub fn generate_reference() -> (r: String)
    ensures
        exists|u: u128| is_uuid_v4(u) && r@ == uuid_text(u),
{
    let u = random_uuid_v4();
    uuid_string(u)
}

} // verus!
