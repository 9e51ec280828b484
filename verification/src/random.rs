//! Chance: random numbers and random identifiers.

use rand::RngExt;
use vstd::prelude::*;

verus! {

/// A digit of a lower-case hexadecimal numeral.
pub open spec fn is_hex_digit(c: char) -> bool {
    '0' <= c <= '9' || 'a' <= c <= 'f'
}

/// The shape of a random (version 4) UUID in its hyphenated lower-case form.
pub open spec fn is_uuid_v4(s: Seq<char>) -> bool {
    &&& s.len() == 36
    &&& forall|i: int|
        0 <= i < 36 ==> if i == 8 || i == 13 || i == 18 || i == 23 {
            #[trigger] s[i] == '-'
        } else {
            is_hex_digit(s[i])
        }
    &&& s[14] == '4'
    &&& s[19] == '8' || s[19] == '9' || s[19] == 'a' || s[19] == 'b'
}

/// `Uuid::new_v4` of uuid, as text. Which of the identifiers of that shape comes
/// is left to chance.
#[verifier::external_body]
pub(crate) fn new_uuid() -> (id: String)
    ensures
        is_uuid_v4(id@),
{
    uuid::Uuid::new_v4().to_string()
}

/// `RngExt::random` of rand on the thread's generator, for 32 bytes. Which bytes
/// come is left to chance.
#[verifier::external_body]
pub(crate) fn random_bytes() -> (bytes: [u8; 32]) {
    rand::rng().random()
}

/// `RngExt::random` of rand on the thread's generator, for a 64-bit number.
/// Which number comes is left to chance.
#[verifier::external_body]
pub(crate) fn random_number() -> (number: u64) {
    rand::rng().random()
}

} // verus!
