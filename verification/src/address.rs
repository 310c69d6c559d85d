//! Validation of principal addresses by their strkey text.
//!
//! A Stellar strkey address is exactly 56 characters of the RFC 4648 base32
//! alphabet (`A`-`Z`, `2`-`7`). The strkey of the all-zero ed25519 key is a
//! sentinel that no real principal holds.

use vstd::prelude::*;
use crate::table::Address;

verus! {

/// Length of a strkey address.
pub const STRKEY_ADDRESS_LEN: usize = 56;

/// Whether `b` is a character of the base32 alphabet.
pub open spec fn is_base32_char(b: u8) -> bool {
    (65 <= b <= 90) || (50 <= b <= 55)
}

/// The strkey of the all-zero ed25519 public key:
/// `G`, fifty-two `A`s, then the checksum characters `WHF`.
pub open spec fn zero_payload_strkey() -> Seq<u8> {
    Seq::new(
        56,
        |i: int|
            if i == 0 {
                71u8
            } else if i < 53 {
                65u8
            } else if i == 53 {
                87u8
            } else if i == 54 {
                72u8
            } else {
                70u8
            },
    )
}

/// A strkey text names a usable principal: 56 base32 characters that are not
/// the zero-key sentinel.
pub open spec fn spec_valid_principal(text: Seq<u8>) -> bool {
    &&& text.len() == 56
    &&& text != zero_payload_strkey()
    &&& forall|i: int| 0 <= i < text.len() ==> is_base32_char(#[trigger] text[i])
}

fn zero_payload_byte(i: usize) -> (r: u8)
    requires
        i < 56,
    ensures
        r == zero_payload_strkey()[i as int],
{
    if i == 0 {
        71
    } else if i < 53 {
        65
    } else if i == 53 {
        87
    } else if i == 54 {
        72
    } else {
        70
    }
}

/// Whether `text` is exactly the zero-key sentinel strkey.
pub fn is_zero_payload_strkey(text: &[u8]) -> (r: bool)
    ensures
        r == (text@ == zero_payload_strkey()),
{
    if text.len() != STRKEY_ADDRESS_LEN {
        return false;
    }
    let mut i: usize = 0;
    while i < STRKEY_ADDRESS_LEN
        invariant
            text@.len() == 56,
            i <= 56,
            forall|j: int| 0 <= j < i ==> text@[j] == zero_payload_strkey()[j],
        decreases 56 - i,
    {
        if text[i] != zero_payload_byte(i) {
            assert(text@[i as int] != zero_payload_strkey()[i as int]);
            return false;
        }
        i = i + 1;
    }
    assert(text@ =~= zero_payload_strkey());
    true
}

/// Whether `text` is the strkey of a usable principal.
pub fn is_valid_principal_strkey(text: &[u8]) -> (r: bool)
    ensures
        r == spec_valid_principal(text@),
{
    if text.len() == 0 || text.len() != STRKEY_ADDRESS_LEN {
        return false;
    }
    if is_zero_payload_strkey(text) {
        return false;
    }
    let mut i: usize = 0;
    while i < STRKEY_ADDRESS_LEN
        invariant
            text@.len() == 56,
            i <= 56,
            forall|j: int| 0 <= j < i ==> is_base32_char(#[trigger] text@[j]),
        decreases 56 - i,
    {
        let b = text[i];
        if !((b >= 65 && b <= 90) || (b >= 50 && b <= 55)) {
            assert(!is_base32_char(text@[i as int]));
            return false;
        }
        i = i + 1;
    }
    true
}

/// Whether the address is the zero-key sentinel.
pub fn is_zero_or_sentinel_address(address: &Address) -> (r: bool)
    ensures
        r == (address@ == zero_payload_strkey()),
{
    is_zero_payload_strkey(vstd::array::array_as_slice(&address.strkey))
}

/// Whether the address names a usable principal.
pub fn is_valid_principal_address(address: &Address) -> (r: bool)
    ensures
        r == spec_valid_principal(address@),
{
    is_valid_principal_strkey(vstd::array::array_as_slice(&address.strkey))
}

} // verus!
