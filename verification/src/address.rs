//! Account addresses and their textual form.
//!
//! An address is twenty bytes. Its accepted textual form is forty hex
//! digits, with or without a leading `0x` (or `0X`) marker. Text that does
//! not fit that shape is a fatal load error, found once at startup, so that
//! no malformed address ever reaches a loop.

use vstd::prelude::*;

use crate::errors::LoadError;

verus! {

/// Number of bytes in an account address.
pub const ADDRESS_LEN: usize = 20;

/// Whether `b` is the ASCII code of a hex digit.
pub open spec fn is_hex_digit(b: u8) -> bool {
    (48 <= b && b <= 57)  // '0' ..= '9'
    || (97 <= b && b <= 102)  // 'a' ..= 'f'
    || (65 <= b && b <= 70)  // 'A' ..= 'F'

}

/// The value of the hex digit with ASCII code `b`.
pub open spec fn hex_value(b: u8) -> u8
    recommends
        is_hex_digit(b),
{
    if 48 <= b && b <= 57 {
        (b - 48) as u8
    } else if 97 <= b && b <= 102 {
        (b - 97 + 10) as u8
    } else {
        (b - 65 + 10) as u8
    }
}

/// The digit part of address text: what follows the optional marker.
pub open spec fn digits_of(s: Seq<u8>) -> Seq<u8> {
    if s.len() >= 2 && s[0] == 48 && (s[1] == 120 || s[1] == 88) {  // "0x" or "0X"
        s.subrange(2, s.len() as int)
    } else {
        s
    }
}

/// Whether every element of `d` is a hex digit.
pub open spec fn all_hex_digits(d: Seq<u8>) -> bool {
    forall|i: int| 0 <= i < d.len() ==> is_hex_digit(#[trigger] d[i])
}

/// Whether `s` is a well-formed address text: an optional `0x` marker and
/// then exactly forty hex digits.
pub open spec fn valid_address_text(s: Seq<u8>) -> bool {
    digits_of(s).len() == 40 && all_hex_digits(digits_of(s))
}

/// The bytes that an even-length run of hex digits encodes, high digit of
/// each byte first.
pub open spec fn decoded_bytes(d: Seq<u8>) -> Seq<u8> {
    Seq::new((d.len() / 2) as nat, |i: int| (hex_value(d[2 * i]) * 16 + hex_value(d[2 * i + 1])) as u8)
}

/// The load error that ill-formed address text earns: a length fault
/// whenever the digit count is off, a character fault otherwise.
pub open spec fn address_error(s: Seq<u8>) -> LoadError {
    if digits_of(s).len() != 40 {
        LoadError::AddressLength
    } else {
        LoadError::AddressCharacter
    }
}

/// A validated twenty-byte account address.
#[derive(Debug, PartialEq, Eq)]
pub struct Address {
    bytes: Vec<u8>,
}

impl View for Address {
    type V = Seq<u8>;

    closed spec fn view(&self) -> Seq<u8> {
        self.bytes@
    }
}

impl Address {
    /// Well-formedness: exactly twenty bytes.
    pub open spec fn wf(&self) -> bool {
        self@.len() == ADDRESS_LEN
    }

    /// The bytes of the address.
    pub fn as_bytes(&self) -> (r: &Vec<u8>)
        ensures
            r@ == self@,
    {
        &self.bytes
    }

    /// An owned copy with the same bytes.
    pub fn duplicate(&self) -> (r: Address)
        ensures
            r@ == self@,
    {
        let mut bytes: Vec<u8> = Vec::new();
        let mut i: usize = 0;
        while i < self.bytes.len()
            invariant
                i <= self.bytes.len(),
                bytes@ == self.bytes@.subrange(0, i as int),
            decreases self.bytes.len() - i,
        {
            bytes.push(self.bytes[i]);
            i = i + 1;
            proof {
                assert(bytes@ =~= self.bytes@.subrange(0, i as int));
            }
        }
        proof {
            assert(bytes@ =~= self.bytes@);
        }
        Address { bytes }
    }
}

/// The value of one hex digit, or `None` for any other byte.
fn hex_digit_value(b: u8) -> (r: Option<u8>)
    ensures
        is_hex_digit(b) ==> r == Some(hex_value(b)),
        !is_hex_digit(b) ==> r is None,
{
    if 48 <= b && b <= 57 {
        Some(b - 48)
    } else if 97 <= b && b <= 102 {
        Some(b - 97 + 10)
    } else if 65 <= b && b <= 70 {
        Some(b - 65 + 10)
    } else {
        None
    }
}

/// Parses address text into an address: an optional `0x` or `0X` marker,
/// then exactly forty hex digits giving the twenty bytes. Rejects every
/// other input with the exact load error of `address_error`.
pub fn parse_address(text: &[u8]) -> (r: Result<Address, LoadError>)
    ensures
        valid_address_text(text@) ==> (r matches Ok(a) && a@ == decoded_bytes(digits_of(text@))
            && a.wf()),
        !valid_address_text(text@) ==> r == Err::<Address, LoadError>(address_error(text@)),
{
    let n = text.len();
    let has_marker = n >= 2 && text[0] == 48 && (text[1] == 120 || text[1] == 88);
    let start: usize = if has_marker {
        2
    } else {
        0
    };
    proof {
        assert(digits_of(text@) =~= text@.subrange(start as int, n as int));
    }
    if n - start != 40 {
        return Err(LoadError::AddressLength);
    }
    let ghost digits = digits_of(text@);
    let mut bytes: Vec<u8> = Vec::new();
    let mut i: usize = 0;
    while i < 20
        invariant
            i <= 20,
            n == text@.len(),
            start + 40 == n,
            digits == digits_of(text@),
            digits =~= text@.subrange(start as int, n as int),
            digits.len() == 40,
            bytes@.len() == i,
            forall|j: int| 0 <= j < 2 * i ==> is_hex_digit(#[trigger] digits[j]),
            forall|j: int|
                0 <= j < i ==> bytes@[j] == (hex_value(digits[2 * j]) * 16 + hex_value(
                    digits[2 * j + 1],
                )) as u8,
        decreases 20 - i,
    {
        let hi = text[start + 2 * i];
        let lo = text[start + 2 * i + 1];
        proof {
            assert(digits[2 * (i as int)] == hi);
            assert(digits[2 * (i as int) + 1] == lo);
        }
        let hv = match hex_digit_value(hi) {
            Some(v) => v,
            None => {
                return Err(LoadError::AddressCharacter);
            },
        };
        let lv = match hex_digit_value(lo) {
            Some(v) => v,
            None => {
                return Err(LoadError::AddressCharacter);
            },
        };
        bytes.push(hv * 16 + lv);
        i = i + 1;
    }
    proof {
        assert(valid_address_text(text@));
        assert(bytes@ =~= decoded_bytes(digits));
    }
    Ok(Address { bytes })
}

} // verus!
