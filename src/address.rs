//! Sender addresses: 20 bytes written as 40 hexadecimal digits, optionally
//! after a `0x` prefix.
use vstd::prelude::*;

verus! {

/// Why an address string was refused.
#[derive(Clone, Copy, Debug, PartialEq, Eq)]
pub enum AddressError {
    /// A character that is neither a hexadecimal digit nor white space, and
    /// its byte position after the prefix.
    InvalidCharacter(char, usize),
    /// The string does not hold exactly 40 hexadecimal digits.
    InvalidLength,
}

pub open spec fn is_hex_digit(c: char) -> bool {
    ('0' <= c && c <= '9') || ('a' <= c && c <= 'f') || ('A' <= c && c <= 'F')
}

pub open spec fn hex_value(c: char) -> int {
    if '0' <= c && c <= '9' {
        c as int - '0' as int
    } else if 'a' <= c && c <= 'f' {
        c as int - 'a' as int + 10
    } else {
        c as int - 'A' as int + 10
    }
}

/// Characters skipped between hexadecimal digits.
pub open spec fn is_hex_space(c: char) -> bool {
    c == ' ' || c == '\r' || c == '\n' || c == '\t'
}

/// Number of hexadecimal digits in `s`.
pub open spec fn hex_digit_count(s: Seq<char>) -> nat
    decreases s.len(),
{
    if s.len() == 0 {
        0
    } else {
        (if is_hex_digit(s.last()) { 1nat } else { 0nat }) + hex_digit_count(s.drop_last())
    }
}

/// The digits of an address string: what follows the `0x` prefix, if any.
pub open spec fn hex_body(s: Seq<char>) -> Seq<char> {
    if s.len() >= 2 && s[0] == '0' && s[1] == 'x' {
        s.subrange(2, s.len() as int)
    } else {
        s
    }
}

/// `s` is an address written plainly: 40 hexadecimal digits after an
/// optional `0x`.
pub open spec fn is_plain_address(s: Seq<char>) -> bool {
    &&& hex_body(s).len() == 40
    &&& forall|i: int| 0 <= i < 40 ==> is_hex_digit(#[trigger] hex_body(s)[i])
}

/// Byte `i` of the address written by the digits `body`, big-endian.
pub open spec fn address_byte(body: Seq<char>, i: int) -> int {
    hex_value(body[2 * i]) * 16 + hex_value(body[2 * i + 1])
}

/// `s` can never be read as an address: it is too short, holds a character
/// that is neither a hexadecimal digit nor white space after the prefix, or
/// holds a count of digits other than 40.
pub open spec fn is_refused_address(s: Seq<char>) -> bool {
    ||| s.len() < 40
    ||| exists|i: int| 0 <= i < hex_body(s).len() && !is_hex_digit(#[trigger] hex_body(s)[i])
            && !is_hex_space(hex_body(s)[i])
    ||| hex_digit_count(hex_body(s)) != 40
}

/// The bytes of a plainly written address.
pub open spec fn address_bytes_of(s: Seq<char>, a: Seq<u8>) -> bool {
    &&& a.len() == 20
    &&& forall|i: int| 0 <= i < 20 ==> #[trigger] a[i] == address_byte(hex_body(s), i)
}

/// Relies on the `FromStr` impl of ethers' `Address`: it strips one `0x`
/// prefix, reads the digits big-endian skipping white space, and refuses any
/// other character and any count of digits but 40.
#[verifier::external_body]
pub(crate) fn parse_h160(s: &str) -> (r: Result<[u8; 20], AddressError>)
    ensures
        is_plain_address(s@) ==> r is Ok && address_bytes_of(s@, r->Ok_0@),
        s@.len() < 40 ==> r is Err,
        (exists|i: int| 0 <= i < hex_body(s@).len() && !is_hex_digit(#[trigger] hex_body(s@)[i])
            && !is_hex_space(hex_body(s@)[i])) ==> r is Err,
        hex_digit_count(hex_body(s@)) != 40 ==> r is Err,
{
    match <ethers::types::Address as core::str::FromStr>::from_str(s) {
        Ok(a) => Ok(a.0),
        Err(HexError::InvalidHexCharacter(c, i)) => Err(AddressError::InvalidCharacter(c, i)),
        Err(HexError::InvalidHexLength) => Err(AddressError::InvalidLength),
    }
}

type HexError = <ethers::types::Address as core::str::FromStr>::Err;

} // verus!
