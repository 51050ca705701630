//! Hexadecimal text for secrets, by way of the `hex` crate.

use vstd::prelude::*;
use crate::error::{Error, ErrorKind};

verus! {

/// The value of a hexadecimal digit, in either case.
pub open spec fn hex_value(c: char) -> Option<int> {
    let code = c as u32 as int;
    if 48 <= code <= 57 {
        Some(code - 48)
    } else if 97 <= code <= 102 {
        Some(code - 87)
    } else if 65 <= code <= 70 {
        Some(code - 55)
    } else {
        None
    }
}

/// Whether `text` is an even number of hexadecimal digits.
pub open spec fn is_hex_text(text: Seq<char>) -> bool {
    &&& text.len() % 2 == 0
    &&& forall|i: int| 0 <= i < text.len() ==> (#[trigger] hex_value(text[i])) is Some
}

/// The bytes that hexadecimal text stands for: one for each pair of digits,
/// the first digit of a pair being the high half.
pub open spec fn hex_bytes(text: Seq<char>) -> Seq<u8> {
    Seq::new(
        text.len() / 2,
        |i: int| (hex_value(text[2 * i]).unwrap() * 16 + hex_value(text[2 * i + 1]).unwrap()) as u8,
    )
}

/// The lower-case digit of a value below 16.
pub open spec fn hex_digit(value: int) -> char {
    if value < 10 {
        (value + 48) as u8 as char
    } else {
        (value + 87) as u8 as char
    }
}

/// The lower-case hexadecimal text of bytes: two digits for each byte, the
/// high half first.
pub open spec fn hex_text(bytes: Seq<u8>) -> Seq<char> {
    Seq::new(
        2 * bytes.len(),
        |i: int|
            if i % 2 == 0 {
                hex_digit(bytes[i / 2] as int / 16)
            } else {
                hex_digit(bytes[i / 2] as int % 16)
            },
    )
}

/// Calls `hex::decode`. It accepts an even number of hexadecimal digits, in
/// either case, and turns each pair into one byte.
#[verifier::external_body]
fn hex_decode(text: &str) -> (bytes: Option<Vec<u8>>)
    ensures
        bytes is Some <==> is_hex_text(text@),
        bytes matches Some(b) ==> b@ == hex_bytes(text@),
{
    hex::decode(text).ok()
}

/// Calls `hex::encode`. It writes two lower-case digits for each byte.
#[verifier::external_body]
fn hex_encode(bytes: &[u8]) -> (text: String)
    ensures
        text@ == hex_text(bytes@),
{
    hex::encode(bytes)
}

/// What `secret_from_hex` answers for a text.
pub open spec fn secret_hex_outcome(text: Seq<char>) -> Result<Seq<u8>, ErrorKind> {
    if !is_hex_text(text) {
        Err(ErrorKind::Parse)
    } else if text.len() != 64 {
        Err(ErrorKind::Validation)
    } else {
        Ok(hex_bytes(text))
    }
}

/// Reads a 32-byte secret from 64 hexadecimal digits. Text that is not
/// hexadecimal is a parse error; hexadecimal text of another length is a
/// validation error.
pub fn secret_from_hex(text: &str) -> (r: Result<[u8; 32], Error>)
    ensures
        r matches Ok(secret) ==> (secret_hex_outcome(text@) matches Ok(b) && b == secret@),
        r matches Err(e) ==> (secret_hex_outcome(text@) matches Err(k) && k == e.kind),
        r matches Err(e) ==> e.kind == ErrorKind::Parse ==> e.message@
            == "Invalid hex encoding for secret key"@,
        r matches Err(e) ==> e.kind == ErrorKind::Validation ==> e.message@
            == "Secret key must be exactly 32 bytes"@,
{
    match hex_decode(text) {
        None => Err(Error::new(ErrorKind::Parse, "Invalid hex encoding for secret key")),
        Some(bytes) => {
            if bytes.len() != 32 {
                Err(Error::new(ErrorKind::Validation, "Secret key must be exactly 32 bytes"))
            } else {
                let mut secret: [u8; 32] = [0u8; 32];
                let mut i: usize = 0;
                while i < 32
                    invariant
                        i <= 32,
                        bytes@.len() == 32,
                        forall|j: int| 0 <= j < i ==> secret@[j] == bytes@[j],
                    decreases 32 - i,
                {
                    secret[i] = bytes[i];
                    i = i + 1;
                }
                assert(secret@ =~= bytes@);
                Ok(secret)
            }
        },
    }
}

/// The 64 lower-case hexadecimal digits of a secret.
pub fn secret_to_hex(secret: &[u8; 32]) -> (text: String)
    ensures
        text@ == hex_text(secret@),
        text@.len() == 64,
{
    hex_encode(secret.as_slice())
}

} // verus!
