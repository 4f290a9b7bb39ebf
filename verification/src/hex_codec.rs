//! Lower-case hexadecimal transport encoding of byte strings.

use vstd::prelude::*;

verus! {

/// The lower-case hexadecimal digit for a value below 16.
pub open spec fn nibble_char(n: nat) -> char {
    if n < 10 {
        (n + 48) as char
    } else {
        (n + 87) as char
    }
}

/// Whether `c` is a hexadecimal digit, in either case.
pub open spec fn is_hex_digit(c: char) -> bool {
    ||| ('0' as u32) <= (c as u32) <= ('9' as u32)
    ||| ('a' as u32) <= (c as u32) <= ('f' as u32)
    ||| ('A' as u32) <= (c as u32) <= ('F' as u32)
}

/// The value of a hexadecimal digit.
pub open spec fn hex_digit_value(c: char) -> nat {
    if ('0' as u32) <= (c as u32) <= ('9' as u32) {
        (c as u32 - '0' as u32) as nat
    } else if ('a' as u32) <= (c as u32) <= ('f' as u32) {
        (c as u32 - 'a' as u32 + 10) as nat
    } else {
        (c as u32 - 'A' as u32 + 10) as nat
    }
}

/// The lower-case hexadecimal encoding of `bytes`: two digits per byte,
/// high nibble first.
pub open spec fn hex_encode(bytes: Seq<u8>) -> Seq<char> {
    Seq::new(
        2 * bytes.len(),
        |i: int|
            if i % 2 == 0 {
                nibble_char((bytes[i / 2] / 16) as nat)
            } else {
                nibble_char((bytes[i / 2] % 16) as nat)
            },
    )
}

/// Whether `s` is an even number of hexadecimal digits.
pub open spec fn hex_valid(s: Seq<char>) -> bool {
    &&& s.len() % 2 == 0
    &&& forall|i: int| 0 <= i < s.len() ==> is_hex_digit(#[trigger] s[i])
}

/// The bytes that a valid hexadecimal string stands for.
pub open spec fn hex_decode(s: Seq<char>) -> Seq<u8> {
    Seq::new(
        s.len() / 2,
        |i: int| (16 * hex_digit_value(s[2 * i]) + hex_digit_value(s[2 * i + 1])) as u8,
    )
}

#[verifier::external_type_specification]
#[verifier::external_body]
pub struct ExFromHexError(hex::FromHexError);

/// Calls `hex::encode`, which renders each byte as two lower-case
/// hexadecimal digits, high nibble first.
#[verifier::external_body]
fn hex_encode_bytes(data: &[u8]) -> (s: String)
    ensures
        s@ == hex_encode(data@),
{
    hex::encode(data)
}

/// Calls `hex::decode` on the UTF-8 bytes of `s`. It succeeds exactly when
/// the input is an even number of hexadecimal digits of either case, and
/// then yields one byte per digit pair.
#[verifier::external_body]
fn hex_decode_str(s: &str) -> (r: Result<Vec<u8>, hex::FromHexError>)
    ensures
        r is Ok <==> hex_valid(s@),
        r matches Ok(v) ==> v@ == hex_decode(s@),
{
    hex::decode(s)
}

/// The `Display` text of a `hex::FromHexError`; its wording is not stated.
#[verifier::external_body]
fn hex_error_text(e: &hex::FromHexError) -> String {
    e.to_string()
}

/// Encodes `data` as lower-case hexadecimal.
pub fn encode_hex(data: &[u8]) -> (s: String)
    ensures
        s@ == hex_encode(data@),
{
    hex_encode_bytes(data)
}

/// Decodes a hexadecimal string; on failure the error is the decoder's
/// description of what was wrong.
pub fn decode_hex(s: &str) -> (r: Result<Vec<u8>, String>)
    ensures
        r is Ok <==> hex_valid(s@),
        r matches Ok(v) ==> v@ == hex_decode(s@),
{
    match hex_decode_str(s) {
        Ok(v) => Ok(v),
        Err(e) => Err(hex_error_text(&e)),
    }
}

proof fn lemma_nibble_value(n: nat)
    requires
        n < 16,
    ensures
        is_hex_digit(nibble_char(n)),
        hex_digit_value(nibble_char(n)) == n,
{
}

/// The encoding is two lower-case digits per byte: the high nibble's digit,
/// then the low nibble's.
pub proof fn lemma_hex_encode_digits(bytes: Seq<u8>)
    ensures
        hex_encode(bytes).len() == 2 * bytes.len(),
        forall|i: int| 0 <= i < hex_encode(bytes).len() ==> {
            let c = #[trigger] hex_encode(bytes)[i];
            ||| ('0' as u32) <= (c as u32) <= ('9' as u32)
            ||| ('a' as u32) <= (c as u32) <= ('f' as u32)
        },
        forall|i: int| 0 <= i < bytes.len() ==> {
            &&& hex_digit_value(#[trigger] hex_encode(bytes)[2 * i]) == bytes[i] / 16
            &&& hex_digit_value(hex_encode(bytes)[2 * i + 1]) == bytes[i] % 16
        },
{
    let s = hex_encode(bytes);
    assert forall|i: int| 0 <= i < s.len() implies {
        let c = #[trigger] s[i];
        ||| ('0' as u32) <= (c as u32) <= ('9' as u32)
        ||| ('a' as u32) <= (c as u32) <= ('f' as u32)
    } by {
        lemma_nibble_value((bytes[i / 2] / 16) as nat);
        lemma_nibble_value((bytes[i / 2] % 16) as nat);
    }
    assert forall|i: int| 0 <= i < bytes.len() implies {
        &&& hex_digit_value(#[trigger] s[2 * i]) == bytes[i] / 16
        &&& hex_digit_value(s[2 * i + 1]) == bytes[i] % 16
    } by {
        assert((2 * i) / 2 == i);
        assert((2 * i + 1) / 2 == i);
        lemma_nibble_value((bytes[i] / 16) as nat);
        lemma_nibble_value((bytes[i] % 16) as nat);
    }
}

/// Decoding the encoding of any byte string gives the byte string back.
pub proof fn lemma_hex_roundtrip(bytes: Seq<u8>)
    ensures
        hex_valid(hex_encode(bytes)),
        hex_decode(hex_encode(bytes)) == bytes,
{
    let s = hex_encode(bytes);
    assert forall|i: int| 0 <= i < s.len() implies is_hex_digit(#[trigger] s[i]) by {
        lemma_nibble_value((bytes[i / 2] / 16) as nat);
        lemma_nibble_value((bytes[i / 2] % 16) as nat);
    }
    let d = hex_decode(s);
    assert forall|i: int| 0 <= i < bytes.len() implies #[trigger] d[i] == bytes[i] by {
        let b = bytes[i];
        lemma_nibble_value((b / 16) as nat);
        lemma_nibble_value((b % 16) as nat);
        assert((2 * i) / 2 == i);
        assert((2 * i + 1) / 2 == i);
        assert(s[2 * i] == nibble_char((b / 16) as nat));
        assert(s[2 * i + 1] == nibble_char((b % 16) as nat));
    }
    assert(d =~= bytes);
}

} // verus!
