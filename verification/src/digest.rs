use vstd::prelude::*;

verus! {

/// ASCII code of a hexadecimal digit (`0-9`, `A-F`, `a-f`).
pub open spec fn is_hex_digit(b: u8) -> bool {
    (0x30 <= b && b <= 0x39) || (0x41 <= b && b <= 0x46) || (0x61 <= b && b <= 0x66)
}

/// Numeric value of a hexadecimal digit.
pub open spec fn hex_digit_value(b: u8) -> u8
    recommends
        is_hex_digit(b),
{
    if 0x30 <= b && b <= 0x39 {
        (b - 0x30) as u8
    } else if 0x41 <= b && b <= 0x46 {
        (b - 0x41 + 10) as u8
    } else {
        (b - 0x61 + 10) as u8
    }
}

/// A byte sequence is a hexadecimal encoding when it has even length and
/// every byte is a hexadecimal digit.
pub open spec fn is_hex_encoding(s: Seq<u8>) -> bool {
    s.len() % 2 == 0 && (forall|i: int| 0 <= i < s.len() ==> is_hex_digit(#[trigger] s[i]))
}

/// The bytes encoded by a hexadecimal encoding: each digit pair yields one byte.
pub open spec fn hex_decoded(s: Seq<u8>) -> Seq<u8>
    recommends
        is_hex_encoding(s),
{
    Seq::new((s.len() / 2) as nat, |i: int| (hex_digit_value(s[2 * i]) * 16 + hex_digit_value(
        s[2 * i + 1],
    )) as u8)
}

/// The digest that a signing run signs over: the hexadecimal decoding of the
/// input when the input is hex-decodable, otherwise the raw input bytes.
pub open spec fn digest_of(s: Seq<u8>) -> Seq<u8> {
    if is_hex_encoding(s) {
        hex_decoded(s)
    } else {
        s
    }
}

/// Relies on hex::decode: it succeeds exactly on even-length input made of
/// hexadecimal digits (upper or lower case), decoding each digit pair to one
/// byte, and fails otherwise.
#[verifier::external_body]
fn decode_hex_bytes(data: &Vec<u8>) -> (r: Option<Vec<u8>>)
    ensures
        r is Some <==> is_hex_encoding(data@),
        r matches Some(v) ==> v@ == hex_decoded(data@),
{
    hex::decode(data.as_slice()).ok()
}

/// Derive the digest to sign from raw external input: attempt hexadecimal
/// decoding first, and fall back to the raw input bytes on decode failure.
pub fn derive_digest(data: Vec<u8>) -> (r: Vec<u8>)
    ensures
        r@ == digest_of(data@),
{
    match decode_hex_bytes(&data) {
        Option::Some(bytes) => bytes,
        Option::None => data,
    }
}

/// An owned copy of a byte sequence.
pub fn clone_bytes(data: &Vec<u8>) -> (r: Vec<u8>)
    ensures
        r@ == data@,
{
    let mut out: Vec<u8> = Vec::new();
    let mut k: usize = 0;
    while k < data.len()
        invariant
            k <= data.len(),
            out@ == data@.take(k as int),
        decreases data.len() - k,
    {
        out.push(data[k]);
        proof {
            assert(data@.take(k as int).push(data@[k as int]) =~= data@.take(k as int + 1));
        }
        k = k + 1;
    }
    proof {
        assert(data@.take(data@.len() as int) =~= data@);
    }
    out
}

} // verus!

