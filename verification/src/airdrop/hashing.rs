use vstd::prelude::*;
use sha3::Digest;

verus! {

/// The Keccak-256 digest of `data`.
pub uninterp spec fn keccak256(data: Seq<u8>) -> Seq<u8>;

/// Hashes `data` with `sha3::Keccak256::digest` (sha3 0.9). The contract only
/// names the result: it is the Keccak-256 digest of exactly these bytes, 32
/// bytes long by its type; nothing more about the hash function is stated.
#[verifier::external_body]
pub(crate) fn keccak256_digest(data: &[u8]) -> (res: [u8; 32])
    ensures
        res@ == keccak256(data@),
{
    sha3::Keccak256::digest(data).into()
}

/// The value of an ASCII hexadecimal digit, upper or lower case.
pub open spec fn hex_digit(c: u8) -> Option<int> {
    if 48 <= c <= 57 {
        Some(c - 48)
    } else if 97 <= c <= 102 {
        Some(c - 97 + 10)
    } else if 65 <= c <= 70 {
        Some(c - 65 + 10)
    } else {
        None
    }
}

/// `data` is `2 * n` hexadecimal digits.
pub open spec fn is_hex_of_len(data: Seq<u8>, n: int) -> bool {
    &&& data.len() == 2 * n
    &&& forall|i: int| 0 <= i < data.len() ==> (#[trigger] hex_digit(data[i])) is Some
}

/// The bytes that a string of hexadecimal digits encodes, two digits a byte,
/// the first digit the high half.
pub open spec fn hex_decode(data: Seq<u8>) -> Seq<u8> {
    Seq::new(
        (data.len() / 2) as nat,
        |i: int| (hex_digit(data[2 * i])->0 * 16 + hex_digit(data[2 * i + 1])->0) as u8,
    )
}

/// Decodes 64 hexadecimal digits into 32 bytes with `hex::decode_to_slice`
/// (hex 0.4.3). Its source fails on an odd length, on a length other than
/// twice the 32 output bytes, and on any byte that is not a digit `0-9`,
/// `a-f` or `A-F`; otherwise each byte is the high digit times 16 plus the
/// low digit. Any failure is reported as `None`.
#[verifier::external_body]
pub(crate) fn decode_hex32(data: &[u8]) -> (res: Option<[u8; 32]>)
    ensures
        res is Some <==> is_hex_of_len(data@, 32),
        res matches Some(b) ==> b@ == hex_decode(data@),
{
    let mut buf = [0u8; 32];
    match hex::decode_to_slice(data, &mut buf) {
        Ok(()) => Some(buf),
        Err(_) => None,
    }
}

/// The ASCII decimal digits of `n`, as `to_string` writes them.
pub open spec fn decimal_digits(n: nat) -> Seq<u8>
    decreases n,
{
    if n < 10 {
        seq![(48 + n) as u8]
    } else {
        decimal_digits(n / 10).push((48 + n % 10) as u8)
    }
}

/// Appends the decimal digits of `n` to `out`.
pub fn push_decimal_digits(n: u128, out: &mut Vec<u8>)
    ensures
        final(out)@ == old(out)@ + decimal_digits(n as nat),
    decreases n,
{
    if n >= 10 {
        push_decimal_digits(n / 10, out);
    }
    let d = (n % 10) as u8;
    out.push(48 + d);
    assert(out@ =~= old(out)@ + decimal_digits(n as nat));
}

} // verus!
