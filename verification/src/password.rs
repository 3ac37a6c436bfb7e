//! Password hashing: SHA3-256 of the UTF-8 bytes, written as lower-case hex.
use vstd::prelude::*;
use crate::text::push_char;

verus! {

/// The SHA3-256 digest of `data`.
pub uninterp spec fn sha3_256_digest(data: Seq<u8>) -> Seq<u8>;

/// `sha3::Sha3_256::digest`: the 32-byte SHA3-256 digest of `data`. The
/// contract names the result (`sha3_256_digest`) and states its length,
/// which the crate fixes by the `U32` output size of `Sha3_256`.
#[verifier::external_body]
fn sha3_256(data: &[u8]) -> (r: Vec<u8>)
    ensures
        r@ == sha3_256_digest(data@),
        r@.len() == 32,
{
    <sha3::Sha3_256 as sha3::Digest>::digest(data).to_vec()
}

/// The lower-case hex digit of `n < 16`.
pub open spec fn hex_digit(n: int) -> char {
    if n < 10 {
        (n + 48) as char
    } else {
        (n + 87) as char
    }
}

/// `bytes` written as lower-case hex, two digits per byte, high nibble first
/// (what `format!("{:x}", digest)` prints).
pub open spec fn hex_lower(bytes: Seq<u8>) -> Seq<char> {
    Seq::new(
        2 * bytes.len(),
        |i: int|
            if i % 2 == 0 {
                hex_digit((bytes[i / 2] / 16) as int)
            } else {
                hex_digit((bytes[i / 2] % 16) as int)
            },
    )
}

/// The stored form of a password.
pub open spec fn password_hash(password: Seq<char>) -> Seq<char> {
    hex_lower(sha3_256_digest(vstd::utf8::encode_utf8(password)))
}

fn hex_digit_exec(n: u8) -> (c: char)
    requires
        n < 16,
    ensures
        c == hex_digit(n as int),
{
    if n < 10 {
        (n + 48) as char
    } else {
        (n + 87) as char
    }
}

/// `bytes` in lower-case hex.
pub fn to_hex_lower(bytes: &[u8]) -> (r: String)
    ensures
        r@ == hex_lower(bytes@),
{
    let mut r = String::new();
    let mut i: usize = 0;
    while i < bytes.len()
        invariant
            i <= bytes@.len(),
            r@ == hex_lower(bytes@.subrange(0, i as int)),
        decreases bytes@.len() - i,
    {
        let b = bytes[i];
        let ghost before = r@;
        push_char(&mut r, hex_digit_exec(b / 16));
        push_char(&mut r, hex_digit_exec(b % 16));
        i = i + 1;
        assert(r@ =~= hex_lower(bytes@.subrange(0, i as int))) by {
            let h = hex_lower(bytes@.subrange(0, i as int));
            assert forall|k: int| 0 <= k < h.len() implies r@[k] == h[k] by {
                if k < 2 * (i - 1) {
                    assert(before[k] == hex_lower(bytes@.subrange(0, i - 1))[k]);
                }
            }
        }
    }
    assert(bytes@.subrange(0, bytes@.len() as int) =~= bytes@);
    r
}

/// The stored form of `password`: the hex SHA3-256 digest of its UTF-8
/// bytes, 64 characters.
pub fn hash_password(password: &str) -> (r: String)
    ensures
        r@ == password_hash(password@),
        r@.len() == 64,
{
    let digest = sha3_256(password.as_bytes());
    to_hex_lower(digest.as_slice())
}

/// Whether `password` is the one whose stored form is `stored`.
pub fn password_matches(stored: &String, password: &str) -> (b: bool)
    ensures
        b == (stored@ == password_hash(password@)),
{
    let hashed = hash_password(password);
    hashed == *stored
}

} // verus!
