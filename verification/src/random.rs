//! Random values: invitation codes and board file names.
use vstd::prelude::*;
use crate::text::push_char;

verus! {

/// `rand::Rng::gen_range(0..n)` on the thread-local generator: a random
/// index below `n`, which must be positive (the range may not be empty).
#[verifier::external_body]
fn random_below(n: usize) -> (r: usize)
    requires
        n > 0,
    ensures
        r < n,
{
    <rand::rngs::ThreadRng as rand::Rng>::gen_range(&mut rand::thread_rng(), 0..n)
}

/// A lower-case hexadecimal digit.
pub open spec fn is_lower_hex(c: char) -> bool {
    ('0' <= c && c <= '9') || ('a' <= c && c <= 'f')
}

/// A version-4 UUID in its hyphenated lower-case form: 32 hex digits in
/// groups of 8, 4, 4, 4 and 12 separated by '-', the version digit '4',
/// and the variant digit (first of the fourth group) one of 8, 9, a, b.
pub open spec fn is_hyphenated_v4(s: Seq<char>) -> bool {
    &&& s.len() == 36
    &&& forall|i: int| 0 <= i < 36 ==> (if i == 8 || i == 13 || i == 18 || i == 23 {
        s[i] == '-'
    } else {
        is_lower_hex(#[trigger] s[i])
    })
    &&& s[14] == '4'
    &&& (s[19] == '8' || s[19] == '9' || s[19] == 'a' || s[19] == 'b')
}

/// `uuid::Uuid::new_v4()` written out with `to_string`: a random UUID.
/// The contract states the form `Display` writes it in (hyphenated, lower
/// case), the version digit and the variant digit (`new_v4` masks the
/// random bits to version 4, variant RFC 4122); the other digits are random.
#[verifier::external_body]
pub(crate) fn random_uuid() -> (r: String)
    ensures
        is_hyphenated_v4(r@),
{
    uuid::Uuid::new_v4().to_string()
}

/// Number of characters an invitation code may be drawn from.
pub const CODE_CHARSET_LEN: usize = 62;

/// Character `i` of the code alphabet "A..Za..z0..9".
pub open spec fn code_char(i: int) -> char {
    if i < 26 {
        (65 + i) as char
    } else if i < 52 {
        (97 + (i - 26)) as char
    } else {
        (48 + (i - 52)) as char
    }
}

/// Whether `c` is an ASCII letter or digit, the characters of codes.
pub open spec fn is_code_char(c: char) -> bool {
    ('A' <= c && c <= 'Z') || ('a' <= c && c <= 'z') || ('0' <= c && c <= '9')
}

fn code_char_exec(i: usize) -> (c: char)
    requires
        i < CODE_CHARSET_LEN,
    ensures
        c == code_char(i as int),
        is_code_char(c),
{
    let i = i as u8;
    if i < 26 {
        (65 + i) as char
    } else if i < 52 {
        (97 + (i - 26)) as char
    } else {
        (48 + (i - 52)) as char
    }
}

/// A random code of `length` letters and digits, each drawn uniformly from
/// "A..Za..z0..9".
pub fn generate_random_code(length: usize) -> (code: String)
    ensures
        code@.len() == length,
        forall|i: int| 0 <= i < length ==> is_code_char(#[trigger] code@[i]),
{
    let mut code = String::new();
    let mut k: usize = 0;
    while k < length
        invariant
            k <= length,
            code@.len() == k,
            forall|i: int| 0 <= i < k ==> is_code_char(#[trigger] code@[i]),
        decreases length - k,
    {
        let idx = random_below(CODE_CHARSET_LEN);
        push_char(&mut code, code_char_exec(idx));
        k = k + 1;
    }
    code
}

} // verus!
