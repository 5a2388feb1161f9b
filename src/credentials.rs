//! Credential codec: one-way hashing of edit passwords, generated
//! identifiers, and the clock that stamps records.
use vstd::prelude::*;

verus! {

/// The hash that dorsal's `utility::hash` gives for a plaintext.
pub uninterp spec fn hash_of(plaintext: Seq<char>) -> Seq<char>;

/// Relies on `dorsal::utility::hash`: a SHA-256 digest of the UTF-8 bytes,
/// rendered as lowercase hex, which depends on the plaintext alone.
#[verifier::external_body]
fn hash_password(plaintext: &str) -> (r: String)
    ensures
        r@ == hash_of(plaintext@),
{
    dorsal::utility::hash(plaintext.to_string())
}

/// Hashes a plaintext password for storage.
pub fn hash(plaintext: &str) -> (r: String)
    ensures
        r@ == hash_of(plaintext@),
{
    hash_password(plaintext)
}

/// Whether `plaintext` is the password whose hash is `stored`: the two
/// hashes are compared, never the plaintexts.
pub fn verify_password(plaintext: &str, stored: &String) -> (r: bool)
    ensures
        r == (hash_of(plaintext@) == stored@),
{
    let h = hash_password(plaintext);
    h == *stored
}

/// A lowercase hexadecimal digit.
pub open spec fn is_hex_digit(c: char) -> bool {
    ('0' <= c && c <= '9') || ('a' <= c && c <= 'f')
}

/// The shape of a random identifier: 64 lowercase hexadecimal digits.
pub open spec fn is_random_id(s: Seq<char>) -> bool {
    s.len() == 64 && forall|i: int| 0 <= i < s.len() ==> is_hex_digit(#[trigger] s[i])
}

/// The shape of a generated slug or password: 10 lowercase hexadecimal
/// digits, so alphanumeric.
pub open spec fn generated_secret(s: Seq<char>) -> bool {
    s.len() == GENERATED_LEN && forall|i: int| 0 <= i < s.len() ==> is_hex_digit(#[trigger] s[i])
}

/// Relies on `dorsal::utility::random_id`: the SHA-256 hex digest of a
/// random UUID, so 64 lowercase hexadecimal digits.
#[verifier::external_body]
pub(crate) fn random_id() -> (r: String)
    ensures
        is_random_id(r@),
{
    dorsal::utility::random_id()
}

/// How many characters of a random identifier make a generated slug or
/// password.
pub const GENERATED_LEN: usize = 10;

/// The first ten characters of `s`, or all of them where it is shorter.
pub open spec fn first_ten(s: Seq<char>) -> Seq<char> {
    if s.len() <= GENERATED_LEN {
        s
    } else {
        s.take(GENERATED_LEN as int)
    }
}

/// Cuts a random identifier down to a generated slug or password.
pub fn shorten_generated(s: &str) -> (r: String)
    ensures
        r@ == first_ten(s@),
{
    let n = s.unicode_len();
    if n <= GENERATED_LEN {
        s.to_owned()
    } else {
        let part = s.substring_char(0, GENERATED_LEN);
        let r = part.to_owned();
        assert(r@ =~= first_ten(s@));
        r
    }
}

} // verus!
