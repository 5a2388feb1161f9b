//! Identifier normalizer: turns a user-supplied slug into the key that the
//! store and the cache use.
use vstd::prelude::*;
use vstd::string::*;
use vstd::utf8::is_ascii_chars;

verus! {

/// What `idna::punycode::encode_str` gives for a string that holds a
/// character outside ASCII (`None` where the encoder overflows).
pub uninterp spec fn punycode_of(s: Seq<char>) -> Option<Seq<char>>;

/// Inputs of at most this many characters always encode.
pub const PUNYCODE_SAFE_LEN: usize = 1000;

/// Punycode of a string made of ASCII characters only: the characters as they
/// are, followed by the delimiter when there is at least one.
pub open spec fn punycode_basic(s: Seq<char>) -> Seq<char> {
    if s.len() == 0 {
        s
    } else {
        s.push('-')
    }
}

/// What the punycode encoder returns for `s`.
pub open spec fn punycode_spec(s: Seq<char>) -> Option<Seq<char>> {
    if is_ascii_chars(s) {
        if s.len() <= u32::MAX {
            Some(punycode_basic(s))
        } else {
            None
        }
    } else {
        punycode_of(s)
    }
}

/// Relies on `idna::punycode::encode_str`: ASCII characters are copied as they
/// are and followed by a `-` when there is one, the remaining characters are
/// encoded with the digits `a`-`z` and `0`-`9`, and `None` comes only on
/// overflow (more than `u32::MAX` bytes, or arithmetic overflow), which an
/// input of at most 1000 characters cannot cause (the bound the crate's own
/// callers rely on, after RFC 3492 section 6.4).
#[verifier::external_body]
fn punycode_encode(s: &str) -> (r: Option<String>)
    ensures
        is_ascii_chars(s@) ==> match r {
            Some(v) => s@.len() <= u32::MAX && v@ == punycode_basic(s@),
            None => s@.len() > u32::MAX,
        },
        !is_ascii_chars(s@) ==> match r {
            Some(v) => punycode_of(s@) == Some(v@),
            None => punycode_of(s@) == None::<Seq<char>>,
        },
        r matches Some(v) ==> is_ascii_chars(v@),
        s@.len() <= PUNYCODE_SAFE_LEN ==> r is Some,
{
    idna::punycode::encode_str(s)
}

/// `c` with an ASCII capital letter mapped to its small letter.
pub open spec fn ascii_lower_char(c: char) -> char {
    if 'A' <= c && c <= 'Z' {
        ((c as u32) + 32) as char
    } else {
        c
    }
}

/// `s` with every ASCII capital letter mapped to its small letter.
pub open spec fn ascii_lower(s: Seq<char>) -> Seq<char> {
    s.map_values(|c: char| ascii_lower_char(c))
}

/// Relies on `str::to_ascii_lowercase`: 'A' to 'Z' become 'a' to 'z', every
/// other character is kept.
#[verifier::external_body]
fn to_ascii_lowercase(s: &str) -> (r: String)
    ensures
        r@ == ascii_lower(s@),
{
    s.to_ascii_lowercase()
}

/// `s` without one trailing `-`, where it ends with one.
pub open spec fn strip_trailing_dash(s: Seq<char>) -> Seq<char> {
    if s.len() > 0 && s.last() == '-' {
        s.drop_last()
    } else {
        s
    }
}

/// The slug key of an encoder output: lower-cased, one trailing `-` removed.
pub open spec fn finish_normalize(encoded: Seq<char>) -> Seq<char> {
    strip_trailing_dash(ascii_lower(encoded))
}

/// The slug key of a raw slug, or `None` where the encoder fails.
pub open spec fn normalize_spec(raw: Seq<char>) -> Option<Seq<char>> {
    match punycode_spec(raw) {
        Some(e) => Some(finish_normalize(e)),
        None => None,
    }
}

/// Lower-cases the output of the punycode encoder and removes the trailing
/// delimiter that it adds.
pub fn normalize_encoded(encoded: &str) -> (r: String)
    ensures
        r@ == finish_normalize(encoded@),
{
    let lowered = to_ascii_lowercase(encoded);
    let s = lowered.as_str();
    let n = s.unicode_len();
    if n > 0 && s.get_char(n - 1) == '-' {
        let stripped = s.substring_char(0, n - 1);
        let r = stripped.to_owned();
        assert(r@ =~= finish_normalize(encoded@));
        r
    } else {
        lowered
    }
}

/// Normalizes a slug: punycode encoding, lower case, one trailing `-`
/// removed. `None` where the encoder fails, which a slug of at most 1000
/// characters never makes it do. Every key is ASCII, and a key normalizes to
/// itself (where it fits the encoder's byte limit).
pub fn normalize(raw: &str) -> (r: Option<String>)
    ensures
        match r {
            Some(v) => normalize_spec(raw@) == Some(v@),
            None => normalize_spec(raw@) is None,
        },
        raw@.len() <= PUNYCODE_SAFE_LEN ==> r is Some,
        r matches Some(v) ==> is_ascii_chars(v@),
        r matches Some(v) ==> (v@.len() <= u32::MAX ==> normalize_spec(v@) == Some(v@)),
{
    match punycode_encode(raw) {
        Some(encoded) => {
            let r = normalize_encoded(encoded.as_str());
            proof {
                lemma_lower_keeps_ascii(encoded@);
                if r@.len() <= u32::MAX {
                    lemma_normalize_idempotent(raw@, r@);
                }
            }
            Some(r)
        },
        None => None,
    }
}

proof fn lemma_lower_keeps_ascii(s: Seq<char>)
    requires
        is_ascii_chars(s),
    ensures
        is_ascii_chars(ascii_lower(s)),
        is_ascii_chars(finish_normalize(s)),
{
    assert forall|i| 0 <= i < ascii_lower(s).len() implies '\0' <= #[trigger] ascii_lower(s)[i]
        <= '\u{7f}' by {
        let c = s[i];
        assert('\0' <= c <= '\u{7f}');
    }
}

proof fn lemma_lower_char_idempotent(c: char)
    ensures
        ascii_lower_char(ascii_lower_char(c)) == ascii_lower_char(c),
        ascii_lower_char('-') == '-',
{
}

proof fn lemma_lower_idempotent(s: Seq<char>)
    ensures
        ascii_lower(ascii_lower(s)) == ascii_lower(s),
{
    assert forall|i| 0 <= i < s.len() implies #[trigger] ascii_lower(ascii_lower(s))[i]
        == ascii_lower(s)[i] by {
        lemma_lower_char_idempotent(s[i]);
    }
    assert(ascii_lower(ascii_lower(s)) =~= ascii_lower(s));
}

proof fn lemma_lower_push(s: Seq<char>, c: char)
    ensures
        ascii_lower(s.push(c)) == ascii_lower(s).push(ascii_lower_char(c)),
{
    assert(ascii_lower(s.push(c)) =~= ascii_lower(s).push(ascii_lower_char(c)));
}

proof fn lemma_lower_drop_last(s: Seq<char>)
    requires
        s.len() > 0,
    ensures
        ascii_lower(s.drop_last()) == ascii_lower(s).drop_last(),
{
    assert(ascii_lower(s.drop_last()) =~= ascii_lower(s).drop_last());
}

/// A key of ASCII characters that fits the encoder is its own key.
proof fn lemma_ascii_key_is_fixed(n: Seq<char>)
    requires
        is_ascii_chars(n),
        n.len() <= u32::MAX,
        ascii_lower(n) == n,
    ensures
        normalize_spec(n) == Some(n),
{
    if n.len() > 0 {
        lemma_lower_push(n, '-');
        lemma_lower_char_idempotent('-');
        assert(ascii_lower(n.push('-')).drop_last() =~= ascii_lower(n));
    }
}

/// Normalizing is idempotent: a key that `normalize` produced (every such key
/// is ASCII) normalizes to itself, wherever it fits the encoder's length
/// limit.
pub proof fn lemma_normalize_idempotent(raw: Seq<char>, key: Seq<char>)
    requires
        normalize_spec(raw) == Some(key),
        is_ascii_chars(key),
        key.len() <= u32::MAX,
    ensures
        normalize_spec(key) == Some(key),
{
    let e = punycode_spec(raw)->0;
    lemma_lower_idempotent(e);
    if ascii_lower(e).len() > 0 && ascii_lower(e).last() == '-' {
        lemma_lower_drop_last(ascii_lower(e));
    }
    lemma_ascii_key_is_fixed(key);
}

} // verus!
