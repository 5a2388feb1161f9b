//! Validator: length and character-set rules for slugs and contents.
use vstd::prelude::*;
use vstd::utf8::encode_utf8;
use crate::model::PasteError;

verus! {

/// Characters a slug may be made of; `^` and `$` anchor at each line.
pub const SLUG_PATTERN: &'static str = "^[\\w\\_\\-\\.\\!\\p{Extended_Pictographic}]+$";

pub const SLUG_MIN_BYTES: usize = 3;

pub const SLUG_MAX_BYTES: usize = 250;

pub const CONTENT_MIN_BYTES: usize = 1;

pub const CONTENT_MAX_BYTES: usize = 200000;

/// Whether the regex crate accepts `pattern` in multi-line mode.
pub uninterp spec fn multiline_pattern_builds(pattern: Seq<char>) -> bool;

/// Whether the multi-line regex built from `pattern` finds a match in `text`.
pub uninterp spec fn multiline_pattern_matches(pattern: Seq<char>, text: Seq<char>) -> bool;

/// Relies on `regex::RegexBuilder` with `multi_line(true)`, and on
/// `Regex::is_match`: `None` where the pattern does not build, else whether it
/// matches somewhere in `text`. Both depend on the two strings alone.
#[verifier::external_body]
fn multiline_match(pattern: &str, text: &str) -> (r: Option<bool>)
    ensures
        r is Some <==> multiline_pattern_builds(pattern@),
        r matches Some(b) ==> b == multiline_pattern_matches(pattern@, text@),
{
    match regex::RegexBuilder::new(pattern).multi_line(true).build() {
        Ok(re) => Some(re.is_match(text)),
        Err(_) => None,
    }
}

/// Length in bytes of the UTF-8 encoding, as `str::len` gives it.
pub open spec fn byte_len(s: Seq<char>) -> usize {
    encode_utf8(s).len() as usize
}

/// Whether the slug pattern, built as a multi-line regex, accepts `slug`.
pub open spec fn slug_chars_allowed(slug: Seq<char>) -> bool {
    multiline_pattern_builds(SLUG_PATTERN@) && multiline_pattern_matches(SLUG_PATTERN@, slug)
}

/// Length rule of a slug.
pub open spec fn slug_length_ok(slug: Seq<char>) -> bool {
    SLUG_MIN_BYTES <= byte_len(slug) <= SLUG_MAX_BYTES
}

/// A slug that may be stored.
pub open spec fn slug_ok(slug: Seq<char>) -> bool {
    slug_length_ok(slug) && slug_chars_allowed(slug)
}

/// Content that may be stored.
pub open spec fn content_ok(content: Seq<char>) -> bool {
    CONTENT_MIN_BYTES <= byte_len(content) <= CONTENT_MAX_BYTES
}

/// Decides on a slug given what the slug pattern gave for it (`None` where
/// the pattern did not build).
pub fn check_slug_with(slug: &str, pattern_result: Option<bool>) -> (r: Result<(), PasteError>)
    ensures
        r is Ok <==> slug_length_ok(slug@) && pattern_result == Some(true),
        r is Err ==> r == Err::<(), PasteError>(PasteError::ValueError),
{
    let n = slug.len();
    if n > SLUG_MAX_BYTES || n < SLUG_MIN_BYTES {
        return Err(PasteError::ValueError);
    }
    match pattern_result {
        Some(true) => Ok(()),
        _ => Err(PasteError::ValueError),
    }
}

/// Checks the length and the characters of a slug.
pub fn validate_slug(slug: &str) -> (r: Result<(), PasteError>)
    ensures
        r is Ok <==> slug_ok(slug@),
        r is Err ==> r == Err::<(), PasteError>(PasteError::ValueError),
{
    let found = multiline_match(SLUG_PATTERN, slug);
    check_slug_with(slug, found)
}

/// Checks the length of a paste's content.
pub fn validate_content(content: &str) -> (r: Result<(), PasteError>)
    ensures
        r is Ok <==> content_ok(content@),
        r is Err ==> r == Err::<(), PasteError>(PasteError::ValueError),
{
    let n = content.len();
    if n > CONTENT_MAX_BYTES || n < CONTENT_MIN_BYTES {
        Err(PasteError::ValueError)
    } else {
        Ok(())
    }
}

} // verus!
