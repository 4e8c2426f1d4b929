//! Validation of object keys and transform parameters.

use vstd::prelude::*;
use vstd::string::StrSliceExecFns;

use crate::constants::MAX_DIMENSION;
use crate::errors::MediaError;
use crate::errors::ParamField;
use crate::errors::TransformError;
use crate::errors::ValidationError;

verus! {

/// A quality value lies in the accepted range.
pub open spec fn quality_in_range(q: u8) -> bool {
    1 <= q <= 100
}

/// A requested axis lies in the accepted range.
pub open spec fn dimension_in_range(v: u32) -> bool {
    1 <= v <= MAX_DIMENSION
}

/// An optional quality is valid: absent, or in range.
pub open spec fn quality_param_ok(q: Option<u8>) -> bool {
    q matches Some(v) ==> quality_in_range(v)
}

/// An optional axis is valid: absent, or in range.
pub open spec fn dimension_param_ok(d: Option<u32>) -> bool {
    d matches Some(v) ==> dimension_in_range(v)
}

/// Range-checks each present parameter independently; absent values are
/// always valid. The first offender, in the order quality, width, height,
/// is reported with its field and value.
pub fn validate_params(
    width: Option<u32>,
    height: Option<u32>,
    quality: Option<u8>,
) -> (r: Result<(), TransformError>)
    ensures
        r is Ok <==> quality_param_ok(quality) && dimension_param_ok(width)
            && dimension_param_ok(height),
        !quality_param_ok(quality) ==> r == Err::<(), TransformError>(TransformError::InvalidParams {
            field: ParamField::Quality,
            value: quality.unwrap() as u32,
        }),
        quality_param_ok(quality) && !dimension_param_ok(width) ==> r == Err::<(), TransformError>(
            TransformError::InvalidParams { field: ParamField::Width, value: width.unwrap() },
        ),
        quality_param_ok(quality) && dimension_param_ok(width) && !dimension_param_ok(height)
            ==> r == Err::<(), TransformError>(TransformError::InvalidParams {
            field: ParamField::Height,
            value: height.unwrap(),
        }),
{
    if let Some(q) = quality {
        if q == 0 || q > 100 {
            return Err(TransformError::InvalidParams {
                field: ParamField::Quality,
                value: q as u32,
            });
        }
    }
    if let Some(w) = width {
        if w == 0 || w > MAX_DIMENSION {
            return Err(TransformError::InvalidParams { field: ParamField::Width, value: w });
        }
    }
    if let Some(h) = height {
        if h == 0 || h > MAX_DIMENSION {
            return Err(TransformError::InvalidParams { field: ParamField::Height, value: h });
        }
    }
    Ok(())
}

/// A character the decoded key may hold: ASCII letters and digits, `-`,
/// `_`, `.` and `/`.
pub open spec fn key_char_ok(c: char) -> bool {
    ||| 'a' as u32 <= c as u32 <= 'z' as u32
    ||| 'A' as u32 <= c as u32 <= 'Z' as u32
    ||| '0' as u32 <= c as u32 <= '9' as u32
    ||| c == '-'
    ||| c == '_'
    ||| c == '.'
    ||| c == '/'
}

/// Two given characters stand somewhere side by side.
pub open spec fn has_adjacent(s: Seq<char>, a: char, b: char) -> bool {
    exists|i: int| #![trigger s[i]] 0 <= i && i + 1 < s.len() && s[i] == a && s[i + 1] == b
}

/// The given character occurs.
pub open spec fn has_char(s: Seq<char>, c: char) -> bool {
    exists|i: int| 0 <= i < s.len() && s[i] == c
}

/// The decoded key attempts path traversal: it holds `..`, starts with
/// `/`, holds `//`, or holds a backslash.
pub open spec fn has_traversal(s: Seq<char>) -> bool {
    ||| has_adjacent(s, '.', '.')
    ||| s.len() > 0 && s[0] == '/'
    ||| has_adjacent(s, '/', '/')
    ||| has_char(s, '\\')
}

/// Every character of the decoded key is accepted.
pub open spec fn all_key_chars_ok(s: Seq<char>) -> bool {
    forall|i: int| 0 <= i < s.len() ==> key_char_ok(#[trigger] s[i])
}

/// A decoded key is acceptable: no traversal, only accepted characters.
pub open spec fn decoded_key_ok(s: Seq<char>) -> bool {
    !has_traversal(s) && all_key_chars_ok(s)
}

/// What `urlencoding::decode` returns on the string: the percent-decoded
/// form, or nothing when the decoded bytes are not valid UTF-8.
pub uninterp spec fn percent_decoded(s: Seq<char>) -> Option<Seq<char>>;

/// Relies on `urlencoding::decode`: percent-decodes `%XX` pairs and fails
/// only when the decoded bytes are not UTF-8. The result depends on the
/// input characters alone, and an input without `%` comes back unchanged.
#[verifier::external_body]
fn percent_decode(s: &str) -> (r: Option<String>)
    ensures
        r is Some <==> percent_decoded(s@) is Some,
        r matches Some(d) ==> percent_decoded(s@) == Some(d@),
        r is None ==> exists|i: int| 0 <= i < s@.len() && s@[i] == '%',
        r matches Some(d) ==> ((forall|i: int| 0 <= i < s@.len() ==> s@[i] != '%') ==> d@
            == s@),
{
    match urlencoding::decode(s) {
        Ok(d) => Some(d.into_owned()),
        Err(_) => None,
    }
}

/// Looks for two given characters side by side.
fn find_adjacent(s: &str, a: char, b: char) -> (r: bool)
    ensures
        r == has_adjacent(s@, a, b),
{
    let n = s.unicode_len();
    if n < 2 {
        return false;
    }
    let mut i: usize = 0;
    while i + 1 < n
        invariant
            n == s@.len(),
            2 <= n,
            i < n,
            forall|j: int| #![trigger s@[j]] 0 <= j && j + 1 < i + 1 ==> !(s@[j] == a && s@[j
                + 1] == b),
        decreases n - i,
    {
        if s.get_char(i) == a && s.get_char(i + 1) == b {
            assert(s@[i as int] == a && s@[i as int + 1] == b);
            return true;
        }
        i = i + 1;
    }
    false
}

/// Looks for the given character.
fn find_char(s: &str, c: char) -> (r: bool)
    ensures
        r == has_char(s@, c),
{
    let n = s.unicode_len();
    let mut i: usize = 0;
    while i < n
        invariant
            n == s@.len(),
            i <= n,
            forall|j: int| 0 <= j < i ==> s@[j] != c,
        decreases n - i,
    {
        if s.get_char(i) == c {
            return true;
        }
        i = i + 1;
    }
    false
}

/// Checks that every character is accepted in a key.
fn check_key_chars(s: &str) -> (r: bool)
    ensures
        r == all_key_chars_ok(s@),
{
    let n = s.unicode_len();
    let mut i: usize = 0;
    while i < n
        invariant
            n == s@.len(),
            i <= n,
            forall|j: int| 0 <= j < i ==> key_char_ok(#[trigger] s@[j]),
        decreases n - i,
    {
        let c = s.get_char(i);
        let u = c as u32;
        let ok = (97 <= u && u <= 122) || (65 <= u && u <= 90) || (48 <= u && u <= 57) || c == '-'
            || c == '_' || c == '.' || c == '/';
        if !ok {
            assert(!key_char_ok(s@[i as int]));
            return false;
        }
        i = i + 1;
    }
    true
}

/// Validates an object key: it must be non-empty, at most 1024 characters,
/// well-formed percent-encoding, and — after decoding — free of path
/// traversal and made only of accepted characters. Decoding happens once
/// and all checks run on the decoded form, so percent-encoded traversal
/// attempts are caught as well.
pub fn validate_key(key: &str) -> (r: Result<(), MediaError>)
    ensures
        key@.len() == 0 ==> r == Err::<(), MediaError>(MediaError::Validation(ValidationError::EmptyKey)),
        key@.len() > 1024 ==> r == Err::<(), MediaError>(MediaError::Validation(
            ValidationError::KeyTooLong,
        )),
        0 < key@.len() <= 1024 && (forall|i: int| 0 <= i < key@.len() ==> key@[i] != '%') ==> (
        r is Ok <==> decoded_key_ok(key@)),
        0 < key@.len() <= 1024 ==> match percent_decoded(key@) {
            None => r == Err::<(), MediaError>(MediaError::Validation(ValidationError::InvalidEncoding)),
            Some(d) => {
                if has_traversal(d) {
                    r == Err::<(), MediaError>(MediaError::Validation(ValidationError::PathTraversal))
                } else if !all_key_chars_ok(d) {
                    r == Err::<(), MediaError>(MediaError::Validation(ValidationError::InvalidCharacter))
                } else {
                    r == Ok::<(), MediaError>(())
                }
            },
        },
{
    if key.is_empty() {
        return Err(MediaError::Validation(ValidationError::EmptyKey));
    }
    if key.unicode_len() > 1024 {
        return Err(MediaError::Validation(ValidationError::KeyTooLong));
    }
    let decoded = match percent_decode(key) {
        Some(d) => d,
        None => {
            return Err(MediaError::Validation(ValidationError::InvalidEncoding));
        },
    };
    let leading_slash = decoded.as_str().unicode_len() > 0 && decoded.as_str().get_char(0) == '/';
    if find_adjacent(decoded.as_str(), '.', '.') || leading_slash || find_adjacent(
        decoded.as_str(),
        '/',
        '/',
    ) || find_char(decoded.as_str(), '\\') {
        return Err(MediaError::Validation(ValidationError::PathTraversal));
    }
    if !check_key_chars(decoded.as_str()) {
        return Err(MediaError::Validation(ValidationError::InvalidCharacter));
    }
    Ok(())
}

} // verus!
