//! Output formats and transform parameters.

use vstd::prelude::*;

use crate::constants::DEFAULT_QUALITY;

verus! {

/// The closed set of output codecs.
#[derive(Debug, Clone, Copy, PartialEq, Eq, Structural)]
pub enum OutputFormat {
    Jpeg,
    Png,
    WebP,
    Avif,
}

/// A character matches its lower-case ASCII form: either it is that
/// character, or it is the corresponding upper-case letter.
pub open spec fn char_matches_lower(c: char, lower: char) -> bool {
    c == lower || c as u32 + 32 == lower as u32
}

/// A string matches a lower-case ASCII token, ignoring ASCII case.
pub open spec fn token_matches(s: Seq<char>, token: Seq<char>) -> bool {
    s.len() == token.len() && forall|i: int|
        0 <= i < token.len() ==> char_matches_lower(#[trigger] s[i], token[i])
}

/// The format named by a token, read case-insensitively; `None` for an
/// unknown token.
pub open spec fn spec_parse_format(s: Seq<char>) -> Option<OutputFormat> {
    if token_matches(s, "jpeg"@) || token_matches(s, "jpg"@) {
        Some(OutputFormat::Jpeg)
    } else if token_matches(s, "png"@) {
        Some(OutputFormat::Png)
    } else if token_matches(s, "webp"@) {
        Some(OutputFormat::WebP)
    } else if token_matches(s, "avif"@) {
        Some(OutputFormat::Avif)
    } else {
        None
    }
}

/// Compares a string with a lower-case ASCII token, ignoring ASCII case.
fn eq_ignore_ascii_case_token(s: &str, token: &str) -> (r: bool)
    ensures
        r == token_matches(s@, token@),
{
    let n = s.unicode_len();
    let m = token.unicode_len();
    if n != m {
        return false;
    }
    for i in 0..n
        invariant
            n == s@.len(),
            n == token@.len(),
            forall|j: int| 0 <= j < i ==> char_matches_lower(#[trigger] s@[j], token@[j]),
    {
        let c = s.get_char(i);
        let t = token.get_char(i);
        if !(c == t || c as u32 + 32 == t as u32) {
            assert(!char_matches_lower(s@[i as int], token@[i as int]));
            return false;
        }
    }
    true
}

impl OutputFormat {
    /// Parses a short format token (`jpg`/`jpeg`, `png`, `webp`, `avif`),
    /// ignoring ASCII case; an unknown token yields `None`, never a default.
    pub fn parse_token(s: &str) -> (r: Option<OutputFormat>)
        ensures
            r == spec_parse_format(s@),
    {
        if eq_ignore_ascii_case_token(s, "jpeg") || eq_ignore_ascii_case_token(s, "jpg") {
            Some(OutputFormat::Jpeg)
        } else if eq_ignore_ascii_case_token(s, "png") {
            Some(OutputFormat::Png)
        } else if eq_ignore_ascii_case_token(s, "webp") {
            Some(OutputFormat::WebP)
        } else if eq_ignore_ascii_case_token(s, "avif") {
            Some(OutputFormat::Avif)
        } else {
            None
        }
    }

    /// The canonical MIME content type of the format.
    pub open spec fn spec_content_type(self) -> Seq<char> {
        match self {
            OutputFormat::Jpeg => "image/jpeg"@,
            OutputFormat::Png => "image/png"@,
            OutputFormat::WebP => "image/webp"@,
            OutputFormat::Avif => "image/avif"@,
        }
    }

    /// The canonical MIME content type of the format.
    pub fn content_type(&self) -> (r: &'static str)
        ensures
            r@ == self.spec_content_type(),
    {
        match self {
            OutputFormat::Jpeg => "image/jpeg",
            OutputFormat::Png => "image/png",
            OutputFormat::WebP => "image/webp",
            OutputFormat::Avif => "image/avif",
        }
    }
}

impl std::str::FromStr for OutputFormat {
    type Err = ();

    fn from_str(s: &str) -> Result<OutputFormat, ()> {
        match OutputFormat::parse_token(s) {
            Some(f) => Ok(f),
            None => Err(()),
        }
    }
}

/// Parameters of one transformation request, immutable once constructed.
#[derive(Debug, Clone, Copy, PartialEq, Eq)]
pub struct TransformParams {
    pub width: Option<u32>,
    pub height: Option<u32>,
    pub format: OutputFormat,
    pub quality: u8,
}

impl TransformParams {
    /// Builds parameters, substituting the default quality when none is
    /// given.
    pub fn new(
        width: Option<u32>,
        height: Option<u32>,
        format: OutputFormat,
        quality: Option<u8>,
    ) -> (r: TransformParams)
        ensures
            r.width == width,
            r.height == height,
            r.format == format,
            r.quality == (match quality {
                Some(q) => q,
                None => DEFAULT_QUALITY,
            }),
    {
        TransformParams {
            width,
            height,
            format,
            quality: match quality {
                Some(q) => q,
                None => DEFAULT_QUALITY,
            },
        }
    }
}

} // verus!
