//! Text helpers over std's `str` and `String`, and the outside tokenizer.
use vstd::prelude::*;

verus! {

/// What `String::from_utf8` decodes from the bytes, `None` where they are not UTF-8.
pub uninterp spec fn utf8_text(b: Seq<u8>) -> Option<Seq<char>>;

/// What `str::trim_end` leaves of the text.
pub uninterp spec fn trimmed_end(s: Seq<char>) -> Seq<char>;

/// What `str::trim` leaves of the text.
pub uninterp spec fn trimmed(s: Seq<char>) -> Seq<char>;

/// The pieces that `str::split` gives for the separator `'\n'`.
pub uninterp spec fn newline_pieces(s: Seq<char>) -> Seq<Seq<char>>;

/// The lines that `str::lines` gives.
pub uninterp spec fn text_lines(s: Seq<char>) -> Seq<Seq<char>>;

/// What `str::parse::<i32>` reads from the text, `None` where it fails.
pub uninterp spec fn parsed_i32(s: Seq<char>) -> Option<i32>;

/// The words that `shlex::split` gives, `None` where the text does not tokenize.
pub uninterp spec fn shell_words(s: Seq<char>) -> Option<Seq<Seq<char>>>;

/// Relies on `String::from_utf8`: decodes the bytes, and fails on invalid UTF-8.
#[verifier::external_body]
pub(crate) fn decode_utf8(b: Vec<u8>) -> (r: Option<String>)
    ensures
        match r {
            Some(s) => utf8_text(b@) == Some(s@),
            None => utf8_text(b@).is_none(),
        },
{
    String::from_utf8(b).ok()
}

/// Relies on `str::trim_end`: removes trailing whitespace, so the result is a
/// prefix of the text.
#[verifier::external_body]
pub(crate) fn trim_end_text(s: &str) -> (r: String)
    ensures
        r@ == trimmed_end(s@),
        r@.len() <= s@.len(),
        r@ == s@.subrange(0, r@.len() as int),
{
    s.trim_end().to_string()
}

/// Relies on `str::trim`: removes leading and trailing whitespace.
#[verifier::external_body]
pub(crate) fn trim_text(s: &str) -> (r: String)
    ensures
        r@ == trimmed(s@),
        r@.len() <= s@.len(),
{
    s.trim().to_string()
}

/// Relies on `str::split` with the separator `'\n'`: it always yields at least
/// one piece.
#[verifier::external_body]
pub(crate) fn split_newlines(s: &str) -> (r: Vec<String>)
    ensures
        r@.map_values(|p: String| p@) == newline_pieces(s@),
        r@.len() >= 1,
{
    s.split('\n').map(|p| p.to_string()).collect()
}

/// Relies on `str::lines`: the text cut at each line end.
#[verifier::external_body]
pub(crate) fn lines_of(s: &str) -> (r: Vec<String>)
    ensures
        r@.map_values(|p: String| p@) == text_lines(s@),
{
    s.lines().map(|p| p.to_string()).collect()
}

/// Relies on `str::parse::<i32>`: a decimal integer with an optional sign.
#[verifier::external_body]
pub(crate) fn parse_i32(s: &str) -> (r: Option<i32>)
    ensures
        r == parsed_i32(s@),
{
    s.parse::<i32>().ok()
}

/// Relies on `shlex::split`: splits a command line into words as a POSIX shell
/// would, and fails on an unclosed quote or a trailing backslash.
#[verifier::external_body]
pub(crate) fn shlex_split(s: &str) -> (r: Option<Vec<String>>)
    ensures
        match r {
            Some(w) => shell_words(s@) == Some(w@.map_values(|p: String| p@)),
            None => shell_words(s@).is_none(),
        },
{
    shlex::split(s)
}

/// Relies on `str::split_once`: cuts the text at the first `'='`.
#[verifier::external_body]
pub(crate) fn split_at_equals(s: &str) -> (r: Option<(String, String)>)
    ensures
        match r {
            Some((a, b)) => exists|i: int|
                0 <= i < s@.len() && s@[i] == '=' && (forall|j: int| 0 <= j < i ==> s@[j] != '=')
                    && a@ == s@.subrange(0, i) && b@ == s@.subrange(i + 1, s@.len() as int),
            None => forall|i: int| 0 <= i < s@.len() ==> s@[i] != '=',
        },
{
    s.split_once('=').map(|(a, b)| (a.to_string(), b.to_string()))
}

/// The text `a` followed by `b`.
pub fn join2(a: &str, b: &str) -> (r: String)
    ensures
        r@ == a@ + b@,
{
    let mut s = String::from_str(a);
    s.append(b);
    s
}

} // verus!
