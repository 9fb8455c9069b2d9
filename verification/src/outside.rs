//! The calls into outside code that the library makes: regular-expression
//! matching (`regex`), URL parsing (`url`) and file-name extensions (std).
//! Their contracts are believed, not proved.

use crate::settings::opt_view;
use crate::text::{has_substring, is_white_space};
use vstd::prelude::*;

verus! {

/// The pattern that an email address must match: `^[^\s@]+@[^\s@]+\.[^\s@]+$`.
pub open spec fn email_pattern() -> Seq<char> {
    "^[^\\s@]+@[^\\s@]+\\.[^\\s@]+$"@
}

/// A character of the class `[^\s@]`: neither white space nor `@`.
pub open spec fn is_address_char(c: char) -> bool {
    !is_white_space(c) && c != '@'
}

/// A non-empty run of characters of the class `[^\s@]`.
pub open spec fn is_address_part(s: Seq<char>) -> bool {
    s.len() > 0 && forall|k: int| 0 <= k < s.len() ==> is_address_char(#[trigger] s[k])
}

/// `s` matches `email_pattern` as a whole: a part, `@`, a part, `.`, a part,
/// where `@` splits at position `i` and a `.` after it at position `j` (the
/// parts may hold further dots, so any such `.` may serve).
pub open spec fn email_split(s: Seq<char>, i: int, j: int) -> bool {
    &&& 0 < i < j < s.len()
    &&& s[i] == '@'
    &&& s[j] == '.'
    &&& is_address_part(s.subrange(0, i))
    &&& is_address_part(s.subrange(i + 1, j))
    &&& is_address_part(s.subrange(j + 1, s.len() as int))
}

/// `s` has the shape of an email address, as `email_pattern` describes it.
pub open spec fn email_shape(s: Seq<char>) -> bool {
    exists|i: int, j: int| email_split(s, i, j)
}

/// Three parts of address characters joined by `@` and `.` form an email
/// address, and an email address holds exactly one `@` and no white space.
pub proof fn law_email_shape(a: Seq<char>, b: Seq<char>, c: Seq<char>, s: Seq<char>)
    ensures
        is_address_part(a) && is_address_part(b) && is_address_part(c) ==> email_shape(
            a + seq!['@'] + b + seq!['.'] + c,
        ),
        email_shape(s) ==> forall|k: int| 0 <= k < s.len() ==> !is_white_space(#[trigger] s[k]),
        email_shape(s) ==> exists|i: int|
            0 <= i < s.len() && s[i] == '@' && forall|k: int|
                0 <= k < s.len() && k != i ==> #[trigger] s[k] != '@',
{
    if is_address_part(a) && is_address_part(b) && is_address_part(c) {
        let t = a + seq!['@'] + b + seq!['.'] + c;
        let i = a.len() as int;
        let j = i + 1 + b.len();
        assert(t.subrange(0, i) =~= a);
        assert(t.subrange(i + 1, j) =~= b);
        assert(t.subrange(j + 1, t.len() as int) =~= c);
        assert(t[i] == '@' && t[j] == '.');
        assert(email_split(t, i, j));
    }
    if email_shape(s) {
        let (i, j) = choose|i: int, j: int| email_split(s, i, j);
        assert forall|k: int| 0 <= k < s.len() && k != i implies #[trigger] s[k] != '@'
            && !is_white_space(s[k]) by {
            if k < i {
                assert(s.subrange(0, i)[k] == s[k]);
            } else if k < j {
                assert(s.subrange(i + 1, j)[k - i - 1] == s[k]);
            } else if k > j {
                assert(s.subrange(j + 1, s.len() as int)[k - j - 1] == s[k]);
            }
        }
    }
}

/// What compiling `pattern` and matching it against `text` gives: `None`
/// when `pattern` does not compile.
pub uninterp spec fn regex_match_result(pattern: Seq<char>, text: Seq<char>) -> Option<bool>;

/// Compiles `pattern` with `regex::Regex::new` and, when that succeeds, asks
/// `Regex::is_match` whether `text` matches. The contract claims that the
/// outcome depends on the two strings alone, and, from the regex syntax
/// documentation (`\s` is `\p{White_Space}`, `$` ends the haystack), what it
/// is for `email_pattern`.
#[verifier::external_body]
pub(crate) fn regex_is_match(pattern: &str, text: &str) -> (r: Option<bool>)
    ensures
        r == regex_match_result(pattern@, text@),
        pattern@ == email_pattern() ==> r == Some(email_shape(text@)),
{
    match regex::Regex::new(pattern) {
        Ok(re) => Some(re.is_match(text)),
        Err(_) => None,
    }
}

/// The scheme of the URL that `input` parses to, or `None` where it does not
/// parse.
pub uninterp spec fn url_scheme_of(input: Seq<char>) -> Option<Seq<char>>;

/// Parses `input` with `url::Url::parse` and, when that succeeds, returns
/// `Url::scheme` as a `String`. The contract claims that the outcome depends
/// on `input` alone.
#[verifier::external_body]
pub(crate) fn url_scheme(input: &str) -> (r: Option<String>)
    ensures
        opt_view(r) == url_scheme_of(input@),
{
    match url::Url::parse(input) {
        Ok(u) => Some(u.scheme().to_string()),
        Err(_) => None,
    }
}

/// A character that separates path components on some platform.
pub open spec fn is_path_separator(c: char) -> bool {
    c == '/' || c == '\\'
}

/// The final `.` of `p` stands at `d`, is followed by a non-empty tail with
/// no `.` and no separator, is not the first character, is not directly
/// preceded by a separator or `:`, and `p` does not begin with two
/// separators (the start of a network or device prefix).
pub open spec fn plain_ext_at(p: Seq<char>, d: int) -> bool {
    &&& 0 < d < p.len() - 1
    &&& p[d] == '.'
    &&& forall|k: int| d < k < p.len() ==> #[trigger] p[k] != '.' && !is_path_separator(p[k])
    &&& !is_path_separator(p[d - 1])
    &&& p[d - 1] != ':'
    &&& !(is_path_separator(p[0]) && is_path_separator(p[1]))
}

/// The extension of `p` where every platform agrees on it: the tail after
/// its final `.`, when `plain_ext_at` holds there; `None` where the
/// platforms may differ or there is no such tail.
pub open spec fn plain_ext(p: Seq<char>) -> Option<Seq<char>> {
    if exists|d: int| plain_ext_at(p, d) {
        let d = choose|d: int| plain_ext_at(p, d);
        Some(p.subrange(d + 1, p.len() as int))
    } else {
        None
    }
}

/// The extension of the file that `path` names, from `std::path::Path::extension`,
/// as a `String`. How a path splits into components depends on the platform;
/// the contract claims what the documentation of `Path::extension` and
/// `Path::file_name` gives on every platform: a path without a `.` has no
/// extension; an extension holds no `.` and stands in the path right after a
/// `.` (it is a slice of the file name, which is a slice of the path); and
/// where `plain_ext` is defined the extension is that tail (the last
/// component is then an ordinary file name that ends in `.` and the tail).
#[verifier::external_body]
pub(crate) fn file_extension(path: &str) -> (r: Option<String>)
    ensures
        r matches Some(e) ==> !e@.contains('.'),
        plain_ext(path@) is Some ==> opt_view(r) == plain_ext(path@),
        !path@.contains('.') ==> r is None,
        r matches Some(e) ==> has_substring(path@, seq!['.'] + e@),
{
    match std::path::Path::new(path).extension() {
        Some(e) => Some(e.to_string_lossy().into_owned()),
        None => None,
    }
}

} // verus!
