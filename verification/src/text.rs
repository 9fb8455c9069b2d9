//! Text primitives on `str`: whitespace, trimming, ASCII case folding,
//! literal comparison and substring search.

use vstd::prelude::*;

verus! {

/// The Unicode `White_Space` property, which `char::is_whitespace`,
/// `str::trim` and the regex class `\s` all use.
pub open spec fn is_white_space(c: char) -> bool {
    let x = c as int;
    ||| 0x09 <= x <= 0x0D
    ||| x == 0x20
    ||| x == 0x85
    ||| x == 0xA0
    ||| x == 0x1680
    ||| 0x2000 <= x <= 0x200A
    ||| x == 0x2028
    ||| x == 0x2029
    ||| x == 0x202F
    ||| x == 0x205F
    ||| x == 0x3000
}

/// Decides `is_white_space`.
pub fn white_space(c: char) -> (r: bool)
    ensures
        r == is_white_space(c),
{
    let x: u32 = c as u32;
    (0x09 <= x && x <= 0x0D) || x == 0x20 || x == 0x85 || x == 0xA0 || x == 0x1680 || (0x2000
        <= x && x <= 0x200A) || x == 0x2028 || x == 0x2029 || x == 0x202F || x == 0x205F || x
        == 0x3000
}

/// `s` without its leading white space.
pub open spec fn trim_start(s: Seq<char>) -> Seq<char>
    decreases s.len(),
{
    if s.len() > 0 && is_white_space(s[0]) {
        trim_start(s.drop_first())
    } else {
        s
    }
}

/// `s` without its trailing white space.
pub open spec fn trim_end(s: Seq<char>) -> Seq<char>
    decreases s.len(),
{
    if s.len() > 0 && is_white_space(s.last()) {
        trim_end(s.drop_last())
    } else {
        s
    }
}

/// `s` without leading and trailing white space, as `str::trim` gives it.
pub open spec fn trimmed(s: Seq<char>) -> Seq<char> {
    trim_end(trim_start(s))
}

/// Every character of `s` is white space (so `s` trims to nothing).
pub open spec fn is_blank(s: Seq<char>) -> bool {
    forall|i: int| 0 <= i < s.len() ==> is_white_space(#[trigger] s[i])
}

/// The characters of `s`, in order.
pub fn chars_of(s: &str) -> (v: Vec<char>)
    ensures
        v@ == s@,
{
    let mut v: Vec<char> = Vec::new();
    for c in it: s.chars()
        invariant
            it.seq() == s@,
            v@ == it.seq().take(it.index() as int),
    {
        v.push(c);
    }
    v
}


proof fn lemma_trim_start_skip(s: Seq<char>, i: int)
    requires
        0 <= i <= s.len(),
        forall|k: int| 0 <= k < i ==> is_white_space(#[trigger] s[k]),
    ensures
        trim_start(s) == trim_start(s.subrange(i, s.len() as int)),
    decreases i,
{
    if i > 0 {
        assert(is_white_space(s[0]));
        assert(s.drop_first() =~= s.subrange(1, s.len() as int));
        lemma_trim_start_skip(s.drop_first(), i - 1);
        assert(s.drop_first().subrange(i - 1, s.drop_first().len() as int) =~= s.subrange(
            i,
            s.len() as int,
        ));
    } else {
        assert(s.subrange(0, s.len() as int) =~= s);
    }
}

proof fn lemma_trim_end_skip(s: Seq<char>, j: int)
    requires
        0 <= j <= s.len(),
        forall|k: int| j <= k < s.len() ==> is_white_space(#[trigger] s[k]),
    ensures
        trim_end(s) == trim_end(s.subrange(0, j)),
    decreases s.len() - j,
{
    if j < s.len() {
        assert(is_white_space(s[s.len() - 1]));
        assert(s.drop_last() =~= s.subrange(0, s.len() - 1));
        lemma_trim_end_skip(s.drop_last(), j);
        assert(s.drop_last().subrange(0, j) =~= s.subrange(0, j));
    } else {
        assert(s.subrange(0, j) =~= s);
    }
}

/// `s` without leading and trailing white space, as `str::trim` gives it.
pub fn trim(s: &str) -> (r: &str)
    ensures
        r@ == trimmed(s@),
{
    let v = chars_of(s);
    let n = v.len();
    let mut i: usize = 0;
    while i < n && white_space(v[i])
        invariant
            v@ == s@,
            n == v.len(),
            i <= n,
            forall|k: int| 0 <= k < i ==> is_white_space(#[trigger] s@[k]),
        decreases n - i,
    {
        i = i + 1;
    }
    proof {
        lemma_trim_start_skip(s@, i as int);
        assert(trim_start(s@.subrange(i as int, n as int)) == s@.subrange(i as int, n as int));
    }
    let mut j: usize = n;
    while j > i && white_space(v[j - 1])
        invariant
            v@ == s@,
            n == v.len(),
            i <= j <= n,
            forall|k: int| j <= k < n ==> is_white_space(#[trigger] s@[k]),
        decreases j,
    {
        j = j - 1;
    }
    proof {
        let t = s@.subrange(i as int, n as int);
        assert forall|k: int| j - i <= k < t.len() implies is_white_space(#[trigger] t[k]) by {
            assert(t[k] == s@[k + i]);
        }
        lemma_trim_end_skip(t, j - i);
        assert(t.subrange(0, j - i) =~= s@.subrange(i as int, j as int));
        if j > i {
            assert(s@.subrange(i as int, j as int).last() == s@[j - 1]);
        }
    }
    s.substring_char(i, j)
}


/// Trimming leaves nothing exactly when every character is white space.
pub proof fn lemma_trimmed_empty_iff_blank(s: Seq<char>)
    ensures
        trimmed(s).len() == 0 <==> is_blank(s),
    decreases s.len(),
{
    if s.len() > 0 && is_white_space(s[0]) {
        lemma_trimmed_empty_iff_blank(s.drop_first());
        if is_blank(s.drop_first()) {
            assert forall|i: int| 0 <= i < s.len() implies is_white_space(#[trigger] s[i]) by {
                if i > 0 {
                    assert(s[i] == s.drop_first()[i - 1]);
                }
            }
        }
        if is_blank(s) {
            assert forall|i: int| 0 <= i < s.drop_first().len() implies is_white_space(
                #[trigger] s.drop_first()[i],
            ) by {
                assert(s.drop_first()[i] == s[i + 1]);
            }
        }
    } else if s.len() > 0 {
        lemma_trim_end_keeps_head(s);
    }
}

proof fn lemma_trim_end_keeps_head(s: Seq<char>)
    requires
        s.len() > 0,
        !is_white_space(s[0]),
    ensures
        trim_end(s).len() > 0,
    decreases s.len(),
{
    if is_white_space(s.last()) {
        assert(s.len() > 1);
        assert(s.drop_last()[0] == s[0]);
        lemma_trim_end_keeps_head(s.drop_last());
    }
}

proof fn lemma_trim_start_head(s: Seq<char>)
    ensures
        trim_start(s).len() > 0 ==> !is_white_space(trim_start(s)[0]),
    decreases s.len(),
{
    if s.len() > 0 && is_white_space(s[0]) {
        lemma_trim_start_head(s.drop_first());
    }
}

proof fn lemma_trim_end_shape(s: Seq<char>)
    ensures
        trim_end(s).len() <= s.len(),
        trim_end(s) == s.subrange(0, trim_end(s).len() as int),
        trim_end(s).len() > 0 ==> !is_white_space(trim_end(s).last()),
    decreases s.len(),
{
    if s.len() > 0 && is_white_space(s.last()) {
        lemma_trim_end_shape(s.drop_last());
        assert(s.drop_last().subrange(0, trim_end(s).len() as int) =~= s.subrange(
            0,
            trim_end(s).len() as int,
        ));
    } else {
        assert(s.subrange(0, s.len() as int) =~= s);
    }
}

/// A string whose first and last characters are not white space trims to
/// itself.
pub proof fn lemma_trimmed_unchanged(s: Seq<char>)
    requires
        s.len() > 0,
        !is_white_space(s[0]),
        !is_white_space(s.last()),
    ensures
        trimmed(s) == s,
{
}

/// Trimming twice is trimming once.
pub proof fn lemma_trimmed_idempotent(s: Seq<char>)
    ensures
        trimmed(trimmed(s)) == trimmed(s),
{
    let u = trim_start(s);
    let r = trim_end(u);
    lemma_trim_start_head(s);
    lemma_trim_end_shape(u);
    if r.len() > 0 {
        assert(r[0] == u[0]);
        lemma_trimmed_unchanged(r);
    } else {
        assert(r =~= Seq::<char>::empty());
    }
}

/// `s` trims to the empty string.
pub fn is_blank_str(s: &str) -> (r: bool)
    ensures
        r == (trimmed(s@).len() == 0),
        r == is_blank(s@),
{
    proof {
        lemma_trimmed_empty_iff_blank(s@);
    }
    trim(s).is_empty()
}

/// The code of `c` with ASCII upper-case letters mapped to lower case, as
/// `char::to_ascii_lowercase` does.
pub open spec fn ascii_fold(c: char) -> int {
    let x = c as int;
    if 0x41 <= x <= 0x5A {
        x + 0x20
    } else {
        x
    }
}

/// `a` and `b` are equal up to ASCII case, as `str::eq_ignore_ascii_case`
/// decides it.
pub open spec fn eq_ignore_ascii_case(a: Seq<char>, b: Seq<char>) -> bool {
    &&& a.len() == b.len()
    &&& forall|i: int| 0 <= i < a.len() ==> ascii_fold(#[trigger] a[i]) == ascii_fold(b[i])
}

fn fold_char(c: char) -> (r: u32)
    ensures
        r == ascii_fold(c),
{
    let x: u32 = c as u32;
    if 0x41 <= x && x <= 0x5A {
        x + 0x20
    } else {
        x
    }
}

fn vec_eq_ignore_ascii_case(a: &Vec<char>, b: &Vec<char>) -> (r: bool)
    ensures
        r == eq_ignore_ascii_case(a@, b@),
{
    if a.len() != b.len() {
        return false;
    }
    let n = a.len();
    let mut i: usize = 0;
    while i < n
        invariant
            n == a.len(),
            n == b.len(),
            i <= n,
            forall|k: int| 0 <= k < i ==> ascii_fold(#[trigger] a@[k]) == ascii_fold(b@[k]),
        decreases n - i,
    {
        if fold_char(a[i]) != fold_char(b[i]) {
            return false;
        }
        i = i + 1;
    }
    true
}

/// Equality up to ASCII case.
pub fn str_eq_ignore_ascii_case(a: &str, b: &str) -> (r: bool)
    ensures
        r == eq_ignore_ascii_case(a@, b@),
{
    let va = chars_of(a);
    let vb = chars_of(b);
    vec_eq_ignore_ascii_case(&va, &vb)
}

/// Character-wise equality.
pub fn str_eq(a: &str, b: &str) -> (r: bool)
    ensures
        r == (a@ == b@),
{
    let va = chars_of(a);
    let vb = chars_of(b);
    if va.len() != vb.len() {
        return false;
    }
    let n = va.len();
    let mut i: usize = 0;
    while i < n
        invariant
            n == va.len(),
            n == vb.len(),
            va@ == a@,
            vb@ == b@,
            i <= n,
            forall|k: int| 0 <= k < i ==> va@[k] == vb@[k],
        decreases n - i,
    {
        if va[i] != vb[i] {
            return false;
        }
        i = i + 1;
    }
    assert(va@ =~= vb@);
    true
}

/// `needle` occurs in `hay` starting at position `i`.
pub open spec fn occurs_at(hay: Seq<char>, needle: Seq<char>, i: int) -> bool {
    &&& 0 <= i
    &&& i + needle.len() <= hay.len()
    &&& hay.subrange(i, i + needle.len()) == needle
}

/// `needle` occurs somewhere in `hay`, as `str::contains` decides it.
pub open spec fn has_substring(hay: Seq<char>, needle: Seq<char>) -> bool {
    exists|i: int| occurs_at(hay, needle, i)
}

/// `hay` ends with `suffix`, as `str::ends_with` decides it.
pub open spec fn has_suffix(hay: Seq<char>, suffix: Seq<char>) -> bool {
    suffix.len() <= hay.len() && hay.subrange(hay.len() - suffix.len(), hay.len() as int)
        == suffix
}

fn occurs_at_exec(hay: &Vec<char>, needle: &Vec<char>, i: usize) -> (r: bool)
    requires
        i + needle.len() <= hay.len(),
    ensures
        r == occurs_at(hay@, needle@, i as int),
{
    let m = needle.len();
    let mut k: usize = 0;
    while k < m
        invariant
            m == needle.len(),
            i + m <= hay.len(),
            k <= m,
            forall|t: int| 0 <= t < k ==> hay@[i + t] == needle@[t],
        decreases m - k,
    {
        if hay[i + k] != needle[k] {
            assert(hay@.subrange(i as int, i + m)[k as int] != needle@[k as int]);
            return false;
        }
        k = k + 1;
    }
    assert(hay@.subrange(i as int, i + m) =~= needle@);
    true
}

/// Substring search.
pub fn str_contains(hay: &str, needle: &str) -> (r: bool)
    ensures
        r == has_substring(hay@, needle@),
{
    let h = chars_of(hay);
    let n = chars_of(needle);
    if n.len() > h.len() {
        return false;
    }
    let last = h.len() - n.len();
    let mut i: usize = 0;
    while i <= last
        invariant
            h@ == hay@,
            n@ == needle@,
            last + n.len() == h.len(),
            i <= last,
            forall|k: int| 0 <= k < i ==> !occurs_at(hay@, needle@, k),
        ensures
            forall|k: int| 0 <= k <= last ==> !occurs_at(hay@, needle@, k),
        decreases last + 1 - i,
    {
        if occurs_at_exec(&h, &n, i) {
            return true;
        }
        if i == last {
            break;
        }
        i = i + 1;
    }
    assert forall|k: int| !occurs_at(hay@, needle@, k) by {
        if 0 <= k && k + needle@.len() <= hay@.len() {
            assert(k <= last);
        }
    }
    false
}

/// Suffix test.
pub fn str_ends_with(hay: &str, suffix: &str) -> (r: bool)
    ensures
        r == has_suffix(hay@, suffix@),
{
    let h = chars_of(hay);
    let n = chars_of(suffix);
    if n.len() > h.len() {
        return false;
    }
    occurs_at_exec(&h, &n, h.len() - n.len())
}


/// An ASCII letter, upper or lower case.
pub open spec fn is_ascii_letter(c: char) -> bool {
    ('A' <= c && c <= 'Z') || ('a' <= c && c <= 'z')
}

/// Case folding changes only the ASCII upper-case letters `'A'..='Z'`, each
/// to its lower-case letter; every other character keeps its code.
pub proof fn law_ascii_fold_only_upper_letters(c: char)
    ensures
        'A' <= c && c <= 'Z' ==> ascii_fold(c) == (c as int) + ('a' as int - 'A' as int),
        !('A' <= c && c <= 'Z') ==> ascii_fold(c) == c as int,
{
}

/// Two strings equal up to ASCII case have the same length and agree on
/// every character that is not an ASCII letter; where they differ, both
/// characters are letters that differ only in case.
pub proof fn law_ignore_case_keeps_non_letters(a: Seq<char>, b: Seq<char>, i: int)
    requires
        eq_ignore_ascii_case(a, b),
        0 <= i < a.len(),
    ensures
        a.len() == b.len(),
        !is_ascii_letter(a[i]) ==> a[i] == b[i],
        a[i] != b[i] ==> is_ascii_letter(a[i]) && is_ascii_letter(b[i]),
{
    let x = a[i];
    let y = b[i];
    assert(ascii_fold(x) == ascii_fold(y));

}

/// Equality up to ASCII case holds of a string with itself.
pub proof fn law_ignore_case_reflexive(a: Seq<char>)
    ensures
        eq_ignore_ascii_case(a, a),
{
}

/// A string contains itself between any prefix and suffix.
pub proof fn law_substring_in_context(p: Seq<char>, n: Seq<char>, q: Seq<char>)
    ensures
        has_substring(p + n + q, n),
{
    assert((p + n + q).subrange(p.len() as int, (p.len() + n.len()) as int) =~= n);
    assert(occurs_at(p + n + q, n, p.len() as int));
}

/// A substring is as long as its occurrence, and every character of it is
/// found in the containing string.
pub proof fn law_substring_is_contained(hay: Seq<char>, n: Seq<char>)
    requires
        has_substring(hay, n),
    ensures
        n.len() <= hay.len(),
        forall|k: int| 0 <= k < n.len() ==> hay.contains(#[trigger] n[k]),
{
    let i = choose|i: int| occurs_at(hay, n, i);
    assert forall|k: int| 0 <= k < n.len() implies hay.contains(#[trigger] n[k]) by {
        assert(hay.subrange(i, i + n.len())[k] == hay[i + k]);
    }
}

/// A string ends with what is appended to it last, and nothing longer than
/// it is a suffix.
pub proof fn law_suffix_of_concat(p: Seq<char>, s: Seq<char>)
    ensures
        has_suffix(p + s, s),
        s.len() > p.len() ==> !has_suffix(p, s),
{
    assert((p + s).subrange(p.len() as int, (p + s).len() as int) =~= s);
}

/// Trimming removes exactly the white space around a text that begins and
/// ends with other characters.
pub proof fn law_trim_removes_surrounding_blanks(p: Seq<char>, s: Seq<char>, q: Seq<char>)
    requires
        is_blank(p),
        is_blank(q),
        s.len() > 0,
        !is_white_space(s[0]),
        !is_white_space(s.last()),
    ensures
        trimmed(p + s + q) == s,
{
    let t = p + s + q;
    lemma_trim_start_skip(t, p.len() as int);
    assert(t.subrange(p.len() as int, t.len() as int) =~= s + q);
    let u = s + q;
    assert(trim_start(u) == u);
    assert forall|k: int| s.len() <= k < u.len() implies is_white_space(#[trigger] u[k]) by {
        assert(u[k] == q[k - s.len()]);
    }
    lemma_trim_end_skip(u, s.len() as int);
    assert(u.subrange(0, s.len() as int) =~= s);
    lemma_trimmed_unchanged(s);
}

/// A text of white space only trims to nothing.
pub proof fn law_blank_trims_to_nothing(p: Seq<char>)
    requires
        is_blank(p),
    ensures
        trimmed(p).len() == 0,
{
    lemma_trimmed_empty_iff_blank(p);
}


/// Space, tab, line feed, carriage return, vertical tab, form feed, the
/// no-break and ideographic spaces and the line and paragraph separators are
/// white space; no ASCII letter or digit is.
pub proof fn law_white_space_chars(c: char)
    ensures
        is_white_space(' ') && is_white_space('\t') && is_white_space('\n') && is_white_space('\r'),
        is_white_space('\u{0B}') && is_white_space('\u{0C}') && is_white_space('\u{85}'),
        is_white_space('\u{A0}') && is_white_space('\u{3000}') && is_white_space('\u{2028}')
            && is_white_space('\u{2029}'),
        is_ascii_letter(c) || ('0' <= c && c <= '9') ==> !is_white_space(c),
{
}

} // verus!
