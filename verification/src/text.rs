//! Character classes and substring search over `Seq<char>` views.
//!
//! All pattern matching in this crate (keyword checks, digit runs,
//! entity spans) is built from these helpers, so their contracts are
//! stated once, over the view of the text.

use vstd::prelude::*;

verus! {

/// Decimal digit `0`..=`9`.
pub open spec fn is_digit(c: char) -> bool {
    ('0' as u32) <= (c as u32) && (c as u32) <= ('9' as u32)
}

/// Unicode `White_Space`: the closed list of code points that both
/// `char::is_whitespace` and the whitespace character class of common
/// regex engines recognise.
pub open spec fn is_space(c: char) -> bool {
    let u = c as u32;
    (9 <= u && u <= 13) || u == 32 || u == 0x85 || u == 0xA0 || u == 0x1680
        || (0x2000 <= u && u <= 0x200A) || u == 0x2028 || u == 0x2029 || u == 0x202F
        || u == 0x205F || u == 0x3000
}

/// What `char::is_alphanumeric` returns; a pure function of the
/// character alone (the Unicode `Alphabetic` and `Number` classes).
pub uninterp spec fn unicode_alphanumeric(c: char) -> bool;

/// Word constituent: ASCII letters, digits and `_`, and every
/// alphanumeric character outside ASCII (this is where CJK ideographs
/// fall). Word boundaries of the rule patterns are defined against it.
pub open spec fn is_word(c: char) -> bool {
    let u = c as u32;
    (('0' as u32) <= u && u <= ('9' as u32)) || (('a' as u32) <= u && u <= ('z' as u32)) || ((
    'A' as u32) <= u && u <= ('Z' as u32)) || u == ('_' as u32) || (u > 127
        && unicode_alphanumeric(c))
}

/// Relies on `char::is_alphanumeric` (std): classifies the character
/// alone, by the Unicode `Alphabetic` and `Number` categories.
#[verifier::external_body]
fn char_alphanumeric(c: char) -> (b: bool)
    ensures
        b == unicode_alphanumeric(c),
{
    c.is_alphanumeric()
}

pub fn digit_char(c: char) -> (b: bool)
    ensures
        b == is_digit(c),
{
    ('0' as u32) <= (c as u32) && (c as u32) <= ('9' as u32)
}

pub fn space_char(c: char) -> (b: bool)
    ensures
        b == is_space(c),
{
    let u = c as u32;
    (9 <= u && u <= 13) || u == 32 || u == 0x85 || u == 0xA0 || u == 0x1680 || (0x2000 <= u && u
        <= 0x200A) || u == 0x2028 || u == 0x2029 || u == 0x202F || u == 0x205F || u == 0x3000
}

pub fn word_char(c: char) -> (b: bool)
    ensures
        b == is_word(c),
{
    let u = c as u32;
    if u <= 127 {
        (('0' as u32) <= u && u <= ('9' as u32)) || (('a' as u32) <= u && u <= ('z' as u32)) || ((
        'A' as u32) <= u && u <= ('Z' as u32)) || u == ('_' as u32)
    } else {
        char_alphanumeric(c)
    }
}

/// The characters of `s`, in order, as a vector.
pub fn chars_vec(s: &str) -> (r: Vec<char>)
    ensures
        r@ == s@,
{
    let n = s.unicode_len();
    let mut r: Vec<char> = Vec::new();
    let mut i: usize = 0;
    while i < n
        invariant
            i <= n,
            n == s@.len(),
            r@ == s@.subrange(0, i as int),
        decreases n - i,
    {
        let c = s.get_char(i);
        r.push(c);
        proof {
            assert(r@ =~= s@.subrange(0, i + 1 as int));
        }
        i += 1;
    }
    proof {
        assert(r@ =~= s@);
    }
    r
}

/// `p` occurs in `s` starting at index `i`.
pub open spec fn matches_at(s: Seq<char>, i: int, p: Seq<char>) -> bool {
    &&& 0 <= i
    &&& i + p.len() <= s.len()
    &&& s.subrange(i, i + p.len()) == p
}

pub proof fn lemma_matches_at_index(s: Seq<char>, i: int, p: Seq<char>, k: int)
    requires
        matches_at(s, i, p),
        0 <= k < p.len(),
    ensures
        s[i + k] == p[k],
{
    assert(s.subrange(i, i + p.len())[k] == s[i + k]);
}

/// `p` occurs somewhere in `s`.
pub open spec fn contains_seq(s: Seq<char>, p: Seq<char>) -> bool {
    exists|i: int| #[trigger] matches_at(s, i, p)
}

/// Whether `pat` occurs in `hay` starting at `i`.
pub fn match_at(hay: &Vec<char>, i: usize, pat: &Vec<char>) -> (b: bool)
    ensures
        b == matches_at(hay@, i as int, pat@),
{
    if pat.len() > hay.len() || i > hay.len() - pat.len() {
        return false;
    }
    let mut j: usize = 0;
    while j < pat.len()
        invariant
            j <= pat.len(),
            i + pat.len() <= hay.len(),
            forall|k: int| 0 <= k < j ==> hay@[i + k] == pat@[k],
        decreases pat.len() - j,
    {
        if hay[i + j] != pat[j] {
            return false;
        }
        j += 1;
    }
    proof {
        assert(hay@.subrange(i as int, i + pat@.len()) =~= pat@);
    }
    true
}

/// First index at which `pat` occurs in `hay`, if any.
pub fn find_pat(hay: &Vec<char>, pat: &Vec<char>) -> (r: Option<usize>)
    ensures
        match r {
            Some(i) => matches_at(hay@, i as int, pat@) && forall|j: int|
                0 <= j < i ==> !matches_at(hay@, j, pat@),
            None => !contains_seq(hay@, pat@),
        },
{
    if pat.len() == 0 {
        proof {
            assert(hay@.subrange(0, 0) =~= pat@);
        }
        return Some(0);
    }
    let mut i: usize = 0;
    while i < hay.len()
        invariant
            i <= hay.len(),
            pat@.len() > 0,
            forall|j: int| 0 <= j < i ==> !matches_at(hay@, j, pat@),
        decreases hay.len() - i,
    {
        if match_at(hay, i, pat) {
            return Some(i);
        }
        i += 1;
    }
    proof {
        assert forall|j: int| #[trigger] matches_at(hay@, j, pat@) implies false by {
            assert(j + pat@.len() <= hay@.len());
        }
    }
    None
}

/// Whether `pat` occurs in `hay`.
pub fn contains_pat(hay: &Vec<char>, pat: &Vec<char>) -> (b: bool)
    ensures
        b == contains_seq(hay@, pat@),
{
    find_pat(hay, pat).is_some()
}

/// The views of a list of character vectors.
pub open spec fn kw_views(kws: Seq<Vec<char>>) -> Seq<Seq<char>> {
    kws.map_values(|v: Vec<char>| v@)
}

/// Some keyword of the list occurs in `s`.
pub open spec fn any_contained(s: Seq<char>, kws: Seq<Seq<char>>) -> bool {
    exists|k: int| 0 <= k < kws.len() && contains_seq(s, #[trigger] kws[k])
}

/// Whether any keyword of the list occurs in `hay`.
pub fn contains_any(hay: &Vec<char>, kws: &Vec<Vec<char>>) -> (b: bool)
    ensures
        b == any_contained(hay@, kw_views(kws@)),
{
    let mut k: usize = 0;
    while k < kws.len()
        invariant
            k <= kws@.len(),
            forall|m: int| 0 <= m < k ==> !contains_seq(hay@, #[trigger] kw_views(kws@)[m]),
        decreases kws@.len() - k,
    {
        if contains_pat(hay, &kws[k]) {
            proof {
                assert(kw_views(kws@)[k as int] == kws@[k as int]@);
            }
            return true;
        }
        k += 1;
    }
    false
}

/// Whether `pat` (a literal) occurs in `hay`.
pub fn contains_lit(hay: &Vec<char>, pat: &str) -> (b: bool)
    ensures
        b == contains_seq(hay@, pat@),
{
    let p = chars_vec(pat);
    contains_pat(hay, &p)
}

/// Relies on `String`'s `FromIterator<char>` (std): collecting chars
/// yields the string of exactly those characters, in order.
#[verifier::external_body]
pub(crate) fn string_from_chars(v: &Vec<char>) -> (r: String)
    ensures
        r@ == v@,
{
    v.iter().collect()
}

/// Concatenation reassociates: appending one more piece to a built
/// buffer matches extending the accumulated suffix.
pub proof fn lemma_concat_reassoc(base: Seq<char>, acc: Seq<char>, x: Seq<char>)
    ensures
        (base + acc) + x == base + (acc + x),
{
    assert((base + acc) + x =~= base + (acc + x));
}

/// Appends the characters of a literal to a character buffer.
pub fn append_lit(out: &mut Vec<char>, lit: &str)
    ensures
        final(out)@ == old(out)@ + lit@,
{
    let mut t = chars_vec(lit);
    out.append(&mut t);
}

/// The two strings have the same characters.
pub fn str_eq(a: &str, b: &str) -> (r: bool)
    ensures
        r == (a@ == b@),
{
    let n = a.unicode_len();
    if n != b.unicode_len() {
        return false;
    }
    let mut i: usize = 0;
    while i < n
        invariant
            i <= n,
            n == a@.len(),
            n == b@.len(),
            forall|k: int| 0 <= k < i ==> a@[k] == b@[k],
        decreases n - i,
    {
        if a.get_char(i) != b.get_char(i) {
            return false;
        }
        i += 1;
    }
    proof {
        assert(a@ =~= b@);
    }
    true
}

/// End of the digit run starting at `i`.
pub open spec fn digit_end(s: Seq<char>, i: int) -> int
    decreases s.len() - i when 0 <= i <= s.len()
{
    if i < s.len() && is_digit(s[i]) {
        digit_end(s, i + 1)
    } else {
        i
    }
}

/// End of the non-digit run starting at `i`.
pub open spec fn nondigit_end(s: Seq<char>, i: int) -> int
    decreases s.len() - i when 0 <= i <= s.len()
{
    if i < s.len() && !is_digit(s[i]) {
        nondigit_end(s, i + 1)
    } else {
        i
    }
}

/// End of the non-whitespace run starting at `i`.
pub open spec fn nonspace_end(s: Seq<char>, i: int) -> int
    decreases s.len() - i when 0 <= i <= s.len()
{
    if i < s.len() && !is_space(s[i]) {
        nonspace_end(s, i + 1)
    } else {
        i
    }
}

/// End of the whitespace run starting at `i`.
pub open spec fn space_end(s: Seq<char>, i: int) -> int
    decreases s.len() - i when 0 <= i <= s.len()
{
    if i < s.len() && is_space(s[i]) {
        space_end(s, i + 1)
    } else {
        i
    }
}

pub proof fn lemma_digit_end(s: Seq<char>, i: int)
    requires
        0 <= i <= s.len(),
    ensures
        i <= digit_end(s, i) <= s.len(),
        forall|k: int| i <= k < digit_end(s, i) ==> is_digit(s[k]),
        digit_end(s, i) < s.len() ==> !is_digit(s[digit_end(s, i)]),
    decreases s.len() - i,
{
    if i < s.len() && is_digit(s[i]) {
        lemma_digit_end(s, i + 1);
    }
}

pub proof fn lemma_nondigit_end(s: Seq<char>, i: int)
    requires
        0 <= i <= s.len(),
    ensures
        i <= nondigit_end(s, i) <= s.len(),
        forall|k: int| i <= k < nondigit_end(s, i) ==> !is_digit(s[k]),
        nondigit_end(s, i) < s.len() ==> is_digit(s[nondigit_end(s, i)]),
    decreases s.len() - i,
{
    if i < s.len() && !is_digit(s[i]) {
        lemma_nondigit_end(s, i + 1);
    }
}

pub proof fn lemma_nonspace_end(s: Seq<char>, i: int)
    requires
        0 <= i <= s.len(),
    ensures
        i <= nonspace_end(s, i) <= s.len(),
        forall|k: int| i <= k < nonspace_end(s, i) ==> !is_space(s[k]),
        nonspace_end(s, i) < s.len() ==> is_space(s[nonspace_end(s, i)]),
    decreases s.len() - i,
{
    if i < s.len() && !is_space(s[i]) {
        lemma_nonspace_end(s, i + 1);
    }
}

pub proof fn lemma_space_end(s: Seq<char>, i: int)
    requires
        0 <= i <= s.len(),
    ensures
        i <= space_end(s, i) <= s.len(),
        forall|k: int| i <= k < space_end(s, i) ==> is_space(s[k]),
        space_end(s, i) < s.len() ==> !is_space(s[space_end(s, i)]),
    decreases s.len() - i,
{
    if i < s.len() && is_space(s[i]) {
        lemma_space_end(s, i + 1);
    }
}

/// Exec scan for `digit_end`.
pub fn scan_digit_end(hay: &Vec<char>, i: usize) -> (r: usize)
    requires
        i <= hay@.len(),
    ensures
        r == digit_end(hay@, i as int),
        i <= r <= hay@.len(),
{
    let mut j: usize = i;
    while j < hay.len() && digit_char(hay[j])
        invariant
            i <= j <= hay@.len(),
            digit_end(hay@, i as int) == digit_end(hay@, j as int),
        decreases hay@.len() - j,
    {
        j += 1;
    }
    j
}

/// Exec scan for `nondigit_end`.
pub fn scan_nondigit_end(hay: &Vec<char>, i: usize) -> (r: usize)
    requires
        i <= hay@.len(),
    ensures
        r == nondigit_end(hay@, i as int),
        i <= r <= hay@.len(),
{
    let mut j: usize = i;
    while j < hay.len() && !digit_char(hay[j])
        invariant
            i <= j <= hay@.len(),
            nondigit_end(hay@, i as int) == nondigit_end(hay@, j as int),
        decreases hay@.len() - j,
    {
        j += 1;
    }
    j
}

/// Exec scan for `nonspace_end`.
pub fn scan_nonspace_end(hay: &Vec<char>, i: usize) -> (r: usize)
    requires
        i <= hay@.len(),
    ensures
        r == nonspace_end(hay@, i as int),
        i <= r <= hay@.len(),
{
    let mut j: usize = i;
    while j < hay.len() && !space_char(hay[j])
        invariant
            i <= j <= hay@.len(),
            nonspace_end(hay@, i as int) == nonspace_end(hay@, j as int),
        decreases hay@.len() - j,
    {
        j += 1;
    }
    j
}

/// Exec scan for `space_end`.
pub fn scan_space_end(hay: &Vec<char>, i: usize) -> (r: usize)
    requires
        i <= hay@.len(),
    ensures
        r == space_end(hay@, i as int),
        i <= r <= hay@.len(),
{
    let mut j: usize = i;
    while j < hay.len() && space_char(hay[j])
        invariant
            i <= j <= hay@.len(),
            space_end(hay@, i as int) == space_end(hay@, j as int),
        decreases hay@.len() - j,
    {
        j += 1;
    }
    j
}

/// The view of `s` with leading and trailing whitespace removed:
/// the subrange from the first non-space character to the end of the
/// last non-space character.
pub open spec fn trimmed(s: Seq<char>) -> Seq<char> {
    let l = space_end(s, 0);
    if l == s.len() {
        Seq::<char>::empty()
    } else {
        s.subrange(l, rtrim_end(s, l + 1, s.len() as int))
    }
}

/// Largest `k` in `[lo, hi]` such that `s[k-1]` is not whitespace,
/// or `lo` if all of `s[lo..hi]` is whitespace.
pub open spec fn rtrim_end(s: Seq<char>, lo: int, hi: int) -> int
    decreases hi - lo when 0 <= lo <= hi <= s.len()
{
    if hi > lo && is_space(s[hi - 1]) {
        rtrim_end(s, lo, hi - 1)
    } else {
        hi
    }
}

/// `s` with leading and trailing whitespace removed.
pub fn trim_str(s: &str) -> (r: String)
    ensures
        r@ == trimmed(s@),
{
    let hay = chars_vec(s);
    let l = scan_space_end(&hay, 0);
    if l == hay.len() {
        return String::new();
    }
    let ghost lo = l + 1 as int;
    let mut h: usize = hay.len();
    while h > l + 1 && space_char(hay[h - 1])
        invariant
            l + 1 <= h <= hay@.len(),
            l < hay@.len(),
            lo == l + 1 as int,
            rtrim_end(hay@, lo, hay@.len() as int) == rtrim_end(hay@, lo, h as int),
        decreases h,
    {
        h -= 1;
    }
    String::from_str(s.substring_char(l, h))
}

} // verus!
