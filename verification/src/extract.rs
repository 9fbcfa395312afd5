//! Entity span extraction: URLs, phone numbers, verification codes,
//! monetary values, account suffixes and date/time text.
//!
//! Each pattern is specified by a `..._match_at` predicate saying what
//! it means to match at a position, and an extractor returns the text
//! of the leftmost match. Greedy extents are expressed with the run
//! scanners of `crate::text`; preference between pattern alternatives
//! follows first-listed-wins at equal start positions.

use vstd::prelude::*;

use crate::text::{
    any_contained, chars_vec, contains_any, digit_char, digit_end, is_digit, is_word, kw_views,
    match_at, matches_at, nondigit_end, nonspace_end, scan_digit_end, scan_nondigit_end,
    scan_nonspace_end, scan_space_end, space_end, word_char,
};

verus! {

/// A word boundary precedes position `i`.
pub open spec fn boundary_before(s: Seq<char>, i: int) -> bool {
    i == 0 || !is_word(s[i - 1])
}

/// A word boundary follows position `e` (exclusive end).
pub open spec fn boundary_at(s: Seq<char>, e: int) -> bool {
    e == s.len() || !is_word(s[e])
}

pub open spec fn o2i(o: Option<usize>) -> Option<int> {
    match o {
        Some(v) => Some(v as int),
        None => None,
    }
}

// ------------------------------------------------------------------
// URLs: `https?://` followed by at least one non-space character, or
// `www.` followed by a non-space run that still contains an inner dot.
// The match extends to the end of the non-space run.
// ------------------------------------------------------------------

/// A `.` occurs in `s[lo..hi)`.
pub open spec fn has_dot_in(s: Seq<char>, lo: int, hi: int) -> bool
    decreases hi - lo,
{
    if lo >= hi {
        false
    } else if s[lo] == '.' {
        true
    } else {
        has_dot_in(s, lo + 1, hi)
    }
}

pub open spec fn www_match_at(s: Seq<char>, i: int) -> bool {
    matches_at(s, i, "www."@) && {
        let e = nonspace_end(s, i + 4);
        e > i + 4 && has_dot_in(s, i + 5, e - 1)
    }
}

pub open spec fn url_match_at(s: Seq<char>, i: int) -> bool {
    ||| (matches_at(s, i, "http://"@) && nonspace_end(s, i + 7) > i + 7)
    ||| (matches_at(s, i, "https://"@) && nonspace_end(s, i + 8) > i + 8)
    ||| www_match_at(s, i)
}

pub open spec fn url_end_at(s: Seq<char>, i: int) -> int {
    if matches_at(s, i, "http://"@) {
        nonspace_end(s, i + 7)
    } else if matches_at(s, i, "https://"@) {
        nonspace_end(s, i + 8)
    } else {
        nonspace_end(s, i + 4)
    }
}

/// `r` is the text of the leftmost URL match in `s`, or `None` when
/// nothing matches.
pub open spec fn is_url_of(s: Seq<char>, r: Option<Seq<char>>) -> bool {
    if exists|i: int| #[trigger] url_match_at(s, i) {
        exists|i: int|
            {
                &&& #[trigger] url_match_at(s, i)
                &&& forall|j: int| 0 <= j < i ==> !url_match_at(s, j)
                &&& r == Some(s.subrange(i, url_end_at(s, i)))
            }
    } else {
        r is None
    }
}

#[verifier::loop_isolation(false)]
fn url_probe_at(hay: &Vec<char>, i: usize) -> (r: Option<usize>)
    requires
        i < hay@.len(),
    ensures
        match r {
            Some(e) => url_match_at(hay@, i as int) && e == url_end_at(hay@, i as int) && i <= e
                <= hay@.len(),
            None => !url_match_at(hay@, i as int),
        },
{
    proof {
        vstd::std_specs::vec::axiom_spec_len(hay);
        reveal_strlit("http://");
        reveal_strlit("https://");
        reveal_strlit("www.");
    }
    let ph = chars_vec("http://");
    if match_at(hay, i, &ph) {
        proof {
            assert(!matches_at(hay@, i as int, "https://"@)) by {
                if matches_at(hay@, i as int, "https://"@) {
                    crate::text::lemma_matches_at_index(hay@, i as int, "http://"@, 4);
                    crate::text::lemma_matches_at_index(hay@, i as int, "https://"@, 4);
                }
            }
            assert(!matches_at(hay@, i as int, "www."@)) by {
                if matches_at(hay@, i as int, "www."@) {
                    crate::text::lemma_matches_at_index(hay@, i as int, "http://"@, 0);
                    crate::text::lemma_matches_at_index(hay@, i as int, "www."@, 0);
                }
            }
        }
        let e = scan_nonspace_end(hay, i + 7);
        if e > i + 7 {
            return Some(e);
        } else {
            return None;
        }
    }
    let ps = chars_vec("https://");
    if match_at(hay, i, &ps) {
        proof {
            assert(!matches_at(hay@, i as int, "www."@)) by {
                if matches_at(hay@, i as int, "www."@) {
                    crate::text::lemma_matches_at_index(hay@, i as int, "https://"@, 0);
                    crate::text::lemma_matches_at_index(hay@, i as int, "www."@, 0);
                }
            }
        }
        let e = scan_nonspace_end(hay, i + 8);
        if e > i + 8 {
            return Some(e);
        } else {
            return None;
        }
    }
    let pw = chars_vec("www.");
    if match_at(hay, i, &pw) {
        let e = scan_nonspace_end(hay, i + 4);
        if e > i + 4 {
            let mut p = i + 5;
            while p <= e - 2
                invariant
                    i + 5 <= p,
                    p <= e,
                    e <= hay@.len(),
                    hay@.len() <= usize::MAX,
                    e > i + 4,
                    has_dot_in(hay@, i + 5, e - 1) == has_dot_in(hay@, p as int, e - 1),
                decreases e - p,
            {
                if hay[p] == '.' {
                    proof {
                        assert(has_dot_in(hay@, p as int, e - 1));
                        assert(www_match_at(hay@, i as int));
                        assert(url_match_at(hay@, i as int));
                        assert(url_end_at(hay@, i as int) == e);
                    }
                    return Some(e);
                }
                p += 1;
            }
            proof {
                assert(!has_dot_in(hay@, p as int, e - 1));
                assert(!www_match_at(hay@, i as int));
                assert(!url_match_at(hay@, i as int));
            }
            return None;
        } else {
            proof {
                assert(!www_match_at(hay@, i as int));
                assert(!url_match_at(hay@, i as int));
            }
            return None;
        }
    }
    None
}

/// The span of the leftmost URL match.
pub fn find_url(hay: &Vec<char>) -> (r: Option<(usize, usize)>)
    ensures
        match r {
            Some(span) => span.0 <= span.1 <= hay@.len() && url_match_at(hay@, span.0 as int)
                && span.1 == url_end_at(hay@, span.0 as int) && forall|j: int|
                0 <= j < span.0 ==> !url_match_at(hay@, j),
            None => forall|j: int| !url_match_at(hay@, j),
        },
{
    proof {
        reveal_strlit("http://");
        reveal_strlit("https://");
        reveal_strlit("www.");
    }
    let mut i: usize = 0;
    while i < hay.len()
        invariant
            i <= hay@.len(),
            forall|j: int| 0 <= j < i ==> !url_match_at(hay@, j),
        decreases hay@.len() - i,
    {
        match url_probe_at(hay, i) {
            Some(e) => {
                return Some((i, e));
            },
            None => {},
        }
        i += 1;
    }
    proof {
        assert forall|j: int| !(#[trigger] url_match_at(hay@, j)) by {
            if url_match_at(hay@, j) {
                assert(0 <= j < hay@.len());
            }
        }
    }
    None
}

/// The text of the leftmost URL in `content`.
pub fn extract_url(content: &str, hay: &Vec<char>) -> (r: Option<String>)
    requires
        hay@ == content@,
    ensures
        is_url_of(content@, crate::schema::opt_view(r)),
{
    match find_url(hay) {
        Some(span) => {
            let out = String::from_str(content.substring_char(span.0, span.1));
            proof {
                assert(is_url_of(content@, Some(out@)));
            }
            Some(out)
        },
        None => None,
    }
}

// ------------------------------------------------------------------
// Phone numbers: eleven digits starting with 1, delimited by word
// boundaries.
// ------------------------------------------------------------------

pub open spec fn phone_match_at(s: Seq<char>, i: int) -> bool {
    &&& boundary_before(s, i)
    &&& i >= 0
    &&& i + 11 <= s.len()
    &&& s[i] == '1'
    &&& forall|k: int| i <= k < i + 11 ==> is_digit(s[k])
    &&& boundary_at(s, i + 11)
}

/// `r` is the text of the leftmost phone-number match.
pub open spec fn is_phone_of(s: Seq<char>, r: Option<Seq<char>>) -> bool {
    if exists|i: int| #[trigger] phone_match_at(s, i) {
        exists|i: int|
            {
                &&& #[trigger] phone_match_at(s, i)
                &&& forall|j: int| 0 <= j < i ==> !phone_match_at(s, j)
                &&& r == Some(s.subrange(i, i + 11))
            }
    } else {
        r is None
    }
}

fn phone_probe_at(hay: &Vec<char>, i: usize) -> (b: bool)
    requires
        i < hay@.len(),
    ensures
        b == phone_match_at(hay@, i as int),
{
    if i > 0 && word_char(hay[i - 1]) {
        return false;
    }
    if hay.len() - i < 11 {
        return false;
    }
    if hay[i] != '1' {
        return false;
    }
    let mut k: usize = 0;
    while k < 11
        invariant
            k <= 11,
            i + 11 <= hay@.len(),
            hay@.len() <= usize::MAX,
            forall|m: int| i <= m < i + k ==> is_digit(hay@[m]),
        decreases 11 - k,
    {
        if !digit_char(hay[i + k]) {
            return false;
        }
        k += 1;
    }
    if i + 11 < hay.len() && word_char(hay[i + 11]) {
        return false;
    }
    true
}

/// The start of the leftmost phone-number match.
pub fn find_phone(hay: &Vec<char>) -> (r: Option<usize>)
    ensures
        match r {
            Some(i) => i + 11 <= hay@.len() && phone_match_at(hay@, i as int) && forall|j: int|
                0 <= j < i ==> !phone_match_at(hay@, j),
            None => forall|j: int| !phone_match_at(hay@, j),
        },
{
    let mut i: usize = 0;
    while i < hay.len()
        invariant
            i <= hay@.len(),
            forall|j: int| 0 <= j < i ==> !phone_match_at(hay@, j),
        decreases hay@.len() - i,
    {
        if phone_probe_at(hay, i) {
            return Some(i);
        }
        i += 1;
    }
    None
}

/// The text of the leftmost phone number in `content`.
pub fn extract_phone(content: &str, hay: &Vec<char>) -> (r: Option<String>)
    requires
        hay@ == content@,
    ensures
        is_phone_of(content@, crate::schema::opt_view(r)),
{
    proof {
        vstd::std_specs::vec::axiom_spec_len(hay);
    }
    match find_phone(hay) {
        Some(i) => {
            let out = String::from_str(content.substring_char(i, i + 11));
            proof {
                assert(is_phone_of(content@, Some(out@)));
            }
            Some(out)
        },
        None => None,
    }
}

// ------------------------------------------------------------------
// Verification codes: an OTP keyword, at most six non-digits, then a
// run of four or more digits, captured up to eight digits; otherwise,
// when an OTP keyword occurs anywhere, the first boundary-delimited
// run of four to eight digits.
// ------------------------------------------------------------------

/// The OTP keywords: 验证码, 校验码, 动态码, OTP.
pub open spec fn otp_keywords() -> Seq<Seq<char>> {
    seq!["验证码"@, "校验码"@, "动态码"@, "OTP"@]
}

/// An OTP keyword occurs somewhere in `s`.
pub open spec fn otp_keyword_present(s: Seq<char>) -> bool {
    any_contained(s, otp_keywords())
}

/// Whether an OTP keyword occurs in `hay`.
pub fn has_otp_keyword(hay: &Vec<char>) -> (b: bool)
    ensures
        b == otp_keyword_present(hay@),
{
    let mut kws: Vec<Vec<char>> = Vec::new();
    kws.push(chars_vec("验证码"));
    kws.push(chars_vec("校验码"));
    kws.push(chars_vec("动态码"));
    kws.push(chars_vec("OTP"));
    proof {
        assert(kw_views(kws@) =~= otp_keywords());
    }
    contains_any(hay, &kws)
}

pub open spec fn otp_kw_at(s: Seq<char>, i: int) -> bool {
    ||| matches_at(s, i, "验证码"@)
    ||| matches_at(s, i, "校验码"@)
    ||| matches_at(s, i, "动态码"@)
    ||| matches_at(s, i, "OTP"@)
}

pub open spec fn code_kw_match_at(s: Seq<char>, i: int) -> bool {
    otp_kw_at(s, i) && {
        let j = nondigit_end(s, i + 3);
        j - (i + 3) <= 6 && j < s.len() && digit_end(s, j) - j >= 4
    }
}

/// The captured digit span for a keyword-adjacent code match.
pub open spec fn code_kw_span(s: Seq<char>, i: int) -> (int, int) {
    let j = nondigit_end(s, i + 3);
    let e = digit_end(s, j);
    (j, if e - j > 8 {
        j + 8
    } else {
        e
    })
}

pub open spec fn digits_match_at(s: Seq<char>, i: int) -> bool {
    &&& boundary_before(s, i)
    &&& 0 <= i < s.len()
    &&& is_digit(s[i])
    &&& 4 <= digit_end(s, i) - i <= 8
    &&& boundary_at(s, digit_end(s, i))
}

/// `r` is the verification-code text extracted from `s`.
pub open spec fn is_verification_code_of(s: Seq<char>, r: Option<Seq<char>>) -> bool {
    if exists|i: int| #[trigger] code_kw_match_at(s, i) {
        exists|i: int|
            {
                &&& #[trigger] code_kw_match_at(s, i)
                &&& forall|j: int| 0 <= j < i ==> !code_kw_match_at(s, j)
                &&& r == Some(s.subrange(code_kw_span(s, i).0, code_kw_span(s, i).1))
            }
    } else if otp_keyword_present(s) && (exists|i: int| #[trigger] digits_match_at(
        s,
        i,
    )) {
        exists|i: int|
            {
                &&& #[trigger] digits_match_at(s, i)
                &&& forall|j: int| 0 <= j < i ==> !digits_match_at(s, j)
                &&& r == Some(s.subrange(i, digit_end(s, i)))
            }
    } else {
        r is None
    }
}

fn code_kw_probe_at(hay: &Vec<char>, i: usize) -> (r: Option<(usize, usize)>)
    requires
        i < hay@.len(),
    ensures
        match r {
            Some(span) => code_kw_match_at(hay@, i as int) && (span.0 as int, span.1 as int)
                == code_kw_span(hay@, i as int) && span.0 <= span.1 <= hay@.len(),
            None => !code_kw_match_at(hay@, i as int),
        },
{
    proof {
        vstd::std_specs::vec::axiom_spec_len(hay);
        reveal_strlit("验证码");
        reveal_strlit("校验码");
        reveal_strlit("动态码");
        reveal_strlit("OTP");
    }
    let k1 = chars_vec("验证码");
    let k2 = chars_vec("校验码");
    let k3 = chars_vec("动态码");
    let k4 = chars_vec("OTP");
    let hit = match_at(hay, i, &k1) || match_at(hay, i, &k2) || match_at(hay, i, &k3) || match_at(
        hay,
        i,
        &k4,
    );
    if !hit {
        return None;
    }
    let j = scan_nondigit_end(hay, i + 3);
    if j - (i + 3) > 6 {
        return None;
    }
    if j >= hay.len() {
        return None;
    }
    let e = scan_digit_end(hay, j);
    proof {
        crate::text::lemma_nondigit_end(hay@, i + 3);
        crate::text::lemma_digit_end(hay@, j as int);
    }
    if e - j < 4 {
        return None;
    }
    let cap = if e - j > 8 {
        j + 8
    } else {
        e
    };
    Some((j, cap))
}

fn digits_probe_at(hay: &Vec<char>, i: usize) -> (r: Option<usize>)
    requires
        i < hay@.len(),
    ensures
        match r {
            Some(e) => digits_match_at(hay@, i as int) && e == digit_end(hay@, i as int) && i <= e
                <= hay@.len(),
            None => !digits_match_at(hay@, i as int),
        },
{
    if i > 0 && word_char(hay[i - 1]) {
        return None;
    }
    if !digit_char(hay[i]) {
        return None;
    }
    let e = scan_digit_end(hay, i);
    if e - i < 4 || e - i > 8 {
        return None;
    }
    if e < hay.len() && word_char(hay[e]) {
        return None;
    }
    Some(e)
}

/// The verification-code text of `content`: a digit group following an
/// OTP keyword within six non-digit characters, or, failing that, the
/// first free-standing group of four to eight digits provided an OTP
/// keyword occurs at all.
pub fn extract_verification_code(content: &str, hay: &Vec<char>) -> (r: Option<String>)
    requires
        hay@ == content@,
    ensures
        is_verification_code_of(content@, crate::schema::opt_view(r)),
{
    proof {
        reveal_strlit("验证码");
        reveal_strlit("校验码");
        reveal_strlit("动态码");
        reveal_strlit("OTP");
    }
    let mut i: usize = 0;
    while i < hay.len()
        invariant
            hay@ == content@,
            i <= hay@.len(),
            forall|j: int| 0 <= j < i ==> !code_kw_match_at(hay@, j),
        decreases hay@.len() - i,
    {
        match code_kw_probe_at(hay, i) {
            Some(span) => {
                return Some(String::from_str(content.substring_char(span.0, span.1)));
            },
            None => {},
        }
        i += 1;
    }
    proof {
        assert forall|j: int| !(#[trigger] code_kw_match_at(hay@, j)) by {
            if code_kw_match_at(hay@, j) {
                assert(0 <= j < hay@.len());
            }
        }
    }
    if !has_otp_keyword(hay) {
        return None;
    }
    let mut i: usize = 0;
    while i < hay.len()
        invariant
            hay@ == content@,
            i <= hay@.len(),
            forall|j: int| !code_kw_match_at(hay@, j),
            otp_keyword_present(hay@),
            forall|j: int| 0 <= j < i ==> !digits_match_at(hay@, j),
        decreases hay@.len() - i,
    {
        match digits_probe_at(hay, i) {
            Some(e) => {
                return Some(String::from_str(content.substring_char(i, e)));
            },
            None => {},
        }
        i += 1;
    }
    None
}

// ------------------------------------------------------------------
// Monetary values: a currency marker (￥, ¥, RMB, CNY), optional
// whitespace, then digits with an optional single . or , decimal part.
// The result is the numeric text with a comma separator removed.
// ------------------------------------------------------------------

pub open spec fn money_sym_len_at(s: Seq<char>, i: int) -> Option<int> {
    if matches_at(s, i, "￥"@) || matches_at(s, i, "¥"@) {
        Some(1)
    } else if matches_at(s, i, "RMB"@) || matches_at(s, i, "CNY"@) {
        Some(3)
    } else {
        None
    }
}

pub open spec fn money_match_at(s: Seq<char>, i: int) -> bool {
    match money_sym_len_at(s, i) {
        Some(l) => {
            let b = space_end(s, i + l);
            b < s.len() && is_digit(s[b])
        },
        None => false,
    }
}

/// The numeric text of a money match at `i`, commas stripped.
pub open spec fn money_num_text(s: Seq<char>, i: int) -> Seq<char> {
    let l = money_sym_len_at(s, i).unwrap();
    let b = space_end(s, i + l);
    let d = digit_end(s, b);
    if d < s.len() && (s[d] == '.' || s[d] == ',') && d + 1 < s.len() && is_digit(s[d + 1]) {
        let e = digit_end(s, d + 1);
        if s[d] == ',' {
            s.subrange(b, d) + s.subrange(d + 1, e)
        } else {
            s.subrange(b, e)
        }
    } else {
        s.subrange(b, d)
    }
}

/// The first position at or after `i` where a money pattern matches.
pub open spec fn first_money_from(s: Seq<char>, i: int) -> Option<int>
    decreases s.len() - i,
{
    if i >= s.len() {
        None
    } else if money_match_at(s, i) {
        Some(i)
    } else {
        first_money_from(s, i + 1)
    }
}

/// `r` is the numeric text of the leftmost money match when `ctx`
/// (the context-acceptance condition) holds, else `None`.
pub open spec fn is_money_of(s: Seq<char>, ctx: bool, r: Option<Seq<char>>) -> bool {
    if ctx {
        match first_money_from(s, 0) {
            Some(i) => r == Some(money_num_text(s, i)),
            None => r is None,
        }
    } else {
        r is None
    }
}

fn money_probe_at(hay: &Vec<char>, i: usize) -> (r: Option<(usize, usize, usize)>)
    requires
        i < hay@.len(),
    ensures
        match r {
            Some(t) => {
                &&& money_match_at(hay@, i as int)
                &&& t.0 <= t.1 <= t.2 <= hay@.len()
                &&& {
                    let b = t.0;
                    let d = t.1;
                    let e = t.2;
                    &&& b == space_end(hay@, i + money_sym_len_at(hay@, i as int).unwrap())
                    &&& d == digit_end(hay@, b as int)
                    &&& if e > d {
                        (hay@[d as int] == '.' || hay@[d as int] == ',') && d + 1 < hay@.len()
                            && is_digit(hay@[d + 1]) && e == digit_end(hay@, d + 1)
                    } else {
                        e == d && !(d < hay@.len() && (hay@[d as int] == '.' || hay@[d as int]
                            == ',') && d + 1 < hay@.len() && is_digit(hay@[d + 1]))
                    }
                }
            },
            None => !money_match_at(hay@, i as int),
        },
{
    proof {
        vstd::std_specs::vec::axiom_spec_len(hay);
        reveal_strlit("￥");
        reveal_strlit("¥");
        reveal_strlit("RMB");
        reveal_strlit("CNY");
    }
    let s1 = chars_vec("￥");
    let s2 = chars_vec("¥");
    let s3 = chars_vec("RMB");
    let s4 = chars_vec("CNY");
    let l: usize = if match_at(hay, i, &s1) || match_at(hay, i, &s2) {
        1
    } else if match_at(hay, i, &s3) || match_at(hay, i, &s4) {
        3
    } else {
        return None;
    };
    let b = scan_space_end(hay, i + l);
    if b >= hay.len() || !digit_char(hay[b]) {
        return None;
    }
    let d = scan_digit_end(hay, b);
    proof {
        crate::text::lemma_digit_end(hay@, b as int);
    }
    if d < hay.len() && (hay[d] == '.' || hay[d] == ',') && d + 1 < hay.len() && digit_char(
        hay[d + 1],
    ) {
        let e = scan_digit_end(hay, d + 1);
        proof {
            crate::text::lemma_digit_end(hay@, d + 1);
        }
        Some((b, d, e))
    } else {
        Some((b, d, d))
    }
}

/// The leftmost money value of `content` as numeric text, accepted
/// only under `ctx` (a context keyword or an explicit currency sign).
#[verifier::loop_isolation(false)]
pub fn extract_money(content: &str, hay: &Vec<char>, ctx: bool) -> (r: Option<String>)
    requires
        hay@ == content@,
    ensures
        is_money_of(content@, ctx, crate::schema::opt_view(r)),
{
    proof {
        reveal_strlit("￥");
        reveal_strlit("¥");
        reveal_strlit("RMB");
        reveal_strlit("CNY");
    }
    proof {
        vstd::std_specs::vec::axiom_spec_len(hay);
    }
    if !ctx {
        return None;
    }
    let mut i: usize = 0;
    while i < hay.len()
        invariant
            hay@ == content@,
            i <= hay@.len(),
            hay@.len() <= usize::MAX,
            first_money_from(hay@, 0) == first_money_from(hay@, i as int),
        decreases hay@.len() - i,
    {
        match money_probe_at(hay, i) {
            Some(t) => {
                let (b, d, e) = t;
                if e > d && hay[d] == ',' {
                    let mut out = String::from_str(content.substring_char(b, d));
                    out.append(content.substring_char(d + 1, e));
                    proof {
                        assert(money_num_text(hay@, i as int) == hay@.subrange(b as int, d as int)
                            + hay@.subrange(d + 1, e as int));
                        assert(first_money_from(hay@, 0) == Some(i as int));
                        assert(hay@ == content@);
                        assert(first_money_from(content@, 0) == Some(i as int));
                        assert(money_num_text(content@, i as int) == out@);
                        assert(is_money_of(content@, ctx, Some(out@)));
                    }
                    return Some(out);
                } else if e > d {
                    let out = String::from_str(content.substring_char(b, e));
                    proof {
                        assert(money_num_text(hay@, i as int) == hay@.subrange(
                            b as int,
                            e as int,
                        ));
                        assert(first_money_from(hay@, 0) == Some(i as int));
                        assert(hay@ == content@);
                        assert(first_money_from(content@, 0) == Some(i as int));
                        assert(money_num_text(content@, i as int) == out@);
                        assert(is_money_of(content@, ctx, Some(out@)));
                    }
                    return Some(out);
                } else {
                    let out = String::from_str(content.substring_char(b, d));
                    proof {
                        assert(money_num_text(hay@, i as int) == hay@.subrange(
                            b as int,
                            d as int,
                        ));
                        assert(first_money_from(hay@, 0) == Some(i as int));
                        assert(hay@ == content@);
                        assert(first_money_from(content@, 0) == Some(i as int));
                        assert(money_num_text(content@, i as int) == out@);
                        assert(is_money_of(content@, ctx, Some(out@)));
                    }
                    return Some(out);
                }
            },
            None => {},
        }
        i += 1;
    }
    None
}

// ------------------------------------------------------------------
// Account suffixes: 尾号 / 末四位 / 后四位, at most four non-digits,
// then three or more digits, captured up to six.
// ------------------------------------------------------------------

pub open spec fn suffix_kw_len_at(s: Seq<char>, i: int) -> Option<int> {
    if matches_at(s, i, "尾号"@) {
        Some(2)
    } else if matches_at(s, i, "末四位"@) || matches_at(s, i, "后四位"@) {
        Some(3)
    } else {
        None
    }
}

pub open spec fn suffix_match_at(s: Seq<char>, i: int) -> bool {
    match suffix_kw_len_at(s, i) {
        Some(l) => {
            let j = nondigit_end(s, i + l);
            j - (i + l) <= 4 && j < s.len() && digit_end(s, j) - j >= 3
        },
        None => false,
    }
}

/// The captured digit span for a suffix match at `i`.
pub open spec fn suffix_span(s: Seq<char>, i: int) -> (int, int) {
    let l = suffix_kw_len_at(s, i).unwrap();
    let j = nondigit_end(s, i + l);
    let e = digit_end(s, j);
    (j, if e - j > 6 {
        j + 6
    } else {
        e
    })
}

/// `r` is the account-suffix text extracted from `s`.
pub open spec fn is_suffix_of(s: Seq<char>, r: Option<Seq<char>>) -> bool {
    if exists|i: int| #[trigger] suffix_match_at(s, i) {
        exists|i: int|
            {
                &&& #[trigger] suffix_match_at(s, i)
                &&& forall|j: int| 0 <= j < i ==> !suffix_match_at(s, j)
                &&& r == Some(s.subrange(suffix_span(s, i).0, suffix_span(s, i).1))
            }
    } else {
        r is None
    }
}

fn suffix_probe_at(hay: &Vec<char>, i: usize) -> (r: Option<(usize, usize)>)
    requires
        i < hay@.len(),
    ensures
        match r {
            Some(span) => suffix_match_at(hay@, i as int) && (span.0 as int, span.1 as int)
                == suffix_span(hay@, i as int) && span.0 <= span.1 <= hay@.len(),
            None => !suffix_match_at(hay@, i as int),
        },
{
    proof {
        vstd::std_specs::vec::axiom_spec_len(hay);
        reveal_strlit("尾号");
        reveal_strlit("末四位");
        reveal_strlit("后四位");
    }
    let k1 = chars_vec("尾号");
    let k2 = chars_vec("末四位");
    let k3 = chars_vec("后四位");
    let l: usize = if match_at(hay, i, &k1) {
        2
    } else if match_at(hay, i, &k2) || match_at(hay, i, &k3) {
        3
    } else {
        return None;
    };
    let j = scan_nondigit_end(hay, i + l);
    if j - (i + l) > 4 {
        return None;
    }
    if j >= hay.len() {
        return None;
    }
    let e = scan_digit_end(hay, j);
    proof {
        crate::text::lemma_digit_end(hay@, j as int);
    }
    if e - j < 3 {
        return None;
    }
    let cap = if e - j > 6 {
        j + 6
    } else {
        e
    };
    Some((j, cap))
}

/// The account-suffix text of `content`: the digits after 尾号, 末四位
/// or 后四位.
pub fn extract_account_suffix(content: &str, hay: &Vec<char>) -> (r: Option<String>)
    requires
        hay@ == content@,
    ensures
        is_suffix_of(content@, crate::schema::opt_view(r)),
{
    let mut i: usize = 0;
    while i < hay.len()
        invariant
            hay@ == content@,
            i <= hay@.len(),
            forall|j: int| 0 <= j < i ==> !suffix_match_at(hay@, j),
        decreases hay@.len() - i,
    {
        match suffix_probe_at(hay, i) {
            Some(span) => {
                return Some(String::from_str(content.substring_char(span.0, span.1)));
            },
            None => {},
        }
        i += 1;
    }
    proof {
        reveal_strlit("尾号");
        reveal_strlit("末四位");
        reveal_strlit("后四位");
        assert forall|j: int| !(#[trigger] suffix_match_at(hay@, j)) by {
            if suffix_match_at(hay@, j) {
                assert(0 <= j < hay@.len());
            }
        }
    }
    None
}

// ------------------------------------------------------------------
// Date/time text: either a date `\u{5e74}`-style or `-/.`-separated
// `YYYY sep M sep D`, optionally suffixed with 日 and a clock time, or
// a bare clock time `H:MM(:SS)?`; both delimited by word boundaries.
// Greedy alternatives are tried longest-first, falling back exactly
// where a shorter variant can still complete the match.
// ------------------------------------------------------------------

pub open spec fn date_sep1(c: char) -> bool {
    c == '-' || c == '/' || c == '.' || c == '年'
}

pub open spec fn date_sep2(c: char) -> bool {
    c == '-' || c == '/' || c == '.' || c == '月'
}

/// End of a `\d{1,2}:\d{2}` clock prefix starting at `i`, two-digit
/// hour preferred.
pub open spec fn hm_end(s: Seq<char>, i: int) -> Option<int> {
    if i >= 0 && i + 5 <= s.len() && is_digit(s[i]) && is_digit(s[i + 1]) && s[i + 2] == ':'
        && is_digit(s[i + 3]) && is_digit(s[i + 4]) {
        Some(i + 5)
    } else if i >= 0 && i + 4 <= s.len() && is_digit(s[i]) && s[i + 1] == ':' && is_digit(
        s[i + 2],
    ) && is_digit(s[i + 3]) {
        Some(i + 4)
    } else {
        None
    }
}

/// End of a clock time whose minutes end at `m`: seconds are taken
/// when present and followed by a boundary, otherwise the time ends at
/// the minutes if a boundary follows there.
pub open spec fn time_end_from(s: Seq<char>, m: int) -> Option<int> {
    if m + 3 <= s.len() && s[m] == ':' && is_digit(s[m + 1]) && is_digit(s[m + 2]) && boundary_at(
        s,
        m + 3,
    ) {
        Some(m + 3)
    } else if boundary_at(s, m) {
        Some(m)
    } else {
        None
    }
}

/// End of a bare clock-time match starting at `i`.
pub open spec fn bare_time_end_at(s: Seq<char>, i: int) -> Option<int> {
    if boundary_before(s, i) {
        match hm_end(s, i) {
            Some(m) => time_end_from(s, m),
            None => None,
        }
    } else {
        None
    }
}

/// End of a date match after the day digits ending at `q`: an optional
/// 日, then an optional clock time, then a word boundary.
pub open spec fn after_day(s: Seq<char>, q: int) -> Option<int> {
    let q2 = if q < s.len() && s[q] == '日' {
        q + 1
    } else {
        q
    };
    let b = space_end(s, q2);
    let with_time = if b < s.len() && is_digit(s[b]) {
        match hm_end(s, b) {
            Some(m) => time_end_from(s, m),
            None => None,
        }
    } else {
        None
    };
    match with_time {
        Some(e) => Some(e),
        None => if boundary_at(s, q2) {
            Some(q2)
        } else {
            None
        },
    }
}

/// End of a date match from the day digits at `q`: a two-digit day is
/// preferred, a one-digit day is the fallback.
pub open spec fn day_part(s: Seq<char>, q: int) -> Option<int> {
    let two = if q >= 0 && q + 2 <= s.len() && is_digit(s[q]) && is_digit(s[q + 1]) {
        after_day(s, q + 2)
    } else {
        None
    };
    match two {
        Some(e) => Some(e),
        None => if q >= 0 && q + 1 <= s.len() && is_digit(s[q]) {
            after_day(s, q + 1)
        } else {
            None
        },
    }
}

/// End of a full date(-time) match starting at `i`.
pub open spec fn date_end_at(s: Seq<char>, i: int) -> Option<int> {
    if boundary_before(s, i) && i >= 0 && i + 5 <= s.len() && is_digit(s[i]) && is_digit(s[i + 1])
        && is_digit(s[i + 2]) && is_digit(s[i + 3]) && date_sep1(s[i + 4]) {
        let p = i + 5;
        if p + 3 <= s.len() && is_digit(s[p]) && is_digit(s[p + 1]) && date_sep2(s[p + 2]) {
            day_part(s, p + 3)
        } else if p + 2 <= s.len() && is_digit(s[p]) && date_sep2(s[p + 1]) {
            day_part(s, p + 2)
        } else {
            None
        }
    } else {
        None
    }
}

/// End of a time-text match starting at `i`: a date match is preferred
/// over a bare clock time.
pub open spec fn time_match_at(s: Seq<char>, i: int) -> Option<int> {
    match date_end_at(s, i) {
        Some(e) => Some(e),
        None => bare_time_end_at(s, i),
    }
}

/// `r` is the text of the leftmost date/time match.
pub open spec fn is_time_of(s: Seq<char>, r: Option<Seq<char>>) -> bool {
    if exists|i: int| (#[trigger] time_match_at(s, i)) is Some {
        exists|i: int|
            {
                &&& (#[trigger] time_match_at(s, i)) is Some
                &&& forall|j: int| 0 <= j < i ==> time_match_at(s, j) is None
                &&& r == Some(s.subrange(i, time_match_at(s, i).unwrap()))
            }
    } else {
        r is None
    }
}

fn hm_probe(hay: &Vec<char>, i: usize) -> (r: Option<usize>)
    requires
        i <= hay@.len(),
    ensures
        o2i(r) == hm_end(hay@, i as int),
        match r {
            Some(m) => i <= m <= hay@.len(),
            None => true,
        },
{
    if hay.len() - i >= 5 && digit_char(hay[i]) && digit_char(hay[i + 1]) && hay[i + 2] == ':'
        && digit_char(hay[i + 3]) && digit_char(hay[i + 4]) {
        Some(i + 5)
    } else if hay.len() - i >= 4 && digit_char(hay[i]) && hay[i + 1] == ':' && digit_char(
        hay[i + 2],
    ) && digit_char(hay[i + 3]) {
        Some(i + 4)
    } else {
        None
    }
}

fn time_end_probe(hay: &Vec<char>, m: usize) -> (r: Option<usize>)
    requires
        m <= hay@.len(),
    ensures
        o2i(r) == time_end_from(hay@, m as int),
        match r {
            Some(e) => m <= e <= hay@.len(),
            None => true,
        },
{
    if hay.len() - m >= 3 && hay[m] == ':' && digit_char(hay[m + 1]) && digit_char(hay[m + 2]) && (
    m + 3 == hay.len() || !word_char(hay[m + 3])) {
        Some(m + 3)
    } else if m == hay.len() || !word_char(hay[m]) {
        Some(m)
    } else {
        None
    }
}

fn after_day_probe(hay: &Vec<char>, q: usize) -> (r: Option<usize>)
    requires
        q <= hay@.len(),
    ensures
        o2i(r) == after_day(hay@, q as int),
        match r {
            Some(e) => q <= e <= hay@.len(),
            None => true,
        },
{
    let q2 = if q < hay.len() && hay[q] == '日' {
        q + 1
    } else {
        q
    };
    let b = scan_space_end(hay, q2);
    let with_time: Option<usize> = if b < hay.len() && digit_char(hay[b]) {
        match hm_probe(hay, b) {
            Some(m) => time_end_probe(hay, m),
            None => None,
        }
    } else {
        None
    };
    match with_time {
        Some(e) => Some(e),
        None => if q2 == hay.len() || !word_char(hay[q2]) {
            Some(q2)
        } else {
            None
        },
    }
}

fn day_part_probe(hay: &Vec<char>, q: usize) -> (r: Option<usize>)
    requires
        q <= hay@.len(),
    ensures
        o2i(r) == day_part(hay@, q as int),
        match r {
            Some(e) => q <= e <= hay@.len(),
            None => true,
        },
{
    let two: Option<usize> = if hay.len() - q >= 2 && digit_char(hay[q]) && digit_char(
        hay[q + 1],
    ) {
        after_day_probe(hay, q + 2)
    } else {
        None
    };
    match two {
        Some(e) => Some(e),
        None => if hay.len() - q >= 1 && digit_char(hay[q]) {
            after_day_probe(hay, q + 1)
        } else {
            None
        },
    }
}

fn time_probe_at(hay: &Vec<char>, i: usize) -> (r: Option<usize>)
    requires
        i < hay@.len(),
    ensures
        o2i(r) == time_match_at(hay@, i as int),
        match r {
            Some(e) => i <= e <= hay@.len(),
            None => true,
        },
{
    let date: Option<usize> = if (i == 0 || !word_char(hay[i - 1])) && hay.len() - i >= 5
        && digit_char(hay[i]) && digit_char(hay[i + 1]) && digit_char(hay[i + 2]) && digit_char(
        hay[i + 3],
    ) && (hay[i + 4] == '-' || hay[i + 4] == '/' || hay[i + 4] == '.' || hay[i + 4] == '年') {
        let p = i + 5;
        if hay.len() - p >= 3 && digit_char(hay[p]) && digit_char(hay[p + 1]) && (hay[p + 2] == '-'
            || hay[p + 2] == '/' || hay[p + 2] == '.' || hay[p + 2] == '月') {
            day_part_probe(hay, p + 3)
        } else if hay.len() - p >= 2 && digit_char(hay[p]) && (hay[p + 1] == '-' || hay[p + 1]
            == '/' || hay[p + 1] == '.' || hay[p + 1] == '月') {
            day_part_probe(hay, p + 2)
        } else {
            None
        }
    } else {
        None
    };
    match date {
        Some(e) => Some(e),
        None => {
            proof {
                assert(date_end_at(hay@, i as int) is None);
            }
            if i == 0 || !word_char(hay[i - 1]) {
                match hm_probe(hay, i) {
                    Some(m) => time_end_probe(hay, m),
                    None => None,
                }
            } else {
                None
            }
        },
    }
}

/// The text of the leftmost date or clock-time match in `content`.
pub fn extract_time_text(content: &str, hay: &Vec<char>) -> (r: Option<String>)
    requires
        hay@ == content@,
    ensures
        is_time_of(content@, crate::schema::opt_view(r)),
{
    let mut i: usize = 0;
    while i < hay.len()
        invariant
            hay@ == content@,
            i <= hay@.len(),
            forall|j: int| 0 <= j < i ==> time_match_at(hay@, j) is None,
        decreases hay@.len() - i,
    {
        match time_probe_at(hay, i) {
            Some(e) => {
                return Some(String::from_str(content.substring_char(i, e)));
            },
            None => {},
        }
        i += 1;
    }
    proof {
        assert forall|j: int| (#[trigger] time_match_at(hay@, j)) is Some implies false by {
            assert(0 <= j < hay@.len());
        }
    }
    None
}


// ------------------------------------------------------------------
// Mention flags, computed at message insert time.
// ------------------------------------------------------------------

/// A money amount written with a unit suffix (元, 块, 人民币) after
/// the digits, with optional decimals and whitespace.
pub open spec fn suffix_money_at(s: Seq<char>, i: int) -> bool {
    0 <= i < s.len() && is_digit(s[i]) && {
        let d = digit_end(s, i);
        let e = if d < s.len() && (s[d] == '.' || s[d] == ',') && d + 1 < s.len() && is_digit(
            s[d + 1],
        ) {
            digit_end(s, d + 1)
        } else {
            d
        };
        let b = space_end(s, e);
        matches_at(s, b, "元"@) || matches_at(s, b, "块"@) || matches_at(s, b, "人民币"@)
    }
}

fn suffix_money_probe_at(hay: &Vec<char>, i: usize) -> (b: bool)
    requires
        i < hay@.len(),
    ensures
        b == suffix_money_at(hay@, i as int),
{
    proof {
        vstd::std_specs::vec::axiom_spec_len(hay);
    }
    if !digit_char(hay[i]) {
        return false;
    }
    let d = scan_digit_end(hay, i);
    let e = if d < hay.len() && (hay[d] == '.' || hay[d] == ',') && d + 1 < hay.len()
        && digit_char(hay[d + 1]) {
        scan_digit_end(hay, d + 1)
    } else {
        d
    };
    let b = scan_space_end(hay, e);
    let k1 = chars_vec("元");
    let k2 = chars_vec("块");
    let k3 = chars_vec("人民币");
    match_at(hay, b, &k1) || match_at(hay, b, &k2) || match_at(hay, b, &k3)
}

/// A URL occurs somewhere in `s`.
pub open spec fn url_mentioned(s: Seq<char>) -> bool {
    exists|i: int| #[trigger] url_match_at(s, i)
}

/// Whether a URL occurs in `hay`.
pub fn has_url_mention(hay: &Vec<char>) -> (b: bool)
    ensures
        b == url_mentioned(hay@),
{
    find_url(hay).is_some()
}

/// A money amount (currency-prefixed or unit-suffixed) occurs in `s`.
pub open spec fn amount_mentioned(s: Seq<char>) -> bool {
    (exists|i: int| #[trigger] money_match_at(s, i)) || (exists|i: int| #[trigger] suffix_money_at(
        s,
        i,
    ))
}

/// Whether a money amount occurs in `hay`.
pub fn has_amount_mention(hay: &Vec<char>) -> (b: bool)
    ensures
        b == amount_mentioned(hay@),
{
    proof {
        reveal_strlit("￥");
        reveal_strlit("¥");
        reveal_strlit("RMB");
        reveal_strlit("CNY");
    }
    let mut i: usize = 0;
    while i < hay.len()
        invariant
            i <= hay@.len(),
            forall|j: int| 0 <= j < i ==> !money_match_at(hay@, j),
            forall|j: int| 0 <= j < i ==> !suffix_money_at(hay@, j),
        decreases hay@.len() - i,
    {
        match money_probe_at(hay, i) {
            Some(_) => {
                return true;
            },
            None => {},
        }
        if suffix_money_probe_at(hay, i) {
            return true;
        }
        i += 1;
    }
    proof {
        assert forall|j: int| !(#[trigger] money_match_at(hay@, j)) by {
            if money_match_at(hay@, j) {
                assert(0 <= j < hay@.len());
            }
        }
        assert forall|j: int| !(#[trigger] suffix_money_at(hay@, j)) by {
            if suffix_money_at(hay@, j) {
                assert(0 <= j < hay@.len());
            }
        }
    }
    false
}

/// A boundary-delimited four-to-eight digit token occurs in `s`.
pub open spec fn code_token_mentioned(s: Seq<char>) -> bool {
    exists|i: int| #[trigger] digits_match_at(s, i)
}

/// Whether a boundary-delimited four-to-eight digit token occurs.
pub fn has_code_token(hay: &Vec<char>) -> (b: bool)
    ensures
        b == code_token_mentioned(hay@),
{
    let mut i: usize = 0;
    while i < hay.len()
        invariant
            i <= hay@.len(),
            forall|j: int| 0 <= j < i ==> !digits_match_at(hay@, j),
        decreases hay@.len() - i,
    {
        match digits_probe_at(hay, i) {
            Some(_) => {
                return true;
            },
            None => {},
        }
        i += 1;
    }
    false
}


} // verus!
