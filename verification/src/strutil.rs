//! Verified string helpers: decimal rendering, zero-padding, whitespace
//! trimming, newline replacement and substring search.  These back the
//! notification texts, the on-disk episode names and the listing filters.

use vstd::prelude::*;

verus! {

/// Relies on `String::push`: appends the given `char` to the end of the
/// string.
#[verifier::external_body]
pub fn push_char(s: &mut String, c: char)
    ensures
        final(s)@ == old(s)@.push(c),
{
    s.push(c);
}

/// The decimal digit character for `d`.
pub open spec fn digit_char(d: int) -> char {
    seq!['0', '1', '2', '3', '4', '5', '6', '7', '8', '9'][d]
}

/// The decimal rendering of `n`, most significant digit first, with no
/// leading zeros (a lone `'0'` for zero).
pub open spec fn dec_digits(n: int) -> Seq<char>
    decreases n,
{
    if n < 10 {
        seq![digit_char(n)]
    } else {
        dec_digits(n / 10).push(digit_char(n % 10))
    }
}

fn digit_of(d: u64) -> (c: char)
    requires
        d < 10,
    ensures
        c == digit_char(d as int),
{
    match d {
        0 => '0',
        1 => '1',
        2 => '2',
        3 => '3',
        4 => '4',
        5 => '5',
        6 => '6',
        7 => '7',
        8 => '8',
        _ => '9',
    }
}

/// Renders `n` in decimal.
pub fn u64_to_dec(n: u64) -> (r: String)
    ensures
        r@ == dec_digits(n as int),
    decreases n,
{
    if n < 10 {
        let mut r = String::new();
        push_char(&mut r, digit_of(n));
        r
    } else {
        let mut r = u64_to_dec(n / 10);
        push_char(&mut r, digit_of(n % 10));
        r
    }
}

/// The two-character, zero-padded decimal rendering of `n < 100`.
pub open spec fn two_digits(n: int) -> Seq<char> {
    seq![digit_char(n / 10), digit_char(n % 10)]
}

/// Renders `n` as exactly two digits, zero-padded.
pub fn u64_to_two_digits(n: u64) -> (r: String)
    requires
        n < 100,
    ensures
        r@ == two_digits(n as int),
{
    let mut r = String::new();
    push_char(&mut r, digit_of(n / 10));
    push_char(&mut r, digit_of(n % 10));
    proof {
        assert(r@ =~= two_digits(n as int));
    }
    r
}

/// The four-character, zero-padded decimal rendering of `n < 10000`.
pub open spec fn four_digits(n: int) -> Seq<char> {
    seq![
        digit_char(n / 1000),
        digit_char((n / 100) % 10),
        digit_char((n / 10) % 10),
        digit_char(n % 10),
    ]
}

/// Renders `n` as exactly four digits, zero-padded.
pub fn u64_to_four_digits(n: u64) -> (r: String)
    requires
        n < 10000,
    ensures
        r@ == four_digits(n as int),
{
    let mut r = String::new();
    push_char(&mut r, digit_of(n / 1000));
    push_char(&mut r, digit_of((n / 100) % 10));
    push_char(&mut r, digit_of((n / 10) % 10));
    push_char(&mut r, digit_of(n % 10));
    proof {
        assert(r@ =~= four_digits(n as int));
    }
    r
}

/// Whether `c` carries the Unicode `White_Space` property, the class the
/// standard library's `trim` strips.
pub open spec fn spec_is_space(c: char) -> bool {
    c == ' ' || c == '\t' || c == '\n' || c == '\r' || c == '\u{b}' || c == '\u{c}' || c == '\u{85}'
        || c == '\u{a0}' || c == '\u{1680}' || c == '\u{2000}' || c == '\u{2001}' || c == '\u{2002}'
        || c == '\u{2003}' || c == '\u{2004}' || c == '\u{2005}' || c == '\u{2006}' || c
        == '\u{2007}' || c == '\u{2008}' || c == '\u{2009}' || c == '\u{200a}' || c == '\u{2028}'
        || c == '\u{2029}' || c == '\u{202f}' || c == '\u{205f}' || c == '\u{3000}'
}

/// Whether `c` is whitespace.
pub fn is_space(c: char) -> (r: bool)
    ensures
        r == spec_is_space(c),
{
    c == ' ' || c == '\t' || c == '\n' || c == '\r' || c == '\u{b}' || c == '\u{c}' || c == '\u{85}'
        || c == '\u{a0}' || c == '\u{1680}' || c == '\u{2000}' || c == '\u{2001}' || c == '\u{2002}'
        || c == '\u{2003}' || c == '\u{2004}' || c == '\u{2005}' || c == '\u{2006}' || c
        == '\u{2007}' || c == '\u{2008}' || c == '\u{2009}' || c == '\u{200a}' || c == '\u{2028}'
        || c == '\u{2029}' || c == '\u{202f}' || c == '\u{205f}' || c == '\u{3000}'
}

/// `s` with its leading whitespace removed.
pub open spec fn trim_front(s: Seq<char>) -> Seq<char>
    decreases s.len(),
{
    if s.len() > 0 && spec_is_space(s[0]) {
        trim_front(s.subrange(1, s.len() as int))
    } else {
        s
    }
}

/// `s` with its trailing whitespace removed.
pub open spec fn trim_back(s: Seq<char>) -> Seq<char>
    decreases s.len(),
{
    if s.len() > 0 && spec_is_space(s[s.len() - 1]) {
        trim_back(s.subrange(0, s.len() - 1))
    } else {
        s
    }
}

/// `s` with leading and trailing whitespace removed, as `str::trim`
/// computes it.
pub open spec fn trimmed(s: Seq<char>) -> Seq<char> {
    trim_back(trim_front(s))
}

proof fn lemma_trim_front_is_subrange(s: Seq<char>, k: int)
    requires
        0 <= k <= s.len(),
        forall|m: int| 0 <= m < k ==> spec_is_space(s[m]),
        k == s.len() || !spec_is_space(s[k]),
    ensures
        trim_front(s) =~= s.subrange(k, s.len() as int),
    decreases k,
{
    if k == 0 {
        assert(s.subrange(0, s.len() as int) =~= s);
    } else {
        let t = s.subrange(1, s.len() as int);
        lemma_trim_front_is_subrange(t, k - 1);
        assert(t.subrange(k - 1, t.len() as int) =~= s.subrange(k, s.len() as int));
    }
}

proof fn lemma_trim_back_is_subrange(s: Seq<char>, j: int)
    requires
        0 <= j <= s.len(),
        forall|m: int| j <= m < s.len() ==> spec_is_space(s[m]),
        j == 0 || !spec_is_space(s[j - 1]),
    ensures
        trim_back(s) =~= s.subrange(0, j),
    decreases s.len() - j,
{
    if j == s.len() {
        assert(s.subrange(0, s.len() as int) =~= s);
    } else {
        let t = s.subrange(0, s.len() - 1);
        lemma_trim_back_is_subrange(t, j);
        assert(t.subrange(0, j) =~= s.subrange(0, j));
    }
}

/// Removes leading and trailing whitespace.
pub fn trim_str(s: &str) -> (r: String)
    ensures
        r@ == trimmed(s@),
{
    let len = s.unicode_len();
    let mut i: usize = 0;
    while i < len && is_space(s.get_char(i))
        invariant
            i <= len,
            len == s@.len(),
            forall|m: int| 0 <= m < i ==> spec_is_space(s@[m]),
        decreases len - i,
    {
        i = i + 1;
    }
    let mut j: usize = len;
    while j > i && is_space(s.get_char(j - 1))
        invariant
            i <= j <= len,
            len == s@.len(),
            forall|m: int| 0 <= m < i ==> spec_is_space(s@[m]),
            i == len || !spec_is_space(s@[i as int]),
            forall|m: int| j <= m < len ==> spec_is_space(s@[m]),
        decreases j,
    {
        j = j - 1;
    }
    let r = String::from_str(s.substring_char(i, j));
    proof {
        lemma_trim_front_is_subrange(s@, i as int);
        let t = s@.subrange(i as int, s@.len() as int);
        lemma_trim_back_is_subrange(t, j - i);
        assert(t.subrange(0, j - i) =~= s@.subrange(i as int, j as int));
    }
    r
}

/// `s` with every newline replaced by a space.
pub open spec fn newlines_to_spaces(s: Seq<char>) -> Seq<char> {
    Seq::new(s.len(), |i: int| if s[i] == '\n' { ' ' } else { s[i] })
}

/// Replaces every newline in `s` with a space.
pub fn replace_newlines(s: &str) -> (r: String)
    ensures
        r@ == newlines_to_spaces(s@),
{
    let len = s.unicode_len();
    let mut r = String::new();
    let mut i: usize = 0;
    while i < len
        invariant
            i <= len,
            len == s@.len(),
            r@ =~= newlines_to_spaces(s@).subrange(0, i as int),
        decreases len - i,
    {
        let c = s.get_char(i);
        if c == '\n' {
            push_char(&mut r, ' ');
        } else {
            push_char(&mut r, c);
        }
        proof {
            assert(r@ =~= newlines_to_spaces(s@).subrange(0, i + 1));
        }
        i = i + 1;
    }
    proof {
        assert(newlines_to_spaces(s@).subrange(0, len as int) =~= newlines_to_spaces(s@));
    }
    r
}

/// Whether `needle` occurs in `hay` starting at index `k`.
pub open spec fn is_sub_at(hay: Seq<char>, needle: Seq<char>, k: int) -> bool {
    0 <= k && k + needle.len() <= hay.len() && hay.subrange(k, k + needle.len() as int) == needle
}

/// Whether `needle` occurs anywhere in `hay`.
pub open spec fn contains_sub(hay: Seq<char>, needle: Seq<char>) -> bool {
    exists|k: int| is_sub_at(hay, needle, k)
}

fn matches_at(hay: &str, needle: &str, k: usize) -> (r: bool)
    requires
        k + needle@.len() <= hay@.len(),
        hay@.len() <= usize::MAX,
    ensures
        r == is_sub_at(hay@, needle@, k as int),
{
    let n = needle.unicode_len();
    let mut m: usize = 0;
    while m < n
        invariant
            m <= n,
            n == needle@.len(),
            k + n <= hay@.len(),
            hay@.len() <= usize::MAX,
            forall|p: int| 0 <= p < m ==> hay@[k + p] == needle@[p],
        decreases n - m,
    {
        if hay.get_char(k + m) != needle.get_char(m) {
            proof {
                assert(hay@.subrange(k as int, k + n) != needle@) by {
                    assert(hay@.subrange(k as int, k + n)[m as int] == hay@[k + m]);
                }
            }
            return false;
        }
        m = m + 1;
    }
    proof {
        assert(hay@.subrange(k as int, k + n) =~= needle@);
    }
    true
}

/// Substring search: whether `needle` occurs anywhere in `hay`.
pub fn str_contains(hay: &str, needle: &str) -> (r: bool)
    ensures
        r == contains_sub(hay@, needle@),
{
    let h = hay.unicode_len();
    let n = needle.unicode_len();
    if n > h {
        proof {
            assert(forall|k: int| !is_sub_at(hay@, needle@, k));
        }
        return false;
    }
    let mut k: usize = 0;
    loop
        invariant_except_break
            n <= h,
            h == hay@.len(),
            n == needle@.len(),
            k <= h - n,
            forall|p: int| 0 <= p < k ==> !is_sub_at(hay@, needle@, p),
        ensures
            forall|p: int| !is_sub_at(hay@, needle@, p),
        decreases h - n - k,
    {
        if matches_at(hay, needle, k) {
            return true;
        }
        if k == h - n {
            proof {
                assert(forall|p: int| is_sub_at(hay@, needle@, p) ==> 0 <= p <= h - n);
            }
            break;
        }
        k = k + 1;
    }
    false
}

/// The largest index at which `needle` occurs in `hay`, if any.
pub fn str_find_last(hay: &str, needle: &str) -> (r: Option<usize>)
    ensures
        match r {
            Some(k) => is_sub_at(hay@, needle@, k as int) && forall|p: int|
                k < p ==> !is_sub_at(hay@, needle@, p),
            None => !contains_sub(hay@, needle@),
        },
{
    let h = hay.unicode_len();
    let n = needle.unicode_len();
    if n > h {
        proof {
            assert(forall|k: int| !is_sub_at(hay@, needle@, k));
        }
        return None;
    }
    let mut k: usize = h - n;
    proof {
        assert(forall|p: int| is_sub_at(hay@, needle@, p) ==> 0 <= p <= h - n);
    }
    loop
        invariant_except_break
            n <= h,
            h == hay@.len(),
            n == needle@.len(),
            k <= h - n,
            forall|p: int| k < p ==> !is_sub_at(hay@, needle@, p),
        ensures
            !contains_sub(hay@, needle@),
        decreases k,
    {
        if matches_at(hay, needle, k) {
            return Some(k);
        }
        if k == 0 {
            break;
        }
        k = k - 1;
    }
    None
}

/// The tail of a separated join: `sep` before each part from `i` on.
pub open spec fn join_from(parts: Seq<Seq<char>>, sep: Seq<char>, i: int) -> Seq<char>
    decreases parts.len() - i,
{
    if i < 0 || i >= parts.len() {
        Seq::empty()
    } else {
        sep + parts[i] + join_from(parts, sep, i + 1)
    }
}

/// The parts joined with `sep` between neighbours.
pub open spec fn spec_join(parts: Seq<Seq<char>>, sep: Seq<char>) -> Seq<char> {
    if parts.len() == 0 {
        Seq::empty()
    } else {
        parts[0] + join_from(parts, sep, 1)
    }
}

/// Joins the parts with `sep` between neighbours.
pub fn join_parts(parts: &Vec<String>, sep: &str) -> (r: String)
    ensures
        r@ == spec_join(parts.deep_view(), sep@),
{
    let n = parts.len();
    let mut acc = String::new();
    let mut i: usize = n;
    while i > 1
        invariant
            1 <= i <= n || (n == 0 && i == 0),
            n == parts@.len(),
            acc@ == join_from(parts.deep_view(), sep@, i as int),
        decreases i,
    {
        i = i - 1;
        let mut t = String::from_str(sep);
        t.append(parts[i].as_str());
        t.append(acc.as_str());
        proof {
            assert(parts.deep_view()[i as int] == parts@[i as int]@);
        }
        acc = t;
    }
    if n == 0 {
        acc
    } else {
        let mut r = parts[0].clone();
        r.append(acc.as_str());
        proof {
            assert(parts.deep_view()[0] == parts@[0]@);
        }
        r
    }
}

/// Whether `s` ends with `suffix`.
pub open spec fn ends_with(s: Seq<char>, suffix: Seq<char>) -> bool {
    s.len() >= suffix.len() && s.subrange(s.len() - suffix.len(), s.len() as int) == suffix
}

/// Whether `s` ends with `suffix`.
pub fn str_ends_with(s: &str, suffix: &str) -> (r: bool)
    ensures
        r == ends_with(s@, suffix@),
{
    let sl = s.unicode_len();
    let nl = suffix.unicode_len();
    if nl > sl {
        return false;
    }
    matches_at(s, suffix, sl - nl)
}

} // verus!
