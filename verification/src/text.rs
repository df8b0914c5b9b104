//! Character-level text handling shared by the services: whitespace
//! trimming, ASCII case folding and comparisons, stated over `Seq<char>`.
use vstd::prelude::*;

verus! {

/// The Unicode `White_Space` property, which `char::is_whitespace` tests.
pub open spec fn is_ws(c: char) -> bool {
    let u = c as u32;
    ||| 9 <= u <= 13
    ||| u == 32
    ||| u == 0x85
    ||| u == 0xA0
    ||| u == 0x1680
    ||| 0x2000 <= u <= 0x200A
    ||| u == 0x2028
    ||| u == 0x2029
    ||| u == 0x202F
    ||| u == 0x205F
    ||| u == 0x3000
}

/// Drops the whitespace at the front of `s`.
pub open spec fn trim_start_seq(s: Seq<char>) -> Seq<char>
    decreases s.len(),
{
    if s.len() > 0 && is_ws(s[0]) {
        trim_start_seq(s.drop_first())
    } else {
        s
    }
}

/// Drops the whitespace at the back of `s`.
pub open spec fn trim_end_seq(s: Seq<char>) -> Seq<char>
    decreases s.len(),
{
    if s.len() > 0 && is_ws(s.last()) {
        trim_end_seq(s.drop_last())
    } else {
        s
    }
}

/// `s` without leading and trailing whitespace, as `str::trim` gives it.
pub open spec fn trim_seq(s: Seq<char>) -> Seq<char> {
    trim_end_seq(trim_start_seq(s))
}

/// True when `s` holds a character that is not whitespace.
pub open spec fn has_text_seq(s: Seq<char>) -> bool {
    trim_seq(s).len() > 0
}

pub open spec fn ascii_upper_char(c: char) -> char {
    if 'a' <= c && c <= 'z' {
        ((c as u32) - 32) as char
    } else {
        c
    }
}

pub open spec fn ascii_lower_char(c: char) -> char {
    if 'A' <= c && c <= 'Z' {
        ((c as u32) + 32) as char
    } else {
        c
    }
}

/// `s` with each ASCII lower-case letter made upper-case, as
/// `str::to_ascii_uppercase` gives it.
pub open spec fn ascii_upper(s: Seq<char>) -> Seq<char> {
    s.map_values(|c: char| ascii_upper_char(c))
}

/// `s` with each ASCII upper-case letter made lower-case, as
/// `str::to_ascii_lowercase` gives it.
pub open spec fn ascii_lower(s: Seq<char>) -> Seq<char> {
    s.map_values(|c: char| ascii_lower_char(c))
}

/// The key by which the services match a keyword typed by a person:
/// trimmed, then ASCII upper-case.
pub open spec fn upper_key(s: Seq<char>) -> Seq<char> {
    ascii_upper(trim_seq(s))
}

/// Trimmed, then ASCII lower-case.
pub open spec fn lower_key(s: Seq<char>) -> Seq<char> {
    ascii_lower(trim_seq(s))
}

pub fn is_whitespace(c: char) -> (b: bool)
    ensures
        b == is_ws(c),
{
    let u = c as u32;
    (9 <= u && u <= 13) || u == 32 || u == 0x85 || u == 0xA0 || u == 0x1680 || (0x2000 <= u && u
        <= 0x200A) || u == 0x2028 || u == 0x2029 || u == 0x202F || u == 0x205F || u == 0x3000
}

proof fn lemma_trim_start(s: Seq<char>, i: int)
    requires
        0 <= i <= s.len(),
        forall|j: int| 0 <= j < i ==> is_ws(#[trigger] s[j]),
        i == s.len() || !is_ws(s[i]),
    ensures
        trim_start_seq(s) == s.subrange(i, s.len() as int),
    decreases i,
{
    if i == 0 {
        assert(s.subrange(0, s.len() as int) =~= s);
    } else {
        let t = s.drop_first();
        assert forall|j: int| 0 <= j < i - 1 implies is_ws(#[trigger] t[j]) by {
            assert(t[j] == s[j + 1]);
        }
        lemma_trim_start(t, i - 1);
        assert(t.subrange(i - 1, t.len() as int) =~= s.subrange(i, s.len() as int));
    }
}

proof fn lemma_trim_end(s: Seq<char>, k: int)
    requires
        0 <= k <= s.len(),
        forall|j: int| k <= j < s.len() ==> is_ws(#[trigger] s[j]),
        k == 0 || !is_ws(s[k - 1]),
    ensures
        trim_end_seq(s) == s.subrange(0, k),
    decreases s.len() - k,
{
    if k == s.len() {
        assert(s.subrange(0, k) =~= s);
    } else {
        let t = s.drop_last();
        assert forall|j: int| k <= j < t.len() implies is_ws(#[trigger] t[j]) by {
            assert(t[j] == s[j]);
        }
        lemma_trim_end(t, k);
        assert(t.subrange(0, k) =~= s.subrange(0, k));
    }
}

/// The characters of `s`, in order.
pub fn chars_of(s: &str) -> (v: Vec<char>)
    ensures
        v@ == s@,
{
    let n = s.unicode_len();
    let mut v: Vec<char> = Vec::new();
    let mut i: usize = 0;
    while i < n
        invariant
            n == s@.len(),
            i <= n,
            v@ == s@.subrange(0, i as int),
        decreases n - i,
    {
        let c = s.get_char(i);
        v.push(c);
        i = i + 1;
        assert(v@ =~= s@.subrange(0, i as int));
    }
    assert(v@ =~= s@);
    v
}

/// `s` without leading and trailing whitespace.
pub fn trim(s: &str) -> (t: &str)
    ensures
        t@ == trim_seq(s@),
{
    let n = s.unicode_len();
    let mut lo: usize = 0;
    while lo < n && is_whitespace(s.get_char(lo))
        invariant
            n == s@.len(),
            lo <= n,
            forall|j: int| 0 <= j < lo ==> is_ws(#[trigger] s@[j]),
        decreases n - lo,
    {
        lo = lo + 1;
    }
    let mut hi: usize = n;
    while hi > lo && is_whitespace(s.get_char(hi - 1))
        invariant
            n == s@.len(),
            lo <= hi <= n,
            forall|j: int| hi <= j < n ==> is_ws(#[trigger] s@[j]),
        decreases hi,
    {
        hi = hi - 1;
    }
    proof {
        lemma_trim_start(s@, lo as int);
        let u = s@.subrange(lo as int, n as int);
        assert forall|j: int| hi - lo <= j < u.len() implies is_ws(#[trigger] u[j]) by {
            assert(u[j] == s@[j + lo]);
        }
        if hi > lo {
            assert(u[hi - lo - 1] == s@[hi - 1]);
        }
        lemma_trim_end(u, hi - lo);
        assert(u.subrange(0, hi - lo) =~= s@.subrange(lo as int, hi as int));
    }
    s.substring_char(lo, hi)
}

/// True when `s` holds a character that is not whitespace.
pub fn has_text(s: &str) -> (b: bool)
    ensures
        b == has_text_seq(s@),
{
    trim(s).unicode_len() > 0
}

/// `s` with its ASCII letters made upper-case.
pub fn to_ascii_upper(s: &str) -> (v: Vec<char>)
    ensures
        v@ == ascii_upper(s@),
{
    let n = s.unicode_len();
    let mut v: Vec<char> = Vec::new();
    let mut i: usize = 0;
    while i < n
        invariant
            n == s@.len(),
            i <= n,
            v@ == ascii_upper(s@.subrange(0, i as int)),
        decreases n - i,
    {
        let c = s.get_char(i);
        let d = if 'a' <= c && c <= 'z' {
            ((c as u8) - 32) as char
        } else {
            c
        };
        assert(d == ascii_upper_char(c)) by {
            if 'a' <= c && c <= 'z' {
                assert((c as u8) as u32 == c as u32);
            }
        }
        v.push(d);
        i = i + 1;
        assert(v@ =~= ascii_upper(s@.subrange(0, i as int)));
    }
    assert(s@.subrange(0, n as int) =~= s@);
    v
}

/// `s` with its ASCII letters made lower-case.
pub fn to_ascii_lower(s: &str) -> (v: Vec<char>)
    ensures
        v@ == ascii_lower(s@),
{
    let n = s.unicode_len();
    let mut v: Vec<char> = Vec::new();
    let mut i: usize = 0;
    while i < n
        invariant
            n == s@.len(),
            i <= n,
            v@ == ascii_lower(s@.subrange(0, i as int)),
        decreases n - i,
    {
        let c = s.get_char(i);
        let d = if 'A' <= c && c <= 'Z' {
            ((c as u8) + 32) as char
        } else {
            c
        };
        assert(d == ascii_lower_char(c)) by {
            if 'A' <= c && c <= 'Z' {
                assert((c as u8) as u32 == c as u32);
            }
        }
        v.push(d);
        i = i + 1;
        assert(v@ =~= ascii_lower(s@.subrange(0, i as int)));
    }
    assert(s@.subrange(0, n as int) =~= s@);
    v
}

/// The matching key of `s`: trimmed, then ASCII upper-case.
pub fn upper_key_of(s: &str) -> (v: Vec<char>)
    ensures
        v@ == upper_key(s@),
{
    to_ascii_upper(trim(s))
}

/// Trimmed, then ASCII lower-case.
pub fn lower_key_of(s: &str) -> (v: Vec<char>)
    ensures
        v@ == lower_key(s@),
{
    to_ascii_lower(trim(s))
}

/// Whether the characters in `v` spell `s`.
pub fn chars_eq_str(v: &Vec<char>, s: &str) -> (b: bool)
    ensures
        b == (v@ == s@),
{
    let n = s.unicode_len();
    if v.len() != n {
        return false;
    }
    let mut i: usize = 0;
    while i < n
        invariant
            n == s@.len(),
            n == v@.len(),
            i <= n,
            forall|j: int| 0 <= j < i ==> v@[j] == s@[j],
        decreases n - i,
    {
        if v[i] != s.get_char(i) {
            return false;
        }
        i = i + 1;
    }
    assert(v@ =~= s@);
    true
}

/// Whether `a` and `b` hold the same characters.
pub fn str_eq(a: &str, b: &str) -> (r: bool)
    ensures
        r == (a@ == b@),
{
    let v = chars_of(a);
    chars_eq_str(&v, b)
}

/// Appends the character `c` to `s`.
///
/// Wraps `String::push`, which appends one character to the end of the
/// string.
#[verifier::external_body]
pub(crate) fn push_char(s: &mut String, c: char)
    ensures
        final(s)@ == old(s)@.push(c),
{
    s.push(c);
}

/// A `String` that holds the characters of `v`.
pub fn string_of_chars(v: &Vec<char>) -> (s: String)
    ensures
        s@ == v@,
{
    let mut s = String::new();
    let mut i: usize = 0;
    while i < v.len()
        invariant
            i <= v.len(),
            s@ == v@.subrange(0, i as int),
        decreases v.len() - i,
    {
        push_char(&mut s, v[i]);
        i = i + 1;
        assert(s@ =~= v@.subrange(0, i as int));
    }
    assert(v@.subrange(0, v.len() as int) =~= v@);
    s
}

/// An owned copy of `s`.
pub fn owned(s: &str) -> (r: String)
    ensures
        r@ == s@,
{
    s.to_owned()
}

/// Whether `s` holds `t` as a contiguous part.
pub open spec fn contains_seq(s: Seq<char>, t: Seq<char>) -> bool {
    exists|i: int| 0 <= i && i + t.len() <= s.len() && #[trigger] s.subrange(i, i + t.len()) == t
}

/// Whether `s` begins with `p`.
pub open spec fn starts_with_seq(s: Seq<char>, p: Seq<char>) -> bool {
    p.len() <= s.len() && s.subrange(0, p.len() as int) == p
}

/// Whether the characters of `s` from `at` on begin with those of `t`.
fn matches_at(s: &Vec<char>, t: &Vec<char>, at: usize) -> (r: bool)
    requires
        at + t@.len() <= s@.len(),
    ensures
        r == (s@.subrange(at as int, at + t@.len()) == t@),
{
    let n = s.len();
    let mut j: usize = 0;
    while j < t.len()
        invariant
            n == s@.len(),
            at + t@.len() <= s@.len(),
            j <= t@.len(),
            forall|k: int| 0 <= k < j ==> s@[at + k] == t@[k],
        decreases t.len() - j,
    {
        assert(at + j < s@.len());
        let idx = at + j;
        if s[idx] != t[j] {
            assert(s@.subrange(at as int, at + t@.len())[j as int] != t@[j as int]);
            return false;
        }
        j = j + 1;
    }
    assert(s@.subrange(at as int, at + t@.len()) =~= t@);
    true
}

/// Whether `s` holds `t` as a contiguous part, as `str::contains` tests.
pub fn contains_str(s: &str, t: &str) -> (r: bool)
    ensures
        r == contains_seq(s@, t@),
{
    let sv = chars_of(s);
    let tv = chars_of(t);
    if tv.len() > sv.len() {
        return false;
    }
    let last = sv.len() - tv.len();
    let mut i: usize = 0;
    loop
        invariant
            sv@ == s@,
            tv@ == t@,
            last == sv@.len() - tv@.len(),
            tv@.len() <= sv@.len(),
            i <= last,
            forall|k: int| 0 <= k < i ==> #[trigger] s@.subrange(k, k + t@.len()) != t@,
        decreases last - i,
    {
        if matches_at(&sv, &tv, i) {
            return true;
        }
        if i == last {
            return false;
        }
        i = i + 1;
    }
}

/// `s` without the prefix `p`, when it begins with `p`, as
/// `str::strip_prefix` gives it.
pub fn strip_prefix<'a>(s: &'a str, p: &str) -> (r: Option<&'a str>)
    ensures
        starts_with_seq(s@, p@) ==> (r matches Some(rest) && rest@ == s@.subrange(
            p@.len() as int,
            s@.len() as int,
        )),
        !starts_with_seq(s@, p@) ==> r is None,
{
    let sv = chars_of(s);
    let pv = chars_of(p);
    if pv.len() > sv.len() {
        return None;
    }
    if !matches_at(&sv, &pv, 0) {
        return None;
    }
    Some(s.substring_char(pv.len(), sv.len()))
}

/// `s` in upper case by the Unicode case mapping, as `str::to_uppercase`
/// gives it.
pub uninterp spec fn unicode_upper_spec(s: Seq<char>) -> Seq<char>;

/// Calls `str::to_uppercase`. The result is named.
#[verifier::external_body]
pub(crate) fn to_unicode_upper(s: &str) -> (r: String)
    ensures
        r@ == unicode_upper_spec(s@),
{
    s.to_uppercase()
}


/// `s` trimmed has no whitespace at either end.
proof fn lemma_trim_ends(s: Seq<char>)
    ensures
        trim_seq(s).len() > 0 ==> !is_ws(trim_seq(s)[0]) && !is_ws(trim_seq(s).last()),
{
    lemma_trim_start_front(s);
    let u = trim_start_seq(s);
    lemma_trim_end_prefix(u);
}

proof fn lemma_trim_start_front(s: Seq<char>)
    ensures
        trim_start_seq(s).len() > 0 ==> !is_ws(trim_start_seq(s)[0]),
    decreases s.len(),
{
    if s.len() > 0 && is_ws(s[0]) {
        lemma_trim_start_front(s.drop_first());
    }
}

/// Trimming the end of `u` keeps a prefix of it, and its last character
/// is not whitespace.
proof fn lemma_trim_end_prefix(u: Seq<char>)
    ensures
        trim_end_seq(u).len() <= u.len(),
        trim_end_seq(u) == u.subrange(0, trim_end_seq(u).len() as int),
        trim_end_seq(u).len() > 0 ==> !is_ws(trim_end_seq(u).last()),
    decreases u.len(),
{
    if u.len() > 0 && is_ws(u.last()) {
        let t = u.drop_last();
        lemma_trim_end_prefix(t);
        assert(t.subrange(0, trim_end_seq(t).len() as int) =~= u.subrange(
            0,
            trim_end_seq(t).len() as int,
        ));
    } else {
        assert(u.subrange(0, u.len() as int) =~= u);
    }
}

/// A text with no whitespace at either end is its own trim.
proof fn lemma_trim_fixed(s: Seq<char>)
    requires
        s.len() > 0 ==> !is_ws(s[0]) && !is_ws(s.last()),
    ensures
        trim_seq(s) == s,
{
    lemma_trim_start(s, 0);
    assert(s.subrange(0, s.len() as int) =~= s);
    lemma_trim_end(s, s.len() as int);
}

/// A text without ASCII lower-case letters and without whitespace at
/// either end is its own upper-case key.
pub proof fn lemma_upper_key_fixed(s: Seq<char>)
    requires
        s.len() > 0 ==> !is_ws(s[0]) && !is_ws(s.last()),
        forall|i: int| 0 <= i < s.len() ==> !('a' <= #[trigger] s[i] && s[i] <= 'z'),
    ensures
        upper_key(s) == s,
{
    lemma_trim_fixed(s);
    assert(ascii_upper(s) =~= s);
}

proof fn lemma_case_keeps_ws(c: char)
    ensures
        is_ws(ascii_upper_char(c)) == is_ws(c),
        is_ws(ascii_lower_char(c)) == is_ws(c),
{
}

proof fn lemma_trim_start_upper(s: Seq<char>)
    ensures
        trim_start_seq(ascii_upper(s)) == ascii_upper(trim_start_seq(s)),
        trim_start_seq(ascii_lower(s)) == ascii_lower(trim_start_seq(s)),
    decreases s.len(),
{
    if s.len() > 0 {
        lemma_case_keeps_ws(s[0]);
        assert(ascii_upper(s).drop_first() =~= ascii_upper(s.drop_first()));
        assert(ascii_lower(s).drop_first() =~= ascii_lower(s.drop_first()));
        lemma_trim_start_upper(s.drop_first());
    } else {
        assert(ascii_upper(s).len() == 0);
        assert(ascii_lower(s).len() == 0);
    }
}

proof fn lemma_trim_end_upper(s: Seq<char>)
    ensures
        trim_end_seq(ascii_upper(s)) == ascii_upper(trim_end_seq(s)),
        trim_end_seq(ascii_lower(s)) == ascii_lower(trim_end_seq(s)),
    decreases s.len(),
{
    if s.len() > 0 {
        lemma_case_keeps_ws(s.last());
        assert(ascii_upper(s).drop_last() =~= ascii_upper(s.drop_last()));
        assert(ascii_lower(s).drop_last() =~= ascii_lower(s.drop_last()));
        lemma_trim_end_upper(s.drop_last());
    } else {
        assert(ascii_upper(s).len() == 0);
        assert(ascii_lower(s).len() == 0);
    }
}

/// Changing ASCII case does not change what trimming drops.
proof fn lemma_trim_case(s: Seq<char>)
    ensures
        trim_seq(ascii_upper(s)) == ascii_upper(trim_seq(s)),
        trim_seq(ascii_lower(s)) == ascii_lower(trim_seq(s)),
{
    lemma_trim_start_upper(s);
    lemma_trim_end_upper(trim_start_seq(s));
}

/// Trimming twice trims no more than once.
pub proof fn law_trim_idempotent(s: Seq<char>)
    ensures
        trim_seq(trim_seq(s)) == trim_seq(s),
{
    lemma_trim_ends(s);
    lemma_trim_fixed(trim_seq(s));
}

/// The keys by which typed keywords are matched ignore ASCII case and
/// surrounding whitespace: a text, its trim, and its ASCII upper- and
/// lower-case forms all have the same keys.
pub proof fn law_keys_ignore_case_and_padding(s: Seq<char>)
    ensures
        upper_key(trim_seq(s)) == upper_key(s),
        lower_key(trim_seq(s)) == lower_key(s),
        upper_key(ascii_lower(s)) == upper_key(s),
        upper_key(ascii_upper(s)) == upper_key(s),
        lower_key(ascii_upper(s)) == lower_key(s),
        lower_key(ascii_lower(s)) == lower_key(s),
{
    law_trim_idempotent(s);
    lemma_trim_case(s);
    let t = trim_seq(s);
    assert(ascii_upper(ascii_lower(t)) =~= ascii_upper(t));
    assert(ascii_upper(ascii_upper(t)) =~= ascii_upper(t));
    assert(ascii_lower(ascii_upper(t)) =~= ascii_lower(t));
    assert(ascii_lower(ascii_lower(t)) =~= ascii_lower(t));
}

} // verus!
