//! Text rules: whitespace trimming, ASCII case folding, substring search,
//! ordering of names and decimal rendering of counters.
use vstd::prelude::*;

verus! {

/// Unicode `White_Space`, the property that `char::is_whitespace` tests.
pub open spec fn is_white_space(c: char) -> bool {
    let u = c as u32;
    ||| 0x09 <= u <= 0x0d
    ||| u == 0x20
    ||| u == 0x85
    ||| u == 0xa0
    ||| u == 0x1680
    ||| 0x2000 <= u <= 0x200a
    ||| u == 0x2028
    ||| u == 0x2029
    ||| u == 0x202f
    ||| u == 0x205f
    ||| u == 0x3000
}

/// Leading and trailing white space removed.
pub open spec fn trim_text(s: Seq<char>) -> Seq<char>
    decreases s.len(),
{
    if s.len() == 0 {
        s
    } else if is_white_space(s.first()) {
        trim_text(s.drop_first())
    } else if is_white_space(s.last()) {
        trim_text(s.drop_last())
    } else {
        s
    }
}

/// `A`..`Z` mapped to `a`..`z`, every other character kept.
pub open spec fn lower_char(c: char) -> char {
    if 'A' <= c && c <= 'Z' {
        ((c as u32) + 32) as char
    } else {
        c
    }
}

pub open spec fn ascii_lower_text(s: Seq<char>) -> Seq<char> {
    s.map_values(|c: char| lower_char(c))
}

/// The key under which an application is filed: trimmed, then ASCII-lowercased.
pub open spec fn normalized(s: Seq<char>) -> Seq<char> {
    ascii_lower_text(trim_text(s))
}

/// `needle` occurs in `hay` as a contiguous run.
pub open spec fn contains_text(hay: Seq<char>, needle: Seq<char>) -> bool {
    exists|i: int|
        0 <= i && i + needle.len() <= hay.len() && #[trigger] hay.subrange(i, i + needle.len())
            == needle
}

/// Some keyword occurs in `hay`.
pub open spec fn contains_any_text(hay: Seq<char>, keywords: Seq<Seq<char>>) -> bool {
    exists|j: int| 0 <= j < keywords.len() && contains_text(hay, #[trigger] keywords[j])
}

pub fn is_whitespace_char(c: char) -> (b: bool)
    ensures
        b == is_white_space(c),
{
    let u = c as u32;
    (0x09 <= u && u <= 0x0d) || u == 0x20 || u == 0x85 || u == 0xa0 || u == 0x1680 || (0x2000
        <= u && u <= 0x200a) || u == 0x2028 || u == 0x2029 || u == 0x202f || u == 0x205f || u
        == 0x3000
}

/// The characters of `s`, in order.
pub fn chars_of(s: &str) -> (v: Vec<char>)
    ensures
        v@ == s@,
{
    let n = s.unicode_len();
    let mut v: Vec<char> = Vec::new();
    let mut i: usize = 0;
    while i < n
        invariant
            n == s@.len(),
            i <= n,
            v@ == s@.subrange(0, i as int),
        decreases n - i,
    {
        v.push(s.get_char(i));
        i = i + 1;
    }
    assert(s@.subrange(0, n as int) =~= s@);
    v
}

proof fn lemma_trim_bounds(s: Seq<char>, i: int, j: int)
    requires
        0 <= i <= j <= s.len(),
        forall|k: int| 0 <= k < i ==> is_white_space(#[trigger] s[k]),
        forall|k: int| j <= k < s.len() ==> is_white_space(#[trigger] s[k]),
        i < j ==> !is_white_space(s[i]) && !is_white_space(s[j - 1]),
    ensures
        trim_text(s) == s.subrange(i, j),
    decreases s.len(),
{
    if s.len() == 0 {
        assert(s.subrange(i, j) =~= s);
    } else if is_white_space(s.first()) {
        let t = s.drop_first();
        if i == 0 {
            if i < j {
                assert(false);
            }
            assert(is_white_space(s[0]));
            lemma_trim_bounds(t, 0, 0);
            assert(s.subrange(i, j) =~= t.subrange(0, 0));
        } else {
            assert forall|k: int| 0 <= k < i - 1 implies is_white_space(#[trigger] t[k]) by {
                assert(t[k] == s[k + 1]);
            }
            assert forall|k: int| j - 1 <= k < t.len() implies is_white_space(#[trigger] t[k]) by {
                assert(t[k] == s[k + 1]);
            }
            lemma_trim_bounds(t, i - 1, j - 1);
            assert(s.subrange(i, j) =~= t.subrange(i - 1, j - 1));
        }
    } else if is_white_space(s.last()) {
        let t = s.drop_last();
        if i > 0 {
            assert(is_white_space(s[0]));
        }
        if j == s.len() {
            if i < j {
                assert(!is_white_space(s[j - 1]));
            }
            assert(s[s.len() - 1] == s.last());
        }
        assert(j < s.len());
        assert forall|k: int| j <= k < t.len() implies is_white_space(#[trigger] t[k]) by {
            assert(t[k] == s[k]);
        }
        lemma_trim_bounds(t, i, j);
        assert(s.subrange(i, j) =~= t.subrange(i, j));
    } else {
        if i > 0 {
            assert(is_white_space(s[0]));
        }
        if j < s.len() {
            assert(is_white_space(s[s.len() - 1]));
        }
        assert(s.subrange(i, j) =~= s);
    }
}

/// `s` without its leading and trailing white space.
pub fn trim(s: &str) -> (t: &str)
    ensures
        t@ == trim_text(s@),
{
    let v = chars_of(s);
    let n = v.len();
    let mut i: usize = 0;
    while i < n && is_whitespace_char(v[i])
        invariant
            n == v@.len(),
            v@ == s@,
            i <= n,
            forall|k: int| 0 <= k < i ==> is_white_space(#[trigger] v@[k]),
        decreases n - i,
    {
        i = i + 1;
    }
    let mut j: usize = n;
    while j > i && is_whitespace_char(v[j - 1])
        invariant
            n == v@.len(),
            v@ == s@,
            i <= j <= n,
            forall|k: int| j <= k < n ==> is_white_space(#[trigger] v@[k]),
        decreases j - i,
    {
        j = j - 1;
    }
    proof {
        lemma_trim_bounds(s@, i as int, j as int);
    }
    s.substring_char(i, j)
}

/// The ASCII-lowercased copy that `str::to_ascii_lowercase` returns: each of
/// `A`..`Z` becomes its lowercase letter, every other character is copied.
#[verifier::external_body]
pub fn to_ascii_lowercase(s: &str) -> (r: String)
    ensures
        r@ == ascii_lower_text(s@),
{
    s.to_ascii_lowercase()
}

/// The key under which an application name is filed.
pub fn normalize_key(value: &str) -> (key: String)
    ensures
        key@ == normalized(value@),
{
    to_ascii_lowercase(trim(value))
}

fn matches_at(hay: &Vec<char>, needle: &Vec<char>, i: usize) -> (b: bool)
    requires
        i + needle@.len() <= hay@.len(),
    ensures
        b == (hay@.subrange(i as int, i + needle@.len()) == needle@),
{
    let m = needle.len();
    let n = hay.len();
    let mut k: usize = 0;
    while k < m
        invariant
            m == needle@.len(),
            n == hay@.len(),
            i + m <= hay@.len(),
            k <= m,
            forall|t: int| 0 <= t < k ==> hay@[i + t] == needle@[t],
        decreases m - k,
    {
        if hay[i + k] != needle[k] {
            assert(hay@.subrange(i as int, i + m)[k as int] != needle@[k as int]);
            return false;
        }
        k = k + 1;
    }
    assert(hay@.subrange(i as int, i + m) =~= needle@);
    true
}

fn contains_chars(hay: &Vec<char>, needle: &Vec<char>) -> (b: bool)
    ensures
        b == contains_text(hay@, needle@),
{
    let n = hay.len();
    let m = needle.len();
    if m > n {
        return false;
    }
    if m == 0 {
        assert(hay@.subrange(0, 0int + needle@.len()) =~= needle@);
        return true;
    }
    let mut i: usize = 0;
    while i <= n - m
        invariant
            n == hay@.len(),
            m == needle@.len(),
            1 <= m <= n,
            i <= n - m + 1,
            forall|p: int|
                0 <= p < i ==> #[trigger] hay@.subrange(p, p + m) != needle@,
        decreases n - m + 1 - i,
    {
        if matches_at(hay, needle, i) {
            return true;
        }
        i = i + 1;
    }
    false
}

/// Whether `needle` occurs in `hay`, as `str::contains` with a string pattern.
pub fn contains(hay: &str, needle: &str) -> (b: bool)
    ensures
        b == contains_text(hay@, needle@),
{
    contains_chars(&chars_of(hay), &chars_of(needle))
}

/// Whether some keyword occurs in `input`.
pub fn contains_any(input: &str, keywords: &[&str]) -> (b: bool)
    ensures
        b == contains_any_text(input@, keywords@.map_values(|k: &str| k@)),
{
    let hay = chars_of(input);
    let ghost kws = keywords@.map_values(|k: &str| k@);
    let n = keywords.len();
    let mut j: usize = 0;
    while j < n
        invariant
            n == keywords@.len(),
            kws == keywords@.map_values(|k: &str| k@),
            hay@ == input@,
            j <= n,
            forall|t: int| 0 <= t < j ==> !contains_text(input@, #[trigger] kws[t]),
        decreases n - j,
    {
        if contains_chars(&hay, &chars_of(keywords[j])) {
            assert(contains_text(input@, kws[j as int]));
            return true;
        }
        j = j + 1;
    }
    false
}


/// Strict lexicographic order of character sequences, comparing code points;
/// the order in which `String`'s `Ord` sorts (UTF-8 keeps code-point order).
pub open spec fn text_less(a: Seq<char>, b: Seq<char>) -> bool
    decreases a.len(),
{
    if b.len() == 0 {
        false
    } else if a.len() == 0 {
        true
    } else if a[0] != b[0] {
        (a[0] as int) < (b[0] as int)
    } else {
        text_less(a.drop_first(), b.drop_first())
    }
}

proof fn lemma_text_less_common_prefix(a: Seq<char>, b: Seq<char>, k: int)
    requires
        0 <= k <= a.len(),
        k <= b.len(),
        forall|t: int| 0 <= t < k ==> a[t] == b[t],
    ensures
        text_less(a, b) == text_less(a.subrange(k, a.len() as int), b.subrange(k, b.len() as int)),
    decreases k,
{
    if k == 0 {
        assert(a.subrange(0, a.len() as int) =~= a);
        assert(b.subrange(0, b.len() as int) =~= b);
    } else {
        let a1 = a.drop_first();
        let b1 = b.drop_first();
        assert(a[0] == b[0]);
        lemma_text_less_common_prefix(a1, b1, k - 1);
        assert(a1.subrange(k - 1, a1.len() as int) =~= a.subrange(k, a.len() as int));
        assert(b1.subrange(k - 1, b1.len() as int) =~= b.subrange(k, b.len() as int));
    }
}

/// The order on names is irreflexive.
pub proof fn lemma_text_less_irreflexive(a: Seq<char>)
    ensures
        !text_less(a, a),
    decreases a.len(),
{
    if a.len() > 0 {
        lemma_text_less_irreflexive(a.drop_first());
    }
}

/// Two different names are ordered one way or the other, never both.
pub proof fn lemma_text_less_total(a: Seq<char>, b: Seq<char>)
    ensures
        a != b ==> (text_less(a, b) || text_less(b, a)),
        !(text_less(a, b) && text_less(b, a)),
    decreases a.len(),
{
    if a.len() == 0 && b.len() == 0 {
        assert(a =~= b);
    } else if a.len() == 0 || b.len() == 0 {
    } else if a[0] != b[0] {
        assert((a[0] as int) != (b[0] as int));
    } else {
        let a1 = a.drop_first();
        let b1 = b.drop_first();
        lemma_text_less_total(a1, b1);
        assert(text_less(a, b) == text_less(a1, b1));
        assert(text_less(b, a) == text_less(b1, a1));
        if a != b && a1 == b1 {
            assert(a =~= seq![a[0]] + a1);
            assert(b =~= seq![b[0]] + b1);
        }
    }
}

/// The order on names is transitive.
pub proof fn lemma_text_less_transitive(a: Seq<char>, b: Seq<char>, c: Seq<char>)
    requires
        text_less(a, b),
        text_less(b, c),
    ensures
        text_less(a, c),
    decreases a.len(),
{
    if a.len() > 0 && b.len() > 0 && c.len() > 0 && a[0] == b[0] && b[0] == c[0] {
        lemma_text_less_transitive(a.drop_first(), b.drop_first(), c.drop_first());
    }
}

/// Whether `a` sorts strictly before `b`.
pub fn chars_less(a: &Vec<char>, b: &Vec<char>) -> (r: bool)
    ensures
        r == text_less(a@, b@),
{
    let n = a.len();
    let m = b.len();
    let mut k: usize = 0;
    while k < n && k < m && a[k] == b[k]
        invariant
            n == a@.len(),
            m == b@.len(),
            k <= n,
            k <= m,
            forall|t: int| 0 <= t < k ==> a@[t] == b@[t],
        decreases n - k,
    {
        k = k + 1;
    }
    proof {
        lemma_text_less_common_prefix(a@, b@, k as int);
    }
    let ghost a1 = a@.subrange(k as int, n as int);
    let ghost b1 = b@.subrange(k as int, m as int);
    if k == m {
        false
    } else if k == n {
        true
    } else {
        assert(a1[0] == a@[k as int] && b1[0] == b@[k as int]);
        a[k] < b[k]
    }
}

/// Whether the name `a` sorts strictly before the name `b`.
pub fn text_before(a: &str, b: &str) -> (r: bool)
    ensures
        r == text_less(a@, b@),
{
    chars_less(&chars_of(a), &chars_of(b))
}

/// The decimal digit character for `d < 10`.
pub open spec fn digit_char(d: nat) -> char {
    ((48 + d) as u32) as char
}

/// The decimal rendering of `n`, without sign or leading zeros.
pub open spec fn decimal_text(n: nat) -> Seq<char>
    decreases n,
{
    if n < 10 {
        seq![digit_char(n)]
    } else {
        decimal_text(n / 10).push(digit_char(n % 10))
    }
}

fn digit_str(d: u64) -> (s: &'static str)
    requires
        d < 10,
    ensures
        s@ == seq![digit_char(d as nat)],
{
    proof {
        reveal_strlit("0");
        reveal_strlit("1");
        reveal_strlit("2");
        reveal_strlit("3");
        reveal_strlit("4");
        reveal_strlit("5");
        reveal_strlit("6");
        reveal_strlit("7");
        reveal_strlit("8");
        reveal_strlit("9");
    }
    if d == 0 {
        "0"
    } else if d == 1 {
        "1"
    } else if d == 2 {
        "2"
    } else if d == 3 {
        "3"
    } else if d == 4 {
        "4"
    } else if d == 5 {
        "5"
    } else if d == 6 {
        "6"
    } else if d == 7 {
        "7"
    } else if d == 8 {
        "8"
    } else {
        "9"
    }
}

/// The decimal rendering of `n`, as `format!("{}", n)` writes it.
pub fn decimal_string(n: u64) -> (s: String)
    ensures
        s@ == decimal_text(n as nat),
    decreases n,
{
    if n < 10 {
        String::from_str(digit_str(n))
    } else {
        let mut s = decimal_string(n / 10);
        s.append(digit_str(n % 10));
        s
    }
}


/// A trimmed text has no white space at either end.
pub proof fn lemma_trim_ends(s: Seq<char>)
    ensures
        trim_text(s).len() > 0 ==> !is_white_space(trim_text(s).first()) && !is_white_space(
            trim_text(s).last(),
        ),
        trim_text(s).len() <= s.len(),
    decreases s.len(),
{
    if s.len() > 0 {
        if is_white_space(s.first()) {
            lemma_trim_ends(s.drop_first());
        } else if is_white_space(s.last()) {
            lemma_trim_ends(s.drop_last());
        }
    }
}

/// Trimming twice trims no more than once.
pub proof fn lemma_trim_idempotent(s: Seq<char>)
    ensures
        trim_text(trim_text(s)) == trim_text(s),
{
    let t = trim_text(s);
    lemma_trim_ends(t);
    lemma_trim_ends(s);
    if t.len() > 0 {
        lemma_trim_bounds(t, 0, t.len() as int);
    } else {
        lemma_trim_bounds(t, 0, 0);
    }
    assert(t.subrange(0, t.len() as int) =~= t);
}

/// ASCII case folding leaves white space, and only white space, white.
proof fn lemma_lower_keeps_white_space(c: char)
    ensures
        is_white_space(lower_char(c)) == is_white_space(c),
{
}

/// The key of a key is the key itself.
pub proof fn lemma_normalized_idempotent(s: Seq<char>)
    ensures
        normalized(normalized(s)) == normalized(s),
{
    let t = trim_text(s);
    let k = ascii_lower_text(t);
    lemma_trim_ends(s);
    if k.len() > 0 {
        lemma_lower_keeps_white_space(t.first());
        lemma_lower_keeps_white_space(t.last());
        assert(k.first() == lower_char(t.first()));
        assert(k.last() == lower_char(t.last()));
        lemma_trim_bounds(k, 0, k.len() as int);
    } else {
        lemma_trim_bounds(k, 0, 0);
    }
    assert(k.subrange(0, k.len() as int) =~= k);
    assert(ascii_lower_text(k) =~= k) by {
        assert forall|i: int| 0 <= i < k.len() implies lower_char(#[trigger] k[i]) == k[i] by {
            assert(k[i] == lower_char(t[i]));
        }
    }
}

/// Trimming first does not change the key.
pub proof fn lemma_normalized_of_trimmed(s: Seq<char>)
    ensures
        normalized(trim_text(s)) == normalized(s),
{
    lemma_trim_idempotent(s);
}


/// Concatenation of `parts`, in order.
pub open spec fn joined(parts: Seq<Seq<char>>) -> Seq<char>
    decreases parts.len(),
{
    if parts.len() == 0 {
        Seq::empty()
    } else {
        joined(parts.drop_last()) + parts.last()
    }
}

pub fn join_texts(parts: &[&str]) -> (text: String)
    ensures
        text@ == joined(parts@.map_values(|p: &str| p@)),
{
    let ghost ps = parts@.map_values(|p: &str| p@);
    let mut text = String::new();
    let mut i: usize = 0;
    while i < parts.len()
        invariant
            i <= parts@.len(),
            ps == parts@.map_values(|p: &str| p@),
            text@ == joined(ps.subrange(0, i as int)),
        decreases parts@.len() - i,
    {
        text.append(parts[i]);
        assert(ps.subrange(0, i + 1).drop_last() =~= ps.subrange(0, i as int));
        i = i + 1;
    }
    assert(ps.subrange(0, parts@.len() as int) =~= ps);
    text
}

} // verus!
