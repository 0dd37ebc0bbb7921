//! Character-level text handling used by the item search: substring search,
//! whitespace trimming, decimal rendering and the case conversions.
use vstd::prelude::*;

use heck::TitleCase;

verus! {

/// `needle` occurs in `haystack` as a contiguous run of characters
/// (the empty needle occurs in every haystack).
pub open spec fn seq_contains(haystack: Seq<char>, needle: Seq<char>) -> bool {
    exists|i: int|
        0 <= i && i + needle.len() <= haystack.len()
            && #[trigger] haystack.subrange(i, i + needle.len()) == needle
}

/// Unicode `White_Space` characters, the set that `char::is_whitespace` answers for.
pub open spec fn is_white_space(c: char) -> bool {
    ||| '\u{9}' <= c <= '\u{d}'
    ||| c == ' '
    ||| c == '\u{85}'
    ||| c == '\u{a0}'
    ||| c == '\u{1680}'
    ||| '\u{2000}' <= c <= '\u{200a}'
    ||| c == '\u{2028}'
    ||| c == '\u{2029}'
    ||| c == '\u{202f}'
    ||| c == '\u{205f}'
    ||| c == '\u{3000}'
}

/// `a` is where `s` starts once its leading whitespace is skipped.
pub open spec fn is_trim_start(s: Seq<char>, a: int) -> bool {
    &&& 0 <= a <= s.len()
    &&& forall|i: int| 0 <= i < a ==> is_white_space(#[trigger] s[i])
    &&& a < s.len() ==> !is_white_space(s[a])
}

/// `b` is where `s` ends once its trailing whitespace is dropped.
pub open spec fn is_trim_end(s: Seq<char>, b: int) -> bool {
    &&& 0 <= b <= s.len()
    &&& forall|i: int| b <= i < s.len() ==> is_white_space(#[trigger] s[i])
    &&& b > 0 ==> !is_white_space(s[b - 1])
}

pub open spec fn trim_start(s: Seq<char>) -> int {
    choose|a: int| is_trim_start(s, a)
}

pub open spec fn trim_end(s: Seq<char>) -> int {
    choose|b: int| is_trim_end(s, b)
}

/// `s` without its leading and trailing whitespace, as `str::trim` gives it.
pub open spec fn trimmed(s: Seq<char>) -> Seq<char> {
    if trim_start(s) < trim_end(s) {
        s.subrange(trim_start(s), trim_end(s))
    } else {
        Seq::empty()
    }
}

/// The decimal digits of `n`, most significant first, without leading zeros.
pub open spec fn decimal(n: nat) -> Seq<char>
    decreases n,
{
    if n < 10 {
        seq![digit_char(n)]
    } else {
        decimal(n / 10).push(digit_char(n % 10))
    }
}

pub open spec fn digit_char(d: nat) -> char {
    if d == 0 { '0' }
    else if d == 1 { '1' }
    else if d == 2 { '2' }
    else if d == 3 { '3' }
    else if d == 4 { '4' }
    else if d == 5 { '5' }
    else if d == 6 { '6' }
    else if d == 7 { '7' }
    else if d == 8 { '8' }
    else { '9' }
}

/// What `str::to_lowercase` gives for a string: each character replaced by
/// its Unicode lowercase mapping (with the final-sigma rule).
pub uninterp spec fn lowercase_of(s: Seq<char>) -> Seq<char>;

/// What heck's `TitleCase::to_title_case` gives for a string: its words,
/// split at case changes and punctuation, capitalised and joined by spaces.
pub uninterp spec fn title_case_of(s: Seq<char>) -> Seq<char>;

/// Calls `str::to_lowercase`; the result is `lowercase_of` of the argument.
#[verifier::external_body]
pub fn to_lowercase(s: &str) -> (r: String)
    ensures
        r@ == lowercase_of(s@),
{
    s.to_lowercase()
}

/// Calls heck's `TitleCase::to_title_case` on a `str`; the result is
/// `title_case_of` of the argument.
#[verifier::external_body]
pub fn to_title_case(s: &str) -> (r: String)
    ensures
        r@ == title_case_of(s@),
{
    s.to_title_case()
}

fn digit_string(d: usize) -> (r: String)
    requires
        d < 10,
    ensures
        r@ == seq![digit_char(d as nat)],
{
    proof {
        reveal_strlit("0");
        reveal_strlit("1");
        reveal_strlit("2");
        reveal_strlit("3");
        reveal_strlit("4");
        reveal_strlit("5");
        reveal_strlit("6");
        reveal_strlit("7");
        reveal_strlit("8");
        reveal_strlit("9");
    }
    let r = if d == 0 {
        String::from_str("0")
    } else if d == 1 {
        String::from_str("1")
    } else if d == 2 {
        String::from_str("2")
    } else if d == 3 {
        String::from_str("3")
    } else if d == 4 {
        String::from_str("4")
    } else if d == 5 {
        String::from_str("5")
    } else if d == 6 {
        String::from_str("6")
    } else if d == 7 {
        String::from_str("7")
    } else if d == 8 {
        String::from_str("8")
    } else {
        String::from_str("9")
    };
    assert(r@ =~= seq![digit_char(d as nat)]);
    r
}

/// `n` in decimal, as `ToString::to_string` renders a `usize`.
pub fn usize_to_string(n: usize) -> (r: String)
    ensures
        r@ == decimal(n as nat),
    decreases n,
{
    if n < 10 {
        digit_string(n)
    } else {
        let r = usize_to_string(n / 10).concat(digit_string(n % 10).as_str());
        assert(r@ =~= decimal((n / 10) as nat).push(digit_char((n % 10) as nat)));
        r
    }
}

/// Calls `Iterator::collect` into a `String` on the characters, in order.
#[verifier::external_body]
pub fn string_from_chars(v: &Vec<char>) -> (r: String)
    ensures
        r@ == v@,
{
    v.iter().collect()
}

/// The characters of a string, in order.
pub fn chars_of(s: &str) -> (r: Vec<char>)
    ensures
        r@ == s@,
{
    let mut v: Vec<char> = Vec::new();
    for c in iter: s.chars()
        invariant
            v@ == iter.seq().take(iter.index() as int),
            iter.seq() == s@,
    {
        v.push(c);
    }
    v
}

/// Whether `c` is Unicode whitespace.
pub fn is_whitespace_char(c: char) -> (r: bool)
    ensures
        r == is_white_space(c),
{
    ('\u{9}' <= c && c <= '\u{d}') || c == ' ' || c == '\u{85}' || c == '\u{a0}' || c == '\u{1680}'
        || ('\u{2000}' <= c && c <= '\u{200a}') || c == '\u{2028}' || c == '\u{2029}'
        || c == '\u{202f}' || c == '\u{205f}' || c == '\u{3000}'
}

proof fn lemma_trim_start_unique(s: Seq<char>, a: int)
    requires
        is_trim_start(s, a),
    ensures
        trim_start(s) == a,
{
    let b = trim_start(s);
    assert(is_trim_start(s, b));
    if b < a {
        assert(is_white_space(s[b]));
    } else if a < b {
        assert(is_white_space(s[a]));
    }
}

proof fn lemma_trim_end_unique(s: Seq<char>, b: int)
    requires
        is_trim_end(s, b),
    ensures
        trim_end(s) == b,
{
    let c = trim_end(s);
    assert(is_trim_end(s, c));
    if c < b {
        assert(is_white_space(s[b - 1]));
    } else if b < c {
        assert(is_white_space(s[c - 1]));
    }
}

/// The characters of `s` between its leading and its trailing whitespace.
pub fn trim_chars(s: &Vec<char>) -> (r: Vec<char>)
    ensures
        r@ == trimmed(s@),
{
    let n = s.len();
    let mut a: usize = 0;
    while a < n && is_whitespace_char(s[a])
        invariant
            n == s@.len(),
            a <= n,
            forall|i: int| 0 <= i < a ==> is_white_space(#[trigger] s@[i]),
        decreases n - a,
    {
        a = a + 1;
    }
    proof {
        lemma_trim_start_unique(s@, a as int);
    }
    let mut b: usize = n;
    while b > 0 && is_whitespace_char(s[b - 1])
        invariant
            n == s@.len(),
            b <= n,
            forall|i: int| b <= i < n ==> is_white_space(#[trigger] s@[i]),
        decreases b,
    {
        b = b - 1;
    }
    proof {
        lemma_trim_end_unique(s@, b as int);
    }
    let mut r: Vec<char> = Vec::new();
    if a < b {
        let mut k: usize = a;
        while k < b
            invariant
                a <= k <= b <= n,
                n == s@.len(),
                r@ == s@.subrange(a as int, k as int),
            decreases b - k,
        {
            r.push(s[k]);
            k = k + 1;
        }
    }
    proof {
        if !(a < b) {
            assert(r@ =~= Seq::<char>::empty());
        }
    }
    r
}

/// Whether `needle` occurs in `haystack` starting at `start`.
fn matches_at(haystack: &Vec<char>, needle: &Vec<char>, start: usize) -> (r: bool)
    requires
        start + needle@.len() <= haystack@.len(),
    ensures
        r == (haystack@.subrange(start as int, start + needle@.len()) == needle@),
{
    let m = needle.len();
    let n = haystack.len();
    let mut j: usize = 0;
    while j < m
        invariant
            m == needle@.len(),
            n == haystack@.len(),
            start + m <= haystack@.len(),
            j <= m,
            forall|k: int| 0 <= k < j ==> haystack@[start + k] == needle@[k],
        decreases m - j,
    {
        if haystack[start + j] != needle[j] {
            assert(haystack@.subrange(start as int, start + m)[j as int] != needle@[j as int]);
            return false;
        }
        j = j + 1;
    }
    assert(haystack@.subrange(start as int, start + m) =~= needle@);
    true
}

/// Whether `needle` occurs in `haystack` as a contiguous run, as `str::contains` answers.
pub fn contains_chars(haystack: &Vec<char>, needle: &Vec<char>) -> (r: bool)
    ensures
        r == seq_contains(haystack@, needle@),
{
    let n = haystack.len();
    let m = needle.len();
    if m > n {
        return false;
    }
    if m == 0 {
        assert(haystack@.subrange(0int, 0int + needle@.len()) =~= needle@);
        return true;
    }
    let mut i: usize = 0;
    while i <= n - m
        invariant
            n == haystack@.len(),
            m == needle@.len(),
            0 < m <= n,
            i <= n - m + 1,
            forall|k: int|
                0 <= k < i ==> #[trigger] haystack@.subrange(k, k + m) != needle@,
        decreases n - m + 1 - i,
    {
        if matches_at(haystack, needle, i) {
            return true;
        }
        i = i + 1;
    }
    false
}

} // verus!
