//! Character-level building blocks shared by the link recognisers and the
//! clipboard monitor: prefix tests, maximal runs of a character class,
//! whitespace trimming, case folding and text equality.
//!
//! Everything is specified over `Seq<char>`, the view of `str` and `String`.

use vstd::prelude::*;
use vstd::std_specs::iter::IteratorSpec;
use vstd::string::StringExecFns;

verus! {

/// The characters of `s`, in order, as a vector that can be indexed in constant time.
pub fn chars_of(s: &str) -> (v: Vec<char>)
    ensures
        v@ == s@,
{
    let mut v: Vec<char> = Vec::new();
    for c in it: s.chars()
        invariant
            v@ == it.seq().take(it.index() as int),
            it.seq() == s@,
    {
        v.push(c);
    }
    v
}

/// `p` occurs in `s` starting at index `at`.
pub open spec fn has_prefix_at(s: Seq<char>, at: int, p: Seq<char>) -> bool {
    &&& 0 <= at
    &&& at + p.len() <= s.len()
    &&& s.subrange(at, at + p.len()) == p
}

/// Where `has_prefix_at` holds, the characters agree one by one.
pub proof fn lemma_prefix_chars(s: Seq<char>, at: int, p: Seq<char>, k: int)
    requires
        has_prefix_at(s, at, p),
        0 <= k < p.len(),
    ensures
        s[at + k] == p[k],
{
    assert(s.subrange(at, at + p.len())[k] == s[at + k]);
}

/// Tests whether the literal `p` occurs in `s` at index `at`.
pub fn starts_with_at(s: &Vec<char>, at: usize, p: &str) -> (b: bool)
    ensures
        b == has_prefix_at(s@, at as int, p@),
{
    let pat = chars_of(p);
    if at > s.len() || pat.len() > s.len() - at {
        return false;
    }
    let mut i: usize = 0;
    while i < pat.len()
        invariant
            i <= pat.len(),
            at + pat.len() <= s.len(),
            pat@ == p@,
            forall|k: int| 0 <= k < i ==> s@[at + k] == pat@[k],
        decreases pat.len() - i,
    {
        if s[at + i] != pat[i] {
            proof {
                if has_prefix_at(s@, at as int, p@) {
                    lemma_prefix_chars(s@, at as int, p@, i as int);
                }
            }
            return false;
        }
        i += 1;
    }
    assert(s@.subrange(at as int, at + pat.len()) =~= p@);
    true
}

/// The character classes that the link recognisers scan for.
#[derive(Clone, Copy, Debug)]
pub enum CharClass {
    /// Any character but `/`.
    Segment,
    /// The decimal digits `0` to `9`.
    Digit,
    /// Any character but `/` and white space.
    Token,
    /// ASCII letters and digits, `_` and `-`.
    Slug,
    /// White space.
    Space,
}

/// The characters with the Unicode property `White_Space`.
pub open spec fn is_whitespace(c: char) -> bool {
    let n = c as u32;
    ||| 0x09 <= n <= 0x0D
    ||| n == 0x20
    ||| n == 0x85
    ||| n == 0xA0
    ||| n == 0x1680
    ||| 0x2000 <= n <= 0x200A
    ||| n == 0x2028
    ||| n == 0x2029
    ||| n == 0x202F
    ||| n == 0x205F
    ||| n == 0x3000
}

/// Tests whether `c` is white space.
pub fn char_is_whitespace(c: char) -> (b: bool)
    ensures
        b == is_whitespace(c),
{
    let n: u32 = c as u32;
    (0x09 <= n && n <= 0x0D) || n == 0x20 || n == 0x85 || n == 0xA0 || n == 0x1680 || (0x2000 <= n
        && n <= 0x200A) || n == 0x2028 || n == 0x2029 || n == 0x202F || n == 0x205F || n == 0x3000
}

impl CharClass {
    /// Membership of `c` in the class.
    pub open spec fn accepts(self, c: char) -> bool {
        match self {
            CharClass::Segment => c != '/',
            CharClass::Digit => '0' <= c <= '9',
            CharClass::Token => c != '/' && !is_whitespace(c),
            CharClass::Slug => ('a' <= c <= 'z') || ('A' <= c <= 'Z') || ('0' <= c <= '9') || c
                == '_' || c == '-',
            CharClass::Space => is_whitespace(c),
        }
    }

    /// Tests whether `c` belongs to the class.
    pub fn test(self, c: char) -> (b: bool)
        ensures
            b == self.accepts(c),
    {
        let n: u32 = c as u32;
        match self {
            CharClass::Segment => c != '/',
            CharClass::Digit => 0x30 <= n && n <= 0x39,
            CharClass::Token => c != '/' && !char_is_whitespace(c),
            CharClass::Slug => (0x61 <= n && n <= 0x7A) || (0x41 <= n && n <= 0x5A) || (0x30 <= n
                && n <= 0x39) || c == '_' || c == '-',
            CharClass::Space => char_is_whitespace(c),
        }
    }
}

/// The end of the longest run of `class` characters that starts at `at`:
/// the first index from `at` on that holds no character of the class.
pub open spec fn run_end(s: Seq<char>, at: int, class: CharClass) -> int
    decreases s.len() - at,
{
    if 0 <= at < s.len() && class.accepts(s[at]) {
        run_end(s, at + 1, class)
    } else {
        at
    }
}

/// `run_end` delimits a run: it lies between `at` and the end of the text,
/// every character before it belongs to the class, and the one at it does not.
pub proof fn lemma_run_end(s: Seq<char>, at: int, class: CharClass)
    requires
        0 <= at <= s.len(),
    ensures
        at <= run_end(s, at, class) <= s.len(),
        forall|k: int| at <= k < run_end(s, at, class) ==> class.accepts(#[trigger] s[k]),
        run_end(s, at, class) < s.len() ==> !class.accepts(s[run_end(s, at, class)]),
    decreases s.len() - at,
{
    if at < s.len() && class.accepts(s[at]) {
        lemma_run_end(s, at + 1, class);
    }
}

/// A run is determined by its delimiting properties: if every character of
/// `s[at..end]` belongs to the class and the run cannot go on at `end`,
/// then `end` is `run_end(s, at, class)`.
pub proof fn lemma_run_end_unique(s: Seq<char>, at: int, end: int, class: CharClass)
    requires
        0 <= at <= end <= s.len(),
        forall|k: int| at <= k < end ==> class.accepts(#[trigger] s[k]),
        end < s.len() ==> !class.accepts(s[end]),
    ensures
        run_end(s, at, class) == end,
    decreases end - at,
{
    if at < end {
        assert(class.accepts(s[at]));
        lemma_run_end_unique(s, at + 1, end, class);
    }
}

/// Scans the longest run of `class` characters from `at` on and returns its end.
pub fn scan_run(s: &Vec<char>, at: usize, class: CharClass) -> (end: usize)
    requires
        at <= s.len(),
    ensures
        end == run_end(s@, at as int, class),
        at <= end <= s.len(),
{
    let mut i: usize = at;
    while i < s.len() && class.test(s[i])
        invariant
            at <= i <= s.len(),
            run_end(s@, at as int, class) == run_end(s@, i as int, class),
        decreases s.len() - i,
    {
        i += 1;
    }
    i
}

/// The start of the white space that ends `s[lo..hi]`: the least index from
/// `lo` on after which `s[..hi]` holds white space only.
pub open spec fn trailing_space_start(s: Seq<char>, lo: int, hi: int) -> int
    decreases hi - lo,
{
    if lo < hi <= s.len() && is_whitespace(s[hi - 1]) {
        trailing_space_start(s, lo, hi - 1)
    } else {
        hi
    }
}

/// `s` without the white space that surrounds it.
pub open spec fn trimmed(s: Seq<char>) -> Seq<char> {
    let a = run_end(s, 0, CharClass::Space);
    let b = trailing_space_start(s, a, s.len() as int);
    s.subrange(a, b)
}

/// `trailing_space_start` lies between `lo` and `hi`, only white space
/// follows it, and no white space stands just before it.
pub proof fn lemma_trailing_space_start(s: Seq<char>, lo: int, hi: int)
    requires
        0 <= lo <= hi <= s.len(),
    ensures
        lo <= trailing_space_start(s, lo, hi) <= hi,
        forall|k: int| trailing_space_start(s, lo, hi) <= k < hi ==> is_whitespace(#[trigger] s[k]),
        lo < trailing_space_start(s, lo, hi) ==> !is_whitespace(
            s[trailing_space_start(s, lo, hi) - 1],
        ),
    decreases hi - lo,
{
    if lo < hi && is_whitespace(s[hi - 1]) {
        lemma_trailing_space_start(s, lo, hi - 1);
    }
}

/// Trimming removes white space only, and all of it: what is cut off at
/// either end is white space, and what is left neither starts nor ends with it.
pub proof fn lemma_trimmed(s: Seq<char>)
    ensures
        ({
            let a = run_end(s, 0, CharClass::Space);
            let b = trailing_space_start(s, a, s.len() as int);
            &&& 0 <= a <= b <= s.len()
            &&& forall|k: int| 0 <= k < a ==> is_whitespace(#[trigger] s[k])
            &&& forall|k: int| b <= k < s.len() ==> is_whitespace(#[trigger] s[k])
            &&& a < b ==> !is_whitespace(s[a]) && !is_whitespace(s[b - 1])
        }),
        trimmed(s).len() > 0 ==> !is_whitespace(trimmed(s).first()) && !is_whitespace(
            trimmed(s).last(),
        ),
{
    lemma_run_end(s, 0, CharClass::Space);
    let a = run_end(s, 0, CharClass::Space);
    lemma_trailing_space_start(s, a, s.len() as int);
    assert forall|k: int| 0 <= k < a implies is_whitespace(#[trigger] s[k]) by {
        assert(CharClass::Space.accepts(s[k]));
    }
}

/// What stands in a text before `b` stands there in the text cut at `b`,
/// and the other way round.
pub proof fn lemma_prefix_in_cut(text: Seq<char>, b: int, at: int, p: Seq<char>)
    requires
        0 <= b <= text.len(),
    ensures
        has_prefix_at(text.subrange(0, b), at, p) ==> has_prefix_at(text, at, p),
        has_prefix_at(text, at, p) && at + p.len() <= b ==> has_prefix_at(
            text.subrange(0, b),
            at,
            p,
        ),
{
    let cut = text.subrange(0, b);
    if has_prefix_at(cut, at, p) {
        assert(text.subrange(at, at + p.len()) =~= cut.subrange(at, at + p.len()));
    }
    if has_prefix_at(text, at, p) && at + p.len() <= b {
        assert(cut.subrange(at, at + p.len()) =~= text.subrange(at, at + p.len()));
    }
}

/// The white space that ends a text starts after every character that is
/// no white space.
pub proof fn lemma_trailing_space_after(s: Seq<char>, lo: int, hi: int, k: int)
    requires
        0 <= lo <= k < hi <= s.len(),
        !is_whitespace(s[k]),
    ensures
        k < trailing_space_start(s, lo, hi) <= hi,
    decreases hi - lo,
{
    if is_whitespace(s[hi - 1]) {
        lemma_trailing_space_after(s, lo, hi - 1, k);
    }
}

/// Trimming a text that starts with no white space cuts it at its end
/// only, and after every character that is no white space.
pub proof fn lemma_trimmed_keeps(s: Seq<char>, k: int)
    requires
        0 <= k < s.len(),
        !is_whitespace(s[0]),
        !is_whitespace(s[k]),
    ensures
        k < trailing_space_start(s, 0, s.len() as int) <= s.len(),
        trimmed(s) == s.subrange(0, trailing_space_start(s, 0, s.len() as int)),
{
    assert(run_end(s, 0, CharClass::Space) == 0);
    lemma_trailing_space_after(s, 0, s.len() as int, k);
}

/// Removes the white space that surrounds `s`.
pub fn trim(s: &str) -> (r: &str)
    ensures
        r@ == trimmed(s@),
{
    let chars = chars_of(s);
    let a = scan_run(&chars, 0, CharClass::Space);
    let mut b: usize = chars.len();
    while a < b && char_is_whitespace(chars[b - 1])
        invariant
            a <= b <= chars.len(),
            trailing_space_start(chars@, a as int, chars.len() as int) == trailing_space_start(
                chars@,
                a as int,
                b as int,
            ),
        decreases b - a,
    {
        b -= 1;
    }
    s.substring_char(a, b)
}

/// The lower-case form of a text, as the standard library computes it.
pub uninterp spec fn lowercase_of(s: Seq<char>) -> Seq<char>;

/// `str::to_lowercase` of the standard library: the result is the
/// lower-case form of `s`, a function of the characters of `s` alone.
#[verifier::external_body]
pub(crate) fn to_lowercase(s: &str) -> (r: String)
    ensures
        r@ == lowercase_of(s@),
{
    s.to_lowercase()
}

/// Tests whether two texts hold the same characters.
pub fn same_text(a: &str, b: &str) -> (r: bool)
    ensures
        r == (a@ == b@),
{
    let x = chars_of(a);
    let y = chars_of(b);
    if x.len() != y.len() {
        return false;
    }
    let mut i: usize = 0;
    while i < x.len()
        invariant
            i <= x.len(),
            x.len() == y.len(),
            x@ == a@,
            y@ == b@,
            forall|k: int| 0 <= k < i ==> x@[k] == y@[k],
        decreases x.len() - i,
    {
        if x[i] != y[i] {
            return false;
        }
        i += 1;
    }
    assert(a@ =~= b@);
    true
}

/// The upper-case form of an ASCII character: the capital letter for a
/// small letter, the character itself for any other.
pub open spec fn ascii_uppercase(c: char) -> char {
    if 'a' <= c <= 'z' {
        ((c as u32) - 32) as char
    } else {
        c
    }
}

/// Returns the first character of `s`, an ASCII character, in upper case.
pub fn uppercase_first(s: &str) -> (upper: String)
    requires
        s@.len() > 0,
        (s@[0] as u32) < 128,
    ensures
        upper@ == seq![ascii_uppercase(s@[0])],
{
    let c = s.get_char(0);
    let n: u32 = c as u32;
    if 97 <= n && n <= 122 {
        let i: usize = (n - 97) as usize;
        proof {
            reveal_strlit("ABCDEFGHIJKLMNOPQRSTUVWXYZ");
        }
        let letter = "ABCDEFGHIJKLMNOPQRSTUVWXYZ".substring_char(i, i + 1);
        assert(letter@ =~= seq![ascii_uppercase(c)]) by {
            assert(letter@.len() == 1);
            assert(letter@[0] == "ABCDEFGHIJKLMNOPQRSTUVWXYZ"@[i as int]);
            assert("ABCDEFGHIJKLMNOPQRSTUVWXYZ"@[i as int] as u32 == 65 + i);
        }
        String::from_str(letter)
    } else {
        let first = s.substring_char(0, 1);
        assert(first@ =~= seq![ascii_uppercase(c)]);
        String::from_str(first)
    }
}

} // verus!
