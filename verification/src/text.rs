//! Text scanning: whitespace, trimming, splitting into lines, fields and
//! pieces, and substring search.
//!
//! Every function is specified over the sequence of characters of its
//! argument; positions are character positions, never byte offsets.
use vstd::prelude::*;

verus! {

/// The characters with the Unicode `White_Space` property.
pub open spec fn is_whitespace(c: char) -> bool {
    let n = c as u32;
    ||| 0x09 <= n <= 0x0d
    ||| n == 0x20
    ||| n == 0x85
    ||| n == 0xa0
    ||| n == 0x1680
    ||| 0x2000 <= n <= 0x200a
    ||| n == 0x2028
    ||| n == 0x2029
    ||| n == 0x202f
    ||| n == 0x205f
    ||| n == 0x3000
}

/// What a forward scan is looking for.
#[derive(Clone, Copy, Debug)]
pub enum Stop {
    /// The next occurrence of one character.
    At(char),
    /// The next whitespace character.
    AtWhitespace,
    /// The next character that is not whitespace.
    AtInk,
}

impl Stop {
    /// Whether a scan for `self` stops on `c`.
    pub open spec fn hits(self, c: char) -> bool {
        match self {
            Stop::At(d) => c == d,
            Stop::AtWhitespace => is_whitespace(c),
            Stop::AtInk => !is_whitespace(c),
        }
    }
}

/// The first position at or after `i` on which a scan for `stop` stops, or
/// the length of `s` when there is none. For `i` outside `0..s.len()` the
/// result is `i` itself.
pub open spec fn scan_from(s: Seq<char>, i: int, stop: Stop) -> int
    decreases s.len() - i,
{
    if 0 <= i < s.len() && !stop.hits(s[i]) {
        scan_from(s, i + 1, stop)
    } else {
        i
    }
}

/// Where trailing whitespace begins: the least `k` in `lo..=j` such that
/// all of `s[k..j]` is whitespace.
pub open spec fn retreat_from(s: Seq<char>, lo: int, j: int) -> int
    decreases j - lo,
{
    if lo < j <= s.len() && is_whitespace(s[j - 1]) {
        retreat_from(s, lo, j - 1)
    } else {
        j
    }
}

/// `s` without its leading and trailing whitespace.
pub open spec fn trim_of(s: Seq<char>) -> Seq<char> {
    let a = scan_from(s, 0, Stop::AtInk);
    let b = retreat_from(s, a, s.len() as int);
    s.subrange(a, b)
}

/// The pieces of `s` from position `i` on, cut at each occurrence of `sep`.
/// There is always at least one piece; a separator at the very end is
/// followed by an empty piece.
pub open spec fn pieces_from(s: Seq<char>, sep: char, i: int) -> Seq<Seq<char>>
    decreases s.len() - i,
{
    let e = scan_from(s, i, Stop::At(sep));
    if 0 <= i <= e < s.len() {
        seq![s.subrange(i, e)] + pieces_from(s, sep, e + 1)
    } else {
        seq![s.subrange(i, s.len() as int)]
    }
}

/// The pieces of `s` between occurrences of `sep`.
pub open spec fn pieces_of(s: Seq<char>, sep: char) -> Seq<Seq<char>> {
    pieces_from(s, sep, 0)
}

/// The lines of `s` from position `i` on. A line ends before a line feed or
/// at the end of the text; a line feed at the very end starts no further
/// line. A carriage return is an ordinary character of its line.
pub open spec fn lines_from(s: Seq<char>, i: int) -> Seq<Seq<char>>
    decreases s.len() - i,
{
    let e = scan_from(s, i, Stop::At('\n'));
    if !(0 <= i < s.len()) {
        seq![]
    } else if i <= e < s.len() {
        seq![s.subrange(i, e)] + lines_from(s, e + 1)
    } else {
        seq![s.subrange(i, s.len() as int)]
    }
}

/// The lines of `s`.
pub open spec fn lines_of(s: Seq<char>) -> Seq<Seq<char>> {
    lines_from(s, 0)
}

/// The maximal runs of non-whitespace characters of `s` from position `i`
/// on, in order.
pub open spec fn fields_from(s: Seq<char>, i: int) -> Seq<Seq<char>>
    decreases s.len() - i,
{
    let a = scan_from(s, i, Stop::AtInk);
    let b = scan_from(s, a, Stop::AtWhitespace);
    if 0 <= i <= a < b <= s.len() {
        seq![s.subrange(a, b)] + fields_from(s, b)
    } else {
        seq![]
    }
}

/// The whitespace-separated fields of `s`.
pub open spec fn fields_of(s: Seq<char>) -> Seq<Seq<char>> {
    fields_from(s, 0)
}

/// Whether `needle` stands in `hay` at position `i`.
pub open spec fn occurs_at(hay: Seq<char>, needle: Seq<char>, i: int) -> bool {
    &&& 0 <= i
    &&& i + needle.len() <= hay.len()
    &&& hay.subrange(i, i + needle.len()) == needle
}

/// Whether `needle` stands somewhere in `hay`. The empty text stands in
/// every text.
pub open spec fn occurs_in(hay: Seq<char>, needle: Seq<char>) -> bool {
    exists|i: int| occurs_at(hay, needle, i)
}

/// The character sequences of a list of strings.
pub open spec fn views(v: Seq<String>) -> Seq<Seq<char>> {
    Seq::new(v.len(), |i: int| v[i]@)
}

/// The lower-case form of a text under the Unicode case mapping.
pub uninterp spec fn lowercase_of(s: Seq<char>) -> Seq<char>;

/// A scan never moves backwards, ends within the text, stops only where it
/// should, and passes over nothing it should have stopped on.
pub proof fn lemma_scan_from(s: Seq<char>, i: int, stop: Stop)
    requires
        0 <= i <= s.len(),
    ensures
        i <= scan_from(s, i, stop) <= s.len(),
        scan_from(s, i, stop) < s.len() ==> stop.hits(s[scan_from(s, i, stop)]),
        forall|k: int| i <= k < scan_from(s, i, stop) ==> !stop.hits(#[trigger] s[k]),
    decreases s.len() - i,
{
    if i < s.len() && !stop.hits(s[i]) {
        lemma_scan_from(s, i + 1, stop);
    }
}

/// Whether `c` is whitespace.
pub fn whitespace(c: char) -> (b: bool)
    ensures
        b == is_whitespace(c),
{
    let n: u32 = c as u32;
    (0x09 <= n && n <= 0x0d) || n == 0x20 || n == 0x85 || n == 0xa0 || n == 0x1680 || (0x2000
        <= n && n <= 0x200a) || n == 0x2028 || n == 0x2029 || n == 0x202f || n == 0x205f || n
        == 0x3000
}

/// `str::to_lowercase`: the result is the lower-case form of `s` as the
/// Unicode case mapping of the standard library defines it. Nothing is
/// claimed about which characters that mapping changes.
#[verifier::external_body]
pub(crate) fn to_lowercase(s: &str) -> (r: String)
    ensures
        r@ == lowercase_of(s@),
{
    s.to_lowercase()
}

/// The characters of `s`, one by one.
pub fn chars_of(s: &str) -> (v: Vec<char>)
    ensures
        v@ == s@,
{
    let mut v: Vec<char> = Vec::new();
    for c in it: s.chars()
        invariant
            v@ == it.seq().subrange(0, it.index() as int),
            it.seq() == s@,
    {
        v.push(c);
    }
    v
}

fn hits(stop: Stop, c: char) -> (b: bool)
    ensures
        b == stop.hits(c),
{
    match stop {
        Stop::At(d) => c == d,
        Stop::AtWhitespace => whitespace(c),
        Stop::AtInk => !whitespace(c),
    }
}

/// Scans `chars` forward from `i` for `stop`.
pub fn scan(chars: &Vec<char>, i: usize, stop: Stop) -> (e: usize)
    requires
        i <= chars@.len(),
    ensures
        e == scan_from(chars@, i as int, stop),
        i <= e <= chars@.len(),
        e < chars@.len() ==> stop.hits(chars@[e as int]),
        forall|k: int| i <= k < e ==> !stop.hits(#[trigger] chars@[k]),
{
    proof {
        lemma_scan_from(chars@, i as int, stop);
    }
    let n = chars.len();
    let mut j: usize = i;
    while j < n && !hits(stop, chars[j])
        invariant
            n == chars@.len(),
            i <= j <= n,
            scan_from(chars@, j as int, stop) == scan_from(chars@, i as int, stop),
        decreases n - j,
    {
        j = j + 1;
    }
    j
}

/// `s` without its leading and trailing whitespace.
pub fn trim<'a>(s: &'a str) -> (r: &'a str)
    ensures
        r@ == trim_of(s@),
        r@.len() > 0 ==> !is_whitespace(r@[0]) && !is_whitespace(r@[r@.len() - 1]),
{
    let chars = chars_of(s);
    let a = scan(&chars, 0, Stop::AtInk);
    let mut b: usize = chars.len();
    while b > a && whitespace(chars[b - 1])
        invariant
            chars@ == s@,
            a <= b <= chars@.len(),
            retreat_from(chars@, a as int, b as int) == retreat_from(
                chars@,
                a as int,
                chars@.len() as int,
            ),
        decreases b - a,
    {
        b = b - 1;
    }
    s.substring_char(a, b)
}

/// Whether `chars` spells `text`.
pub fn chars_are(chars: &Vec<char>, text: &str) -> (r: bool)
    ensures
        r == (chars@ == text@),
{
    let y = chars_of(text);
    if chars.len() != y.len() {
        return false;
    }
    let n = chars.len();
    let mut i: usize = 0;
    while i < n
        invariant
            n == chars@.len(),
            n == y@.len(),
            y@ == text@,
            i <= n,
            forall|k: int| 0 <= k < i ==> chars@[k] == y@[k],
        decreases n - i,
    {
        if chars[i] != y[i] {
            return false;
        }
        i = i + 1;
    }
    assert(chars@ =~= y@);
    true
}

/// Whether two texts hold the same characters.
pub fn same_text(a: &str, b: &str) -> (r: bool)
    ensures
        r == (a@ == b@),
{
    let x = chars_of(a);
    chars_are(&x, b)
}

/// Whether `needle` stands somewhere in `hay`.
pub fn contains(hay: &str, needle: &str) -> (r: bool)
    ensures
        r == occurs_in(hay@, needle@),
{
    let h = chars_of(hay);
    let p = chars_of(needle);
    let hn = h.len();
    let pn = p.len();
    if pn > hn {
        return false;
    }
    let last = hn - pn;
    let mut i: usize = 0;
    while i <= last
        invariant
            h@ == hay@,
            p@ == needle@,
            hn == h@.len(),
            pn == p@.len(),
            pn <= hn,
            last == hn - pn,
            i <= last + 1,
            forall|k: int| 0 <= k < i ==> !occurs_at(hay@, needle@, k),
        decreases last + 1 - i,
    {
        let mut j: usize = 0;
        while j < pn && h[i + j] == p[j]
            invariant
                hn == h@.len(),
                pn == p@.len(),
                i + pn <= hn,
                j <= pn,
                forall|t: int| 0 <= t < j ==> h@[i + t] == p@[t],
            decreases pn - j,
        {
            j = j + 1;
        }
        if j == pn {
            assert(h@.subrange(i as int, i + pn) =~= p@);
            assert(occurs_at(hay@, needle@, i as int));
            return true;
        }
        i = i + 1;
    }
    false
}

/// The pieces of `s` between occurrences of `sep`.
pub fn split(s: &str, sep: char) -> (out: Vec<String>)
    ensures
        views(out@) == pieces_of(s@, sep),
        out@.len() >= 1,
{
    let chars = chars_of(s);
    let n = chars.len();
    let mut out: Vec<String> = Vec::new();
    let mut i: usize = 0;
    loop
        invariant_except_break
            chars@ == s@,
            n == chars@.len(),
            i <= n,
            views(out@) + pieces_from(s@, sep, i as int) == pieces_of(s@, sep),
        ensures
            views(out@) == pieces_of(s@, sep),
            out@.len() >= 1,
        decreases n - i,
    {
        let e = scan(&chars, i, Stop::At(sep));
        let ghost before = views(out@);
        out.push(String::from_str(s.substring_char(i, e)));
        if e >= n {
            break ;
        }
        assert(before + pieces_from(s@, sep, i as int) =~= views(out@) + pieces_from(
            s@,
            sep,
            e + 1,
        ));
        i = e + 1;
    }
    out
}

/// The lines of `s`.
pub fn lines(s: &str) -> (out: Vec<String>)
    ensures
        views(out@) == lines_of(s@),
{
    let chars = chars_of(s);
    let n = chars.len();
    let mut out: Vec<String> = Vec::new();
    let mut i: usize = 0;
    while i < n
        invariant
            chars@ == s@,
            n == chars@.len(),
            i <= n,
            views(out@) + lines_from(s@, i as int) == lines_of(s@),
        decreases n - i,
    {
        let e = scan(&chars, i, Stop::At('\n'));
        out.push(String::from_str(s.substring_char(i, e)));
        if e >= n {
            i = n;
        } else {
            i = e + 1;
        }
    }
    out
}

/// The whitespace-separated fields of `s`.
pub fn fields(s: &str) -> (out: Vec<String>)
    ensures
        views(out@) == fields_of(s@),
{
    let chars = chars_of(s);
    let n = chars.len();
    let mut out: Vec<String> = Vec::new();
    let mut i: usize = 0;
    loop
        invariant_except_break
            chars@ == s@,
            n == chars@.len(),
            i <= n,
            views(out@) + fields_from(s@, i as int) == fields_of(s@),
        ensures
            views(out@) == fields_of(s@),
        decreases n - i,
    {
        let a = scan(&chars, i, Stop::AtInk);
        if a >= n {
            break ;
        }
        let b = scan(&chars, a, Stop::AtWhitespace);
        out.push(String::from_str(s.substring_char(a, b)));
        i = b;
    }
    out
}

} // verus!
