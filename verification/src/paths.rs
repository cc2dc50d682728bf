//! File names inside path texts.
//!
//! A path is read as text in which `/` separates the components. Two
//! readings are on offer. The file name is plainly what follows the last
//! `/`, so a path that ends in `/` has the empty file name. The final
//! component is the last component that names something: slashes at the
//! end and components that are a single dot are passed over, and a path
//! that ends in `..` has none.
use vstd::prelude::*;
use crate::text::chars_of;

verus! {

/// The position of the last `c` before position `j`, or -1 when there is
/// none.
pub open spec fn last_index_of(s: Seq<char>, c: char, j: int) -> int
    decreases j,
{
    if j <= 0 || j > s.len() {
        -1
    } else if s[j - 1] == c {
        j - 1
    } else {
        last_index_of(s, c, j - 1)
    }
}

/// What follows the last `/` of a path: all of it when it holds none.
pub open spec fn file_name_of(path: Seq<char>) -> Seq<char> {
    path.subrange(last_index_of(path, '/', path.len() as int) + 1, path.len() as int)
}

/// Whether a file name divides into a stem and an extension: it holds a
/// dot that is not its first character, and it is not `..`.
pub open spec fn has_extension(name: Seq<char>) -> bool {
    last_index_of(name, '.', name.len() as int) > 0 && name != seq!['.', '.']
}

/// The extension of a file name: what follows its last dot.
pub open spec fn extension_of(name: Seq<char>) -> Option<Seq<char>> {
    if has_extension(name) {
        Some(name.subrange(last_index_of(name, '.', name.len() as int) + 1, name.len() as int))
    } else {
        None
    }
}

/// The stem of a file name: what stands before its last dot, or the whole
/// name when it has no extension.
pub open spec fn stem_of(name: Seq<char>) -> Seq<char> {
    if has_extension(name) {
        name.subrange(0, last_index_of(name, '.', name.len() as int))
    } else {
        name
    }
}

/// Where the slashes that end `s[..j]` begin.
pub open spec fn before_slashes(s: Seq<char>, j: int) -> int
    decreases j,
{
    if 0 < j <= s.len() && s[j - 1] == '/' {
        before_slashes(s, j - 1)
    } else {
        j
    }
}

/// The final component of `s[..j]`: the last of its components that is
/// neither empty nor a single dot, unless that is `..` or there is none.
pub open spec fn final_component_before(s: Seq<char>, j: int) -> Option<Seq<char>>
    decreases j,
{
    let e = before_slashes(s, j);
    let b = last_index_of(s, '/', e) + 1;
    if !(0 <= b < e <= j && e <= s.len()) {
        None
    } else if s.subrange(b, e) == seq!['.'] {
        final_component_before(s, b)
    } else if s.subrange(b, e) == seq!['.', '.'] {
        None
    } else {
        Some(s.subrange(b, e))
    }
}

/// The final component of a path.
pub open spec fn final_component_of(path: Seq<char>) -> Option<Seq<char>> {
    final_component_before(path, path.len() as int)
}

/// The stem of a path: the stem of its final component, or the empty text
/// when it has none.
pub open spec fn path_stem_of(path: Seq<char>) -> Seq<char> {
    match final_component_of(path) {
        Some(name) => stem_of(name),
        None => Seq::empty(),
    }
}

/// The extension of a path: the extension of its final component.
pub open spec fn path_extension_of(path: Seq<char>) -> Option<Seq<char>> {
    match final_component_of(path) {
        Some(name) => extension_of(name),
        None => None,
    }
}

/// The last index lies before `j`, holds `c` when it is a position at all,
/// and nothing after it and before `j` holds `c`.
pub proof fn lemma_last_index_of(s: Seq<char>, c: char, j: int)
    requires
        0 <= j <= s.len(),
    ensures
        -1 <= last_index_of(s, c, j) < j,
        last_index_of(s, c, j) >= 0 ==> s[last_index_of(s, c, j)] == c,
        forall|k: int| last_index_of(s, c, j) < k < j ==> #[trigger] s[k] != c,
    decreases j,
{
    if j > 0 && s[j - 1] != c {
        lemma_last_index_of(s, c, j - 1);
    }
}

/// Where the last `c` of `chars` stands, if there is one.
fn last_position(chars: &Vec<char>, c: char) -> (r: Option<usize>)
    ensures
        match r {
            Some(k) => k < chars@.len() && k == last_index_of(chars@, c, chars@.len() as int),
            None => last_index_of(chars@, c, chars@.len() as int) == -1,
        },
{
    let n = chars.len();
    let mut j: usize = n;
    while j > 0
        invariant
            n == chars@.len(),
            j <= n,
            last_index_of(chars@, c, j as int) == last_index_of(chars@, c, n as int),
        decreases j,
    {
        if chars[j - 1] == c {
            return Some(j - 1);
        }
        j = j - 1;
    }
    None
}

/// The file name of a path.
pub fn file_name<'a>(path: &'a str) -> (r: &'a str)
    ensures
        r@ == file_name_of(path@),
{
    let chars = chars_of(path);
    let n = chars.len();
    match last_position(&chars, '/') {
        Some(k) => path.substring_char(k + 1, n),
        None => path.substring_char(0, n),
    }
}

/// Where the dot stands that divides a file name, if it has an extension.
fn dividing_dot(chars: &Vec<char>) -> (r: Option<usize>)
    ensures
        r is Some == has_extension(chars@),
        r matches Some(k) ==> 0 < k < chars@.len() && k == last_index_of(
            chars@,
            '.',
            chars@.len() as int,
        ),
{
    let n = chars.len();
    proof {
        lemma_last_index_of(chars@, '.', n as int);
    }
    match last_position(chars, '.') {
        Some(k) => {
            if k == 0 {
                None
            } else if n == 2 && chars[0] == '.' {
                assert(chars@ =~= seq!['.', '.']);
                None
            } else {
                Some(k)
            }
        },
        None => None,
    }
}

/// The extension of a file name.
pub fn extension<'a>(name: &'a str) -> (r: Option<&'a str>)
    ensures
        match r {
            Some(e) => extension_of(name@) == Some(e@),
            None => extension_of(name@) is None,
        },
{
    let chars = chars_of(name);
    let n = chars.len();
    match dividing_dot(&chars) {
        Some(k) => Some(name.substring_char(k + 1, n)),
        None => None,
    }
}

/// The stem of a file name.
pub fn file_stem<'a>(name: &'a str) -> (r: &'a str)
    ensures
        r@ == stem_of(name@),
{
    let chars = chars_of(name);
    let n = chars.len();
    match dividing_dot(&chars) {
        Some(k) => name.substring_char(0, k),
        None => {
            name.substring_char(0, n)
        },
    }
}

/// The final component of a path.
pub fn final_component<'a>(path: &'a str) -> (r: Option<&'a str>)
    ensures
        match r {
            Some(name) => final_component_of(path@) == Some(name@),
            None => final_component_of(path@) is None,
        },
{
    let chars = chars_of(path);
    let mut j: usize = chars.len();
    loop
        invariant
            chars@ == path@,
            j <= chars@.len(),
            final_component_before(chars@, j as int) == final_component_of(path@),
        decreases j,
    {
        let mut e: usize = j;
        while e > 0 && chars[e - 1] == '/'
            invariant
                e <= j <= chars@.len(),
                before_slashes(chars@, e as int) == before_slashes(chars@, j as int),
            decreases e,
        {
            e = e - 1;
        }
        if e == 0 {
            return None;
        }
        let mut b: usize = e;
        while b > 0 && chars[b - 1] != '/'
            invariant
                b <= e <= chars@.len(),
                last_index_of(chars@, '/', b as int) == last_index_of(chars@, '/', e as int),
            decreases b,
        {
            b = b - 1;
        }
        let ghost name = chars@.subrange(b as int, e as int);
        assert(name.len() == e - b);
        assert(name[0] == chars@[b as int]);
        if e - b == 1 && chars[b] == '.' {
            assert(name =~= seq!['.']);
            j = b;
        } else if e - b == 2 && chars[b] == '.' && chars[b + 1] == '.' {
            assert(name =~= seq!['.', '.']);
            return None;
        } else {
            return Some(path.substring_char(b, e));
        }
    }
}

/// The stem of a path.
pub fn path_stem<'a>(path: &'a str) -> (r: &'a str)
    ensures
        r@ == path_stem_of(path@),
{
    match final_component(path) {
        Some(name) => file_stem(name),
        None => path.substring_char(0, 0),
    }
}

/// The extension of a path.
pub fn path_extension<'a>(path: &'a str) -> (r: Option<&'a str>)
    ensures
        match r {
            Some(e) => path_extension_of(path@) == Some(e@),
            None => path_extension_of(path@) is None,
        },
{
    match final_component(path) {
        Some(name) => extension(name),
        None => None,
    }
}

} // verus!
