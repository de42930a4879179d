//! Characters, white space and searching in text.

use vstd::prelude::*;
use vstd::std_specs::iter::IteratorSpec;
use vstd::string::StrSliceExecFns;

verus! {

/// The text of an optional string slice.
pub open spec fn opt_text(s: Option<&str>) -> Option<Seq<char>> {
    match s {
        Some(t) => Some(t@),
        None => None,
    }
}

/// The characters of `s`, in order.
pub fn chars_of(s: &str) -> (r: Vec<char>)
    ensures
        r@ == s@,
{
    broadcast use vstd::string::axiom_spec_iter;
    broadcast use vstd::string::next_postcondition;

    let mut out: Vec<char> = Vec::new();
    let mut it = s.chars();
    assert(it.remaining() == s@);
    loop
        invariant
            it.obeys_prophetic_iter_laws(),
            it.decrease() is Some,
            out@ + it.remaining() == s@,
        ensures
            out@ == s@,
        decreases it.decrease()->0,
    {
        match it.next() {
            Some(c) => {
                out.push(c);
                assert(out@ + it.remaining() =~= s@);
            },
            None => {
                assert(out@ + it.remaining() =~= out@);
                break ;
            },
        }
    }
    out
}

/// White space, as Unicode's property `White_Space` has it.
pub open spec fn is_space(c: char) -> bool {
    let u = c as u32;
    ||| 0x09 <= u <= 0x0d
    ||| u == 0x20
    ||| u == 0x85
    ||| u == 0xa0
    ||| u == 0x1680
    ||| 0x2000 <= u <= 0x200a
    ||| u == 0x2028
    ||| u == 0x2029
    ||| u == 0x202f
    ||| u == 0x205f
    ||| u == 0x3000
}

/// Whether `c` is white space.
pub fn is_space_char(c: char) -> (r: bool)
    ensures
        r == is_space(c),
{
    let u: u32 = c as u32;
    (0x09 <= u && u <= 0x0d) || u == 0x20 || u == 0x85 || u == 0xa0 || u == 0x1680 || (0x2000 <= u
        && u <= 0x200a) || u == 0x2028 || u == 0x2029 || u == 0x202f || u == 0x205f || u == 0x3000
}

/// The first position in `lo..hi` that holds no white space, or `hi`.
pub open spec fn trim_start(s: Seq<char>, lo: int, hi: int) -> int
    decreases hi - lo,
{
    if 0 <= lo < hi <= s.len() && is_space(s[lo]) {
        trim_start(s, lo + 1, hi)
    } else {
        lo
    }
}

/// The end of `lo..hi` once the white space at its end is taken off.
pub open spec fn trim_end(s: Seq<char>, lo: int, hi: int) -> int
    decreases hi - lo,
{
    if 0 <= lo < hi <= s.len() && is_space(s[hi - 1]) {
        trim_end(s, lo, hi - 1)
    } else {
        hi
    }
}

/// The first position in `lo..hi` that holds `c`, or `hi`.
pub open spec fn find_char(s: Seq<char>, c: char, lo: int, hi: int) -> int
    decreases hi - lo,
{
    if 0 <= lo < hi <= s.len() && s[lo] != c {
        find_char(s, c, lo + 1, hi)
    } else {
        lo
    }
}

/// The first position in `lo..hi` that holds no white space, or `hi`.
pub fn skip_spaces(s: &Vec<char>, lo: usize, hi: usize) -> (r: usize)
    requires
        lo <= hi <= s.len(),
    ensures
        r == trim_start(s@, lo as int, hi as int),
        lo <= r <= hi,
{
    let mut i: usize = lo;
    while i < hi && is_space_char(s[i])
        invariant
            lo <= i <= hi <= s.len(),
            trim_start(s@, i as int, hi as int) == trim_start(s@, lo as int, hi as int),
        decreases hi - i,
    {
        i += 1;
    }
    i
}

/// The end of `lo..hi` once the white space at its end is taken off.
pub fn drop_spaces(s: &Vec<char>, lo: usize, hi: usize) -> (r: usize)
    requires
        lo <= hi <= s.len(),
    ensures
        r == trim_end(s@, lo as int, hi as int),
        lo <= r <= hi,
{
    let mut j: usize = hi;
    while lo < j && is_space_char(s[j - 1])
        invariant
            lo <= j <= hi <= s.len(),
            trim_end(s@, lo as int, j as int) == trim_end(s@, lo as int, hi as int),
        decreases j - lo,
    {
        j -= 1;
    }
    j
}

/// The first position in `lo..hi` that holds `c`, or `hi`.
pub fn find(s: &Vec<char>, c: char, lo: usize, hi: usize) -> (r: usize)
    requires
        lo <= hi <= s.len(),
    ensures
        r == find_char(s@, c, lo as int, hi as int),
        lo <= r <= hi,
        r < hi ==> s[r as int] == c,
{
    let mut i: usize = lo;
    while i < hi && s[i] != c
        invariant
            lo <= i <= hi <= s.len(),
            find_char(s@, c, i as int, hi as int) == find_char(s@, c, lo as int, hi as int),
        decreases hi - i,
    {
        i += 1;
    }
    i
}

/// The code of `c` with an ASCII capital letter turned into its small one.
pub open spec fn lower_code(c: char) -> u32 {
    let u = c as u32;
    if 0x41 <= u <= 0x5a {
        (u + 32) as u32
    } else {
        u
    }
}

/// Whether `s`, read without regard to the case of ASCII letters, is `name`.
/// `name` is meant to hold no capital letter.
pub open spec fn is_name(s: Seq<char>, name: Seq<char>) -> bool {
    &&& s.len() == name.len()
    &&& forall|i: int| 0 <= i < s.len() ==> lower_code(#[trigger] s[i]) == name[i] as u32
}

/// Whether `lo..hi` of `s`, read without regard to the case of ASCII
/// letters, is `name`.
pub fn has_name(s: &Vec<char>, lo: usize, hi: usize, name: &str) -> (r: bool)
    requires
        lo <= hi <= s.len(),
    ensures
        r == is_name(s@.subrange(lo as int, hi as int), name@),
{
    let m = name.unicode_len();
    if hi - lo != m {
        return false;
    }
    let ghost part = s@.subrange(lo as int, hi as int);
    let mut i: usize = 0;
    while i < m
        invariant
            lo <= hi <= s.len(),
            m == name@.len(),
            hi - lo == m,
            i <= m,
            part == s@.subrange(lo as int, hi as int),
            forall|j: int| 0 <= j < i ==> lower_code(#[trigger] part[j]) == name@[j] as u32,
        decreases m - i,
    {
        let u: u32 = s[lo + i] as u32;
        let low: u32 = if 0x41 <= u && u <= 0x5a {
            u + 32
        } else {
            u
        };
        assert(part[i as int] == s[lo + i]);
        if low != name.get_char(i) as u32 {
            return false;
        }
        i += 1;
    }
    true
}

} // verus!
