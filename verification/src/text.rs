//! Character-level helpers on which the parsers and the request planner rest.
//!
//! Text is handled as sequences of `char`, the view that Verus gives to
//! `str` and `String`.

use vstd::prelude::*;

use crate::externs::push_char;

verus! {

/// The Unicode `White_Space` property, which is what `char::is_whitespace`
/// and `str::trim_start` test.
pub open spec fn is_white_space(c: char) -> bool {
    let u = c as u32;
    ||| 9 <= u <= 13
    ||| u == 32
    ||| u == 0x85
    ||| u == 0xA0
    ||| u == 0x1680
    ||| 0x2000 <= u <= 0x200A
    ||| u == 0x2028
    ||| u == 0x2029
    ||| u == 0x202F
    ||| u == 0x205F
    ||| u == 0x3000
}

/// `s` without its leading white space.
pub open spec fn trim_start_ws(s: Seq<char>) -> Seq<char>
    decreases s.len(),
{
    if s.len() > 0 && is_white_space(s[0]) {
        trim_start_ws(s.drop_first())
    } else {
        s
    }
}

/// `s` without any of the copies of `c` that end it.
pub open spec fn trim_end_char(s: Seq<char>, c: char) -> Seq<char>
    decreases s.len(),
{
    if s.len() > 0 && s.last() == c {
        trim_end_char(s.drop_last(), c)
    } else {
        s
    }
}

/// `s` without any of the copies of `c` that begin it.
pub open spec fn trim_start_char(s: Seq<char>, c: char) -> Seq<char>
    decreases s.len(),
{
    if s.len() > 0 && s[0] == c {
        trim_start_char(s.drop_first(), c)
    } else {
        s
    }
}

/// The view of an optional string.
pub open spec fn opt_string_view(o: Option<String>) -> Option<Seq<char>> {
    match o {
        Some(s) => Some(s@),
        None => None,
    }
}

/// Every character of `s` is white space.
pub open spec fn all_white_space(s: Seq<char>) -> bool {
    forall|i: int| 0 <= i < s.len() ==> is_white_space(#[trigger] s[i])
}

/// Tests `c` for the Unicode `White_Space` property.
pub fn char_is_white_space(c: char) -> (r: bool)
    ensures
        r == is_white_space(c),
{
    let u = c as u32;
    (9 <= u && u <= 13) || u == 32 || u == 0x85 || u == 0xA0 || u == 0x1680 || (0x2000 <= u
        && u <= 0x200A) || u == 0x2028 || u == 0x2029 || u == 0x202F || u == 0x205F || u
        == 0x3000
}

/// The characters of `s`, one per element.
pub fn chars_of(s: &str) -> (v: Vec<char>)
    ensures
        v@ == s@,
{
    let mut out: Vec<char> = Vec::new();
    for c in it: s.chars()
        invariant
            out@ == it.seq().take(it.index() as int),
    {
        out.push(c);
    }
    out
}

/// Appends the characters of `s` to `v`.
pub fn extend_chars(v: &mut Vec<char>, s: &str)
    ensures
        final(v)@ == old(v)@ + s@,
{
    let ghost start = v@;
    for c in it: s.chars()
        invariant
            v@ == start + it.seq().take(it.index() as int),
    {
        v.push(c);
        proof {
            assert(start + it.seq().take(it.index() as int + 1) =~= start + it.seq().take(
                it.index() as int,
            ).push(c));
        }
    }
}

/// The string made of `v[lo..hi]`.
pub fn string_from_chars(v: &Vec<char>, lo: usize, hi: usize) -> (s: String)
    requires
        lo <= hi <= v.len(),
    ensures
        s@ == v@.subrange(lo as int, hi as int),
{
    let mut s = String::new();
    let mut i = lo;
    while i < hi
        invariant
            lo <= i <= hi <= v.len(),
            s@ == v@.subrange(lo as int, i as int),
        decreases hi - i,
    {
        push_char(&mut s, v[i]);
        proof {
            assert(v@.subrange(lo as int, i + 1) =~= v@.subrange(lo as int, i as int).push(v@[i as int]));
        }
        i = i + 1;
    }
    s
}

/// The first index at or after `lo` and before `hi` whose character is not
/// white space, or `hi`; `v[result..hi]` is `v[lo..hi]` with its leading
/// white space trimmed.
pub fn skip_white_space(v: &Vec<char>, lo: usize, hi: usize) -> (j: usize)
    requires
        lo <= hi <= v.len(),
    ensures
        lo <= j <= hi,
        v@.subrange(j as int, hi as int) == trim_start_ws(v@.subrange(lo as int, hi as int)),
{
    let mut j = lo;
    while j < hi && char_is_white_space(v[j])
        invariant
            lo <= j <= hi <= v.len(),
            trim_start_ws(v@.subrange(j as int, hi as int)) == trim_start_ws(
                v@.subrange(lo as int, hi as int),
            ),
        decreases hi - j,
    {
        proof {
            assert(v@.subrange(j as int, hi as int).drop_first() =~= v@.subrange(
                j + 1,
                hi as int,
            ));
        }
        j = j + 1;
    }
    j
}

/// Tests whether some character of `v[lo..hi]` is not white space.
pub fn has_non_white_space(v: &Vec<char>, lo: usize, hi: usize) -> (r: bool)
    requires
        lo <= hi <= v.len(),
    ensures
        r == !all_white_space(v@.subrange(lo as int, hi as int)),
{
    let mut i = lo;
    while i < hi
        invariant
            lo <= i <= hi <= v.len(),
            forall|k: int| lo <= k < i ==> is_white_space(#[trigger] v@[k]),
        decreases hi - i,
    {
        if !char_is_white_space(v[i]) {
            proof {
                assert(v@.subrange(lo as int, hi as int)[i - lo] == v@[i as int]);
            }
            return true;
        }
        i = i + 1;
    }
    proof {
        assert forall|k: int| 0 <= k < hi - lo implies is_white_space(
            #[trigger] v@.subrange(lo as int, hi as int)[k],
        ) by {
            assert(v@.subrange(lo as int, hi as int)[k] == v@[lo + k]);
        }
    }
    false
}

/// The path `parent/child`.
pub fn child_path(parent: &str, child: &str) -> (p: String)
    ensures
        p@ == parent@ + seq!['/'] + child@,
{
    let mut p = String::from_str(parent);
    push_char(&mut p, '/');
    p.append(child);
    assert(p@ =~= parent@ + seq!['/'] + child@);
    p
}

} // verus!
