//! Character-level helpers shared by the text-handling modules.
use vstd::prelude::*;

verus! {

/// Appends one character to a string (`String::push`).
#[verifier::external_body]
pub(crate) fn push_char(s: &mut String, c: char)
    ensures
        final(s)@ == old(s)@.push(c),
{
    s.push(c);
}

/// The characters of `s`, in order.
pub fn chars_of(s: &str) -> (v: Vec<char>)
    ensures
        v@ == s@,
{
    let mut v: Vec<char> = Vec::new();
    for c in it: s.chars()
        invariant
            v@ == it.seq().take(it.index() as int),
    {
        v.push(c);
    }
    v
}

/// Appends `v[lo..hi]` to `s`.
pub fn push_chars(s: &mut String, v: &Vec<char>, lo: usize, hi: usize)
    requires
        lo <= hi <= v@.len(),
    ensures
        final(s)@ == old(s)@ + v@.subrange(lo as int, hi as int),
{
    let ghost start = s@;
    let mut i: usize = lo;
    while i < hi
        invariant
            lo <= i <= hi <= v@.len(),
            s@ == start + v@.subrange(lo as int, i as int),
        decreases hi - i,
    {
        push_char(s, v[i]);
        assert(v@.subrange(lo as int, i + 1) == v@.subrange(lo as int, i as int).push(v@[i as int]));
        i += 1;
    }
}

/// A new string made of `v[lo..hi]`.
pub fn string_from_chars(v: &Vec<char>, lo: usize, hi: usize) -> (s: String)
    requires
        lo <= hi <= v@.len(),
    ensures
        s@ == v@.subrange(lo as int, hi as int),
{
    let mut s = String::new();
    push_chars(&mut s, v, lo, hi);
    s
}

/// Whether `prefix` is an initial segment of `s`.
pub open spec fn has_prefix(s: Seq<char>, prefix: Seq<char>) -> bool {
    prefix.len() <= s.len() && s.subrange(0, prefix.len() as int) == prefix
}

/// Whether `s` begins with `prefix`.
pub fn starts_with(s: &str, prefix: &str) -> (b: bool)
    ensures
        b == has_prefix(s@, prefix@),
{
    let sv = chars_of(s);
    let pv = chars_of(prefix);
    if pv.len() > sv.len() {
        return false;
    }
    let mut i: usize = 0;
    while i < pv.len()
        invariant
            pv@ == prefix@,
            sv@ == s@,
            pv@.len() <= sv@.len(),
            i <= pv@.len(),
            forall|k: int| 0 <= k < i ==> sv@[k] == pv@[k],
        decreases pv@.len() - i,
    {
        if sv[i] != pv[i] {
            assert(sv@.subrange(0, pv@.len() as int)[i as int] != pv@[i as int]);
            return false;
        }
        i += 1;
    }
    assert(sv@.subrange(0, pv@.len() as int) =~= pv@);
    true
}

/// Whether two strings hold the same characters.
pub fn str_eq(a: &str, b: &str) -> (r: bool)
    ensures
        r == (a@ == b@),
{
    let av = chars_of(a);
    let bv = chars_of(b);
    if av.len() != bv.len() {
        return false;
    }
    let mut i: usize = 0;
    while i < av.len()
        invariant
            av@ == a@,
            bv@ == b@,
            av@.len() == bv@.len(),
            i <= av@.len(),
            forall|k: int| 0 <= k < i ==> av@[k] == bv@[k],
        decreases av@.len() - i,
    {
        if av[i] != bv[i] {
            return false;
        }
        i += 1;
    }
    assert(av@ =~= bv@);
    true
}

/// Unicode `White_Space`, the property that `char::is_whitespace` tests.
pub open spec fn is_whitespace_spec(c: char) -> bool {
    let u = c as u32;
    ||| 0x09 <= u <= 0x0D
    ||| u == 0x20
    ||| u == 0x85
    ||| u == 0xA0
    ||| u == 0x1680
    ||| 0x2000 <= u <= 0x200A
    ||| u == 0x2028
    ||| u == 0x2029
    ||| u == 0x202F
    ||| u == 0x205F
    ||| u == 0x3000
}

/// Whether `c` is a white-space character.
pub fn is_whitespace(c: char) -> (b: bool)
    ensures
        b == is_whitespace_spec(c),
{
    let u = c as u32;
    (0x09 <= u && u <= 0x0D) || u == 0x20 || u == 0x85 || u == 0xA0 || u == 0x1680 || (0x2000
        <= u && u <= 0x200A) || u == 0x2028 || u == 0x2029 || u == 0x202F || u == 0x205F || u
        == 0x3000
}

/// The ASCII lower-case form of one character: `A`-`Z` map to `a`-`z`, all else stays.
pub open spec fn ascii_lower_spec(c: char) -> char {
    if 'A' <= c <= 'Z' {
        ((c as u32) + 32) as char
    } else {
        c
    }
}

/// The ASCII lower-case form of a character sequence (`str::to_ascii_lowercase`).
pub open spec fn ascii_lowercase_spec(s: Seq<char>) -> Seq<char> {
    s.map_values(|c: char| ascii_lower_spec(c))
}

/// The ASCII lower-case form of `s`.
pub fn to_ascii_lowercase(s: &str) -> (r: String)
    ensures
        r@ == ascii_lowercase_spec(s@),
{
    let v = chars_of(s);
    let mut r = String::new();
    let mut i: usize = 0;
    while i < v.len()
        invariant
            v@ == s@,
            i <= v@.len(),
            r@ == ascii_lowercase_spec(v@.subrange(0, i as int)),
        decreases v@.len() - i,
    {
        let c = v[i];
        let l = if 'A' <= c && c <= 'Z' {
            let u = (c as u32) + 32;
            assert(0x61 <= u <= 0x7A);
            char_from_ascii(u)
        } else {
            c
        };
        push_char(&mut r, l);
        assert(ascii_lowercase_spec(v@.subrange(0, i + 1)) =~= ascii_lowercase_spec(
            v@.subrange(0, i as int),
        ).push(ascii_lower_spec(c)));
        i += 1;
    }
    assert(v@.subrange(0, v@.len() as int) =~= v@);
    r
}

/// The character with ASCII code `u`.
pub fn char_from_ascii(u: u32) -> (c: char)
    requires
        u < 0x80,
    ensures
        c as u32 == u,
{
    let b = u as u8;
    b as char
}

/// Removes white space from both ends (the character-level meaning of `str::trim`).
pub open spec fn trim_spec(s: Seq<char>) -> Seq<char> {
    s.subrange(trim_start_index(s, 0), trim_end_index(s, s.len() as int, trim_start_index(s, 0)))
}

/// Index of the first non-white-space character at or after `i`, or `s.len()`.
pub open spec fn trim_start_index(s: Seq<char>, i: int) -> int
    decreases s.len() - i,
{
    if i >= s.len() || i < 0 {
        s.len() as int
    } else if is_whitespace_spec(s[i]) {
        trim_start_index(s, i + 1)
    } else {
        i
    }
}

/// One past the last non-white-space character before `j` that is not before `lo`.
pub open spec fn trim_end_index(s: Seq<char>, j: int, lo: int) -> int
    decreases j - lo,
{
    if j <= lo {
        lo
    } else if is_whitespace_spec(s[j - 1]) {
        trim_end_index(s, j - 1, lo)
    } else {
        j
    }
}

} // verus!
