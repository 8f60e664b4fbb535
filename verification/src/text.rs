//! Character-level helpers shared by the whole library.
//!
//! All string logic in this crate works on `Vec<char>` with `Seq<char>`
//! views, so that contracts can speak directly about the characters of the
//! strings involved. These two trusted items move between `str`/`String`
//! and `Vec<char>`.

use vstd::prelude::*;

verus! {

/// Relies on str::chars: it yields the characters of the string in order,
/// so the collected vector views exactly as the string does.
#[verifier::external_body]
pub(crate) fn str_chars(s: &str) -> (r: Vec<char>)
    ensures
        r@ == s@,
{
    s.chars().collect()
}

/// Relies on String's FromIterator<char> impl: collecting characters builds
/// the string made of exactly those characters in order.
#[verifier::external_body]
pub(crate) fn chars_to_string(v: &Vec<char>) -> (r: String)
    ensures
        r@ == v@,
{
    v.iter().collect()
}

/// Appends every character of `src` to `dest`, in order.
pub(crate) fn push_chars(dest: &mut Vec<char>, src: &str)
    ensures
        final(dest)@ == old(dest)@ + src@,
{
    let chars = str_chars(src);
    let ghost start = dest@;
    let mut i: usize = 0;
    while i < chars.len()
        invariant
            i <= chars.len(),
            chars@ == src@,
            dest@ == start + src@.take(i as int),
        decreases chars.len() - i,
    {
        let c = chars[i];
        dest.push(c);
        i = i + 1;
        assert(dest@ =~= start + src@.take(i as int));
    }
    assert(dest@ =~= start + src@);
}

/// The characters of `v` from `from` (inclusive) to `to` (exclusive).
pub(crate) fn sub_chars(v: &Vec<char>, from: usize, to: usize) -> (r: Vec<char>)
    requires
        from <= to <= v@.len(),
    ensures
        r@ == v@.subrange(from as int, to as int),
{
    let mut r: Vec<char> = Vec::new();
    let mut i: usize = from;
    while i < to
        invariant
            from <= i <= to <= v@.len(),
            r@ == v@.subrange(from as int, i as int),
        decreases to - i,
    {
        r.push(v[i]);
        i = i + 1;
        assert(r@ =~= v@.subrange(from as int, i as int));
    }
    r
}

} // verus!
