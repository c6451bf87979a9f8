//! Lines, trimming, joining and case folding of text.

use vstd::prelude::*;
use vstd::string::StringExecFns;
use crate::text::{scan_until, slice_of, text_of_all, until};

verus! {

/// The lower-case form of a text, as the standard library computes it with
/// the Unicode case mappings.
pub uninterp spec fn lowercase(s: Seq<char>) -> Seq<char>;

/// `str::to_lowercase` returns the lower-case form of the whole string.
pub assume_specification[ str::to_lowercase ](s: &str) -> (r: String)
    ensures
        r@ == lowercase(s@),
;

/// Whether `c` is white space: a character with the Unicode property
/// `White_Space`.
pub open spec fn is_space(c: char) -> bool {
    let n = c as u32;
    (0x09 <= n && n <= 0x0D) || n == 0x20 || n == 0x85 || n == 0xA0 || n == 0x1680 || (0x2000 <= n
        && n <= 0x200A) || n == 0x2028 || n == 0x2029 || n == 0x202F || n == 0x205F || n == 0x3000
}

/// Whether `c` is white space.
pub fn char_is_space(c: char) -> (r: bool)
    ensures
        r == is_space(c),
{
    let n: u32 = c as u32;
    (0x09 <= n && n <= 0x0D) || n == 0x20 || n == 0x85 || n == 0xA0 || n == 0x1680 || (0x2000 <= n
        && n <= 0x200A) || n == 0x2028 || n == 0x2029 || n == 0x202F || n == 0x205F || n == 0x3000
}

/// `s` without the white space at its start.
pub open spec fn trim_start(s: Seq<char>) -> Seq<char>
    decreases s.len(),
{
    if s.len() > 0 && is_space(s[0]) {
        trim_start(s.drop_first())
    } else {
        s
    }
}

/// `s` without the white space at its end.
pub open spec fn trim_end(s: Seq<char>) -> Seq<char>
    decreases s.len(),
{
    if s.len() > 0 && is_space(s.last()) {
        trim_end(s.drop_last())
    } else {
        s
    }
}

/// `s` without the white space at either end.
pub open spec fn trim(s: Seq<char>) -> Seq<char> {
    trim_end(trim_start(s))
}

/// `chars[from..to]` without the white space at either end.
pub fn trimmed(chars: &Vec<char>, from: usize, to: usize) -> (v: Vec<char>)
    requires
        from <= to <= chars@.len(),
    ensures
        v@ == trim(chars@.subrange(from as int, to as int)),
{
    let ghost s = chars@.subrange(from as int, to as int);
    let mut a: usize = from;
    while a < to && char_is_space(chars[a])
        invariant
            from <= a <= to <= chars@.len(),
            trim_start(chars@.subrange(from as int, to as int)) == trim_start(
                chars@.subrange(a as int, to as int),
            ),
        decreases to - a,
    {
        assert(chars@.subrange(a as int, to as int).drop_first() =~= chars@.subrange(
            a + 1,
            to as int,
        ));
        a += 1;
    }
    assert(trim_start(s) == chars@.subrange(a as int, to as int));
    let mut b: usize = to;
    while b > a && char_is_space(chars[b - 1])
        invariant
            a <= b <= to <= chars@.len(),
            trim_end(chars@.subrange(a as int, to as int)) == trim_end(
                chars@.subrange(a as int, b as int),
            ),
        decreases b,
    {
        assert(chars@.subrange(a as int, b as int).drop_last() =~= chars@.subrange(
            a as int,
            b - 1,
        ));
        b -= 1;
    }
    assert(trim_end(chars@.subrange(a as int, b as int)) == chars@.subrange(a as int, b as int));
    slice_of(chars, a, b)
}

/// `s` without one carriage return at its end.
pub open spec fn without_cr(s: Seq<char>) -> Seq<char> {
    if s.len() > 0 && s.last() == '\r' {
        s.drop_last()
    } else {
        s
    }
}

/// The lines of a text. A line ends at a line feed, or at a carriage return
/// directly before one; the endings belong to no line. The text after the
/// last line feed is a line unless it is empty.
pub open spec fn lines(s: Seq<char>) -> Seq<Seq<char>>
    decreases s.len(),
{
    if s.len() == 0 {
        Seq::empty()
    } else {
        let n = until(s, '\n') as int;
        if n >= s.len() {
            seq![s]
        } else {
            seq![without_cr(s.subrange(0, n))] + lines(s.subrange(n + 1, s.len() as int))
        }
    }
}

/// Appends one row to a list of character vectors.
pub fn push_row(out: &mut Vec<Vec<char>>, row: Vec<char>)
    ensures
        final(out).deep_view() == old(out).deep_view().push(row@),
{
    out.push(row);
    assert(out.deep_view() =~~= old(out).deep_view().push(row@));
}

/// The lines of `chars`, each as a vector of its own.
pub fn split_lines(chars: &Vec<char>) -> (out: Vec<Vec<char>>)
    ensures
        out.deep_view() == lines(chars@),
{
    let mut out: Vec<Vec<char>> = Vec::new();
    let len = chars.len();
    let mut pos: usize = 0;
    assert(chars@.subrange(0, len as int) =~= chars@);
    assert(out.deep_view() =~= Seq::<Seq<char>>::empty());
    while pos < len
        invariant
            pos <= len == chars@.len(),
            lines(chars@) == out.deep_view() + lines(chars@.subrange(pos as int, len as int)),
        decreases len - pos,
    {
        let ghost rest = chars@.subrange(pos as int, len as int);
        let ghost before = out.deep_view();
        let j = scan_until(chars, pos, len, '\n');
        if j == len {
            let line = slice_of(chars, pos, len);
            push_row(&mut out, line);
            proof {
                assert(lines(rest) =~= seq![rest]);
                assert(lines(chars@.subrange(len as int, len as int)) =~= Seq::<
                    Seq<char>,
                >::empty());
                assert(out.deep_view() =~= before.push(rest));
                assert(before + seq![rest] =~= before.push(rest));
            }
            pos = len;
        } else {
            let end = if j > pos && chars[j - 1] == '\r' {
                j - 1
            } else {
                j
            };
            let line = slice_of(chars, pos, end);
            push_row(&mut out, line);
            proof {
                let raw = rest.subrange(0, j - pos);
                assert(raw =~= chars@.subrange(pos as int, j as int));
                assert(without_cr(raw) =~= chars@.subrange(pos as int, end as int));
                assert(rest.subrange(j - pos + 1, rest.len() as int) =~= chars@.subrange(
                    j + 1,
                    len as int,
                ));
                assert(out.deep_view() =~= before.push(without_cr(raw)));
                assert(before + (seq![without_cr(raw)] + lines(
                    chars@.subrange(j + 1, len as int),
                )) =~= before.push(without_cr(raw)) + lines(chars@.subrange(j + 1, len as int)));
            }
            pos = j + 1;
        }
    }
    assert(lines(chars@.subrange(len as int, len as int)) =~= Seq::<Seq<char>>::empty());
    assert(out.deep_view() + Seq::<Seq<char>>::empty() =~= out.deep_view());
    out
}

/// The parts of `parts` in order, with `sep` between each two.
pub open spec fn join(parts: Seq<Seq<char>>, sep: Seq<char>) -> Seq<char>
    decreases parts.len(),
{
    if parts.len() == 0 {
        Seq::empty()
    } else if parts.len() == 1 {
        parts[0]
    } else {
        join(parts.drop_last(), sep) + sep + parts.last()
    }
}

/// Joins `parts` with `sep` between each two.
pub fn join_with(parts: &Vec<Vec<char>>, sep: &str) -> (s: String)
    ensures
        s@ == join(parts.deep_view(), sep@),
{
    let mut s = String::new();
    let mut i: usize = 0;
    let ghost all = parts.deep_view();
    while i < parts.len()
        invariant
            i <= parts.len(),
            all == parts.deep_view(),
            s@ == join(all.take(i as int), sep@),
        decreases parts.len() - i,
    {
        let piece = text_of_all(&parts[i]);
        proof {
            assert(all.take(i + 1).drop_last() =~= all.take(i as int));
            assert(all.take(i + 1).last() == parts[i as int]@);
        }
        if i > 0 {
            s.append(sep);
        }
        s.append(piece.as_str());
        proof {
            if i == 0 {
                assert(s@ =~= piece@);
            } else {
                assert(s@ =~= join(all.take(i as int), sep@) + sep@ + piece@);
            }
        }
        i += 1;
    }
    assert(all.take(parts.len() as int) =~= all);
    s
}

} // verus!
