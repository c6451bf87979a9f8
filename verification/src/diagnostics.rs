//! Reading the encoder's diagnostic text: which lines matter, and which
//! line names an error.

use vstd::prelude::*;
use crate::lines::{lines, push_row, split_lines};
use crate::text::{chars_of, contains, includes, slice_of};

verus! {

/// Whether a diagnostic line speaks of buffers or synchronisation: it holds
/// one of the words by which the encoder reports dropped, late or
/// discontinuous data.
pub open spec fn is_sync_warning(line: Seq<char>) -> bool {
    contains(line, "drop"@) || contains(line, "discontinuity"@) || contains(line, "buffer"@)
        || contains(line, "queue"@) || contains(line, "audio"@) || contains(line, "overrun"@)
        || contains(line, "underrun"@) || contains(line, "pts"@)
}

/// Whether a diagnostic line is to be logged at elevated severity.
pub fn sync_warning(line: &str) -> (r: bool)
    ensures
        r == is_sync_warning(line@),
{
    let l = chars_of(line);
    includes(&l, "drop") || includes(&l, "discontinuity") || includes(&l, "buffer") || includes(&l, "queue") || includes(
        &l,
        "audio",
    ) || includes(&l, "overrun") || includes(&l, "underrun") || includes(&l, "pts")
}

/// The first of `ls` that holds `p`, if any does.
pub open spec fn first_with(ls: Seq<Seq<char>>, p: Seq<char>) -> Option<Seq<char>>
    decreases ls.len(),
{
    if ls.len() == 0 {
        None
    } else if contains(ls[0], p) {
        Some(ls[0])
    } else {
        first_with(ls.drop_first(), p)
    }
}

/// The first line of `text` that holds `p`, if any does.
pub fn first_line_with(text: &Vec<char>, p: &str) -> (r: Option<Vec<char>>)
    ensures
        match first_with(lines(text@), p@) {
            Some(l) => r.is_some() && r.unwrap()@ == l,
            None => r.is_none(),
        },
{
    let rows = split_lines(text);
    let ghost all = rows.deep_view();
    let mut i: usize = 0;
    assert(all.subrange(0, all.len() as int) =~= all);
    while i < rows.len()
        invariant
            i <= rows.len(),
            all == rows.deep_view(),
            all == lines(text@),
            first_with(all, p@) == first_with(all.subrange(i as int, all.len() as int), p@),
        decreases rows.len() - i,
    {
        let ghost rest = all.subrange(i as int, all.len() as int);
        assert(rest[0] == rows[i as int]@);
        if includes(&rows[i], p) {
            let found = slice_of(&rows[i], 0, rows[i].len());
            assert(found@ =~= rows[i as int]@);
            return Some(found);
        }
        assert(rest.drop_first() =~= all.subrange(i + 1, all.len() as int));
        i += 1;
    }
    None
}

/// The first `limit` of `ls` that tell of an error, in order.
pub open spec fn first_kept(ls: Seq<Seq<char>>, limit: nat) -> Seq<Seq<char>>
    decreases ls.len(),
{
    if ls.len() == 0 || limit == 0 {
        Seq::empty()
    } else if is_error_line(ls[0]) {
        seq![ls[0]] + first_kept(ls.drop_first(), (limit - 1) as nat)
    } else {
        first_kept(ls.drop_first(), limit)
    }
}

/// Whether a diagnostic line tells of an error: it holds "Error", "failed"
/// or "Invalid".
pub open spec fn is_error_line(line: Seq<char>) -> bool {
    contains(line, "Error"@) || contains(line, "failed"@) || contains(line, "Invalid"@)
}

/// The first `limit` lines of `text` that tell of an error.
pub fn error_lines(text: &Vec<char>, limit: usize) -> (out: Vec<Vec<char>>)
    ensures
        out.deep_view() == first_kept(lines(text@), limit as nat),
{
    let rows = split_lines(text);
    let ghost all = rows.deep_view();
    let mut out: Vec<Vec<char>> = Vec::new();
    let mut i: usize = 0;
    assert(all.subrange(0, all.len() as int) =~= all);
    assert(out.deep_view() =~= Seq::<Seq<char>>::empty());
    while i < rows.len() && out.len() < limit
        invariant
            i <= rows.len(),
            out.len() <= limit,
            all == rows.deep_view(),
            first_kept(all, limit as nat) == out.deep_view() + first_kept(
                all.subrange(i as int, all.len() as int),
                (limit - out.len()) as nat,
            ),
        decreases rows.len() - i,
    {
        let ghost rest = all.subrange(i as int, all.len() as int);
        let ghost before = out.deep_view();
        assert(rest[0] == rows[i as int]@);
        assert(rest.drop_first() =~= all.subrange(i + 1, all.len() as int));
        if includes(&rows[i], "Error") || includes(&rows[i], "failed") || includes(&rows[i], "Invalid") {
            let row = slice_of(&rows[i], 0, rows[i].len());
            assert(row@ =~= rows[i as int]@);
            push_row(&mut out, row);
            proof {
                let tail = first_kept(rest.drop_first(), (limit - out.len()) as nat);
                assert(before + (seq![rest[0]] + tail) =~= before.push(rest[0]) + tail);
            }
        }
        i += 1;
    }
    proof {
        let rest = all.subrange(i as int, all.len() as int);
        assert(first_kept(rest, (limit - out.len()) as nat) =~= Seq::<Seq<char>>::empty());
        assert(out.deep_view() + Seq::<Seq<char>>::empty() =~= out.deep_view());
    }
    out
}

} // verus!
