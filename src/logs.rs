//! Per-unit log buffers: an ordered list of lines for each unit, replaced
//! wholesale or appended to one line at a time.
use vstd::prelude::*;

use crate::model::UnitId;

verus! {

/// The lines kept for one unit.
#[derive(Clone, Debug)]
pub struct LogBuffer {
    pub unit: UnitId,
    pub lines: Vec<String>,
}

/// The lines that `bufs` holds for `u`: those of the last buffer kept for
/// the same unit, or none.
pub open spec fn lines_in(bufs: Seq<LogBuffer>, u: UnitId) -> Seq<String>
    decreases bufs.len(),
{
    if bufs.len() == 0 {
        Seq::empty()
    } else if bufs.last().unit.same(u) {
        bufs.last().lines@
    } else {
        lines_in(bufs.drop_last(), u)
    }
}

/// `i` is the last buffer of `bufs` kept for `u`.
pub open spec fn is_last_for(bufs: Seq<LogBuffer>, u: UnitId, i: int) -> bool {
    0 <= i < bufs.len() && bufs[i].unit.same(u) && forall|j: int|
        i < j < bufs.len() ==> !(#[trigger] bufs[j]).unit.same(u)
}

proof fn lemma_lines_at_last(bufs: Seq<LogBuffer>, u: UnitId, i: int)
    requires
        is_last_for(bufs, u, i),
    ensures
        lines_in(bufs, u) == bufs[i].lines@,
    decreases bufs.len(),
{
    if i < bufs.len() - 1 {
        assert(!bufs[bufs.len() - 1].unit.same(u));
        let d = bufs.drop_last();
        assert(d[i] == bufs[i]);
        assert forall|j: int| i < j < d.len() implies !(#[trigger] d[j]).unit.same(u) by {
            assert(d[j] == bufs[j]);
        }
        lemma_lines_at_last(d, u, i);
    }
}

proof fn lemma_lines_none(bufs: Seq<LogBuffer>, u: UnitId)
    requires
        forall|j: int| 0 <= j < bufs.len() ==> !(#[trigger] bufs[j]).unit.same(u),
    ensures
        lines_in(bufs, u) == Seq::<String>::empty(),
    decreases bufs.len(),
{
    if bufs.len() > 0 {
        let d = bufs.drop_last();
        assert(!bufs[bufs.len() - 1].unit.same(u));
        assert forall|j: int| 0 <= j < d.len() implies !(#[trigger] d[j]).unit.same(u) by {
            assert(d[j] == bufs[j]);
        }
        lemma_lines_none(d, u);
    }
}

/// Replacing the lines of the last buffer kept for `u` changes what is held
/// for `u` and for nothing else.
proof fn lemma_lines_update(bufs: Seq<LogBuffer>, u: UnitId, i: int, b: LogBuffer, v: UnitId)
    requires
        is_last_for(bufs, u, i),
        b.unit.same(bufs[i].unit),
    ensures
        lines_in(bufs.update(i, b), v) == if v.same(u) {
            b.lines@
        } else {
            lines_in(bufs, v)
        },
    decreases bufs.len(),
{
    let n = bufs.update(i, b);
    if i == bufs.len() - 1 {
        assert(n.drop_last() =~= bufs.drop_last());
    } else {
        let d = bufs.drop_last();
        assert(n.drop_last() =~= d.update(i, b));
        assert(d[i] == bufs[i]);
        assert forall|j: int| i < j < d.len() implies !(#[trigger] d[j]).unit.same(u) by {
            assert(d[j] == bufs[j]);
        }
        assert(!bufs[bufs.len() - 1].unit.same(u));
        lemma_lines_update(d, u, i, b, v);
    }
}

/// Finds the last buffer kept for `u`.
pub fn find_last(bufs: &Vec<LogBuffer>, u: &UnitId) -> (r: Option<usize>)
    ensures
        match r {
            Some(i) => is_last_for(bufs@, *u, i as int),
            None => forall|j: int| 0 <= j < bufs@.len() ==> !(#[trigger] bufs@[j]).unit.same(*u),
        },
{
    let mut k: usize = bufs.len();
    while k > 0
        invariant
            k <= bufs@.len(),
            forall|j: int| k <= j < bufs@.len() ==> !(#[trigger] bufs@[j]).unit.same(*u),
        decreases k,
    {
        if bufs[k - 1].unit.same_unit(u) {
            return Some(k - 1);
        }
        k = k - 1;
    }
    None
}

/// The number of lines kept for `u`.
pub fn line_count(bufs: &Vec<LogBuffer>, u: &UnitId) -> (r: usize)
    ensures
        r == lines_in(bufs@, *u).len(),
{
    match find_last(bufs, u) {
        Some(i) => {
            proof {
                lemma_lines_at_last(bufs@, *u, i as int);
            }
            bufs[i].lines.len()
        },
        None => {
            proof {
                lemma_lines_none(bufs@, *u);
            }
            0
        },
    }
}

/// Replaces the lines kept for `u` with `lines`.
pub fn set_lines(bufs: &mut Vec<LogBuffer>, u: &UnitId, lines: Vec<String>)
    ensures
        forall|v: UnitId|
            #[trigger] lines_in(final(bufs)@, v) == if v.same(*u) {
                lines@
            } else {
                lines_in(old(bufs)@, v)
            },
{
    match find_last(bufs, u) {
        Some(i) => {
            let b = LogBuffer { unit: bufs[i].unit.duplicate(), lines };
            let ghost before = bufs@;
            bufs.set(i, b);
            proof {
                assert(bufs@ == before.update(i as int, b));
                assert forall|v: UnitId| #[trigger]
                    lines_in(bufs@, v) == (if v.same(*u) {
                        b.lines@
                    } else {
                        lines_in(before, v)
                    }) by {
                    lemma_lines_update(before, *u, i as int, b, v);
                }
            }
        },
        None => {
            let ghost before = bufs@;
            bufs.push(LogBuffer { unit: u.duplicate(), lines });
            proof {
                assert(bufs@.drop_last() == before);
            }
        },
    }
}

/// Appends `line` to the lines kept for `u`.
pub fn append_line(bufs: &mut Vec<LogBuffer>, u: &UnitId, line: String)
    ensures
        forall|v: UnitId|
            #[trigger] lines_in(final(bufs)@, v) == if v.same(*u) {
                lines_in(old(bufs)@, *u).push(line)
            } else {
                lines_in(old(bufs)@, v)
            },
{
    let ghost before = bufs@;
    match find_last(bufs, u) {
        Some(i) => {
            proof {
                lemma_lines_at_last(before, *u, i as int);
            }
            let mut lines = bufs[i].lines.clone();
            lines.push(line);
            set_lines(bufs, u, lines);
        },
        None => {
            proof {
                lemma_lines_none(before, *u);
            }
            let mut lines: Vec<String> = Vec::new();
            lines.push(line);
            set_lines(bufs, u, lines);
        },
    }
}

} // verus!
