//! Ranges over the element lists, and the open/close state machine of one group.

use vstd::prelude::*;

verus! {

/// Marks the upper bound of a range that is still open.
pub const UNDEFINED: usize = usize::MAX;

/// How many points, lines and polygons have been read so far.
pub type Count = (usize, usize, usize);

/// A struct which represents the `[start, end)` range.
#[derive(Clone, Copy, Debug, PartialEq, Eq, Structural)]
pub struct Range {
    /// The lower bound of the range (inclusive).
    pub start: usize,
    /// The upper bound of the range (exclusive).
    pub end: usize,
}

/// A range that starts at `start` and is not closed yet.
pub open spec fn open_range(start: usize) -> Range {
    Range { start, end: UNDEFINED }
}

/// Closes the last range of `rs` at `at`; a range that would be empty is dropped.
pub open spec fn close_last(rs: Seq<Range>, at: usize) -> Seq<Range> {
    if rs.last().start == at {
        rs.drop_last()
    } else {
        rs.update(rs.len() - 1, Range { start: rs.last().start, end: at })
    }
}

/// Every range of `rs` is closed, non-empty, ends at most at `bound`, and
/// the ranges follow each other without overlapping.
pub open spec fn closed_ranges(rs: Seq<Range>, bound: usize) -> bool {
    &&& forall|i: int| 0 <= i < rs.len() ==> #[trigger] rs[i].start < rs[i].end <= bound
    &&& forall|i: int, j: int| 0 <= i < j < rs.len() ==> (#[trigger] rs[i]).end <= (#[trigger] rs[j]).start
}

/// All ranges of `rs` are closed as in `closed_ranges`, except the last one,
/// which is open and starts at most at `bound`, after all the others.
pub open spec fn open_ranges(rs: Seq<Range>, bound: usize) -> bool {
    &&& rs.len() > 0
    &&& rs.last().end == UNDEFINED
    &&& rs.last().start <= bound
    &&& closed_ranges(rs.drop_last(), rs.last().start)
}

/// `a` is no greater than `b` in each of the three element kinds.
pub open spec fn count_le(a: Count, b: Count) -> bool {
    a.0 <= b.0 && a.1 <= b.1 && a.2 <= b.2
}

/// The ranges of a group: points, lines and polygons.
pub type GroupView = (Seq<Range>, Seq<Range>, Seq<Range>);

/// The ranges of a group after it was opened at `c`.
pub open spec fn start_group(g: GroupView, c: Count) -> GroupView {
    (g.0.push(open_range(c.0)), g.1.push(open_range(c.1)), g.2.push(open_range(c.2)))
}

/// A group that was opened for the first time at `c`.
pub open spec fn new_group(c: Count) -> GroupView {
    start_group((Seq::empty(), Seq::empty(), Seq::empty()), c)
}

/// The ranges of a group after it was closed at `c`.
pub open spec fn close_group(g: GroupView, c: Count) -> GroupView {
    (close_last(g.0, c.0), close_last(g.1, c.1), close_last(g.2, c.2))
}

/// The group covers nothing.
pub open spec fn group_is_empty(g: GroupView) -> bool {
    g.0.len() == 0 && g.1.len() == 0 && g.2.len() == 0
}

/// No range of the group is open, and all end at most at `c`.
pub open spec fn group_closed(g: GroupView, c: Count) -> bool {
    closed_ranges(g.0, c.0) && closed_ranges(g.1, c.1) && closed_ranges(g.2, c.2)
}

/// The group has one open range per kind, each starting at most at `c`.
pub open spec fn group_open(g: GroupView, c: Count) -> bool {
    open_ranges(g.0, c.0) && open_ranges(g.1, c.1) && open_ranges(g.2, c.2)
}

/// A group which contains ranges of points, lines and polygons.
#[derive(Debug)]
pub struct Group {
    /// Multiple ranges of points.
    pub points: Vec<Range>,
    /// Multiple ranges of lines.
    pub lines: Vec<Range>,
    /// Multiple ranges of polygons.
    pub polygons: Vec<Range>,
}

impl View for Group {
    type V = GroupView;

    open spec fn view(&self) -> GroupView {
        (self.points@, self.lines@, self.polygons@)
    }
}

proof fn lemma_push_open(rs: Seq<Range>, bound: usize, c: usize)
    requires
        closed_ranges(rs, bound),
        bound <= c,
    ensures
        open_ranges(rs.push(open_range(c)), c),
{
    assert(rs.push(open_range(c)).drop_last() =~= rs);
}

proof fn lemma_close_last(rs: Seq<Range>, b: usize, c: usize)
    requires
        open_ranges(rs, b),
        b <= c,
    ensures
        closed_ranges(close_last(rs, c), c),
{
    let s = rs.last().start;
    let r = close_last(rs, c);
    let p = rs.drop_last();
    if s == c {
        assert(r =~= p);
    } else {
        assert(r =~= p.push(Range { start: s, end: c }));
        assert forall|i: int| 0 <= i < r.len() implies #[trigger] r[i].start < r[i].end <= c by {
            if i < p.len() {
                assert(r[i] == p[i]);
            }
        }
        assert forall|i: int, j: int| 0 <= i < j < r.len() implies (#[trigger] r[i]).end <= (#[trigger] r[j]).start by {
            assert(r[i] == p[i]);
            assert(p[i].start < p[i].end <= s);
            if j < p.len() {
                assert(r[j] == p[j]);
            }
        }
    }
}

/// Closing an open group at `c` leaves it closed within `c`.
pub proof fn lemma_close_group(g: GroupView, c: Count)
    requires
        group_open(g, c),
    ensures
        group_closed(close_group(g, c), c),
{
    lemma_close_last(g.0, c.0, c.0);
    lemma_close_last(g.1, c.1, c.1);
    lemma_close_last(g.2, c.2, c.2);
}

/// Closes the open range at the end of `ranges` at `end`, dropping it when it is empty.
fn close_ranges(ranges: &mut Vec<Range>, end: usize)
    requires
        old(ranges)@.len() > 0,
    ensures
        final(ranges)@ == close_last(old(ranges)@, end),
{
    let last = ranges.len() - 1;
    let start = ranges[last].start;
    if start != end {
        ranges.set(last, Range { start, end });
    } else {
        ranges.pop();
    }
    proof {
        if start == end {
            assert(final(ranges)@ =~= old(ranges)@.drop_last());
        }
    }
}

impl Group {
    /// A group opened at `count`.
    pub fn new(count: Count) -> (r: Group)
        ensures
            r@ == new_group(count),
            group_open(r@, count),
    {
        let mut ret = Group { points: Vec::new(), lines: Vec::new(), polygons: Vec::new() };
        ret.start(count);
        ret
    }

    /// Opens one range per element kind at `count`.
    pub fn start(&mut self, count: Count)
        requires
            group_closed(old(self)@, count),
        ensures
            final(self)@ == start_group(old(self)@, count),
            group_open(final(self)@, count),
    {
        proof {
            lemma_push_open(self@.0, count.0, count.0);
            lemma_push_open(self@.1, count.1, count.1);
            lemma_push_open(self@.2, count.2, count.2);
        }
        self.points.push(Range { start: count.0, end: UNDEFINED });
        self.lines.push(Range { start: count.1, end: UNDEFINED });
        self.polygons.push(Range { start: count.2, end: UNDEFINED });
    }

    /// Closes the open ranges at `count`, dropping those that stayed empty.
    /// Returns whether the group is left without any range.
    pub fn end(&mut self, count: Count) -> (r: bool)
        requires
            group_open(old(self)@, count),
        ensures
            final(self)@ == close_group(old(self)@, count),
            group_closed(final(self)@, count),
            r == group_is_empty(final(self)@),
    {
        proof {
            lemma_close_group(self@, count);
        }
        close_ranges(&mut self.points, count.0);
        close_ranges(&mut self.lines, count.1);
        close_ranges(&mut self.polygons, count.2);
        self.points.len() == 0 && self.lines.len() == 0 && self.polygons.len() == 0
    }
}

} // verus!
