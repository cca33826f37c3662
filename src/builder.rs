//! Tracks which group of a table is open while the element lists grow.

use vstd::prelude::*;
use crate::group::{close_group, count_le, group_closed, group_is_empty, group_open, new_group, start_group, Count, Group, GroupView};
use crate::table::{GroupTable, TableKey};
use crate::element::{Line, Point, Polygon};

verus! {

/// The table after the active group, if any, was closed at `c`; a group
/// that is left without ranges leaves the table.
pub open spec fn close_active<KV>(m: Map<KV, GroupView>, cur: Option<KV>, c: Count) -> Map<KV, GroupView> {
    match cur {
        None => m,
        Some(k) => {
            let g = close_group(m[k], c);
            if group_is_empty(g) {
                m.remove(k)
            } else {
                m.insert(k, g)
            }
        },
    }
}

/// The table after the group `k` was opened at `c`: a known group is
/// reopened, an unknown one is created.
pub open spec fn open_key<KV>(m: Map<KV, GroupView>, k: KV, c: Count) -> Map<KV, GroupView> {
    if m.contains_key(k) {
        m.insert(k, start_group(m[k], c))
    } else {
        m.insert(k, new_group(c))
    }
}

/// The active key and the table of a builder.
pub type BuilderView<KV> = (Option<KV>, Map<KV, GroupView>);

/// The builder after `start` of the key `k` at `c`: nothing changes when `k`
/// is active already; otherwise the active group is closed and `k` opened.
pub open spec fn builder_start<KV>(v: BuilderView<KV>, k: KV, c: Count) -> BuilderView<KV> {
    if v.0 == Some(k) {
        v
    } else {
        (Some(k), open_key(close_active(v.1, v.0, c), k, c))
    }
}

/// The builder after `end` at `c`: the active group is closed, none is active.
pub open spec fn builder_end<KV>(v: BuilderView<KV>, c: Count) -> BuilderView<KV> {
    (None, close_active(v.1, v.0, c))
}

/// Every group of `m` but the active one is closed within `c` and not empty;
/// the active one is in `m` and open within `c`.
pub open spec fn table_wf<KV>(m: Map<KV, GroupView>, cur: Option<KV>, c: Count) -> bool {
    &&& forall|k: KV|
        #[trigger] m.contains_key(k) && cur != Some(k) ==> group_closed(m[k], c) && !group_is_empty(m[k])
    &&& cur matches Some(k) ==> m.contains_key(k) && group_open(m[k], c)
}

/// Helper for creating the `groups`, `meshes`, `smoothing_groups` and
/// `merging_groups` members of `RawObj`.
#[derive(Debug)]
pub struct GroupBuilder<K> {
    /// The key of the open group, if some group has been started.
    pub current: Option<K>,
    /// The groups built so far.
    pub result: GroupTable<K>,
}

/// The view of an optional key.
pub open spec fn key_view<K: View>(k: Option<K>) -> Option<K::V> {
    match k {
        Some(k) => Some(k@),
        None => None,
    }
}

impl<K: TableKey> GroupBuilder<K> {
    /// The active key and the table.
    pub open spec fn view(&self) -> BuilderView<K::V> {
        (key_view(self.current), self.result@)
    }

    /// The builder is consistent with `c` elements of each kind read so far.
    pub open spec fn wf(&self, c: Count) -> bool {
        self.result.wf() && table_wf(self.result@, key_view(self.current), c)
    }

    /// Starts a group whose name is `input`.
    pub fn start(&mut self, input: K, count: Count)
        requires
            old(self).wf(count),
        ensures
            final(self).wf(count),
            final(self).view() == builder_start(old(self).view(), input@, count),
    {
        if let Some(current) = &self.current {
            if current.same(&input) {
                return;
            }
        }
        self.end(count);
        let ghost mid = self.result@;
        match self.result.take(&input) {
            Some(mut group) => {
                group.start(count);
                self.result.insert_new(input.duplicate(), group);
            },
            None => {
                self.result.insert_new(input.duplicate(), Group::new(count));
            },
        }
        self.current = Some(input);
        proof {
            assert(self.result@ =~= open_key(mid, self.current->0@, count));
        }
    }

    /// Ends the current group.
    pub fn end(&mut self, count: Count)
        requires
            old(self).wf(count),
        ensures
            final(self).wf(count),
            final(self).view() == builder_end(old(self).view(), count),
    {
        let current = self.current.take();
        if let Some(current) = current {
            let ghost before = self.result@;
            if let Some(mut group) = self.result.take(&current) {
                if !group.end(count) {
                    self.result.insert_new(current, group);
                    proof {
                        assert(self.result@ =~= before.insert(current@, close_group(before[current@], count)));
                    }
                } else {
                    proof {
                        assert(self.result@ =~= before.remove(current@));
                    }
                }
            }
        }
    }
}

/// The count that `wf` holds for may grow: the builder stays consistent.
pub proof fn lemma_wf_grows<KV>(m: Map<KV, GroupView>, cur: Option<KV>, c1: Count, c2: Count)
    requires
        table_wf(m, cur, c1),
        count_le(c1, c2),
    ensures
        table_wf(m, cur, c2),
{
}

/// Counts the parsed `points`, `lines` and `polygons`, which it holds.
#[derive(Debug)]
pub struct Counter {
    /// Points read so far.
    pub points: Vec<Point>,
    /// Lines read so far.
    pub lines: Vec<Line>,
    /// Polygons read so far.
    pub polygons: Vec<Polygon>,
}

impl Counter {
    /// The current count of `(points, lines, polygons)`.
    pub open spec fn count(&self) -> Count {
        (self.points@.len() as usize, self.lines@.len() as usize, self.polygons@.len() as usize)
    }

    /// Constructs a new `Counter` over the given element lists.
    pub fn new(points: Vec<Point>, lines: Vec<Line>, polygons: Vec<Polygon>) -> (r: Counter)
        ensures
            r.points == points,
            r.lines == lines,
            r.polygons == polygons,
    {
        Counter { points, lines, polygons }
    }

    /// Returns the current count of parsed `(points, lines, polygons)`.
    pub fn get(&self) -> (r: Count)
        ensures
            r == self.count(),
    {
        (self.points.len(), self.lines.len(), self.polygons.len())
    }

    /// Creates a builder of groups keyed by name, with the group `input` open.
    pub fn hash_map(&self, input: String) -> (r: GroupBuilder<String>)
        ensures
            r.wf(self.count()),
            r.view() == (Some(input@), map![input@ => new_group(self.count())]),
    {
        let mut result = GroupTable::new();
        result.insert_new(input.duplicate(), Group::new(self.get()));
        let r = GroupBuilder { current: Some(input), result };
        proof {
            assert(r.result@ =~= map![input@ => new_group(self.count())]);
        }
        r
    }

    /// Creates a builder of groups keyed by number, with no group open.
    pub fn vec_map(&self) -> (r: GroupBuilder<usize>)
        ensures
            r.wf(self.count()),
            r.view() == (None::<usize>, Map::<usize, GroupView>::empty()),
    {
        GroupBuilder { current: None, result: GroupTable::new() }
    }
}

} // verus!
