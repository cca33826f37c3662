//! Properties of the group builders and of face statements.

use vstd::prelude::*;
use crate::builder::{builder_start, close_active, table_wf, BuilderView};
use crate::face::{face, face_refs, ref_shape, Shape};
use crate::group::{count_le, lemma_close_group, new_group, open_range, Count, Range};

verus! {

/// Starting the key `k` right after it was started changes nothing, at any
/// count: a repeated `g foo` adds no second range. A key that was not in
/// the table holds one open range per kind after it.
pub proof fn lemma_restart_same_key<KV>(v: BuilderView<KV>, k: KV, c1: Count, c2: Count)
    requires
        table_wf(v.1, v.0, c1),
    ensures
        builder_start(builder_start(v, k, c1), k, c2) == builder_start(v, k, c1),
        !v.1.contains_key(k) ==> builder_start(builder_start(v, k, c1), k, c2).1[k] == new_group(c1),
{
}

/// Closing the active group `k` at `c` when nothing was added since it was
/// last opened drops the ranges it opened; its key leaves the table exactly
/// when those were its only ranges. No group left in the table is open or
/// empty, and no range in it is empty.
pub proof fn lemma_close_unfilled<KV>(m: Map<KV, crate::group::GroupView>, k: KV, c: Count)
    requires
        table_wf(m, Some(k), c),
        m[k].0.last().start == c.0,
        m[k].1.last().start == c.1,
        m[k].2.last().start == c.2,
    ensures
        close_active(m, Some(k), c).contains_key(k) <==> !(m[k].0.len() == 1 && m[k].1.len() == 1
            && m[k].2.len() == 1),
        close_active(m, Some(k), c).contains_key(k) ==> close_active(m, Some(k), c)[k] == (
            m[k].0.drop_last(),
            m[k].1.drop_last(),
            m[k].2.drop_last(),
        ),
        table_wf(close_active(m, Some(k), c), None, c),
{
    lemma_close_group(m[k], c);
}

/// `g foo`, then `g bar` after elements of a kind were added, then `g foo`
/// again: `foo` holds two ranges of that kind, the closed one and the
/// reopened one, with no range between them; they meet when nothing of that
/// kind was added under `bar`.
pub proof fn lemma_reopen<KV>(v: BuilderView<KV>, foo: KV, bar: KV, c0: Count, c1: Count, c2: Count)
    requires
        table_wf(v.1, v.0, c0),
        !v.1.contains_key(foo),
        foo != bar,
        count_le(c0, c1),
        count_le(c1, c2),
    ensures
        ({
            let g = builder_start(builder_start(builder_start(v, foo, c0), bar, c1), foo, c2).1[foo];
            &&& c0.0 < c1.0 ==> g.0 == seq![Range { start: c0.0, end: c1.0 }, open_range(c2.0)]
            &&& c0.1 < c1.1 ==> g.1 == seq![Range { start: c0.1, end: c1.1 }, open_range(c2.1)]
            &&& c0.2 < c1.2 ==> g.2 == seq![Range { start: c0.2, end: c1.2 }, open_range(c2.2)]
            &&& c0.2 < c1.2 && c1.2 == c2.2 ==> g.2[0].end == g.2[1].start
        }),
{
    let v1 = builder_start(v, foo, c0);
    assert(v1.1[foo] == new_group(c0));
    let v2 = builder_start(v1, bar, c1);
    let v3 = builder_start(v2, foo, c2);
    if c0.0 < c1.0 {
        assert(v3.1[foo].0 =~= seq![Range { start: c0.0, end: c1.0 }, open_range(c2.0)]);
    }
    if c0.1 < c1.1 {
        assert(v3.1[foo].1 =~= seq![Range { start: c0.1, end: c1.1 }, open_range(c2.1)]);
    }
    if c0.2 < c1.2 {
        assert(v3.1[foo].2 =~= seq![Range { start: c0.2, end: c1.2 }, open_range(c2.2)]);
    }
}

proof fn lemma_face_refs(args: Seq<Seq<char>>, shape: Shape, n: nat)
    requires
        n <= args.len(),
    ensures
        face_refs(args, shape, n) matches Ok(rs) ==> rs.len() == n && forall|i: int|
            0 <= i < n ==> ref_shape(#[trigger] args[i]) == Some(shape),
    decreases n,
{
    if n > 0 {
        lemma_face_refs(args, shape, (n - 1) as nat);
    }
}

/// A face that is read stores one reference per argument, and every
/// argument has the shape of the first.
pub proof fn lemma_face_uniform(args: Seq<Seq<char>>)
    ensures
        face(args) matches Ok(p) ==> p.1.len() == args.len() && forall|i: int|
            0 <= i < args.len() ==> ref_shape(#[trigger] args[i]) == Some(p.0),
{
    if args.len() >= 3 {
        if let Some(shape) = ref_shape(args[0]) {
            lemma_face_refs(args, shape, args.len());
        }
    }
}

} // verus!
