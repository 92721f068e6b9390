//! Deferred, priority-ordered paint operations.
//!
//! A widget may schedule a unit of paint work to run after the ordinary
//! document-order traversal, tagged with a priority and the drawing
//! transform in effect when it was scheduled. After the traversal the
//! accumulated operations are sorted by ascending priority — ties keep
//! their submission order — and executed with their captured transforms.

use vstd::prelude::*;

verus! {

/// The drawing transform in effect at a point of the paint pass, as the
/// offset from local to surface coordinates.
#[derive(Clone, Copy, PartialEq, Eq, Structural, Debug)]
pub struct Transform {
    pub dx: i64,
    pub dy: i64,
}

/// One deferred paint operation. `op_id` designates the unit of work to the
/// driver that executes it; smaller `z_index` paints earlier.
#[derive(Clone, Copy, PartialEq, Eq, Structural, Debug)]
pub struct ZOrderPaintOp {
    /// Priority: operations run in ascending order of this value.
    pub z_index: u32,
    /// Which deferred work to run; the driver interprets it.
    pub op_id: u64,
    /// The drawing transform captured when the operation was scheduled,
    /// restored before it runs.
    pub transform: Transform,
}

/// Ascending priority.
pub open spec fn sorted_by_z(s: Seq<ZOrderPaintOp>) -> bool {
    forall|i: int, j: int| 0 <= i < j < s.len() ==> s[i].z_index <= s[j].z_index
}

/// `op` inserted after every element whose priority is at most `op`'s: the
/// place a stable sort gives a newly arrived element.
pub open spec fn insert_ordered(s: Seq<ZOrderPaintOp>, op: ZOrderPaintOp) -> Seq<ZOrderPaintOp>
    decreases s.len(),
{
    if s.len() == 0 {
        seq![op]
    } else if s.last().z_index <= op.z_index {
        s.push(op)
    } else {
        insert_ordered(s.drop_last(), op).push(s.last())
    }
}

/// The stable sort of `s` by ascending priority, as repeated ordered
/// insertion.
pub open spec fn stable_sort_spec(s: Seq<ZOrderPaintOp>) -> Seq<ZOrderPaintOp>
    decreases s.len(),
{
    if s.len() == 0 {
        Seq::empty()
    } else {
        insert_ordered(stable_sort_spec(s.drop_last()), s.last())
    }
}

/// The subsequence of operations with priority exactly `z`, in order.
pub open spec fn ops_with_z(s: Seq<ZOrderPaintOp>, z: u32) -> Seq<ZOrderPaintOp>
    decreases s.len(),
{
    if s.len() == 0 {
        Seq::empty()
    } else {
        let rest = ops_with_z(s.drop_last(), z);
        if s.last().z_index == z {
            rest.push(s.last())
        } else {
            rest
        }
    }
}

/// Ordered insertion keeps any upper bound on the priorities.
proof fn lemma_insert_ordered_le(s: Seq<ZOrderPaintOp>, op: ZOrderPaintOp, b: u32)
    requires
        forall|i: int| 0 <= i < s.len() ==> (#[trigger] s[i]).z_index <= b,
        op.z_index <= b,
    ensures
        forall|i: int|
            0 <= i < insert_ordered(s, op).len() ==> (#[trigger] insert_ordered(s, op)[i]).z_index
                <= b,
    decreases s.len(),
{
    let r = insert_ordered(s, op);
    if s.len() == 0 {
        assert forall|i: int| 0 <= i < r.len() implies (#[trigger] r[i]).z_index <= b by {
            assert(r[i] == op);
        }
    } else if s.last().z_index <= op.z_index {
        assert forall|i: int| 0 <= i < r.len() implies (#[trigger] r[i]).z_index <= b by {
            if i < s.len() {
                assert(r[i] == s[i]);
            } else {
                assert(r[i] == op);
            }
        }
    } else {
        assert forall|i: int| 0 <= i < s.drop_last().len() implies (#[trigger] s.drop_last()[
        i]).z_index <= b by {
            assert(s.drop_last()[i] == s[i]);
        }
        lemma_insert_ordered_le(s.drop_last(), op, b);
        let inner = insert_ordered(s.drop_last(), op);
        assert forall|i: int| 0 <= i < r.len() implies (#[trigger] r[i]).z_index <= b by {
            if i < inner.len() {
                assert(r[i] == inner[i]);
            } else {
                assert(r[i] == s.last());
                assert(s.last() == s[s.len() - 1]);
            }
        }
    }
}

/// Ordered insertion into a sorted sequence yields a sorted sequence.
proof fn lemma_insert_ordered_sorted(s: Seq<ZOrderPaintOp>, op: ZOrderPaintOp)
    requires
        sorted_by_z(s),
    ensures
        sorted_by_z(insert_ordered(s, op)),
    decreases s.len(),
{
    if s.len() == 0 {
    } else if s.last().z_index <= op.z_index {
        assert(forall|i: int| 0 <= i < s.len() ==> (#[trigger] s[i]).z_index <= op.z_index);
    } else {
        assert forall|i: int| 0 <= i < s.drop_last().len() implies (#[trigger] s.drop_last()[
        i]).z_index <= s.last().z_index by {
            assert(s.drop_last()[i] == s[i]);
        }
        assert(sorted_by_z(s.drop_last())) by {
            assert(forall|i: int, j: int|
                0 <= i < j < s.drop_last().len() ==> s.drop_last()[i] == s[i] && s.drop_last()[j]
                    == s[j]);
        }
        lemma_insert_ordered_sorted(s.drop_last(), op);
        lemma_insert_ordered_le(s.drop_last(), op, s.last().z_index);
        let r = insert_ordered(s.drop_last(), op).push(s.last());
        assert forall|i: int, j: int| 0 <= i < j < r.len() implies r[i].z_index
            <= r[j].z_index by {
            if j < r.len() - 1 {
                assert(r[i] == insert_ordered(s.drop_last(), op)[i]);
                assert(r[j] == insert_ordered(s.drop_last(), op)[j]);
            } else {
                assert(r[j] == s.last());
                assert(r[i] == insert_ordered(s.drop_last(), op)[i]);
            }
        }
    }
}

/// Ordered insertion adds exactly `op` to the operations present.
proof fn lemma_insert_ordered_multiset(s: Seq<ZOrderPaintOp>, op: ZOrderPaintOp)
    ensures
        insert_ordered(s, op).to_multiset() == s.to_multiset().insert(op),
    decreases s.len(),
{
    broadcast use vstd::seq_lib::group_to_multiset_ensures;

    if s.len() == 0 {
        assert(insert_ordered(s, op) =~= Seq::empty().push(op));
        assert(s =~= Seq::<ZOrderPaintOp>::empty());
    } else if s.last().z_index <= op.z_index {
    } else {
        lemma_insert_ordered_multiset(s.drop_last(), op);
        assert(s.drop_last().push(s.last()) =~= s);
        assert(insert_ordered(s.drop_last(), op).push(s.last()).to_multiset() == insert_ordered(
            s.drop_last(),
            op,
        ).to_multiset().insert(s.last()));
        assert(s.drop_last().to_multiset().insert(op).insert(s.last())
            == s.drop_last().to_multiset().insert(s.last()).insert(op));
    }
}

/// Law: the stable sort orders operations by ascending priority.
pub proof fn lemma_stable_sort_sorted(s: Seq<ZOrderPaintOp>)
    ensures
        sorted_by_z(stable_sort_spec(s)),
    decreases s.len(),
{
    if s.len() > 0 {
        lemma_stable_sort_sorted(s.drop_last());
        lemma_insert_ordered_sorted(stable_sort_spec(s.drop_last()), s.last());
    }
}

/// Law: the stable sort is a permutation — no operation appears, vanishes
/// or duplicates.
pub proof fn lemma_stable_sort_permutes(s: Seq<ZOrderPaintOp>)
    ensures
        stable_sort_spec(s).to_multiset() == s.to_multiset(),
    decreases s.len(),
{
    broadcast use vstd::seq_lib::group_to_multiset_ensures;

    if s.len() > 0 {
        lemma_stable_sort_permutes(s.drop_last());
        lemma_insert_ordered_multiset(stable_sort_spec(s.drop_last()), s.last());
        assert(s.drop_last().push(s.last()) =~= s);
    }
}

/// Inserting keeps each priority class in order: the class of `op`'s own
/// priority gains `op` at its end, every other class is untouched.
proof fn lemma_insert_ordered_with_z(s: Seq<ZOrderPaintOp>, op: ZOrderPaintOp, z: u32)
    ensures
        op.z_index == z ==> ops_with_z(insert_ordered(s, op), z) == ops_with_z(s, z).push(op),
        op.z_index != z ==> ops_with_z(insert_ordered(s, op), z) == ops_with_z(s, z),
    decreases s.len(),
{
    if s.len() == 0 {
        assert(insert_ordered(s, op).drop_last() =~= s);
    } else if s.last().z_index <= op.z_index {
        assert(s.push(op).drop_last() =~= s);
    } else {
        lemma_insert_ordered_with_z(s.drop_last(), op, z);
        let r = insert_ordered(s.drop_last(), op).push(s.last());
        assert(r.drop_last() =~= insert_ordered(s.drop_last(), op));
        if op.z_index == z {
            // the last element's priority exceeds op's, so it is not in class z
            assert(s.last().z_index != z);
            assert(ops_with_z(r, z) == ops_with_z(s.drop_last(), z).push(op));
            assert(ops_with_z(s, z) == ops_with_z(s.drop_last(), z));
        }
    }
}

/// Law: the sort is stable — within each priority, operations stay in
/// their submission order.
pub proof fn lemma_stable_sort_stable(s: Seq<ZOrderPaintOp>, z: u32)
    ensures
        ops_with_z(stable_sort_spec(s), z) == ops_with_z(s, z),
    decreases s.len(),
{
    if s.len() > 0 {
        lemma_stable_sort_stable(s.drop_last(), z);
        lemma_insert_ordered_with_z(stable_sort_spec(s.drop_last()), s.last(), z);
    }
}

/// Finds where the recursive insertion lands: before the tail of elements
/// with a strictly greater priority.
proof fn lemma_insert_ordered_at(s: Seq<ZOrderPaintOp>, op: ZOrderPaintOp, j: int)
    requires
        0 <= j <= s.len(),
        forall|k: int| j <= k < s.len() ==> (#[trigger] s[k]).z_index > op.z_index,
        j > 0 ==> s[j - 1].z_index <= op.z_index,
    ensures
        insert_ordered(s, op) == s.insert(j, op),
    decreases s.len(),
{
    if j == s.len() {
        if s.len() == 0 {
            assert(insert_ordered(s, op) =~= s.insert(j, op));
        } else {
            assert(s.insert(j, op) =~= s.push(op));
        }
    } else {
        assert(s.last().z_index > op.z_index);
        assert forall|k: int| j <= k < s.drop_last().len() implies (#[trigger] s.drop_last()[
        k]).z_index > op.z_index by {
            assert(s.drop_last()[k] == s[k]);
        }
        if j > 0 {
            assert(s.drop_last()[j - 1] == s[j - 1]);
        }
        lemma_insert_ordered_at(s.drop_last(), op, j);
        assert(s.drop_last().insert(j, op).push(s.last()) =~= s.insert(j, op));
    }
}

/// Sorts deferred paint operations by ascending priority; operations of
/// equal priority keep the order in which they were scheduled.
pub fn sort_z_ops(ops: Vec<ZOrderPaintOp>) -> (sorted: Vec<ZOrderPaintOp>)
    ensures
        sorted@ == stable_sort_spec(ops@),
{
    let n = ops.len();
    let mut sorted: Vec<ZOrderPaintOp> = Vec::new();
    let mut i: usize = 0;
    while i < n
        invariant
            n == ops@.len(),
            0 <= i <= n,
            sorted@ == stable_sort_spec(ops@.take(i as int)),
        decreases n - i,
    {
        let op = ops[i];
        let mut j: usize = sorted.len();
        while j > 0
            invariant
                0 <= j <= sorted@.len(),
                forall|k: int| j <= k < sorted@.len() ==> (#[trigger] sorted@[k]).z_index
                    > op.z_index,
            ensures
                0 <= j <= sorted@.len(),
                forall|k: int| j <= k < sorted@.len() ==> (#[trigger] sorted@[k]).z_index
                    > op.z_index,
                j > 0 ==> sorted@[j - 1].z_index <= op.z_index,
            decreases j,
        {
            if sorted[j - 1].z_index <= op.z_index {
                break ;
            }
            j = j - 1;
        }
        proof {
            lemma_insert_ordered_at(sorted@, op, j as int);
            assert(ops@.take(i + 1 as int).drop_last() =~= ops@.take(i as int));
        }
        sorted.insert(j, op);
        i = i + 1;
    }
    proof {
        assert(ops@.take(n as int) =~= ops@);
    }
    sorted
}

} // verus!
