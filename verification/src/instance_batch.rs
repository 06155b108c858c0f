//! The instanced batch path: an alternate draw strategy for scenes with many
//! objects sharing few geometries.
//!
//! Instead of one push-constant draw per object, the frame's objects are
//! sorted by geometry kind into one shared instance buffer — all model
//! matrices of a kind contiguous, encounter order kept within a kind — and
//! one indexed-instanced draw is issued per kind over its contiguous range.
//! The instance buffer grows by doubling whenever a frame brings more
//! instances than it can hold.

use vstd::prelude::*;

use crate::algebra::Mat4;
use crate::geometry_library::{
    geometry_id_of_index, geometry_id_of_index_spec, geometry_index_spec, GeometryId,
    GeometryLibrary, GEOMETRY_COUNT,
};

verus! {

/// The model matrices of one geometry kind, in encounter order.
pub open spec fn matrices_of_kind(objs: Seq<(GeometryId, Mat4)>, k: int) -> Seq<Mat4>
    decreases objs.len(),
{
    if objs.len() == 0 {
        Seq::empty()
    } else {
        let rest = matrices_of_kind(objs.drop_last(), k);
        if geometry_index_spec(objs.last().0) == k {
            rest.push(objs.last().1)
        } else {
            rest
        }
    }
}

/// How many of the objects are of one geometry kind.
pub open spec fn count_of_kind(objs: Seq<(GeometryId, Mat4)>, k: int) -> nat {
    matrices_of_kind(objs, k).len()
}

/// Where a kind's contiguous instance range starts: the total count of all
/// lower-numbered kinds.
pub open spec fn start_of_kind(objs: Seq<(GeometryId, Mat4)>, k: int) -> nat
    decreases k,
{
    if k <= 0 {
        0
    } else {
        start_of_kind(objs, k - 1) + count_of_kind(objs, k - 1)
    }
}

/// The instance buffer's contents for a frame: each kind's matrices
/// contiguous, kinds in index order.
pub open spec fn sorted_upto(objs: Seq<(GeometryId, Mat4)>, k: int) -> Seq<Mat4>
    decreases k,
{
    if k <= 0 {
        Seq::empty()
    } else {
        sorted_upto(objs, k - 1) + matrices_of_kind(objs, k - 1)
    }
}

/// The capacity a doubling buffer ends at: unchanged while it suffices,
/// otherwise doubled until it does.
pub open spec fn grown_capacity(cap: nat, needed: nat) -> nat
    recommends
        1 <= cap,
    decreases (if cap < needed { needed - cap } else { 0 }),
{
    if cap >= needed || cap < 1 {
        cap
    } else {
        grown_capacity(2 * cap, needed)
    }
}

/// `m` is `cap` doubled zero or more times.
pub open spec fn is_doubling_of(m: nat, cap: nat) -> bool
    decreases m,
{
    if m == cap {
        true
    } else if m < cap || cap < 1 {
        false
    } else {
        m % 2 == 0 && is_doubling_of(m / 2, cap)
    }
}

proof fn lemma_doubling_of_double(m: nat, cap: nat)
    requires
        1 <= cap,
        is_doubling_of(m, 2 * cap),
    ensures
        is_doubling_of(m, cap),
    decreases m,
{
    if m == 2 * cap {
        assert(is_doubling_of(m / 2, cap));
    } else {
        lemma_doubling_of_double(m / 2, cap);
    }
}

/// Law of the instance buffer's growth: when a frame's instance count
/// exceeds the capacity, the new capacity is the smallest power-of-two
/// multiple of the previous capacity that is at least the count — it
/// reaches the count, it is the capacity doubled some number of times, and
/// half of it would not have sufficed.
pub proof fn lemma_grown_capacity_minimal(cap: nat, needed: nat)
    requires
        1 <= cap,
    ensures
        grown_capacity(cap, needed) >= needed || grown_capacity(cap, needed) == cap,
        grown_capacity(cap, needed) >= cap,
        is_doubling_of(grown_capacity(cap, needed), cap),
        needed <= cap ==> grown_capacity(cap, needed) == cap,
        cap < needed ==> grown_capacity(cap, needed) >= needed && grown_capacity(cap, needed) / 2
            < needed,
    decreases (if cap < needed { needed - cap } else { 0 }),
{
    if cap < needed {
        lemma_grown_capacity_minimal(2 * cap, needed);
        lemma_doubling_of_double(grown_capacity(2 * cap, needed), cap);
        if 2 * cap < needed {
        } else {
            assert(grown_capacity(2 * cap, needed) == 2 * cap);
        }
    }
}

/// The sorted buffer's prefix for the first `k` kinds is exactly as long as
/// kind `k`'s range start.
proof fn lemma_sorted_len(objs: Seq<(GeometryId, Mat4)>, k: int)
    ensures
        sorted_upto(objs, k).len() == start_of_kind(objs, k),
    decreases k,
{
    if k > 0 {
        lemma_sorted_len(objs, k - 1);
    }
}

/// Range starts grow with the kind index.
proof fn lemma_start_monotone(objs: Seq<(GeometryId, Mat4)>, k1: int, k2: int)
    requires
        k1 <= k2,
    ensures
        start_of_kind(objs, k1) <= start_of_kind(objs, k2),
    decreases k2 - k1,
{
    if k1 < k2 {
        lemma_start_monotone(objs, k1, k2 - 1);
    }
}

/// Within its kind's matrices, an object sits at its rank: the number of
/// earlier objects of the same kind.
proof fn lemma_matrix_at_rank(objs: Seq<(GeometryId, Mat4)>, i: int)
    requires
        0 <= i < objs.len(),
    ensures
        ({
            let k = geometry_index_spec(objs[i].0);
            let r = count_of_kind(objs.take(i), k);
            r < count_of_kind(objs, k) && matrices_of_kind(objs, k)[r as int] == objs[i].1
        }),
    decreases objs.len(),
{
    let k = geometry_index_spec(objs[i].0);
    if i == objs.len() - 1 {
        assert(objs.take(i) =~= objs.drop_last());
    } else {
        lemma_matrix_at_rank(objs.drop_last(), i);
        assert(objs.drop_last().take(i) =~= objs.take(i));
        assert(objs.drop_last()[i] == objs[i]);
    }
}

/// Indexing the whole sorted buffer at a kind's range start plus an
/// in-range rank reads that kind's matrix at that rank.
proof fn lemma_sorted_index_upto(objs: Seq<(GeometryId, Mat4)>, k: int, r: int, kk: int)
    requires
        0 <= k < kk,
        0 <= r < count_of_kind(objs, k),
    ensures
        start_of_kind(objs, k) + r < sorted_upto(objs, kk).len(),
        sorted_upto(objs, kk)[start_of_kind(objs, k) + r] == matrices_of_kind(objs, k)[r],
    decreases kk,
{
    lemma_sorted_len(objs, kk - 1);
    lemma_sorted_len(objs, kk);
    if k == kk - 1 {
        assert(start_of_kind(objs, kk) == start_of_kind(objs, k) + count_of_kind(objs, k));
    } else {
        lemma_sorted_index_upto(objs, k, r, kk - 1);
    }
}

/// Law of the sorted instance layout: each object's model matrix lands at
/// its geometry kind's contiguous range start plus its rank among earlier
/// objects of the same kind — independent of the buffer's capacity, so a
/// reallocation moves no write.
pub proof fn lemma_sorted_placement(objs: Seq<(GeometryId, Mat4)>, i: int)
    requires
        0 <= i < objs.len(),
    ensures
        ({
            let k = geometry_index_spec(objs[i].0);
            let slot = start_of_kind(objs, k) + count_of_kind(objs.take(i), k);
            slot < sorted_upto(objs, GEOMETRY_COUNT as int).len() && sorted_upto(
                objs,
                GEOMETRY_COUNT as int,
            )[slot as int] == objs[i].1
        }),
{
    let k = geometry_index_spec(objs[i].0);
    let r = count_of_kind(objs.take(i), k);
    lemma_matrix_at_rank(objs, i);
    lemma_sorted_index_upto(objs, k, r as int, GEOMETRY_COUNT as int);
}

/// One indexed-instanced draw: a geometry kind, its contiguous instance
/// range in the shared buffer, and its full index range.
#[derive(Clone, Copy, Debug)]
pub struct InstancedDraw {
    pub geometry: GeometryId,
    pub first_instance: u64,
    pub instance_count: u64,
    pub index_count: u32,
}

/// Everything one instanced frame writes and draws: the buffer contents in
/// sorted order, one draw per geometry kind, and whether the buffer had to
/// be reallocated first.
#[derive(Clone, Debug)]
pub struct InstanceBatch {
    pub matrices: Vec<Mat4>,
    pub draws: Vec<InstancedDraw>,
    pub grown: bool,
}

/// The shared instance buffer, tracked by its capacity in instances.
#[derive(Clone, Copy, Debug, PartialEq, Eq, Structural)]
pub struct InstanceBuffer {
    pub capacity: u64,
}

impl InstanceBuffer {
    /// The capacity can double.
    pub open spec fn wf(self) -> bool {
        1 <= self.capacity
    }

    /// A buffer of the given initial capacity, in instances.
    pub fn new(capacity: u64) -> (r: Self)
        requires
            1 <= capacity,
        ensures
            r.capacity == capacity,
            r.wf(),
    {
        InstanceBuffer { capacity }
    }

    /// Sort a frame's objects by geometry kind and lay out the shared
    /// instance buffer: each kind's model matrices contiguous in encounter
    /// order, one draw per kind over its range, and the buffer doubled
    /// until the frame fits. The layout depends on the objects alone, so a
    /// reallocation moves no write to a different offset.
    pub fn write_frame(
        &mut self,
        library: &GeometryLibrary,
        objects: &Vec<(GeometryId, Mat4)>,
    ) -> (batch: InstanceBatch)
        requires
            old(self).wf(),
            library.wf(),
            objects@.len() <= u64::MAX / 2,
        ensures
            final(self).wf(),
            final(self).capacity == grown_capacity(
                old(self).capacity as nat,
                objects@.len() as nat,
            ),
            batch.grown == (objects@.len() > old(self).capacity),
            batch.matrices@ == sorted_upto(objects@, GEOMETRY_COUNT as int),
            batch.draws@.len() == GEOMETRY_COUNT,
            forall|k: int| 0 <= k < GEOMETRY_COUNT ==> #[trigger] batch.draws@[k]
                == (InstancedDraw {
                geometry: geometry_id_of_index_spec(k),
                first_instance: start_of_kind(objects@, k) as u64,
                instance_count: count_of_kind(objects@, k) as u64,
                index_count: library.meshes@[k].index_len,
            }),
    {
        let needed = objects.len() as u64;
        let grown = needed > self.capacity;
        let ghost cap0 = self.capacity as nat;
        while self.capacity < needed
            invariant
                1 <= self.capacity,
                needed <= u64::MAX / 2,
                grown_capacity(cap0, needed as nat) == grown_capacity(
                    self.capacity as nat,
                    needed as nat,
                ),
            decreases (if self.capacity < needed { needed - self.capacity } else { 0 }),
        {
            self.capacity = self.capacity * 2;
        }
        let matrices = sort_matrices(objects);
        let draws = kind_draws(library, objects);
        InstanceBatch { matrices, draws, grown }
    }
}

/// The frame's model matrices in sorted order: each geometry kind's
/// matrices contiguous, encounter order kept within a kind.
fn sort_matrices(objects: &Vec<(GeometryId, Mat4)>) -> (r: Vec<Mat4>)
    ensures
        r@ == sorted_upto(objects@, GEOMETRY_COUNT as int),
{
    let mut out: Vec<Mat4> = Vec::new();
    let mut k: usize = 0;
    while k < GEOMETRY_COUNT
        invariant
            k <= GEOMETRY_COUNT,
            out@ == sorted_upto(objects@, k as int),
        decreases GEOMETRY_COUNT - k,
    {
        let mut i: usize = 0;
        while i < objects.len()
            invariant
                k < GEOMETRY_COUNT,
                i <= objects@.len(),
                out@ == sorted_upto(objects@, k as int) + matrices_of_kind(
                    objects@.subrange(0, i as int),
                    k as int,
                ),
            decreases objects.len() - i,
        {
            let obj = &objects[i];
            if crate::geometry_library::geometry_index(obj.0) == k {
                out.push(obj.1);
            }
            proof {
                let pre = objects@.subrange(0, i as int);
                let cur = objects@.subrange(0, i + 1 as int);
                assert(cur.drop_last() =~= pre);
                assert(cur.last() == objects@[i as int]);
            }
            i = i + 1;
        }
        proof {
            assert(objects@.subrange(0, objects@.len() as int) =~= objects@);
        }
        k = k + 1;
    }
    out
}

/// One draw per geometry kind, covering its contiguous instance range.
fn kind_draws(library: &GeometryLibrary, objects: &Vec<(GeometryId, Mat4)>) -> (r: Vec<
    InstancedDraw,
>)
    requires
        library.wf(),
        objects@.len() <= u64::MAX / 2,
    ensures
        r@.len() == GEOMETRY_COUNT,
        forall|k: int| 0 <= k < GEOMETRY_COUNT ==> #[trigger] r@[k] == (InstancedDraw {
            geometry: geometry_id_of_index_spec(k),
            first_instance: start_of_kind(objects@, k) as u64,
            instance_count: count_of_kind(objects@, k) as u64,
            index_count: library.meshes@[k].index_len,
        }),
{
    let mut draws: Vec<InstancedDraw> = Vec::new();
    let mut start: u64 = 0;
    let mut k: usize = 0;
    while k < GEOMETRY_COUNT
        invariant
            library.wf(),
            objects@.len() <= u64::MAX / 2,
            k <= GEOMETRY_COUNT,
            draws@.len() == k,
            start == start_of_kind(objects@, k as int),
            forall|j: int| 0 <= j < k ==> #[trigger] draws@[j] == (InstancedDraw {
                geometry: geometry_id_of_index_spec(j),
                first_instance: start_of_kind(objects@, j) as u64,
                instance_count: count_of_kind(objects@, j) as u64,
                index_count: library.meshes@[j].index_len,
            }),
        decreases GEOMETRY_COUNT - k,
    {
        proof {
            lemma_start_bounds(objects@);
        }
        let id = geometry_id_of_index(k);
        let count = count_matching(objects, k);
        let mesh = library.get(id);
        draws.push(
            InstancedDraw {
                geometry: id,
                first_instance: start,
                instance_count: count,
                index_count: mesh.index_len,
            },
        );
        start = start + count;
        k = k + 1;
    }
    draws
}

/// How many objects are of kind `k`.
fn count_matching(objects: &Vec<(GeometryId, Mat4)>, k: usize) -> (r: u64)
    requires
        objects@.len() <= u64::MAX / 2,
    ensures
        r == count_of_kind(objects@, k as int),
{
    proof {
        lemma_count_le_len(objects@, k as int);
    }
    let mut count: u64 = 0;
    let mut i: usize = 0;
    while i < objects.len()
        invariant
            objects@.len() <= u64::MAX / 2,
            i <= objects@.len(),
            count == count_of_kind(objects@.subrange(0, i as int), k as int),
            count <= i,
        decreases objects.len() - i,
    {
        proof {
            let pre = objects@.subrange(0, i as int);
            let cur = objects@.subrange(0, i + 1 as int);
            assert(cur.drop_last() =~= pre);
            assert(cur.last() == objects@[i as int]);
            lemma_count_le_len(cur, k as int);
        }
        if crate::geometry_library::geometry_index(objects[i].0) == k {
            count = count + 1;
        }
        i = i + 1;
    }
    proof {
        assert(objects@.subrange(0, objects@.len() as int) =~= objects@);
    }
    count
}

/// A kind holds at most as many matrices as there are objects.
proof fn lemma_count_le_len(objs: Seq<(GeometryId, Mat4)>, k: int)
    ensures
        count_of_kind(objs, k) <= objs.len(),
    decreases objs.len(),
{
    if objs.len() > 0 {
        lemma_count_le_len(objs.drop_last(), k);
    }
}

/// The kind ranges all fit inside the object count.
proof fn lemma_start_bounds(objs: Seq<(GeometryId, Mat4)>)
    ensures
        start_of_kind(objs, 0) == 0,
        start_of_kind(objs, 1) == count_of_kind(objs, 0),
        start_of_kind(objs, 2) == count_of_kind(objs, 0) + count_of_kind(objs, 1),
        start_of_kind(objs, 2) <= 2 * objs.len(),
{
    lemma_count_le_len(objs, 0);
    lemma_count_le_len(objs, 1);
    assert(start_of_kind(objs, 0) == 0);
    assert(start_of_kind(objs, 1) == count_of_kind(objs, 0));
    assert(start_of_kind(objs, 2) == start_of_kind(objs, 1) + count_of_kind(objs, 1));
}

} // verus!
