//! The ghost model of a swapchain's image ring: which slot indices the
//! driver has handed out and where each outstanding image stands in the
//! acquire → wait → release handshake.

use vstd::prelude::*;
use vstd::set_lib::lemma_int_range;
use vstd::set_lib::lemma_len_subset;
use vstd::set_lib::set_int_range;

verus! {

/// One swapchain's ring protocol state. The compositor owns a fixed-size
/// array of images; this model records every slot index a successful acquire
/// returned and which of them are still travelling through the handshake.
pub struct RingModel {
    /// Every slot index a successful acquire returned, oldest first.
    pub acquired: Seq<u32>,
    /// Slot indices acquired but not yet successfully waited on, oldest
    /// first. The front is the one "oldest unwaited" image a wait addresses.
    pub pending: Seq<u32>,
    /// The slot index whose wait succeeded and which has not been released
    /// yet; at most one image is in this state at a time.
    pub ready: Option<u32>,
    /// How many images have completed the handshake and returned to the
    /// compositor's ring.
    pub released: nat,
}

impl RingModel {
    /// How many images are waited-but-unreleased: zero or one.
    pub open spec fn ready_count(self) -> nat {
        if self.ready is Some {
            1nat
        } else {
            0nat
        }
    }

    /// Well-formedness of the ring state against a ring of `image_count`
    /// slots. The handshake is strictly first-in-first-out, so the acquired
    /// sequence splits into three runs: the `released` oldest images have
    /// completed the handshake, the ready image (if any) is the next
    /// acquired after those, and the pending images are exactly the newest
    /// acquisitions, in acquisition order. Every index handed out lies
    /// inside the ring.
    pub open spec fn wf(self, image_count: u32) -> bool {
        &&& self.released + self.ready_count() + self.pending.len() == self.acquired.len()
        &&& (self.ready matches Some(idx) ==> idx == self.acquired[self.released as int])
        &&& self.pending == self.acquired.subrange(
            self.acquired.len() - self.pending.len(),
            self.acquired.len() as int,
        )
        &&& forall|i: int| 0 <= i < self.acquired.len() ==> self.acquired[i] < image_count
    }

    /// The state of a freshly created or adopted swapchain: nothing acquired
    /// yet.
    pub open spec fn empty() -> RingModel {
        RingModel { acquired: Seq::empty(), pending: Seq::empty(), ready: None, released: 0 }
    }

    /// The state after a successful acquire handed out `index`.
    pub open spec fn after_acquire(self, index: u32) -> RingModel {
        RingModel {
            acquired: self.acquired.push(index),
            pending: self.pending.push(index),
            ready: self.ready,
            released: self.released,
        }
    }

    /// The state after a successful wait: the oldest unwaited image becomes
    /// the ready one.
    pub open spec fn after_wait(self) -> RingModel {
        RingModel {
            acquired: self.acquired,
            pending: self.pending.drop_first(),
            ready: Some(self.pending[0]),
            released: self.released,
        }
    }

    /// The state after a successful release: the ready image returns to the
    /// compositor's ring.
    pub open spec fn after_release(self) -> RingModel {
        RingModel {
            acquired: self.acquired,
            pending: self.pending,
            ready: None,
            released: self.released + 1,
        }
    }
}

/// An empty ring state is well-formed for any ring size.
pub proof fn lemma_empty_wf(image_count: u32)
    ensures
        RingModel::empty().wf(image_count),
{
    assert(RingModel::empty().pending =~= RingModel::empty().acquired.subrange(0, 0));
}

/// Acquiring an in-ring index preserves well-formedness.
pub proof fn lemma_after_acquire_wf(m: RingModel, image_count: u32, index: u32)
    requires
        m.wf(image_count),
        index < image_count,
    ensures
        m.after_acquire(index).wf(image_count),
{
    let n = m.after_acquire(index);
    assert(n.pending =~= n.acquired.subrange(
        n.acquired.len() - n.pending.len(),
        n.acquired.len() as int,
    ));
}

/// Waiting moves the oldest unwaited image, which is the oldest acquired
/// image not yet released, into the ready state and preserves
/// well-formedness.
pub proof fn lemma_after_wait_wf(m: RingModel, image_count: u32)
    requires
        m.wf(image_count),
        m.pending.len() > 0,
        m.ready is None,
    ensures
        m.after_wait().wf(image_count),
        m.after_wait().ready == Some(m.acquired[m.released as int]),
{
    let n = m.after_wait();
    assert(m.pending[0] == m.acquired[m.released as int]);
    assert(n.pending =~= n.acquired.subrange(
        n.acquired.len() - n.pending.len(),
        n.acquired.len() as int,
    ));
}

/// Releasing the ready image preserves well-formedness.
pub proof fn lemma_after_release_wf(m: RingModel, image_count: u32)
    requires
        m.wf(image_count),
        m.ready is Some,
    ensures
        m.after_release().wf(image_count),
{
}

/// The ordering guarantee of the handshake, read off a well-formed state:
/// the image now ready to be released is the oldest acquired image not yet
/// released, and the pending images are exactly the newest acquisitions, in
/// acquisition order. The Nth release therefore corresponds to the Nth wait
/// and to the Nth acquire.
pub proof fn lemma_fifo_order(m: RingModel, image_count: u32)
    requires
        m.wf(image_count),
    ensures
        m.ready matches Some(idx) ==> idx == m.acquired[m.released as int],
        forall|k: int|
            0 <= k < m.pending.len() ==> m.pending[k] == m.acquired[m.acquired.len()
                - m.pending.len() + k],
{
}

/// A sequence of in-ring slot indices with no repetition cannot be longer
/// than the ring itself.
proof fn lemma_distinct_indices_bounded(acquired: Seq<u32>, image_count: u32)
    requires
        forall|i: int| 0 <= i < acquired.len() ==> acquired[i] < image_count,
        acquired.no_duplicates(),
    ensures
        acquired.len() <= image_count,
{
    let ints = acquired.map_values(|x: u32| x as int);
    assert(ints.no_duplicates());
    ints.unique_seq_to_set();
    assert forall|v: int| ints.to_set().contains(v) implies set_int_range(
        0,
        image_count as int,
    ).contains(v) by {
        let k = choose|k: int| 0 <= k < ints.len() && ints[k] == v;
        assert(acquired[k] < image_count);
    }
    assert(ints.to_set().subset_of(set_int_range(0, image_count as int)));
    lemma_int_range(0, image_count as int);
    lemma_len_subset(ints.to_set(), set_int_range(0, image_count as int));
}

/// A fixed-size ring eventually hands out the same slot again: once more
/// than `image_count` successful acquisitions have been recorded, two of
/// them returned the same index.
pub proof fn lemma_ring_indices_repeat(acquired: Seq<u32>, image_count: u32)
    requires
        forall|i: int| 0 <= i < acquired.len() ==> acquired[i] < image_count,
        acquired.len() > image_count,
    ensures
        exists|i: int, j: int| 0 <= i < j < acquired.len() && acquired[i] == acquired[j],
{
    if !(exists|i: int, j: int| 0 <= i < j < acquired.len() && acquired[i] == acquired[j]) {
        assert forall|i: int, j: int|
            0 <= i < acquired.len() && 0 <= j < acquired.len() && i != j implies acquired[i]
            != acquired[j] by {
            if i < j {
                assert(!(0 <= i < j < acquired.len() && acquired[i] == acquired[j]));
            } else {
                assert(!(0 <= j < i < acquired.len() && acquired[j] == acquired[i]));
            }
        }
        lemma_distinct_indices_bounded(acquired, image_count);
    }
}

/// The repetition law carried over to a well-formed ring state: after more
/// than `image_count` successful acquisitions, some slot index has been
/// handed out twice.
pub proof fn lemma_model_indices_repeat(m: RingModel, image_count: u32)
    requires
        m.wf(image_count),
        m.acquired.len() > image_count,
    ensures
        exists|i: int, j: int| 0 <= i < j < m.acquired.len() && m.acquired[i] == m.acquired[j],
{
    lemma_ring_indices_repeat(m.acquired, image_count);
}

} // verus!
