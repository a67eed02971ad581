//! The two sample buffers and the roles they take in turn.

use vstd::prelude::*;

verus! {

/// One of the two sample buffers registered with the transfer engine.
#[derive(Clone, Copy, Debug, PartialEq, Eq, Structural)]
pub enum BufferId {
    A,
    B,
}

/// What a buffer is currently used for.
///
/// `Active`: the transfer engine writes into it. `Ready`: it is full and the
/// consumer may read it. `Idle`: the consumer is done with it.
#[derive(Clone, Copy, Debug, PartialEq, Eq, Structural)]
pub enum BufferRole {
    Active,
    Ready,
    Idle,
}

impl BufferId {
    /// The buffer that is not `self`.
    pub open spec fn spec_other(self) -> BufferId {
        match self {
            BufferId::A => BufferId::B,
            BufferId::B => BufferId::A,
        }
    }

    /// The buffer that is not `self`.
    #[verifier::when_used_as_spec(spec_other)]
    pub fn other(self) -> (r: BufferId)
        ensures
            r == self.spec_other(),
    {
        match self {
            BufferId::A => BufferId::B,
            BufferId::B => BufferId::A,
        }
    }
}

/// The sequence names the two buffers in turn, beginning with `first`.
pub open spec fn alternates(order: Seq<BufferId>, first: BufferId) -> bool {
    forall|i: int|
        0 <= i < order.len() ==> #[trigger] order[i] == if i % 2 == 0 {
            first
        } else {
            first.other()
        }
}

/// A sequence that names the buffers in turn can be continued by one that
/// takes up where the first left off.
pub proof fn lemma_alternates_concat(
    head: Seq<BufferId>,
    tail: Seq<BufferId>,
    first: BufferId,
)
    requires
        alternates(head, first),
        alternates(
            tail,
            if head.len() % 2 == 0 {
                first
            } else {
                first.other()
            },
        ),
    ensures
        alternates(head + tail, first),
{
    let whole = head + tail;
    assert forall|i: int| 0 <= i < whole.len() implies #[trigger] whole[i] == if i % 2 == 0 {
        first
    } else {
        first.other()
    } by {
        if i < head.len() {
            assert(whole[i] == head[i]);
        } else {
            assert(whole[i] == tail[i - head.len()]);
        }
    }
}

} // verus!
