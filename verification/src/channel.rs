//! The bounded frame channel between the capture side and the render side:
//! capacity two, newest-wins under overflow.
//!
//! The storage is a single-producer single-consumer ring buffer from the
//! `ringbuf` crate, held behind trusted wrappers whose contracts state what
//! that crate's `push` and `pop` do. The newest-wins policy itself — drop
//! the oldest pending frame rather than the incoming one — is verified code
//! in this module.

use vstd::prelude::*;

use crate::frame::Frame;
use crate::frame::FrameView;

verus! {

/// Frames the channel may hold at once; pushing into a full channel evicts
/// the oldest pending frame.
pub const FRAME_CHANNEL_CAPACITY: usize = 2;

#[verifier::external_type_specification]
#[verifier::external_body]
#[verifier::reject_recursive_types(T)]
pub struct ExProducer<T>(ringbuf::Producer<T>);

#[verifier::external_type_specification]
#[verifier::external_body]
#[verifier::reject_recursive_types(T)]
pub struct ExConsumer<T>(ringbuf::Consumer<T>);

/// The frames stored in the ring buffer that `producer` and `consumer` are
/// the two endpoints of, oldest first.
pub uninterp spec fn ring_frames(
    producer: ringbuf::Producer<Frame>,
    consumer: ringbuf::Consumer<Frame>,
) -> Seq<FrameView>;

/// The fixed capacity of the ring buffer that `producer` and `consumer` are
/// the two endpoints of.
pub uninterp spec fn ring_capacity(
    producer: ringbuf::Producer<Frame>,
    consumer: ringbuf::Consumer<Frame>,
) -> nat;

/// The bounded channel a capture source publishes frames into and the
/// render side drains: at most [`FRAME_CHANNEL_CAPACITY`] frames pending,
/// and a push into a full channel evicts the oldest, never the newest.
pub struct FrameChannel {
    producer: ringbuf::Producer<Frame>,
    consumer: ringbuf::Consumer<Frame>,
}

/// One push under the newest-wins policy: append when there is room, else
/// evict the oldest pending frame and append.
pub open spec fn push_spec(s: Seq<FrameView>, cap: nat, f: FrameView) -> Seq<FrameView> {
    if s.len() < cap {
        s.push(f)
    } else {
        s.drop_first().push(f)
    }
}

/// A whole sequence of pushes under the newest-wins policy, first push
/// first.
pub open spec fn push_all_spec(s: Seq<FrameView>, cap: nat, fs: Seq<FrameView>) -> Seq<FrameView>
    decreases fs.len(),
{
    if fs.len() == 0 {
        s
    } else {
        push_all_spec(push_spec(s, cap, fs.first()), cap, fs.drop_first())
    }
}

impl FrameChannel {
    /// The pending frames, oldest first.
    pub closed spec fn frames(self) -> Seq<FrameView> {
        ring_frames(self.producer, self.consumer)
    }

    /// The channel's fixed capacity.
    pub closed spec fn cap(self) -> nat {
        ring_capacity(self.producer, self.consumer)
    }

    /// A channel as this module builds them: capacity
    /// [`FRAME_CHANNEL_CAPACITY`], never holding more than that.
    pub open spec fn wf(self) -> bool {
        &&& self.cap() == FRAME_CHANNEL_CAPACITY
        &&& self.frames().len() <= self.cap()
    }

    /// Relies on `ringbuf::RingBuffer::new` and `ringbuf::RingBuffer::split`:
    /// a fresh bounded queue of the requested capacity holding nothing.
    #[verifier::external_body]
    fn ring_new(capacity: usize) -> (r: FrameChannel)
        ensures
            ring_frames(r.producer, r.consumer) == Seq::<FrameView>::empty(),
            ring_capacity(r.producer, r.consumer) == capacity as nat,
    {
        let (producer, consumer) = ringbuf::RingBuffer::new(capacity).split();
        FrameChannel { producer, consumer }
    }

    /// Relies on `ringbuf::Producer::push`: appends the element when the
    /// queue is below capacity, and otherwise hands it back, leaving the
    /// queue unchanged.
    #[verifier::external_body]
    fn raw_push(&mut self, f: Frame) -> (accepted: bool)
        ensures
            ring_capacity(final(self).producer, final(self).consumer) == ring_capacity(
                old(self).producer,
                old(self).consumer,
            ),
            accepted == (ring_frames(old(self).producer, old(self).consumer).len() < ring_capacity(
                old(self).producer,
                old(self).consumer,
            )),
            accepted ==> ring_frames(final(self).producer, final(self).consumer) == ring_frames(
                old(self).producer,
                old(self).consumer,
            ).push(f@),
            !accepted ==> ring_frames(final(self).producer, final(self).consumer) == ring_frames(
                old(self).producer,
                old(self).consumer,
            ),
    {
        self.producer.push(f).is_ok()
    }

    /// Relies on `ringbuf::Consumer::pop`: removes and returns the oldest
    /// stored element, or returns nothing when the queue is empty.
    #[verifier::external_body]
    fn raw_pop(&mut self) -> (r: Option<Frame>)
        ensures
            ring_capacity(final(self).producer, final(self).consumer) == ring_capacity(
                old(self).producer,
                old(self).consumer,
            ),
            ring_frames(old(self).producer, old(self).consumer).len() == 0 ==> r is None
                && ring_frames(final(self).producer, final(self).consumer) == ring_frames(
                old(self).producer,
                old(self).consumer,
            ),
            ring_frames(old(self).producer, old(self).consumer).len() > 0 ==> (r matches Some(f)
                && f@ == ring_frames(old(self).producer, old(self).consumer).first() && ring_frames(
                final(self).producer,
                final(self).consumer,
            ) == ring_frames(old(self).producer, old(self).consumer).drop_first()),
    {
        self.consumer.pop()
    }

    /// Relies on `ringbuf::Producer::len`: the number of elements stored;
    /// exact here, because both endpoints sit behind this one value.
    #[verifier::external_body]
    fn raw_len(&self) -> (n: usize)
        ensures
            n as nat == ring_frames(self.producer, self.consumer).len(),
    {
        self.producer.len()
    }

    /// An empty channel of capacity [`FRAME_CHANNEL_CAPACITY`].
    pub fn new() -> (r: FrameChannel)
        ensures
            r.wf(),
            r.frames().len() == 0,
    {
        FrameChannel::ring_new(FRAME_CHANNEL_CAPACITY)
    }

    /// Publishes a frame. When the channel is full the oldest pending frame
    /// is evicted: the producer never blocks and the incoming frame is never
    /// the one dropped.
    pub fn push(&mut self, f: Frame)
        requires
            old(self).wf(),
        ensures
            final(self).wf(),
            final(self).frames() == push_spec(old(self).frames(), old(self).cap(), f@),
            final(self).frames().last() == f@,
            final(self).frames().len() > 0,
    {
        if self.raw_len() == FRAME_CHANNEL_CAPACITY {
            let _ = self.raw_pop();
        }
        let _accepted = self.raw_push(f);
    }

    /// Takes the newest pending frame, discarding any older ones, or
    /// returns nothing when no frame arrived since the last call. The
    /// channel is empty afterwards either way.
    pub fn poll_latest(&mut self) -> (r: Option<Frame>)
        requires
            old(self).wf(),
        ensures
            final(self).wf(),
            final(self).cap() == old(self).cap(),
            final(self).frames().len() == 0,
            (match r {
                Some(f) => old(self).frames().len() > 0 && f@ == old(self).frames().last(),
                None => old(self).frames().len() == 0,
            }),
    {
        let mut latest: Option<Frame> = None;
        let ghost mut k: int = 0;
        loop
            invariant
                self.cap() == old(self).cap(),
                self.wf(),
                0 <= k <= old(self).frames().len(),
                self.frames() =~= old(self).frames().skip(k),
                (match latest {
                    Some(f) => k > 0 && f@ == old(self).frames()[k - 1],
                    None => k == 0,
                }),
            ensures
                self.frames().len() == 0,
                (match latest {
                    Some(f) => old(self).frames().len() > 0 && f@ == old(self).frames().last(),
                    None => old(self).frames().len() == 0,
                }),
            decreases self.frames().len(),
        {
            match self.raw_pop() {
                Some(f) => {
                    latest = Some(f);
                    proof {
                        k = k + 1;
                    }
                },
                None => {
                    break ;
                },
            }
        }
        latest
    }

    /// How many frames are pending.
    pub fn len(&self) -> (n: usize)
        ensures
            n as nat == self.frames().len(),
    {
        self.raw_len()
    }
}

/// Newest wins: whatever the channel held before, after any sequence of
/// pushes the frame a consumer's next poll yields is the last one pushed,
/// never an older one.
pub proof fn lemma_newest_wins(s: Seq<FrameView>, cap: nat, fs: Seq<FrameView>)
    requires
        cap >= 1,
        fs.len() > 0,
    ensures
        push_all_spec(s, cap, fs).len() > 0,
        push_all_spec(s, cap, fs).last() == fs.last(),
    decreases fs.len(),
{
    if fs.len() == 1 {
        let stepped = push_spec(s, cap, fs.first());
        assert(push_all_spec(stepped, cap, fs.drop_first()) == stepped) by {
            reveal_with_fuel(push_all_spec, 1);
        }
        assert(fs.first() == fs.last());
    } else {
        lemma_newest_wins(push_spec(s, cap, fs.first()), cap, fs.drop_first());
        assert(fs.drop_first().last() == fs.last());
    }
}

} // verus!
