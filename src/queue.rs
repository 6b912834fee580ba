//! The bounded video queue between the decoder and the renderer: a FIFO of
//! frames that never grows past its capacity and never reorders.
use std::collections::VecDeque;
use vstd::prelude::*;

use crate::frame::VideoInfo;

verus! {

/// Number of frames the video queue holds at most.
pub const VIDEO_QUEUE_CAPACITY: usize = 100;

/// One operation on the video queue, as seen from outside.
pub enum QueueOp {
    /// The producer offers a frame.
    Push(VideoInfo),
    /// The consumer takes the oldest frame, if any.
    Pop,
}

/// Contents after `op` on a queue holding `q` with capacity `cap`: a push onto
/// a full queue and a pop from an empty one change nothing.
pub open spec fn queue_step(q: Seq<VideoInfo>, cap: nat, op: QueueOp) -> Seq<VideoInfo> {
    match op {
        QueueOp::Push(f) => if q.len() < cap {
            q.push(f)
        } else {
            q
        },
        QueueOp::Pop => if q.len() > 0 {
            q.drop_first()
        } else {
            q
        },
    }
}

/// What `op` hands to the consumer: the front frame for a pop on a non-empty queue.
pub open spec fn step_popped(q: Seq<VideoInfo>, op: QueueOp) -> Seq<VideoInfo> {
    match op {
        QueueOp::Pop => if q.len() > 0 {
            seq![q[0]]
        } else {
            seq![]
        },
        _ => seq![],
    }
}

/// What `op` adds to the queue: the offered frame when there is room.
pub open spec fn step_accepted(q: Seq<VideoInfo>, cap: nat, op: QueueOp) -> Seq<VideoInfo> {
    match op {
        QueueOp::Push(f) => if q.len() < cap {
            seq![f]
        } else {
            seq![]
        },
        _ => seq![],
    }
}

/// Contents after running `ops` from contents `q`.
pub open spec fn queue_after(q: Seq<VideoInfo>, cap: nat, ops: Seq<QueueOp>) -> Seq<VideoInfo>
    decreases ops.len(),
{
    if ops.len() == 0 {
        q
    } else {
        queue_step(queue_after(q, cap, ops.drop_last()), cap, ops.last())
    }
}

/// Frames handed to the consumer while running `ops`, in order.
pub open spec fn popped(q: Seq<VideoInfo>, cap: nat, ops: Seq<QueueOp>) -> Seq<VideoInfo>
    decreases ops.len(),
{
    if ops.len() == 0 {
        seq![]
    } else {
        popped(q, cap, ops.drop_last()) + step_popped(
            queue_after(q, cap, ops.drop_last()),
            ops.last(),
        )
    }
}

/// Frames taken into the queue while running `ops`, in order.
pub open spec fn accepted(q: Seq<VideoInfo>, cap: nat, ops: Seq<QueueOp>) -> Seq<VideoInfo>
    decreases ops.len(),
{
    if ops.len() == 0 {
        seq![]
    } else {
        accepted(q, cap, ops.drop_last()) + step_accepted(
            queue_after(q, cap, ops.drop_last()),
            cap,
            ops.last(),
        )
    }
}

/// Every frame offered while running `ops`, taken or not, in order.
pub open spec fn offered(ops: Seq<QueueOp>) -> Seq<VideoInfo>
    decreases ops.len(),
{
    if ops.len() == 0 {
        seq![]
    } else {
        offered(ops.drop_last()) + match ops.last() {
            QueueOp::Push(f) => seq![f],
            QueueOp::Pop => seq![],
        }
    }
}

/// Timestamps never decrease along `s`.
pub open spec fn pts_sorted(s: Seq<VideoInfo>) -> bool {
    forall|i: int, j: int| 0 <= i <= j < s.len() ==> s[i].pts <= s[j].pts
}

/// No frame is lost or reordered: what the consumer received followed by what
/// is still queued is exactly what was queued at the start followed by every
/// frame the queue accepted.
pub proof fn lemma_fifo(q: Seq<VideoInfo>, cap: nat, ops: Seq<QueueOp>)
    ensures
        popped(q, cap, ops) + queue_after(q, cap, ops) == q + accepted(q, cap, ops),
    decreases ops.len(),
{
    if ops.len() == 0 {
        assert(seq![] + q =~= q + seq![]);
    } else {
        let prev = ops.drop_last();
        lemma_fifo(q, cap, prev);
        let r = queue_after(q, cap, prev);
        let p = popped(q, cap, prev);
        let a = accepted(q, cap, prev);
        match ops.last() {
            QueueOp::Push(f) => {
                if r.len() < cap {
                    assert(p + r.push(f) =~= (p + r).push(f));
                    assert(q + (a + seq![f]) =~= (q + a).push(f));
                } else {
                    assert(p + seq![] =~= p);
                    assert(a + seq![] =~= a);
                }
            },
            QueueOp::Pop => {
                if r.len() > 0 {
                    assert((p + seq![r[0]]) + r.drop_first() =~= p + r);
                } else {
                    assert(p + seq![] =~= p);
                }
                assert(a + seq![] =~= a);
            },
        }
    }
}

/// The queue never holds more than its capacity, whatever is done to it.
pub proof fn lemma_capacity_kept(q: Seq<VideoInfo>, cap: nat, ops: Seq<QueueOp>)
    requires
        q.len() <= cap,
    ensures
        queue_after(q, cap, ops).len() <= cap,
    decreases ops.len(),
{
    if ops.len() > 0 {
        lemma_capacity_kept(q, cap, ops.drop_last());
    }
}

/// The frames taken into the queue are in timestamp order when the frames
/// offered were, and none is later than the last offered.
proof fn lemma_accepted_sorted(q: Seq<VideoInfo>, cap: nat, ops: Seq<QueueOp>)
    requires
        pts_sorted(q + offered(ops)),
    ensures
        pts_sorted(q + accepted(q, cap, ops)),
        (q + accepted(q, cap, ops)).len() > 0 ==> (q + offered(ops)).len() > 0 && (q + accepted(
            q,
            cap,
            ops,
        )).last().pts <= (q + offered(ops)).last().pts,
    decreases ops.len(),
{
    if ops.len() > 0 {
        let prev = ops.drop_last();
        let o = offered(prev);
        let step_o = match ops.last() {
            QueueOp::Push(f) => seq![f],
            QueueOp::Pop => seq![],
        };
        assert(q + offered(ops) =~= (q + o) + step_o);
        assert forall|i: int, j: int| 0 <= i <= j < (q + o).len() implies (q + o)[i].pts <= (q
            + o)[j].pts by {
            assert((q + o)[i] == (q + offered(ops))[i]);
            assert((q + o)[j] == (q + offered(ops))[j]);
        }
        lemma_accepted_sorted(q, cap, prev);
        let a = accepted(q, cap, prev);
        let r = queue_after(q, cap, prev);
        let qa = q + a;
        match ops.last() {
            QueueOp::Push(f) => {
                let n = (q + o).len();
                assert((q + offered(ops))[n as int] == f);
                if r.len() < cap {
                    assert(q + accepted(q, cap, ops) =~= qa.push(f));
                    if qa.len() > 0 {
                        assert((q + offered(ops))[n - 1] == (q + o).last());
                    }
                } else {
                    assert(q + accepted(q, cap, ops) =~= qa);
                    if qa.len() > 0 {
                        assert((q + offered(ops))[n - 1] == (q + o).last());
                    }
                }
            },
            QueueOp::Pop => {
                assert(q + accepted(q, cap, ops) =~= qa);
                assert(q + offered(ops) =~= q + o);
            },
        }
    }
}

/// Frames reach the consumer in non-decreasing timestamp order, for every
/// sequence of pushes and pops, provided the queued frames and the frames
/// offered were in that order.
pub proof fn lemma_pts_order_kept(q: Seq<VideoInfo>, cap: nat, ops: Seq<QueueOp>)
    requires
        pts_sorted(q + offered(ops)),
    ensures
        pts_sorted(popped(q, cap, ops)),
{
    lemma_fifo(q, cap, ops);
    lemma_accepted_sorted(q, cap, ops);
    let p = popped(q, cap, ops);
    let all = q + accepted(q, cap, ops);
    assert forall|i: int, j: int| 0 <= i <= j < p.len() implies p[i].pts <= p[j].pts by {
        assert(p[i] == (p + queue_after(q, cap, ops))[i]);
        assert(p[j] == (p + queue_after(q, cap, ops))[j]);
    }
}

/// Outcome of offering a frame to the queue.
pub enum Delivery {
    /// The frame was queued.
    Delivered,
    /// The queue is full: the frame comes back, to be offered again later.
    Retry(VideoInfo),
    /// Shutdown was requested: the frame is dropped and nothing changes.
    Stopped,
}

/// Bounded FIFO of decoded frames.
pub struct VideoQueue {
    frames: VecDeque<VideoInfo>,
    capacity: usize,
}

impl View for VideoQueue {
    type V = Seq<VideoInfo>;

    closed spec fn view(&self) -> Seq<VideoInfo> {
        self.frames@
    }
}

impl VideoQueue {
    /// The most frames the queue holds.
    pub closed spec fn cap(&self) -> nat {
        self.capacity as nat
    }

    /// The queue holds at most its capacity, which is positive.
    pub open spec fn wf(&self) -> bool {
        &&& 0 < self.cap()
        &&& self@.len() <= self.cap()
    }

    /// An empty queue holding at most `capacity` frames.
    pub fn with_capacity(capacity: usize) -> (r: VideoQueue)
        requires
            capacity > 0,
        ensures
            r@ == Seq::<VideoInfo>::empty(),
            r.cap() == capacity,
            r.wf(),
    {
        VideoQueue { frames: VecDeque::new(), capacity }
    }

    /// An empty queue of the standard capacity.
    pub fn new() -> (r: VideoQueue)
        ensures
            r@ == Seq::<VideoInfo>::empty(),
            r.cap() == VIDEO_QUEUE_CAPACITY,
            r.wf(),
    {
        VideoQueue::with_capacity(VIDEO_QUEUE_CAPACITY)
    }

    /// Number of queued frames.
    pub fn len(&self) -> (r: usize)
        ensures
            r == self@.len(),
    {
        self.frames.len()
    }

    /// The capacity the queue was made with.
    pub fn capacity(&self) -> (r: usize)
        ensures
            r == self.cap(),
    {
        self.capacity
    }

    /// Whether no frame is queued.
    pub fn is_empty(&self) -> (r: bool)
        ensures
            r == (self@.len() == 0),
    {
        self.frames.len() == 0
    }

    /// Whether the queue is at its capacity.
    pub fn is_full(&self) -> (r: bool)
        ensures
            r == (self@.len() >= self.cap()),
    {
        self.frames.len() >= self.capacity
    }

    /// Timestamp of the oldest queued frame.
    pub fn front_pts(&self) -> (r: Option<u64>)
        ensures
            r == (if self@.len() > 0 {
                Some(self@[0].pts)
            } else {
                None::<u64>
            }),
    {
        if self.frames.len() == 0 {
            None
        } else {
            Some(self.frames[0].pts)
        }
    }

    /// Appends `frame` when there is room; otherwise hands it back unchanged.
    pub fn try_push(&mut self, frame: VideoInfo) -> (r: Result<(), VideoInfo>)
        requires
            old(self).wf(),
        ensures
            final(self).wf(),
            final(self).cap() == old(self).cap(),
            final(self)@ == queue_step(old(self)@, old(self).cap(), QueueOp::Push(frame)),
            r is Ok <==> old(self)@.len() < old(self).cap(),
            r matches Err(f) ==> f == frame,
    {
        if self.frames.len() < self.capacity {
            self.frames.push_back(frame);
            Ok(())
        } else {
            Err(frame)
        }
    }

    /// Removes and returns the oldest frame, if any.
    pub fn pop_front(&mut self) -> (r: Option<VideoInfo>)
        requires
            old(self).wf(),
        ensures
            final(self).wf(),
            final(self).cap() == old(self).cap(),
            final(self)@ == queue_step(old(self)@, old(self).cap(), QueueOp::Pop),
            r == (if old(self)@.len() > 0 {
                Some(old(self)@[0])
            } else {
                None::<VideoInfo>
            }),
    {
        let r = self.frames.pop_front();
        proof {
            if old(self)@.len() > 0 {
                assert(old(self)@.subrange(1, old(self)@.len() as int) =~= old(self)@.drop_first());
            }
        }
        r
    }

    /// One attempt of the producer to queue `frame`. A stop request wins over
    /// everything, so a producer waiting on a full queue notices shutdown on
    /// its next attempt; a full queue hands the frame back instead of
    /// dropping it.
    pub fn offer(&mut self, frame: VideoInfo, should_stop: bool) -> (r: Delivery)
        requires
            old(self).wf(),
        ensures
            final(self).wf(),
            final(self).cap() == old(self).cap(),
            should_stop ==> r is Stopped && final(self)@ == old(self)@,
            !should_stop && old(self)@.len() < old(self).cap() ==> r is Delivered
                && final(self)@ == old(self)@.push(frame),
            !should_stop && old(self)@.len() >= old(self).cap() ==> r == Delivery::Retry(frame)
                && final(self)@ == old(self)@,
    {
        if should_stop {
            return Delivery::Stopped;
        }
        match self.try_push(frame) {
            Ok(()) => Delivery::Delivered,
            Err(f) => Delivery::Retry(f),
        }
    }
}

} // verus!
