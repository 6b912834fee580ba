//! What the decode thread does with each decoded frame or audio buffer:
//! hand it to its bounded buffer under backpressure, keep the position up to
//! date, and open the prebuffer gate once both buffers are full enough.
use vstd::prelude::*;

use crate::audio::{AudioFormat, SampleBuffer};
use crate::clock::NS_PER_MS;
use crate::decoder::{prebuffer_met, GstPlayer};
use crate::frame::VideoInfo;
use crate::queue::{Delivery, VideoQueue};

verus! {

/// Outcome of handing a decoded frame to the video queue.
pub enum FrameOutcome {
    /// The frame was queued; `now_ready` says whether this opened the
    /// prebuffer gate.
    Queued { now_ready: bool },
    /// The queue is full: sleep briefly and offer the returned frame again.
    Retry(VideoInfo),
    /// Shutdown was requested: leave the decode loop.
    Stopped,
}

/// One attempt to queue `frame`, with `samples` audio samples buffered and
/// the source's audio in format `audio` (`None` when it has no audio).
pub fn deliver_frame(
    decoder: &mut GstPlayer,
    queue: &mut VideoQueue,
    frame: VideoInfo,
    samples: usize,
    audio: Option<AudioFormat>,
) -> (r: FrameOutcome)
    requires
        old(decoder).wf(),
        old(queue).wf(),
    ensures
        final(decoder).wf(),
        final(queue).wf(),
        final(queue).cap() == old(queue).cap(),
        final(decoder).uri_spec() == old(decoder).uri_spec(),
        final(decoder).duration() == old(decoder).duration(),
        old(decoder).flags().should_stop ==> r is Stopped && final(queue)@ == old(queue)@
            && final(decoder).flags() == old(decoder).flags() && final(decoder).position()
            == old(decoder).position(),
        !old(decoder).flags().should_stop && old(queue)@.len() >= old(queue).cap() ==> r
            == FrameOutcome::Retry(frame) && final(queue)@ == old(queue)@ && final(decoder).flags()
            == old(decoder).flags() && final(decoder).position() == old(decoder).position(),
        !old(decoder).flags().should_stop && old(queue)@.len() < old(queue).cap() ==> {
            let met = prebuffer_met(old(queue)@.len() + 1, samples as nat, audio);
            &&& r == FrameOutcome::Queued { now_ready: old(decoder).flags().becomes_ready(met) }
            &&& final(queue)@ == old(queue)@.push(frame)
            &&& final(decoder).position() == frame.pts as nat / NS_PER_MS as nat
            &&& final(decoder).flags() == old(decoder).flags().checked(met)
        },
{
    let pts = frame.pts;
    match queue.offer(frame, decoder.should_stop()) {
        Delivery::Stopped => FrameOutcome::Stopped,
        Delivery::Retry(f) => FrameOutcome::Retry(f),
        Delivery::Delivered => {
            decoder.record_frame(pts);
            let now_ready = decoder.check_prebuffer(queue.len(), samples, audio);
            FrameOutcome::Queued { now_ready }
        },
    }
}

/// One attempt to push `samples[start..]` into the sample buffer, with
/// `frames` frames in the video queue. `None` when shutdown was requested;
/// otherwise the index of the first sample still to push.
pub fn deliver_samples(
    decoder: &mut GstPlayer,
    buffer: &mut SampleBuffer,
    samples: &[u32],
    start: usize,
    frames: usize,
    audio: AudioFormat,
) -> (r: Option<usize>)
    requires
        old(decoder).wf(),
        old(buffer).wf(),
        start <= samples@.len(),
    ensures
        final(decoder).wf(),
        final(buffer).wf(),
        final(buffer).cap() == old(buffer).cap(),
        final(decoder).uri_spec() == old(decoder).uri_spec(),
        final(decoder).duration() == old(decoder).duration(),
        final(decoder).position() == old(decoder).position(),
        old(decoder).flags().should_stop ==> r is None && final(buffer)@ == old(buffer)@
            && final(decoder).flags() == old(decoder).flags(),
        !old(decoder).flags().should_stop ==> (r matches Some(next) && start <= next
            <= samples@.len() && next - start == vstd::math::min(
            samples@.len() - start,
            old(buffer).cap() - old(buffer)@.len(),
        ) && final(buffer)@ == old(buffer)@ + samples@.subrange(start as int, next as int)
            && final(decoder).flags() == old(decoder).flags().checked(
            prebuffer_met(frames as nat, final(buffer)@.len(), Some(audio)),
        )),
{
    match buffer.offer(samples, start, decoder.should_stop()) {
        None => None,
        Some(next) => {
            decoder.check_prebuffer(frames, buffer.len(), Some(audio));
            Some(next)
        },
    }
}

} // verus!
