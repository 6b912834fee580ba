//! The player state machine that the surrounding application drives once
//! per tick: it issues the decode controller's commands and pulls frames at
//! the pace of the playback clock.
use vstd::prelude::*;

use crate::clock::PlaybackClock;
use crate::decoder::{DecodeFlags, GstPlayer};
use crate::frame::VideoInfo;
use crate::queue::{queue_step, QueueOp, VideoQueue};

verus! {

/// Where a player is in its life.
#[derive(Clone, Copy, PartialEq, Eq, Structural, Debug)]
pub enum VideoState {
    /// Created; waits for its display identity.
    Init,
    /// Playback requested; waits for the prebuffer.
    Loading,
    /// Decoder started; waits for a playback request.
    Ready,
    /// Playback requested.
    Start,
    /// Frames are being shown.
    Playing,
    /// Held on the current frame.
    Paused,
    /// Shut down; terminal.
    Stop,
}

/// What the application has to do after a tick.
pub enum Tick {
    /// Nothing.
    Idle,
    /// Spawn the decode thread for this player.
    SpawnDecoder,
    /// Show this frame.
    Show(VideoInfo),
}

/// A player as the application sees it.
pub struct VideoPlayer {
    /// Current state.
    pub state: VideoState,
    /// Identity of the display element showing this player, once assigned.
    pub id: Option<u64>,
    /// Display width in pixels.
    pub width: u32,
    /// Display height in pixels.
    pub height: u32,
    /// Source URI.
    pub uri: String,
    /// Paces how fast frames are pulled while playing.
    pub clock: PlaybackClock,
}

/// State after one tick from `s`, where `has_id` says whether the display
/// identity is assigned and `ready` whether the prebuffer is filled.
pub open spec fn next_state(s: VideoState, has_id: bool, ready: bool) -> VideoState {
    match s {
        VideoState::Init => if has_id {
            VideoState::Ready
        } else {
            VideoState::Init
        },
        VideoState::Start | VideoState::Loading => if ready {
            VideoState::Playing
        } else {
            VideoState::Loading
        },
        _ => s,
    }
}

/// Whether a tick in state `s` takes a frame off the queue (when there is one).
pub open spec fn tick_pulls(s: VideoState, timer_fired: bool) -> bool {
    s == VideoState::Playing && timer_fired
}

/// Whether a tick in state `s` starts the decode thread.
pub open spec fn tick_launches(s: VideoState, has_id: bool) -> bool {
    (s == VideoState::Init && has_id) || s == VideoState::Start
}

/// The decode controller's flags after one tick from state `s`.
pub open spec fn flags_after_tick(s: VideoState, has_id: bool, f: DecodeFlags) -> DecodeFlags {
    match s {
        VideoState::Init => if has_id {
            f.launched()
        } else {
            f
        },
        VideoState::Start => if f.ready {
            f.launched().played()
        } else {
            f.launched()
        },
        VideoState::Loading => if f.ready {
            f.played()
        } else {
            f
        },
        VideoState::Paused => f.paused(),
        VideoState::Stop => f.destroyed(),
        _ => f,
    }
}

/// Queue contents after one tick from state `s`.
pub open spec fn queue_after_tick(q: Seq<VideoInfo>, cap: nat, s: VideoState, timer_fired: bool) -> Seq<
    VideoInfo,
> {
    if tick_pulls(s, timer_fired) {
        queue_step(q, cap, QueueOp::Pop)
    } else {
        q
    }
}

/// State and queue after the ticks `fired` (whether the frame timer had
/// fired at each), from state `s` and queue `q`, with the identity assigned
/// and readiness `ready` throughout.
pub open spec fn run_ticks(s: VideoState, q: Seq<VideoInfo>, cap: nat, ready: bool, fired: Seq<
    bool,
>) -> (VideoState, Seq<VideoInfo>)
    decreases fired.len(),
{
    if fired.len() == 0 {
        (s, q)
    } else {
        let (s0, q0) = run_ticks(s, q, cap, ready, fired.drop_last());
        (next_state(s0, true, ready), queue_after_tick(q0, cap, s0, fired.last()))
    }
}

/// Pausing keeps every buffered frame, however many ticks pass; requesting
/// playback again on a ready player shows, at the first tick that fires
/// after it resumes, the frame that was next when it paused.
pub proof fn lemma_pause_resume(q: Seq<VideoInfo>, cap: nat, fired: Seq<bool>)
    ensures
        run_ticks(VideoState::Paused, q, cap, true, fired) == (VideoState::Paused, q),
        next_state(VideoState::Start, true, true) == VideoState::Playing,
        queue_after_tick(q, cap, VideoState::Start, true) == q,
        q.len() > 0 ==> queue_after_tick(q, cap, VideoState::Playing, true) == q.drop_first(),
    decreases fired.len(),
{
    if fired.len() > 0 {
        lemma_pause_resume(q, cap, fired.drop_last());
    }
}

/// Takes the next frame when the frame timer fired, and retimes the clock
/// from its timestamp.
fn handle_playing_state(clock: &mut PlaybackClock, queue: &mut VideoQueue, timer_fired: bool) -> (r:
    Option<VideoInfo>)
    requires
        old(queue).wf(),
    ensures
        final(queue).wf(),
        final(queue).cap() == old(queue).cap(),
        final(queue)@ == queue_after_tick(
            old(queue)@,
            old(queue).cap(),
            VideoState::Playing,
            timer_fired,
        ),
        r == (if timer_fired && old(queue)@.len() > 0 {
            Some(old(queue)@[0])
        } else {
            None::<VideoInfo>
        }),
        r matches Some(f) ==> *final(clock) == (PlaybackClock {
            previous_pts: Some(f.pts),
            interval_ms: old(clock).next_interval(f.pts),
        }),
        r is None ==> *final(clock) == *old(clock),
{
    if !timer_fired {
        return None;
    }
    match queue.pop_front() {
        Some(frame) => {
            clock.on_frame(frame.pts);
            Some(frame)
        },
        None => None,
    }
}

/// Starts the decode controller of a player that has its display identity.
/// Returns whether the caller must spawn the decode thread.
fn initialize_video_player(decoder: &mut GstPlayer) -> (spawn: bool)
    requires
        old(decoder).wf(),
    ensures
        final(decoder).wf(),
        spawn == (!old(decoder).flags().started && !old(decoder).flags().should_stop),
        final(decoder).flags() == old(decoder).flags().launched(),
        final(decoder).uri_spec() == old(decoder).uri_spec(),
        final(decoder).duration() == old(decoder).duration(),
        final(decoder).position() == old(decoder).position(),
{
    decoder.start()
}

/// One tick of the player: applies the state's rule, issues the decode
/// controller's commands, and pulls a frame while playing. `timer_fired`
/// says whether the playback clock's interval has elapsed since the last
/// pull.
pub fn render_video_frame(
    player: &mut VideoPlayer,
    decoder: &mut GstPlayer,
    queue: &mut VideoQueue,
    timer_fired: bool,
) -> (r: Tick)
    requires
        old(decoder).wf(),
        old(queue).wf(),
    ensures
        final(decoder).wf(),
        final(queue).wf(),
        final(queue).cap() == old(queue).cap(),
        final(player).state == next_state(
            old(player).state,
            old(player).id is Some,
            old(decoder).flags().ready,
        ),
        final(player).id == old(player).id,
        final(player).uri == old(player).uri,
        final(player).width == old(player).width,
        final(player).height == old(player).height,
        final(decoder).flags() == flags_after_tick(
            old(player).state,
            old(player).id is Some,
            old(decoder).flags(),
        ),
        final(decoder).uri_spec() == old(decoder).uri_spec(),
        final(decoder).duration() == old(decoder).duration(),
        final(decoder).position() == old(decoder).position(),
        final(queue)@ == queue_after_tick(
            old(queue)@,
            old(queue).cap(),
            old(player).state,
            timer_fired,
        ),
        (r is SpawnDecoder) <==> (tick_launches(old(player).state, old(player).id is Some)
            && !old(decoder).flags().started && !old(decoder).flags().should_stop),
        (r is Show) <==> (tick_pulls(old(player).state, timer_fired) && old(queue)@.len() > 0),
        r matches Tick::Show(f) ==> f == old(queue)@[0] && final(player).clock == (PlaybackClock {
            previous_pts: Some(f.pts),
            interval_ms: old(player).clock.next_interval(f.pts),
        }),
        !(r is Show) ==> final(player).clock == old(player).clock,
{
    match player.state {
        VideoState::Playing => {
            match handle_playing_state(&mut player.clock, queue, timer_fired) {
                Some(frame) => Tick::Show(frame),
                None => Tick::Idle,
            }
        },
        VideoState::Init => {
            if player.id.is_some() {
                player.state = VideoState::Ready;
                if initialize_video_player(decoder) {
                    Tick::SpawnDecoder
                } else {
                    Tick::Idle
                }
            } else {
                Tick::Idle
            }
        },
        VideoState::Start => {
            let spawn = decoder.start();
            if decoder.is_ready() {
                player.state = VideoState::Playing;
                decoder.play();
            } else {
                player.state = VideoState::Loading;
            }
            if spawn {
                Tick::SpawnDecoder
            } else {
                Tick::Idle
            }
        },
        VideoState::Loading => {
            if decoder.is_ready() {
                player.state = VideoState::Playing;
                decoder.play();
            }
            Tick::Idle
        },
        VideoState::Paused => {
            decoder.pause();
            Tick::Idle
        },
        VideoState::Stop => {
            decoder.destroy();
            Tick::Idle
        },
        VideoState::Ready => Tick::Idle,
    }
}

impl VideoPlayer {
    /// A player for `uri`, shown at `width` x `height` pixels, in state `Init`.
    pub fn new(uri: &str, width: u32, height: u32) -> (r: VideoPlayer)
        ensures
            r.state == VideoState::Init,
            r.id is None,
            r.uri@ == uri@,
            r.width == width,
            r.height == height,
            r.clock.previous_pts is None,
            r.clock.wf(),
    {
        VideoPlayer {
            state: VideoState::Init,
            id: None,
            width,
            height,
            uri: uri.to_owned(),
            clock: PlaybackClock::new(),
        }
    }

    /// Assigns the display identity, unless one is assigned already.
    pub fn assign_id(&mut self, id: u64)
        ensures
            final(self).id == (match old(self).id {
                Some(i) => Some(i),
                None => Some(id),
            }),
            final(self).state == old(self).state,
            final(self).uri == old(self).uri,
            final(self).clock == old(self).clock,
            final(self).width == old(self).width,
            final(self).height == old(self).height,
    {
        if self.id.is_none() {
            self.id = Some(id);
        }
    }

    /// A request from the user (`Start`, `Paused` or `Stop`). It is heeded
    /// only once the display identity is assigned, and never after `Stop`.
    pub fn request(&mut self, target: VideoState)
        ensures
            final(self).state == (if old(self).id is Some && old(self).state != VideoState::Stop
                && (target == VideoState::Start || target == VideoState::Paused || target
                == VideoState::Stop) {
                target
            } else {
                old(self).state
            }),
            final(self).id == old(self).id,
            final(self).uri == old(self).uri,
            final(self).clock == old(self).clock,
            final(self).width == old(self).width,
            final(self).height == old(self).height,
    {
        if self.id.is_some() && self.state != VideoState::Stop {
            match target {
                VideoState::Start | VideoState::Paused | VideoState::Stop => {
                    self.state = target;
                },
                _ => {},
            }
        }
    }
}

} // verus!
