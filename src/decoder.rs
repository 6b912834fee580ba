//! The decode controller: the flags shared between the command side and the
//! decode thread, the prebuffer gate, and the decisions the decode loop takes.
use vstd::prelude::*;

use crate::audio::{samples_per_second, AudioFormat};
use crate::clock::NS_PER_MS;

verus! {

/// Frames the video queue must hold before playback may begin.
pub const MIN_PREBUFFER_FRAMES: usize = 30;

/// Parts per million: the unit of `GstPlayer::progress`.
pub const PROGRESS_SCALE: u64 = 1_000_000;

/// Enough is buffered to start: `frames` queued frames, and, when the source
/// has audio in format `audio`, half a second of `samples`.
pub open spec fn prebuffer_met(frames: nat, samples: nat, audio: Option<AudioFormat>) -> bool {
    &&& frames >= MIN_PREBUFFER_FRAMES
    &&& match audio {
        None => true,
        Some(f) => samples >= samples_per_second(f) / 2,
    }
}

/// Decides `prebuffer_met`.
pub fn prebuffer_satisfied(frames: usize, samples: usize, audio: Option<AudioFormat>) -> (r: bool)
    ensures
        r == prebuffer_met(frames as nat, samples as nat, audio),
{
    if frames < MIN_PREBUFFER_FRAMES {
        return false;
    }
    match audio {
        None => true,
        Some(f) => samples as u64 >= f.min_prebuffer_samples(),
    }
}

/// The flags shared by the command side and the decode thread.
#[derive(Clone, Copy, PartialEq, Eq, Structural, Debug)]
pub struct DecodeFlags {
    /// Playback was requested.
    pub playing: bool,
    /// Shutdown was requested; never cleared.
    pub should_stop: bool,
    /// The prebuffer was filled; never cleared.
    pub ready: bool,
    /// The decode thread was started.
    pub started: bool,
}

/// A command or observation that changes the flags.
pub enum FlagEvent {
    /// `play()`.
    Play,
    /// `pause()`.
    Pause,
    /// `destroy()`.
    Destroy,
    /// `start()`.
    Start,
    /// The decode loop checked the prebuffer; `true` when it was met.
    Prebuffer(bool),
}

/// What the decode loop does next.
#[derive(Clone, Copy, PartialEq, Eq, Structural, Debug)]
pub enum DecodeStep {
    /// Leave the loop for good.
    Exit,
    /// Decode the next packet.
    Decode,
    /// Sleep for one poll interval, then ask again.
    Wait,
}

impl DecodeFlags {
    /// A stopped player is not playing.
    pub open spec fn wf(self) -> bool {
        self.should_stop ==> !self.playing
    }

    /// After `play()`: playing, unless shut down.
    pub open spec fn played(self) -> DecodeFlags {
        if self.should_stop {
            self
        } else {
            DecodeFlags { playing: true, ..self }
        }
    }

    /// After `pause()`.
    pub open spec fn paused(self) -> DecodeFlags {
        DecodeFlags { playing: false, ..self }
    }

    /// After `destroy()`.
    pub open spec fn destroyed(self) -> DecodeFlags {
        DecodeFlags { should_stop: true, playing: false, ..self }
    }

    /// After `start()`: started, unless shut down.
    pub open spec fn launched(self) -> DecodeFlags {
        if self.should_stop {
            self
        } else {
            DecodeFlags { started: true, ..self }
        }
    }

    /// Whether a prebuffer check with outcome `met` makes the player ready now.
    pub open spec fn becomes_ready(self, met: bool) -> bool {
        !self.ready && !self.should_stop && met
    }

    /// After a prebuffer check with outcome `met`.
    pub open spec fn checked(self, met: bool) -> DecodeFlags {
        if self.becomes_ready(met) {
            DecodeFlags { ready: true, ..self }
        } else {
            self
        }
    }

    /// After `e`.
    pub open spec fn after(self, e: FlagEvent) -> DecodeFlags {
        match e {
            FlagEvent::Play => self.played(),
            FlagEvent::Pause => self.paused(),
            FlagEvent::Destroy => self.destroyed(),
            FlagEvent::Start => self.launched(),
            FlagEvent::Prebuffer(met) => self.checked(met),
        }
    }

    /// Whether `e` turns `ready` on.
    pub open spec fn readies(self, e: FlagEvent) -> bool {
        !self.ready && self.after(e).ready
    }

    /// The decode loop's next step: stop when asked to; fill the prebuffer
    /// whatever the play flag says; then decode only while playing.
    pub open spec fn step(self) -> DecodeStep {
        if self.should_stop {
            DecodeStep::Exit
        } else if !self.ready || self.playing {
            DecodeStep::Decode
        } else {
            DecodeStep::Wait
        }
    }
}

/// Flags after the events `es`, in order.
pub open spec fn flags_after(f: DecodeFlags, es: Seq<FlagEvent>) -> DecodeFlags
    decreases es.len(),
{
    if es.len() == 0 {
        f
    } else {
        flags_after(f, es.drop_last()).after(es.last())
    }
}

/// How many of the events `es` turned `ready` on.
pub open spec fn ready_flips(f: DecodeFlags, es: Seq<FlagEvent>) -> nat
    decreases es.len(),
{
    if es.len() == 0 {
        0
    } else {
        ready_flips(f, es.drop_last()) + if flags_after(f, es.drop_last()).readies(es.last()) {
            1nat
        } else {
            0nat
        }
    }
}

/// `ready` turns on at most once, only at a prebuffer check that was met,
/// and never turns off again: starting from a player that is not ready, it
/// turned on exactly once when it is ready at the end.
pub proof fn lemma_ready_once(f: DecodeFlags, es: Seq<FlagEvent>)
    ensures
        ready_flips(f, es) <= 1,
        f.ready ==> ready_flips(f, es) == 0 && flags_after(f, es).ready,
        !f.ready ==> (flags_after(f, es).ready <==> ready_flips(f, es) == 1),
        forall|i: int|
            0 <= i < es.len() && #[trigger] flags_after(f, es.subrange(0, i)).readies(es[i])
                ==> es[i] == FlagEvent::Prebuffer(true),
    decreases es.len(),
{
    if es.len() > 0 {
        let prev = es.drop_last();
        lemma_ready_once(f, prev);
        assert forall|i: int|
            0 <= i < es.len() && #[trigger] flags_after(f, es.subrange(0, i)).readies(
                es[i],
            ) implies es[i] == FlagEvent::Prebuffer(true) by {
            if i < prev.len() {
                assert(es.subrange(0, i) =~= prev.subrange(0, i));
                assert(es[i] == prev[i]);
            } else {
                assert(es.subrange(0, i) =~= prev);
            }
        }
    }
}

/// `destroy()` is idempotent, and terminal: after it, whatever happens, the
/// player stays stopped and not playing, and the decode loop's next step is
/// to exit.
pub proof fn lemma_destroy_terminal(f: DecodeFlags, es: Seq<FlagEvent>)
    ensures
        f.destroyed().destroyed() == f.destroyed(),
        flags_after(f.destroyed(), es).should_stop,
        !flags_after(f.destroyed(), es).playing,
        flags_after(f.destroyed(), es).step() == DecodeStep::Exit,
    decreases es.len(),
{
    if es.len() > 0 {
        lemma_destroy_terminal(f, es.drop_last());
    }
}

/// Once ready, pausing stops the decode loop from producing frames (it
/// waits, or exits on shutdown) and playing resumes it; before the prebuffer
/// is filled the loop decodes whatever the play flag says.
pub proof fn lemma_pause_halts_decoding(f: DecodeFlags)
    ensures
        f.ready && !f.should_stop ==> f.paused().step() == DecodeStep::Wait,
        f.ready && !f.should_stop ==> f.paused().played().step() == DecodeStep::Decode,
        !f.ready && !f.should_stop ==> f.paused().step() == DecodeStep::Decode,
{
}

/// A message from the pipeline's bus, as far as the decode loop cares.
pub enum BusEvent {
    /// The pipeline reached the paused state; carries the stream's duration
    /// in milliseconds when the pipeline could tell it.
    PipelinePaused(Option<u64>),
    /// The pipeline reached the playing state.
    PipelinePlaying,
    /// The stream ended.
    EndOfStream,
    /// Decoding failed.
    Error,
    /// Anything else.
    Other,
}

/// The decode controller of one player: its source and its shared state.
pub struct GstPlayer {
    uri: String,
    flags: DecodeFlags,
    duration_ms: u64,
    position_ms: u64,
}

impl GstPlayer {
    /// The source URI.
    pub closed spec fn uri_spec(&self) -> Seq<char> {
        self.uri@
    }

    /// The shared flags.
    pub closed spec fn flags(&self) -> DecodeFlags {
        self.flags
    }

    /// Stream duration in milliseconds, zero while unknown.
    pub closed spec fn duration(&self) -> nat {
        self.duration_ms as nat
    }

    /// Position of the latest decoded frame, in milliseconds.
    pub closed spec fn position(&self) -> nat {
        self.position_ms as nat
    }

    /// The flags are consistent.
    pub open spec fn wf(&self) -> bool {
        self.flags().wf()
    }

    /// Progress through the stream in parts per million: zero until the
    /// player is ready or while the duration is unknown, full once the
    /// position reaches the duration.
    pub open spec fn progress_spec(&self) -> nat {
        if !self.flags().ready || self.duration() == 0 {
            0
        } else if self.position() >= self.duration() {
            PROGRESS_SCALE as nat
        } else {
            self.position() * (PROGRESS_SCALE as nat) / self.duration()
        }
    }

    /// An idle handle for the source at `uri`: no thread, nothing buffered.
    pub fn new(uri: &str) -> (r: GstPlayer)
        ensures
            r.uri_spec() == uri@,
            r.flags() == (DecodeFlags { playing: false, should_stop: false, ready: false, started: false }),
            r.duration() == 0,
            r.position() == 0,
            r.wf(),
    {
        GstPlayer {
            uri: uri.to_owned(),
            flags: DecodeFlags { playing: false, should_stop: false, ready: false, started: false },
            duration_ms: 0,
            position_ms: 0,
        }
    }

    /// The source URI.
    pub fn uri(&self) -> (r: &str)
        ensures
            r@ == self.uri_spec(),
    {
        self.uri.as_str()
    }

    /// Requests playback; no effect once destroyed.
    pub fn play(&mut self)
        requires
            old(self).wf(),
        ensures
            final(self).wf(),
            final(self).flags() == old(self).flags().played(),
            final(self).uri_spec() == old(self).uri_spec(),
            final(self).duration() == old(self).duration(),
            final(self).position() == old(self).position(),
    {
        if !self.flags.should_stop {
            self.flags.playing = true;
        }
    }

    /// Requests a pause. Buffered frames stay where they are.
    pub fn pause(&mut self)
        requires
            old(self).wf(),
        ensures
            final(self).wf(),
            final(self).flags() == old(self).flags().paused(),
            final(self).uri_spec() == old(self).uri_spec(),
            final(self).duration() == old(self).duration(),
            final(self).position() == old(self).position(),
    {
        self.flags.playing = false;
    }

    /// Requests shutdown, for good. Calling it again changes nothing.
    pub fn destroy(&mut self)
        requires
            old(self).wf(),
        ensures
            final(self).wf(),
            final(self).flags() == old(self).flags().destroyed(),
            final(self).uri_spec() == old(self).uri_spec(),
            final(self).duration() == old(self).duration(),
            final(self).position() == old(self).position(),
    {
        self.flags.should_stop = true;
        self.flags.playing = false;
    }

    /// Claims the right to run the decode thread. Returns `true` exactly
    /// once per player, on the first call before any `destroy()`: the caller
    /// that gets `true` spawns the thread, every other caller does nothing.
    pub fn start(&mut self) -> (spawn: bool)
        requires
            old(self).wf(),
        ensures
            final(self).wf(),
            spawn == (!old(self).flags().started && !old(self).flags().should_stop),
            final(self).flags() == old(self).flags().launched(),
            final(self).uri_spec() == old(self).uri_spec(),
            final(self).duration() == old(self).duration(),
            final(self).position() == old(self).position(),
    {
        if self.flags.started || self.flags.should_stop {
            false
        } else {
            self.flags.started = true;
            true
        }
    }

    /// Checks the prebuffer gate against the current buffer levels and
    /// turns `ready` on when it is met for the first time. Returns whether
    /// this call turned it on.
    pub fn check_prebuffer(&mut self, frames: usize, samples: usize, audio: Option<AudioFormat>) -> (r: bool)
        requires
            old(self).wf(),
        ensures
            final(self).wf(),
            r == old(self).flags().becomes_ready(prebuffer_met(frames as nat, samples as nat, audio)),
            final(self).flags() == old(self).flags().checked(
                prebuffer_met(frames as nat, samples as nat, audio),
            ),
            final(self).uri_spec() == old(self).uri_spec(),
            final(self).duration() == old(self).duration(),
            final(self).position() == old(self).position(),
    {
        if self.flags.ready || self.flags.should_stop {
            return false;
        }
        if prebuffer_satisfied(frames, samples, audio) {
            self.flags.ready = true;
            true
        } else {
            false
        }
    }

    /// What the decode loop does next.
    pub fn next_step(&self) -> (r: DecodeStep)
        ensures
            r == self.flags().step(),
    {
        if self.flags.should_stop {
            DecodeStep::Exit
        } else if !self.flags.ready || self.flags.playing {
            DecodeStep::Decode
        } else {
            DecodeStep::Wait
        }
    }

    /// Records that the frame with timestamp `pts_ns` was decoded and queued.
    pub fn record_frame(&mut self, pts_ns: u64)
        requires
            old(self).wf(),
        ensures
            final(self).wf(),
            final(self).position() == pts_ns as nat / NS_PER_MS as nat,
            final(self).flags() == old(self).flags(),
            final(self).uri_spec() == old(self).uri_spec(),
            final(self).duration() == old(self).duration(),
    {
        self.position_ms = pts_ns / NS_PER_MS;
    }

    /// Handles one bus message. Returns `false` when the decode loop must
    /// end: at the end of the stream or on an error. A paused pipeline that
    /// knows its duration records it.
    pub fn on_bus_event(&mut self, event: BusEvent) -> (keep_going: bool)
        requires
            old(self).wf(),
        ensures
            final(self).wf(),
            keep_going == !(event is EndOfStream || event is Error),
            final(self).duration() == (match event {
                BusEvent::PipelinePaused(Some(d)) => d as nat,
                _ => old(self).duration(),
            }),
            final(self).flags() == old(self).flags(),
            final(self).uri_spec() == old(self).uri_spec(),
            final(self).position() == old(self).position(),
    {
        match event {
            BusEvent::PipelinePaused(Some(d)) => {
                self.duration_ms = d;
                true
            },
            BusEvent::EndOfStream => false,
            BusEvent::Error => false,
            _ => true,
        }
    }

    /// Whether the prebuffer was filled.
    pub fn is_ready(&self) -> (r: bool)
        ensures
            r == self.flags().ready,
    {
        self.flags.ready
    }

    /// Whether playback is requested.
    pub fn is_playing(&self) -> (r: bool)
        ensures
            r == self.flags().playing,
    {
        self.flags.playing
    }

    /// Whether shutdown was requested.
    pub fn should_stop(&self) -> (r: bool)
        ensures
            r == self.flags().should_stop,
    {
        self.flags.should_stop
    }

    /// Whether the decode thread was started.
    pub fn has_started(&self) -> (r: bool)
        ensures
            r == self.flags().started,
    {
        self.flags.started
    }

    /// The current flags.
    pub fn current_flags(&self) -> (r: DecodeFlags)
        ensures
            r == self.flags(),
    {
        self.flags
    }

    /// Stream duration in milliseconds, zero while unknown.
    pub fn duration_ms(&self) -> (r: u64)
        ensures
            r == self.duration(),
    {
        self.duration_ms
    }

    /// Position of the latest decoded frame, in milliseconds.
    pub fn position_ms(&self) -> (r: u64)
        ensures
            r == self.position(),
    {
        self.position_ms
    }

    /// Progress through the stream in parts per million, in `[0, PROGRESS_SCALE]`.
    pub fn progress(&self) -> (r: u64)
        ensures
            r == self.progress_spec(),
            r <= PROGRESS_SCALE,
    {
        if !self.flags.ready || self.duration_ms == 0 {
            0
        } else if self.position_ms >= self.duration_ms {
            PROGRESS_SCALE
        } else {
            let p: u128 = self.position_ms as u128 * PROGRESS_SCALE as u128;
            proof {
                assert(self.position_ms as int * PROGRESS_SCALE as int <= self.duration_ms as int
                    * PROGRESS_SCALE as int) by (nonlinear_arith)
                    requires self.position_ms < self.duration_ms;
                vstd::arithmetic::div_mod::lemma_div_is_ordered(
                    self.position_ms as int * PROGRESS_SCALE as int,
                    self.duration_ms as int * PROGRESS_SCALE as int,
                    self.duration_ms as int,
                );
                vstd::arithmetic::div_mod::lemma_div_by_multiple(
                    PROGRESS_SCALE as int,
                    self.duration_ms as int,
                );
                assert(self.duration_ms as int * PROGRESS_SCALE as int == PROGRESS_SCALE as int
                    * self.duration_ms as int) by (nonlinear_arith);
            }
            (p / self.duration_ms as u128) as u64
        }
    }
}

} // verus!
