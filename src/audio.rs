//! The audio side: the output format, decoding of packed little-endian
//! 32-bit samples, and the bounded sample buffer drained by the device.
use std::collections::VecDeque;
use vstd::prelude::*;
use vstd::slice::slice_subrange;
use byteorder::{ByteOrder, LittleEndian};

verus! {

/// Sample rate used when the source has no audio stream, in Hz.
pub const DEFAULT_SAMPLE_RATE: u32 = 44_100;

/// Channel count used when the source has no audio stream.
pub const DEFAULT_CHANNELS: u16 = 2;

/// Seconds of audio the sample buffer holds at most.
pub const BUFFER_SECONDS: u64 = 3;

/// Sample rate and channel layout of an audio stream.
#[derive(Clone, Copy, PartialEq, Eq, Structural, Debug)]
pub struct AudioFormat {
    /// Frames per second, in Hz.
    pub rate: u32,
    /// Interleaved channels per frame.
    pub channels: u16,
}

/// Interleaved samples in one second of audio in `f`.
pub open spec fn samples_per_second(f: AudioFormat) -> nat {
    f.rate as nat * f.channels as nat
}

impl AudioFormat {
    /// A format the device can be configured with.
    pub open spec fn usable(&self) -> bool {
        self.rate > 0 && self.channels > 0
    }

    /// The format the output sink is configured with: the detected one when
    /// it is usable, else the system default.
    pub open spec fn output_spec(detected: Option<AudioFormat>) -> AudioFormat {
        match detected {
            Some(f) => if f.usable() {
                f
            } else {
                AudioFormat { rate: DEFAULT_SAMPLE_RATE, channels: DEFAULT_CHANNELS }
            },
            None => AudioFormat { rate: DEFAULT_SAMPLE_RATE, channels: DEFAULT_CHANNELS },
        }
    }

    /// The system default output format.
    pub fn default_output() -> (r: AudioFormat)
        ensures
            r.rate == DEFAULT_SAMPLE_RATE,
            r.channels == DEFAULT_CHANNELS,
    {
        AudioFormat { rate: DEFAULT_SAMPLE_RATE, channels: DEFAULT_CHANNELS }
    }

    /// Chooses the output format from what the source's decoder reported.
    pub fn output_for(detected: Option<AudioFormat>) -> (r: AudioFormat)
        ensures
            r == AudioFormat::output_spec(detected),
            r.usable(),
    {
        match detected {
            Some(f) => if f.rate > 0 && f.channels > 0 {
                f
            } else {
                AudioFormat::default_output()
            },
            None => AudioFormat::default_output(),
        }
    }

    /// Interleaved samples in half a second of audio: the amount the
    /// prebuffer waits for.
    pub fn min_prebuffer_samples(&self) -> (r: u64)
        ensures
            r == samples_per_second(*self) / 2,
    {
        assert(self.rate as nat * self.channels as nat <= u32::MAX as nat * u16::MAX as nat)
            by (nonlinear_arith);
        self.rate as u64 * self.channels as u64 / 2
    }

    /// Interleaved samples in `BUFFER_SECONDS` seconds of audio: the
    /// capacity of the sample buffer.
    pub fn buffer_samples(&self) -> (r: u64)
        ensures
            r == samples_per_second(*self) * BUFFER_SECONDS,
    {
        assert(self.rate as nat * self.channels as nat <= u32::MAX as nat * u16::MAX as nat)
            by (nonlinear_arith);
        self.rate as u64 * self.channels as u64 * BUFFER_SECONDS
    }
}

/// The 32-bit word stored little-endian at bytes `4 * i .. 4 * i + 4` of `b`.
pub open spec fn le_word(b: Seq<u8>, i: int) -> u32 {
    (b[4 * i] as int + 256 * b[4 * i + 1] as int + 65536 * b[4 * i + 2] as int + 16777216 * b[4
        * i + 3] as int) as u32
}

/// Relies on byteorder's `LittleEndian::read_u32_into`: it fills `dst` with
/// the little-endian words of `src`, and panics unless `src` holds exactly
/// four bytes per word of `dst`.
#[verifier::external_body]
fn read_le_words(src: &[u8], dst: &mut Vec<u32>)
    requires
        src@.len() == 4 * old(dst)@.len(),
    ensures
        final(dst)@.len() == old(dst)@.len(),
        forall|i: int| 0 <= i < final(dst)@.len() ==> #[trigger] final(dst)@[i] == le_word(src@, i),
{
    LittleEndian::read_u32_into(src, dst.as_mut_slice())
}

/// Decodes a buffer of packed little-endian 32-bit samples. Bytes past the
/// last whole sample are ignored.
pub fn decode_samples(bytes: &[u8]) -> (r: Vec<u32>)
    ensures
        r@.len() == bytes@.len() / 4,
        forall|i: int| 0 <= i < r@.len() ==> #[trigger] r@[i] == le_word(bytes@, i),
{
    let n: usize = bytes.len() / 4;
    let whole = slice_subrange(bytes, 0, n * 4);
    let mut out: Vec<u32> = Vec::new();
    let mut i: usize = 0;
    while i < n
        invariant
            i <= n,
            out@.len() == i,
        decreases n - i,
    {
        out.push(0);
        i = i + 1;
    }
    read_le_words(whole, &mut out);
    assert forall|i: int| 0 <= i < out@.len() implies le_word(whole@, i) == le_word(bytes@, i) by {
        assert(whole@[4 * i] == bytes@[4 * i]);
        assert(whole@[4 * i + 1] == bytes@[4 * i + 1]);
        assert(whole@[4 * i + 2] == bytes@[4 * i + 2]);
        assert(whole@[4 * i + 3] == bytes@[4 * i + 3]);
    }
    out
}

/// Bounded FIFO of interleaved samples between the decoder and the device.
pub struct SampleBuffer {
    samples: VecDeque<u32>,
    capacity: u64,
}

impl View for SampleBuffer {
    type V = Seq<u32>;

    closed spec fn view(&self) -> Seq<u32> {
        self.samples@
    }
}

impl SampleBuffer {
    /// The most samples the buffer holds.
    pub closed spec fn cap(&self) -> nat {
        self.capacity as nat
    }

    /// The buffer holds at most its capacity, which is positive.
    pub open spec fn wf(&self) -> bool {
        &&& 0 < self.cap()
        &&& self@.len() <= self.cap()
    }

    /// An empty buffer holding at most `capacity` samples.
    pub fn with_capacity(capacity: u64) -> (r: SampleBuffer)
        requires
            capacity > 0,
        ensures
            r@ == Seq::<u32>::empty(),
            r.cap() == capacity,
            r.wf(),
    {
        SampleBuffer { samples: VecDeque::new(), capacity }
    }

    /// An empty buffer sized for `BUFFER_SECONDS` seconds of `format`.
    pub fn for_format(format: AudioFormat) -> (r: SampleBuffer)
        requires
            format.usable(),
        ensures
            r@ == Seq::<u32>::empty(),
            r.cap() == samples_per_second(format) * BUFFER_SECONDS,
            r.wf(),
    {
        assert(format.rate as nat * format.channels as nat > 0) by (nonlinear_arith)
            requires format.rate > 0, format.channels > 0;
        SampleBuffer::with_capacity(format.buffer_samples())
    }

    /// Number of buffered samples.
    pub fn len(&self) -> (r: usize)
        ensures
            r == self@.len(),
    {
        self.samples.len()
    }

    /// The capacity the buffer was made with.
    pub fn capacity(&self) -> (r: u64)
        ensures
            r == self.cap(),
    {
        self.capacity
    }

    /// Appends `samples[start..]` as far as there is room and returns the
    /// index of the first sample that did not fit (`samples.len()` when all did).
    pub fn push_from(&mut self, samples: &[u32], start: usize) -> (next: usize)
        requires
            old(self).wf(),
            start <= samples@.len(),
        ensures
            final(self).wf(),
            final(self).cap() == old(self).cap(),
            start <= next <= samples@.len(),
            next - start == vstd::math::min(
                samples@.len() - start,
                old(self).cap() - old(self)@.len(),
            ),
            final(self)@ == old(self)@ + samples@.subrange(start as int, next as int),
    {
        let mut i: usize = start;
        while i < samples.len() && (self.samples.len() as u64) < self.capacity
            invariant
                start <= i <= samples@.len(),
                self.cap() == old(self).cap(),
                self@.len() <= self.cap(),
                self@ == old(self)@ + samples@.subrange(start as int, i as int),
            decreases samples@.len() - i,
        {
            self.samples.push_back(samples[i]);
            i = i + 1;
            assert(samples@.subrange(start as int, i as int) =~= samples@.subrange(
                start as int,
                i - 1,
            ).push(samples@[i - 1]));
        }
        i
    }

    /// One attempt of the producer to push `samples[start..]`. `None` when
    /// shutdown was requested (nothing is pushed); otherwise what `push_from`
    /// returns.
    pub fn offer(&mut self, samples: &[u32], start: usize, should_stop: bool) -> (r: Option<
        usize,
    >)
        requires
            old(self).wf(),
            start <= samples@.len(),
        ensures
            final(self).wf(),
            final(self).cap() == old(self).cap(),
            should_stop ==> r is None && final(self)@ == old(self)@,
            !should_stop ==> (r matches Some(next) && start <= next <= samples@.len() && next
                - start == vstd::math::min(
                samples@.len() - start,
                old(self).cap() - old(self)@.len(),
            ) && final(self)@ == old(self)@ + samples@.subrange(start as int, next as int)),
    {
        if should_stop {
            None
        } else {
            Some(self.push_from(samples, start))
        }
    }

    /// Takes up to `wanted` samples from the front, never waiting: the
    /// device's callback gets what is there.
    pub fn drain(&mut self, wanted: usize) -> (r: Vec<u32>)
        requires
            old(self).wf(),
        ensures
            final(self).wf(),
            final(self).cap() == old(self).cap(),
            r@.len() == vstd::math::min(wanted as int, old(self)@.len() as int),
            r@ == old(self)@.subrange(0, r@.len() as int),
            final(self)@ == old(self)@.subrange(r@.len() as int, old(self)@.len() as int),
    {
        let mut out: Vec<u32> = Vec::new();
        while out.len() < wanted && self.samples.len() > 0
            invariant
                out@.len() <= wanted,
                self.cap() == old(self).cap(),
                out@ + self@ == old(self)@,
            decreases self@.len(),
        {
            let s = self.samples.pop_front();
            match s {
                Some(v) => {
                    out.push(v);
                },
                None => {},
            }
        }
        assert(old(self)@.subrange(0, out@.len() as int) =~= out@);
        assert(old(self)@.subrange(out@.len() as int, old(self)@.len() as int) =~= self@);
        out
    }
}

} // verus!
