//! Sample buffers between the synth engine and the I2S DAC. Samples arrive
//! here already converted to signed 16-bit PCM, left then right.
use vstd::prelude::*;

verus! {

/// Length of the I2S ring buffer, in 16-bit samples.
pub const RING_LEN: usize = 256;

/// The ring asks for more samples while fewer than this many are queued.
pub const LOW_WATER: usize = 64;

/// Capacity of the software capture buffer, in 16-bit samples.
pub const CAPTURE_LEN: usize = 512;

/// I2S audio engine for PCM output: a stereo ring buffer in front of the
/// I2S peripheral `I`.
pub struct I2SAudioEngine<I> {
    i2s: I,
    sample_rate: u32,
    buffer: [i16; 256],
    write_index: usize,
    read_index: usize,
}

/// Number of samples queued between `read` and `write` in the ring.
pub open spec fn queued(write: int, read: int) -> int {
    (write + RING_LEN - read) % (RING_LEN as int)
}

/// The number of samples queued in the 256-sample ring between read
/// position `read` and write position `write`: their distance going forward
/// from `read`; the ring wants more samples exactly when fewer than 64 are
/// queued.
pub proof fn law_queued_samples(write: int, read: int)
    requires
        0 <= write < 256,
        0 <= read < 256,
    ensures
        queued(write, read) == if write >= read { write - read } else { write + 256 - read },
        (queued(write, read) < LOW_WATER) == ((if write >= read { write - read } else { write + 256
            - read }) < 64),
        read == 0 ==> (queued(write, read) < LOW_WATER) == (write < 64),
{
}

impl<I> I2SAudioEngine<I> {
    #[verifier::type_invariant]
    closed spec fn inv(self) -> bool {
        &&& self.write_index < RING_LEN
        &&& self.read_index < RING_LEN
    }

    /// The ring's contents.
    pub closed spec fn ring(&self) -> Seq<i16> {
        self.buffer@
    }

    /// Where the next sample will be written.
    pub closed spec fn write_pos(&self) -> int {
        self.write_index as int
    }

    /// Where the DAC reads next.
    pub closed spec fn read_pos(&self) -> int {
        self.read_index as int
    }

    /// The output sample rate in Hz.
    pub closed spec fn rate(&self) -> u32 {
        self.sample_rate
    }

    /// The I2S peripheral the engine drives.
    pub closed spec fn peripheral(&self) -> I {
        self.i2s
    }

    pub fn new(i2s: I, sample_rate: u32) -> (e: Self)
        ensures
            e.ring() == Seq::new(RING_LEN as nat, |i: int| 0i16),
            e.write_pos() == 0,
            e.read_pos() == 0,
            e.rate() == sample_rate,
            e.peripheral() == i2s,
    {
        let mut engine = Self { i2s, sample_rate, buffer: [0; 256], write_index: 0, read_index: 0 };
        engine.start();
        assert(engine.ring() =~= Seq::new(RING_LEN as nat, |i: int| 0i16));
        engine
    }

    /// Whether the ring is running low and wants more samples.
    pub fn needs_samples(&self) -> (r: bool)
        ensures
            r == (queued(self.write_pos(), self.read_pos()) < LOW_WATER),
    {
        proof { use_type_invariant(self); }
        let available = (self.write_index + self.buffer.len() - self.read_index) % self.buffer.len();
        available < 64
    }

    /// Queue one stereo frame of PCM samples: left, then right.
    pub fn push_frame(&mut self, frame: (i16, i16))
        ensures
            final(self).ring() == old(self).ring().update(old(self).write_pos(), frame.0).update(
                (old(self).write_pos() + 1) % (RING_LEN as int),
                frame.1,
            ),
            final(self).write_pos() == (old(self).write_pos() + 2) % (RING_LEN as int),
            final(self).read_pos() == old(self).read_pos(),
            final(self).rate() == old(self).rate(),
            final(self).peripheral() == old(self).peripheral(),
    {
        proof { use_type_invariant(&*self); }
        let w = self.write_index;
        self.buffer[w] = frame.0;
        let w1 = (w + 1) % 256;
        self.write_index = w1;
        self.buffer[w1] = frame.1;
        self.write_index = (w1 + 1) % 256;
    }

    /// Start output. The peripheral streams on its own; nothing changes here.
    pub fn start(&mut self)
        ensures
            final(self).ring() == old(self).ring(),
            final(self).write_pos() == old(self).write_pos(),
            final(self).read_pos() == old(self).read_pos(),
            final(self).rate() == old(self).rate(),
            final(self).peripheral() == old(self).peripheral(),
    {
    }

    /// Stop output. Nothing changes here.
    pub fn stop(&mut self)
        ensures
            final(self).ring() == old(self).ring(),
            final(self).write_pos() == old(self).write_pos(),
            final(self).read_pos() == old(self).read_pos(),
            final(self).rate() == old(self).rate(),
            final(self).peripheral() == old(self).peripheral(),
    {
    }
}

/// Simple software I2S output for testing without hardware: records
/// interleaved PCM samples until its buffer is full.
pub struct SoftwareI2S {
    _sample_rate: u32,
    buffer: [i16; 512],
    write_pos: usize,
}

/// The recorded samples after pushing `frame` onto `recorded`: the frame is
/// appended when both samples fit, and dropped otherwise.
pub open spec fn record_frame(recorded: Seq<i16>, frame: (i16, i16)) -> Seq<i16> {
    if recorded.len() + 2 <= CAPTURE_LEN {
        recorded.push(frame.0).push(frame.1)
    } else {
        recorded
    }
}

/// The recorded samples after pushing each frame of `frames` in turn.
pub open spec fn record_frames(recorded: Seq<i16>, frames: Seq<(i16, i16)>) -> Seq<i16>
    decreases frames.len(),
{
    if frames.len() == 0 {
        recorded
    } else {
        record_frame(record_frames(recorded, frames.drop_last()), frames.last())
    }
}

/// `frames` laid out as interleaved left/right samples.
pub open spec fn interleave(frames: Seq<(i16, i16)>) -> Seq<i16> {
    Seq::new(2 * frames.len(), |i: int| if i % 2 == 0 { frames[i / 2].0 } else { frames[i / 2].1 })
}

impl View for SoftwareI2S {
    type V = Seq<i16>;

    closed spec fn view(&self) -> Seq<i16> {
        self.buffer@.take(self.write_pos as int)
    }
}

impl SoftwareI2S {
    #[verifier::type_invariant]
    closed spec fn inv(self) -> bool {
        &&& self.write_pos <= CAPTURE_LEN
        &&& self.write_pos % 2 == 0
    }

    /// The sample rate the recording was made for.
    pub closed spec fn rate(&self) -> u32 {
        self._sample_rate
    }

    pub fn new(sample_rate: u32) -> (s: Self)
        ensures
            s@ == Seq::<i16>::empty(),
            s.rate() == sample_rate,
    {
        let s = Self { _sample_rate: sample_rate, buffer: [0; 512], write_pos: 0 };
        assert(s@ =~= Seq::<i16>::empty());
        s
    }

    /// Record one stereo frame of PCM samples; a full buffer drops it.
    pub fn push_frame(&mut self, frame: (i16, i16))
        ensures
            final(self)@ == record_frame(old(self)@, frame),
            final(self).rate() == old(self).rate(),
    {
        proof { use_type_invariant(&*self); }
        let ghost before = self@;
        if self.write_pos < self.buffer.len() - 1 {
            let w = self.write_pos;
            self.buffer[w] = frame.0;
            self.buffer[w + 1] = frame.1;
            self.write_pos = w + 2;
            assert(self@ =~= before.push(frame.0).push(frame.1));
        }
    }

    /// Discard everything recorded.
    pub fn clear(&mut self)
        ensures
            final(self)@ == Seq::<i16>::empty(),
            final(self).rate() == old(self).rate(),
    {
        self.write_pos = 0;
        self.buffer = [0; 512];
        assert(self@ =~= Seq::<i16>::empty());
    }

    /// The samples recorded so far, in order.
    pub fn get_buffer(&self) -> (b: &[i16])
        ensures
            b@ == self@,
    {
        proof { use_type_invariant(self); }
        vstd::slice::slice_subrange(self.buffer.as_slice(), 0, self.write_pos)
    }
}

/// Recording a frame appends its left and right sample while at most 510
/// samples are held (the buffer holds 512), and otherwise changes nothing.
pub proof fn law_record_frame(recorded: Seq<i16>, left: i16, right: i16)
    ensures
        recorded.len() <= 510 ==> record_frame(recorded, (left, right)) == recorded + seq![left, right],
        recorded.len() > 510 ==> record_frame(recorded, (left, right)) == recorded,
{
    assert(recorded.push(left).push(right) =~= recorded + seq![left, right]);
}

/// A cleared recorder keeps every frame, in order, while they fit: up to
/// 256 frames are recorded exactly, interleaved left then right.
pub proof fn law_frames_recorded(frames: Seq<(i16, i16)>)
    requires
        2 * frames.len() <= CAPTURE_LEN,
    ensures
        record_frames(Seq::empty(), frames) == interleave(frames),
    decreases frames.len(),
{
    if frames.len() > 0 {
        let init = frames.drop_last();
        law_frames_recorded(init);
        assert(interleave(frames) =~= interleave(init).push(frames.last().0).push(frames.last().1));
    }
}

/// Once the recorder is full, further frames change nothing.
pub proof fn law_full_recorder_drops(recorded: Seq<i16>, frames: Seq<(i16, i16)>)
    requires
        recorded.len() + 2 > CAPTURE_LEN,
    ensures
        record_frames(recorded, frames) == recorded,
    decreases frames.len(),
{
    if frames.len() > 0 {
        law_full_recorder_drops(recorded, frames.drop_last());
    }
}

} // verus!
