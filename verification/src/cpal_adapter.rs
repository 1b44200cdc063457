//! Audio plumbing between ScreenCaptureKit and an audio output library: a
//! bounded FIFO ring buffer of samples, the shared capture state that the
//! capture callback and the delivery thread work on, and the capture
//! configuration.
//!
//! The buffer is generic over the sample type: capture delivers `f32`
//! samples, and the value written where no sample is available (silence) is
//! given when the buffer is made.

use vstd::prelude::*;

verus! {

/// Position of the `i`-th buffered sample for a buffer of `capacity` slots
/// whose oldest sample sits at `read_pos`.
pub open spec fn slot(read_pos: int, i: int, capacity: int) -> int {
    if read_pos + i < capacity {
        read_pos + i
    } else {
        read_pos + i - capacity
    }
}

/// The smaller of two integers.
pub open spec fn min_of(a: int, b: int) -> int {
    if a < b {
        a
    } else {
        b
    }
}

/// How many of `samples_len` samples fit into a buffer of `capacity` slots
/// that holds `held` samples.
pub open spec fn accepted(held: int, capacity: int, samples_len: int) -> int {
    min_of(samples_len, capacity - held)
}

/// The buffered samples after writing `samples` to a buffer of `capacity`
/// slots holding `contents`: the samples that fit are appended.
pub open spec fn after_write<T>(contents: Seq<T>, capacity: nat, samples: Seq<T>) -> Seq<T> {
    contents + samples.take(accepted(contents.len() as int, capacity as int, samples.len() as int))
}

/// How many samples a read into `out_len` slots takes from `contents`.
pub open spec fn taken(contents_len: int, out_len: int) -> int {
    min_of(out_len, contents_len)
}

/// The buffered samples left after a read into `out_len` slots.
pub open spec fn after_read<T>(contents: Seq<T>, out_len: nat) -> Seq<T> {
    contents.skip(taken(contents.len() as int, out_len as int))
}

/// What a read into `out_len` slots leaves in the output: the oldest samples
/// first, silence after them.
pub open spec fn read_output<T>(contents: Seq<T>, out_len: nat, silence: T) -> Seq<T> {
    Seq::new(
        out_len,
        |i: int|
            if i < taken(contents.len() as int, out_len as int) {
                contents[i]
            } else {
                silence
            },
    )
}

/// Ring buffer for transferring audio between the capture callback and a
/// consumer. Writes that do not fit are cut short; nothing buffered is ever
/// overwritten.
pub struct AudioRingBuffer<T> {
    buffer: Vec<T>,
    capacity: usize,
    write_pos: usize,
    read_pos: usize,
    available: usize,
    silence: T,
}

impl<T: Copy> View for AudioRingBuffer<T> {
    type V = Seq<T>;

    /// The buffered samples, oldest first.
    closed spec fn view(&self) -> Seq<T> {
        Seq::new(
            self.available as nat,
            |i: int| self.buffer@[slot(self.read_pos as int, i, self.capacity as int)],
        )
    }
}

impl<T: Copy> AudioRingBuffer<T> {
    /// Well-formedness of the slot bookkeeping.
    pub closed spec fn wf(&self) -> bool {
        &&& self.buffer@.len() == self.capacity
        &&& self.available <= self.capacity
        &&& self.capacity == 0 ==> self.read_pos == 0 && self.write_pos == 0
        &&& self.capacity > 0 ==> self.read_pos < self.capacity
        &&& self.capacity > 0 ==> self.write_pos == slot(
            self.read_pos as int,
            self.available as int,
            self.capacity as int,
        )
    }

    /// The number of samples the buffer can hold.
    pub closed spec fn capacity_spec(&self) -> nat {
        self.capacity as nat
    }

    /// The value written to output slots that no sample fills.
    pub closed spec fn silence_spec(&self) -> T {
        self.silence
    }

    /// Create an empty ring buffer with room for `capacity` samples.
    pub fn new(capacity: usize, silence: T) -> (r: Self)
        ensures
            r.wf(),
            r@ == Seq::<T>::empty(),
            r.capacity_spec() == capacity,
            r.silence_spec() == silence,
    {
        let mut buffer: Vec<T> = Vec::new();
        let mut k: usize = 0;
        while k < capacity
            invariant
                k <= capacity,
                buffer@.len() == k,
            decreases capacity - k,
        {
            buffer.push(silence);
            k = k + 1;
        }
        let r = AudioRingBuffer { buffer, capacity, write_pos: 0, read_pos: 0, available: 0, silence };
        assert(r@ =~= Seq::<T>::empty());
        r
    }

    /// Write samples to the buffer, returning the number written: as many as
    /// fit, taken from the front of `samples`.
    pub fn write(&mut self, samples: &[T]) -> (n: usize)
        requires
            old(self).wf(),
        ensures
            final(self).wf(),
            n == accepted(old(self)@.len() as int, old(self).capacity_spec() as int, samples@.len() as int),
            final(self)@ == after_write(old(self)@, old(self).capacity_spec(), samples@),
            final(self).capacity_spec() == old(self).capacity_spec(),
            final(self).silence_spec() == old(self).silence_spec(),
    {
        let ghost start = self@;
        let room = self.capacity - self.available;
        let to_write: usize = if samples.len() < room {
            samples.len()
        } else {
            room
        };
        let mut k: usize = 0;
        while k < to_write
            invariant
                self.wf(),
                k <= to_write,
                to_write <= room,
                room == self.capacity - start.len(),
                self.available == start.len() + k,
                to_write <= samples@.len(),
                self@ == start + samples@.take(k as int),
                self.capacity == old(self).capacity,
                self.silence == old(self).silence,
            decreases to_write - k,
        {
            let ghost before = self@;
            let pos = self.write_pos;
            let sample = samples[k];
            self.buffer.set(pos, sample);
            self.write_pos = if pos + 1 == self.capacity {
                0
            } else {
                pos + 1
            };
            self.available = self.available + 1;
            proof {
                assert forall|i: int| 0 <= i < before.len() implies slot(
                    self.read_pos as int,
                    i,
                    self.capacity as int,
                ) != pos by {}
                assert(self@ =~= before.push(sample));
                assert(samples@.take(k + 1) =~= samples@.take(k as int).push(sample));
            }
            k = k + 1;
        }
        to_write
    }

    /// Read samples into `output`, returning the number read: the oldest
    /// buffered samples fill the front of `output` and silence fills the rest.
    pub fn read(&mut self, output: &mut [T]) -> (n: usize)
        requires
            old(self).wf(),
        ensures
            final(self).wf(),
            n == taken(old(self)@.len() as int, old(output)@.len() as int),
            final(output)@ == read_output(old(self)@, old(output)@.len(), old(self).silence_spec()),
            final(self)@ == after_read(old(self)@, old(output)@.len()),
            final(self).capacity_spec() == old(self).capacity_spec(),
            final(self).silence_spec() == old(self).silence_spec(),
    {
        let ghost start = self@;
        let len = output.len();
        let to_read: usize = if len < self.available {
            len
        } else {
            self.available
        };
        let mut k: usize = 0;
        while k < to_read
            invariant
                self.wf(),
                k <= to_read,
                to_read <= start.len(),
                to_read <= len,
                len == output@.len(),
                output@.len() == old(output)@.len(),
                self.available == start.len() - k,
                self@ == start.skip(k as int),
                forall|i: int| 0 <= i < k ==> output@[i] == start[i],
                self.capacity == old(self).capacity,
                self.silence == old(self).silence,
            decreases to_read - k,
        {
            let ghost before = self@;
            let pos = self.read_pos;
            let sample = self.buffer[pos];
            output[k] = sample;
            self.read_pos = if pos + 1 == self.capacity {
                0
            } else {
                pos + 1
            };
            self.available = self.available - 1;
            proof {
                assert(sample == before[0]);
                assert(self@ =~= before.drop_first());
                assert(start.skip(k + 1) =~= start.skip(k as int).drop_first());
            }
            k = k + 1;
        }
        let silence = self.silence;
        while k < len
            invariant
                to_read <= k <= len,
                len == output@.len(),
                output@.len() == old(output)@.len(),
                forall|i: int| 0 <= i < to_read ==> output@[i] == start[i],
                forall|i: int| to_read <= i < k ==> output@[i] == silence,
            decreases len - k,
        {
            output[k] = silence;
            k = k + 1;
        }
        assert(output@ =~= read_output(start, len as nat, silence));
        to_read
    }

    /// Number of buffered samples.
    pub fn available(&self) -> (n: usize)
        ensures
            n == self@.len(),
    {
        self.available
    }

    /// Whether no sample is buffered.
    pub fn is_empty(&self) -> (b: bool)
        ensures
            b == (self@.len() == 0),
    {
        self.available == 0
    }

    /// Drop every buffered sample.
    pub fn clear(&mut self)
        requires
            old(self).wf(),
        ensures
            final(self).wf(),
            final(self)@ == Seq::<T>::empty(),
            final(self).capacity_spec() == old(self).capacity_spec(),
            final(self).silence_spec() == old(self).silence_spec(),
    {
        self.write_pos = 0;
        self.read_pos = 0;
        self.available = 0;
        assert(self@ =~= Seq::<T>::empty());
    }
}

/// A write never lets the buffer hold more than its capacity.
pub proof fn lemma_write_respects_capacity<T>(contents: Seq<T>, capacity: nat, samples: Seq<T>)
    requires
        contents.len() <= capacity,
    ensures
        after_write(contents, capacity, samples).len() <= capacity,
        after_write(contents, capacity, samples).len() == contents.len() + accepted(
            contents.len() as int,
            capacity as int,
            samples.len() as int,
        ),
{
}

/// Samples come out in the order they went in: when everything written fits,
/// a read of the whole content returns the earlier samples followed by the
/// new ones, and leaves the buffer empty.
pub proof fn lemma_fifo_order<T>(contents: Seq<T>, capacity: nat, samples: Seq<T>, silence: T)
    requires
        contents.len() + samples.len() <= capacity,
    ensures
        after_write(contents, capacity, samples) == contents + samples,
        read_output(after_write(contents, capacity, samples), contents.len() + samples.len(), silence)
            == contents + samples,
        after_read(after_write(contents, capacity, samples), contents.len() + samples.len()).len() == 0,
{
    assert(samples.take(samples.len() as int) =~= samples);
    let both = contents + samples;
    assert(read_output(both, both.len(), silence) =~= both);
}

/// A read into more slots than are buffered drains the buffer, and the slots
/// past the buffered samples hold silence.
pub proof fn lemma_overlong_read_drains<T>(contents: Seq<T>, out_len: nat, silence: T)
    requires
        contents.len() <= out_len,
    ensures
        after_read(contents, out_len).len() == 0,
        read_output(contents, out_len, silence).take(contents.len() as int) == contents,
        forall|i: int|
            contents.len() <= i < out_len ==> #[trigger] read_output(contents, out_len, silence)[i] == silence,
{
    assert(read_output(contents, out_len, silence).take(contents.len() as int) =~= contents);
}

/// Sample encoding of captured audio, as an audio output library names it.
#[derive(Debug, Clone, Copy, PartialEq, Eq, Structural)]
pub enum AudioSampleFormat {
    F32,
    I8,
    I16,
    I32,
}

/// Audio format information for output stream configuration.
#[derive(Debug, Clone, Copy, PartialEq, Eq, Structural)]
pub struct AudioFormat {
    /// Sample rate in Hz
    pub sample_rate: u32,
    /// Number of channels
    pub channels: u16,
    /// Bits per sample
    pub bits_per_sample: u16,
    /// Whether samples are float format
    pub is_float: bool,
}

impl AudioFormat {
    /// The sample format the output stream should use: float when the
    /// capture is float, otherwise the integer width of the samples, with
    /// 16 bits for every width other than 8 and 32.
    pub fn sample_format(&self) -> (f: AudioSampleFormat)
        ensures
            self.is_float ==> f == AudioSampleFormat::F32,
            !self.is_float && self.bits_per_sample == 8 ==> f == AudioSampleFormat::I8,
            !self.is_float && self.bits_per_sample == 32 ==> f == AudioSampleFormat::I32,
            !self.is_float && self.bits_per_sample != 8 && self.bits_per_sample != 32 ==> f
                == AudioSampleFormat::I16,
    {
        if self.is_float {
            AudioSampleFormat::F32
        } else if self.bits_per_sample == 8 {
            AudioSampleFormat::I8
        } else if self.bits_per_sample == 32 {
            AudioSampleFormat::I32
        } else {
            AudioSampleFormat::I16
        }
    }
}

/// Information about an audio callback.
#[derive(Debug, Clone, Copy, PartialEq, Eq, Structural)]
pub struct SckAudioCallbackInfo {
    /// Sample rate in Hz
    pub sample_rate: u32,
    /// Number of channels
    pub channels: u16,
}

/// Errors from audio capture operations.
#[derive(Debug, Clone, PartialEq, Eq)]
pub enum SckAudioError {
    /// Stream creation failed
    StreamCreationFailed(String),
    /// Stream start failed
    StreamStartFailed(String),
    /// Stream already running
    AlreadyRunning,
    /// Stream not running
    NotRunning,
}

/// Configuration for audio capture: the content filter and the format.
#[derive(Clone)]
pub struct SckAudioConfig<F> {
    /// The content filter of the capture.
    pub filter: F,
    /// Sample rate in Hz
    pub sample_rate: u32,
    /// Number of channels
    pub channels: u16,
    /// Buffer size in samples
    pub buffer_size: usize,
}

impl<F: Clone> SckAudioConfig<F> {
    /// A config for a clone of `filter`: 48 kHz stereo with a one second buffer.
    pub fn new(filter: &F) -> (c: Self)
        ensures
            c.sample_rate == 48000,
            c.channels == 2,
            c.buffer_size == 96000,
            vstd::pervasive::cloned(*filter, c.filter),
    {
        SckAudioConfig { filter: filter.clone(), sample_rate: 48000, channels: 2, buffer_size: 96000 }
    }
}

impl<F> SckAudioConfig<F> {
    /// Set the sample rate
    pub fn with_sample_rate(self, rate: u32) -> (c: Self)
        ensures
            c.sample_rate == rate,
            c.channels == self.channels,
            c.buffer_size == self.buffer_size,
            c.filter == self.filter,
    {
        let mut c = self;
        c.sample_rate = rate;
        c
    }

    /// Set the number of channels
    pub fn with_channels(self, channels: u16) -> (c: Self)
        ensures
            c.channels == channels,
            c.sample_rate == self.sample_rate,
            c.buffer_size == self.buffer_size,
            c.filter == self.filter,
    {
        let mut c = self;
        c.channels = channels;
        c
    }

    /// Set the buffer size in samples
    pub fn with_buffer_size(self, size: usize) -> (c: Self)
        ensures
            c.buffer_size == size,
            c.sample_rate == self.sample_rate,
            c.channels == self.channels,
            c.filter == self.filter,
    {
        let mut c = self;
        c.buffer_size = size;
        c
    }

    /// The content filter of the capture.
    pub fn filter(&self) -> (f: &F)
        ensures
            *f == self.filter,
    {
        &self.filter
    }

    /// Samples the delivery thread hands over per callback at most: 1024
    /// frames of every channel.
    pub fn callback_buffer_len(&self) -> (n: usize)
        ensures
            n == 1024 * self.channels,
    {
        1024 * (self.channels as usize)
    }

    /// The format handed to each callback.
    pub fn callback_info(&self) -> (info: SckAudioCallbackInfo)
        ensures
            info.sample_rate == self.sample_rate,
            info.channels == self.channels,
    {
        SckAudioCallbackInfo { sample_rate: self.sample_rate, channels: self.channels }
    }
}

/// What the delivery thread does next.
#[derive(Debug, Clone, Copy, PartialEq, Eq, Structural)]
pub enum CaptureStep {
    /// Capture was stopped: leave the loop.
    Stopped,
    /// Nothing is buffered: wait for the capture callback.
    Idle,
    /// This many samples were copied into the delivery buffer.
    Delivered(usize),
}

/// State shared by the capture callback, the delivery thread and the
/// controlling stream.
pub struct SckAudioState<T> {
    ring_buffer: AudioRingBuffer<T>,
    format: Option<AudioFormat>,
    running: bool,
}

impl<T: Copy> SckAudioState<T> {
    /// Well-formedness: the ring buffer's.
    pub closed spec fn wf(&self) -> bool {
        self.ring_buffer.wf()
    }

    /// The buffered samples.
    pub closed spec fn samples(&self) -> Seq<T> {
        self.ring_buffer@
    }

    /// The ring buffer's capacity.
    pub closed spec fn capacity_spec(&self) -> nat {
        self.ring_buffer.capacity_spec()
    }

    /// The silence value of the ring buffer.
    pub closed spec fn silence_spec(&self) -> T {
        self.ring_buffer.silence_spec()
    }

    /// The format detected from the first audio sample, if any.
    pub closed spec fn format_spec(&self) -> Option<AudioFormat> {
        self.format
    }

    /// Whether capture is running.
    pub closed spec fn running_spec(&self) -> bool {
        self.running
    }

    /// Idle state with an empty buffer of `buffer_size` samples.
    pub fn new(buffer_size: usize, silence: T) -> (s: Self)
        ensures
            s.wf(),
            s.samples() == Seq::<T>::empty(),
            s.capacity_spec() == buffer_size,
            s.silence_spec() == silence,
            s.format_spec() is None,
            !s.running_spec(),
    {
        SckAudioState { ring_buffer: AudioRingBuffer::new(buffer_size, silence), format: None, running: false }
    }

    /// Read samples from the internal ring buffer
    pub fn read(&mut self, output: &mut [T]) -> (n: usize)
        requires
            old(self).wf(),
        ensures
            final(self).wf(),
            n == taken(old(self).samples().len() as int, old(output)@.len() as int),
            final(output)@ == read_output(old(self).samples(), old(output)@.len(), old(self).silence_spec()),
            final(self).samples() == after_read(old(self).samples(), old(output)@.len()),
            final(self).capacity_spec() == old(self).capacity_spec(),
            final(self).silence_spec() == old(self).silence_spec(),
            final(self).format_spec() == old(self).format_spec(),
            final(self).running_spec() == old(self).running_spec(),
    {
        self.ring_buffer.read(output)
    }

    /// Number of buffered samples
    pub fn available(&self) -> (n: usize)
        ensures
            n == self.samples().len(),
    {
        self.ring_buffer.available()
    }

    /// Whether capture is running.
    pub fn is_running(&self) -> (b: bool)
        ensures
            b == self.running_spec(),
    {
        self.running
    }

    /// The detected audio format.
    pub fn format(&self) -> (f: Option<AudioFormat>)
        ensures
            f == self.format_spec(),
    {
        self.format
    }

    /// Whether the format is still to be detected.
    pub fn needs_format(&self) -> (b: bool)
        ensures
            b == self.format_spec() is None,
    {
        self.format.is_none()
    }

    /// Record the format probed from a sample; the first detection sticks.
    pub fn record_format(&mut self, format: Option<AudioFormat>)
        ensures
            final(self).format_spec() == (if old(self).format_spec() is None {
                format
            } else {
                old(self).format_spec()
            }),
            final(self).samples() == old(self).samples(),
            final(self).wf() == old(self).wf(),
            final(self).capacity_spec() == old(self).capacity_spec(),
            final(self).silence_spec() == old(self).silence_spec(),
            final(self).running_spec() == old(self).running_spec(),
    {
        if self.format.is_none() {
            self.format = format;
        }
    }

    /// Buffer the samples of one capture callback, returning how many fit.
    pub fn push_samples(&mut self, samples: &[T]) -> (n: usize)
        requires
            old(self).wf(),
        ensures
            final(self).wf(),
            n == accepted(old(self).samples().len() as int, old(self).capacity_spec() as int, samples@.len() as int),
            final(self).samples() == after_write(old(self).samples(), old(self).capacity_spec(), samples@),
            final(self).capacity_spec() == old(self).capacity_spec(),
            final(self).silence_spec() == old(self).silence_spec(),
            final(self).format_spec() == old(self).format_spec(),
            final(self).running_spec() == old(self).running_spec(),
    {
        self.ring_buffer.write(samples)
    }

    /// Refuse a start while capture is running.
    pub fn check_can_start(&self) -> (r: Result<(), SckAudioError>)
        ensures
            r == (if self.running_spec() {
                Err(SckAudioError::AlreadyRunning)
            } else {
                Ok(())
            }),
    {
        if self.running {
            Err(SckAudioError::AlreadyRunning)
        } else {
            Ok(())
        }
    }

    /// Mark capture as running once the stream has started.
    pub fn mark_running(&mut self)
        ensures
            final(self).running_spec(),
            final(self).samples() == old(self).samples(),
            final(self).wf() == old(self).wf(),
            final(self).capacity_spec() == old(self).capacity_spec(),
            final(self).silence_spec() == old(self).silence_spec(),
            final(self).format_spec() == old(self).format_spec(),
    {
        self.running = true;
    }

    /// Signal a stop: refused with `NotRunning` when capture is not running,
    /// otherwise capture is marked stopped.
    pub fn request_stop(&mut self) -> (r: Result<(), SckAudioError>)
        ensures
            r == (if old(self).running_spec() {
                Ok(())
            } else {
                Err(SckAudioError::NotRunning)
            }),
            !final(self).running_spec(),
            final(self).samples() == old(self).samples(),
            final(self).wf() == old(self).wf(),
            final(self).capacity_spec() == old(self).capacity_spec(),
            final(self).silence_spec() == old(self).silence_spec(),
            final(self).format_spec() == old(self).format_spec(),
    {
        if !self.running {
            return Err(SckAudioError::NotRunning);
        }
        self.running = false;
        Ok(())
    }

    /// One step of the delivery thread: stop when capture stopped, wait when
    /// nothing is buffered, otherwise move buffered samples into `buffer`.
    pub fn poll_capture(&mut self, buffer: &mut [T]) -> (step: CaptureStep)
        requires
            old(self).wf(),
        ensures
            final(self).wf(),
            !old(self).running_spec() ==> step == CaptureStep::Stopped && final(self).samples() == old(
                self,
            ).samples() && final(buffer)@ == old(buffer)@,
            old(self).running_spec() && old(self).samples().len() == 0 ==> step == CaptureStep::Idle
                && final(self).samples() == old(self).samples() && final(buffer)@ == old(buffer)@,
            old(self).running_spec() && old(self).samples().len() > 0 ==> step == CaptureStep::Delivered(
                taken(old(self).samples().len() as int, old(buffer)@.len() as int) as usize,
            ) && final(buffer)@ == read_output(old(self).samples(), old(buffer)@.len(), old(self).silence_spec())
                && final(self).samples() == after_read(old(self).samples(), old(buffer)@.len()),
            final(self).running_spec() == old(self).running_spec(),
            final(self).capacity_spec() == old(self).capacity_spec(),
            final(self).silence_spec() == old(self).silence_spec(),
            final(self).format_spec() == old(self).format_spec(),
    {
        if !self.running {
            return CaptureStep::Stopped;
        }
        if self.ring_buffer.is_empty() {
            return CaptureStep::Idle;
        }
        let n = self.ring_buffer.read(buffer);
        CaptureStep::Delivered(n)
    }
}

/// Zero-copy audio capture: samples go straight from the capture thread to
/// the callback. Dropping the stream handle stops capture.
pub struct ZeroCopyAudioStream<S> {
    stream: S,
}

impl<S> ZeroCopyAudioStream<S> {
    /// Wrap a started capture stream.
    pub fn new(stream: S) -> (z: Self)
        ensures
            z.stream_spec() == stream,
    {
        ZeroCopyAudioStream { stream }
    }

    /// The wrapped stream.
    pub closed spec fn stream_spec(&self) -> S {
        self.stream
    }

    /// Stop capture explicitly; the stream handle is released here, which
    /// stops it. Always succeeds.
    pub fn stop(self) -> (r: Result<(), SckAudioError>)
        ensures
            r is Ok,
    {
        Ok(())
    }
}

} // verus!
