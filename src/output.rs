//! The sample queue between the decoding thread and the device callback.

use std::collections::VecDeque;
use vstd::prelude::*;

verus! {

/// What an output queue holds, as seen by contracts.
pub ghost struct OutputState<T> {
    pub queued: Seq<T>,
    pub playing: bool,
    pub sample_rate: u32,
    pub channels: u16,
}

/// Number of queued samples below which the producer is asked for more:
/// a quarter of a second at the stream's rate and channel count.
pub open spec fn low_water_mark(sample_rate: u32, channels: u16) -> int {
    (sample_rate as int * channels as int) / 4
}

/// What a device request of `n` samples receives from `queued`.
pub open spec fn rendered<T>(queued: Seq<T>, playing: bool, n: nat, silence: T) -> Seq<T> {
    Seq::new(n, |i: int| if playing && i < queued.len() { queued[i] } else { silence })
}

/// How many queued samples a device request of `n` samples consumes.
pub open spec fn consumed<T>(queued: Seq<T>, playing: bool, n: nat) -> nat {
    if !playing {
        0
    } else if n < queued.len() {
        n
    } else {
        queued.len()
    }
}

/// Bounded-latency FIFO of samples: the decoder pushes, the device callback pops.
/// While paused the callback receives silence and the queue is left as it is.
pub struct OutputBuffer<T> {
    samples: VecDeque<T>,
    playing: bool,
    sample_rate: u32,
    channels: u16,
}

impl<T> View for OutputBuffer<T> {
    type V = OutputState<T>;

    closed spec fn view(&self) -> OutputState<T> {
        OutputState {
            queued: self.samples@,
            playing: self.playing,
            sample_rate: self.sample_rate,
            channels: self.channels,
        }
    }
}

impl<T: Copy> OutputBuffer<T> {
    /// An empty, playing queue for a stream of the given rate and channel count.
    pub fn new(sample_rate: u32, channels: u16) -> (r: Self)
        ensures
            r@.queued.len() == 0,
            r@.playing,
            r@.sample_rate == sample_rate,
            r@.channels == channels,
    {
        OutputBuffer { samples: VecDeque::new(), playing: true, sample_rate, channels }
    }

    /// Appends samples at the back of the queue.
    pub fn write_samples(&mut self, samples: &[T])
        ensures
            final(self)@ == (OutputState { queued: old(self)@.queued + samples@, ..old(self)@ }),
    {
        let mut i: usize = 0;
        while i < samples.len()
            invariant
                i <= samples@.len(),
                self@ == (OutputState {
                    queued: old(self)@.queued + samples@.subrange(0, i as int),
                    ..old(self)@
                }),
            decreases samples@.len() - i,
        {
            self.samples.push_back(samples[i]);
            i = i + 1;
            assert(samples@.subrange(0, i as int) =~= samples@.subrange(0, i - 1).push(samples@[i - 1]));
        }
        assert(samples@.subrange(0, samples@.len() as int) =~= samples@);
    }

    /// Lets the device callback drain the queue again.
    pub fn play(&mut self)
        ensures
            final(self)@ == (OutputState { playing: true, ..old(self)@ }),
    {
        self.playing = true;
    }

    /// Makes the device callback emit silence without draining the queue.
    pub fn pause(&mut self)
        ensures
            final(self)@ == (OutputState { playing: false, ..old(self)@ }),
    {
        self.playing = false;
    }

    /// Discards every queued sample.
    pub fn clear(&mut self)
        ensures
            final(self)@ == (OutputState { queued: Seq::<T>::empty(), ..old(self)@ }),
    {
        self.samples.clear();
    }

    pub fn is_playing(&self) -> (r: bool)
        ensures
            r == self@.playing,
    {
        self.playing
    }

    /// Number of queued samples.
    pub fn buffer_len(&self) -> (r: usize)
        ensures
            r == self@.queued.len(),
    {
        self.samples.len()
    }

    /// True when less than a quarter of a second of audio is queued.
    pub fn needs_data(&self) -> (r: bool)
        ensures
            r == (self@.queued.len() < low_water_mark(self@.sample_rate, self@.channels)),
    {
        let rate = self.sample_rate as u64;
        let channels = self.channels as u64;
        assert(rate * channels <= 0xffff_ffff * 0xffff) by (nonlinear_arith)
            requires
                rate <= 0xffff_ffff,
                channels <= 0xffff,
        ;
        let min_buffer_size: u64 = (rate * channels) / 4;
        (self.samples.len() as u64) < min_buffer_size
    }

    pub fn sample_rate(&self) -> (r: u32)
        ensures
            r == self@.sample_rate,
    {
        self.sample_rate
    }

    pub fn channels(&self) -> (r: u16)
        ensures
            r == self@.channels,
    {
        self.channels
    }

    /// One sample for the device: the oldest queued one, or `silence` when
    /// paused or when the queue has run dry.
    pub fn next_sample(&mut self, silence: T) -> (r: T)
        ensures
            r == rendered(old(self)@.queued, old(self)@.playing, 1, silence)[0],
            final(self)@ == (OutputState {
                queued: old(self)@.queued.skip(consumed(old(self)@.queued, old(self)@.playing, 1) as int),
                ..old(self)@
            }),
    {
        if !self.playing {
            assert(old(self)@.queued.skip(0) =~= old(self)@.queued);
            return silence;
        }
        match self.samples.pop_front() {
            Some(x) => x,
            None => {
                assert(old(self)@.queued.skip(0) =~= old(self)@.queued);
                silence
            },
        }
    }

    /// Fills a device request: every slot of `data` gets the next queued sample,
    /// and the slots past the end of the queue get `silence`. Paused, the whole
    /// request is silence and the queue keeps its samples.
    pub fn render(&mut self, data: &mut [T], silence: T)
        ensures
            final(data)@.len() == old(data)@.len(),
            final(data)@ == rendered(old(self)@.queued, old(self)@.playing, old(data)@.len(), silence),
            final(self)@ == (OutputState {
                queued: old(self)@.queued.skip(
                    consumed(old(self)@.queued, old(self)@.playing, old(data)@.len()) as int,
                ),
                ..old(self)@
            }),
    {
        let ghost q = old(self)@.queued;
        let ghost p = old(self)@.playing;
        let ghost n = old(data)@.len();
        let mut i: usize = 0;
        assert(q.skip(0) =~= q);
        while i < data.len()
            invariant
                data@.len() == n,
                i <= n,
                forall|j: int| 0 <= j < i ==> data@[j] == rendered(q, p, n, silence)[j],
                self@.queued == q.skip(consumed(q, p, i as nat) as int),
                self@.playing == p,
                self@.sample_rate == old(self)@.sample_rate,
                self@.channels == old(self)@.channels,
            decreases n - i,
        {
            let ghost before = self@.queued;
            let x = self.next_sample(silence);
            proof {
                if !p {
                    assert(q.skip(0) =~= q);
                } else if i < q.len() {
                    assert(before =~= q.skip(i as int));
                    assert(before[0] == q[i as int]);
                    assert(q.skip(i + 1) =~= before.skip(1));
                } else {
                    assert(before =~= q.skip(q.len() as int));
                    assert(before.len() == 0);
                    assert(before.skip(0) =~= before);
                }
                assert(x == rendered(q, p, n, silence)[i as int]);
            }
            data[i] = x;
            i = i + 1;
        }
        assert(data@ =~= rendered(q, p, n, silence));
    }
}

/// A stream format: sample rate and channel count.
#[derive(Clone, Copy, Debug, PartialEq, Eq, Structural)]
pub struct StreamFormat {
    pub sample_rate: u32,
    pub channels: u16,
}

/// The format to try when opening the device after `failures` failed
/// attempts: first the one requested, then the device's default, then none.
pub fn next_stream_attempt(
    requested: StreamFormat,
    device_default: StreamFormat,
    failures: usize,
) -> (r: Option<StreamFormat>)
    ensures
        r == if failures == 0 {
            Some(requested)
        } else if failures == 1 {
            Some(device_default)
        } else {
            None::<StreamFormat>
        },
{
    if failures == 0 {
        Some(requested)
    } else if failures == 1 {
        Some(device_default)
    } else {
        None
    }
}

/// A request served from an empty queue is all silence, exactly as long as
/// the request, and takes nothing from the queue.
pub proof fn lemma_underrun_is_silence<T>(playing: bool, n: nat, silence: T)
    ensures
        rendered(Seq::<T>::empty(), playing, n, silence) == Seq::new(n, |i: int| silence),
        consumed(Seq::<T>::empty(), playing, n) == 0,
{
    assert(rendered(Seq::<T>::empty(), playing, n, silence) =~= Seq::new(n, |i: int| silence));
}

} // verus!
