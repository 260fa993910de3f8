//! The latest-snapshot buffer read by visualisers.

use vstd::prelude::*;

verus! {

/// The snapshot that a chunk leaves behind: the chunk cut or padded with
/// `silence` to `size` samples.
pub open spec fn snapshot_of<T>(chunk: Seq<T>, size: nat, silence: T) -> Seq<T> {
    Seq::new(size, |i: int| if i < chunk.len() { chunk[i] } else { silence })
}

/// A fixed-size snapshot, overwritten wholesale by each processed chunk.
/// Readers see the latest chunk only; nothing queues up behind it.
pub struct AudioCaptureBuffer<T> {
    samples: Vec<T>,
    silence: T,
    sample_rate: u32,
    channels: u16,
}

impl<T: Copy> AudioCaptureBuffer<T> {
    pub closed spec fn spec_samples(&self) -> Seq<T> {
        self.samples@
    }

    pub closed spec fn spec_silence(&self) -> T {
        self.silence
    }

    pub closed spec fn spec_sample_rate(&self) -> u32 {
        self.sample_rate
    }

    pub closed spec fn spec_channels(&self) -> u16 {
        self.channels
    }

    /// A snapshot of `buffer_size` silent samples, tagged 44.1 kHz stereo.
    pub fn new(buffer_size: usize, silence: T) -> (r: Self)
        ensures
            r.spec_samples() == Seq::new(buffer_size as nat, |i: int| silence),
            r.spec_silence() == silence,
            r.spec_sample_rate() == 44100,
            r.spec_channels() == 2,
    {
        let mut samples: Vec<T> = Vec::with_capacity(buffer_size);
        let mut i: usize = 0;
        while i < buffer_size
            invariant
                i <= buffer_size,
                samples@ == Seq::new(i as nat, |k: int| silence),
            decreases buffer_size - i,
        {
            samples.push(silence);
            i = i + 1;
            assert(samples@ =~= Seq::new(i as nat, |k: int| silence));
        }
        AudioCaptureBuffer { samples, silence, sample_rate: 44100, channels: 2 }
    }

    /// Replaces the snapshot with `chunk`, truncated or padded with silence to
    /// the buffer's fixed size, and records the chunk's format.
    pub fn update(&mut self, chunk: &[T], sample_rate: u32, channels: u16)
        ensures
            final(self).spec_samples() == snapshot_of(
                chunk@,
                old(self).spec_samples().len(),
                old(self).spec_silence(),
            ),
            final(self).spec_silence() == old(self).spec_silence(),
            final(self).spec_sample_rate() == sample_rate,
            final(self).spec_channels() == channels,
    {
        self.sample_rate = sample_rate;
        self.channels = channels;
        let n = self.samples.len();
        let ghost size = n as nat;
        let mut i: usize = 0;
        while i < n
            invariant
                i <= n,
                n == size,
                self.samples@.len() == size,
                self.silence == old(self).silence,
                self.sample_rate == sample_rate,
                self.channels == channels,
                forall|k: int|
                    0 <= k < i ==> self.samples@[k] == snapshot_of(chunk@, size, self.silence)[k],
            decreases n - i,
        {
            let x = if i < chunk.len() {
                chunk[i]
            } else {
                self.silence
            };
            self.samples.set(i, x);
            i = i + 1;
        }
        assert(self.samples@ =~= snapshot_of(chunk@, size, self.silence));
    }

    /// The current snapshot.
    pub fn get_samples(&self) -> (r: &[T])
        ensures
            r@ == self.spec_samples(),
    {
        self.samples.as_slice()
    }

    pub fn sample_rate(&self) -> (r: u32)
        ensures
            r == self.spec_sample_rate(),
    {
        self.sample_rate
    }

    pub fn channels(&self) -> (r: u16)
        ensures
            r == self.spec_channels(),
    {
        self.channels
    }
}

} // verus!
