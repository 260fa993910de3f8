//! Decoder bookkeeping: track choice, stream defaults, the packet error
//! policy, sample interleaving and the decoded-frame position clock.

use vstd::arithmetic::div_mod::lemma_fundamental_div_mod_converse;
use vstd::prelude::*;

verus! {

/// Rate assumed for a track whose parameters give none.
pub const DEFAULT_SAMPLE_RATE: u32 = 44100;

/// Channel count assumed for a track whose parameters give none.
pub const DEFAULT_CHANNELS: u16 = 2;

/// Index of the first track that carries a real codec.
pub open spec fn first_playable(has_codec: Seq<bool>) -> Option<int>
    decreases has_codec.len(),
{
    if has_codec.len() == 0 {
        None
    } else if has_codec[0] {
        Some(0)
    } else {
        match first_playable(has_codec.drop_first()) {
            Some(i) => Some(i + 1),
            None => None,
        }
    }
}

/// Picks the first track whose codec is not the placeholder codec.
pub fn select_track(has_codec: &[bool]) -> (r: Option<usize>)
    ensures
        match r {
            Some(i) => first_playable(has_codec@) == Some(i as int),
            None => first_playable(has_codec@) is None,
        },
{
    let mut i: usize = 0;
    while i < has_codec.len()
        invariant
            i <= has_codec@.len(),
            forall|k: int| 0 <= k < i ==> !has_codec@[k],
        decreases has_codec@.len() - i,
    {
        if has_codec[i] {
            proof { lemma_first_playable_at(has_codec@, i as int); }
            return Some(i);
        }
        i = i + 1;
    }
    proof { lemma_first_playable_none(has_codec@); }
    None
}

proof fn lemma_first_playable_at(s: Seq<bool>, i: int)
    requires
        0 <= i < s.len(),
        s[i],
        forall|k: int| 0 <= k < i ==> !s[k],
    ensures
        first_playable(s) == Some(i),
    decreases i,
{
    if i > 0 {
        lemma_first_playable_at(s.drop_first(), i - 1);
    }
}

proof fn lemma_first_playable_none(s: Seq<bool>)
    requires
        forall|k: int| 0 <= k < s.len() ==> !s[k],
    ensures
        first_playable(s) is None,
    decreases s.len(),
{
    if s.len() > 0 {
        lemma_first_playable_none(s.drop_first());
    }
}

/// The sample rate and channel count to decode with, falling back to the
/// defaults where the track's parameters are silent.
pub fn stream_params(sample_rate: Option<u32>, channel_count: Option<usize>) -> (r: (u32, u16))
    ensures
        r.0 == match sample_rate {
            Some(s) => s,
            None => DEFAULT_SAMPLE_RATE,
        },
        r.1 == match channel_count {
            Some(c) => c as u16,
            None => DEFAULT_CHANNELS,
        },
{
    let rate = match sample_rate {
        Some(s) => s,
        None => DEFAULT_SAMPLE_RATE,
    };
    let channels = match channel_count {
        Some(c) => c as u16,
        None => DEFAULT_CHANNELS,
    };
    (rate, channels)
}

/// What reading the next packet from the container gave.
#[derive(Clone, Copy, Debug, PartialEq, Eq, Structural)]
pub enum PacketRead {
    /// A packet of the given track.
    Packet(u32),
    /// The reader hit an unexpected end of file: the stream is over.
    EndOfStream,
    /// The container asks for the decoder to be reset.
    ResetRequired,
    /// Any other read error.
    Failed,
}

/// What decoding one packet gave.
#[derive(Clone, Copy, Debug, PartialEq, Eq, Structural)]
pub enum PacketDecode {
    Decoded,
    /// The packet was malformed; the stream itself is still usable.
    BadPacket,
    /// Any other decoder error.
    Failed,
}

/// The decoder's next move after a packet read.
#[derive(Clone, Copy, Debug, PartialEq, Eq, Structural)]
pub enum PacketStep {
    /// Decode the packet.
    Decode,
    /// Hand back an empty chunk and go on.
    Skip,
    /// Reset the decoder, hand back an empty chunk and go on.
    ResetDecoder,
    /// The stream has ended.
    EndOfStream,
    /// Report a decode failure.
    Fail,
}

/// The error policy of a packet read: packets of other tracks are skipped,
/// end of file ends the stream, a reset request resets the decoder.
pub fn packet_step(read: PacketRead, track_id: u32) -> (r: PacketStep)
    ensures
        r == match read {
            PacketRead::Packet(id) => if id == track_id {
                PacketStep::Decode
            } else {
                PacketStep::Skip
            },
            PacketRead::EndOfStream => PacketStep::EndOfStream,
            PacketRead::ResetRequired => PacketStep::ResetDecoder,
            PacketRead::Failed => PacketStep::Fail,
        },
{
    match read {
        PacketRead::Packet(id) => if id == track_id {
            PacketStep::Decode
        } else {
            PacketStep::Skip
        },
        PacketRead::EndOfStream => PacketStep::EndOfStream,
        PacketRead::ResetRequired => PacketStep::ResetDecoder,
        PacketRead::Failed => PacketStep::Fail,
    }
}

/// The error policy of a packet decode: a bad packet yields an empty chunk
/// (`Skip`), any other decoder error is a failure.
pub fn decode_step(decoded: PacketDecode) -> (r: PacketStep)
    ensures
        r == match decoded {
            PacketDecode::Decoded => PacketStep::Decode,
            PacketDecode::BadPacket => PacketStep::Skip,
            PacketDecode::Failed => PacketStep::Fail,
        },
{
    match decoded {
        PacketDecode::Decoded => PacketStep::Decode,
        PacketDecode::BadPacket => PacketStep::Skip,
        PacketDecode::Failed => PacketStep::Fail,
    }
}

/// How a chunk goes through the equalizer.
#[derive(Clone, Copy, Debug, PartialEq, Eq, Structural)]
pub enum EqRoute {
    /// The chunk is handed on unchanged.
    PassThrough,
    /// Each sample goes through the stereo filters as a pair of itself; the
    /// left output is kept.
    Mono,
    /// Samples go through the filters in (left, right) pairs.
    Stereo,
}

/// A disabled equalizer, or a stream of more than two channels, leaves the
/// chunk unchanged.
pub fn eq_route(enabled: bool, channels: u16) -> (r: EqRoute)
    ensures
        r == if !enabled {
            EqRoute::PassThrough
        } else if channels == 1 {
            EqRoute::Mono
        } else if channels == 2 {
            EqRoute::Stereo
        } else {
            EqRoute::PassThrough
        },
{
    if !enabled {
        EqRoute::PassThrough
    } else if channels == 1 {
        EqRoute::Mono
    } else if channels == 2 {
        EqRoute::Stereo
    } else {
        EqRoute::PassThrough
    }
}

/// Planar channels laid out frame by frame: sample `k` of the result is
/// frame `k / n` of channel `k % n`.
pub open spec fn interleaved<T>(planes: Seq<Seq<T>>, frames: nat) -> Seq<T> {
    Seq::new(frames * planes.len(), |k: int| planes[k % planes.len() as int][k / planes.len() as int])
}

/// Interleaves `frames` frames of planar channel data (L,R,L,R,...).
pub fn interleave<T: Copy>(planes: &Vec<Vec<T>>, frames: usize) -> (r: Vec<T>)
    requires
        forall|c: int| 0 <= c < planes@.len() ==> frames <= #[trigger] planes@[c]@.len(),
        frames * planes@.len() <= usize::MAX,
    ensures
        r@ == interleaved(planes@.map_values(|p: Vec<T>| p@), frames as nat),
{
    let ghost pv = planes@.map_values(|p: Vec<T>| p@);
    let n = planes.len();
    let mut out: Vec<T> = Vec::new();
    let mut f: usize = 0;
    while f < frames
        invariant
            n == planes@.len(),
            pv == planes@.map_values(|p: Vec<T>| p@),
            f <= frames,
            frames * n <= usize::MAX,
            forall|c: int| 0 <= c < n ==> frames <= #[trigger] planes@[c]@.len(),
            out@.len() == f * n,
            forall|k: int| 0 <= k < out@.len() ==> out@[k] == #[trigger] interleaved(pv, frames as nat)[k],
        decreases frames - f,
    {
        let mut c: usize = 0;
        while c < n
            invariant
                n == planes@.len(),
                pv == planes@.map_values(|p: Vec<T>| p@),
                f < frames,
                c <= n,
                frames * n <= usize::MAX,
                forall|c: int| 0 <= c < n ==> frames <= #[trigger] planes@[c]@.len(),
                out@.len() == f * n + c,
                forall|k: int| 0 <= k < out@.len() ==> out@[k] == #[trigger] interleaved(pv, frames as nat)[k],
            decreases n - c,
        {
            proof {
                let k = f * n + c;
                lemma_fundamental_div_mod_converse(k, n as int, f as int, c as int);
                assert(f * n + c < frames * n) by (nonlinear_arith)
                    requires
                        f < frames,
                        c < n,
                ;
            }
            out.push(planes[c][f]);
            c = c + 1;
        }
        assert((f + 1) * n == f * n + n) by (nonlinear_arith);
        f = f + 1;
    }
    assert(out@ =~= interleaved(pv, frames as nat));
    out
}

/// The frame at timestamp `ts` of a time base `numer / denom` seconds per
/// tick, at `sample_rate` frames per second: rounded down, and saturated at
/// the clock's range.
pub open spec fn timestamp_frames(ts: u64, numer: u32, denom: u32, sample_rate: u32) -> int {
    let f = (ts as int * numer as int * sample_rate as int) / denom as int;
    if f > u64::MAX as int { u64::MAX as int } else { f }
}

/// Converts a timestamp of a time base of `numer / denom` seconds per tick to
/// a frame index at `sample_rate`.
pub fn frames_at_timestamp(ts: u64, numer: u32, denom: u32, sample_rate: u32) -> (r: u64)
    requires
        denom > 0,
    ensures
        r == timestamp_frames(ts, numer, denom, sample_rate),
{
    assert(ts as u128 * numer as u128 <= 0xffff_ffff_ffff_ffff * 0xffff_ffff) by (nonlinear_arith)
        requires
            ts <= 0xffff_ffff_ffff_ffff,
            numer <= 0xffff_ffff,
    ;
    let n: u128 = ts as u128 * numer as u128;
    let d: u128 = denom as u128;
    let rate: u128 = sample_rate as u128;
    let q: u128 = n / d;
    let rm: u128 = n % d;
    proof {
        vstd::arithmetic::div_mod::lemma_fundamental_div_mod(n as int, d as int);
    }
    if sample_rate == 0 {
        assert((ts as int * numer as int * 0) / denom as int == 0) by (nonlinear_arith)
            requires
                denom > 0,
        ;
        return 0;
    }
    if q > u64::MAX as u128 {
        proof {
            let total = ts as int * numer as int * sample_rate as int;
            assert(total >= n) by (nonlinear_arith)
                requires
                    total == n * sample_rate,
                    sample_rate >= 1,
                    n >= 0,
            ;
            vstd::arithmetic::div_mod::lemma_div_is_ordered(n as int, total, d as int);
        }
        return u64::MAX;
    }
    assert(q * rate <= 0xffff_ffff_ffff_ffff * 0xffff_ffff) by (nonlinear_arith)
        requires
            q <= 0xffff_ffff_ffff_ffff,
            rate <= 0xffff_ffff,
    ;
    assert(rm * rate <= 0xffff_ffff * 0xffff_ffff) by (nonlinear_arith)
        requires
            rm < d,
            d <= 0xffff_ffff,
            rate <= 0xffff_ffff,
    ;
    let a: u128 = q * rate;
    let b: u128 = rm * rate / d;
    proof {
        let m = rm * rate;
        vstd::arithmetic::div_mod::lemma_fundamental_div_mod(m as int, d as int);
        let r2 = m as int % d as int;
        let total = ts as int * numer as int * sample_rate as int;
        assert(total == (a + b) * d + r2) by (nonlinear_arith)
            requires
                total == n * rate,
                n == d * q + rm,
                m == rm * rate,
                m == d * b + r2,
                a == q * rate,
        ;
        lemma_fundamental_div_mod_converse(total, d as int, (a + b) as int, r2);
    }
    let total: u128 = a + b;
    if total > u64::MAX as u128 {
        u64::MAX
    } else {
        total as u64
    }
}

/// Frames after a chunk of `samples` interleaved samples, saturated at the
/// clock's range.
pub open spec fn advanced_frames(frames: u64, samples: usize, channels: u16) -> int {
    let f = frames as int + samples as int / channels as int;
    if f > u64::MAX as int { u64::MAX as int } else { f }
}

/// How a seek request to the container ended.
#[derive(Clone, Copy, Debug, PartialEq, Eq, Structural)]
pub enum SeekOutcome {
    /// The reader now stands at the given frame of the track.
    Landed(u64),
    /// The format could not seek precisely and the decoder was reset instead;
    /// decoding goes on from the requested position.
    ResetRequired,
    /// The seek failed.
    Failed,
}

/// Playback position kept as a count of decoded frames, never as wall-clock
/// time: it stands still while nothing is decoded and is moved by seeks.
pub struct PositionClock {
    sample_rate: u32,
    frames: u64,
}

impl PositionClock {
    pub closed spec fn spec_frames(&self) -> u64 {
        self.frames
    }

    pub closed spec fn spec_sample_rate(&self) -> u32 {
        self.sample_rate
    }

    /// A clock at the start of a stream of the given rate.
    pub fn new(sample_rate: u32) -> (r: Self)
        ensures
            r.spec_frames() == 0,
            r.spec_sample_rate() == sample_rate,
    {
        PositionClock { sample_rate, frames: 0 }
    }

    /// Frames decoded since the start of the track, seeks included.
    pub fn frames(&self) -> (r: u64)
        ensures
            r == self.spec_frames(),
    {
        self.frames
    }

    pub fn sample_rate(&self) -> (r: u32)
        ensures
            r == self.spec_sample_rate(),
    {
        self.sample_rate
    }

    /// Counts a decoded chunk of `samples` interleaved samples.
    pub fn advance(&mut self, samples: usize, channels: u16)
        requires
            channels > 0,
        ensures
            final(self).spec_frames() == advanced_frames(old(self).spec_frames(), samples, channels),
            final(self).spec_sample_rate() == old(self).spec_sample_rate(),
    {
        let chunk_frames = (samples / channels as usize) as u64;
        self.frames = match self.frames.checked_add(chunk_frames) {
            Some(f) => f,
            None => u64::MAX,
        };
    }

    /// Applies the outcome of a seek requested to frame `target`: a landed
    /// seek puts the clock at the frame reached, a reset counts as success and
    /// puts it at the target, a failure leaves it and is reported as `false`.
    pub fn on_seek(&mut self, outcome: SeekOutcome, target: u64) -> (ok: bool)
        ensures
            ok == !(outcome is Failed),
            final(self).spec_frames() == match outcome {
                SeekOutcome::Landed(f) => f,
                SeekOutcome::ResetRequired => target,
                SeekOutcome::Failed => old(self).spec_frames(),
            },
            final(self).spec_sample_rate() == old(self).spec_sample_rate(),
    {
        match outcome {
            SeekOutcome::Landed(f) => {
                self.frames = f;
                true
            },
            SeekOutcome::ResetRequired => {
                self.frames = target;
                true
            },
            SeekOutcome::Failed => false,
        }
    }
}

/// After a successful seek requested to frame `target` and one decoded chunk,
/// the clock stands within that chunk's frames after the position the seek
/// reached: the target itself on a reset, the landing frame otherwise.
pub proof fn lemma_seek_then_decode(
    before: u64,
    outcome: SeekOutcome,
    target: u64,
    samples: usize,
    channels: u16,
)
    requires
        !(outcome is Failed),
        channels > 0,
        ({
            let reached = match outcome {
                SeekOutcome::Landed(f) => f,
                _ => target,
            };
            reached as int + samples as int <= u64::MAX as int
        }),
    ensures
        ({
            let reached = match outcome {
                SeekOutcome::Landed(f) => f,
                _ => target,
            };
            let after_seek: u64 = match outcome {
                SeekOutcome::Landed(f) => f,
                SeekOutcome::ResetRequired => target,
                SeekOutcome::Failed => before,
            };
            let after = advanced_frames(after_seek, samples, channels);
            &&& after_seek == reached
            &&& reached <= after <= reached + samples as int / channels as int
            &&& (outcome is ResetRequired ==> reached == target)
        }),
{
    let q = samples as int / channels as int;
    assert(q <= samples as int) by {
        vstd::arithmetic::div_mod::lemma_div_is_ordered_by_denominator(samples as int, 1, channels as int);
    }
}

/// The clock never runs backwards while chunks are decoded.
pub proof fn lemma_position_monotonic(frames: u64, samples: usize, channels: u16)
    requires
        channels > 0,
    ensures
        frames as int <= advanced_frames(frames, samples, channels),
{
}

} // verus!
