//! The decode thread's decisions: what a stream's codec parameters allow,
//! where to seek first, what position each decoded packet reports, when the
//! thread stops, and how staged samples are fed to the resampler.
use vstd::prelude::*;

use vstd::arithmetic::div_mod::{
    lemma_div_denominator, lemma_div_is_ordered, lemma_div_multiples_vanish_quotient,
    lemma_fundamental_div_mod,
};

use crate::error::AudioError;
use crate::source::frames_duration_nanos;
use crate::time::{MediaTime, NANOS_PER_MILLI, NANOS_PER_SEC};

verus! {

/// The position, in milliseconds, after `frames` frames at `sample_rate`
/// frames per second decoded from `start_ms` on.
pub open spec fn position_ms(start_ms: nat, frames: nat, sample_rate: nat) -> nat {
    start_ms + frames * 1000 / sample_rate
}

/// `value` capped at `u64::MAX`.
pub open spec fn saturate(value: nat) -> nat {
    if value <= u64::MAX {
        value
    } else {
        u64::MAX as nat
    }
}

/// What the format reader and codec made of the next packet.
#[derive(Debug, Clone, PartialEq, Eq)]
pub enum PacketEvent {
    /// The packet decoded into `frames` frames.
    Decoded { frames: u64 },
    /// The stream ended.
    EndOfStream,
    /// Reading or decoding the packet failed.
    Failed(AudioError),
}

/// What the decode thread does after a packet.
#[derive(Debug, PartialEq, Eq)]
pub enum DecodeAction {
    /// Publish `position_ms`, then send the staged samples on: through the
    /// resampler where `resample` holds, straight to the ring otherwise.
    Deliver { position_ms: u64, resample: bool },
    /// Stop the thread with this result.
    Finish(Result<(), AudioError>),
}

/// The bookkeeping of one decode thread, from the stream's first packet to
/// its end.
pub struct Decoder {
    start_ms: u64,
    start: MediaTime,
    source_rate: u32,
    output_rate: u32,
    channels: usize,
    frames: u64,
}

impl Decoder {
    /// Where decoding starts, in milliseconds.
    pub closed spec fn spec_start_ms(&self) -> nat {
        self.start_ms as nat
    }

    /// Where decoding starts.
    pub closed spec fn spec_start(&self) -> MediaTime {
        self.start
    }

    /// The stream's sample rate.
    pub closed spec fn spec_source_rate(&self) -> nat {
        self.source_rate as nat
    }

    /// The output's sample rate.
    pub closed spec fn spec_output_rate(&self) -> nat {
        self.output_rate as nat
    }

    /// The stream's channel count.
    pub closed spec fn spec_channels(&self) -> nat {
        self.channels as nat
    }

    /// The frames decoded so far (capped at `u64::MAX`).
    pub closed spec fn spec_frames(&self) -> nat {
        self.frames as nat
    }

    /// Rates and channel count are never zero.
    pub open spec fn wf(&self) -> bool {
        &&& self.spec_source_rate() > 0
        &&& self.spec_output_rate() > 0
        &&& self.spec_channels() > 0
    }

    /// The position the decoder reports now, in milliseconds.
    pub open spec fn spec_position_ms(&self) -> nat {
        saturate(position_ms(self.spec_start_ms(), self.spec_frames(), self.spec_source_rate()))
    }

    /// The bookkeeping for a stream whose codec gives `sample_rate` and
    /// `channels`, decoded for an output at `output_rate` from `start` on
    /// (from the beginning where `start` is `None`). A stream without a
    /// usable sample rate or channel layout, or an output without a rate, is
    /// refused as an unsupported format.
    pub fn new(
        sample_rate: Option<u32>,
        channels: Option<usize>,
        output_rate: u32,
        start: Option<MediaTime>,
    ) -> (r: Result<Decoder, AudioError>)
        ensures
            r is Ok <==> (sample_rate is Some && sample_rate->0 > 0 && channels is Some
                && channels->0 > 0 && output_rate > 0),
            r is Err ==> r == Err::<Decoder, AudioError>(AudioError::UnsupportedFormat),
            r matches Ok(d) ==> {
                &&& d.wf()
                &&& d.spec_source_rate() == sample_rate->0
                &&& d.spec_channels() == channels->0
                &&& d.spec_output_rate() == output_rate
                &&& d.spec_frames() == 0
                &&& start is Some ==> d.spec_start() == start->0
                &&& start is None ==> d.spec_start().total_nanos() == 0
                &&& d.spec_start_ms() == saturate(d.spec_start().millis())
                &&& d.spec_position_ms() == d.spec_start_ms()
            },
    {
        let source_rate = match sample_rate {
            Some(rate) if rate > 0 => rate,
            _ => return Err(AudioError::UnsupportedFormat),
        };
        let channels = match channels {
            Some(count) if count > 0 => count,
            _ => return Err(AudioError::UnsupportedFormat),
        };
        if output_rate == 0 {
            return Err(AudioError::UnsupportedFormat);
        }
        let start = match start {
            Some(t) => t,
            None => MediaTime::zero(),
        };
        let start_ms = start.as_millis();
        let d = Decoder { start_ms, start, source_rate, output_rate, channels, frames: 0 };
        assert(d.spec_position_ms() == d.spec_start_ms()) by {
            assert(0nat * 1000 / (source_rate as nat) == 0);
        }
        Ok(d)
    }

    /// The time to seek the format reader to before the first packet: the
    /// start, unless decoding starts at the beginning. Where the seek fails,
    /// decoding goes on from the stream's natural start.
    pub fn seek_target(&self) -> (r: Option<MediaTime>)
        ensures
            r is Some <==> self.spec_start().total_nanos() > 0,
            r matches Some(t) ==> t == self.spec_start(),
    {
        if self.start.is_zero() {
            None
        } else {
            Some(self.start)
        }
    }

    /// Whether the stream's samples must be resampled for the output.
    pub fn needs_resampling(&self) -> (r: bool)
        ensures
            r == (self.spec_source_rate() != self.spec_output_rate()),
    {
        self.source_rate != self.output_rate
    }

    /// The stream's channel count.
    pub fn channels(&self) -> (r: usize)
        ensures
            r == self.spec_channels(),
    {
        self.channels
    }

    /// The stream's sample rate.
    pub fn source_rate(&self) -> (r: u32)
        ensures
            r == self.spec_source_rate(),
    {
        self.source_rate
    }

    /// The frames decoded so far.
    pub fn frames_decoded(&self) -> (r: u64)
        ensures
            r == self.spec_frames(),
    {
        self.frames
    }

    /// The position the decoder reports now, in milliseconds: the start plus
    /// the decoded frames at the stream's rate, capped at `u64::MAX`.
    pub fn position_ms(&self) -> (r: u64)
        requires
            self.wf(),
        ensures
            r == self.spec_position_ms(),
    {
        let rate = self.source_rate as u128;
        let elapsed: u128 = self.frames as u128 * 1000 / rate;
        assert(elapsed <= self.frames * 1000) by (nonlinear_arith)
            requires
                rate >= 1,
                elapsed == (self.frames as int * 1000) / rate as int,
        ;
        let total: u128 = self.start_ms as u128 + elapsed;
        if total > u64::MAX as u128 {
            u64::MAX
        } else {
            total as u64
        }
    }

    /// Takes the outcome of the next packet. A decoded packet advances the
    /// frame count and is delivered with the new position; the end of the
    /// stream finishes the thread successfully, and a failure finishes it
    /// with that error.
    pub fn on_packet(&mut self, event: PacketEvent) -> (action: DecodeAction)
        requires
            old(self).wf(),
        ensures
            final(self).wf(),
            final(self).spec_start() == old(self).spec_start(),
            final(self).spec_start_ms() == old(self).spec_start_ms(),
            final(self).spec_source_rate() == old(self).spec_source_rate(),
            final(self).spec_output_rate() == old(self).spec_output_rate(),
            final(self).spec_channels() == old(self).spec_channels(),
            final(self).spec_position_ms() >= old(self).spec_position_ms(),
            match event {
                PacketEvent::Decoded { frames } => {
                    &&& final(self).spec_frames() == saturate((old(self).spec_frames() + frames) as nat)
                    &&& action == DecodeAction::Deliver {
                        position_ms: final(self).spec_position_ms() as u64,
                        resample: old(self).spec_source_rate() != old(self).spec_output_rate(),
                    }
                },
                PacketEvent::EndOfStream => {
                    &&& final(self).spec_frames() == old(self).spec_frames()
                    &&& action == DecodeAction::Finish(Ok(()))
                },
                PacketEvent::Failed(e) => {
                    &&& final(self).spec_frames() == old(self).spec_frames()
                    &&& action == DecodeAction::Finish(Err(e))
                },
            },
    {
        match event {
            PacketEvent::Decoded { frames } => {
                let old_frames = self.frames;
                self.frames = self.frames.saturating_add(frames);
                proof {
                    lemma_position_monotonic(
                        self.start_ms as nat,
                        old_frames as nat,
                        self.frames as nat,
                        self.source_rate as nat,
                    );
                }
                let position_ms = self.position_ms();
                DecodeAction::Deliver { position_ms, resample: self.source_rate != self.output_rate }
            },
            PacketEvent::EndOfStream => DecodeAction::Finish(Ok(())),
            PacketEvent::Failed(e) => DecodeAction::Finish(Err(e)),
        }
    }

    /// The number of staged samples to hand the resampler when it asks for
    /// `frames_needed` frames, or `None` while fewer than that many whole
    /// frames are staged (or it asks for none, or the count does not fit in
    /// a `usize`).
    pub fn resampler_input_len(&self, staged: usize, frames_needed: usize) -> (r: Option<usize>)
        requires
            self.wf(),
        ensures
            r is Some <==> (frames_needed > 0 && staged as nat / self.spec_channels() >= frames_needed
                && frames_needed * self.spec_channels() <= usize::MAX),
            r matches Some(n) ==> n == frames_needed * self.spec_channels() && n <= staged,
    {
        if frames_needed == 0 || staged / self.channels < frames_needed {
            return None;
        }
        let r = self.samples_in_frames(frames_needed);
        proof {
            if r is Some {
                let c = self.channels as int;
                let s = staged as int;
                assert(frames_needed * c <= (s / c) * c) by (nonlinear_arith)
                    requires
                        frames_needed <= s / c,
                        c > 0,
                ;
                lemma_fundamental_div_mod(s, c);
                assert((s / c) * c <= s) by (nonlinear_arith)
                    requires
                        s == c * (s / c) + s % c,
                        s % c >= 0,
                ;
            }
        }
        r
    }

    /// The number of interleaved samples in `frames` frames, or `None` where
    /// it does not fit in a `usize`.
    pub fn samples_in_frames(&self, frames: usize) -> (r: Option<usize>)
        ensures
            r is Some <==> frames * self.spec_channels() <= usize::MAX,
            r matches Some(n) ==> n == frames * self.spec_channels(),
    {
        frames.checked_mul(self.channels)
    }
}

/// The position a decoder reports starts at its start and never goes back
/// as frames are decoded.
pub proof fn lemma_position_monotonic(start_ms: nat, earlier: nat, later: nat, sample_rate: nat)
    requires
        earlier <= later,
        sample_rate > 0,
    ensures
        position_ms(start_ms, 0, sample_rate) == start_ms,
        start_ms <= position_ms(start_ms, earlier, sample_rate),
        position_ms(start_ms, earlier, sample_rate) <= position_ms(start_ms, later, sample_rate),
        saturate(position_ms(start_ms, earlier, sample_rate)) <= saturate(
            position_ms(start_ms, later, sample_rate),
        ),
{
    assert(0int * 1000 / (sample_rate as int) == 0);
    assert(earlier * 1000 <= later * 1000) by (nonlinear_arith)
        requires
            earlier <= later,
    ;
    lemma_div_is_ordered(earlier as int * 1000, later as int * 1000, sample_rate as int);
    lemma_div_is_ordered(0, earlier as int * 1000, sample_rate as int);
}

/// Decoding a whole stream of `n_frames` frames at `sample_rate` from the
/// beginning ends at the stream's duration as probed from the same codec
/// parameters, to the millisecond; and the frame count lies within one
/// nanosecond's worth of frames above that duration times the rate.
pub proof fn lemma_full_decode_matches_duration(n_frames: nat, sample_rate: nat)
    requires
        sample_rate > 0,
    ensures
        position_ms(0, n_frames, sample_rate) == frames_duration_nanos(n_frames, sample_rate)
            / NANOS_PER_MILLI as nat,
        frames_duration_nanos(n_frames, sample_rate) * sample_rate <= n_frames
            * NANOS_PER_SEC as nat,
        (n_frames * NANOS_PER_SEC as nat) < (frames_duration_nanos(n_frames, sample_rate) + 1)
            * sample_rate,
{
    let r = sample_rate as int;
    let x = n_frames * NANOS_PER_SEC as int;
    let d = x / r;
    lemma_div_denominator(x, r, NANOS_PER_MILLI as int);
    assert(x == 1_000_000 * (n_frames * 1000)) by (nonlinear_arith)
        requires
            x == n_frames * NANOS_PER_SEC as int,
    ;
    lemma_div_multiples_vanish_quotient(1_000_000, n_frames as int * 1000, r);
    assert(r * 1_000_000 == 1_000_000 * r) by (nonlinear_arith);
    lemma_fundamental_div_mod(x, r);
    assert(d * r <= x < (d + 1) * r) by (nonlinear_arith)
        requires
            x == r * d + x % r,
            0 <= x % r < r,
    ;
}

} // verus!
