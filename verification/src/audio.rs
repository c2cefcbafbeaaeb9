//! Captured audio on its way into a session.

use crate::chunking::{
    chunked, law_number_of_pieces, law_pieces_in_place, nested, split_chunks,
};
use crate::error::StreamError;
use crate::resample::{fresh, Resampler, TARGET_SAMPLE_RATE};
use vstd::prelude::*;
use vstd::slice::slice_to_vec;

verus! {

/// One delivery of the capture device: interleaved samples, as bit patterns of
/// single-precision numbers.
#[derive(Debug, Clone)]
pub struct AudioChunk {
    pub samples: Vec<u32>,
    pub channels: u16,
    pub sample_rate: u32,
}

/// How the mono signal comes out of interleaved samples.
#[derive(Debug)]
pub enum Downmix {
    /// The samples are mono already.
    Direct(Vec<u32>),
    /// Each output sample is the sum of one frame divided by the number of channels, which is
    /// also the divisor of an incomplete last frame.
    Average { frames: Vec<Vec<u32>>, divisor: usize },
}

/// Whether `mix` is how `samples` become mono: one channel or none is passed through, more
/// are averaged frame by frame.
pub open spec fn is_downmix(mix: Downmix, samples: Seq<u32>, channels: nat) -> bool {
    match mix {
        Downmix::Direct(out) => channels <= 1 && out@ == samples,
        Downmix::Average { frames, divisor } => {
            &&& channels > 1
            &&& divisor == channels
            &&& nested(frames@) == chunked(samples, channels)
        },
    }
}

/// Decides how `samples` become mono.
pub fn downmix(samples: &[u32], channels: usize) -> (res: Downmix)
    ensures
        is_downmix(res, samples@, channels as nat),
{
    if channels <= 1 {
        Downmix::Direct(slice_to_vec(samples))
    } else {
        Downmix::Average { frames: split_chunks(samples, channels), divisor: channels }
    }
}

/// What becomes of a session's resampler when a chunk at `sample_rate` arrives: the first
/// chunk fixes the rate, and no later one may differ. A rate of zero is refused first.
pub open spec fn rate_refusal(current: Option<Resampler>, sample_rate: u32) -> Option<StreamError> {
    if sample_rate == 0 {
        Some(StreamError::ZeroSampleRate)
    } else if current is Some && current->0@.input_rate != sample_rate {
        Some(StreamError::SampleRateChanged)
    } else {
        None
    }
}

/// Takes a chunk into the session: returns how it becomes mono, and makes the resampler when
/// it is the first one.
pub fn accept_chunk(resampler: &mut Option<Resampler>, chunk: &AudioChunk) -> (res: Result<
    Downmix,
    StreamError,
>)
    ensures
        res is Err <==> rate_refusal(*old(resampler), chunk.sample_rate) is Some,
        res matches Err(e) ==> rate_refusal(*old(resampler), chunk.sample_rate) == Some(e),
        res is Ok <==> chunk.sample_rate > 0 && (*old(resampler) is None || old(
            resampler,
        )->0@.input_rate == chunk.sample_rate),
        chunk.sample_rate == 0 ==> res matches Err(StreamError::ZeroSampleRate),
        chunk.sample_rate > 0 && res is Err ==> res->Err_0 is SampleRateChanged,
        res matches Ok(mix) ==> is_downmix(mix, chunk.samples@, chunk.channels as nat),
        res is Err || *old(resampler) is Some ==> *final(resampler) == *old(resampler),
        res is Ok && *old(resampler) is None ==> {
            &&& *final(resampler) matches Some(r)
            &&& r.wf()
            &&& r@ == fresh(chunk.sample_rate, TARGET_SAMPLE_RATE)
        },
        res is Ok ==> {
            &&& *final(resampler) matches Some(r)
            &&& r@.input_rate == chunk.sample_rate
        },
{
    let mix: Downmix = downmix(chunk.samples.as_slice(), chunk.channels as usize);
    match Resampler::new(chunk.sample_rate, TARGET_SAMPLE_RATE) {
        Err(e) => Err(e),
        Ok(first) => {
            match resampler {
                Some(r) => {
                    if r.input_rate() != chunk.sample_rate {
                        return Err(StreamError::SampleRateChanged);
                    }
                },
                None => {
                    *resampler = Some(first);
                },
            }
            Ok(mix)
        },
    }
}

/// The first chunk of a session is accepted at every rate but zero. After it a chunk is accepted
/// exactly if it comes at the rate that the session's resampler takes. A rate of zero and a
/// changed rate are told apart.
pub proof fn law_rate_is_fixed_by_the_first_chunk(current: Resampler, sample_rate: u32)
    ensures
        sample_rate > 0 ==> rate_refusal(None, sample_rate) is None,
        sample_rate == 0 ==> rate_refusal(None, sample_rate) == Some(StreamError::ZeroSampleRate)
            && rate_refusal(Some(current), sample_rate) == Some(StreamError::ZeroSampleRate),
        rate_refusal(Some(current), sample_rate) is None <==> sample_rate > 0 && sample_rate
            == current@.input_rate,
        sample_rate > 0 && sample_rate != current@.input_rate ==> rate_refusal(
            Some(current),
            sample_rate,
        ) == Some(StreamError::SampleRateChanged),
{
}

/// A session accepts as many chunks as come at its first rate: whatever resampler its first chunk
/// has made, the same rate is never refused, and every other rate is.
pub proof fn law_same_rate_is_always_accepted(first: u32, later: u32, made: Resampler)
    requires
        rate_refusal(None, first) is None,
        made@ == fresh(first, TARGET_SAMPLE_RATE),
    ensures
        rate_refusal(Some(made), later) is None <==> later == first,
        made@.input_rate == first,
        made@.output_rate == 24_000,
        made@.window.start == 0,
        made@.window.samples.len() == 0,
{
}

/// Up to one channel the samples are passed through. With more of them, sample `j` of frame `i`
/// is the one at position `channels * i + j` of the interleaved samples; every sample is in one
/// of the frames, only the last frame may be incomplete, and the sum of every frame is divided
/// by the number of channels.
pub proof fn law_every_sample_is_mixed(
    mix: Downmix,
    samples: Seq<u32>,
    channels: nat,
    i: int,
    j: int,
)
    requires
        is_downmix(mix, samples, channels),
    ensures
        channels <= 1 ==> (mix matches Downmix::Direct(out) && out@ == samples),
        channels > 1 ==> {
            &&& mix matches Downmix::Average { frames, divisor }
            &&& divisor == channels
            &&& samples.len() <= channels * frames@.len() < samples.len() + channels
            &&& 0 <= i < frames@.len() - 1 ==> frames@[i]@.len() == channels
            &&& 0 <= i < frames@.len() && i == frames@.len() - 1 ==> frames@[i]@.len()
                == samples.len() - channels * i
            &&& 0 <= i < frames@.len() && 0 <= j < frames@[i]@.len() ==> frames@[i]@[j]
                == samples[channels * i + j]
        },
{
    if mix is Average {
        let frames = mix->frames;
        law_number_of_pieces(samples, channels);
        assert(nested(frames@).len() == frames@.len());
        if 0 <= i < frames@.len() {
            assert(nested(frames@)[i] == frames@[i]@);
            law_pieces_in_place(samples, channels, i);
            crate::chunking::law_chunk_sizes(samples, channels, i);
        }
    }
}

} // verus!
