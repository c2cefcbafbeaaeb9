use vibe_dictate::audio::{accept_chunk, downmix, AudioChunk, Downmix};
use vibe_dictate::error::StreamError;
use vibe_dictate::resample::{Resampler, TARGET_SAMPLE_RATE};

/// A resampler with the floating-point side of the work: the output positions and the
/// interpolation.
struct Driven {
    inner: Resampler,
    ratio: f64,
    next: f64,
}

impl Driven {
    fn new(input_rate: u32, output_rate: u32) -> Driven {
        let inner = Resampler::new(input_rate, output_rate).unwrap();
        Driven { inner, ratio: input_rate as f64 / output_rate as f64, next: 0.0 }
    }

    fn positions(&self, end: usize) -> Vec<f64> {
        let mut positions = vec![self.next];
        while (positions[positions.len() - 1].floor() as usize) < end {
            positions.push(positions[positions.len() - 1] + self.ratio);
        }
        positions
    }

    fn render(&mut self, positions: &[f64], pairs: Vec<(u32, u32)>) -> Vec<f32> {
        self.next = positions[pairs.len()];
        pairs
            .iter()
            .zip(positions)
            .map(|(&(a, b), &pos)| {
                let (a, b) = (f32::from_bits(a), f32::from_bits(b));
                a + (b - a) * (pos - pos.floor()) as f32
            })
            .collect()
    }

    fn push(&mut self, input: &[f32]) -> Vec<f32> {
        let bits: Vec<u32> = input.iter().map(|x| x.to_bits()).collect();
        let positions = self.positions(self.inner.end() + bits.len());
        let floors: Vec<usize> = positions.iter().map(|p| p.floor() as usize).collect();
        let pairs = self.inner.push(&bits, &floors);
        self.render(&positions, pairs)
    }

    fn finish(&mut self) -> Vec<f32> {
        let positions = self.positions(self.inner.end());
        let floors: Vec<usize> = positions.iter().map(|p| p.floor() as usize).collect();
        let pairs = self.inner.finish(&floors);
        self.render(&positions, pairs)
    }
}

#[test]
fn resampler_keeps_fractional_phase_across_chunks() {
    let input: Vec<f32> = (0..32).map(|n| n as f32 / 32.0).collect();
    let mut whole = Driven::new(16_000, TARGET_SAMPLE_RATE);
    let mut expected = whole.push(&input);
    expected.extend(whole.finish());

    let mut split = Driven::new(16_000, TARGET_SAMPLE_RATE);
    let mut actual = split.push(&input[..7]);
    actual.extend(split.push(&input[7..19]));
    actual.extend(split.push(&input[19..]));
    actual.extend(split.finish());

    assert_eq!(actual.len(), expected.len());
    for (a, b) in actual.iter().zip(expected.iter()) {
        assert!((a - b).abs() < 1e-6, "{a} != {b}");
    }
}

#[test]
fn upsampling_by_two_halves_the_steps() {
    let mut r = Driven::new(12_000, TARGET_SAMPLE_RATE);
    let mut out = r.push(&[0.0, 1.0, 3.0]);
    assert_eq!(out, vec![0.0, 0.5, 1.0, 2.0]);
    out = r.finish();
    assert_eq!(out, vec![3.0, 3.0]);
}

#[test]
fn downsampling_skips_samples() {
    let mut r = Driven::new(72_000, TARGET_SAMPLE_RATE);
    assert_eq!(r.push(&[0.0, 1.0, 2.0, 3.0, 4.0, 5.0, 6.0]), vec![0.0, 3.0]);
    assert_eq!(r.push(&[7.0]), vec![6.0]);
    assert_eq!(r.finish(), Vec::<f32>::new());
}

#[test]
fn pairs_are_the_neighbours_of_each_position() {
    let mut r = Resampler::new(1, 1).unwrap();
    assert_eq!(r.push(&[10, 11, 12], &[0, 0, 1, 2, 3]), vec![(10, 11), (10, 11), (11, 12)]);
    assert_eq!(r.end(), 3);
    assert_eq!(r.push(&[], &[]), vec![]);
    assert_eq!(r.push(&[13], &[2, 4]), vec![(12, 13)]);
    assert_eq!(r.finish(&[3, 3, 4]), vec![(13, 13), (13, 13)]);
}

#[test]
fn positions_beyond_the_input_do_not_matter() {
    let mut short = Resampler::new(2, 1).unwrap();
    let mut long = Resampler::new(2, 1).unwrap();
    assert_eq!(
        short.push(&[7, 8, 9], &[0, 2, 4]),
        long.push(&[7, 8, 9], &[0, 2, 4, 6, 8, 0])
    );
    assert_eq!(short.finish(&[2, 4]), vec![(9, 9)]);
    assert_eq!(long.finish(&[2, 4, 6]), vec![(9, 9)]);
}

#[test]
fn zero_rates_are_refused() {
    for (input, output) in [(0, 24_000), (16_000, 0), (0, 0)] {
        let error = Resampler::new(input, output).unwrap_err();
        assert!(matches!(error, StreamError::ZeroSampleRate));
        assert_eq!(error.message(), "sample rates must be non-zero");
    }
    let r = Resampler::new(16_000, 24_000).unwrap();
    assert_eq!((r.input_rate(), r.output_rate(), r.end()), (16_000, 24_000, 0));
}

#[test]
fn mono_passes_through_and_frames_are_averaged() {
    assert!(matches!(downmix(&[1, 2, 3], 1), Downmix::Direct(s) if s == vec![1, 2, 3]));
    assert!(matches!(downmix(&[1, 2, 3], 0), Downmix::Direct(s) if s == vec![1, 2, 3]));
    assert!(matches!(
        downmix(&[1, 2, 3, 4, 5], 2),
        Downmix::Average { frames, divisor: 2 } if frames == vec![vec![1, 2], vec![3, 4], vec![5]]
    ));
    assert!(matches!(
        downmix(&[], 2),
        Downmix::Average { frames, divisor: 2 } if frames.is_empty()
    ));
}

fn chunk(sample_rate: u32, channels: u16) -> AudioChunk {
    AudioChunk { samples: vec![1, 2, 3, 4], channels, sample_rate }
}

#[test]
fn the_first_chunk_fixes_the_rate() {
    let mut resampler = None;
    assert!(matches!(
        accept_chunk(&mut resampler, &chunk(0, 1)),
        Err(StreamError::ZeroSampleRate)
    ));
    assert!(resampler.is_none());

    assert!(matches!(
        accept_chunk(&mut resampler, &chunk(16_000, 1)),
        Ok(Downmix::Direct(s)) if s == vec![1, 2, 3, 4]
    ));
    let r = resampler.as_ref().unwrap();
    assert_eq!((r.input_rate(), r.output_rate()), (16_000, 24_000));

    let error = accept_chunk(&mut resampler, &chunk(48_000, 1)).unwrap_err();
    assert_eq!(error.message(), "input sample rate changed mid-session");
    assert!(matches!(
        accept_chunk(&mut resampler, &chunk(0, 1)),
        Err(StreamError::ZeroSampleRate)
    ));
    assert!(matches!(
        accept_chunk(&mut resampler, &chunk(16_000, 2)),
        Ok(Downmix::Average { frames, divisor: 2 }) if frames == vec![vec![1, 2], vec![3, 4]]
    ));
}

#[test]
fn two_pushes_do_what_one_does() {
    let mut split = Resampler::new(2, 3).unwrap();
    let mut pairs = split.push(&[1, 2, 3], &[0, 0, 1, 2, 2, 3]);
    pairs.extend(split.push(&[4, 5], &[2, 2, 3, 4, 4, 5]));
    let mut whole = Resampler::new(2, 3).unwrap();
    assert_eq!(whole.push(&[1, 2, 3, 4, 5], &[0, 0, 1, 2, 2, 3, 4, 4, 5]), pairs);
    assert_eq!(pairs, vec![(1, 2), (1, 2), (2, 3), (3, 4), (3, 4), (4, 5)]);
    assert_eq!(whole.finish(&[4, 4, 5]), split.finish(&[4, 4, 5]));
}

#[test]
fn a_second_finish_yields_nothing() {
    let mut r = Resampler::new(1, 2).unwrap();
    r.push(&[8, 9], &[0, 0, 1, 1, 2]);
    assert_eq!(r.finish(&[1, 1, 2]), vec![(9, 9), (9, 9)]);
    assert_eq!(r.finish(&[2]), vec![]);
    assert_eq!(r.end(), 2);
}

#[test]
fn a_push_may_follow_a_finish() {
    let mut r = Resampler::new(1, 1).unwrap();
    assert_eq!(r.push(&[10, 11, 12], &[0, 1, 2, 3]), vec![(10, 11), (11, 12)]);
    assert_eq!(r.finish(&[2, 3]), vec![(12, 12)]);
    assert_eq!(r.push(&[13, 14], &[3, 4, 5]), vec![(13, 14)]);
    assert_eq!(r.finish(&[4, 5]), vec![(14, 14)]);
    assert_eq!(r.finish(&[5]), vec![]);
    assert_eq!(r.push(&[15], &[5, 6]), vec![]);
    assert_eq!(r.finish(&[5, 6]), vec![(15, 15)]);
    assert_eq!(r.end(), 6);
}
