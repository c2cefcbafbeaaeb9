//! What goes over the socket.

use crate::chunking::{
    chunked, joined, law_chunks_join_to_the_whole, law_number_of_pieces, law_pieces_in_place,
    nested, split_chunks,
};
use crate::resample::TARGET_SAMPLE_RATE;
use vstd::prelude::*;

verus! {

/// The text message that announces the end of the audio.
pub const END_MESSAGE: &'static str = "end";

/// How many samples of a file go into one frame: a twentieth of a second.
pub const FILE_FRAME_SAMPLES: usize = 1_200;

/// The four bytes of a sample, lowest first.
pub open spec fn le_bytes(x: u32) -> Seq<u8> {
    seq![
        (x % 0x100) as u8,
        (x / 0x100 % 0x100) as u8,
        (x / 0x1_0000 % 0x100) as u8,
        (x / 0x100_0000) as u8,
    ]
}

/// The bytes of all samples in order.
pub open spec fn pcm_bytes(samples: Seq<u32>) -> Seq<u8>
    decreases samples.len(),
{
    if samples.len() == 0 {
        Seq::empty()
    } else {
        pcm_bytes(samples.drop_last()) + le_bytes(samples.last())
    }
}

/// Encodes samples as little-endian bytes.
pub fn f32_bytes(samples: &[u32]) -> (res: Vec<u8>)
    ensures
        res@ == pcm_bytes(samples@),
{
    let mut bytes: Vec<u8> = Vec::new();
    let mut i: usize = 0;
    assert(samples@.take(0) =~= Seq::empty());
    while i < samples.len()
        invariant
            i <= samples@.len(),
            bytes@ == pcm_bytes(samples@.take(i as int)),
        decreases samples@.len() - i,
    {
        let x: u32 = samples[i];
        assert(samples@.take(i + 1).drop_last() =~= samples@.take(i as int));
        bytes.push((x % 0x100) as u8);
        bytes.push((x / 0x100 % 0x100) as u8);
        bytes.push((x / 0x1_0000 % 0x100) as u8);
        bytes.push((x / 0x100_0000) as u8);
        assert(bytes@ =~= pcm_bytes(samples@.take(i as int)) + le_bytes(x));
        i += 1;
    }
    assert(samples@.take(i as int) =~= samples@);
    bytes
}

/// Encodes a binary message, unless there is nothing to send.
pub fn binary_message(samples: &[u32]) -> (res: Option<Vec<u8>>)
    ensures
        res is None <==> samples@.len() == 0,
        res matches Some(bytes) ==> bytes@ == pcm_bytes(samples@),
{
    if samples.len() == 0 {
        None
    } else {
        Some(f32_bytes(samples))
    }
}

/// The byte sequences that a list of byte vectors holds.
pub open spec fn frames_view(frames: Seq<Vec<u8>>) -> Seq<Seq<u8>> {
    frames.map_values(|f: Vec<u8>| f@)
}

/// The frames of a file: its samples cut to the frame length, each piece encoded.
pub open spec fn file_frames(samples: Seq<u32>) -> Seq<Seq<u8>> {
    chunked(samples, FILE_FRAME_SAMPLES as nat).map_values(|piece: Seq<u32>| pcm_bytes(piece))
}

/// Encodes the frames of a file.
pub fn encode_file(samples: &[u32]) -> (res: Vec<Vec<u8>>)
    ensures
        frames_view(res@) == file_frames(samples@),
{
    let pieces: Vec<Vec<u32>> = split_chunks(samples, FILE_FRAME_SAMPLES);
    let mut res: Vec<Vec<u8>> = Vec::new();
    let mut i: usize = 0;
    while i < pieces.len()
        invariant
            i <= pieces@.len(),
            res@.len() == i,
            nested(pieces@) == chunked(samples@, FILE_FRAME_SAMPLES as nat),
            forall|j: int| 0 <= j < i ==> (#[trigger] res@[j])@ == pcm_bytes(pieces@[j]@),
        decreases pieces@.len() - i,
    {
        res.push(f32_bytes(pieces[i].as_slice()));
        i += 1;
    }
    assert(frames_view(res@) =~= file_frames(samples@)) by {
        assert forall|j: int| 0 <= j < res@.len() implies frames_view(res@)[j] == file_frames(
            samples@,
        )[j] by {
            assert(nested(pieces@)[j] == pieces@[j]@);
            assert(res@[j]@ == pcm_bytes(pieces@[j]@));
        }
        assert(nested(pieces@).len() == pieces@.len());
    }
    res
}

/// Messages put one after the other.
pub open spec fn concatenated(frames: Seq<Seq<u8>>) -> Seq<u8>
    decreases frames.len(),
{
    if frames.len() == 0 {
        Seq::empty()
    } else {
        concatenated(frames.drop_last()) + frames.last()
    }
}

/// A frame of a file holds a twentieth of a second.
pub proof fn law_frame_is_a_twentieth_of_a_second()
    ensures
        FILE_FRAME_SAMPLES * 20 == TARGET_SAMPLE_RATE,
{
}

/// The four bytes of a sample give it back.
pub proof fn law_sample_round_trip(x: u32)
    ensures
        le_bytes(x)[0] + 0x100 * le_bytes(x)[1] + 0x1_0000 * le_bytes(x)[2] + 0x100_0000 * le_bytes(
            x,
        )[3] == x,
{
    assert(x / 0x100 / 0x100 == x / 0x1_0000);
    assert(x / 0x1_0000 / 0x100 == x / 0x100_0000);
}

/// Sample `i` takes up the four bytes from byte `4 * i` on, and there are no others.
pub proof fn law_bytes_of_each_sample(samples: Seq<u32>, i: int)
    requires
        0 <= i < samples.len(),
    ensures
        pcm_bytes(samples).len() == 4 * samples.len(),
        pcm_bytes(samples).subrange(4 * i, 4 * i + 4) == le_bytes(samples[i]),
    decreases samples.len(),
{
    let shorter = samples.drop_last();
    if shorter.len() == 0 {
        assert(pcm_bytes(shorter) =~= Seq::empty());
        assert(pcm_bytes(samples).subrange(0, 4) =~= le_bytes(samples[0]));
    } else {
        law_bytes_of_each_sample(
            shorter,
            if i < shorter.len() {
                i
            } else {
                0
            },
        );
        if i < shorter.len() {
            assert(pcm_bytes(samples).subrange(4 * i, 4 * i + 4) =~= pcm_bytes(shorter).subrange(
                4 * i,
                4 * i + 4,
            ));
        } else {
            assert(pcm_bytes(samples).subrange(4 * i, 4 * i + 4) =~= le_bytes(samples[i]));
        }
    }
}

/// The bytes of a signal are those of its parts, one after the other.
pub proof fn law_bytes_of_a_concatenation(a: Seq<u32>, b: Seq<u32>)
    ensures
        pcm_bytes(a + b) == pcm_bytes(a) + pcm_bytes(b),
    decreases b.len(),
{
    if b.len() == 0 {
        assert(a + b =~= a);
        assert(pcm_bytes(a + b) =~= pcm_bytes(a) + pcm_bytes(b));
    } else {
        assert((a + b).drop_last() =~= a + b.drop_last());
        law_bytes_of_a_concatenation(a, b.drop_last());
        assert(pcm_bytes(a + b) =~= pcm_bytes(a) + pcm_bytes(b));
    }
}

proof fn lemma_encoded_pieces(pieces: Seq<Seq<u32>>)
    ensures
        concatenated(pieces.map_values(|piece: Seq<u32>| pcm_bytes(piece))) == pcm_bytes(
            joined(pieces),
        ),
    decreases pieces.len(),
{
    let encoded = pieces.map_values(|piece: Seq<u32>| pcm_bytes(piece));
    if pieces.len() > 0 {
        let fewer = pieces.drop_last();
        lemma_encoded_pieces(fewer);
        law_bytes_of_a_concatenation(joined(fewer), pieces.last());
        assert(encoded.drop_last() =~= fewer.map_values(|piece: Seq<u32>| pcm_bytes(piece)));
    } else {
        assert(concatenated(encoded) =~= pcm_bytes(joined(pieces)));
    }
}

/// The frames of a file carry all of its samples, in order.
pub proof fn law_frames_carry_the_file(samples: Seq<u32>)
    ensures
        concatenated(file_frames(samples)) == pcm_bytes(samples),
{
    law_chunks_join_to_the_whole(samples, FILE_FRAME_SAMPLES as nat);
    lemma_encoded_pieces(chunked(samples, FILE_FRAME_SAMPLES as nat));
}

/// Frame `k` of a file carries the samples from `1200 * k` on, four bytes each, lowest byte
/// first: a full frame 1200 of them, and the last one what is left. There are just enough frames.
pub proof fn law_samples_of_each_frame(samples: Seq<u32>, k: int, i: int)
    ensures
        samples.len() <= 1200 * file_frames(samples).len() < samples.len() + 1200,
        0 <= k < file_frames(samples).len() ==> {
            let frame = file_frames(samples)[k];
            &&& k + 1 < file_frames(samples).len() ==> frame.len() == 4800
            &&& k + 1 == file_frames(samples).len() ==> frame.len() == 4 * (samples.len() - 1200
                * k)
            &&& 0 <= i < frame.len() / 4 ==> frame[4 * i] + 0x100 * frame[4 * i + 1] + 0x1_0000
                * frame[4 * i + 2] + 0x100_0000 * frame[4 * i + 3] == samples[1200 * k + i]
        },
{
    law_number_of_pieces(samples, FILE_FRAME_SAMPLES as nat);
    if 0 <= k < file_frames(samples).len() {
        let piece = chunked(samples, FILE_FRAME_SAMPLES as nat)[k];
        law_pieces_in_place(samples, FILE_FRAME_SAMPLES as nat, k);
        assert(file_frames(samples)[k] == pcm_bytes(piece));
        assert(piece.len() > 0);
        law_bytes_of_each_sample(piece, 0);
        if 0 <= i < piece.len() {
            law_bytes_are_little_endian(piece, i);
            assert(piece[i] == samples[1200 * k + i]);
        }
    }
}

/// The four bytes from byte `4 * i` on, read with the lowest first, are sample `i`.
pub proof fn law_bytes_are_little_endian(samples: Seq<u32>, i: int)
    requires
        0 <= i < samples.len(),
    ensures
        ({
            let bytes = pcm_bytes(samples);
            &&& bytes.len() == 4 * samples.len()
            &&& bytes[4 * i] + 0x100 * bytes[4 * i + 1] + 0x1_0000 * bytes[4 * i + 2] + 0x100_0000
                * bytes[4 * i + 3] == samples[i]
        }),
{
    law_bytes_of_each_sample(samples, i);
    law_sample_round_trip(samples[i]);
    let bytes = pcm_bytes(samples);
    let four = bytes.subrange(4 * i, 4 * i + 4);
    assert(four[0] == bytes[4 * i] && four[1] == bytes[4 * i + 1] && four[2] == bytes[4 * i + 2]
        && four[3] == bytes[4 * i + 3]);
}

} // verus!
