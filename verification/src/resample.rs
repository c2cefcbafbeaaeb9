//! Bringing captured audio to the rate and channel count that the backend expects.
//!
//! Samples are held as the bit patterns of single-precision numbers. What the patterns mean
//! is left to the caller: this module decides which samples are averaged, which two are
//! interpolated at each output position, and which are still needed afterwards.

use crate::chunking::joined;
use crate::error::StreamError;
use vstd::prelude::*;

verus! {

/// The rate, in samples per second, at which audio is sent to the backend.
pub const TARGET_SAMPLE_RATE: u32 = 24_000;

/// The part of the input stream that a resampler still holds: the samples from input
/// position `start` on.
pub struct Window {
    pub start: int,
    pub samples: Seq<u32>,
}

impl Window {
    /// The input position just behind the last sample held.
    pub open spec fn end(self) -> int {
        self.start + self.samples.len()
    }

    /// The window after `input` has arrived.
    pub open spec fn fed(self, input: Seq<u32>) -> Window {
        Window { start: self.start, samples: self.samples + input }
    }

    /// The two neighbouring samples between which an output position with integral part
    /// `floor` lies. There are none while the right neighbour is missing, except that at the
    /// end of the stream the last sample stands in for it.
    pub open spec fn pair_at(self, floor: int, last: bool) -> Option<(u32, u32)> {
        if floor < self.start || floor >= self.end() {
            None
        } else if floor + 1 < self.end() {
            Some((self.samples[floor - self.start], self.samples[floor + 1 - self.start]))
        } else if last {
            Some((self.samples[floor - self.start], self.samples[floor - self.start]))
        } else {
            None
        }
    }

    /// How many of the output positions, taken in order, can be interpolated before the first
    /// one that cannot.
    pub open spec fn ready(self, floors: Seq<usize>, last: bool) -> nat
        decreases floors.len(),
    {
        if floors.len() == 0 || self.pair_at(floors[0] as int, last) is None {
            0
        } else {
            1 + self.ready(floors.drop_first(), last)
        }
    }

    /// The neighbours for each position that can be interpolated.
    pub open spec fn pairs(self, floors: Seq<usize>, last: bool) -> Seq<(u32, u32)> {
        Seq::new(
            self.ready(floors, last),
            |i: int| self.pair_at(floors[i] as int, last)->0,
        )
    }

    /// The window without the samples that lie more than one before position `next`.
    pub open spec fn trimmed(self, next: int) -> Window {
        let keep_from = if next > 0 {
            next - 1
        } else {
            0
        };
        if keep_from <= self.start {
            self
        } else if keep_from < self.end() {
            Window { start: keep_from, samples: self.samples.skip(keep_from - self.start) }
        } else {
            Window { start: self.end(), samples: Seq::empty() }
        }
    }
}

/// What a resampler is at one moment.
pub struct ResamplerView {
    pub input_rate: u32,
    pub output_rate: u32,
    pub window: Window,
}

/// A resampler that has been given nothing yet.
pub open spec fn fresh(input_rate: u32, output_rate: u32) -> ResamplerView {
    ResamplerView {
        input_rate,
        output_rate,
        window: Window { start: 0, samples: Seq::empty() },
    }
}

/// A linear resampler that survives arbitrary input chunk boundaries. `finish` pads the final
/// interpolation point with the final sample, avoiding a discontinuity when a short capture
/// ends between output sample positions.
///
/// The output positions are the caller's: it hands in their integral parts and computes the
/// interpolated values from the pairs that come back.
#[derive(Debug, Clone)]
pub struct Resampler {
    input_rate: u32,
    output_rate: u32,
    buffer: Vec<u32>,
    buffer_start: usize,
}

impl View for Resampler {
    type V = ResamplerView;

    closed spec fn view(&self) -> ResamplerView {
        ResamplerView {
            input_rate: self.input_rate,
            output_rate: self.output_rate,
            window: Window { start: self.buffer_start as int, samples: self.buffer@ },
        }
    }
}

impl Resampler {
    /// The rates are usable and every input position fits in a machine word.
    pub closed spec fn wf(&self) -> bool {
        &&& self.input_rate > 0
        &&& self.output_rate > 0
        &&& self.buffer_start + self.buffer@.len() <= usize::MAX
    }

    /// A resampler's rates are never zero, and its input positions fit in a machine word.
    pub proof fn law_wf(&self)
        requires
            self.wf(),
        ensures
            self@.input_rate > 0,
            self@.output_rate > 0,
            0 <= self@.window.start,
            self@.window.end() <= usize::MAX,
    {
    }

    /// Makes a resampler between two rates, neither of which may be zero.
    pub fn new(input_rate: u32, output_rate: u32) -> (res: Result<Resampler, StreamError>)
        ensures
            match res {
                Ok(r) => input_rate != 0 && output_rate != 0 && r.wf() && r@ == fresh(
                    input_rate,
                    output_rate,
                ),
                Err(e) => (input_rate == 0 || output_rate == 0) && e == StreamError::ZeroSampleRate,
            },
    {
        if input_rate == 0 || output_rate == 0 {
            return Err(StreamError::ZeroSampleRate);
        }
        let r = Resampler { input_rate, output_rate, buffer: Vec::new(), buffer_start: 0 };
        assert(r@.window.samples =~= Seq::empty());
        Ok(r)
    }

    /// The rate of the input.
    pub fn input_rate(&self) -> (res: u32)
        ensures
            res == self@.input_rate,
    {
        self.input_rate
    }

    /// The rate of the output.
    pub fn output_rate(&self) -> (res: u32)
        ensures
            res == self@.output_rate,
    {
        self.output_rate
    }

    /// The input position just behind the last sample received.
    pub fn end(&self) -> (res: usize)
        requires
            self.wf(),
        ensures
            res == self@.window.end(),
    {
        self.buffer_start + self.buffer.len()
    }

    /// Takes in more samples and returns the neighbours of every position that they complete.
    /// `floors` are the integral parts of the output positions from the next one on, up to
    /// one that the input does not reach yet. Without new samples nothing happens.
    pub fn push(&mut self, input: &[u32], floors: &[usize]) -> (res: Vec<(u32, u32)>)
        requires
            old(self).wf(),
            old(self)@.window.end() + input@.len() <= usize::MAX,
            input@.len() > 0 ==> floors@.len() > 0 && floors@.last()
                >= old(self)@.window.end() + input@.len(),
        ensures
            final(self).wf(),
            final(self)@.input_rate == old(self)@.input_rate,
            final(self)@.output_rate == old(self)@.output_rate,
            input@.len() == 0 ==> res@ == Seq::<(u32, u32)>::empty() && final(self)@ == old(self)@,
            input@.len() > 0 ==> {
                let w = old(self)@.window.fed(input@);
                &&& res@ == w.pairs(floors@, false)
                &&& res@.len() < floors@.len()
                &&& final(self)@.window == w.trimmed(floors@[res@.len() as int] as int)
            },
    {
        if input.len() == 0 {
            return Vec::new();
        }
        let ghost before = self@;
        self.buffer.extend_from_slice(input);
        assert(self@.window.samples =~= before.window.fed(input@).samples);
        self.produce(floors, false)
    }

    /// Ends the stream: returns the neighbours of the remaining positions, the last sample
    /// standing in for its missing right neighbour.
    pub fn finish(&mut self, floors: &[usize]) -> (res: Vec<(u32, u32)>)
        requires
            old(self).wf(),
            floors@.len() > 0,
            floors@.last() >= old(self)@.window.end(),
        ensures
            final(self).wf(),
            final(self)@.input_rate == old(self)@.input_rate,
            final(self)@.output_rate == old(self)@.output_rate,
            res@ == old(self)@.window.pairs(floors@, true),
            res@.len() < floors@.len(),
            final(self)@.window == old(self)@.window.trimmed(floors@[res@.len() as int] as int),
    {
        self.produce(floors, true)
    }

    fn produce(&mut self, floors: &[usize], final_chunk: bool) -> (res: Vec<(u32, u32)>)
        requires
            old(self).wf(),
            floors@.len() > 0,
            floors@.last() >= old(self)@.window.end(),
        ensures
            final(self).wf(),
            final(self)@.input_rate == old(self)@.input_rate,
            final(self)@.output_rate == old(self)@.output_rate,
            res@ == old(self)@.window.pairs(floors@, final_chunk),
            res@.len() < floors@.len(),
            final(self)@.window == old(self)@.window.trimmed(floors@[res@.len() as int] as int),
    {
        let end: usize = self.buffer_start + self.buffer.len();
        let ghost w = self@.window;
        let mut out: Vec<(u32, u32)> = Vec::new();
        let mut i: usize = 0;
        loop
            invariant
                self.wf(),
                *self == *old(self),
                w == self@.window,
                end == w.end(),
                i == out@.len(),
                i < floors@.len(),
                floors@.last() >= end,
                forall|j: int|
                    #![trigger out@[j]]
                    0 <= j < i ==> w.pair_at(floors@[j] as int, final_chunk) == Some(out@[j]),
            ensures
                w.pair_at(floors@[i as int] as int, final_chunk) is None,
            decreases floors@.len() - i,
        {
            let floor: usize = floors[i];
            if floor < self.buffer_start || floor >= end {
                break;
            }
            let local: usize = floor - self.buffer_start;
            let a: u32 = self.buffer[local];
            let b: u32;
            if local + 1 < self.buffer.len() {
                b = self.buffer[local + 1];
            } else if final_chunk {
                b = a;
            } else {
                break;
            }
            out.push((a, b));
            i += 1;
        }
        proof {
            assert forall|j: int| 0 <= j < i implies w.pair_at(
                #[trigger] floors@[j] as int,
                final_chunk,
            ) is Some by {
                assert(w.pair_at(floors@[j] as int, final_chunk) == Some(out@[j]));
            }
            lemma_ready(w, floors@, final_chunk, i as int);
            assert(out@ =~= w.pairs(floors@, final_chunk));
        }

        // Keep one prior sample for the next interpolation. This also bounds memory
        // independently of dictation duration.
        let next: usize = floors[i];
        let keep_from: usize = if next > 0 {
            next - 1
        } else {
            0
        };
        if keep_from > self.buffer_start {
            let surplus: usize = keep_from - self.buffer_start;
            let drop_count: usize = if surplus < self.buffer.len() {
                surplus
            } else {
                self.buffer.len()
            };
            let kept: Vec<u32> = self.buffer.split_off(drop_count);
            self.buffer = kept;
            self.buffer_start = self.buffer_start + drop_count;
        }
        assert(self@.window.samples =~= w.trimmed(next as int).samples);
        out
    }
}

/// The number of ready positions is the index of the first one without neighbours.
proof fn lemma_ready(w: Window, floors: Seq<usize>, last: bool, n: int)
    requires
        0 <= n < floors.len(),
        forall|j: int| 0 <= j < n ==> w.pair_at(#[trigger] floors[j] as int, last) is Some,
        w.pair_at(floors[n] as int, last) is None,
    ensures
        w.ready(floors, last) == n,
    decreases n,
{
    if n > 0 {
        let rest = floors.drop_first();
        assert forall|j: int| 0 <= j < n - 1 implies w.pair_at(
            #[trigger] rest[j] as int,
            last,
        ) is Some by {
            assert(rest[j] == floors[j + 1]);
        }
        lemma_ready(w, rest, last, n - 1);
        assert(w.pair_at(floors[0] as int, last) is Some);
    }
}

/// What `ready` counts: positions that have neighbours, up to one that has none.
proof fn lemma_ready_counts(w: Window, floors: Seq<usize>, last: bool)
    ensures
        w.ready(floors, last) <= floors.len(),
        forall|j: int|
            0 <= j < w.ready(floors, last) ==> w.pair_at(#[trigger] floors[j] as int, last) is Some,
        w.ready(floors, last) < floors.len() ==> w.pair_at(
            floors[w.ready(floors, last) as int] as int,
            last,
        ) is None,
    decreases floors.len(),
{
    if floors.len() > 0 && w.pair_at(floors[0] as int, last) is Some {
        let rest = floors.drop_first();
        lemma_ready_counts(w, rest, last);
        assert forall|j: int| 0 <= j < w.ready(floors, last) implies w.pair_at(
            #[trigger] floors[j] as int,
            last,
        ) is Some by {
            if j > 0 {
                assert(floors[j] == rest[j - 1]);
            }
        }
    }
}

/// Only the positions that the input reaches matter: a list that goes past it may be continued
/// in any way without a change to what is ready.
pub proof fn law_later_positions_do_not_matter(
    w: Window,
    floors: Seq<usize>,
    more: Seq<usize>,
    last: bool,
)
    requires
        floors.len() > 0,
        floors.last() >= w.end(),
    ensures
        w.ready(floors, last) < floors.len(),
        w.ready(floors + more, last) == w.ready(floors, last),
        w.pairs(floors + more, last) == w.pairs(floors, last),
{
    let n = w.ready(floors, last) as int;
    let all = floors + more;
    lemma_ready_counts(w, floors, last);
    assert(w.pair_at(floors[floors.len() - 1] as int, last) is None);
    assert forall|j: int| 0 <= j < n implies w.pair_at(#[trigger] all[j] as int, last) is Some by {
        assert(all[j] == floors[j]);
    }
    assert(all[n] == floors[n]);
    lemma_ready(w, all, last, n);
    assert(w.pairs(all, last) =~= w.pairs(floors, last));
}

/// How far a session has come: what the resampler holds, how many output positions have been
/// served, and the neighbours handed out so far.
pub struct Progress {
    pub window: Window,
    pub used: nat,
    pub out: Seq<(u32, u32)>,
}

/// A session before its first chunk.
pub open spec fn at_start() -> Progress {
    Progress {
        window: Window { start: 0, samples: Seq::empty() },
        used: 0,
        out: Seq::empty(),
    }
}

/// The session after one more `push`.
pub open spec fn after_push(p: Progress, chunk: Seq<u32>, floors: Seq<usize>) -> Progress {
    if chunk.len() == 0 {
        p
    } else {
        let w = p.window.fed(chunk);
        let rest = floors.skip(p.used as int);
        let n = w.ready(rest, false);
        Progress {
            window: w.trimmed(rest[n as int] as int),
            used: p.used + n,
            out: p.out + w.pairs(rest, false),
        }
    }
}

/// The session after `finish`.
pub open spec fn after_finish(p: Progress, floors: Seq<usize>) -> Progress {
    let rest = floors.skip(p.used as int);
    let n = p.window.ready(rest, true);
    Progress {
        window: p.window.trimmed(rest[n as int] as int),
        used: p.used + n,
        out: p.out + p.window.pairs(rest, true),
    }
}

/// The session after all chunks have been pushed in order.
pub open spec fn after_chunks(chunks: Seq<Seq<u32>>, floors: Seq<usize>) -> Progress
    decreases chunks.len(),
{
    if chunks.len() == 0 {
        at_start()
    } else {
        after_push(after_chunks(chunks.drop_last(), floors), chunks.last(), floors)
    }
}

/// The two samples of the whole stream around an output position, the last sample being its
/// own right neighbour.
pub open spec fn neighbours(stream: Seq<u32>, floor: int) -> (u32, u32) {
    (stream[floor], if floor + 1 < stream.len() {
        stream[floor + 1]
    } else {
        stream[floor]
    })
}

/// How many output positions, taken in order, lie before `limit`.
pub open spec fn covered(floors: Seq<usize>, limit: int) -> nat
    decreases floors.len(),
{
    if floors.len() == 0 || floors[0] >= limit {
        0
    } else {
        1 + covered(floors.drop_first(), limit)
    }
}

/// The neighbours of every output position inside the stream.
pub open spec fn resampled(stream: Seq<u32>, floors: Seq<usize>) -> Seq<(u32, u32)> {
    Seq::new(covered(floors, stream.len() as int), |i: int| neighbours(stream, floors[i] as int))
}

/// Output positions only move forward.
pub open spec fn ascending(floors: Seq<usize>) -> bool {
    forall|i: int, j: int| 0 <= i <= j < floors.len() ==> floors[i] <= floors[j]
}

/// Output positions that move forward and go past a stream of the given length.
pub open spec fn positions_past(floors: Seq<usize>, len: nat) -> bool {
    &&& floors.len() > 0
    &&& ascending(floors)
    &&& floors.last() >= len
}

proof fn lemma_covered(floors: Seq<usize>, limit: int, n: int)
    requires
        0 <= n < floors.len(),
        forall|j: int| 0 <= j < n ==> #[trigger] floors[j] < limit,
        floors[n] >= limit,
    ensures
        covered(floors, limit) == n,
    decreases n,
{
    if n > 0 {
        let rest = floors.drop_first();
        assert forall|j: int| 0 <= j < n - 1 implies #[trigger] rest[j] < limit by {
            assert(rest[j] == floors[j + 1]);
        }
        lemma_covered(rest, limit, n - 1);
        assert(floors[0] < limit);
    }
}

/// What holds between chunks: the window is the end of the stream, it is at most two samples
/// long, it does not lie behind the next position, and every served position got its
/// neighbours in the whole stream.
spec fn on_track(p: Progress, stream: Seq<u32>, floors: Seq<usize>) -> bool {
    &&& 0 <= p.window.start <= stream.len()
    &&& p.window.samples == stream.skip(p.window.start)
    &&& p.window.samples.len() <= 2
    &&& p.used < floors.len()
    &&& p.window.start <= floors[p.used as int]
    &&& floors[p.used as int] + 1 >= stream.len()
    &&& p.out.len() == p.used
    &&& forall|i: int| 0 <= i < p.used ==> #[trigger] served(p, stream, floors, i)
}

/// Position `i` lies before the last sample and got its neighbours.
spec fn served(p: Progress, stream: Seq<u32>, floors: Seq<usize>, i: int) -> bool {
    &&& floors[i] + 1 < stream.len()
    &&& p.out[i] == neighbours(stream, floors[i] as int)
}

proof fn lemma_push_keeps_on_track(
    p: Progress,
    stream: Seq<u32>,
    chunk: Seq<u32>,
    floors: Seq<usize>,
)
    requires
        on_track(p, stream, floors),
        positions_past(floors, (stream + chunk).len()),
    ensures
        on_track(after_push(p, chunk, floors), stream + chunk, floors),
{
    let whole = stream + chunk;
    if chunk.len() == 0 {
        assert(whole =~= stream);
    } else {
        let q = after_push(p, chunk, floors);
        let w = p.window.fed(chunk);
        let rest = floors.skip(p.used as int);
        let n = w.ready(rest, false);
        assert(w.samples =~= whole.skip(w.start));
        lemma_ready_counts(w, rest, false);
        assert(rest.last() == floors.last());
        assert(n < rest.len());
        let next = rest[n as int] as int;
        assert(next == floors[q.used as int]);
        assert(next >= floors[p.used as int]);
        assert(next + 1 >= whole.len());
        assert(q.window.samples =~= whole.skip(q.window.start));
        assert forall|i: int| 0 <= i < q.used implies #[trigger] served(q, whole, floors, i) by {
            if i < p.used {
                assert(served(p, stream, floors, i));
                assert(q.out[i] == p.out[i]);
            } else {
                let k = i - p.used;
                assert(rest[k] == floors[i]);
                assert(w.pair_at(rest[k] as int, false) is Some);
                assert(q.out[i] == w.pairs(rest, false)[k]);
            }
        }
    }
}

proof fn lemma_chunks_stay_on_track(chunks: Seq<Seq<u32>>, floors: Seq<usize>)
    requires
        positions_past(floors, joined(chunks).len()),
    ensures
        on_track(after_chunks(chunks, floors), joined(chunks), floors),
    decreases chunks.len(),
{
    if chunks.len() == 0 {
        assert(Seq::<u32>::empty() =~= joined(chunks).skip(0));
    } else {
        let before = joined(chunks.drop_last());
        lemma_chunks_stay_on_track(chunks.drop_last(), floors);
        lemma_push_keeps_on_track(
            after_chunks(chunks.drop_last(), floors),
            before,
            chunks.last(),
            floors,
        );
    }
}

/// However the input is cut into chunks, the session hands out the neighbours that each
/// output position has in the whole stream.
pub proof fn law_session_resamples_the_whole_stream(chunks: Seq<Seq<u32>>, floors: Seq<usize>)
    requires
        positions_past(floors, joined(chunks).len()),
    ensures
        after_finish(after_chunks(chunks, floors), floors).out == resampled(joined(chunks), floors),
{
    let stream = joined(chunks);
    let p = after_chunks(chunks, floors);
    lemma_chunks_stay_on_track(chunks, floors);
    let q = after_finish(p, floors);
    let rest = floors.skip(p.used as int);
    let n = p.window.ready(rest, true);
    lemma_ready_counts(p.window, rest, true);
    assert(rest.last() == floors.last());
    assert(n < rest.len());
    assert(rest[n as int] == floors[q.used as int]);
    assert(floors[q.used as int] >= floors[p.used as int]);
    assert forall|j: int| 0 <= j < q.used implies #[trigger] floors[j] < stream.len() by {
        if j < p.used {
            assert(served(p, stream, floors, j));
        } else {
            assert(rest[j - p.used] == floors[j]);
            assert(p.window.pair_at(rest[j - p.used] as int, true) is Some);
        }
    }
    lemma_covered(floors, stream.len() as int, q.used as int);
    assert forall|i: int| 0 <= i < q.used implies q.out[i] == neighbours(
        stream,
        floors[i] as int,
    ) by {
        if i < p.used {
            assert(served(p, stream, floors, i));
            assert(q.out[i] == p.out[i]);
        } else {
            let k = i - p.used;
            assert(rest[k] == floors[i]);
            assert(p.window.pair_at(rest[k] as int, true) is Some);
            assert(q.out[i] == p.window.pairs(rest, true)[k]);
        }
    }
    assert(q.out =~= resampled(stream, floors));
}

/// Chunk boundaries cannot be heard: two ways to cut the same stream give the same output.
pub proof fn law_chunk_boundaries_do_not_matter(
    chunks: Seq<Seq<u32>>,
    other: Seq<Seq<u32>>,
    floors: Seq<usize>,
)
    requires
        joined(chunks) == joined(other),
        positions_past(floors, joined(chunks).len()),
    ensures
        after_finish(after_chunks(chunks, floors), floors).out == after_finish(
            after_chunks(other, floors),
            floors,
        ).out,
{
    law_session_resamples_the_whole_stream(chunks, floors);
    law_session_resamples_the_whole_stream(other, floors);
}

/// A session whose next position its window has not left behind.
pub open spec fn keeps_up(p: Progress, floors: Seq<usize>) -> bool {
    &&& p.used < floors.len()
    &&& 0 <= p.window.start <= floors[p.used as int]
}

/// What can be done with a resampler.
pub enum Feeding {
    /// More samples are pushed.
    Push(Seq<u32>),
    /// The stream is brought to its end. More samples may still follow.
    Finish,
}

/// The session after a history of pushes and finishes, in any order.
pub open spec fn after_feedings(history: Seq<Feeding>, floors: Seq<usize>) -> Progress
    decreases history.len(),
{
    if history.len() == 0 {
        at_start()
    } else {
        let before = after_feedings(history.drop_last(), floors);
        match history.last() {
            Feeding::Push(chunk) => after_push(before, chunk, floors),
            Feeding::Finish => after_finish(before, floors),
        }
    }
}

/// How many samples a history has pushed.
pub open spec fn samples_fed(history: Seq<Feeding>) -> nat
    decreases history.len(),
{
    if history.len() == 0 {
        0
    } else {
        samples_fed(history.drop_last()) + match history.last() {
            Feeding::Push(chunk) => chunk.len(),
            Feeding::Finish => 0,
        }
    }
}

/// A push leaves at most two samples, unless it brings none and so changes nothing.
proof fn lemma_push_leaves_two(p: Progress, chunk: Seq<u32>, floors: Seq<usize>)
    requires
        keeps_up(p, floors),
        chunk.len() > 0,
        positions_past(floors, (p.window.end() + chunk.len()) as nat),
    ensures
        keeps_up(after_push(p, chunk, floors), floors),
        after_push(p, chunk, floors).window.end() == p.window.end() + chunk.len(),
        after_push(p, chunk, floors).window.samples.len() <= 2,
{
    let q = after_push(p, chunk, floors);
    let w = p.window.fed(chunk);
    let rest = floors.skip(p.used as int);
    let n = w.ready(rest, false);
    lemma_ready_counts(w, rest, false);
    assert(rest.last() == floors.last());
    assert(n < rest.len());
    assert(rest[n as int] == floors[q.used as int]);
    assert(floors[p.used as int] <= floors[q.used as int]);
}

/// A finish leaves no more samples than there were.
proof fn lemma_finish_leaves_no_more(p: Progress, floors: Seq<usize>)
    requires
        keeps_up(p, floors),
        positions_past(floors, p.window.end() as nat),
    ensures
        keeps_up(after_finish(p, floors), floors),
        after_finish(p, floors).window.end() == p.window.end(),
        after_finish(p, floors).window.samples.len() <= p.window.samples.len(),
{
    let q = after_finish(p, floors);
    let rest = floors.skip(p.used as int);
    let n = p.window.ready(rest, true);
    lemma_ready_counts(p.window, rest, true);
    assert(rest.last() == floors.last());
    assert(n < rest.len());
    assert(rest[n as int] == floors[q.used as int]);
    assert(floors[p.used as int] <= floors[q.used as int]);
}

/// Memory does not grow: after any history of pushes and finishes, in any order, a session
/// holds at most two samples, and its window has not left the next position behind.
pub proof fn law_memory_does_not_grow(history: Seq<Feeding>, floors: Seq<usize>)
    requires
        positions_past(floors, samples_fed(history)),
    ensures
        after_feedings(history, floors).window.samples.len() <= 2,
        after_feedings(history, floors).window.end() == samples_fed(history),
        keeps_up(after_feedings(history, floors), floors),
    decreases history.len(),
{
    if history.len() > 0 {
        let before = after_feedings(history.drop_last(), floors);
        law_memory_does_not_grow(history.drop_last(), floors);
        match history.last() {
            Feeding::Push(chunk) => {
                if chunk.len() > 0 {
                    lemma_push_leaves_two(before, chunk, floors);
                }
            },
            Feeding::Finish => lemma_finish_leaves_no_more(before, floors),
        }
    }
}

/// A window that starts later but ends alike gives the same neighbours from its start on.
proof fn lemma_later_window(later: Window, w: Window, last: bool)
    requires
        0 <= w.start <= later.start <= w.end(),
        later.samples == w.samples.skip(later.start - w.start),
    ensures
        forall|f: int|
            later.start <= f ==> #[trigger] later.pair_at(f, last) == w.pair_at(f, last),
{
    assert forall|f: int| later.start <= f implies #[trigger] later.pair_at(f, last) == w.pair_at(
        f,
        last,
    ) by {
        if f < later.end() {
            assert(later.samples[f - later.start] == w.samples[f - w.start]);
            if f + 1 < later.end() {
                assert(later.samples[f + 1 - later.start] == w.samples[f + 1 - w.start]);
            }
        }
    }
}

/// One push of two chunks put together does what a push of each does: the same neighbours come
/// out, and the same samples are kept.
#[verifier::spinoff_prover]
#[verifier::rlimit(30)]
pub proof fn law_two_pushes_are_one(p: Progress, a: Seq<u32>, b: Seq<u32>, floors: Seq<usize>)
    requires
        keeps_up(p, floors),
        positions_past(floors, (p.window.end() + a.len() + b.len()) as nat),
    ensures
        after_push(after_push(p, a, floors), b, floors) == after_push(p, a + b, floors),
{
    if a.len() == 0 {
        assert(a + b =~= b);
    } else if b.len() == 0 {
        assert(a + b =~= a);
    } else {
        let w1 = p.window.fed(a);
        let rest1 = floors.skip(p.used as int);
        let n1 = w1.ready(rest1, false);
        let q = after_push(p, a, floors);
        let w2 = q.window.fed(b);
        let rest2 = floors.skip(q.used as int);
        let n2 = w2.ready(rest2, false);
        let r = after_push(q, b, floors);
        let w = p.window.fed(a + b);
        let n = (n1 + n2) as int;
        lemma_ready_counts(w1, rest1, false);
        assert(rest1.last() == floors.last());
        assert(n1 < rest1.len());
        assert(rest1[n1 as int] == floors[q.used as int]);
        lemma_ready_counts(w2, rest2, false);
        assert(rest2.last() == floors.last());
        assert(n2 < rest2.len());
        assert(rest2[n2 as int] == floors[r.used as int]);
        assert(rest1[n] == floors[r.used as int]);
        assert(w.samples =~= w1.samples + b);
        assert(floors[p.used as int] <= floors[q.used as int] <= floors[r.used as int]);
        assert(w2.samples =~= w.samples.skip(w2.start - w.start));
        lemma_later_window(w2, w, false);
        assert forall|j: int| 0 <= j < n implies w.pair_at(
            #[trigger] rest1[j] as int,
            false,
        ) is Some by {
            if j < n1 {
                assert(w1.pair_at(rest1[j] as int, false) is Some);
            } else {
                assert(rest1[j] == rest2[j - n1]);
                assert(w2.pair_at(rest2[j - n1] as int, false) is Some);
            }
        }
        assert(w.pair_at(rest1[n] as int, false) is None);
        lemma_ready(w, rest1, false, n);
        let one = after_push(p, a + b, floors);
        assert forall|j: int| 0 <= j < n implies w.pairs(rest1, false)[j] == (w1.pairs(
            rest1,
            false,
        ) + w2.pairs(rest2, false))[j] by {
            if j < n1 {
                assert(w1.pair_at(rest1[j] as int, false) is Some);
            } else {
                assert(rest1[j] == rest2[j - n1]);
                assert(w2.pair_at(rest2[j - n1] as int, false) is Some);
            }
        }
        assert(w.pairs(rest1, false) =~= w1.pairs(rest1, false) + w2.pairs(rest2, false));
        assert(one.out =~= r.out);
        assert(one.window.samples =~= r.window.samples);
        assert(one.window.start == r.window.start);
    }
}

/// A stream ends once: a second `finish` hands nothing out and changes nothing.
pub proof fn law_second_finish_does_nothing(p: Progress, floors: Seq<usize>)
    requires
        keeps_up(p, floors),
        positions_past(floors, p.window.end() as nat),
    ensures
        after_finish(after_finish(p, floors), floors) == after_finish(p, floors),
{
    let rest = floors.skip(p.used as int);
    let n = p.window.ready(rest, true);
    lemma_ready_counts(p.window, rest, true);
    assert(rest.last() == floors.last());
    assert(n < rest.len());
    let q = after_finish(p, floors);
    assert(rest[n as int] == floors[q.used as int]);
    assert(floors[p.used as int] <= floors[q.used as int]);
    assert(q.window.end() == p.window.end());
    let again = floors.skip(q.used as int);
    assert(again[0] == floors[q.used as int]);
    assert(q.window.ready(again, true) == 0);
    let r = after_finish(q, floors);
    assert(r.out =~= q.out);
    assert(r.window.samples =~= q.window.samples);
}

/// Every output position inside the stream is served, in order and once, however the input was
/// cut: with the sample at that position and the one after it, and at the very end with the last
/// sample twice. Positions behind the stream are not served.
pub proof fn law_every_position_is_served(chunks: Seq<Seq<u32>>, floors: Seq<usize>, i: int)
    requires
        positions_past(floors, joined(chunks).len()),
    ensures
        ({
            let stream = joined(chunks);
            let out = after_finish(after_chunks(chunks, floors), floors).out;
            &&& out.len() < floors.len()
            &&& floors[out.len() as int] >= stream.len()
            &&& 0 <= i < out.len() ==> {
                let floor = floors[i] as int;
                &&& floor < stream.len()
                &&& out[i].0 == stream[floor]
                &&& floor + 1 < stream.len() ==> out[i].1 == stream[floor + 1]
                &&& floor + 1 == stream.len() ==> out[i].1 == stream[floor]
            }
        }),
{
    let stream = joined(chunks);
    law_session_resamples_the_whole_stream(chunks, floors);
    lemma_covered_counts(floors, stream.len() as int);
}

/// Pushes hand out all that they can: the positions that have a sample to their right, and no
/// others, each with its two neighbours in the stream so far.
pub proof fn law_pushes_do_not_hold_back(chunks: Seq<Seq<u32>>, floors: Seq<usize>, i: int)
    requires
        positions_past(floors, joined(chunks).len()),
    ensures
        ({
            let stream = joined(chunks);
            let out = after_chunks(chunks, floors).out;
            &&& out.len() < floors.len()
            &&& floors[out.len() as int] + 1 >= stream.len()
            &&& 0 <= i < out.len() ==> {
                let floor = floors[i] as int;
                &&& floor + 1 < stream.len()
                &&& out[i].0 == stream[floor]
                &&& out[i].1 == stream[floor + 1]
            }
        }),
{
    lemma_chunks_stay_on_track(chunks, floors);
    if 0 <= i < after_chunks(chunks, floors).out.len() {
        assert(served(after_chunks(chunks, floors), joined(chunks), floors, i));
    }
}

proof fn lemma_covered_counts(floors: Seq<usize>, limit: int)
    requires
        floors.len() > 0,
        floors.last() >= limit,
    ensures
        covered(floors, limit) < floors.len(),
        floors[covered(floors, limit) as int] >= limit,
        forall|i: int| 0 <= i < covered(floors, limit) ==> #[trigger] floors[i] < limit,
    decreases floors.len(),
{
    if floors[0] < limit {
        let rest = floors.drop_first();
        assert(floors.len() > 1);
        assert(rest.last() == floors.last());
        lemma_covered_counts(rest, limit);
        assert forall|i: int| 0 <= i < covered(floors, limit) implies #[trigger] floors[i] < limit by {
            if i > 0 {
                assert(rest[i - 1] == floors[i]);
            }
        }
    }
}

/// One push or finish, from any state, serves the positions in order up to the first one that
/// the window cannot serve: each position from the window's start on that has a right neighbour
/// in it and, at the end of the stream, the last sample too.
pub proof fn law_ready_positions(w: Window, floors: Seq<usize>, last: bool, i: int)
    requires
        floors.len() > 0,
        floors.last() >= w.end(),
    ensures
        ({
            let pairs = w.pairs(floors, last);
            &&& pairs.len() < floors.len()
            &&& 0 <= i < pairs.len() ==> {
                let floor = floors[i] as int;
                &&& w.start <= floor < w.end()
                &&& pairs[i].0 == w.samples[floor - w.start]
                &&& floor + 1 < w.end() ==> pairs[i].1 == w.samples[floor + 1 - w.start]
                &&& floor + 1 == w.end() ==> last && pairs[i].1 == pairs[i].0
            }
            &&& {
                let floor = floors[pairs.len() as int] as int;
                floor < w.start || floor >= w.end() || (floor + 1 == w.end() && !last)
            }
        }),
{
    lemma_ready_counts(w, floors, last);
    assert(w.pair_at(floors[floors.len() - 1] as int, last) is None);
    if 0 <= i < w.pairs(floors, last).len() {
        assert(w.pair_at(floors[i] as int, last) is Some);
    }
}

/// Trimming only drops samples that no later position needs: what is kept is the end of the
/// window, it still ends where it did, and it holds every sample from one before the next
/// position on. Feeding puts the new samples behind those held.
pub proof fn law_trimming_keeps_what_is_needed(w: Window, next: int, input: Seq<u32>, at: int)
    requires
        0 <= w.start,
        0 <= next,
    ensures
        w.trimmed(next).end() == w.end(),
        w.start <= w.trimmed(next).start,
        w.trimmed(next).start <= next || w.trimmed(next).start == w.start,
        w.start < w.trimmed(next).start ==> w.trimmed(next).start < next,
        w.trimmed(next).start >= next - 1 || w.trimmed(next).samples.len() == 0,
        w.trimmed(next).start <= at < w.end() ==> w.trimmed(next).samples[at - w.trimmed(
            next,
        ).start] == w.samples[at - w.start],
        w.start <= at < w.end() && at >= next - 1 ==> w.trimmed(next).start <= at,
        w.fed(input).start == w.start,
        w.fed(input).end() == w.end() + input.len(),
        w.start <= at < w.end() ==> w.fed(input).samples[at - w.start] == w.samples[at - w.start],
        0 <= at < input.len() ==> w.fed(input).samples[w.samples.len() + at] == input[at],
{
}

} // verus!
