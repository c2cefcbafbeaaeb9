//! Cutting a sequence of samples into pieces of a fixed length.

use vstd::prelude::*;
use vstd::slice::{slice_subrange, slice_to_vec};

verus! {

/// `s` cut from the front into pieces of length `n`; only the last piece may be shorter,
/// and no piece is empty.
pub open spec fn chunked(s: Seq<u32>, n: nat) -> Seq<Seq<u32>>
    decreases s.len(),
{
    if s.len() == 0 || n == 0 {
        Seq::empty()
    } else if s.len() <= n {
        seq![s]
    } else {
        seq![s.take(n as int)] + chunked(s.skip(n as int), n)
    }
}

/// The sequences that a list of vectors holds.
pub open spec fn nested(v: Seq<Vec<u32>>) -> Seq<Seq<u32>> {
    v.map_values(|x: Vec<u32>| x@)
}

/// The pieces put together again.
pub open spec fn joined(pieces: Seq<Seq<u32>>) -> Seq<u32>
    decreases pieces.len(),
{
    if pieces.len() == 0 {
        Seq::empty()
    } else {
        joined(pieces.drop_last()) + pieces.last()
    }
}

/// Cuts `s` into pieces of length `n`.
pub fn split_chunks(s: &[u32], n: usize) -> (res: Vec<Vec<u32>>)
    requires
        n > 0,
    ensures
        nested(res@) == chunked(s@, n as nat),
{
    let mut res: Vec<Vec<u32>> = Vec::new();
    let mut i: usize = 0;
    assert(s@.skip(0) =~= s@);
    assert(nested(res@) + chunked(s@.skip(0), n as nat) =~= chunked(s@, n as nat));
    while i < s.len()
        invariant
            n > 0,
            i <= s@.len(),
            nested(res@) + chunked(s@.skip(i as int), n as nat) == chunked(s@, n as nat),
        decreases s@.len() - i,
    {
        let rest: usize = s.len() - i;
        let take: usize = if rest < n {
            rest
        } else {
            n
        };
        let ghost before = nested(res@);
        let ghost tail = s@.skip(i as int);
        let piece: Vec<u32> = slice_to_vec(slice_subrange(s, i, i + take));
        res.push(piece);
        i += take;
        proof {
            assert(piece@ =~= tail.take(take as int));
            assert(nested(res@) =~= before.push(piece@));
            assert(s@.skip(i as int) =~= tail.skip(take as int));
            if rest <= n {
                assert(piece@ =~= tail);
                assert(chunked(s@.skip(i as int), n as nat) =~= Seq::empty());
                assert(before + seq![tail] =~= before.push(piece@) + Seq::empty());
            } else {
                let more = chunked(tail.skip(n as int), n as nat);
                assert(before + (seq![piece@] + more) =~= before.push(piece@) + more);
            }
        }
    }
    assert(chunked(s@.skip(i as int), n as nat) =~= Seq::empty());
    assert(nested(res@) =~= nested(res@) + chunked(s@.skip(i as int), n as nat));
    res
}

proof fn lemma_joined_cons(head: Seq<u32>, more: Seq<Seq<u32>>)
    ensures
        joined(seq![head] + more) == head + joined(more),
    decreases more.len(),
{
    let all = seq![head] + more;
    if more.len() == 0 {
        assert(all.drop_last() =~= Seq::empty());
        assert(joined(all.drop_last()) =~= Seq::empty());
        assert(joined(all) =~= head + joined(more));
    } else {
        assert(all.drop_last() =~= seq![head] + more.drop_last());
        lemma_joined_cons(head, more.drop_last());
        assert(joined(all) =~= head + joined(more));
    }
}

/// Cutting loses nothing: the pieces, put together in order, are the original samples.
pub proof fn law_chunks_join_to_the_whole(s: Seq<u32>, n: nat)
    requires
        n > 0,
    ensures
        joined(chunked(s, n)) == s,
    decreases s.len(),
{
    if s.len() == 0 {
        assert(joined(chunked(s, n)) =~= s);
    } else if s.len() <= n {
        reveal_with_fuel(joined, 2);
        assert(joined(chunked(s, n)) =~= s);
    } else {
        law_chunks_join_to_the_whole(s.skip(n as int), n);
        lemma_joined_cons(s.take(n as int), chunked(s.skip(n as int), n));
        assert(s.take(n as int) + s.skip(n as int) =~= s);
    }
}

/// Every piece holds between one and `n` samples, and exactly `n` unless it is the last.
pub proof fn law_chunk_sizes(s: Seq<u32>, n: nat, i: int)
    requires
        n > 0,
        0 <= i < chunked(s, n).len(),
    ensures
        1 <= chunked(s, n)[i].len() <= n,
        i + 1 < chunked(s, n).len() ==> chunked(s, n)[i].len() == n,
    decreases s.len(),
{
    if s.len() > n && i > 0 {
        law_chunk_sizes(s.skip(n as int), n, i - 1);
    }
}

/// Piece `i` holds the samples from position `n * i` on, up to the next piece or to the end.
pub proof fn law_pieces_in_place(s: Seq<u32>, n: nat, i: int)
    requires
        n > 0,
        0 <= i < chunked(s, n).len(),
    ensures
        0 <= n * i < s.len(),
        i + 1 < chunked(s, n).len() ==> n * i + n < s.len() && chunked(s, n)[i] == s.subrange(
            n * i,
            n * i + n,
        ),
        i + 1 == chunked(s, n).len() ==> chunked(s, n)[i] == s.skip(n * i) && s.len() - n * i <= n,
    decreases s.len(),
{
    let rest = s.skip(n as int);
    if s.len() <= n {
        assert(n * i == 0) by (nonlinear_arith)
            requires
                i == 0,
        ;
        assert(s.skip(0) =~= s);
    } else if i == 0 {
        assert(n * i == 0) by (nonlinear_arith)
            requires
                i == 0,
        ;
        assert(s.take(n as int) =~= s.subrange(0, n as int));
        if rest.len() <= n {
            assert(chunked(rest, n).len() == 1);
        }
    } else {
        law_pieces_in_place(rest, n, i - 1);
        assert(n * i == n * (i - 1) + n) by (nonlinear_arith);
        assert(chunked(s, n)[i] == chunked(rest, n)[i - 1]);
        assert(rest.skip(n * (i - 1)) =~= s.skip(n * i));
        if i + 1 < chunked(s, n).len() {
            assert(rest.subrange(n * (i - 1), n * (i - 1) + n) =~= s.subrange(n * i, n * i + n));
        }
    }
}

/// There are no more pieces than it takes: none for no samples, and otherwise so many that the
/// last one begins before the end of the samples and ends with it.
pub proof fn law_number_of_pieces(s: Seq<u32>, n: nat)
    requires
        n > 0,
    ensures
        chunked(s, n).len() == 0 <==> s.len() == 0,
        s.len() <= n * chunked(s, n).len() < s.len() + n,
    decreases s.len(),
{
    let k = chunked(s, n).len();
    if s.len() == 0 {
        assert(n * k == 0) by (nonlinear_arith)
            requires
                k == 0,
        ;
    } else if s.len() <= n {
        assert(n * k == n) by (nonlinear_arith)
            requires
                k == 1,
        ;
    } else {
        law_number_of_pieces(s.skip(n as int), n);
        let m = chunked(s.skip(n as int), n).len();
        assert(n * k == n * m + n) by (nonlinear_arith)
            requires
                k == m + 1,
        ;
    }
}

} // verus!
