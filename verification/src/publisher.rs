//! What a publisher sends: static files cut into frames, and groups of
//! synthetic frames.

use vstd::prelude::*;

use crate::buffers::{bytes_content, bytes_copy_from_slice, contents_of};
use crate::generator::{payload, FrameGenerator};

verus! {

/// The largest frame a static file is cut into for a frame size option of
/// `frame_size`: at least one byte.
pub open spec fn chunk_limit(frame_size: usize) -> nat {
    if frame_size == 0 {
        1
    } else {
        frame_size as nat
    }
}

/// `data` cut into consecutive pieces of `limit` bytes, the last one possibly
/// shorter; no pieces for empty data.
pub open spec fn chunks(data: Seq<u8>, limit: nat) -> Seq<Seq<u8>>
    recommends
        limit > 0,
    decreases data.len(),
{
    if data.len() == 0 || limit == 0 {
        seq![]
    } else if data.len() <= limit {
        seq![data]
    } else {
        seq![data.take(limit as int)] + chunks(data.skip(limit as int), limit)
    }
}

/// The pieces of `pieces` joined end to end.
pub open spec fn joined(pieces: Seq<Seq<u8>>) -> Seq<u8>
    decreases pieces.len(),
{
    if pieces.len() == 0 {
        seq![]
    } else {
        pieces[0] + joined(pieces.drop_first())
    }
}

/// Cutting data into frames loses and reorders nothing: the frames joined end
/// to end are the data, each frame holds between one and `limit` bytes, and
/// only the last may be shorter than `limit`.
pub proof fn lemma_chunks_cover(data: Seq<u8>, limit: nat)
    requires
        limit > 0,
    ensures
        joined(chunks(data, limit)) == data,
        forall|i: int|
            0 <= i < chunks(data, limit).len() ==> 0 < (#[trigger] chunks(data, limit)[i]).len()
                <= limit,
        forall|i: int|
            0 <= i < chunks(data, limit).len() - 1 ==> (#[trigger] chunks(data, limit)[i]).len()
                == limit,
    decreases data.len(),
{
    if data.len() == 0 {
    } else if data.len() <= limit {
        assert(chunks(data, limit) =~= seq![data]);
        assert(joined(seq![data].drop_first()) =~= Seq::<u8>::empty());
        assert(joined(seq![data]) =~= data);
    } else {
        let rest = data.skip(limit as int);
        lemma_chunks_cover(rest, limit);
        let c = chunks(data, limit);
        assert(c.drop_first() =~= chunks(rest, limit));
        assert(data =~= data.take(limit as int) + rest);
        assert forall|i: int| 0 <= i < c.len() implies 0 < (#[trigger] c[i]).len() <= limit by {
            if i > 0 {
                assert(c[i] == chunks(rest, limit)[i - 1]);
            }
        }
        assert forall|i: int| 0 <= i < c.len() - 1 implies (#[trigger] c[i]).len() == limit by {
            if i > 0 {
                assert(c[i] == chunks(rest, limit)[i - 1]);
            }
        }
    }
}

proof fn lemma_chunks_count(data: Seq<u8>, limit: nat)
    requires
        limit > 0,
    ensures
        chunks(data, limit).len() == (data.len() + limit - 1) / (limit as int),
    decreases data.len(),
{
    if data.len() == 0 {
        assert((limit - 1) / (limit as int) == 0) by (nonlinear_arith)
            requires
                limit > 0,
        ;
    } else if data.len() <= limit {
        assert((data.len() + limit - 1) / (limit as int) == 1) by (nonlinear_arith)
            requires
                limit > 0,
                0 < data.len() <= limit,
        ;
    } else {
        let rest = data.skip(limit as int);
        lemma_chunks_count(rest, limit);
        let n = data.len() as int;
        let l = limit as int;
        assert((n + l - 1) / l == (n - l + l - 1) / l + 1) by (nonlinear_arith)
            requires
                l > 0,
                n > l,
        ;
    }
}

/// A static file is cut into frames of exactly the frame size option when it
/// is not zero (and of one byte when it is): every frame but the last holds
/// that many bytes, the last holds between one and that many, and there are
/// `ceil(len / size)` frames.
pub proof fn lemma_split_frame_sizes(data: Seq<u8>, frame_size: usize)
    ensures
        ({
            let size: int = if frame_size == 0 {
                1
            } else {
                frame_size as int
            };
            let c = chunks(data, chunk_limit(frame_size));
            &&& c.len() == (data.len() + size - 1) / size
            &&& forall|i: int| 0 <= i < c.len() - 1 ==> (#[trigger] c[i]).len() == size
            &&& forall|i: int| 0 <= i < c.len() ==> 0 < (#[trigger] c[i]).len() <= size
            &&& joined(c) == data
        }),
{
    lemma_chunks_cover(data, chunk_limit(frame_size));
    lemma_chunks_count(data, chunk_limit(frame_size));
}

proof fn lemma_chunks_step(data: Seq<u8>, limit: nat, start: int, end: int)
    requires
        limit > 0,
        0 <= start < end <= data.len(),
        end == (if data.len() - start <= limit {
            data.len() as int
        } else {
            start + limit
        }),
    ensures
        chunks(data.skip(start), limit) == seq![data.subrange(start, end)] + chunks(
            data.skip(end),
            limit,
        ),
{
    let d = data.skip(start);
    if d.len() <= limit {
        assert(data.skip(end).len() == 0);
        assert(chunks(data.skip(end), limit) =~= Seq::<Seq<u8>>::empty());
        assert(d =~= data.subrange(start, end));
        assert(seq![data.subrange(start, end)] + Seq::<Seq<u8>>::empty() =~= seq![
            data.subrange(start, end),
        ]);
    } else {
        assert(d.take(limit as int) =~= data.subrange(start, end));
        assert(d.skip(limit as int) =~= data.skip(end));
    }
}

/// Cuts the content of a static file into the frames of one group: pieces of
/// `frame_size` bytes (at least one), in order, the last possibly shorter.
pub fn split_frames(data: &[u8], frame_size: usize) -> (frames: Vec<bytes::Bytes>)
    ensures
        contents_of(frames@) == chunks(data@, chunk_limit(frame_size)),
{
    let limit: usize = if frame_size == 0 {
        1
    } else {
        frame_size
    };
    let len = data.len();
    let mut frames: Vec<bytes::Bytes> = Vec::new();
    let mut start: usize = 0;
    assert(data@.skip(0) =~= data@);
    while start < len
        invariant
            limit as nat == chunk_limit(frame_size),
            limit > 0,
            len == data@.len(),
            start <= len,
            contents_of(frames@) + chunks(data@.skip(start as int), limit as nat) == chunks(
                data@,
                limit as nat,
            ),
        decreases len - start,
    {
        let end: usize = if len - start <= limit {
            len
        } else {
            start + limit
        };
        proof {
            lemma_chunks_step(data@, limit as nat, start as int, end as int);
        }
        let frame = bytes_copy_from_slice(&data[start..end]);
        let ghost before = contents_of(frames@);
        frames.push(frame);
        assert(contents_of(frames@) =~= before.push(data@.subrange(start as int, end as int)));
        assert(contents_of(frames@) + chunks(data@.skip(end as int), limit as nat) =~= before
            + chunks(data@.skip(start as int), limit as nat));
        start = end;
    }
    assert(data@.skip(len as int).len() == 0);
    assert(contents_of(frames@) =~= contents_of(frames@) + chunks(
        data@.skip(len as int),
        limit as nat,
    ));
    frames
}

impl FrameGenerator {
    /// Produces the `n` frames of one synthetic group, numbered on from the
    /// current frame number, and advances the frame number by `n`.
    pub fn generate_group(&mut self, n: usize) -> (frames: Vec<bytes::Bytes>)
        requires
            old(self).count() + n <= u64::MAX,
        ensures
            frames@.len() == n,
            forall|i: int|
                0 <= i < n ==> bytes_content(#[trigger] frames@[i]) == payload(
                    old(self).frame_size() as nat,
                    old(self).fill(),
                    (old(self).count() + i) as u64,
                ),
            final(self).count() == old(self).count() + n,
            final(self).frame_size() == old(self).frame_size(),
            final(self).fill() == old(self).fill(),
    {
        let mut frames: Vec<bytes::Bytes> = Vec::new();
        let mut i: usize = 0;
        while i < n
            invariant
                i <= n,
                frames@.len() == i,
                self.count() == old(self).count() + i,
                old(self).count() + n <= u64::MAX,
                self.frame_size() == old(self).frame_size(),
                self.fill() == old(self).fill(),
                forall|j: int|
                    0 <= j < i ==> bytes_content(#[trigger] frames@[j]) == payload(
                        old(self).frame_size() as nat,
                        old(self).fill(),
                        (old(self).count() + j) as u64,
                    ),
            decreases n - i,
        {
            let frame = self.generate();
            frames.push(frame);
            i = i + 1;
        }
        frames
    }
}

} // verus!
