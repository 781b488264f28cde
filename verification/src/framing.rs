//! Length-prefixed framing of secure tunneling messages on the websocket:
//! each encoded message is preceded by its length as a big-endian `u16`.
use vstd::prelude::*;

verus! {

/// A payload longer than a `u16` length prefix can describe.
#[derive(Debug, PartialEq, Eq)]
pub enum FrameError {
    TooLong { len: usize },
}

/// The frames read from `s`: while more than two bytes are left, a
/// big-endian `u16` length and then that many bytes (or all that is left,
/// when fewer remain).
pub open spec fn frames_of(s: Seq<u8>) -> Seq<Seq<u8>>
    decreases s.len(),
{
    if s.len() > 2 {
        let l = s[0] * 256 + s[1];
        let rest = s.skip(2);
        let n = if l <= rest.len() {
            l
        } else {
            rest.len() as int
        };
        seq![rest.take(n)] + frames_of(rest.skip(n))
    } else {
        seq![]
    }
}

/// A payload with its length prefix.
pub open spec fn frame_bytes(p: Seq<u8>) -> Seq<u8> {
    seq![(p.len() / 256) as u8, (p.len() % 256) as u8] + p
}

/// The framed payloads, one after the other.
pub open spec fn frames_bytes(ps: Seq<Seq<u8>>) -> Seq<u8>
    decreases ps.len(),
{
    if ps.len() == 0 {
        seq![]
    } else {
        frames_bytes(ps.drop_last()) + frame_bytes(ps.last())
    }
}

/// The payload length fits a `u16` length prefix.
pub open spec fn fits_prefix(p: Seq<u8>) -> bool {
    p.len() <= 65535
}

/// Splits received websocket data into the message frames it holds.
pub fn split_frames(data: &[u8]) -> (r: Vec<Vec<u8>>)
    ensures
        r@.map_values(|f: Vec<u8>| f@) == frames_of(data@),
{
    let mut out: Vec<Vec<u8>> = Vec::new();
    let mut pos: usize = 0;
    let len = data.len();
    assert(data@.skip(0) == data@);
    assert(out@.map_values(|f: Vec<u8>| f@) + frames_of(data@) =~= frames_of(data@));
    while len - pos > 2
        invariant
            pos <= len == data@.len(),
            frames_of(data@) == out@.map_values(|f: Vec<u8>| f@) + frames_of(data@.skip(pos as int)),
        decreases len - pos,
    {
        let ghost s = data@.skip(pos as int);
        let l: usize = (data[pos] as usize) * 256 + (data[pos + 1] as usize);
        let start = pos + 2;
        let n: usize = if l <= len - start {
            l
        } else {
            len - start
        };
        let mut frame: Vec<u8> = Vec::new();
        let mut k: usize = 0;
        while k < n
            invariant
                k <= n,
                start + n <= len == data@.len(),
                frame@ == data@.subrange(start as int, start + k),
            decreases n - k,
        {
            frame.push(data[start + k]);
            k = k + 1;
        }
        proof {
            assert(s[0] == data@[pos as int]);
            assert(s[1] == data@[pos + 1]);
            assert(s.skip(2) == data@.skip(start as int));
            assert(s.skip(2).take(n as int) == frame@);
            assert(s.skip(2).skip(n as int) == data@.skip(start + n));
        }
        let ghost before = out@.map_values(|f: Vec<u8>| f@);
        out.push(frame);
        pos = start + n;
        proof {
            assert(out@.map_values(|f: Vec<u8>| f@) =~= before.push(frame@));
            assert(before + frames_of(s) =~= out@.map_values(|f: Vec<u8>| f@) + frames_of(
                data@.skip(pos as int),
            ));
        }
    }
    proof {
        assert(data@.skip(pos as int).len() <= 2);
        assert(out@.map_values(|f: Vec<u8>| f@) + frames_of(data@.skip(pos as int)) =~= out@.map_values(
            |f: Vec<u8>| f@,
        ));
    }
    out
}

/// The error for a payload too long for its length prefix.
pub open spec fn too_long(p: Seq<u8>) -> FrameError {
    FrameError::TooLong { len: p.len() as usize }
}

pub open spec fn payload_views(v: Seq<Vec<u8>>) -> Seq<Seq<u8>> {
    v.map_values(|p: Vec<u8>| p@)
}

/// Every payload fits a length prefix.
pub open spec fn all_fit(ps: Seq<Seq<u8>>) -> bool {
    forall|i: int| 0 <= i < ps.len() ==> fits_prefix(#[trigger] ps[i])
}

/// `after` is `before` followed by the framed payloads that come before
/// the first one too long for a prefix, and `e` reports that one.
pub open spec fn stopped_at_first_too_long(
    ps: Seq<Seq<u8>>,
    before: Seq<u8>,
    after: Seq<u8>,
    e: FrameError,
) -> bool {
    exists|k: int|
        {
            &&& 0 <= k < ps.len()
            &&& !fits_prefix(#[trigger] ps[k])
            &&& forall|j: int| 0 <= j < k ==> fits_prefix(#[trigger] ps[j])
            &&& after == before + frames_bytes(ps.take(k))
            &&& e == too_long(ps[k])
        }
}

/// Appends one payload with its length prefix to `buf`; a payload longer
/// than `u16::MAX` bytes is refused and `buf` left as it was.
pub fn append_frame(buf: &mut Vec<u8>, payload: &[u8]) -> (r: Result<(), FrameError>)
    ensures
        r is Ok <==> fits_prefix(payload@),
        r matches Ok(_) ==> final(buf)@ == old(buf)@ + frame_bytes(payload@),
        r matches Err(e) ==> final(buf)@ == old(buf)@ && e == too_long(payload@),
{
    let n = payload.len();
    if n > 65535 {
        return Err(FrameError::TooLong { len: n });
    }
    buf.push((n / 256) as u8);
    buf.push((n % 256) as u8);
    let ghost head = buf@;
    for i in 0..n
        invariant
            n == payload@.len(),
            buf@ == head + payload@.take(i as int),
    {
        buf.push(payload[i]);
        assert(payload@.take(i + 1) == payload@.take(i as int).push(payload@[i as int]));
    }
    assert(payload@.take(n as int) == payload@);
    assert(buf@ =~= old(buf)@ + frame_bytes(payload@));
    Ok(())
}

/// Appends the payloads, each with its length prefix, to `buf`. At the
/// first payload too long for a prefix it stops with that error, having
/// appended the payloads before it.
pub fn append_frames(buf: &mut Vec<u8>, payloads: &Vec<Vec<u8>>) -> (r: Result<(), FrameError>)
    ensures
        r is Ok <==> all_fit(payload_views(payloads@)),
        r is Ok ==> final(buf)@ == old(buf)@ + frames_bytes(payload_views(payloads@)),
        r matches Err(e) ==> stopped_at_first_too_long(
            payload_views(payloads@),
            old(buf)@,
            final(buf)@,
            e,
        ),
{
    let ghost ps = payload_views(payloads@);
    for i in 0..payloads.len()
        invariant
            ps == payload_views(payloads@),
            forall|j: int| 0 <= j < i ==> fits_prefix(#[trigger] ps[j]),
            buf@ == old(buf)@ + frames_bytes(ps.take(i as int)),
    {
        let res = append_frame(buf, payloads[i].as_slice());
        match res {
            Ok(()) => {
                assert(ps.take(i + 1).drop_last() == ps.take(i as int));
                assert(buf@ =~= old(buf)@ + frames_bytes(ps.take(i + 1)));
            },
            Err(e) => {
                assert(stopped_at_first_too_long(ps, old(buf)@, buf@, e));
                return Err(e);
            },
        }
    }
    assert(ps.take(payloads.len() as int) == ps);
    Ok(())
}

proof fn lemma_frames_bytes_cons(p: Seq<u8>, ps: Seq<Seq<u8>>)
    ensures
        frames_bytes(seq![p] + ps) == frame_bytes(p) + frames_bytes(ps),
    decreases ps.len(),
{
    if ps.len() == 0 {
        assert(seq![p] + ps == seq![p]);
        assert(seq![p].drop_last() == Seq::<Seq<u8>>::empty());
        assert(frame_bytes(p) + frames_bytes(ps) =~= frame_bytes(p));
        assert(frames_bytes(seq![p]) =~= frames_bytes(Seq::<Seq<u8>>::empty()) + frame_bytes(p));
    } else {
        lemma_frames_bytes_cons(p, ps.drop_last());
        assert((seq![p] + ps).drop_last() == seq![p] + ps.drop_last());
        assert((seq![p] + ps).last() == ps.last());
        assert(frames_bytes(seq![p] + ps) =~= frame_bytes(p) + frames_bytes(ps));
    }
}

/// Splitting what framing wrote gives back the payloads, provided each fits
/// a length prefix and the last one is not empty (an empty last frame is
/// only two bytes, which the reader does not take for a frame).
pub proof fn lemma_split_after_frames(ps: Seq<Seq<u8>>)
    requires
        forall|i: int| 0 <= i < ps.len() ==> fits_prefix(#[trigger] ps[i]),
        ps.len() > 0 ==> ps.last().len() > 0,
    ensures
        frames_of(frames_bytes(ps)) == ps,
    decreases ps.len(),
{
    if ps.len() == 0 {
        assert(frames_of(frames_bytes(ps)) =~= ps);
    } else {
        let p = ps[0];
        let tail = ps.drop_first();
        assert(ps == seq![p] + tail);
        lemma_frames_bytes_cons(p, tail);
        assert forall|i: int| 0 <= i < tail.len() implies fits_prefix(#[trigger] tail[i]) by {
            assert(tail[i] == ps[i + 1]);
        }
        if tail.len() > 0 {
            assert(tail.last() == ps.last());
        }
        lemma_split_after_frames(tail);
        let s = frames_bytes(ps);
        let rest = frames_bytes(tail);
        assert(s == frame_bytes(p) + rest);
        assert(s.len() > 2) by {
            if tail.len() == 0 {
                assert(p.len() > 0);
            } else {
                lemma_frames_bytes_nonempty(tail);
            }
        }
        let l = p.len();
        assert(s[0] == (l / 256) as u8);
        assert(s[1] == (l % 256) as u8);
        assert(s[0] * 256 + s[1] == l) by {
            assert(l <= 65535);
        }
        assert(s.skip(2) =~= p + rest);
        assert(s.skip(2).take(l as int) =~= p);
        assert(s.skip(2).skip(l as int) =~= rest);
        assert(frames_of(s) =~= seq![p] + tail);
    }
}

proof fn lemma_frames_bytes_nonempty(ps: Seq<Seq<u8>>)
    requires
        ps.len() > 0,
    ensures
        frames_bytes(ps).len() >= 2,
    decreases ps.len(),
{
    if ps.len() > 1 {
        lemma_frames_bytes_nonempty(ps.drop_last());
    }
}

} // verus!
