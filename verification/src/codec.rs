//! The canonical wire encoding.
//!
//! Every message is an ordered sequence of byte blocks, each written as an
//! eight-byte little-endian length followed by the block itself.  The
//! encoding is canonical: a byte string decodes to at most one block
//! sequence of a given arity, and a successful decode re-encodes to exactly
//! the input; truncated or padded input is rejected.
//!
//! The blocks carry no tags, so swapping two fields of one message yields
//! the valid encoding of a different record of the same shape; no decoder
//! can tell the two apart.  What fixes each field's meaning is the
//! canonical field order itself, which the protocol signs and feeds to the
//! circuits in that order: a reordered message decodes, but its signature
//! check fails rather than its parse.

use vstd::prelude::*;

verus! {

use crate::bytes::{
    le_nat,
    le_range_to_u64,
    lemma_le_nat_bound,
    lemma_u64_le_seq,
    lemma_u64_le_seq_complete,
    push_u64_le,
    sub_vec,
    u64_le_seq,
};

/// One block on the wire: its length, then its bytes.
pub open spec fn blob_enc(b: Seq<u8>) -> Seq<u8> {
    u64_le_seq(b.len() as u64) + b
}

/// A block sequence on the wire: each block in order.
pub open spec fn blocks_enc(bs: Seq<Seq<u8>>) -> Seq<u8>
    decreases bs.len(),
{
    if bs.len() == 0 {
        Seq::empty()
    } else {
        blob_enc(bs[0]) + blocks_enc(bs.drop_first())
    }
}

/// Block sequences whose lengths the eight-byte prefix can spell.
pub open spec fn wf_blocks(bs: Seq<Seq<u8>>) -> bool {
    forall|i: int| 0 <= i < bs.len() ==> #[trigger] bs[i].len() <= u64::MAX
}

/// Append the encoding of one block.
pub fn push_blob(out: &mut Vec<u8>, b: &Vec<u8>)
    ensures
        final(out)@ == old(out)@ + blob_enc(b@),
{
    push_u64_le(out, b.len() as u64);
    out.extend_from_slice(b.as_slice());
    proof {
        assert(out@ =~= old(out)@ + blob_enc(b@));
    }
}

/// Read one block at position `i`.  Succeeds exactly when a whole block
/// starts there, and returns it with the position just after it.
pub fn read_blob(buf: &Vec<u8>, i: usize) -> (r: Option<(Vec<u8>, usize)>)
    requires
        i <= buf@.len(),
    ensures
        match r {
            Some(p) => {
                &&& i + 8 <= buf@.len()
                &&& p.1 == i + 8 + p.0@.len()
                &&& i <= p.1 <= buf@.len()
                &&& p.0@ == buf@.subrange(i + 8, p.1 as int)
                &&& buf@.subrange(i as int, p.1 as int) == blob_enc(p.0@)
            },
            None => i + 8 > buf@.len() || i + 8 + le_nat(buf@.subrange(i as int, i + 8))
                > buf@.len(),
        },
{
    if buf.len() - i < 8 {
        return None;
    }
    proof {
        let pre = buf@.subrange(i as int, i + 8);
        lemma_le_nat_bound(pre);
        crate::bytes::lemma_pow256_words();
        assert(le_nat(pre) <= u64::MAX);
    }
    let n64 = le_range_to_u64(buf, i, i + 8);
    let avail = buf.len() - i - 8;
    if n64 > avail as u64 {
        return None;
    }
    let n = n64 as usize;
    let j = i + 8 + n;
    let b = sub_vec(buf, i + 8, j);
    proof {
        let pre = buf@.subrange(i as int, i + 8);
        lemma_u64_le_seq_complete(pre, n64);
        assert(buf@.subrange(i as int, j as int) =~= pre + b@);
        assert(buf@.subrange(i as int, j as int) == blob_enc(b@));
    }
    Some((b, j))
}

/// Encode a block sequence.
pub fn encode_blocks(blocks: &Vec<Vec<u8>>) -> (r: Vec<u8>)
    ensures
        r@ == blocks_enc(blocks.deep_view()),
{
    let mut out: Vec<u8> = Vec::new();
    let mut i: usize = 0;
    proof {
        assert(blocks.deep_view().take(0) =~= Seq::<Seq<u8>>::empty());
    }
    while i < blocks.len()
        invariant
            i <= blocks@.len(),
            out@ == blocks_enc(blocks.deep_view().take(i as int)),
        decreases blocks@.len() - i,
    {
        push_blob(&mut out, &blocks[i]);
        proof {
            lemma_blocks_enc_snoc(blocks.deep_view().take(i as int), blocks.deep_view()[i as int]);
            assert(blocks.deep_view().take(i + 1) =~= blocks.deep_view().take(i as int).push(
                blocks.deep_view()[i as int],
            ));
        }
        i = i + 1;
    }
    proof {
        assert(blocks.deep_view().take(i as int) =~= blocks.deep_view());
    }
    out
}

proof fn lemma_blocks_enc_snoc(bs: Seq<Seq<u8>>, b: Seq<u8>)
    ensures
        blocks_enc(bs.push(b)) == blocks_enc(bs) + blob_enc(b),
    decreases bs.len(),
{
    if bs.len() == 0 {
        assert(bs.push(b).drop_first() =~= Seq::<Seq<u8>>::empty());
        assert(bs.push(b)[0] == b);
        assert(blocks_enc(Seq::<Seq<u8>>::empty()) == Seq::<u8>::empty());
        assert(blocks_enc(bs.push(b)) == blob_enc(b) + Seq::<u8>::empty());
        assert(blob_enc(b) + Seq::<u8>::empty() =~= blob_enc(b));
        assert(blocks_enc(bs) + blob_enc(b) =~= blob_enc(b));
    } else {
        assert(bs.push(b).drop_first() =~= bs.drop_first().push(b));
        lemma_blocks_enc_snoc(bs.drop_first(), b);
        assert(blocks_enc(bs.push(b)) == blob_enc(bs[0]) + (blocks_enc(bs.drop_first())
            + blob_enc(b)));
        assert(blob_enc(bs[0]) + (blocks_enc(bs.drop_first()) + blob_enc(b)) =~= (blob_enc(bs[0])
            + blocks_enc(bs.drop_first())) + blob_enc(b));
    }
}

/// If two concatenations are equal and the first parts have one length,
/// both parts agree.
proof fn lemma_concat_cancel(x: Seq<u8>, y: Seq<u8>, a: Seq<u8>, b: Seq<u8>)
    requires
        x + y == a + b,
        x.len() == a.len(),
    ensures
        x == a,
        y == b,
{
    assert(x =~= (x + y).take(x.len() as int));
    assert(a =~= (a + b).take(a.len() as int));
    assert(y =~= (x + y).skip(x.len() as int));
    assert(b =~= (a + b).skip(a.len() as int));
}

/// A block sequence is determined by its encoding and its arity.
pub proof fn lemma_blocks_enc_injective(a: Seq<Seq<u8>>, b: Seq<Seq<u8>>)
    requires
        a.len() == b.len(),
        wf_blocks(a),
        wf_blocks(b),
        blocks_enc(a) == blocks_enc(b),
    ensures
        a == b,
    decreases a.len(),
{
    if a.len() > 0 {
        let pa = blob_enc(a[0]);
        let pb = blob_enc(b[0]);
        lemma_u64_le_seq(a[0].len() as u64);
        lemma_u64_le_seq(b[0].len() as u64);
        assert(pa.take(8) =~= u64_le_seq(a[0].len() as u64));
        assert(pb.take(8) =~= u64_le_seq(b[0].len() as u64));
        assert(blocks_enc(a).take(8) =~= pa.take(8));
        assert(blocks_enc(b).take(8) =~= pb.take(8));
        assert(le_nat(u64_le_seq(a[0].len() as u64)) == le_nat(u64_le_seq(b[0].len() as u64)));
        assert(a[0].len() == b[0].len());
        lemma_concat_cancel(pa, blocks_enc(a.drop_first()), pb, blocks_enc(b.drop_first()));
        lemma_concat_cancel(u64_le_seq(a[0].len() as u64), a[0], u64_le_seq(b[0].len() as u64), b[0]);
        assert(wf_blocks(a.drop_first())) by {
            assert(forall|i: int| 0 <= i < a.drop_first().len() ==> #[trigger] a.drop_first()[i]
                == a[i + 1]);
        }
        assert(wf_blocks(b.drop_first())) by {
            assert(forall|i: int| 0 <= i < b.drop_first().len() ==> #[trigger] b.drop_first()[i]
                == b[i + 1]);
        }
        lemma_blocks_enc_injective(a.drop_first(), b.drop_first());
        assert forall|t: int| 0 <= t < a.len() implies a[t] == b[t] by {
            if t > 0 {
                assert(a[t] == a.drop_first()[t - 1]);
                assert(b[t] == b.drop_first()[t - 1]);
            }
        }
        assert(a =~= b);
    } else {
        assert(a =~= b);
    }
}

/// Decode exactly `count` blocks from `buf[i..]`.  Succeeds exactly when
/// the bytes are the encoding of some `count`-block sequence, and then
/// returns that sequence.
pub fn decode_blocks_from(buf: &Vec<u8>, i: usize, count: usize) -> (r: Option<Vec<Vec<u8>>>)
    requires
        i <= buf@.len(),
    ensures
        match r {
            Some(bs) => {
                &&& bs@.len() == count
                &&& wf_blocks(bs.deep_view())
                &&& blocks_enc(bs.deep_view()) == buf@.subrange(i as int, buf@.len() as int)
            },
            None => forall|s: Seq<Seq<u8>>|
                s.len() == count && wf_blocks(s) ==> blocks_enc(s) != buf@.subrange(
                    i as int,
                    buf@.len() as int,
                ),
        },
    decreases count,
{
    let ghost tail = buf@.subrange(i as int, buf@.len() as int);
    if count == 0 {
        if i == buf.len() {
            let empty: Vec<Vec<u8>> = Vec::new();
            proof {
                assert(empty.deep_view() =~= Seq::<Seq<u8>>::empty());
                assert(tail =~= Seq::<u8>::empty());
            }
            return Some(empty);
        } else {
            proof {
                assert(tail.len() > 0);
            }
            return None;
        }
    }
    let first = read_blob(buf, i);
    match first {
        None => {
            proof {
                assert forall|s: Seq<Seq<u8>>| s.len() == count && wf_blocks(s) implies blocks_enc(
                    s,
                ) != tail by {
                    if blocks_enc(s) == tail {
                        lemma_u64_le_seq(s[0].len() as u64);
                        assert(blob_enc(s[0]).len() == 8 + s[0].len());
                        assert(tail.len() >= 8 + s[0].len());
                        assert(tail.take(8) =~= u64_le_seq(s[0].len() as u64));
                        assert(buf@.subrange(i as int, i + 8) =~= tail.take(8));
                        assert(le_nat(buf@.subrange(i as int, i + 8)) == s[0].len());
                        assert(i + 8 + le_nat(buf@.subrange(i as int, i + 8)) <= buf@.len());
                        assert(false);
                    }
                }
            }
            None
        },
        Some((b, j)) => {
            let rest = decode_blocks_from(buf, j, count - 1);
            match rest {
                None => {
                    proof {
                        let rest_tail = buf@.subrange(j as int, buf@.len() as int);
                        assert forall|s: Seq<Seq<u8>>|
                            s.len() == count && wf_blocks(s) implies blocks_enc(s) != tail by {
                            if blocks_enc(s) == tail {
                                lemma_u64_le_seq(s[0].len() as u64);
                                lemma_u64_le_seq(b@.len() as u64);
                                assert(tail.take(8) =~= u64_le_seq(s[0].len() as u64));
                                assert(blob_enc(b@).take(8) =~= u64_le_seq(b@.len() as u64));
                                assert(tail.take(8) =~= buf@.subrange(i as int, i + 8));
                                assert(blob_enc(b@).take(8) =~= buf@.subrange(i as int, i + 8));
                                assert(b@.len() <= u64::MAX);
                                assert(s[0].len() == b@.len());
                                assert(tail =~= buf@.subrange(i as int, j as int) + rest_tail);
                                assert(blob_enc(s[0]).len() == 8 + s[0].len());
                                assert(blob_enc(b@).len() == 8 + b@.len());
                                lemma_concat_cancel(
                                    blob_enc(s[0]),
                                    blocks_enc(s.drop_first()),
                                    blob_enc(b@),
                                    rest_tail,
                                );
                                assert(s.drop_first().len() == count - 1);
                                assert(wf_blocks(s.drop_first())) by {
                                    assert(forall|t: int|
                                        0 <= t < s.drop_first().len()
                                            ==> #[trigger] s.drop_first()[t] == s[t + 1]);
                                }
                                assert(false);
                            }
                        }
                    }
                    None
                },
                Some(mut bs) => {
                    let ghost pre = bs.deep_view();
                    bs.insert(0, b);
                    proof {
                        assert(b@.len() <= u64::MAX);
                        assert(bs.deep_view()[0] == b@);
                        assert forall|t: int|
                            0 <= t < pre.len() implies bs.deep_view().drop_first()[t] == pre[t]
                        by {
                            assert(bs@[t + 1] == bs@.subrange(1, bs@.len() as int)[t]);
                        }
                        assert(bs.deep_view().drop_first() =~= pre);
                        assert(blocks_enc(bs.deep_view()) == blob_enc(b@) + blocks_enc(pre));
                        assert(blob_enc(b@) + buf@.subrange(j as int, buf@.len() as int) =~= tail);
                        assert(wf_blocks(bs.deep_view())) by {
                            assert forall|t: int|
                                0 <= t < bs.deep_view().len() implies #[trigger] bs.deep_view()[t].len()
                                <= u64::MAX by {
                                if t > 0 {
                                    assert(bs.deep_view()[t] == bs.deep_view().drop_first()[t - 1]);
                                }
                            }
                        }
                    }
                    Some(bs)
                },
            }
        },
    }
}

/// Whether two byte vectors hold the same bytes.
pub fn bytes_eq(a: &Vec<u8>, b: &Vec<u8>) -> (r: bool)
    ensures
        r == (a@ == b@),
{
    if a.len() != b.len() {
        return false;
    }
    let mut i: usize = 0;
    while i < a.len()
        invariant
            i <= a@.len(),
            a@.len() == b@.len(),
            forall|t: int| 0 <= t < i ==> a@[t] == b@[t],
        decreases a@.len() - i,
    {
        if a[i] != b[i] {
            return false;
        }
        i = i + 1;
    }
    proof {
        assert(a@ =~= b@);
    }
    true
}

/// A new block sequence with `head` in front of `rest`.
pub fn prepend_block(head: &Vec<u8>, rest: &Vec<Vec<u8>>) -> (r: Vec<Vec<u8>>)
    ensures
        r.deep_view() == seq![head@] + rest.deep_view(),
{
    let mut r: Vec<Vec<u8>> = Vec::new();
    r.push(clone_bytes(head));
    let mut i: usize = 0;
    while i < rest.len()
        invariant
            i <= rest@.len(),
            r@.len() == 1 + i,
            r@[0]@ == head@,
            forall|t: int| 0 <= t < i ==> #[trigger] r@[1 + t]@ == rest@[t]@,
        decreases rest@.len() - i,
    {
        r.push(clone_bytes(&rest[i]));
        i = i + 1;
    }
    proof {
        let want = seq![head@] + rest.deep_view();
        assert forall|t: int| 0 <= t < r@.len() implies r.deep_view()[t] == want[t] by {
            if t >= 1 {
                assert(r@[1 + (t - 1)]@ == rest@[t - 1]@);
            }
        }
        assert(r.deep_view() =~= want);
    }
    r
}

/// A copy of a byte vector.
pub fn clone_bytes(v: &Vec<u8>) -> (r: Vec<u8>)
    ensures
        r@ == v@,
{
    let mut r: Vec<u8> = Vec::new();
    r.extend_from_slice(v.as_slice());
    proof {
        assert(r@ =~= v@);
    }
    r
}

/// Remove and return the last block of a decoded sequence.
pub fn pop_block(bs: &mut Vec<Vec<u8>>) -> (r: Vec<u8>)
    requires
        old(bs)@.len() > 0,
    ensures
        r@ == old(bs)@[old(bs)@.len() - 1]@,
        final(bs)@ == old(bs)@.drop_last(),
{
    match bs.pop() {
        Some(b) => b,
        None => unreached(),
    }
}

/// Decode a whole buffer as exactly `count` blocks.
pub fn decode_blocks(buf: &Vec<u8>, count: usize) -> (r: Option<Vec<Vec<u8>>>)
    ensures
        match r {
            Some(bs) => {
                &&& bs@.len() == count
                &&& wf_blocks(bs.deep_view())
                &&& blocks_enc(bs.deep_view()) == buf@
            },
            None => forall|s: Seq<Seq<u8>>|
                s.len() == count && wf_blocks(s) ==> blocks_enc(s) != buf@,
        },
{
    let r = decode_blocks_from(buf, 0, count);
    proof {
        assert(buf@.subrange(0, buf@.len() as int) =~= buf@);
    }
    r
}

} // verus!
