use vstd::prelude::*;

verus! {

/// The contents of a list of buffers, one sequence per buffer.
pub open spec fn iov_view(bufs: Seq<Vec<u8>>) -> Seq<Seq<u8>> {
    bufs.map_values(|b: Vec<u8>| b@)
}

/// The bytes of a list of buffers, one buffer after the other.
pub open spec fn iov_bytes(bufs: Seq<Vec<u8>>) -> Seq<u8> {
    iov_view(bufs).flatten()
}

/// How many bytes a list of buffers holds in all.
pub open spec fn iov_capacity(bufs: Seq<Vec<u8>>) -> nat {
    iov_bytes(bufs).len()
}

/// Whether two lists of buffers have the same number of buffers, each of the
/// same length.
pub open spec fn same_shape(a: Seq<Vec<u8>>, b: Seq<Vec<u8>>) -> bool {
    a.len() == b.len() && forall|i: int| 0 <= i < a.len() ==> #[trigger] a[i]@.len() == b[i]@.len()
}

proof fn lemma_view_take_step(bufs: Seq<Vec<u8>>, i: int)
    requires
        0 <= i < bufs.len(),
    ensures
        iov_view(bufs.take(i + 1)).flatten_alt() == iov_view(bufs.take(i)).flatten_alt()
            + bufs[i]@,
{
    let v = iov_view(bufs.take(i + 1));
    assert(v.drop_last() =~= iov_view(bufs.take(i)));
    assert(v.last() == bufs[i]@);
}

proof fn lemma_prefix_len_le(bufs: Seq<Vec<u8>>, i: int)
    requires
        0 <= i <= bufs.len(),
    ensures
        iov_view(bufs.take(i)).flatten_alt().len() <= iov_view(bufs).flatten_alt().len(),
    decreases bufs.len() - i,
{
    if i < bufs.len() {
        lemma_view_take_step(bufs, i);
        lemma_prefix_len_le(bufs, i + 1);
    } else {
        assert(bufs.take(i) =~= bufs);
    }
}

proof fn lemma_full_bytes(bufs: Seq<Vec<u8>>)
    ensures
        iov_bytes(bufs) == iov_view(bufs.take(bufs.len() as int)).flatten_alt(),
{
    assert(bufs.take(bufs.len() as int) =~= bufs);
    iov_view(bufs).lemma_flatten_and_flatten_alt_are_equivalent();
}

/// The bytes of all buffers, one after the other.
pub fn gather(bufs: &Vec<Vec<u8>>) -> (r: Vec<u8>)
    ensures
        r@ == iov_bytes(bufs@),
{
    let mut r: Vec<u8> = Vec::new();
    let mut i: usize = 0;
    while i < bufs.len()
        invariant
            i <= bufs@.len(),
            r@ == iov_view(bufs@.take(i as int)).flatten_alt(),
        decreases bufs@.len() - i,
    {
        let b = &bufs[i];
        let mut j: usize = 0;
        let ghost start = r@;
        while j < b.len()
            invariant
                j <= b@.len(),
                b == bufs@[i as int],
                i < bufs@.len(),
                r@ == start + b@.take(j as int),
            decreases b@.len() - j,
        {
            r.push(b[j]);
            j = j + 1;
            assert(r@ =~= start + b@.take(j as int));
        }
        assert(b@.take(j as int) =~= b@);
        proof {
            lemma_view_take_step(bufs@, i as int);
        }
        i = i + 1;
    }
    proof {
        lemma_full_bytes(bufs@);
    }
    r
}

/// How many bytes the buffers hold in all, or `usize::MAX` where that is
/// more.
pub fn capacity(bufs: &Vec<Vec<u8>>) -> (r: usize)
    ensures
        r == vstd::math::min(iov_capacity(bufs@) as int, usize::MAX as int),
{
    let mut total: usize = 0;
    let mut i: usize = 0;
    while i < bufs.len()
        invariant
            i <= bufs@.len(),
            total == vstd::math::min(
                iov_view(bufs@.take(i as int)).flatten_alt().len() as int,
                usize::MAX as int,
            ),
        decreases bufs@.len() - i,
    {
        proof {
            lemma_view_take_step(bufs@, i as int);
        }
        total = total.saturating_add(bufs[i].len());
        i = i + 1;
    }
    proof {
        lemma_full_bytes(bufs@);
    }
    total
}

/// Writes `data` over the front of the buffers, across buffer boundaries,
/// and leaves the bytes after it as they were.
pub fn scatter(bufs: &mut Vec<Vec<u8>>, data: &[u8])
    requires
        data@.len() <= iov_capacity(old(bufs)@),
    ensures
        same_shape(final(bufs)@, old(bufs)@),
        iov_bytes(final(bufs)@) == data@ + iov_bytes(old(bufs)@).skip(data@.len() as int),
{
    let old_bytes = gather(bufs);
    let mut combined: Vec<u8> = Vec::new();
    let mut k: usize = 0;
    while k < old_bytes.len()
        invariant
            k <= old_bytes@.len(),
            data@.len() <= old_bytes@.len(),
            combined@ == (data@ + old_bytes@.skip(data@.len() as int)).take(k as int),
        decreases old_bytes@.len() - k,
    {
        if k < data.len() {
            combined.push(data[k]);
        } else {
            combined.push(old_bytes[k]);
        }
        k = k + 1;
        assert(combined@ =~= (data@ + old_bytes@.skip(data@.len() as int)).take(k as int));
    }
    let ghost target = data@ + old_bytes@.skip(data@.len() as int);
    assert(combined@ =~= target);
    let ghost shape = bufs@;
    proof {
        iov_view(shape).lemma_flatten_and_flatten_alt_are_equivalent();
    }
    let clen = combined.len();
    let mut out: Vec<Vec<u8>> = Vec::new();
    let mut pos: usize = 0;
    let mut i: usize = 0;
    while i < bufs.len()
        invariant
            bufs@ == shape,
            i <= shape.len(),
            combined@ == target,
            clen == combined@.len(),
            target.len() == iov_view(shape).flatten_alt().len(),
            pos == iov_view(shape.take(i as int)).flatten_alt().len(),
            out@.len() == i,
            forall|t: int| 0 <= t < i ==> #[trigger] out@[t]@.len() == shape[t]@.len(),
            iov_view(out@).flatten_alt() == target.take(pos as int),
        decreases shape.len() - i,
    {
        proof {
            lemma_view_take_step(shape, i as int);
            lemma_prefix_len_le(shape, i as int + 1);
        }
        let len = bufs[i].len();
        let mut chunk: Vec<u8> = Vec::new();
        let mut j: usize = 0;
        while j < len
            invariant
                j <= len,
                pos + len <= combined@.len(),
                clen == combined@.len(),
                combined@ == target,
                chunk@ == target.subrange(pos as int, pos + j),
            decreases len - j,
        {
            chunk.push(combined[pos + j]);
            j = j + 1;
            assert(chunk@ =~= target.subrange(pos as int, pos + j));
        }
        let ghost before = out@;
        out.push(chunk);
        proof {
            let v = iov_view(out@);
            assert(v.drop_last() =~= iov_view(before));
            assert(v.last() == target.subrange(pos as int, pos + len));
            assert(iov_view(out@).flatten_alt() =~= target.take(pos + len));
        }
        pos = pos + len;
        i = i + 1;
    }
    proof {
        lemma_full_bytes(shape);
        assert(target.take(pos as int) =~= target);
        iov_view(out@).lemma_flatten_and_flatten_alt_are_equivalent();
    }
    *bufs = out;
}

} // verus!
