//! Batch chunking: many polynomials packed end to end in one flat buffer.
//!
//! The batched forward transform works on `count` torus polynomials stored
//! contiguously, 1024 coefficients each, and writes `count` frequency
//! polynomials in the same layout. The transform itself touches one
//! polynomial at a time; what is verified here is the chunking arithmetic:
//! splitting the flat input into exactly the per-polynomial inputs, in
//! order, and joining the per-polynomial outputs back into a flat buffer.

use crate::poly::{FreqPoly, TorusPoly, POLY_LEN};
use vstd::arithmetic::div_mod::{
    lemma_div_is_ordered, lemma_fundamental_div_mod, lemma_fundamental_div_mod_converse,
    lemma_mod_bound, lemma_mod_multiples_basic,
};
use vstd::prelude::*;

verus! {

/// The `i`-th 1024-entry chunk of a flat buffer.
pub open spec fn chunk_of<T>(s: Seq<T>, i: int) -> Seq<T> {
    s.subrange(i * 1024, i * 1024 + 1024)
}

/// Split a flat buffer of `count * 1024` coefficients into its `count`
/// polynomials, in order; rejected when the buffer has any other length.
pub fn split_batch(input: &Vec<u32>, count: usize) -> (r: Option<Vec<TorusPoly>>)
    ensures
        input@.len() == count * 1024 ==> (r matches Some(ps) && ps@.len() == count
            && forall|i: int|
                0 <= i < count ==> (#[trigger] ps@[i]).wf() && ps@[i]@ == chunk_of(input@, i)),
        input@.len() != count * 1024 ==> r is None,
{
    let ilen: usize = input.len();
    let total: usize = match count.checked_mul(1024) {
        Some(t) => t,
        None => {
            proof {
                assert(ilen < count * 1024);
            }
            return None;
        },
    };
    if ilen != total {
        return None;
    }
    let mut out: Vec<TorusPoly> = Vec::new();
    let mut i: usize = 0;
    while i < count
        invariant
            i <= count,
            input@.len() == count * 1024,
            count * 1024 <= usize::MAX,
            out@.len() == i,
            forall|k: int|
                0 <= k < i ==> (#[trigger] out@[k]).wf() && out@[k]@ == chunk_of(input@, k),
        decreases count - i,
    {
        let mut chunk: Vec<u32> = Vec::new();
        let mut j: usize = 0;
        while j < POLY_LEN
            invariant
                j <= 1024,
                i < count,
                input@.len() == count * 1024,
                count * 1024 <= usize::MAX,
                chunk@.len() == j,
                forall|t: int| 0 <= t < j ==> chunk@[t] == input@[i * 1024 + t],
            decreases 1024 - j,
        {
            chunk.push(input[i * POLY_LEN + j]);
            j += 1;
        }
        proof {
            assert(chunk@ =~= chunk_of(input@, i as int));
        }
        let p = TorusPoly::from_vec(chunk).unwrap();
        out.push(p);
        i += 1;
    }
    Some(out)
}

/// Join per-polynomial frequency outputs into one flat buffer: the `i`-th
/// 1024-word chunk of the result is exactly the `i`-th polynomial.
pub fn join_batch(polys: &Vec<FreqPoly>) -> (r: Vec<u64>)
    requires
        forall|i: int| 0 <= i < polys@.len() ==> (#[trigger] polys@[i]).wf(),
    ensures
        r@.len() == polys@.len() * 1024,
        forall|i: int| 0 <= i < polys@.len() ==> chunk_of(r@, i) == polys@[i]@,
{
    let n: usize = polys.len();
    let mut out: Vec<u64> = Vec::new();
    let mut i: usize = 0;
    while i < n
        invariant
            i <= n,
            n == polys@.len(),
            forall|k: int| 0 <= k < n ==> (#[trigger] polys@[k]).wf(),
            out@.len() == i * 1024,
            forall|m: int|
                0 <= m < out@.len() ==> #[trigger] out@[m] == polys@[m / 1024]@[m % 1024],
        decreases n - i,
    {
        let w = polys[i].words();
        let mut j: usize = 0;
        while j < POLY_LEN
            invariant
                j <= 1024,
                i < n,
                n == polys@.len(),
                forall|k: int| 0 <= k < n ==> (#[trigger] polys@[k]).wf(),
                w@ == polys@[i as int]@,
                out@.len() == i * 1024 + j,
                forall|m: int|
                    0 <= m < out@.len() ==> #[trigger] out@[m] == polys@[m / 1024]@[m % 1024],
            decreases 1024 - j,
        {
            out.push(w[j]);
            proof {
                lemma_fundamental_div_mod_converse(
                    i * 1024 + j,
                    1024,
                    i as int,
                    j as int,
                );
            }
            j += 1;
        }
        i += 1;
    }
    proof {
        assert forall|k: int| 0 <= k < polys@.len() implies chunk_of(out@, k)
            == polys@[k]@ by {
            assert forall|t: int| 0 <= t < 1024 implies chunk_of(out@, k)[t]
                == polys@[k]@[t] by {
                lemma_fundamental_div_mod_converse(k * 1024 + t, 1024, k, t);
            }
            assert(chunk_of(out@, k) =~= polys@[k]@);
        }
    }
    out
}

/// Where a flat coefficient lands after chunking: position `n` of a flat
/// buffer whose length is a whole number of 1024-entry chunks is position
/// `n % 1024` of chunk `n / 1024`. Together with the contracts of
/// `split_batch` and `join_batch` this pins the batched layout down to
/// single coefficients: the batch is exactly the polynomials laid end to
/// end, with nothing reordered, dropped or shared between them.
pub proof fn lemma_chunk_index<T>(s: Seq<T>, n: int)
    requires
        0 <= n < s.len(),
        s.len() % 1024 == 0,
    ensures
        0 <= n / 1024 < s.len() / 1024,
        0 <= n % 1024 < 1024,
        chunk_of(s, n / 1024)[n % 1024] == s[n],
{
    let len = s.len() as int;
    let q = n / 1024;
    let r = n % 1024;
    lemma_fundamental_div_mod(n, 1024);
    lemma_mod_bound(n, 1024);
    lemma_fundamental_div_mod(len, 1024);
    assert(len == 1024 * (len / 1024));
    lemma_div_is_ordered(n, len - 1, 1024);
    lemma_fundamental_div_mod_converse(len - 1, 1024, len / 1024 - 1, 1023);
    assert(q * 1024 + 1024 <= len);
    assert(chunk_of(s, q)[r] == s[q * 1024 + r]);
}

/// The chunks determine the buffer: two flat buffers of `count` chunks
/// that agree chunk by chunk agree everywhere. So the batched output is
/// pinned down completely by the per-polynomial outputs — a batched run
/// and `count` independent runs that produce the same per-polynomial
/// results produce the same flat buffer.
pub proof fn lemma_chunks_determine<T>(s: Seq<T>, t: Seq<T>, count: int)
    requires
        0 <= count,
        s.len() == count * 1024,
        t.len() == count * 1024,
        forall|i: int| 0 <= i < count ==> chunk_of(s, i) == chunk_of(t, i),
    ensures
        s == t,
{
    lemma_mod_multiples_basic(count, 1024);
    assert forall|n: int| 0 <= n < s.len() implies s[n] == t[n] by {
        lemma_chunk_index(s, n);
        lemma_chunk_index(t, n);
        lemma_fundamental_div_mod(count * 1024, 1024);
        assert(n / 1024 < count) by {
            lemma_div_is_ordered(n, count * 1024 - 1, 1024);
            lemma_fundamental_div_mod_converse(count * 1024 - 1, 1024, count - 1, 1023);
        }
        assert(chunk_of(s, n / 1024) == chunk_of(t, n / 1024));
    }
    assert(s =~= t);
}

} // verus!
