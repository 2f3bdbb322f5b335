//! Fixed-size polynomial types and the split-halves frequency layout.
//!
//! A torus polynomial holds exactly 1024 coefficients, each a 32-bit
//! wrapping integer. A frequency polynomial holds exactly 1024 64-bit
//! words — the bit patterns of double-precision values — laid out as the
//! real parts of 512 complex bins at indices 0..511 followed by the
//! imaginary parts at indices 512..1023. The constructors here enforce the
//! exact sizes, and the packing and unpacking functions pin the layout
//! index by index.

use crate::centering::{lemma_center_then_wrap, to_centered, torus_signed, wrap_to_torus, wrapped};
use vstd::prelude::*;

verus! {

/// Number of coefficients in a torus or frequency polynomial.
pub const POLY_LEN: usize = 1024;

/// Length of each of the real and imaginary halves.
pub const HALF_LEN: usize = 512;

/// A degree-1024 polynomial with 32-bit wrapping torus coefficients.
pub struct TorusPoly {
    coeffs: Vec<u32>,
}

impl View for TorusPoly {
    type V = Seq<u32>;

    closed spec fn view(&self) -> Seq<u32> {
        self.coeffs@
    }
}

impl TorusPoly {
    /// A torus polynomial always holds exactly 1024 coefficients.
    pub open spec fn wf(&self) -> bool {
        self@.len() == 1024
    }

    /// Wrap a coefficient vector; rejected unless it holds exactly 1024
    /// entries.
    pub fn from_vec(v: Vec<u32>) -> (r: Option<TorusPoly>)
        ensures
            v@.len() == 1024 ==> (r matches Some(p) && p.wf() && p@ == v@),
            v@.len() != 1024 ==> r is None,
    {
        if v.len() == POLY_LEN {
            Some(TorusPoly { coeffs: v })
        } else {
            None
        }
    }

    /// Borrow the coefficients.
    pub fn coeffs(&self) -> (r: &Vec<u32>)
        ensures
            r@ == self@,
    {
        &self.coeffs
    }

    /// Give the coefficients up.
    pub fn into_vec(self) -> (r: Vec<u32>)
        ensures
            r@ == self@,
    {
        self.coeffs
    }

    /// Read one coefficient.
    pub fn coeff(&self, i: usize) -> (r: u32)
        requires
            self.wf(),
            i < 1024,
        ensures
            r == self@[i as int],
    {
        self.coeffs[i]
    }

    /// First stage of the forward transform: split the polynomial into its
    /// two halves and center every coefficient by reading its bit pattern
    /// as a signed two's-complement integer.
    pub fn centered_halves(&self) -> (r: (Vec<i32>, Vec<i32>))
        requires
            self.wf(),
        ensures
            r.0@.len() == 512,
            r.1@.len() == 512,
            forall|j: int| 0 <= j < 512 ==> r.0@[j] as int == torus_signed(self@[j]),
            forall|j: int| 0 <= j < 512 ==> r.1@[j] as int == torus_signed(self@[j + 512]),
    {
        let mut re: Vec<i32> = Vec::new();
        let mut im: Vec<i32> = Vec::new();
        let mut i: usize = 0;
        while i < HALF_LEN
            invariant
                i <= 512,
                self.wf(),
                re@.len() == i,
                im@.len() == i,
                forall|j: int| 0 <= j < i ==> re@[j] as int == torus_signed(self@[j]),
                forall|j: int| 0 <= j < i ==> im@[j] as int == torus_signed(self@[j + 512]),
            decreases 512 - i,
        {
            re.push(to_centered(self.coeffs[i]));
            im.push(to_centered(self.coeffs[i + HALF_LEN]));
            i += 1;
        }
        (re, im)
    }

    /// Last stage of the inverse transform: wrap the rounded real half into
    /// coefficients 0..511 and the rounded imaginary half into coefficients
    /// 512..1023, each modulo 2^32. Rejected unless both halves hold
    /// exactly 512 entries.
    pub fn from_rounded_halves(re: &Vec<i64>, im: &Vec<i64>) -> (r: Option<TorusPoly>)
        ensures
            re@.len() == 512 && im@.len() == 512 ==> (r matches Some(p) && p.wf()
                && (forall|j: int| 0 <= j < 512 ==> p@[j] as int == wrapped(re@[j] as int))
                && (forall|j: int| 0 <= j < 512 ==> p@[j + 512] as int == wrapped(im@[j] as int))),
            !(re@.len() == 512 && im@.len() == 512) ==> r is None,
    {
        if re.len() != HALF_LEN || im.len() != HALF_LEN {
            return None;
        }
        let mut coeffs: Vec<u32> = Vec::new();
        let mut i: usize = 0;
        while i < HALF_LEN
            invariant
                i <= 512,
                re@.len() == 512,
                coeffs@.len() == i,
                forall|j: int| 0 <= j < i ==> coeffs@[j] as int == wrapped(re@[j] as int),
            decreases 512 - i,
        {
            coeffs.push(wrap_to_torus(re[i]));
            i += 1;
        }
        let mut i: usize = 0;
        while i < HALF_LEN
            invariant
                i <= 512,
                re@.len() == 512,
                im@.len() == 512,
                coeffs@.len() == 512 + i,
                forall|j: int| 0 <= j < 512 ==> coeffs@[j] as int == wrapped(re@[j] as int),
                forall|j: int| 0 <= j < i ==> coeffs@[j + 512] as int == wrapped(im@[j] as int),
            decreases 512 - i,
        {
            coeffs.push(wrap_to_torus(im[i]));
            i += 1;
        }
        Some(TorusPoly { coeffs })
    }
}

/// Round-trip skeleton at the polynomial level: take any polynomial `p`,
/// center its halves as `centered_halves` promises, and wrap any rounded
/// halves that reproduce those centered values exactly, as
/// `from_rounded_halves` promises of its result `q`. Then `q` is `p`,
/// coefficient for coefficient. The numeric stages in between may only add
/// their bounded rounding error; whenever they return each centered value
/// exactly, the transform pair loses nothing.
pub proof fn lemma_exact_round_trip(p: TorusPoly, re: Seq<i64>, im: Seq<i64>, q: TorusPoly)
    requires
        p.wf(),
        q.wf(),
        re.len() == 512,
        im.len() == 512,
        forall|j: int| 0 <= j < 512 ==> re[j] as int == torus_signed(p@[j]),
        forall|j: int| 0 <= j < 512 ==> im[j] as int == torus_signed(p@[j + 512]),
        forall|j: int| 0 <= j < 512 ==> q@[j] as int == wrapped(re[j] as int),
        forall|j: int| 0 <= j < 512 ==> q@[j + 512] as int == wrapped(im[j] as int),
    ensures
        q@ == p@,
{
    assert forall|j: int| 0 <= j < 1024 implies q@[j] == p@[j] by {
        if j < 512 {
            lemma_center_then_wrap(p@[j]);
        } else {
            assert(im[j - 512] as int == torus_signed(p@[(j - 512) + 512]));
            assert(q@[(j - 512) + 512] as int == wrapped(im[j - 512] as int));
            lemma_center_then_wrap(p@[j]);
        }
    }
    assert(q@ =~= p@);
}

/// A frequency-domain polynomial: 512 complex bins stored as 1024 64-bit
/// words, the real parts first, the imaginary parts after them. Each word
/// carries the bit pattern of one double-precision value; this crate never
/// interprets the patterns, it only moves them.
pub struct FreqPoly {
    words: Vec<u64>,
}

impl View for FreqPoly {
    type V = Seq<u64>;

    closed spec fn view(&self) -> Seq<u64> {
        self.words@
    }
}

impl FreqPoly {
    /// A frequency polynomial always holds exactly 1024 words.
    pub open spec fn wf(&self) -> bool {
        self@.len() == 1024
    }

    /// Wrap a word vector; rejected unless it holds exactly 1024 entries.
    pub fn from_vec(v: Vec<u64>) -> (r: Option<FreqPoly>)
        ensures
            v@.len() == 1024 ==> (r matches Some(f) && f.wf() && f@ == v@),
            v@.len() != 1024 ==> r is None,
    {
        if v.len() == POLY_LEN {
            Some(FreqPoly { words: v })
        } else {
            None
        }
    }

    /// Borrow the words.
    pub fn words(&self) -> (r: &Vec<u64>)
        ensures
            r@ == self@,
    {
        &self.words
    }

    /// Give the words up.
    pub fn into_vec(self) -> (r: Vec<u64>)
        ensures
            r@ == self@,
    {
        self.words
    }

    /// Read one word.
    pub fn word(&self, i: usize) -> (r: u64)
        requires
            self.wf(),
            i < 1024,
        ensures
            r == self@[i as int],
    {
        self.words[i]
    }

    /// Last stage of the forward transform: pack the real half into words
    /// 0..511 and the imaginary half into words 512..1023. Rejected unless
    /// both halves hold exactly 512 entries.
    pub fn from_halves(re: &Vec<u64>, im: &Vec<u64>) -> (r: Option<FreqPoly>)
        ensures
            re@.len() == 512 && im@.len() == 512 ==> (r matches Some(f) && f.wf()
                && (forall|j: int| 0 <= j < 512 ==> f@[j] == re@[j])
                && (forall|j: int| 0 <= j < 512 ==> f@[j + 512] == im@[j])),
            !(re@.len() == 512 && im@.len() == 512) ==> r is None,
    {
        if re.len() != HALF_LEN || im.len() != HALF_LEN {
            return None;
        }
        let mut words: Vec<u64> = Vec::new();
        let mut i: usize = 0;
        while i < HALF_LEN
            invariant
                i <= 512,
                re@.len() == 512,
                words@.len() == i,
                forall|j: int| 0 <= j < i ==> words@[j] == re@[j],
            decreases 512 - i,
        {
            words.push(re[i]);
            i += 1;
        }
        let mut i: usize = 0;
        while i < HALF_LEN
            invariant
                i <= 512,
                re@.len() == 512,
                im@.len() == 512,
                words@.len() == 512 + i,
                forall|j: int| 0 <= j < 512 ==> words@[j] == re@[j],
                forall|j: int| 0 <= j < i ==> words@[j + 512] == im@[j],
            decreases 512 - i,
        {
            words.push(im[i]);
            i += 1;
        }
        Some(FreqPoly { words })
    }

    /// First stage of the inverse transform: split the words back into the
    /// real half and the imaginary half.
    pub fn halves(&self) -> (r: (Vec<u64>, Vec<u64>))
        requires
            self.wf(),
        ensures
            r.0@.len() == 512,
            r.1@.len() == 512,
            forall|j: int| 0 <= j < 512 ==> r.0@[j] == self@[j],
            forall|j: int| 0 <= j < 512 ==> r.1@[j] == self@[j + 512],
    {
        let mut re: Vec<u64> = Vec::new();
        let mut im: Vec<u64> = Vec::new();
        let mut i: usize = 0;
        while i < HALF_LEN
            invariant
                i <= 512,
                self.wf(),
                re@.len() == i,
                im@.len() == i,
                forall|j: int| 0 <= j < i ==> re@[j] == self@[j],
                forall|j: int| 0 <= j < i ==> im@[j] == self@[j + 512],
            decreases 512 - i,
        {
            re.push(self.words[i]);
            im.push(self.words[i + HALF_LEN]);
            i += 1;
        }
        (re, im)
    }
}

/// The split-halves layout is lossless: take any frequency polynomial `f`,
/// unpack it into halves as `halves` promises, and pack any halves with
/// those exact words back as `from_halves` promises of its result `g`.
/// Then `g` is `f`, word for word — unpacking and repacking moves every
/// word back to the index it came from.
pub proof fn lemma_layout_round_trip(f: FreqPoly, re: Seq<u64>, im: Seq<u64>, g: FreqPoly)
    requires
        f.wf(),
        g.wf(),
        re.len() == 512,
        im.len() == 512,
        forall|j: int| 0 <= j < 512 ==> re[j] == f@[j],
        forall|j: int| 0 <= j < 512 ==> im[j] == f@[j + 512],
        forall|j: int| 0 <= j < 512 ==> g@[j] == re[j],
        forall|j: int| 0 <= j < 512 ==> g@[j + 512] == im[j],
    ensures
        g@ == f@,
{
    assert forall|j: int| 0 <= j < 1024 implies g@[j] == f@[j] by {
        if j < 512 {
            assert(re[j] == f@[j]);
            assert(g@[j] == re[j]);
        } else {
            assert(im[j - 512] == f@[(j - 512) + 512]);
            assert(g@[(j - 512) + 512] == im[j - 512]);
        }
    }
    assert(g@ =~= f@);
}

} // verus!
