//! The fixed-width hash value used as the universal identity for programs,
//! claims, and verifier-parameter sets.

use vstd::prelude::*;

verus! {

/// Number of 32-bit words in a digest.
pub const DIGEST_WORDS: usize = 8;

/// A 256-bit hash value, stored as eight 32-bit words.
///
/// Equality of two digests is equality of all eight words, both in
/// executable code and in specifications.
#[derive(Clone, Copy, Debug, PartialEq, Eq, Hash, Structural)]
pub struct Digest {
    pub w0: u32,
    pub w1: u32,
    pub w2: u32,
    pub w3: u32,
    pub w4: u32,
    pub w5: u32,
    pub w6: u32,
    pub w7: u32,
}

impl View for Digest {
    type V = Seq<u32>;

    open spec fn view(&self) -> Seq<u32> {
        seq![self.w0, self.w1, self.w2, self.w3, self.w4, self.w5, self.w6, self.w7]
    }
}

impl Digest {
    /// Build a digest from an array of eight words, in order.
    pub fn from_words(words: &[u32; 8]) -> (r: Digest)
        ensures
            r@ == words@,
    {
        let r = Digest {
            w0: words[0],
            w1: words[1],
            w2: words[2],
            w3: words[3],
            w4: words[4],
            w5: words[5],
            w6: words[6],
            w7: words[7],
        };
        proof {
            assert(r@ =~= words@);
        }
        r
    }

    /// The digest's words as an array, in order.
    pub fn as_words(&self) -> (r: [u32; 8])
        ensures
            r@ == self@,
    {
        let r = [self.w0, self.w1, self.w2, self.w3, self.w4, self.w5, self.w6, self.w7];
        proof {
            assert(r@ =~= self@);
        }
        r
    }

    /// The all-zero digest.
    pub fn zero() -> (r: Digest)
        ensures
            r@ == Seq::<u32>::new(8, |i: int| 0u32),
    {
        let r = Digest { w0: 0, w1: 0, w2: 0, w3: 0, w4: 0, w5: 0, w6: 0, w7: 0 };
        proof {
            assert(r@ =~= Seq::<u32>::new(8, |i: int| 0u32));
        }
        r
    }
}

/// The four bytes of a 32-bit word, least significant first.
pub open spec fn u32_le_bytes(w: u32) -> Seq<u8> {
    seq![
        (w & 0xff) as u8,
        ((w >> 8) & 0xff) as u8,
        ((w >> 16) & 0xff) as u8,
        ((w >> 24) & 0xff) as u8,
    ]
}

/// A word sequence flattened to bytes, each word least significant byte
/// first.
pub open spec fn words_le_bytes(s: Seq<u32>) -> Seq<u8>
    decreases s.len(),
{
    if s.len() == 0 {
        Seq::empty()
    } else {
        u32_le_bytes(s.first()) + words_le_bytes(s.drop_first())
    }
}

/// Flattening distributes over appending one word at the end.
pub proof fn lemma_words_le_bytes_push(s: Seq<u32>, w: u32)
    ensures
        words_le_bytes(s.push(w)) == words_le_bytes(s) + u32_le_bytes(w),
    decreases s.len(),
{
    if s.len() == 0 {
        assert(s.push(w).len() == 1);
        assert(s.push(w).first() == w);
        assert(s.push(w).drop_first() =~= Seq::<u32>::empty());
        assert(words_le_bytes(Seq::<u32>::empty()) =~= Seq::<u8>::empty());
        assert(words_le_bytes(s) =~= Seq::<u8>::empty());
        assert(words_le_bytes(s.push(w)) =~= u32_le_bytes(w) + words_le_bytes(
            s.push(w).drop_first(),
        ));
        assert(words_le_bytes(s.push(w)) =~= words_le_bytes(s) + u32_le_bytes(w));
    } else {
        assert(s.push(w).first() == s.first());
        assert(s.push(w).drop_first() =~= s.drop_first().push(w));
        lemma_words_le_bytes_push(s.drop_first(), w);
        assert(words_le_bytes(s.push(w)) == u32_le_bytes(s.first()) + words_le_bytes(
            s.drop_first().push(w),
        ));
        assert(words_le_bytes(s.push(w)) =~= words_le_bytes(s) + u32_le_bytes(w));
    }
}

/// A flattened word sequence takes four bytes per word.
pub proof fn lemma_words_le_bytes_len(s: Seq<u32>)
    ensures
        words_le_bytes(s).len() == 4 * s.len(),
    decreases s.len(),
{
    if s.len() > 0 {
        lemma_words_le_bytes_len(s.drop_first());
    }
}

/// Append the four little-endian bytes of `w` to `out`.
pub fn push_u32_le(out: &mut Vec<u8>, w: u32)
    ensures
        final(out)@ == old(out)@ + u32_le_bytes(w),
{
    out.push((w & 0xff) as u8);
    out.push(((w >> 8) & 0xff) as u8);
    out.push(((w >> 16) & 0xff) as u8);
    out.push(((w >> 24) & 0xff) as u8);
    proof {
        assert(out@ =~= old(out)@ + u32_le_bytes(w));
    }
}

/// Append the 32 bytes of a digest to `out`, word by word, least
/// significant byte first.
pub fn push_digest_le(out: &mut Vec<u8>, d: &Digest)
    ensures
        final(out)@ == old(out)@ + words_le_bytes(d@),
{
    let words = d.as_words();
    let mut i: usize = 0;
    while i < 8
        invariant
            0 <= i <= 8,
            words@ == d@,
            out@ == old(out)@ + words_le_bytes(d@.take(i as int)),
        decreases 8 - i,
    {
        push_u32_le(out, words[i]);
        proof {
            assert(d@.take(i as int + 1) =~= d@.take(i as int).push(d@[i as int]));
            lemma_words_le_bytes_push(d@.take(i as int), d@[i as int]);
        }
        i = i + 1;
    }
    proof {
        assert(d@.take(8) =~= d@);
    }
}

/// Compare two byte vectors for equality of their contents.
pub fn bytes_eq(a: &Vec<u8>, b: &Vec<u8>) -> (r: bool)
    ensures
        r == (a@ == b@),
{
    if a.len() != b.len() {
        return false;
    }
    let n = a.len();
    let mut i: usize = 0;
    while i < n
        invariant
            0 <= i <= n,
            n == a@.len(),
            n == b@.len(),
            forall|j: int| 0 <= j < i ==> a@[j] == b@[j],
        decreases n - i,
    {
        if a[i] != b[i] {
            return false;
        }
        i = i + 1;
    }
    proof {
        assert(a@ =~= b@);
    }
    true
}

/// Decide whether two digests are equal, at the level of their models.
pub fn digest_eq(a: &Digest, b: &Digest) -> (r: bool)
    ensures
        r == (a@ == b@),
{
    proof {
        if a@ == b@ {
            lemma_digest_view_injective(*a, *b);
        }
    }
    *a == *b
}

/// Two digests with the same view are the same value: the view lists every
/// field.
pub proof fn lemma_digest_view_injective(a: Digest, b: Digest)
    requires
        a@ == b@,
    ensures
        a == b,
{
    assert(a@[0] == b@[0] && a@[1] == b@[1] && a@[2] == b@[2] && a@[3] == b@[3] && a@[4] == b@[4]
        && a@[5] == b@[5] && a@[6] == b@[6] && a@[7] == b@[7]);
}

} // verus!
