//! The persisted representation of a proof: a tagged union written as a
//! variant discriminant followed by the variant's fields, with pruning
//! discriminants on possibly pruned values.  Encoding and decoding round
//! trip losslessly.

use vstd::prelude::*;

use crate::circuit::HashKind;
use crate::digest::{push_digest_le, words_le_bytes, u32_le_bytes, Digest};
use crate::receipt::composite::{CompositeReceipt, CompositeView, SegmentReceipt, SegmentView};
use crate::receipt::succinct::{SuccinctReceipt, SuccinctView};
use crate::receipt::{InnerReceipt, InnerReceiptView, Journal, Proof, ProofView, Seal, SealView};
use crate::receipt_claim::{
    exit_status_byte, ClaimView, ExitStatus, MaybePruned, MaybePrunedView, ReceiptClaim,
};

verus! {

// ---------------------------------------------------------------------
// Encoded forms
// ---------------------------------------------------------------------

/// The eight bytes of a 64-bit length or count, least significant first.
pub open spec fn enc_u64(v: u64) -> Seq<u8> {
    seq![
        (v & 0xff) as u8,
        ((v >> 8) & 0xff) as u8,
        ((v >> 16) & 0xff) as u8,
        ((v >> 24) & 0xff) as u8,
        ((v >> 32) & 0xff) as u8,
        ((v >> 40) & 0xff) as u8,
        ((v >> 48) & 0xff) as u8,
        ((v >> 56) & 0xff) as u8,
    ]
}

/// A byte string, preceded by its length.
pub open spec fn enc_bytes(b: Seq<u8>) -> Seq<u8> {
    enc_u64(b.len() as u64) + b
}

/// A digest: its eight words, 32 bytes, no length.
pub open spec fn enc_digest(d: Seq<u32>) -> Seq<u8> {
    words_le_bytes(d)
}

/// The discriminant byte of a hash kind.
pub open spec fn hash_kind_byte(k: HashKind) -> u8 {
    match k {
        HashKind::Sha256 => 0u8,
        HashKind::Poseidon2 => 1u8,
        HashKind::Blake2b => 2u8,
    }
}

/// A possibly pruned byte string: a pruning discriminant, then the full
/// bytes or the digest.
pub open spec fn enc_output(o: MaybePrunedView<Seq<u8>>) -> Seq<u8> {
    match o {
        MaybePrunedView::Full(b) => seq![0u8] + enc_bytes(b),
        MaybePrunedView::Pruned(d) => seq![1u8] + enc_digest(d),
    }
}

/// A claim: program identifier, exit status, output.
pub open spec fn enc_claim(c: ClaimView) -> Seq<u8> {
    enc_digest(c.program_id) + seq![exit_status_byte(c.exit)] + enc_output(c.output)
}

/// A seal: tag, then proof bytes, each length-prefixed.
pub open spec fn enc_seal(s: SealView) -> Seq<u8> {
    enc_bytes(s.tag) + enc_bytes(s.data)
}

/// A segment receipt: seal, hash kind, size class, claim.
pub open spec fn enc_segment(s: SegmentView) -> Seq<u8> {
    enc_seal(s.seal) + seq![hash_kind_byte(s.hashfn)] + enc_u64(s.po2 as u64) + enc_claim(s.claim)
}

/// A segment chain, in order.
pub open spec fn enc_segments(ss: Seq<SegmentView>) -> Seq<u8>
    decreases ss.len(),
{
    if ss.len() == 0 {
        Seq::empty()
    } else {
        enc_segment(ss.first()) + enc_segments(ss.drop_first())
    }
}

/// A composite receipt: segment count, segments, verifier parameters.
pub open spec fn enc_composite(c: CompositeView) -> Seq<u8> {
    enc_u64(c.segments.len() as u64) + enc_segments(c.segments) + enc_digest(c.verifier_parameters)
}

/// A possibly pruned claim: a pruning discriminant, then the claim or its
/// digest.
pub open spec fn enc_mp_claim(m: MaybePrunedView<ClaimView>) -> Seq<u8> {
    match m {
        MaybePrunedView::Full(c) => seq![0u8] + enc_claim(c),
        MaybePrunedView::Pruned(d) => seq![1u8] + enc_digest(d),
    }
}

/// A succinct receipt: seal, control identifier, claim, verifier
/// parameters.
pub open spec fn enc_succinct(s: SuccinctView<ClaimView>) -> Seq<u8> {
    enc_seal(s.seal) + enc_digest(s.control_id) + enc_mp_claim(s.claim) + enc_digest(
        s.verifier_parameters,
    )
}

/// An inner receipt: a variant discriminant, then the variant's payload.
pub open spec fn enc_inner(r: InnerReceiptView) -> Seq<u8> {
    match r {
        InnerReceiptView::Composite(c) => seq![0u8] + enc_composite(c),
        InnerReceiptView::Succinct(s) => seq![1u8] + enc_succinct(s),
    }
}

/// The encoded form of a whole proof.
pub open spec fn enc_proof(p: ProofView) -> Seq<u8> {
    enc_inner(p.inner)
}

// ---------------------------------------------------------------------
// Well-formed models: what every value built from executable receipts
// satisfies.  Decoding the encoded form of a well-formed model returns
// that model exactly.
// ---------------------------------------------------------------------

/// Digest models carried by executable values have eight words.
pub open spec fn claim_wf(c: ClaimView) -> bool {
    &&& c.program_id.len() == 8
    &&& match c.output {
        MaybePrunedView::Full(b) => b.len() <= usize::MAX,
        MaybePrunedView::Pruned(d) => d.len() == 8,
    }
}

/// A segment model as an executable segment produces it.
pub open spec fn segment_wf(s: SegmentView) -> bool {
    &&& 0 <= s.po2 <= usize::MAX
    &&& s.seal.tag.len() <= usize::MAX
    &&& s.seal.data.len() <= usize::MAX
    &&& claim_wf(s.claim)
}

/// A composite model as an executable receipt produces it.
pub open spec fn composite_wf(c: CompositeView) -> bool {
    &&& c.segments.len() <= usize::MAX
    &&& c.verifier_parameters.len() == 8
    &&& forall|i: int| 0 <= i < c.segments.len() ==> segment_wf(#[trigger] c.segments[i])
}

/// A succinct model as an executable receipt produces it.
pub open spec fn succinct_wf(s: SuccinctView<ClaimView>) -> bool {
    &&& s.seal.tag.len() <= usize::MAX
    &&& s.seal.data.len() <= usize::MAX
    &&& s.control_id.len() == 8
    &&& s.verifier_parameters.len() == 8
    &&& match s.claim {
        MaybePrunedView::Full(c) => claim_wf(c),
        MaybePrunedView::Pruned(d) => d.len() == 8,
    }
}

/// A proof model as an executable proof produces it.
pub open spec fn proof_wf(p: ProofView) -> bool {
    match p.inner {
        InnerReceiptView::Composite(c) => composite_wf(c),
        InnerReceiptView::Succinct(s) => succinct_wf(s),
    }
}

/// Every executable claim's model is well-formed.
proof fn lemma_claim_view_wf(c: ReceiptClaim)
    ensures
        claim_wf(c@),
{
    broadcast use vstd::std_specs::vec::axiom_spec_len;

    match c.output {
        MaybePruned::Full(ref j) => {
            assert(vstd::std_specs::vec::spec_vec_len(&j.bytes) == j.bytes@.len());
        },
        MaybePruned::Pruned(_) => {},
    }
}

/// Every executable seal's byte strings fit in memory.
proof fn lemma_seal_view_lens(s: Seal)
    ensures
        s@.tag.len() <= usize::MAX,
        s@.data.len() <= usize::MAX,
{
    broadcast use vstd::std_specs::vec::axiom_spec_len;

    assert(vstd::std_specs::vec::spec_vec_len(&s.tag) == s.tag@.len());
    assert(vstd::std_specs::vec::spec_vec_len(&s.data) == s.data@.len());
}

/// Every executable proof's model is well-formed.
pub proof fn lemma_proof_view_wf(p: Proof)
    ensures
        proof_wf(p@),
{
    broadcast use vstd::std_specs::vec::axiom_spec_len;

    match p.inner {
        InnerReceipt::Composite(ref c) => {
            assert(vstd::std_specs::vec::spec_vec_len(&c.segments) == c.segments@.len());
            assert forall|i: int| 0 <= i < c@.segments.len() implies segment_wf(
                #[trigger] c@.segments[i],
            ) by {
                let s = c.segments@[i];
                lemma_seal_view_lens(s.seal);
                lemma_claim_view_wf(s.claim);
                assert(c@.segments[i] == s@);
            }
        },
        InnerReceipt::Succinct(ref s) => {
            lemma_seal_view_lens(s.seal);
            match s.claim {
                MaybePruned::Full(ref c) => {
                    lemma_claim_view_wf(*c);
                },
                MaybePruned::Pruned(_) => {},
            }
        },
    }
}

// ---------------------------------------------------------------------
// Parsing
// ---------------------------------------------------------------------

/// A 64-bit value from eight bytes, least significant first.
pub open spec fn u64_from_le(
    b0: u8,
    b1: u8,
    b2: u8,
    b3: u8,
    b4: u8,
    b5: u8,
    b6: u8,
    b7: u8,
) -> u64 {
    (b0 as u64) | (b1 as u64) << 8 | (b2 as u64) << 16 | (b3 as u64) << 24 | (b4 as u64) << 32 | (
    b5 as u64) << 40 | (b6 as u64) << 48 | (b7 as u64) << 56
}

/// A 32-bit word from four bytes, least significant first.
pub open spec fn u32_from_le(b0: u8, b1: u8, b2: u8, b3: u8) -> u32 {
    (b0 as u32) | (b1 as u32) << 8 | (b2 as u32) << 16 | (b3 as u32) << 24
}

/// Parse one byte.
pub open spec fn dec_u8(s: Seq<u8>, pos: int) -> Option<(u8, int)> {
    if 0 <= pos && pos + 1 <= s.len() {
        Some((s[pos], pos + 1))
    } else {
        None
    }
}

/// Parse a 64-bit value.
pub open spec fn dec_u64(s: Seq<u8>, pos: int) -> Option<(u64, int)> {
    if 0 <= pos && pos + 8 <= s.len() {
        Some(
            (
                u64_from_le(
                    s[pos],
                    s[pos + 1],
                    s[pos + 2],
                    s[pos + 3],
                    s[pos + 4],
                    s[pos + 5],
                    s[pos + 6],
                    s[pos + 7],
                ),
                pos + 8,
            ),
        )
    } else {
        None
    }
}

/// Parse a digest: eight words from 32 bytes.
pub open spec fn dec_digest(s: Seq<u8>, pos: int) -> Option<(Seq<u32>, int)> {
    if 0 <= pos && pos + 32 <= s.len() {
        Some(
            (
                Seq::new(
                    8,
                    |i: int|
                        u32_from_le(
                            s[pos + 4 * i],
                            s[pos + 4 * i + 1],
                            s[pos + 4 * i + 2],
                            s[pos + 4 * i + 3],
                        ),
                ),
                pos + 32,
            ),
        )
    } else {
        None
    }
}

/// Parse a length-prefixed byte string.
pub open spec fn dec_bytes(s: Seq<u8>, pos: int) -> Option<(Seq<u8>, int)> {
    match dec_u64(s, pos) {
        None => None,
        Some((n, p)) => if p + n <= s.len() {
            Some((s.subrange(p, p + n), p + n))
        } else {
            None
        },
    }
}

/// Parse a hash-kind discriminant.
pub open spec fn dec_hash_kind(b: u8) -> Option<HashKind> {
    if b == 0 {
        Some(HashKind::Sha256)
    } else if b == 1 {
        Some(HashKind::Poseidon2)
    } else if b == 2 {
        Some(HashKind::Blake2b)
    } else {
        None
    }
}

/// Parse a possibly pruned byte string.
pub open spec fn dec_output(s: Seq<u8>, pos: int) -> Option<(MaybePrunedView<Seq<u8>>, int)> {
    match dec_u8(s, pos) {
        None => None,
        Some((t, p)) => if t == 0 {
            match dec_bytes(s, p) {
                None => None,
                Some((b, p2)) => Some((MaybePrunedView::Full(b), p2)),
            }
        } else if t == 1 {
            match dec_digest(s, p) {
                None => None,
                Some((d, p2)) => Some((MaybePrunedView::Pruned(d), p2)),
            }
        } else {
            None
        },
    }
}

/// Parse a claim.
pub open spec fn dec_claim(s: Seq<u8>, pos: int) -> Option<(ClaimView, int)> {
    match dec_digest(s, pos) {
        None => None,
        Some((id, p)) => match dec_u8(s, p) {
            None => None,
            Some((e, p2)) => if e == 0 {
                match dec_output(s, p2) {
                    None => None,
                    Some((o, p3)) => Some(
                        (ClaimView { program_id: id, exit: ExitStatus::Success, output: o }, p3),
                    ),
                }
            } else {
                None
            },
        },
    }
}

/// Parse a seal.
pub open spec fn dec_seal(s: Seq<u8>, pos: int) -> Option<(SealView, int)> {
    match dec_bytes(s, pos) {
        None => None,
        Some((tag, p)) => match dec_bytes(s, p) {
            None => None,
            Some((data, p2)) => Some((SealView { tag, data }, p2)),
        },
    }
}

/// Parse a segment receipt.
pub open spec fn dec_segment(s: Seq<u8>, pos: int) -> Option<(SegmentView, int)> {
    match dec_seal(s, pos) {
        None => None,
        Some((seal, p)) => match dec_u8(s, p) {
            None => None,
            Some((kb, p2)) => match dec_hash_kind(kb) {
                None => None,
                Some(k) => match dec_u64(s, p2) {
                    None => None,
                    Some((v, p3)) => if v <= usize::MAX as u64 {
                        match dec_claim(s, p3) {
                            None => None,
                            Some((c, p4)) => Some(
                                (
                                    SegmentView {
                                        seal,
                                        hashfn: k,
                                        po2: v as int,
                                        claim: c,
                                    },
                                    p4,
                                ),
                            ),
                        }
                    } else {
                        None
                    },
                },
            },
        },
    }
}

/// Parse `n` segment receipts.
pub open spec fn dec_segments(s: Seq<u8>, pos: int, n: int) -> Option<(Seq<SegmentView>, int)>
    decreases n,
{
    if n <= 0 {
        Some((Seq::empty(), pos))
    } else {
        match dec_segment(s, pos) {
            None => None,
            Some((sv, p)) => match dec_segments(s, p, n - 1) {
                None => None,
                Some((rest, p2)) => Some((seq![sv] + rest, p2)),
            },
        }
    }
}

/// Parse a composite receipt.
pub open spec fn dec_composite(s: Seq<u8>, pos: int) -> Option<(CompositeView, int)> {
    match dec_u64(s, pos) {
        None => None,
        Some((n, p)) => if n <= usize::MAX as u64 {
            match dec_segments(s, p, n as int) {
                None => None,
                Some((ss, p2)) => match dec_digest(s, p2) {
                    None => None,
                    Some((vp, p3)) => Some(
                        (CompositeView { segments: ss, verifier_parameters: vp }, p3),
                    ),
                },
            }
        } else {
            None
        },
    }
}

/// Parse a possibly pruned claim.
pub open spec fn dec_mp_claim(s: Seq<u8>, pos: int) -> Option<(MaybePrunedView<ClaimView>, int)> {
    match dec_u8(s, pos) {
        None => None,
        Some((t, p)) => if t == 0 {
            match dec_claim(s, p) {
                None => None,
                Some((c, p2)) => Some((MaybePrunedView::Full(c), p2)),
            }
        } else if t == 1 {
            match dec_digest(s, p) {
                None => None,
                Some((d, p2)) => Some((MaybePrunedView::Pruned(d), p2)),
            }
        } else {
            None
        },
    }
}

/// Parse a succinct receipt.
pub open spec fn dec_succinct(s: Seq<u8>, pos: int) -> Option<(SuccinctView<ClaimView>, int)> {
    match dec_seal(s, pos) {
        None => None,
        Some((seal, p)) => match dec_digest(s, p) {
            None => None,
            Some((cid, p2)) => match dec_mp_claim(s, p2) {
                None => None,
                Some((mc, p3)) => match dec_digest(s, p3) {
                    None => None,
                    Some((vp, p4)) => Some(
                        (
                            SuccinctView {
                                seal,
                                control_id: cid,
                                claim: mc,
                                verifier_parameters: vp,
                            },
                            p4,
                        ),
                    ),
                },
            },
        },
    }
}

/// Parse an inner receipt.
pub open spec fn dec_inner(s: Seq<u8>, pos: int) -> Option<(InnerReceiptView, int)> {
    match dec_u8(s, pos) {
        None => None,
        Some((t, p)) => if t == 0 {
            match dec_composite(s, p) {
                None => None,
                Some((c, p2)) => Some((InnerReceiptView::Composite(c), p2)),
            }
        } else if t == 1 {
            match dec_succinct(s, p) {
                None => None,
                Some((sv, p2)) => Some((InnerReceiptView::Succinct(sv), p2)),
            }
        } else {
            None
        },
    }
}

/// Parse a whole proof.
pub open spec fn dec_proof(s: Seq<u8>, pos: int) -> Option<(ProofView, int)> {
    match dec_inner(s, pos) {
        None => None,
        Some((r, p)) => Some((ProofView { inner: r }, p)),
    }
}

// ---------------------------------------------------------------------
// Round trip: parsing an encoded well-formed value, wherever it stands
// in a larger byte sequence, returns that value.
// ---------------------------------------------------------------------

proof fn lemma_u64_round_trip(s: Seq<u8>, pos: int, v: u64)
    requires
        0 <= pos,
        pos + 8 <= s.len(),
        s.subrange(pos, pos + 8) == enc_u64(v),
    ensures
        dec_u64(s, pos) == Some((v, pos + 8)),
{
    assert forall|k: int| 0 <= k < 8 implies s[pos + k] == enc_u64(v)[k] by {
        assert(s.subrange(pos, pos + 8)[k] == s[pos + k]);
    }
    assert(((((v & 0xff) as u8) as u64) | ((((v >> 8) & 0xff) as u8) as u64) << 8 | ((((v >> 16)
        & 0xff) as u8) as u64) << 16 | ((((v >> 24) & 0xff) as u8) as u64) << 24 | ((((v >> 32)
        & 0xff) as u8) as u64) << 32 | ((((v >> 40) & 0xff) as u8) as u64) << 40 | ((((v >> 48)
        & 0xff) as u8) as u64) << 48 | ((((v >> 56) & 0xff) as u8) as u64) << 56) == v)
        by (bit_vector);
}

proof fn lemma_u32_round_trip(w: u32)
    ensures
        u32_from_le(
            u32_le_bytes(w)[0],
            u32_le_bytes(w)[1],
            u32_le_bytes(w)[2],
            u32_le_bytes(w)[3],
        ) == w,
{
    assert(((((w & 0xff) as u8) as u32) | ((((w >> 8) & 0xff) as u8) as u32) << 8 | ((((w >> 16)
        & 0xff) as u8) as u32) << 16 | ((((w >> 24) & 0xff) as u8) as u32) << 24) == w)
        by (bit_vector);
}

proof fn lemma_words_le_bytes_index(s: Seq<u32>, i: int, k: int)
    requires
        0 <= i < s.len(),
        0 <= k < 4,
    ensures
        words_le_bytes(s)[4 * i + k] == u32_le_bytes(s[i])[k],
    decreases i,
{
    crate::digest::lemma_words_le_bytes_len(s.drop_first());
    if i == 0 {
    } else {
        lemma_words_le_bytes_index(s.drop_first(), i - 1, k);
        assert(s.drop_first()[i - 1] == s[i]);
        assert(words_le_bytes(s)[4 * i + k] == words_le_bytes(s.drop_first())[4 * (i - 1) + k]);
    }
}

proof fn lemma_digest_round_trip(s: Seq<u8>, pos: int, d: Seq<u32>)
    requires
        d.len() == 8,
        0 <= pos,
        pos + 32 <= s.len(),
        s.subrange(pos, pos + 32) == enc_digest(d),
    ensures
        dec_digest(s, pos) == Some((d, pos + 32)),
{
    crate::digest::lemma_words_le_bytes_len(d);
    assert forall|j: int| 0 <= j < 32 implies s[pos + j] == words_le_bytes(d)[j] by {
        assert(s.subrange(pos, pos + 32)[j] == s[pos + j]);
    }
    let parsed = Seq::new(
        8,
        |i: int|
            u32_from_le(s[pos + 4 * i], s[pos + 4 * i + 1], s[pos + 4 * i + 2], s[pos + 4 * i + 3]),
    );
    assert forall|i: int| 0 <= i < 8 implies parsed[i] == d[i] by {
        lemma_words_le_bytes_index(d, i, 0);
        lemma_words_le_bytes_index(d, i, 1);
        lemma_words_le_bytes_index(d, i, 2);
        lemma_words_le_bytes_index(d, i, 3);
        lemma_u32_round_trip(d[i]);
    }
    assert(parsed =~= d);
}

proof fn lemma_bytes_round_trip(s: Seq<u8>, pos: int, b: Seq<u8>)
    requires
        b.len() <= usize::MAX,
        0 <= pos,
        pos + 8 + b.len() <= s.len(),
        s.subrange(pos, pos + 8 + b.len()) == enc_bytes(b),
    ensures
        dec_bytes(s, pos) == Some((b, pos + 8 + b.len())),
{
    let n = b.len() as u64;
    assert(s.subrange(pos, pos + 8) =~= enc_u64(n)) by {
        assert forall|k: int| 0 <= k < 8 implies s.subrange(pos, pos + 8)[k] == enc_u64(n)[k] by {
            assert(s.subrange(pos, pos + 8 + b.len())[k] == s[pos + k]);
            assert(enc_bytes(b)[k] == enc_u64(n)[k]);
        }
    }
    lemma_u64_round_trip(s, pos, n);
    assert(s.subrange(pos + 8, pos + 8 + b.len()) =~= b) by {
        assert forall|j: int| 0 <= j < b.len() implies s[pos + 8 + j] == b[j] by {
            assert(s.subrange(pos, pos + 8 + b.len())[8 + j] == s[pos + 8 + j]);
            assert(enc_bytes(b)[8 + j] == b[j]);
        }
    }
}


proof fn lemma_subrange_slice(s: Seq<u8>, pos: int, len: int, i: int, j: int)
    requires
        0 <= pos,
        pos + len <= s.len(),
        0 <= i <= j <= len,
    ensures
        s.subrange(pos + i, pos + j) =~= s.subrange(pos, pos + len).subrange(i, j),
{
    assert forall|k: int|
        #![trigger s.subrange(pos + i, pos + j)[k]]
        0 <= k < j - i implies s.subrange(pos + i, pos + j)[k] == s.subrange(
        pos,
        pos + len,
    ).subrange(i, j)[k] by {
        assert(s.subrange(pos + i, pos + j)[k] == s[pos + i + k]);
        assert(s.subrange(pos, pos + len)[i + k] == s[pos + (i + k)]);
    }
}

proof fn lemma_byte_at(s: Seq<u8>, pos: int, len: int, i: int)
    requires
        0 <= pos,
        pos + len <= s.len(),
        0 <= i < len,
    ensures
        s[pos + i] == s.subrange(pos, pos + len)[i],
{
    assert(s.subrange(pos, pos + len)[i] == s[pos + i]);
}

proof fn lemma_output_round_trip(s: Seq<u8>, pos: int, o: MaybePrunedView<Seq<u8>>)
    requires
        match o {
            MaybePrunedView::Full(b) => b.len() <= usize::MAX,
            MaybePrunedView::Pruned(d) => d.len() == 8,
        },
        0 <= pos,
        pos + enc_output(o).len() <= s.len(),
        s.subrange(pos, pos + enc_output(o).len()) == enc_output(o),
    ensures
        dec_output(s, pos) == Some((o, pos + enc_output(o).len())),
{
    let e = enc_output(o);
    let n = e.len() as int;
    lemma_byte_at(s, pos, n, 0);
    match o {
        MaybePrunedView::Full(b) => {
            assert(s[pos] == 0u8);
            lemma_subrange_slice(s, pos, n, 1, n);
            assert(e.subrange(1, n) =~= enc_bytes(b));
            lemma_bytes_round_trip(s, pos + 1, b);
        },
        MaybePrunedView::Pruned(d) => {
            crate::digest::lemma_words_le_bytes_len(d);
            assert(s[pos] == 1u8);
            lemma_subrange_slice(s, pos, n, 1, n);
            assert(e.subrange(1, n) =~= enc_digest(d));
            lemma_digest_round_trip(s, pos + 1, d);
        },
    }
}

proof fn lemma_claim_round_trip(s: Seq<u8>, pos: int, c: ClaimView)
    requires
        claim_wf(c),
        0 <= pos,
        pos + enc_claim(c).len() <= s.len(),
        s.subrange(pos, pos + enc_claim(c).len()) == enc_claim(c),
    ensures
        dec_claim(s, pos) == Some((c, pos + enc_claim(c).len())),
{
    let e = enc_claim(c);
    let n = e.len() as int;
    crate::digest::lemma_words_le_bytes_len(c.program_id);
    lemma_subrange_slice(s, pos, n, 0, 32);
    assert(e.subrange(0, 32) =~= enc_digest(c.program_id));
    lemma_digest_round_trip(s, pos, c.program_id);
    lemma_byte_at(s, pos, n, 32);
    assert(s[pos + 32] == exit_status_byte(c.exit));
    assert(exit_status_byte(c.exit) == 0u8);
    lemma_subrange_slice(s, pos, n, 33, n);
    assert(e.subrange(33, n) =~= enc_output(c.output));
    lemma_output_round_trip(s, pos + 33, c.output);
}

proof fn lemma_seal_round_trip(s: Seq<u8>, pos: int, v: SealView)
    requires
        v.tag.len() <= usize::MAX,
        v.data.len() <= usize::MAX,
        0 <= pos,
        pos + enc_seal(v).len() <= s.len(),
        s.subrange(pos, pos + enc_seal(v).len()) == enc_seal(v),
    ensures
        dec_seal(s, pos) == Some((v, pos + enc_seal(v).len())),
{
    let e = enc_seal(v);
    let n = e.len() as int;
    let t = 8 + v.tag.len() as int;
    lemma_subrange_slice(s, pos, n, 0, t);
    assert(e.subrange(0, t) =~= enc_bytes(v.tag));
    lemma_bytes_round_trip(s, pos, v.tag);
    lemma_subrange_slice(s, pos, n, t, n);
    assert(e.subrange(t, n) =~= enc_bytes(v.data));
    lemma_bytes_round_trip(s, pos + t, v.data);
}

proof fn lemma_segment_round_trip(s: Seq<u8>, pos: int, v: SegmentView)
    requires
        segment_wf(v),
        0 <= pos,
        pos + enc_segment(v).len() <= s.len(),
        s.subrange(pos, pos + enc_segment(v).len()) == enc_segment(v),
    ensures
        dec_segment(s, pos) == Some((v, pos + enc_segment(v).len())),
{
    let e = enc_segment(v);
    let n = e.len() as int;
    let a = enc_seal(v.seal).len() as int;
    lemma_subrange_slice(s, pos, n, 0, a);
    assert(e.subrange(0, a) =~= enc_seal(v.seal));
    lemma_seal_round_trip(s, pos, v.seal);
    lemma_byte_at(s, pos, n, a);
    assert(s[pos + a] == hash_kind_byte(v.hashfn));
    assert(dec_hash_kind(hash_kind_byte(v.hashfn)) == Some(v.hashfn));
    lemma_subrange_slice(s, pos, n, a + 1, a + 9);
    assert(e.subrange(a + 1, a + 9) =~= enc_u64(v.po2 as u64));
    lemma_u64_round_trip(s, pos + a + 1, v.po2 as u64);
    assert(v.po2 as u64 <= usize::MAX as u64);
    assert((v.po2 as u64) as int == v.po2);
    lemma_subrange_slice(s, pos, n, a + 9, n);
    assert(e.subrange(a + 9, n) =~= enc_claim(v.claim));
    lemma_claim_round_trip(s, pos + a + 9, v.claim);
}

proof fn lemma_segments_round_trip(s: Seq<u8>, pos: int, ss: Seq<SegmentView>)
    requires
        forall|i: int| 0 <= i < ss.len() ==> segment_wf(#[trigger] ss[i]),
        0 <= pos,
        pos + enc_segments(ss).len() <= s.len(),
        s.subrange(pos, pos + enc_segments(ss).len()) == enc_segments(ss),
    ensures
        dec_segments(s, pos, ss.len() as int) == Some((ss, pos + enc_segments(ss).len())),
    decreases ss.len(),
{
    if ss.len() == 0 {
        assert(ss =~= Seq::<SegmentView>::empty());
    } else {
        let e = enc_segments(ss);
        let n = e.len() as int;
        let a = enc_segment(ss.first()).len() as int;
        lemma_subrange_slice(s, pos, n, 0, a);
        assert(e.subrange(0, a) =~= enc_segment(ss.first()));
        lemma_segment_round_trip(s, pos, ss.first());
        lemma_subrange_slice(s, pos, n, a, n);
        assert(e.subrange(a, n) =~= enc_segments(ss.drop_first()));
        lemma_segments_round_trip(s, pos + a, ss.drop_first());
        assert(seq![ss.first()] + ss.drop_first() =~= ss);
    }
}

proof fn lemma_composite_round_trip(s: Seq<u8>, pos: int, c: CompositeView)
    requires
        composite_wf(c),
        0 <= pos,
        pos + enc_composite(c).len() <= s.len(),
        s.subrange(pos, pos + enc_composite(c).len()) == enc_composite(c),
    ensures
        dec_composite(s, pos) == Some((c, pos + enc_composite(c).len())),
{
    let e = enc_composite(c);
    let n = e.len() as int;
    crate::digest::lemma_words_le_bytes_len(c.verifier_parameters);
    let m = c.segments.len() as u64;
    lemma_subrange_slice(s, pos, n, 0, 8);
    assert(e.subrange(0, 8) =~= enc_u64(m));
    lemma_u64_round_trip(s, pos, m);
    assert(m <= usize::MAX as u64);
    assert(m as int == c.segments.len() as int);
    let a = enc_segments(c.segments).len() as int;
    lemma_subrange_slice(s, pos, n, 8, 8 + a);
    assert(e.subrange(8, 8 + a) =~= enc_segments(c.segments));
    lemma_segments_round_trip(s, pos + 8, c.segments);
    lemma_subrange_slice(s, pos, n, 8 + a, n);
    assert(e.subrange(8 + a, n) =~= enc_digest(c.verifier_parameters));
    lemma_digest_round_trip(s, pos + 8 + a, c.verifier_parameters);
}

proof fn lemma_mp_claim_round_trip(s: Seq<u8>, pos: int, m: MaybePrunedView<ClaimView>)
    requires
        match m {
            MaybePrunedView::Full(c) => claim_wf(c),
            MaybePrunedView::Pruned(d) => d.len() == 8,
        },
        0 <= pos,
        pos + enc_mp_claim(m).len() <= s.len(),
        s.subrange(pos, pos + enc_mp_claim(m).len()) == enc_mp_claim(m),
    ensures
        dec_mp_claim(s, pos) == Some((m, pos + enc_mp_claim(m).len())),
{
    let e = enc_mp_claim(m);
    let n = e.len() as int;
    lemma_byte_at(s, pos, n, 0);
    match m {
        MaybePrunedView::Full(c) => {
            assert(s[pos] == 0u8);
            lemma_subrange_slice(s, pos, n, 1, n);
            assert(e.subrange(1, n) =~= enc_claim(c));
            lemma_claim_round_trip(s, pos + 1, c);
        },
        MaybePrunedView::Pruned(d) => {
            crate::digest::lemma_words_le_bytes_len(d);
            assert(s[pos] == 1u8);
            lemma_subrange_slice(s, pos, n, 1, n);
            assert(e.subrange(1, n) =~= enc_digest(d));
            lemma_digest_round_trip(s, pos + 1, d);
        },
    }
}

proof fn lemma_succinct_round_trip(s: Seq<u8>, pos: int, v: SuccinctView<ClaimView>)
    requires
        succinct_wf(v),
        0 <= pos,
        pos + enc_succinct(v).len() <= s.len(),
        s.subrange(pos, pos + enc_succinct(v).len()) == enc_succinct(v),
    ensures
        dec_succinct(s, pos) == Some((v, pos + enc_succinct(v).len())),
{
    let e = enc_succinct(v);
    let n = e.len() as int;
    crate::digest::lemma_words_le_bytes_len(v.control_id);
    crate::digest::lemma_words_le_bytes_len(v.verifier_parameters);
    let a = enc_seal(v.seal).len() as int;
    lemma_subrange_slice(s, pos, n, 0, a);
    assert(e.subrange(0, a) =~= enc_seal(v.seal));
    lemma_seal_round_trip(s, pos, v.seal);
    lemma_subrange_slice(s, pos, n, a, a + 32);
    assert(e.subrange(a, a + 32) =~= enc_digest(v.control_id));
    lemma_digest_round_trip(s, pos + a, v.control_id);
    let b = enc_mp_claim(v.claim).len() as int;
    lemma_subrange_slice(s, pos, n, a + 32, a + 32 + b);
    assert(e.subrange(a + 32, a + 32 + b) =~= enc_mp_claim(v.claim));
    lemma_mp_claim_round_trip(s, pos + a + 32, v.claim);
    lemma_subrange_slice(s, pos, n, a + 32 + b, n);
    assert(e.subrange(a + 32 + b, n) =~= enc_digest(v.verifier_parameters));
    lemma_digest_round_trip(s, pos + a + 32 + b, v.verifier_parameters);
}

/// Round trip: parsing the encoded form of any well-formed proof model
/// returns that model, unchanged, consuming the whole encoding.  In
/// particular the parsed receipt attests the same claim.
pub proof fn lemma_proof_round_trip(p: ProofView)
    requires
        proof_wf(p),
    ensures
        dec_proof(enc_proof(p), 0) == Some((p, enc_proof(p).len() as int)),
{
    let s = enc_proof(p);
    let n = s.len() as int;
    assert(s.subrange(0, n) =~= s);
    lemma_byte_at(s, 0, n, 0);
    match p.inner {
        InnerReceiptView::Composite(c) => {
            assert(s[0] == 0u8);
            lemma_subrange_slice(s, 0, n, 1, n);
            assert(s.subrange(0, n).subrange(1, n) =~= enc_composite(c));
            lemma_composite_round_trip(s, 1int, c);
        },
        InnerReceiptView::Succinct(sv) => {
            assert(s[0] == 1u8);
            lemma_subrange_slice(s, 0, n, 1, n);
            assert(s.subrange(0, n).subrange(1, n) =~= enc_succinct(sv));
            lemma_succinct_round_trip(s, 1int, sv);
        },
    }
}

/// Serializing and then deserializing a receipt leaves the claim it
/// attests unchanged: parsing the encoding succeeds and yields a receipt
/// whose extracted claim is that of the one encoded.
pub proof fn lemma_round_trip_preserves_claim(p: ProofView)
    requires
        proof_wf(p),
    ensures
        dec_proof(enc_proof(p), 0) matches Some((q, n)) && crate::receipt::inner_claim_spec(
            q.inner,
        ) == crate::receipt::inner_claim_spec(p.inner) && n == enc_proof(p).len(),
{
    lemma_proof_round_trip(p);
}

// ---------------------------------------------------------------------
// Executable encoding
// ---------------------------------------------------------------------

/// Append the eight little-endian bytes of `v` to `out`.
fn push_u64_le(out: &mut Vec<u8>, v: u64)
    ensures
        final(out)@ == old(out)@ + enc_u64(v),
{
    out.push((v & 0xff) as u8);
    out.push(((v >> 8) & 0xff) as u8);
    out.push(((v >> 16) & 0xff) as u8);
    out.push(((v >> 24) & 0xff) as u8);
    out.push(((v >> 32) & 0xff) as u8);
    out.push(((v >> 40) & 0xff) as u8);
    out.push(((v >> 48) & 0xff) as u8);
    out.push(((v >> 56) & 0xff) as u8);
    proof {
        assert(out@ =~= old(out)@ + enc_u64(v));
    }
}

/// Append a length-prefixed byte string to `out`.
fn push_bytes(out: &mut Vec<u8>, b: &Vec<u8>)
    ensures
        final(out)@ == old(out)@ + enc_bytes(b@),
{
    push_u64_le(out, b.len() as u64);
    let n = b.len();
    let mut i: usize = 0;
    while i < n
        invariant
            0 <= i <= n,
            n == b@.len(),
            out@ == old(out)@ + enc_u64(b@.len() as u64) + b@.take(i as int),
        decreases n - i,
    {
        out.push(b[i]);
        proof {
            assert(b@.take(i as int + 1) =~= b@.take(i as int).push(b@[i as int]));
            assert(out@ =~= old(out)@ + enc_u64(b@.len() as u64) + b@.take(i as int + 1));
        }
        i = i + 1;
    }
    proof {
        assert(b@.take(n as int) =~= b@);
        assert(out@ =~= old(out)@ + enc_bytes(b@));
    }
}

/// Append an encoded possibly pruned output to `out`.
fn encode_output(out: &mut Vec<u8>, o: &MaybePruned<Journal>)
    ensures
        final(out)@ == old(out)@ + enc_output(o@),
{
    match o {
        MaybePruned::Full(j) => {
            out.push(0u8);
            push_bytes(out, &j.bytes);
            proof {
                assert(out@ =~= old(out)@ + enc_output(o@));
            }
        },
        MaybePruned::Pruned(d) => {
            out.push(1u8);
            push_digest_le(out, d);
            proof {
                assert(out@ =~= old(out)@ + enc_output(o@));
            }
        },
    }
}

/// Append an encoded claim to `out`.
fn encode_claim(out: &mut Vec<u8>, c: &ReceiptClaim)
    ensures
        final(out)@ == old(out)@ + enc_claim(c@),
{
    push_digest_le(out, &c.program_id);
    let status: u8 = match c.exit {
        ExitStatus::Success => 0u8,
    };
    out.push(status);
    encode_output(out, &c.output);
    proof {
        assert(out@ =~= old(out)@ + enc_claim(c@));
    }
}

/// Append an encoded seal to `out`.
fn encode_seal(out: &mut Vec<u8>, s: &Seal)
    ensures
        final(out)@ == old(out)@ + enc_seal(s@),
{
    push_bytes(out, &s.tag);
    push_bytes(out, &s.data);
    proof {
        assert(out@ =~= old(out)@ + enc_seal(s@));
    }
}

/// Append an encoded segment receipt to `out`.
fn encode_segment(out: &mut Vec<u8>, s: &SegmentReceipt)
    ensures
        final(out)@ == old(out)@ + enc_segment(s@),
{
    encode_seal(out, &s.seal);
    let kb: u8 = match s.hashfn {
        HashKind::Sha256 => 0u8,
        HashKind::Poseidon2 => 1u8,
        HashKind::Blake2b => 2u8,
    };
    out.push(kb);
    push_u64_le(out, s.po2 as u64);
    encode_claim(out, &s.claim);
    proof {
        assert(s@.po2 as u64 == s.po2 as u64);
        assert(out@ =~= old(out)@ + enc_segment(s@));
    }
}

/// Appending one segment to a chain appends its encoding.
proof fn lemma_enc_segments_push(ss: Seq<SegmentView>, x: SegmentView)
    ensures
        enc_segments(ss.push(x)) == enc_segments(ss) + enc_segment(x),
    decreases ss.len(),
{
    if ss.len() == 0 {
        assert(ss.push(x).first() == x);
        assert(ss.push(x).drop_first() =~= Seq::<SegmentView>::empty());
        assert(enc_segments(Seq::<SegmentView>::empty()) == Seq::<u8>::empty());
        assert(enc_segments(ss) == Seq::<u8>::empty());
        assert(enc_segments(ss.push(x)) == enc_segment(x) + enc_segments(ss.push(x).drop_first()));
        assert(enc_segments(ss.push(x)) =~= enc_segments(ss) + enc_segment(x));
    } else {
        assert(ss.push(x).first() == ss.first());
        assert(ss.push(x).drop_first() =~= ss.drop_first().push(x));
        lemma_enc_segments_push(ss.drop_first(), x);
        assert(enc_segments(ss.push(x)) =~= enc_segments(ss) + enc_segment(x));
    }
}

/// Append an encoded composite receipt to `out`.
fn encode_composite(out: &mut Vec<u8>, c: &CompositeReceipt)
    ensures
        final(out)@ == old(out)@ + enc_composite(c@),
{
    push_u64_le(out, c.segments.len() as u64);
    let n = c.segments.len();
    let mut i: usize = 0;
    while i < n
        invariant
            0 <= i <= n,
            n == c.segments@.len(),
            c@.segments.len() == n,
            out@ == old(out)@ + enc_u64(c@.segments.len() as u64) + enc_segments(
                c@.segments.take(i as int),
            ),
        decreases n - i,
    {
        encode_segment(out, &c.segments[i]);
        proof {
            assert(c@.segments.take(i as int + 1) =~= c@.segments.take(i as int).push(
                c@.segments[i as int],
            ));
            lemma_enc_segments_push(c@.segments.take(i as int), c@.segments[i as int]);
            assert(out@ =~= old(out)@ + enc_u64(c@.segments.len() as u64) + enc_segments(
                c@.segments.take(i as int + 1),
            ));
        }
        i = i + 1;
    }
    push_digest_le(out, &c.verifier_parameters);
    proof {
        assert(c@.segments.take(n as int) =~= c@.segments);
        assert(out@ =~= old(out)@ + enc_composite(c@));
    }
}

/// Append an encoded possibly pruned claim to `out`.
fn encode_mp_claim(out: &mut Vec<u8>, m: &MaybePruned<ReceiptClaim>)
    ensures
        final(out)@ == old(out)@ + enc_mp_claim(m@),
{
    match m {
        MaybePruned::Full(c) => {
            out.push(0u8);
            encode_claim(out, c);
            proof {
                assert(out@ =~= old(out)@ + enc_mp_claim(m@));
            }
        },
        MaybePruned::Pruned(d) => {
            out.push(1u8);
            push_digest_le(out, d);
            proof {
                assert(out@ =~= old(out)@ + enc_mp_claim(m@));
            }
        },
    }
}

/// Append an encoded succinct receipt to `out`.
fn encode_succinct(out: &mut Vec<u8>, s: &SuccinctReceipt<ReceiptClaim>)
    ensures
        final(out)@ == old(out)@ + enc_succinct(s@),
{
    encode_seal(out, &s.seal);
    push_digest_le(out, &s.control_id);
    encode_mp_claim(out, &s.claim);
    push_digest_le(out, &s.verifier_parameters);
    proof {
        assert(out@ =~= old(out)@ + enc_succinct(s@));
    }
}

/// Serialize a proof to bytes: a variant discriminant followed by the
/// variant's fields.
pub fn encode_proof(p: &Proof) -> (r: Vec<u8>)
    ensures
        r@ == enc_proof(p@),
{
    let mut out: Vec<u8> = Vec::new();
    match &p.inner {
        InnerReceipt::Composite(c) => {
            out.push(0u8);
            encode_composite(&mut out, c);
        },
        InnerReceipt::Succinct(s) => {
            out.push(1u8);
            encode_succinct(&mut out, s);
        },
    }
    proof {
        assert(out@ =~= enc_proof(p@));
    }
    out
}

// ---------------------------------------------------------------------
// Executable decoding
// ---------------------------------------------------------------------

/// Read one byte.
fn read_u8(buf: &Vec<u8>, pos: usize) -> (r: Option<(u8, usize)>)
    ensures
        match r {
            Some((v, n)) => dec_u8(buf@, pos as int) == Some((v, n as int)),
            None => dec_u8(buf@, pos as int) is None,
        },
{
    if pos < buf.len() {
        Some((buf[pos], pos + 1))
    } else {
        None
    }
}

/// Read a 64-bit value, least significant byte first.
fn read_u64(buf: &Vec<u8>, pos: usize) -> (r: Option<(u64, usize)>)
    ensures
        match r {
            Some((v, n)) => dec_u64(buf@, pos as int) == Some((v, n as int)) && n as int == pos
                + 8 && n <= buf@.len(),
            None => dec_u64(buf@, pos as int) is None,
        },
{
    if pos <= buf.len() && buf.len() - pos >= 8 {
        let v = (buf[pos] as u64) | (buf[pos + 1] as u64) << 8 | (buf[pos + 2] as u64) << 16 | (
        buf[pos + 3] as u64) << 24 | (buf[pos + 4] as u64) << 32 | (buf[pos + 5] as u64) << 40 | (
        buf[pos + 6] as u64) << 48 | (buf[pos + 7] as u64) << 56;
        Some((v, pos + 8))
    } else {
        None
    }
}

/// Read a 32-bit word, least significant byte first.
fn read_u32_at(buf: &Vec<u8>, pos: usize) -> (r: u32)
    requires
        pos + 4 <= buf.len(),
    ensures
        r == u32_from_le(
            buf@[pos as int],
            buf@[pos as int + 1],
            buf@[pos as int + 2],
            buf@[pos as int + 3],
        ),
{
    (buf[pos] as u32) | (buf[pos + 1] as u32) << 8 | (buf[pos + 2] as u32) << 16 | (buf[pos
        + 3] as u32) << 24
}

/// Read a digest: eight words from 32 bytes.
fn read_digest(buf: &Vec<u8>, pos: usize) -> (r: Option<(Digest, usize)>)
    ensures
        match r {
            Some((d, n)) => dec_digest(buf@, pos as int) == Some((d@, n as int)) && n <= buf@.len(),
            None => dec_digest(buf@, pos as int) is None,
        },
{
    if pos <= buf.len() && buf.len() - pos >= 32 {
        let words: [u32; 8] = [
            read_u32_at(buf, pos),
            read_u32_at(buf, pos + 4),
            read_u32_at(buf, pos + 8),
            read_u32_at(buf, pos + 12),
            read_u32_at(buf, pos + 16),
            read_u32_at(buf, pos + 20),
            read_u32_at(buf, pos + 24),
            read_u32_at(buf, pos + 28),
        ];
        let d = Digest::from_words(&words);
        proof {
            let parsed = Seq::new(
                8,
                |i: int|
                    u32_from_le(
                        buf@[pos + 4 * i],
                        buf@[pos + 4 * i + 1],
                        buf@[pos + 4 * i + 2],
                        buf@[pos + 4 * i + 3],
                    ),
            );
            assert(d@ =~= parsed);
        }
        Some((d, pos + 32))
    } else {
        None
    }
}

/// Read a length-prefixed byte string.
fn read_bytes(buf: &Vec<u8>, pos: usize) -> (r: Option<(Vec<u8>, usize)>)
    ensures
        match r {
            Some((b, n)) => dec_bytes(buf@, pos as int) == Some((b@, n as int)) && n <= buf@.len(),
            None => dec_bytes(buf@, pos as int) is None,
        },
{
    match read_u64(buf, pos) {
        None => None,
        Some((len64, p)) => {
            if len64 <= (buf.len() - p) as u64 {
                let m = len64 as usize;
                let mut b: Vec<u8> = Vec::new();
                let mut j: usize = 0;
                while j < m
                    invariant
                        0 <= j <= m,
                        p + m <= buf.len(),
                        b@ =~= buf@.subrange(p as int, p as int + j as int),
                    decreases m - j,
                {
                    b.push(buf[p + j]);
                    proof {
                        assert(b@ =~= buf@.subrange(p as int, p as int + j as int + 1));
                    }
                    j = j + 1;
                }
                Some((b, p + m))
            } else {
                None
            }
        },
    }
}

/// Read a possibly pruned output.
fn read_output(buf: &Vec<u8>, pos: usize) -> (r: Option<(MaybePruned<Journal>, usize)>)
    ensures
        match r {
            Some((o, n)) => dec_output(buf@, pos as int) == Some((o@, n as int)) && n
                <= buf@.len(),
            None => dec_output(buf@, pos as int) is None,
        },
{
    match read_u8(buf, pos) {
        None => None,
        Some((t, p)) => {
            if t == 0 {
                match read_bytes(buf, p) {
                    None => None,
                    Some((b, p2)) => Some((MaybePruned::Full(Journal::new(b)), p2)),
                }
            } else if t == 1 {
                match read_digest(buf, p) {
                    None => None,
                    Some((d, p2)) => Some((MaybePruned::Pruned(d), p2)),
                }
            } else {
                None
            }
        },
    }
}

/// Read a claim.
fn read_claim(buf: &Vec<u8>, pos: usize) -> (r: Option<(ReceiptClaim, usize)>)
    ensures
        match r {
            Some((c, n)) => dec_claim(buf@, pos as int) == Some((c@, n as int)) && n
                <= buf@.len(),
            None => dec_claim(buf@, pos as int) is None,
        },
{
    match read_digest(buf, pos) {
        None => None,
        Some((id, p)) => match read_u8(buf, p) {
            None => None,
            Some((e, p2)) => {
                if e == 0 {
                    match read_output(buf, p2) {
                        None => None,
                        Some((o, p3)) => Some(
                            (
                                ReceiptClaim {
                                    program_id: id,
                                    exit: ExitStatus::Success,
                                    output: o,
                                },
                                p3,
                            ),
                        ),
                    }
                } else {
                    None
                }
            },
        },
    }
}

/// Read a seal.
fn read_seal(buf: &Vec<u8>, pos: usize) -> (r: Option<(Seal, usize)>)
    ensures
        match r {
            Some((s, n)) => dec_seal(buf@, pos as int) == Some((s@, n as int)) && n <= buf@.len(),
            None => dec_seal(buf@, pos as int) is None,
        },
{
    match read_bytes(buf, pos) {
        None => None,
        Some((tag, p)) => match read_bytes(buf, p) {
            None => None,
            Some((data, p2)) => Some((Seal { tag, data }, p2)),
        },
    }
}

/// Read a segment receipt.
fn read_segment(buf: &Vec<u8>, pos: usize) -> (r: Option<(SegmentReceipt, usize)>)
    ensures
        match r {
            Some((s, n)) => dec_segment(buf@, pos as int) == Some((s@, n as int)) && n
                <= buf@.len(),
            None => dec_segment(buf@, pos as int) is None,
        },
{
    match read_seal(buf, pos) {
        None => None,
        Some((seal, p)) => match read_u8(buf, p) {
            None => None,
            Some((kb, p2)) => {
                let kind: Option<HashKind> = if kb == 0 {
                    Some(HashKind::Sha256)
                } else if kb == 1 {
                    Some(HashKind::Poseidon2)
                } else if kb == 2 {
                    Some(HashKind::Blake2b)
                } else {
                    None
                };
                match kind {
                    None => None,
                    Some(k) => match read_u64(buf, p2) {
                        None => None,
                        Some((v, p3)) => {
                            if v <= usize::MAX as u64 {
                                let po2 = v as usize;
                                match read_claim(buf, p3) {
                                    None => None,
                                    Some((c, p4)) => Some(
                                        (SegmentReceipt { seal, hashfn: k, po2, claim: c }, p4),
                                    ),
                                }
                            } else {
                                None
                            }
                        },
                    },
                }
            },
        },
    }
}

/// Read `n` segment receipts.
fn read_segments(buf: &Vec<u8>, pos: usize, n: usize) -> (r: Option<(Vec<SegmentReceipt>, usize)>)
    ensures
        match r {
            Some((ss, q)) => dec_segments(buf@, pos as int, n as int) == Some(
                (ss@.map_values(|s: SegmentReceipt| s@), q as int),
            ),
            None => dec_segments(buf@, pos as int, n as int) is None,
        },
{
    let mut acc: Vec<SegmentReceipt> = Vec::new();
    let mut cur: usize = pos;
    let mut i: usize = 0;
    while i < n
        invariant
            0 <= i <= n,
            acc@.len() == i,
            dec_segments(buf@, pos as int, n as int) == match dec_segments(
                buf@,
                cur as int,
                n as int - i as int,
            ) {
                None => None::<(Seq<SegmentView>, int)>,
                Some((rest, q)) => Some((acc@.map_values(|s: SegmentReceipt| s@) + rest, q)),
            },
        decreases n - i,
    {
        match read_segment(buf, cur) {
            None => {
                return None;
            },
            Some((sv, p)) => {
                proof {
                    let f = |s: SegmentReceipt| s@;
                    assert(acc@.push(sv).map_values(f) =~= acc@.map_values(f).push(sv@));
                    assert forall|rest: Seq<SegmentView>|
                        true implies acc@.map_values(f) + (seq![sv@] + rest) =~= acc@.push(
                        sv,
                    ).map_values(f) + rest by {
                        assert(acc@.map_values(f) + (seq![sv@] + rest) =~= acc@.map_values(
                            f,
                        ).push(sv@) + rest);
                    }
                }
                acc.push(sv);
                cur = p;
            },
        }
        i = i + 1;
    }
    proof {
        assert(dec_segments(buf@, cur as int, 0) == Some((Seq::<SegmentView>::empty(), cur as int)));
        assert(acc@.map_values(|s: SegmentReceipt| s@) + Seq::<SegmentView>::empty()
            =~= acc@.map_values(|s: SegmentReceipt| s@));
    }
    Some((acc, cur))
}

/// Read a composite receipt.
fn read_composite(buf: &Vec<u8>, pos: usize) -> (r: Option<(CompositeReceipt, usize)>)
    ensures
        match r {
            Some((c, n)) => dec_composite(buf@, pos as int) == Some((c@, n as int)) && n
                <= buf@.len(),
            None => dec_composite(buf@, pos as int) is None,
        },
{
    match read_u64(buf, pos) {
        None => None,
        Some((n64, p)) => {
            if n64 <= usize::MAX as u64 {
                let n = n64 as usize;
                match read_segments(buf, p, n) {
                    None => None,
                    Some((segments, p2)) => match read_digest(buf, p2) {
                        None => None,
                        Some((vp, p3)) => Some(
                            (CompositeReceipt { segments, verifier_parameters: vp }, p3),
                        ),
                    },
                }
            } else {
                None
            }
        },
    }
}

/// Read a possibly pruned claim.
fn read_mp_claim(buf: &Vec<u8>, pos: usize) -> (r: Option<(MaybePruned<ReceiptClaim>, usize)>)
    ensures
        match r {
            Some((m, n)) => dec_mp_claim(buf@, pos as int) == Some((m@, n as int)) && n
                <= buf@.len(),
            None => dec_mp_claim(buf@, pos as int) is None,
        },
{
    match read_u8(buf, pos) {
        None => None,
        Some((t, p)) => {
            if t == 0 {
                match read_claim(buf, p) {
                    None => None,
                    Some((c, p2)) => Some((MaybePruned::Full(c), p2)),
                }
            } else if t == 1 {
                match read_digest(buf, p) {
                    None => None,
                    Some((d, p2)) => Some((MaybePruned::Pruned(d), p2)),
                }
            } else {
                None
            }
        },
    }
}

/// Read a succinct receipt.
fn read_succinct(buf: &Vec<u8>, pos: usize) -> (r: Option<(SuccinctReceipt<ReceiptClaim>, usize)>)
    ensures
        match r {
            Some((s, n)) => dec_succinct(buf@, pos as int) == Some((s@, n as int)) && n
                <= buf@.len(),
            None => dec_succinct(buf@, pos as int) is None,
        },
{
    match read_seal(buf, pos) {
        None => None,
        Some((seal, p)) => match read_digest(buf, p) {
            None => None,
            Some((cid, p2)) => match read_mp_claim(buf, p2) {
                None => None,
                Some((mc, p3)) => match read_digest(buf, p3) {
                    None => None,
                    Some((vp, p4)) => Some(
                        (
                            SuccinctReceipt {
                                seal,
                                control_id: cid,
                                claim: mc,
                                verifier_parameters: vp,
                            },
                            p4,
                        ),
                    ),
                },
            },
        },
    }
}

/// Deserialize a proof from bytes.  Returns the proof exactly when the
/// bytes are a complete encoding of one proof; trailing bytes or a
/// malformed prefix give nothing.
pub fn decode_proof(buf: &Vec<u8>) -> (r: Option<Proof>)
    ensures
        match r {
            Some(p) => dec_proof(buf@, 0) == Some((p@, buf@.len() as int)),
            None => match dec_proof(buf@, 0) {
                None => true,
                Some((pv, n)) => n != buf@.len(),
            },
        },
{
    let parsed: Option<(InnerReceipt, usize)> = match read_u8(buf, 0) {
        None => None,
        Some((t, p)) => {
            if t == 0 {
                match read_composite(buf, p) {
                    None => None,
                    Some((c, p2)) => Some((InnerReceipt::Composite(c), p2)),
                }
            } else if t == 1 {
                match read_succinct(buf, p) {
                    None => None,
                    Some((s, p2)) => Some((InnerReceipt::Succinct(s), p2)),
                }
            } else {
                None
            }
        },
    };
    match parsed {
        None => None,
        Some((inner, p)) => {
            if p == buf.len() {
                Some(Proof { inner })
            } else {
                None
            }
        },
    }
}

} // verus!
