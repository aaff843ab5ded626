//! Composite receipts: one proof segment per slice of the execution, all
//! verified against the base execution circuit.

use vstd::prelude::*;

use crate::circuit::{lookup_spec, CircuitCoreDef, HashKind};
use crate::digest::{bytes_eq, digest_eq, Digest};
use crate::receipt::{Seal, SealView};
use crate::receipt_claim::{ClaimView, ReceiptClaim};
use crate::sha::Digestible;
use crate::{res_view, ErrorView, VerificationError, VerifierContext};

verus! {

/// The proof of a single execution segment: a seal over the base circuit,
/// the hash function and size class it was produced with, and the claim it
/// attests.
pub struct SegmentReceipt {
    /// The cryptographic seal of this segment.
    pub seal: Seal,
    /// Hash function the seal was produced with.
    pub hashfn: HashKind,
    /// Size class of the segment: the power of two of cycles it covers.
    pub po2: usize,
    /// The claim this segment attests.
    pub claim: ReceiptClaim,
}

/// Model of a [`SegmentReceipt`].
pub ghost struct SegmentView {
    /// Model of the seal.
    pub seal: SealView,
    /// Hash function the seal was produced with.
    pub hashfn: HashKind,
    /// Size class of the segment.
    pub po2: int,
    /// Model of the claim.
    pub claim: ClaimView,
}

impl View for SegmentReceipt {
    type V = SegmentView;

    open spec fn view(&self) -> SegmentView {
        SegmentView { seal: self.seal@, hashfn: self.hashfn, po2: self.po2 as int, claim: self.claim@ }
    }
}

/// A receipt composed of one segment proof per slice of the execution,
/// together with the digest of the verifier parameters it was produced
/// for.
pub struct CompositeReceipt {
    /// The per-segment proofs, in execution order.
    pub segments: Vec<SegmentReceipt>,
    /// Digest of the verifier-parameter set this receipt requires.
    pub verifier_parameters: Digest,
}

/// Model of a [`CompositeReceipt`].
pub ghost struct CompositeView {
    /// Models of the segments, in order.
    pub segments: Seq<SegmentView>,
    /// Digest of the required verifier-parameter set.
    pub verifier_parameters: Seq<u32>,
}

impl View for CompositeReceipt {
    type V = CompositeView;

    open spec fn view(&self) -> CompositeView {
        CompositeView {
            segments: self.segments@.map_values(|s: SegmentReceipt| s@),
            verifier_parameters: self.verifier_parameters@,
        }
    }
}

/// The verdict on one segment: its size class must be supported by the
/// context and the registry, its seal must carry the segment circuit's
/// protocol tag, and the delegated cryptographic check must accept the
/// seal against the control identifier the registry selects.
pub open spec fn segment_check<SC: CircuitCoreDef, RC: CircuitCoreDef>(
    seg: SegmentView,
    ctx: VerifierContext<SC, RC>,
) -> Result<(), ErrorView> {
    if seg.po2 > ctx.segment_max_po2 {
        Err(ErrorView::UnsupportedParameters)
    } else {
        match lookup_spec(ctx.control_ids@, seg.hashfn, seg.po2) {
            Option::None => Err(ErrorView::UnsupportedParameters),
            Option::Some(cid) => {
                if seg.seal.tag != ctx.segment_circuit.protocol_info_spec() {
                    Err(ErrorView::UnsupportedParameters)
                } else {
                    ctx.segment_circuit.seal_check(seg.seal, cid)
                }
            },
        }
    }
}

/// The verdict on a segment chain: the first failing segment's error, in
/// order, or success when every segment passes.
pub open spec fn segments_check<SC: CircuitCoreDef, RC: CircuitCoreDef>(
    segs: Seq<SegmentView>,
    ctx: VerifierContext<SC, RC>,
) -> Result<(), ErrorView>
    decreases segs.len(),
{
    if segs.len() == 0 {
        Ok(())
    } else {
        match segment_check(segs.first(), ctx) {
            Err(e) => Err(e),
            Ok(()) => segments_check(segs.drop_first(), ctx),
        }
    }
}

/// The integrity verdict on a composite receipt: the chain must be
/// nonempty, the receipt must declare the verifier parameters the context
/// recognizes, and every segment must pass [`segment_check`].
pub open spec fn composite_integrity<SC: CircuitCoreDef, RC: CircuitCoreDef>(
    c: CompositeView,
    ctx: VerifierContext<SC, RC>,
) -> Result<(), ErrorView> {
    if c.segments.len() == 0 {
        Err(ErrorView::ReceiptFormatError)
    } else if c.verifier_parameters != ctx.composite_verifier_parameters@ {
        Err(ErrorView::UnsupportedParameters)
    } else {
        segments_check(c.segments, ctx)
    }
}

/// The claim a composite receipt attests: that of its final segment, the
/// one that halted; an empty chain is malformed.
pub open spec fn composite_claim_spec(c: CompositeView) -> Result<ClaimView, ErrorView> {
    if c.segments.len() == 0 {
        Err(ErrorView::ReceiptFormatError)
    } else {
        Ok(c.segments.last().claim)
    }
}

/// The model of a claim-extraction outcome.
pub open spec fn claim_res_view(r: Result<ReceiptClaim, VerificationError>) -> Result<
    ClaimView,
    ErrorView,
> {
    match r {
        Ok(c) => Ok(c@),
        Err(e) => Err(e@),
    }
}

impl CompositeReceipt {
    /// Verify the integrity of this receipt: check every segment's seal
    /// against the circuit definition and control identifiers the context
    /// supplies.  The first failure, in order, is returned unchanged.
    pub fn verify_integrity_with_context<SC: CircuitCoreDef, RC: CircuitCoreDef>(
        &self,
        ctx: &VerifierContext<SC, RC>,
    ) -> (r: Result<(), VerificationError>)
        ensures
            res_view(r) == composite_integrity(self@, *ctx),
    {
        if self.segments.len() == 0 {
            return Err(VerificationError::ReceiptFormatError);
        }
        if !digest_eq(&self.verifier_parameters, &ctx.composite_verifier_parameters) {
            return Err(VerificationError::UnsupportedParameters);
        }
        let n = self.segments.len();
        let mut i: usize = 0;
        proof {
            assert(self@.segments.skip(0) =~= self@.segments);
        }
        while i < n
            invariant
                0 <= i <= n,
                n == self.segments@.len(),
                self@.segments.len() == n,
                n > 0,
                self@.verifier_parameters == ctx.composite_verifier_parameters@,
                segments_check(self@.segments, *ctx) == segments_check(
                    self@.segments.skip(i as int),
                    *ctx,
                ),
            decreases n - i,
        {
            let seg = &self.segments[i];
            proof {
                assert(self@.segments[i as int] == self.segments@[i as int]@);
                assert(self@.segments.skip(i as int).first() == self@.segments[i as int]);
            }
            if seg.po2 > ctx.segment_max_po2 {
                return Err(VerificationError::UnsupportedParameters);
            }
            match ctx.control_ids.lookup(seg.hashfn, seg.po2) {
                Option::None => {
                    return Err(VerificationError::UnsupportedParameters);
                },
                Option::Some(cid) => {
                    let info = ctx.segment_circuit.protocol_info();
                    if !bytes_eq(&seg.seal.tag, &info) {
                        return Err(VerificationError::UnsupportedParameters);
                    }
                    match ctx.segment_circuit.verify_seal(&seg.seal, &cid) {
                        Err(e) => {
                            proof {
                                assert(segment_check(self@.segments[i as int], *ctx) == Err::<
                                    (),
                                    ErrorView,
                                >(e@));
                                assert(segments_check(self@.segments.skip(i as int), *ctx)
                                    == Err::<(), ErrorView>(e@));
                            }
                            return Err(e);
                        },
                        Ok(()) => {},
                    }
                },
            }
            proof {
                assert(segment_check(self@.segments[i as int], *ctx) == Ok::<(), ErrorView>(()));
                assert(self@.segments.skip(i as int).drop_first() =~= self@.segments.skip(
                    i as int + 1,
                ));
            }
            i = i + 1;
        }
        proof {
            assert(self@.segments.skip(n as int) =~= Seq::<SegmentView>::empty());
        }
        Ok(())
    }

    /// Extract the claim this receipt attests: the claim of its final
    /// segment.  An empty segment chain is malformed.
    pub fn claim(&self) -> (r: Result<ReceiptClaim, VerificationError>)
        ensures
            claim_res_view(r) == composite_claim_spec(self@),
    {
        if self.segments.len() == 0 {
            Err(VerificationError::ReceiptFormatError)
        } else {
            let last = &self.segments[self.segments.len() - 1];
            proof {
                assert(self@.segments.last() == self.segments@[self.segments@.len() - 1]@);
            }
            Ok(last.claim.dup())
        }
    }

    /// Produce an owned receipt with the same model.
    pub fn dup(&self) -> (r: CompositeReceipt)
        ensures
            r@ == self@,
    {
        let mut segments: Vec<SegmentReceipt> = Vec::new();
        let n = self.segments.len();
        let mut i: usize = 0;
        while i < n
            invariant
                0 <= i <= n,
                n == self.segments@.len(),
                segments@.len() == i,
                forall|j: int| 0 <= j < i ==> #[trigger] segments@[j]@ == self@.segments[j],
            decreases n - i,
        {
            let s = &self.segments[i];
            segments.push(
                SegmentReceipt {
                    seal: s.seal.dup(),
                    hashfn: s.hashfn,
                    po2: s.po2,
                    claim: s.claim.dup(),
                },
            );
            proof {
                assert(segments@[i as int]@ == self@.segments[i as int]);
            }
            i = i + 1;
        }
        let r = CompositeReceipt { segments, verifier_parameters: self.verifier_parameters };
        proof {
            assert(r@.segments =~= self@.segments);
            assert(r@ =~= self@);
        }
        r
    }
}

} // verus!
