//! Succinct receipts: a single aggregated proof over an entire claim,
//! verified against the recursion circuit.

use vstd::prelude::*;

use crate::circuit::CircuitCoreDef;
use crate::digest::{bytes_eq, digest_eq, Digest};
use crate::receipt::{Seal, SealView};
use crate::receipt_claim::{
    maybe_pruned_digest, ClaimView, MaybePruned, MaybePrunedView, ReceiptClaim, Unknown,
};
use crate::sha::Digestible;
use crate::{res_view, ErrorView, VerificationError, VerifierContext};

verus! {

/// A single aggregated proof of an entire claim.  The claim is kept
/// alongside the seal, not re-derived: a succinct proof binds an opaque
/// claim digest, not a decodable structure.
pub struct SuccinctReceipt<C: Digestible> {
    /// The cryptographic seal over the recursion circuit.
    pub seal: Seal,
    /// Control identifier binding the seal to the recursion program that
    /// produced it.
    pub control_id: Digest,
    /// The claim this receipt attests, possibly pruned to its digest.
    pub claim: MaybePruned<C>,
    /// Digest of the verifier-parameter set this receipt requires.
    pub verifier_parameters: Digest,
}

/// Model of a [`SuccinctReceipt`] over the model `V` of its claim type.
pub ghost struct SuccinctView<V> {
    /// Model of the seal.
    pub seal: SealView,
    /// Control identifier binding the seal to its recursion program.
    pub control_id: Seq<u32>,
    /// Model of the claim.
    pub claim: MaybePrunedView<V>,
    /// Digest of the required verifier-parameter set.
    pub verifier_parameters: Seq<u32>,
}

impl<C: Digestible> View for SuccinctReceipt<C> {
    type V = SuccinctView<C::V>;

    open spec fn view(&self) -> SuccinctView<C::V> {
        SuccinctView {
            seal: self.seal@,
            control_id: self.control_id@,
            claim: self.claim@,
            verifier_parameters: self.verifier_parameters@,
        }
    }
}

/// The integrity verdict on a succinct receipt: it must declare the
/// verifier parameters the context recognizes, its seal must carry the
/// recursion circuit's protocol tag, and the delegated cryptographic
/// check must accept the seal against the receipt's control identifier.
pub open spec fn succinct_integrity<SC: CircuitCoreDef, RC: CircuitCoreDef, V>(
    s: SuccinctView<V>,
    ctx: VerifierContext<SC, RC>,
) -> Result<(), ErrorView> {
    if s.verifier_parameters != ctx.succinct_verifier_parameters@ {
        Err(ErrorView::UnsupportedParameters)
    } else if s.seal.tag != ctx.recursive_circuit.protocol_info_spec() {
        Err(ErrorView::UnsupportedParameters)
    } else {
        ctx.recursive_circuit.seal_check(s.seal, s.control_id)
    }
}

impl<C: Digestible> SuccinctReceipt<C> {
    /// Verify the integrity of this receipt: check the seal against the
    /// recursion circuit definition the context supplies.  The engine's
    /// verdict is returned unchanged.
    pub fn verify_integrity_with_context<SC: CircuitCoreDef, RC: CircuitCoreDef>(
        &self,
        ctx: &VerifierContext<SC, RC>,
    ) -> (r: Result<(), VerificationError>)
        ensures
            res_view(r) == succinct_integrity(self@, *ctx),
    {
        if !digest_eq(&self.verifier_parameters, &ctx.succinct_verifier_parameters) {
            return Err(VerificationError::UnsupportedParameters);
        }
        let info = ctx.recursive_circuit.protocol_info();
        if !bytes_eq(&self.seal.tag, &info) {
            return Err(VerificationError::UnsupportedParameters);
        }
        ctx.recursive_circuit.verify_seal(&self.seal, &self.control_id)
    }

    /// The claim this receipt attests, as stored.
    pub fn claim(&self) -> (r: MaybePruned<C>)
        ensures
            r@ == self@.claim,
    {
        self.claim.dup()
    }

    /// Produce an owned receipt with the same model.
    pub fn dup(&self) -> (r: SuccinctReceipt<C>)
        ensures
            r@ == self@,
    {
        SuccinctReceipt {
            seal: self.seal.dup(),
            control_id: self.control_id,
            claim: self.claim.dup(),
            verifier_parameters: self.verifier_parameters,
        }
    }
}

impl SuccinctReceipt<ReceiptClaim> {
    /// Erase the claim type: the claim is replaced by its digest.  This
    /// conversion is one-directional; the full claim cannot be recovered
    /// from the result.
    pub fn into_unknown(self) -> (r: SuccinctReceipt<Unknown>)
        ensures
            r@.seal == self@.seal,
            r@.control_id == self@.control_id,
            r@.verifier_parameters == self@.verifier_parameters,
            r@.claim == MaybePrunedView::<()>::Pruned(
                maybe_pruned_digest::<ReceiptClaim>(self@.claim),
            ),
    {
        let d = self.claim.digest();
        SuccinctReceipt {
            seal: self.seal,
            control_id: self.control_id,
            claim: MaybePruned::Pruned(d),
            verifier_parameters: self.verifier_parameters,
        }
    }
}

} // verus!
