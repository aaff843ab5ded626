//! Verification core for zero-knowledge execution receipts.
//!
//! A receipt attests that a program, named by an image identifier, ran inside
//! a zero-knowledge virtual machine and halted successfully with a given
//! public output.  This crate models the receipt shapes (segment-composed and
//! succinct), the claim each receipt attests, the registry of circuit control
//! identifiers, and the dispatcher that decides whether a receipt proves the
//! claim a caller expects.  The cryptographic seal check itself is delegated
//! to a circuit definition supplied through [`circuit::CircuitCoreDef`].

use vstd::prelude::*;

pub mod circuit;
pub mod codec;
pub mod digest;
pub mod receipt;
pub mod receipt_claim;
pub mod sha;

use circuit::{CircuitCoreDef, ControlIdRegistry};
use digest::Digest;

verus! {

/// Smallest supported execution-size class: the least power of two of cycles
/// a single segment proof may cover.
pub const MIN_CYCLES_PO2: usize = 13;

/// Largest supported execution-size class: the greatest power of two of
/// cycles a single segment proof may cover.
pub const MAX_CYCLES_PO2: usize = 24;

/// The verdict of every failed verification step.
///
/// No error is ever downgraded to a success; each variant names the first
/// check that failed.
#[derive(Clone, Copy, Debug, PartialEq, Eq, Structural)]
pub enum VerificationError {
    /// The receipt is structurally malformed: an empty segment chain, or the
    /// wrong variant was requested from a tagged union.
    ReceiptFormatError,
    /// The receipt asks for verifier parameters, a circuit version, or a
    /// size class that the supplied context does not recognize.
    UnsupportedParameters,
    /// The delegated cryptographic check rejected the seal.
    InvalidProof,
    /// The seal is intact but attests a different claim than the caller
    /// expected; both digests are carried for diagnostics.
    ClaimDigestMismatch {
        /// Digest of the claim the caller expected.
        expected: Digest,
        /// Digest of the claim the receipt actually attests.
        received: Digest,
    },
}

/// Mathematical model of a [`VerificationError`]: digests become sequences
/// of words, so that contracts can speak about error values produced by
/// different executions.
pub ghost enum ErrorView {
    ReceiptFormatError,
    UnsupportedParameters,
    InvalidProof,
    ClaimDigestMismatch { expected: Seq<u32>, received: Seq<u32> },
}

impl View for VerificationError {
    type V = ErrorView;

    open spec fn view(&self) -> ErrorView {
        match *self {
            VerificationError::ReceiptFormatError => ErrorView::ReceiptFormatError,
            VerificationError::UnsupportedParameters => ErrorView::UnsupportedParameters,
            VerificationError::InvalidProof => ErrorView::InvalidProof,
            VerificationError::ClaimDigestMismatch { expected, received } => {
                ErrorView::ClaimDigestMismatch { expected: expected@, received: received@ }
            },
        }
    }
}

/// The model of a verification outcome: `Ok` stays `Ok`, an error is
/// replaced by its view.
pub open spec fn res_view(r: Result<(), VerificationError>) -> Result<(), ErrorView> {
    match r {
        Ok(()) => Ok(()),
        Err(e) => Err(e@),
    }
}

/// Read-only configuration for one verification call: the circuit
/// definition used for each receipt shape, the control identifiers the
/// base circuit accepts, the verifier-parameter digests the context
/// recognizes, and the largest segment size class it accepts.
///
/// A context is immutable after construction and may be shared by
/// reference across concurrent verifications.
pub struct VerifierContext<SC: CircuitCoreDef, RC: CircuitCoreDef> {
    /// Circuit definition used for each segment of a composite receipt.
    pub segment_circuit: SC,
    /// Circuit definition used for succinct receipts.
    pub recursive_circuit: RC,
    /// Control identifiers the segment circuit accepts, per hash function
    /// and size class.
    pub control_ids: ControlIdRegistry,
    /// The verifier-parameter digest composite receipts must declare.
    pub composite_verifier_parameters: Digest,
    /// The verifier-parameter digest succinct receipts must declare.
    pub succinct_verifier_parameters: Digest,
    /// Largest segment size class this context accepts.
    pub segment_max_po2: usize,
}

impl<SC: CircuitCoreDef, RC: CircuitCoreDef> VerifierContext<SC, RC> {
    /// Bundle circuit definitions and parameters into a context.  The
    /// default segment size bound is [`receipt::DEFAULT_MAX_PO2`].
    pub fn new(
        segment_circuit: SC,
        recursive_circuit: RC,
        control_ids: ControlIdRegistry,
        composite_verifier_parameters: Digest,
        succinct_verifier_parameters: Digest,
    ) -> (r: VerifierContext<SC, RC>)
        ensures
            r.segment_circuit == segment_circuit,
            r.recursive_circuit == recursive_circuit,
            r.control_ids@ == control_ids@,
            r.composite_verifier_parameters == composite_verifier_parameters,
            r.succinct_verifier_parameters == succinct_verifier_parameters,
            r.segment_max_po2 == receipt::DEFAULT_MAX_PO2,
    {
        VerifierContext {
            segment_circuit,
            recursive_circuit,
            control_ids,
            composite_verifier_parameters,
            succinct_verifier_parameters,
            segment_max_po2: receipt::DEFAULT_MAX_PO2,
        }
    }
}

} // verus!
