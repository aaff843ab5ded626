//! The receipt model: the shapes a proof artifact can take, and the
//! dispatcher that decides whether a receipt attests the claim a caller
//! expects.

use vstd::prelude::*;

use crate::circuit::CircuitCoreDef;
use crate::digest::{digest_eq, Digest};
use crate::receipt_claim::{
    claim_digest, ClaimView, ExitStatus, MaybePruned, MaybePrunedView, ReceiptClaim, Unknown,
    maybe_pruned_digest,
};
use crate::sha::{sha256_of, Digestible};
use crate::{res_view, ErrorView, VerificationError, VerifierContext};

pub mod composite;
pub mod succinct;

verus! {

/// Maximum segment size, as a power of two (po2), that the default
/// verifier parameters accept.
pub const DEFAULT_MAX_PO2: usize = 21;

/// A record of the public commitments for a proven execution: the raw
/// bytes the program wrote to its journal.
#[derive(Debug)]
pub struct Journal {
    /// The raw bytes of the journal.
    pub bytes: Vec<u8>,
}

impl View for Journal {
    type V = Seq<u8>;

    open spec fn view(&self) -> Seq<u8> {
        self.bytes@
    }
}

impl Journal {
    /// Construct a new journal from its raw bytes.
    pub fn new(bytes: Vec<u8>) -> (r: Journal)
        ensures
            r@ == bytes@,
    {
        Journal { bytes }
    }
}

impl Digestible for Journal {
    open spec fn digest_of(v: Seq<u8>) -> Seq<u32> {
        sha256_of(v)
    }

    fn digest(&self) -> (r: Digest)
        ensures
            r@ == Self::digest_of(self@),
    {
        crate::sha::sha256_digest(self.bytes.as_slice())
    }

    fn dup(&self) -> (r: Self)
        ensures
            r@ == self@,
    {
        let bytes = self.bytes.clone();
        proof {
            assert(bytes@ =~= self.bytes@);
        }
        Journal { bytes }
    }
}

/// The opaque cryptographic proof bytes together with the 16-byte protocol
/// tag of the circuit version that produced them.
#[derive(Debug)]
pub struct Seal {
    /// Protocol tag of the producing circuit.
    pub tag: Vec<u8>,
    /// The proof bytes; opaque to this core.
    pub data: Vec<u8>,
}

/// Model of a [`Seal`].
pub ghost struct SealView {
    /// Protocol tag of the producing circuit.
    pub tag: Seq<u8>,
    /// The proof bytes.
    pub data: Seq<u8>,
}

impl View for Seal {
    type V = SealView;

    open spec fn view(&self) -> SealView {
        SealView { tag: self.tag@, data: self.data@ }
    }
}

impl Seal {
    /// Construct a seal from a protocol tag and proof bytes.
    pub fn new(tag: Vec<u8>, data: Vec<u8>) -> (r: Seal)
        ensures
            r@ == (SealView { tag: tag@, data: data@ }),
    {
        Seal { tag, data }
    }

    /// Produce an owned seal with the same model.
    pub fn dup(&self) -> (r: Seal)
        ensures
            r@ == self@,
    {
        let tag = self.tag.clone();
        let data = self.data.clone();
        proof {
            assert(tag@ =~= self.tag@);
            assert(data@ =~= self.data@);
        }
        Seal { tag, data }
    }
}

/// A lower-level receipt: the cryptographic seal and the structure needed
/// to verify it for one specific receipt shape.
pub enum InnerReceipt {
    /// A non-succinct receipt, made of one proof per segment.
    Composite(composite::CompositeReceipt),
    /// A succinct receipt, one aggregated proof for the whole claim.
    Succinct(succinct::SuccinctReceipt<ReceiptClaim>),
}

/// Model of an [`InnerReceipt`].
pub ghost enum InnerReceiptView {
    Composite(composite::CompositeView),
    Succinct(succinct::SuccinctView<ClaimView>),
}

impl View for InnerReceipt {
    type V = InnerReceiptView;

    open spec fn view(&self) -> InnerReceiptView {
        match *self {
            InnerReceipt::Composite(ref c) => InnerReceiptView::Composite(c@),
            InnerReceipt::Succinct(ref s) => InnerReceiptView::Succinct(s@),
        }
    }
}

/// The integrity verdict on an inner receipt: the shape-specific check of
/// its variant.
pub open spec fn inner_integrity<SC: CircuitCoreDef, RC: CircuitCoreDef>(
    r: InnerReceiptView,
    ctx: VerifierContext<SC, RC>,
) -> Result<(), ErrorView> {
    match r {
        InnerReceiptView::Composite(c) => composite::composite_integrity(c, ctx),
        InnerReceiptView::Succinct(s) => succinct::succinct_integrity(s, ctx),
    }
}

/// The claim an inner receipt attests: derived from the segment chain for
/// a composite receipt, stored alongside the seal for a succinct one.
pub open spec fn inner_claim_spec(r: InnerReceiptView) -> Result<
    MaybePrunedView<ClaimView>,
    ErrorView,
> {
    match r {
        InnerReceiptView::Composite(c) => match composite::composite_claim_spec(c) {
            Ok(cl) => Ok(MaybePrunedView::Full(cl)),
            Err(e) => Err(e),
        },
        InnerReceiptView::Succinct(s) => Ok(s.claim),
    }
}

/// The verifier-parameter digest an inner receipt declares.
pub open spec fn inner_verifier_parameters(r: InnerReceiptView) -> Seq<u32> {
    match r {
        InnerReceiptView::Composite(c) => c.verifier_parameters,
        InnerReceiptView::Succinct(s) => s.verifier_parameters,
    }
}

/// The model of a claim-extraction outcome on an inner receipt.
pub open spec fn mp_claim_res_view(r: Result<MaybePruned<ReceiptClaim>, VerificationError>) -> Result<
    MaybePrunedView<ClaimView>,
    ErrorView,
> {
    match r {
        Ok(c) => Ok(c@),
        Err(e) => Err(e@),
    }
}

impl InnerReceipt {
    /// Verify the integrity of this receipt: that its claim is attested
    /// by its seal, using the circuit definitions the context supplies.
    pub fn verify_integrity_with_context<SC: CircuitCoreDef, RC: CircuitCoreDef>(
        &self,
        ctx: &VerifierContext<SC, RC>,
    ) -> (r: Result<(), VerificationError>)
        ensures
            res_view(r) == inner_integrity(self@, *ctx),
    {
        match self {
            InnerReceipt::Composite(inner) => inner.verify_integrity_with_context(ctx),
            InnerReceipt::Succinct(inner) => inner.verify_integrity_with_context(ctx),
        }
    }

    /// The composite arm of this receipt, or a format error when the
    /// receipt is succinct.
    pub fn composite(&self) -> (r: Result<&composite::CompositeReceipt, VerificationError>)
        ensures
            match r {
                Ok(c) => self@ matches InnerReceiptView::Composite(cv) && c@ == cv,
                Err(e) => self@ matches InnerReceiptView::Succinct(_) && e@
                    == ErrorView::ReceiptFormatError,
            },
    {
        if let InnerReceipt::Composite(x) = self {
            Ok(x)
        } else {
            Err(VerificationError::ReceiptFormatError)
        }
    }

    /// The succinct arm of this receipt, or a format error when the
    /// receipt is composite.
    pub fn succinct(&self) -> (r: Result<
        &succinct::SuccinctReceipt<ReceiptClaim>,
        VerificationError,
    >)
        ensures
            match r {
                Ok(s) => self@ matches InnerReceiptView::Succinct(sv) && s@ == sv,
                Err(e) => self@ matches InnerReceiptView::Composite(_) && e@
                    == ErrorView::ReceiptFormatError,
            },
    {
        if let InnerReceipt::Succinct(x) = self {
            Ok(x)
        } else {
            Err(VerificationError::ReceiptFormatError)
        }
    }

    /// Extract the claim this receipt attests.
    pub fn claim(&self) -> (r: Result<MaybePruned<ReceiptClaim>, VerificationError>)
        ensures
            mp_claim_res_view(r) == inner_claim_spec(self@),
    {
        match self {
            InnerReceipt::Composite(inner) => match inner.claim() {
                Ok(c) => Ok(MaybePruned::Full(c)),
                Err(e) => Err(e),
            },
            InnerReceipt::Succinct(inner) => Ok(inner.claim()),
        }
    }

    /// The digest of the verifier-parameter set this receipt requires.
    pub fn verifier_parameters(&self) -> (r: Digest)
        ensures
            r@ == inner_verifier_parameters(self@),
    {
        match self {
            InnerReceipt::Composite(inner) => inner.verifier_parameters,
            InnerReceipt::Succinct(inner) => inner.verifier_parameters,
        }
    }
}

/// A receipt shape for assumptions: like [`InnerReceipt`], but the claim
/// type of the succinct variant is erased, so only the claim's digest is
/// available.
pub enum InnerAssumptionReceipt {
    /// A non-succinct receipt, made of one proof per segment.
    Composite(composite::CompositeReceipt),
    /// A succinct receipt whose claim type has been erased.
    Succinct(succinct::SuccinctReceipt<Unknown>),
}

/// Model of an [`InnerAssumptionReceipt`].
pub ghost enum InnerAssumptionReceiptView {
    Composite(composite::CompositeView),
    Succinct(succinct::SuccinctView<()>),
}

impl View for InnerAssumptionReceipt {
    type V = InnerAssumptionReceiptView;

    open spec fn view(&self) -> InnerAssumptionReceiptView {
        match *self {
            InnerAssumptionReceipt::Composite(ref c) => InnerAssumptionReceiptView::Composite(c@),
            InnerAssumptionReceipt::Succinct(ref s) => InnerAssumptionReceiptView::Succinct(s@),
        }
    }
}

/// The integrity verdict on an assumption receipt.
pub open spec fn assumption_integrity<SC: CircuitCoreDef, RC: CircuitCoreDef>(
    r: InnerAssumptionReceiptView,
    ctx: VerifierContext<SC, RC>,
) -> Result<(), ErrorView> {
    match r {
        InnerAssumptionReceiptView::Composite(c) => composite::composite_integrity(c, ctx),
        InnerAssumptionReceiptView::Succinct(s) => succinct::succinct_integrity(s, ctx),
    }
}

/// The digest of the claim an assumption receipt attests.  Only the
/// digest is available: the claim type may be erased.
pub open spec fn assumption_claim_digest_spec(r: InnerAssumptionReceiptView) -> Result<
    Seq<u32>,
    ErrorView,
> {
    match r {
        InnerAssumptionReceiptView::Composite(c) => match composite::composite_claim_spec(c) {
            Ok(cl) => Ok(claim_digest(cl)),
            Err(e) => Err(e),
        },
        InnerAssumptionReceiptView::Succinct(s) => Ok(maybe_pruned_digest::<Unknown>(s.claim)),
    }
}

/// The model of a digest-extraction outcome.
pub open spec fn digest_res_view(r: Result<Digest, VerificationError>) -> Result<
    Seq<u32>,
    ErrorView,
> {
    match r {
        Ok(d) => Ok(d@),
        Err(e) => Err(e@),
    }
}

impl InnerAssumptionReceipt {
    /// Verify the integrity of this receipt: that its claim is attested
    /// by its seal, using the circuit definitions the context supplies.
    pub fn verify_integrity_with_context<SC: CircuitCoreDef, RC: CircuitCoreDef>(
        &self,
        ctx: &VerifierContext<SC, RC>,
    ) -> (r: Result<(), VerificationError>)
        ensures
            res_view(r) == assumption_integrity(self@, *ctx),
    {
        match self {
            InnerAssumptionReceipt::Composite(inner) => inner.verify_integrity_with_context(ctx),
            InnerAssumptionReceipt::Succinct(inner) => inner.verify_integrity_with_context(ctx),
        }
    }

    /// The composite arm of this receipt, or a format error when the
    /// receipt is succinct.
    pub fn composite(&self) -> (r: Result<&composite::CompositeReceipt, VerificationError>)
        ensures
            match r {
                Ok(c) => self@ matches InnerAssumptionReceiptView::Composite(cv) && c@ == cv,
                Err(e) => self@ matches InnerAssumptionReceiptView::Succinct(_) && e@
                    == ErrorView::ReceiptFormatError,
            },
    {
        if let InnerAssumptionReceipt::Composite(x) = self {
            Ok(x)
        } else {
            Err(VerificationError::ReceiptFormatError)
        }
    }

    /// The succinct arm of this receipt, or a format error when the
    /// receipt is composite.
    pub fn succinct(&self) -> (r: Result<&succinct::SuccinctReceipt<Unknown>, VerificationError>)
        ensures
            match r {
                Ok(s) => self@ matches InnerAssumptionReceiptView::Succinct(sv) && s@ == sv,
                Err(e) => self@ matches InnerAssumptionReceiptView::Composite(_) && e@
                    == ErrorView::ReceiptFormatError,
            },
    {
        if let InnerAssumptionReceipt::Succinct(x) = self {
            Ok(x)
        } else {
            Err(VerificationError::ReceiptFormatError)
        }
    }

    /// Extract the digest of the claim this receipt attests.  Only the
    /// digest is available, because the claim type may be unknown.
    pub fn claim_digest(&self) -> (r: Result<Digest, VerificationError>)
        ensures
            digest_res_view(r) == assumption_claim_digest_spec(self@),
    {
        match self {
            InnerAssumptionReceipt::Composite(inner) => match inner.claim() {
                Ok(c) => Ok(c.digest()),
                Err(e) => Err(e),
            },
            InnerAssumptionReceipt::Succinct(inner) => Ok(inner.claim.digest()),
        }
    }

    /// The digest of the verifier-parameter set this receipt requires.
    pub fn verifier_parameters(&self) -> (r: Digest)
        ensures
            match self@ {
                InnerAssumptionReceiptView::Composite(c) => r@ == c.verifier_parameters,
                InnerAssumptionReceiptView::Succinct(s) => r@ == s.verifier_parameters,
            },
    {
        match self {
            InnerAssumptionReceipt::Composite(inner) => inner.verifier_parameters,
            InnerAssumptionReceipt::Succinct(inner) => inner.verifier_parameters,
        }
    }

    /// Convert an inner receipt into an assumption receipt.  The
    /// composite shape converts losslessly; a succinct receipt's claim is
    /// pruned to its digest, irreversibly.
    pub fn from_inner(value: InnerReceipt) -> (r: InnerAssumptionReceipt)
        ensures
            match value@ {
                InnerReceiptView::Composite(c) => r@ == InnerAssumptionReceiptView::Composite(c),
                InnerReceiptView::Succinct(s) => r@ matches InnerAssumptionReceiptView::Succinct(u)
                    && u.seal == s.seal && u.control_id == s.control_id && u.verifier_parameters
                    == s.verifier_parameters && u.claim == MaybePrunedView::<()>::Pruned(
                    maybe_pruned_digest::<ReceiptClaim>(s.claim),
                ),
            },
    {
        match value {
            InnerReceipt::Composite(x) => InnerAssumptionReceipt::Composite(x),
            InnerReceipt::Succinct(x) => InnerAssumptionReceipt::Succinct(x.into_unknown()),
        }
    }
}

impl From<composite::CompositeReceipt> for InnerReceipt {
    /// Wrap a composite receipt in the inner-receipt union.
    fn from(value: composite::CompositeReceipt) -> (r: InnerReceipt) {
        InnerReceipt::Composite(value)
    }
}

impl vstd::std_specs::convert::FromSpecImpl<composite::CompositeReceipt> for InnerReceipt {
    open spec fn obeys_from_spec() -> bool {
        true
    }

    open spec fn from_spec(v: composite::CompositeReceipt) -> InnerReceipt {
        InnerReceipt::Composite(v)
    }
}

/// The claim the dispatcher expects: successful execution of the given
/// program with the given public-output digest.
pub open spec fn expected_claim_view(image_id: Seq<u32>, pubs: Seq<u32>) -> ClaimView {
    ClaimView {
        program_id: image_id,
        exit: ExitStatus::Success,
        output: MaybePrunedView::Pruned(pubs),
    }
}

/// The outcome of verification: the integrity check for the receipt's
/// shape runs first, then the claim is extracted, then the attested
/// claim's digest is compared with the expected claim's digest.  A
/// failing step's error is returned unchanged; nothing is retried and no
/// partial result exists.
pub open spec fn dispatch_spec<SC: CircuitCoreDef, RC: CircuitCoreDef>(
    inner: InnerReceiptView,
    ctx: VerifierContext<SC, RC>,
    image_id: Seq<u32>,
    pubs: Seq<u32>,
) -> Result<(), ErrorView> {
    match inner_integrity(inner, ctx) {
        Err(e) => Err(e),
        Ok(()) => match inner_claim_spec(inner) {
            Err(e) => Err(e),
            Ok(mc) => {
                let expected = claim_digest(expected_claim_view(image_id, pubs));
                let received = maybe_pruned_digest::<ReceiptClaim>(mc);
                if expected == received {
                    Ok(())
                } else {
                    Err(ErrorView::ClaimDigestMismatch { expected, received })
                }
            },
        },
    }
}

/// A wrapper around [`InnerReceipt`]: the proof artifact a caller holds.
pub struct Proof {
    /// The polymorphic inner receipt.
    pub inner: InnerReceipt,
}

/// Model of a [`Proof`].
pub ghost struct ProofView {
    /// Model of the inner receipt.
    pub inner: InnerReceiptView,
}

impl View for Proof {
    type V = ProofView;

    open spec fn view(&self) -> ProofView {
        ProofView { inner: self.inner@ }
    }
}

impl Proof {
    /// Construct a new proof around an inner receipt.
    pub fn new(inner: InnerReceipt) -> (r: Proof)
        ensures
            r@.inner == inner@,
    {
        Proof { inner }
    }

    /// Verify that this proof attests a successful execution of the
    /// program `image_id` with public output committed to by `pubs`.
    ///
    /// The seal is checked first, through the circuit definitions the
    /// context supplies; cryptographic rejection is definitive.  Then the
    /// claim embedded in the receipt is compared, by digest, against the
    /// claim built from `image_id` and `pubs`; any difference fails with
    /// a claim-digest mismatch carrying both digests.
    pub fn verify_with_context<SC: CircuitCoreDef, RC: CircuitCoreDef>(
        &self,
        ctx: &VerifierContext<SC, RC>,
        image_id: &Digest,
        pubs: &Digest,
    ) -> (r: Result<(), VerificationError>)
        ensures
            res_view(r) == dispatch_spec(self@.inner, *ctx, image_id@, pubs@),
    {
        match self.inner.verify_integrity_with_context(ctx) {
            Err(e) => {
                return Err(e);
            },
            Ok(()) => {},
        }
        let expected_claim = ReceiptClaim::ok(*image_id, MaybePruned::Pruned(*pubs));
        let expected = expected_claim.digest();
        let actual = match self.inner.claim() {
            Err(e) => {
                return Err(e);
            },
            Ok(mc) => mc,
        };
        let received = actual.digest();
        if digest_eq(&expected, &received) {
            Ok(())
        } else {
            Err(VerificationError::ClaimDigestMismatch { expected, received })
        }
    }

    /// Extract the claim this proof attests.
    pub fn claim(&self) -> (r: Result<MaybePruned<ReceiptClaim>, VerificationError>)
        ensures
            mp_claim_res_view(r) == inner_claim_spec(self@.inner),
    {
        self.inner.claim()
    }
}

/// Verification is idempotent: the dispatcher's verdict is a function of
/// the receipt, the context, and the expected claim, so any two calls on
/// the same inputs return the same outcome.
pub proof fn lemma_verify_deterministic<SC: CircuitCoreDef, RC: CircuitCoreDef>(
    r1: Result<(), VerificationError>,
    r2: Result<(), VerificationError>,
    inner: InnerReceiptView,
    ctx: VerifierContext<SC, RC>,
    image_id: Seq<u32>,
    pubs: Seq<u32>,
)
    requires
        res_view(r1) == dispatch_spec(inner, ctx, image_id, pubs),
        res_view(r2) == dispatch_spec(inner, ctx, image_id, pubs),
    ensures
        res_view(r1) == res_view(r2),
{
}

/// A receipt whose attested claim digest differs from the expected
/// claim's digest is rejected with a claim-digest mismatch carrying both
/// digests, even when its integrity check succeeds.
pub proof fn lemma_claim_mismatch_rejected<SC: CircuitCoreDef, RC: CircuitCoreDef>(
    inner: InnerReceiptView,
    ctx: VerifierContext<SC, RC>,
    image_id: Seq<u32>,
    pubs: Seq<u32>,
)
    requires
        inner_integrity(inner, ctx) == Ok::<(), ErrorView>(()),
        inner_claim_spec(inner) is Ok,
        maybe_pruned_digest::<ReceiptClaim>(inner_claim_spec(inner)->Ok_0) != claim_digest(
            expected_claim_view(image_id, pubs),
        ),
    ensures
        dispatch_spec(inner, ctx, image_id, pubs) == Err::<(), ErrorView>(
            ErrorView::ClaimDigestMismatch {
                expected: claim_digest(expected_claim_view(image_id, pubs)),
                received: maybe_pruned_digest::<ReceiptClaim>(inner_claim_spec(inner)->Ok_0),
            },
        ),
{
}

/// A receipt whose integrity check succeeds and whose attested claim
/// digest equals the expected claim's digest is accepted.
pub proof fn lemma_matching_claim_accepted<SC: CircuitCoreDef, RC: CircuitCoreDef>(
    inner: InnerReceiptView,
    ctx: VerifierContext<SC, RC>,
    image_id: Seq<u32>,
    pubs: Seq<u32>,
)
    requires
        inner_integrity(inner, ctx) == Ok::<(), ErrorView>(()),
        inner_claim_spec(inner) is Ok,
        maybe_pruned_digest::<ReceiptClaim>(inner_claim_spec(inner)->Ok_0) == claim_digest(
            expected_claim_view(image_id, pubs),
        ),
    ensures
        dispatch_spec(inner, ctx, image_id, pubs) == Ok::<(), ErrorView>(()),
{
}

} // verus!
