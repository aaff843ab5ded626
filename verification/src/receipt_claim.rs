//! The claim model: the statement a receipt attests, and the pruned-value
//! pattern for data that may be carried in full or only by its digest.

use vstd::prelude::*;

use crate::digest::{
    lemma_words_le_bytes_len, push_digest_le, words_le_bytes, Digest,
};
use crate::receipt::Journal;
use crate::sha::{sha256_digest, sha256_of, Digestible};

verus! {

/// A value that is either present in full or replaced by its digest.
///
/// Pruning preserves verifiability of anything hashed over the value: the
/// digest of a pruned value equals the digest of the full one.
pub enum MaybePruned<T: Digestible> {
    /// The full value.
    Full(T),
    /// Only the value's digest.
    Pruned(Digest),
}

/// Model of a [`MaybePruned`] value over the model `V` of its full form.
pub ghost enum MaybePrunedView<V> {
    Full(V),
    Pruned(Seq<u32>),
}

impl<T: Digestible> View for MaybePruned<T> {
    type V = MaybePrunedView<T::V>;

    open spec fn view(&self) -> MaybePrunedView<T::V> {
        match *self {
            MaybePruned::Full(ref t) => MaybePrunedView::Full(t@),
            MaybePruned::Pruned(d) => MaybePrunedView::Pruned(d@),
        }
    }
}

/// The digest of a possibly pruned value: the full value's canonical digest
/// when present, the stored digest otherwise.
pub open spec fn maybe_pruned_digest<T: Digestible>(v: MaybePrunedView<T::V>) -> Seq<u32> {
    match v {
        MaybePrunedView::Full(x) => T::digest_of(x),
        MaybePrunedView::Pruned(d) => d,
    }
}

impl<T: Digestible> Digestible for MaybePruned<T> {
    open spec fn digest_of(v: MaybePrunedView<T::V>) -> Seq<u32> {
        maybe_pruned_digest::<T>(v)
    }

    fn digest(&self) -> (r: Digest)
        ensures
            r@ == Self::digest_of(self@),
    {
        match self {
            MaybePruned::Full(t) => t.digest(),
            MaybePruned::Pruned(d) => *d,
        }
    }

    fn dup(&self) -> (r: Self)
        ensures
            r@ == self@,
    {
        match self {
            MaybePruned::Full(t) => MaybePruned::Full(t.dup()),
            MaybePruned::Pruned(d) => MaybePruned::Pruned(*d),
        }
    }
}

/// How an execution ended.  Only a successful halt is modeled by this core;
/// a claim for any other exit condition cannot be built here.
#[derive(Clone, Copy, Debug, PartialEq, Eq, Structural)]
pub enum ExitStatus {
    /// The program halted with exit code zero.
    Success,
}

/// The byte that stands for an exit status in the claim digest preimage.
pub open spec fn exit_status_byte(e: ExitStatus) -> u8 {
    match e {
        ExitStatus::Success => 0u8,
    }
}

/// The statement proven by a receipt: a program, named by its image
/// identifier, ran to the given exit status and produced the given public
/// output.
pub struct ReceiptClaim {
    /// Digest identifying the program that ran.
    pub program_id: Digest,
    /// How the execution ended.
    pub exit: ExitStatus,
    /// The public output, in full or pruned to its digest.
    pub output: MaybePruned<Journal>,
}

/// Model of a [`ReceiptClaim`].
pub ghost struct ClaimView {
    /// Words of the program's image identifier.
    pub program_id: Seq<u32>,
    /// How the execution ended.
    pub exit: ExitStatus,
    /// The public output bytes, full or pruned.
    pub output: MaybePrunedView<Seq<u8>>,
}

impl View for ReceiptClaim {
    type V = ClaimView;

    open spec fn view(&self) -> ClaimView {
        ClaimView { program_id: self.program_id@, exit: self.exit, output: self.output@ }
    }
}

/// Domain-separation prefix of the claim digest preimage: the bytes of the
/// ASCII string "claim:ok".
pub open spec fn claim_tag() -> Seq<u8> {
    seq![99u8, 108u8, 97u8, 105u8, 109u8, 58u8, 111u8, 107u8]
}

/// The bytes hashed to form a claim's digest: tag, program identifier,
/// digest of the output, exit status.  The output enters only through its
/// digest, so pruning the output does not change the claim digest.
pub open spec fn claim_preimage(v: ClaimView) -> Seq<u8> {
    claim_tag() + words_le_bytes(v.program_id)
        + words_le_bytes(maybe_pruned_digest::<Journal>(v.output)) + seq![exit_status_byte(v.exit)]
}

/// The canonical digest of a claim.
pub open spec fn claim_digest(v: ClaimView) -> Seq<u32> {
    sha256_of(claim_preimage(v))
}

impl ReceiptClaim {
    /// The canonical "successful execution" claim: program `program_id`
    /// halted successfully with public output `output`, stored in whatever
    /// pruning state it was given.
    ///
    /// Nothing validates that `program_id` names a real program; the
    /// dispatcher compares digests only.
    pub fn ok(program_id: Digest, output: MaybePruned<Journal>) -> (r: ReceiptClaim)
        ensures
            r@ == (ClaimView { program_id: program_id@, exit: ExitStatus::Success, output: output@ }),
    {
        ReceiptClaim { program_id, exit: ExitStatus::Success, output }
    }
}

impl Digestible for ReceiptClaim {
    open spec fn digest_of(v: ClaimView) -> Seq<u32> {
        claim_digest(v)
    }

    fn digest(&self) -> (r: Digest)
        ensures
            r@ == Self::digest_of(self@),
    {
        let mut buf: Vec<u8> = Vec::new();
        buf.push(99u8);
        buf.push(108u8);
        buf.push(97u8);
        buf.push(105u8);
        buf.push(109u8);
        buf.push(58u8);
        buf.push(111u8);
        buf.push(107u8);
        proof {
            assert(buf@ =~= claim_tag());
        }
        push_digest_le(&mut buf, &self.program_id);
        let output_digest = self.output.digest();
        push_digest_le(&mut buf, &output_digest);
        let status: u8 = match self.exit {
            ExitStatus::Success => 0u8,
        };
        buf.push(status);
        proof {
            assert(buf@ =~= claim_preimage(self@));
        }
        sha256_digest(buf.as_slice())
    }

    fn dup(&self) -> (r: Self)
        ensures
            r@ == self@,
    {
        ReceiptClaim { program_id: self.program_id, exit: self.exit, output: self.output.dup() }
    }
}

/// A claim whose concrete type has been erased.  The library never builds a
/// value of this type: an erased claim travels only as its digest, in
/// [`MaybePruned::Pruned`] form.
pub struct Unknown {
    _private: (),
}

impl View for Unknown {
    type V = ();

    open spec fn view(&self) -> () {
        ()
    }
}

impl Digestible for Unknown {
    open spec fn digest_of(v: ()) -> Seq<u32> {
        Seq::new(8, |i: int| 0u32)
    }

    fn digest(&self) -> (r: Digest)
        ensures
            r@ == Self::digest_of(self@),
    {
        Digest::zero()
    }

    fn dup(&self) -> (r: Self)
        ensures
            r@ == self@,
    {
        Unknown { _private: () }
    }
}

/// Pruning the output of a claim does not change the claim's digest: a
/// claim built from the full output bytes and a claim built from the
/// digest of those same bytes digest identically.
pub proof fn lemma_claim_digest_prunes_output(program_id: Seq<u32>, exit: ExitStatus, bytes: Seq<u8>)
    ensures
        claim_digest(
            ClaimView { program_id, exit, output: MaybePrunedView::Full(bytes) },
        ) == claim_digest(
            ClaimView { program_id, exit, output: MaybePrunedView::Pruned(sha256_of(bytes)) },
        ),
{
}

} // verus!
