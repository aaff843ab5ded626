use receipt_verifier::circuit::{CircuitCoreDef, ControlIdRegistry, HashKind};
use receipt_verifier::digest::Digest;
use receipt_verifier::receipt::composite::{CompositeReceipt, SegmentReceipt};
use receipt_verifier::receipt::succinct::SuccinctReceipt;
use receipt_verifier::receipt::{InnerAssumptionReceipt, InnerReceipt, Journal, Proof, Seal};
use receipt_verifier::receipt_claim::{MaybePruned, ReceiptClaim};
use receipt_verifier::sha::Digestible;
use receipt_verifier::{VerificationError, VerifierContext};

const SEGMENT_TAG: &[u8; 16] = b"RV32IM:rev1v1___";
const RECURSION_TAG: &[u8; 16] = b"RECURSION:rev1v1";

/// A stub engine that accepts every seal carrying its tag.
struct AcceptAll {
    tag: Vec<u8>,
}

impl CircuitCoreDef for AcceptAll {
    fn protocol_info(&self) -> Vec<u8> {
        self.tag.clone()
    }

    fn verify_seal(&self, _seal: &Seal, _control_id: &Digest) -> Result<(), VerificationError> {
        Ok(())
    }
}

/// A stub engine that accepts exactly one proof byte string; the delegate
/// contract real engines must honor: any tampered seal is rejected.
struct ExactProof {
    tag: Vec<u8>,
    expected: Vec<u8>,
}

impl CircuitCoreDef for ExactProof {
    fn protocol_info(&self) -> Vec<u8> {
        self.tag.clone()
    }

    fn verify_seal(&self, seal: &Seal, _control_id: &Digest) -> Result<(), VerificationError> {
        if seal.data == self.expected {
            Ok(())
        } else {
            Err(VerificationError::InvalidProof)
        }
    }
}

fn d(seed: u32) -> Digest {
    Digest::from_words(&[seed, seed, seed, seed, seed, seed, seed, seed])
}

fn params() -> (Digest, Digest) {
    (d(0xc0), d(0xd0))
}

fn ctx_accepting() -> VerifierContext<AcceptAll, AcceptAll> {
    let (cp, sp) = params();
    VerifierContext::new(
        AcceptAll { tag: SEGMENT_TAG.to_vec() },
        AcceptAll { tag: RECURSION_TAG.to_vec() },
        ControlIdRegistry::v1_2(),
        cp,
        sp,
    )
}

fn segment(po2: usize, claim: &ReceiptClaim) -> SegmentReceipt {
    SegmentReceipt {
        seal: Seal::new(SEGMENT_TAG.to_vec(), vec![1, 2, 3]),
        hashfn: HashKind::Sha256,
        po2,
        claim: ReceiptClaim::ok(
            claim.program_id,
            MaybePruned::Pruned(claim.output.digest()),
        ),
    }
}

fn composite_proof(claim: &ReceiptClaim) -> Proof {
    let (cp, _) = params();
    Proof::new(InnerReceipt::Composite(CompositeReceipt {
        segments: vec![segment(13, claim), segment(14, claim)],
        verifier_parameters: cp,
    }))
}

fn succinct_proof(claim: ReceiptClaim) -> Proof {
    let (_, sp) = params();
    Proof::new(InnerReceipt::Succinct(SuccinctReceipt {
        seal: Seal::new(RECURSION_TAG.to_vec(), vec![7, 7, 7]),
        control_id: d(0xaa),
        claim: MaybePruned::Full(claim),
        verifier_parameters: sp,
    }))
}

#[test]
fn succinct_receipt_with_matching_claim_verifies() {
    let program = d(5);
    let journal = Journal::new(vec![10, 20, 30]);
    let output = journal.digest();
    let claim = ReceiptClaim::ok(program, MaybePruned::Full(journal));
    let proof = succinct_proof(claim);
    let ctx = ctx_accepting();
    assert_eq!(proof.verify_with_context(&ctx, &program, &output), Ok(()));
}

#[test]
fn succinct_receipt_with_other_output_fails_with_claim_mismatch() {
    let program = d(5);
    let journal = Journal::new(vec![10, 20, 30]);
    let claim = ReceiptClaim::ok(program, MaybePruned::Full(journal));
    let proof = succinct_proof(claim);
    let ctx = ctx_accepting();
    let other_output = Journal::new(vec![10, 20, 31]).digest();
    match proof.verify_with_context(&ctx, &program, &other_output) {
        Err(VerificationError::ClaimDigestMismatch { expected, received }) => {
            assert_ne!(expected, received);
        }
        r => panic!("expected claim mismatch, got {r:?}"),
    }
}

#[test]
fn wrong_program_identity_fails_with_claim_mismatch() {
    let journal = Journal::new(vec![1]);
    let output = journal.digest();
    let claim = ReceiptClaim::ok(d(5), MaybePruned::Full(journal));
    let proof = composite_proof(&claim);
    let ctx = ctx_accepting();
    assert_eq!(proof.verify_with_context(&ctx, &claim.program_id, &output), Ok(()));
    match proof.verify_with_context(&ctx, &d(6), &output) {
        Err(VerificationError::ClaimDigestMismatch { .. }) => {}
        r => panic!("expected claim mismatch, got {r:?}"),
    }
}

#[test]
fn verify_is_idempotent() {
    let journal = Journal::new(vec![4, 4]);
    let output = journal.digest();
    let claim = ReceiptClaim::ok(d(9), MaybePruned::Full(journal));
    let proof = composite_proof(&claim);
    let ctx = ctx_accepting();
    let first = proof.verify_with_context(&ctx, &claim.program_id, &output);
    let second = proof.verify_with_context(&ctx, &claim.program_id, &output);
    assert_eq!(first, second);
    let wrong = d(1);
    let first_bad = proof.verify_with_context(&ctx, &wrong, &output);
    let second_bad = proof.verify_with_context(&ctx, &wrong, &output);
    assert_eq!(first_bad, second_bad);
}

#[test]
fn tampering_any_bit_of_the_seal_fails_integrity() {
    let (cp, sp) = params();
    let good = vec![0x5a, 0x3c, 0xf0];
    let receipt = CompositeReceipt {
        segments: vec![SegmentReceipt {
            seal: Seal::new(SEGMENT_TAG.to_vec(), good.clone()),
            hashfn: HashKind::Sha256,
            po2: 13,
            claim: ReceiptClaim::ok(d(1), MaybePruned::Pruned(d(2))),
        }],
        verifier_parameters: cp,
    };
    let ctx: VerifierContext<ExactProof, AcceptAll> = VerifierContext::new(
        ExactProof { tag: SEGMENT_TAG.to_vec(), expected: good.clone() },
        AcceptAll { tag: RECURSION_TAG.to_vec() },
        ControlIdRegistry::v1_2(),
        cp,
        sp,
    );
    assert_eq!(receipt.verify_integrity_with_context(&ctx), Ok(()));
    for byte in 0..good.len() {
        for bit in 0..8 {
            let mut tampered = good.clone();
            tampered[byte] ^= 1u8 << bit;
            let bad = CompositeReceipt {
                segments: vec![SegmentReceipt {
                    seal: Seal::new(SEGMENT_TAG.to_vec(), tampered),
                    hashfn: HashKind::Sha256,
                    po2: 13,
                    claim: ReceiptClaim::ok(d(1), MaybePruned::Pruned(d(2))),
                }],
                verifier_parameters: cp,
            };
            assert_eq!(
                bad.verify_integrity_with_context(&ctx),
                Err(VerificationError::InvalidProof),
                "byte {byte} bit {bit}"
            );
        }
    }
}

#[test]
fn empty_segment_chain_is_a_format_error() {
    let (cp, _) = params();
    let receipt = CompositeReceipt { segments: vec![], verifier_parameters: cp };
    let ctx = ctx_accepting();
    assert_eq!(
        receipt.verify_integrity_with_context(&ctx),
        Err(VerificationError::ReceiptFormatError)
    );
    assert!(matches!(receipt.claim(), Err(VerificationError::ReceiptFormatError)));
}

#[test]
fn wrong_verifier_parameters_are_unsupported() {
    let claim = ReceiptClaim::ok(d(1), MaybePruned::Pruned(d(2)));
    let mut proof = composite_proof(&claim);
    if let InnerReceipt::Composite(ref mut c) = proof.inner {
        c.verifier_parameters = d(0xff);
    }
    let ctx = ctx_accepting();
    assert_eq!(
        proof.inner.verify_integrity_with_context(&ctx),
        Err(VerificationError::UnsupportedParameters)
    );
}

#[test]
fn oversized_segment_is_unsupported() {
    let claim = ReceiptClaim::ok(d(1), MaybePruned::Pruned(d(2)));
    let (cp, _) = params();
    // po2 22 has a control identifier, but the default context caps
    // segments at po2 21.
    let receipt = CompositeReceipt {
        segments: vec![segment(22, &claim)],
        verifier_parameters: cp,
    };
    let ctx = ctx_accepting();
    assert_eq!(
        receipt.verify_integrity_with_context(&ctx),
        Err(VerificationError::UnsupportedParameters)
    );
    // po2 25 is outside the registry's range altogether.
    let receipt = CompositeReceipt {
        segments: vec![segment(25, &claim)],
        verifier_parameters: cp,
    };
    assert_eq!(
        receipt.verify_integrity_with_context(&ctx),
        Err(VerificationError::UnsupportedParameters)
    );
}

#[test]
fn wrong_protocol_tag_is_unsupported() {
    let claim = ReceiptClaim::ok(d(1), MaybePruned::Pruned(d(2)));
    let (cp, _) = params();
    let receipt = CompositeReceipt {
        segments: vec![SegmentReceipt {
            seal: Seal::new(RECURSION_TAG.to_vec(), vec![1]),
            hashfn: HashKind::Sha256,
            po2: 13,
            claim,
        }],
        verifier_parameters: cp,
    };
    let ctx = ctx_accepting();
    assert_eq!(
        receipt.verify_integrity_with_context(&ctx),
        Err(VerificationError::UnsupportedParameters)
    );
}

#[test]
fn accessors_return_the_matching_arm() {
    let claim = ReceiptClaim::ok(d(1), MaybePruned::Pruned(d(2)));
    let composite = composite_proof(&claim).inner;
    assert!(composite.composite().is_ok());
    assert!(matches!(composite.succinct(), Err(VerificationError::ReceiptFormatError)));
    let succinct = succinct_proof(claim).inner;
    assert!(succinct.succinct().is_ok());
    assert!(matches!(succinct.composite(), Err(VerificationError::ReceiptFormatError)));
}

#[test]
fn claim_extraction_matches_last_segment() {
    let claim = ReceiptClaim::ok(d(3), MaybePruned::Pruned(d(4)));
    let proof = composite_proof(&claim);
    let extracted = proof.claim().unwrap();
    let expected = ReceiptClaim::ok(d(3), MaybePruned::Pruned(claim.output.digest()));
    assert_eq!(extracted.digest(), expected.digest());
}

#[test]
fn assumption_conversion_keeps_the_claim_digest() {
    let claim = ReceiptClaim::ok(d(3), MaybePruned::Pruned(d(4)));
    let claim_digest = claim.digest();

    let succinct = succinct_proof(claim).inner;
    let assumption = InnerAssumptionReceipt::from_inner(succinct);
    assert_eq!(assumption.claim_digest().unwrap(), claim_digest);
    // The succinct arm survives conversion, with its claim erased.
    assert!(assumption.succinct().is_ok());

    let claim2 = ReceiptClaim::ok(d(3), MaybePruned::Pruned(d(4)));
    let composite = composite_proof(&claim2).inner;
    let params_digest = composite.verifier_parameters();
    let assumption = InnerAssumptionReceipt::from_inner(composite);
    assert_eq!(assumption.verifier_parameters(), params_digest);
    let ctx = ctx_accepting();
    assert_eq!(assumption.verify_integrity_with_context(&ctx), Ok(()));
}

#[test]
fn into_unknown_prunes_the_claim() {
    let claim = ReceiptClaim::ok(d(8), MaybePruned::Pruned(d(9)));
    let claim_digest = claim.digest();
    let (_, sp) = params();
    let receipt = SuccinctReceipt {
        seal: Seal::new(RECURSION_TAG.to_vec(), vec![1]),
        control_id: d(0xaa),
        claim: MaybePruned::Full(claim),
        verifier_parameters: sp,
    };
    let erased = receipt.into_unknown();
    match erased.claim {
        MaybePruned::Pruned(got) => assert_eq!(got, claim_digest),
        MaybePruned::Full(_) => panic!("claim should be pruned"),
    }
}

#[test]
fn rejected_seal_is_surfaced_verbatim() {
    let (cp, sp) = params();
    let claim = ReceiptClaim::ok(d(1), MaybePruned::Pruned(d(2)));
    let proof = composite_proof(&claim);
    let ctx: VerifierContext<ExactProof, AcceptAll> = VerifierContext::new(
        ExactProof { tag: SEGMENT_TAG.to_vec(), expected: vec![0xde, 0xad] },
        AcceptAll { tag: RECURSION_TAG.to_vec() },
        ControlIdRegistry::v1_2(),
        cp,
        sp,
    );
    let output = claim.output.digest();
    assert_eq!(
        proof.verify_with_context(&ctx, &claim.program_id, &output),
        Err(VerificationError::InvalidProof)
    );
}
