use receipt_verifier::circuit::HashKind;
use receipt_verifier::codec::{decode_proof, encode_proof};
use receipt_verifier::digest::Digest;
use receipt_verifier::receipt::composite::{CompositeReceipt, SegmentReceipt};
use receipt_verifier::receipt::succinct::SuccinctReceipt;
use receipt_verifier::receipt::{InnerReceipt, Journal, Proof, Seal};
use receipt_verifier::receipt_claim::{MaybePruned, ReceiptClaim};
use receipt_verifier::sha::Digestible;

fn d(seed: u32) -> Digest {
    Digest::from_words(&[seed, 2 * seed, 3, 4, 5, 6, 7, seed])
}

fn sample_composite() -> Proof {
    let seg1 = SegmentReceipt {
        seal: Seal::new(b"RV32IM:rev1v1___".to_vec(), vec![1, 2, 3, 4]),
        hashfn: HashKind::Sha256,
        po2: 13,
        claim: ReceiptClaim::ok(d(1), MaybePruned::Full(Journal::new(vec![5, 6]))),
    };
    let seg2 = SegmentReceipt {
        seal: Seal::new(b"RV32IM:rev1v1___".to_vec(), vec![]),
        hashfn: HashKind::Blake2b,
        po2: 21,
        claim: ReceiptClaim::ok(d(2), MaybePruned::Pruned(d(3))),
    };
    Proof::new(InnerReceipt::Composite(CompositeReceipt {
        segments: vec![seg1, seg2],
        verifier_parameters: d(40),
    }))
}

fn sample_succinct() -> Proof {
    Proof::new(InnerReceipt::Succinct(SuccinctReceipt {
        seal: Seal::new(b"RECURSION:rev1v1".to_vec(), vec![9, 8, 7]),
        control_id: d(50),
        claim: MaybePruned::Full(ReceiptClaim::ok(d(6), MaybePruned::Pruned(d(7)))),
        verifier_parameters: d(60),
    }))
}

#[test]
fn composite_round_trip_keeps_the_claim() {
    let proof = sample_composite();
    let bytes = encode_proof(&proof);
    let back = decode_proof(&bytes).expect("decodes");
    assert_eq!(
        proof.claim().unwrap().digest(),
        back.claim().unwrap().digest()
    );
    // Re-encoding gives identical bytes: nothing was lost either way.
    assert_eq!(bytes, encode_proof(&back));
}

#[test]
fn succinct_round_trip_keeps_the_claim() {
    let proof = sample_succinct();
    let bytes = encode_proof(&proof);
    let back = decode_proof(&bytes).expect("decodes");
    assert_eq!(
        proof.claim().unwrap().digest(),
        back.claim().unwrap().digest()
    );
    assert_eq!(bytes, encode_proof(&back));
}

#[test]
fn round_trip_preserves_structure() {
    let proof = sample_composite();
    let back = decode_proof(&encode_proof(&proof)).unwrap();
    match back.inner {
        InnerReceipt::Composite(c) => {
            assert_eq!(c.segments.len(), 2);
            assert_eq!(c.segments[0].po2, 13);
            assert_eq!(c.segments[0].hashfn, HashKind::Sha256);
            assert_eq!(c.segments[1].po2, 21);
            assert_eq!(c.segments[1].hashfn, HashKind::Blake2b);
            assert_eq!(c.verifier_parameters, d(40));
            assert_eq!(c.segments[0].seal.tag, b"RV32IM:rev1v1___".to_vec());
            assert_eq!(c.segments[0].seal.data, vec![1, 2, 3, 4]);
        }
        InnerReceipt::Succinct(_) => panic!("expected a composite receipt"),
    }
}

#[test]
fn trailing_bytes_are_rejected() {
    let proof = sample_succinct();
    let mut bytes = encode_proof(&proof);
    bytes.push(0);
    assert!(decode_proof(&bytes).is_none());
}

#[test]
fn malformed_prefix_is_rejected() {
    assert!(decode_proof(&vec![]).is_none());
    assert!(decode_proof(&vec![9]).is_none());
    assert!(decode_proof(&vec![0, 1, 2]).is_none());
    let proof = sample_composite();
    let bytes = encode_proof(&proof);
    assert!(decode_proof(&bytes[..bytes.len() - 1].to_vec()).is_none());
}
