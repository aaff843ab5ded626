use receipt_verifier::circuit::v1_2::{CircuitImpl, RecursiveCircuitImpl};
use receipt_verifier::digest::Digest;
use receipt_verifier::receipt::DEFAULT_MAX_PO2;
use receipt_verifier::{MAX_CYCLES_PO2, MIN_CYCLES_PO2};

#[test]
fn base_circuit_metadata() {
    let c = CircuitImpl::new();
    assert_eq!(c.circuit_info(), b"RV32IM:rev1v1___".to_vec());
    assert_eq!(c.circuit_info().len(), 16);
    assert_eq!(c.output_size(), 138);
    assert_eq!(c.mix_size(), 40);
}

#[test]
fn recursion_circuit_metadata() {
    let c = RecursiveCircuitImpl::new();
    assert_eq!(c.circuit_info(), b"RECURSION:rev1v1".to_vec());
    assert_eq!(c.circuit_info().len(), 16);
    assert_eq!(c.output_size(), 32);
    assert_eq!(c.mix_size(), 20);
}

#[test]
fn size_class_bounds() {
    assert_eq!(MIN_CYCLES_PO2, risc0_zkp::MIN_CYCLES_PO2);
    assert_eq!(MAX_CYCLES_PO2, risc0_zkp::MAX_CYCLES_PO2);
    assert!(MIN_CYCLES_PO2 <= DEFAULT_MAX_PO2 && DEFAULT_MAX_PO2 <= MAX_CYCLES_PO2);
}

#[test]
fn digest_words_round_trip() {
    let words = [1u32, 2, 3, 4, 5, 6, 7, 0xffff_ffff];
    let d = Digest::from_words(&words);
    assert_eq!(d.as_words(), words);
    let z = Digest::zero();
    assert_eq!(z.as_words(), [0u32; 8]);
    assert_ne!(d, z);
    assert_eq!(d, Digest::from_words(&words));
}
