use receipt_verifier::circuit::v1_2::control_id;
use receipt_verifier::circuit::{ControlIdRegistry, HashKind};
use receipt_verifier::{MAX_CYCLES_PO2, MIN_CYCLES_PO2};

#[test]
fn lookup_returns_value_for_all_supported_pairs() {
    for name in ["sha-256", "poseidon2", "blake2b"] {
        for po2 in MIN_CYCLES_PO2..=MAX_CYCLES_PO2 {
            assert!(control_id(name, po2).is_some(), "{name} {po2}");
        }
    }
}

#[test]
fn lookup_out_of_range_or_unknown_is_none() {
    assert!(control_id("sha-256", MIN_CYCLES_PO2 - 1).is_none());
    assert!(control_id("sha-256", MAX_CYCLES_PO2 + 1).is_none());
    assert!(control_id("sha-256", 0).is_none());
    assert!(control_id("md5", 15).is_none());
    assert!(control_id("", 15).is_none());
    assert!(control_id("SHA-256", 15).is_none());
}

#[test]
fn lookup_is_deterministic() {
    for po2 in 0..30 {
        assert_eq!(control_id("sha-256", po2), control_id("sha-256", po2));
    }
}

#[test]
fn lookup_min_size_class_returns_first_table_entry() {
    let first = control_id("sha-256", MIN_CYCLES_PO2).unwrap();
    let expected = risc0_circuit_rv32im::control_id::SHA256_CONTROL_IDS[0];
    assert_eq!(first.as_words().to_vec(), expected.as_words().to_vec());
    assert!(control_id("sha-256", MIN_CYCLES_PO2 - 1).is_none());
}

#[test]
fn tables_match_rv32im_circuit_control_ids() {
    let tables = [
        ("sha-256", risc0_circuit_rv32im::control_id::SHA256_CONTROL_IDS),
        ("poseidon2", risc0_circuit_rv32im::control_id::POSEIDON2_CONTROL_IDS),
        ("blake2b", risc0_circuit_rv32im::control_id::BLAKE2B_CONTROL_IDS),
    ];
    for (name, table) in tables {
        for (i, po2) in (MIN_CYCLES_PO2..=MAX_CYCLES_PO2).enumerate() {
            let got = control_id(name, po2).unwrap();
            assert_eq!(got.as_words().to_vec(), table[i].as_words().to_vec(), "{name} {po2}");
        }
    }
}

#[test]
fn registry_lookup_by_kind() {
    let reg = ControlIdRegistry::v1_2();
    assert!(reg.lookup(HashKind::Sha256, 13).is_some());
    assert!(reg.lookup(HashKind::Poseidon2, 24).is_some());
    assert!(reg.lookup(HashKind::Blake2b, 12).is_none());
    assert!(reg.lookup(HashKind::Blake2b, 25).is_none());
    assert_eq!(
        reg.lookup(HashKind::Sha256, 13).unwrap(),
        control_id("sha-256", 13).unwrap()
    );
}
