use receipt_verifier::digest::Digest;
use receipt_verifier::receipt::Journal;
use receipt_verifier::receipt_claim::{MaybePruned, ReceiptClaim};
use receipt_verifier::sha::Digestible;

fn d(seed: u32) -> Digest {
    Digest::from_words(&[seed, seed + 1, seed + 2, seed + 3, seed + 4, seed + 5, seed + 6, seed + 7])
}

#[test]
fn journal_digest_is_sha256() {
    // SHA-256("abc"), with each four-byte group of the hash read as a
    // little-endian word, as the hashing backend stores digests.
    let journal = Journal::new(b"abc".to_vec());
    let expected: [u32; 8] = [
        0xbf1678ba, 0xeacf018f, 0xde404141, 0x2322ae5d, 0xa36103b0, 0x9c7a1796, 0x61ff10b4,
        0xad1500f2,
    ];
    assert_eq!(journal.digest().as_words(), expected);

    // The same value through the hashing backend directly.
    let direct = <risc0_zkp::core::hash::sha::cpu::Impl as risc0_zkp::core::hash::sha::Sha256>::hash_bytes(
        b"abc",
    );
    assert_eq!(journal.digest().as_words().to_vec(), direct.as_words().to_vec());
}

#[test]
fn claim_digest_same_for_full_and_pruned_output() {
    let id = d(100);
    let journal = Journal::new(vec![1, 2, 3, 4, 5]);
    let output_digest = journal.digest();

    let full = ReceiptClaim::ok(id, MaybePruned::Full(journal));
    let pruned = ReceiptClaim::ok(id, MaybePruned::Pruned(output_digest));
    assert_eq!(full.digest(), pruned.digest());
}

#[test]
fn claim_digest_depends_on_program_and_output() {
    let journal = Journal::new(vec![9, 9, 9]);
    let base = ReceiptClaim::ok(d(1), MaybePruned::Full(journal));
    let other_program = ReceiptClaim::ok(d(2), MaybePruned::Pruned(Journal::new(vec![9, 9, 9]).digest()));
    let other_output = ReceiptClaim::ok(d(1), MaybePruned::Pruned(Journal::new(vec![9, 9]).digest()));
    assert_ne!(base.digest(), other_program.digest());
    assert_ne!(base.digest(), other_output.digest());
}

#[test]
fn claim_digest_is_deterministic() {
    let c1 = ReceiptClaim::ok(d(7), MaybePruned::Full(Journal::new(vec![0xab; 40])));
    let c2 = ReceiptClaim::ok(d(7), MaybePruned::Full(Journal::new(vec![0xab; 40])));
    assert_eq!(c1.digest(), c2.digest());
}

#[test]
fn maybe_pruned_digest_of_pruned_is_stored_digest() {
    let stored = d(42);
    let pruned: MaybePruned<Journal> = MaybePruned::Pruned(stored);
    assert_eq!(pruned.digest(), stored);
}
