//! The circuit-definition interface the verifier needs, and the registry of
//! precomputed control identifiers per hash function and size class.

use vstd::prelude::*;

use crate::digest::Digest;
use crate::receipt::{Seal, SealView};
use crate::{res_view, ErrorView, VerificationError, MAX_CYCLES_PO2, MIN_CYCLES_PO2};

pub mod v1_2;

verus! {

/// A circuit definition: the fixed metadata of one circuit version, and the
/// delegated cryptographic check of a seal against it.
///
/// The proof-verification engine behind [`CircuitCoreDef::verify_seal`] is
/// outside this core.  Its verdict is modeled by the spec function
/// [`CircuitCoreDef::seal_check`]: a pure function of the seal and the
/// control identifier the seal must be bound to.  Implementations are
/// supplied by callers; the dispatcher is verified against this contract
/// for every implementation that honors it.
pub trait CircuitCoreDef {
    /// The 16-byte protocol tag naming this circuit and version.  The
    /// default model stands for an implementation that keeps its tag
    /// abstract; implementations inside the proof system override it.
    open spec fn protocol_info_spec(&self) -> Seq<u8> {
        Seq::empty()
    }

    /// The engine's verdict on a seal, checked against a control
    /// identifier: `Ok` exactly when the proof is cryptographically valid
    /// and bound to that control identifier.  The default model accepts
    /// everything; implementations inside the proof system override it.
    open spec fn seal_check(&self, seal: SealView, control_id: Seq<u32>) -> Result<(), ErrorView> {
        Ok(())
    }

    /// The protocol tag as bytes.
    fn protocol_info(&self) -> (r: Vec<u8>)
        ensures
            r@ == self.protocol_info_spec(),
            r@.len() == 16;

    /// Run the delegated cryptographic check of `seal` against
    /// `control_id`.  The verdict is final: it is a function of the seal
    /// and the control identifier alone, and is never reinterpreted.
    fn verify_seal(&self, seal: &Seal, control_id: &Digest) -> (r: Result<(), VerificationError>)
        ensures
            res_view(r) == self.seal_check(seal@, control_id@);
}

/// The hash functions for which control identifiers are precomputed.
#[derive(Clone, Copy, Debug, PartialEq, Eq, Hash, Structural)]
pub enum HashKind {
    /// SHA-256.
    Sha256,
    /// Poseidon2 over the Baby Bear field.
    Poseidon2,
    /// Blake2b.
    Blake2b,
}

/// Number of entries in each control-identifier table: one per supported
/// size class.
pub const CONTROL_ID_ENTRIES: usize = 12;

/// Dense tables of precomputed control identifiers, one table per supported
/// hash function, each indexed by `size class - MIN_CYCLES_PO2`.
///
/// The table contents are generated offline with the circuit; this core
/// only consumes them by lookup key.
pub struct ControlIdRegistry {
    sha256: Vec<Digest>,
    poseidon2: Vec<Digest>,
    blake2b: Vec<Digest>,
}

/// Model of a [`ControlIdRegistry`]: one word-sequence table per hash
/// function.
pub ghost struct RegistryView {
    /// Control identifiers for SHA-256, by size class.
    pub sha256: Seq<Seq<u32>>,
    /// Control identifiers for Poseidon2, by size class.
    pub poseidon2: Seq<Seq<u32>>,
    /// Control identifiers for Blake2b, by size class.
    pub blake2b: Seq<Seq<u32>>,
}

impl View for ControlIdRegistry {
    type V = RegistryView;

    closed spec fn view(&self) -> RegistryView {
        RegistryView {
            sha256: self.sha256@.map_values(|d: Digest| d@),
            poseidon2: self.poseidon2@.map_values(|d: Digest| d@),
            blake2b: self.blake2b@.map_values(|d: Digest| d@),
        }
    }
}

/// The table a registry holds for one hash function.
pub open spec fn table_of(rv: RegistryView, kind: HashKind) -> Seq<Seq<u32>> {
    match kind {
        HashKind::Sha256 => rv.sha256,
        HashKind::Poseidon2 => rv.poseidon2,
        HashKind::Blake2b => rv.blake2b,
    }
}

/// What a registry lookup returns: the table entry for the size class when
/// the size class is supported and the table is long enough, absence
/// otherwise.
pub open spec fn lookup_spec(rv: RegistryView, kind: HashKind, po2: int) -> Option<Seq<u32>> {
    if MIN_CYCLES_PO2 <= po2 <= MAX_CYCLES_PO2 && po2 - MIN_CYCLES_PO2 < table_of(
        rv,
        kind,
    ).len() {
        Some(table_of(rv, kind)[po2 - MIN_CYCLES_PO2])
    } else {
        None
    }
}

/// A well-formed registry holds a dense table for every hash function: one
/// entry per supported size class.
pub open spec fn registry_wf(rv: RegistryView) -> bool {
    &&& rv.sha256.len() == CONTROL_ID_ENTRIES
    &&& rv.poseidon2.len() == CONTROL_ID_ENTRIES
    &&& rv.blake2b.len() == CONTROL_ID_ENTRIES
}

impl ControlIdRegistry {
    /// Assemble a registry from one table per hash function.
    pub fn new(sha256: Vec<Digest>, poseidon2: Vec<Digest>, blake2b: Vec<Digest>) -> (r:
        ControlIdRegistry)
        ensures
            r@.sha256 == sha256@.map_values(|d: Digest| d@),
            r@.poseidon2 == poseidon2@.map_values(|d: Digest| d@),
            r@.blake2b == blake2b@.map_values(|d: Digest| d@),
    {
        ControlIdRegistry { sha256, poseidon2, blake2b }
    }

    /// Look up the control identifier for a hash function and a size class
    /// (a power of two of cycles).  Absence is an expected outcome for an
    /// unsupported size class, not an error.
    pub fn lookup(&self, kind: HashKind, po2: usize) -> (r: Option<Digest>)
        ensures
            match r {
                Some(d) => lookup_spec(self@, kind, po2 as int) == Some(d@),
                None => lookup_spec(self@, kind, po2 as int) is None,
            },
    {
        if po2 < MIN_CYCLES_PO2 || po2 > MAX_CYCLES_PO2 {
            return None;
        }
        let idx = po2 - MIN_CYCLES_PO2;
        let table = match kind {
            HashKind::Sha256 => &self.sha256,
            HashKind::Poseidon2 => &self.poseidon2,
            HashKind::Blake2b => &self.blake2b,
        };
        if idx < table.len() {
            Some(table[idx])
        } else {
            None
        }
    }
}

/// Every supported pair of hash function and size class has a control
/// identifier in a well-formed registry, and every size class outside the
/// supported range has none.
pub proof fn lemma_lookup_total(rv: RegistryView, kind: HashKind, po2: int)
    requires
        registry_wf(rv),
    ensures
        (lookup_spec(rv, kind, po2) is Some) <==> (MIN_CYCLES_PO2 <= po2 <= MAX_CYCLES_PO2),
{
}

} // verus!
