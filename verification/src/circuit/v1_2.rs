//! Circuit definitions of protocol version 1.2: metadata of the base
//! execution circuit and of the recursion circuit, and the control
//! identifiers precomputed for the base circuit.

use vstd::prelude::*;

use crate::circuit::{lookup_spec, ControlIdRegistry, HashKind, RegistryView, CONTROL_ID_ENTRIES};
use crate::digest::Digest;
use crate::{MAX_CYCLES_PO2, MIN_CYCLES_PO2};

verus! {

/// Protocol tag of the version 1.2 base execution circuit: the bytes of
/// the ASCII string "RV32IM:rev1v1___".
pub open spec fn rv32im_protocol_info() -> Seq<u8> {
    seq![82u8, 86u8, 51u8, 50u8, 73u8, 77u8, 58u8, 114u8, 101u8, 118u8, 49u8, 118u8, 49u8, 95u8, 95u8, 95u8]
}

/// Protocol tag of the version 1.2 recursion circuit: the bytes of the
/// ASCII string "RECURSION:rev1v1".
pub open spec fn recursion_protocol_info() -> Seq<u8> {
    seq![82u8, 69u8, 67u8, 85u8, 82u8, 83u8, 73u8, 79u8, 78u8, 58u8, 114u8, 101u8, 118u8, 49u8, 118u8, 49u8]
}

/// The base execution circuit of protocol version 1.2: proves one segment
/// of RISC-V execution.
pub struct CircuitImpl;

impl CircuitImpl {
    /// Build the circuit definition value.
    pub fn new() -> (r: CircuitImpl) {
        CircuitImpl
    }

    /// The 16-byte protocol tag of this circuit.
    pub fn circuit_info(&self) -> (r: Vec<u8>)
        ensures
            r@ == rv32im_protocol_info(),
    {
        let mut r: Vec<u8> = Vec::new();
        r.push(82u8);
        r.push(86u8);
        r.push(51u8);
        r.push(50u8);
        r.push(73u8);
        r.push(77u8);
        r.push(58u8);
        r.push(114u8);
        r.push(101u8);
        r.push(118u8);
        r.push(49u8);
        r.push(118u8);
        r.push(49u8);
        r.push(95u8);
        r.push(95u8);
        r.push(95u8);
        proof {
            assert(r@ =~= rv32im_protocol_info());
        }
        r
    }

    /// Field elements of public output this circuit exposes.
    pub fn output_size(&self) -> (r: usize)
        ensures
            r == 138,
    {
        138
    }

    /// Field elements of randomness mixing this circuit uses.
    pub fn mix_size(&self) -> (r: usize)
        ensures
            r == 40,
    {
        40
    }
}

/// The recursion circuit of protocol version 1.2: proves the aggregation
/// of other proofs into a single succinct seal.
pub struct RecursiveCircuitImpl;

impl RecursiveCircuitImpl {
    /// Build the circuit definition value.
    pub fn new() -> (r: RecursiveCircuitImpl) {
        RecursiveCircuitImpl
    }

    /// The 16-byte protocol tag of this circuit.
    pub fn circuit_info(&self) -> (r: Vec<u8>)
        ensures
            r@ == recursion_protocol_info(),
    {
        let mut r: Vec<u8> = Vec::new();
        r.push(82u8);
        r.push(69u8);
        r.push(67u8);
        r.push(85u8);
        r.push(82u8);
        r.push(83u8);
        r.push(73u8);
        r.push(79u8);
        r.push(78u8);
        r.push(58u8);
        r.push(114u8);
        r.push(101u8);
        r.push(118u8);
        r.push(49u8);
        r.push(118u8);
        r.push(49u8);
        proof {
            assert(r@ =~= recursion_protocol_info());
        }
        r
    }

    /// Field elements of public output this circuit exposes.
    pub fn output_size(&self) -> (r: usize)
        ensures
            r == 32,
    {
        32
    }

    /// Field elements of randomness mixing this circuit uses.
    pub fn mix_size(&self) -> (r: usize)
        ensures
            r == 20,
    {
        20
    }
}

/// The precomputed control identifiers of the rv32im circuit for
/// SHA-256 seals, one per size class, smallest first.
pub open spec fn sha256_table() -> Seq<Seq<u32>> {
    seq![
        seq![0x6da282fau32, 0x1aae995eu32, 0x24c4abbcu32, 0x6492b7cfu32, 0x8609dbfbu32, 0x10fcd515u32, 0x533784dcu32, 0x828d99f8u32],
        seq![0x7f174ae2u32, 0x45c7db14u32, 0x2becf5c6u32, 0xe4f5ec7au32, 0xaa3a1974u32, 0xa813edd1u32, 0xcac6a9e2u32, 0xdf29b108u32],
        seq![0xc516b983u32, 0xd3c98ea8u32, 0x106a9ab3u32, 0x1ffe7322u32, 0x74a64446u32, 0xa4dd167au32, 0x4c7e2bf5u32, 0xfd95a5f6u32],
        seq![0x558aa289u32, 0xc20b298eu32, 0x760d5212u32, 0xcee04473u32, 0xaa9ffad2u32, 0xbefd12afu32, 0x826a7cf6u32, 0x9d260f4eu32],
        seq![0x1eae3391u32, 0x43f79c55u32, 0x1b73892eu32, 0x37ed73bfu32, 0x0347a1d1u32, 0xdecdc5d7u32, 0xe0d1691bu32, 0x637330b9u32],
        seq![0x0e73e46eu32, 0x7217eb73u32, 0x95740875u32, 0xc9fa4f8eu32, 0xa1051729u32, 0x119a9ef7u32, 0x702271b7u32, 0xe84767eau32],
        seq![0xf698049cu32, 0x35fc7a26u32, 0xf9ded72eu32, 0x991842d8u32, 0xe2396152u32, 0xdb3c9a90u32, 0x4ee3cbd1u32, 0x1234d7e5u32],
        seq![0x9a07a1a7u32, 0x58065e92u32, 0x94bd0012u32, 0x44aa7133u32, 0x53a5a5eau32, 0x2ba9f5a5u32, 0xcb16a427u32, 0x3eee7bbcu32],
        seq![0xb4ec850du32, 0x08e56bd1u32, 0x8850cf57u32, 0xe3665b3eu32, 0x2a5b18f7u32, 0x79745aebu32, 0xec24adcfu32, 0x9b6b3061u32],
        seq![0x941c0da6u32, 0x4bcaf9fau32, 0x51704de5u32, 0x9d130285u32, 0xd0820826u32, 0x19d681d9u32, 0xe1b95291u32, 0x84b98d46u32],
        seq![0x31d2105au32, 0x197d36bcu32, 0xac290b13u32, 0x7feb69b5u32, 0x7eb62738u32, 0xf971a247u32, 0x09e2e347u32, 0xf1835294u32],
        seq![0x3f8930dau32, 0x69b0e775u32, 0x870400cbu32, 0x0fcb0b4au32, 0xa33a717bu32, 0x318be80bu32, 0x75a6ed35u32, 0x0b78fd8bu32],
    ]
}

/// The table of [`sha256_table`], as a vector of digests.
pub fn sha256_control_ids() -> (r: Vec<Digest>)
    ensures
        r@.len() == CONTROL_ID_ENTRIES,
        r@.map_values(|d: Digest| d@) == sha256_table(),
{
    let mut r: Vec<Digest> = Vec::new();
    r.push(Digest::from_words(&[0x6da282fa, 0x1aae995e, 0x24c4abbc, 0x6492b7cf, 0x8609dbfb, 0x10fcd515, 0x533784dc, 0x828d99f8]));
    r.push(Digest::from_words(&[0x7f174ae2, 0x45c7db14, 0x2becf5c6, 0xe4f5ec7a, 0xaa3a1974, 0xa813edd1, 0xcac6a9e2, 0xdf29b108]));
    r.push(Digest::from_words(&[0xc516b983, 0xd3c98ea8, 0x106a9ab3, 0x1ffe7322, 0x74a64446, 0xa4dd167a, 0x4c7e2bf5, 0xfd95a5f6]));
    r.push(Digest::from_words(&[0x558aa289, 0xc20b298e, 0x760d5212, 0xcee04473, 0xaa9ffad2, 0xbefd12af, 0x826a7cf6, 0x9d260f4e]));
    r.push(Digest::from_words(&[0x1eae3391, 0x43f79c55, 0x1b73892e, 0x37ed73bf, 0x0347a1d1, 0xdecdc5d7, 0xe0d1691b, 0x637330b9]));
    r.push(Digest::from_words(&[0x0e73e46e, 0x7217eb73, 0x95740875, 0xc9fa4f8e, 0xa1051729, 0x119a9ef7, 0x702271b7, 0xe84767ea]));
    r.push(Digest::from_words(&[0xf698049c, 0x35fc7a26, 0xf9ded72e, 0x991842d8, 0xe2396152, 0xdb3c9a90, 0x4ee3cbd1, 0x1234d7e5]));
    r.push(Digest::from_words(&[0x9a07a1a7, 0x58065e92, 0x94bd0012, 0x44aa7133, 0x53a5a5ea, 0x2ba9f5a5, 0xcb16a427, 0x3eee7bbc]));
    r.push(Digest::from_words(&[0xb4ec850d, 0x08e56bd1, 0x8850cf57, 0xe3665b3e, 0x2a5b18f7, 0x79745aeb, 0xec24adcf, 0x9b6b3061]));
    r.push(Digest::from_words(&[0x941c0da6, 0x4bcaf9fa, 0x51704de5, 0x9d130285, 0xd0820826, 0x19d681d9, 0xe1b95291, 0x84b98d46]));
    r.push(Digest::from_words(&[0x31d2105a, 0x197d36bc, 0xac290b13, 0x7feb69b5, 0x7eb62738, 0xf971a247, 0x09e2e347, 0xf1835294]));
    r.push(Digest::from_words(&[0x3f8930da, 0x69b0e775, 0x870400cb, 0x0fcb0b4a, 0xa33a717b, 0x318be80b, 0x75a6ed35, 0x0b78fd8b]));
    proof {
        assert(r@.map_values(|d: Digest| d@) =~~= sha256_table());
    }
    r
}

/// The precomputed control identifiers of the rv32im circuit for
/// Poseidon2 seals, one per size class, smallest first.
pub open spec fn poseidon2_table() -> Seq<Seq<u32>> {
    seq![
        seq![0x03e6da30u32, 0x3383d2fcu32, 0x5e10011du32, 0x43ce29a1u32, 0x597a95a0u32, 0x3301f0b4u32, 0x2d64a559u32, 0x26baa0fdu32],
        seq![0x02a6fe2au32, 0x0b43794bu32, 0x1805f649u32, 0x62727df2u32, 0x135becf2u32, 0x0c03a906u32, 0x55d9e4c2u32, 0x6459dce5u32],
        seq![0x0e76c28du32, 0x2c08241eu32, 0x47836cb6u32, 0x01a8240cu32, 0x4dce957eu32, 0x0517ab5eu32, 0x4183f722u32, 0x725e548du32],
        seq![0x4eaafe35u32, 0x45fdbeebu32, 0x356aa3b0u32, 0x21c87106u32, 0x660cf954u32, 0x3aed8903u32, 0x2abdf78fu32, 0x73598030u32],
        seq![0x6f483674u32, 0x3a7d9adfu32, 0x26038a3fu32, 0x1a54c73bu32, 0x2a3c173cu32, 0x2cebd2b5u32, 0x029d9353u32, 0x160ddc43u32],
        seq![0x15c1bd3au32, 0x19aff6ddu32, 0x293c8677u32, 0x1fb9f2c0u32, 0x1c2a0c8cu32, 0x5821e835u32, 0x1f654b10u32, 0x16a8076au32],
        seq![0x075cd717u32, 0x333f370fu32, 0x33afbb3bu32, 0x74bb88a6u32, 0x046705fcu32, 0x635dcd35u32, 0x607bd378u32, 0x00e34884u32],
        seq![0x1712cff3u32, 0x3c405c48u32, 0x1e6b52eau32, 0x3508e752u32, 0x6edc1bc3u32, 0x12ee1630u32, 0x656c6f91u32, 0x7709fc61u32],
        seq![0x14ce4340u32, 0x4f1d8126u32, 0x279c6a0eu32, 0x25056d25u32, 0x3957c913u32, 0x740cb8e9u32, 0x13f328f6u32, 0x5cb739c7u32],
        seq![0x3ffcedb4u32, 0x02f1492cu32, 0x74dcbc85u32, 0x0681eb93u32, 0x0a825939u32, 0x56935659u32, 0x2cb673fbu32, 0x1fe08615u32],
        seq![0x75d61bccu32, 0x41fdb83bu32, 0x14ba1bd4u32, 0x0fe956bbu32, 0x4fdf9dfau32, 0x7772f720u32, 0x6740d134u32, 0x2bc59c5au32],
        seq![0x2bca8e27u32, 0x69fe629cu32, 0x5ccfb636u32, 0x556b061bu32, 0x220362d7u32, 0x1a33c4f7u32, 0x2ff9a521u32, 0x6b6c1f85u32],
    ]
}

/// The table of [`poseidon2_table`], as a vector of digests.
pub fn poseidon2_control_ids() -> (r: Vec<Digest>)
    ensures
        r@.len() == CONTROL_ID_ENTRIES,
        r@.map_values(|d: Digest| d@) == poseidon2_table(),
{
    let mut r: Vec<Digest> = Vec::new();
    r.push(Digest::from_words(&[0x03e6da30, 0x3383d2fc, 0x5e10011d, 0x43ce29a1, 0x597a95a0, 0x3301f0b4, 0x2d64a559, 0x26baa0fd]));
    r.push(Digest::from_words(&[0x02a6fe2a, 0x0b43794b, 0x1805f649, 0x62727df2, 0x135becf2, 0x0c03a906, 0x55d9e4c2, 0x6459dce5]));
    r.push(Digest::from_words(&[0x0e76c28d, 0x2c08241e, 0x47836cb6, 0x01a8240c, 0x4dce957e, 0x0517ab5e, 0x4183f722, 0x725e548d]));
    r.push(Digest::from_words(&[0x4eaafe35, 0x45fdbeeb, 0x356aa3b0, 0x21c87106, 0x660cf954, 0x3aed8903, 0x2abdf78f, 0x73598030]));
    r.push(Digest::from_words(&[0x6f483674, 0x3a7d9adf, 0x26038a3f, 0x1a54c73b, 0x2a3c173c, 0x2cebd2b5, 0x029d9353, 0x160ddc43]));
    r.push(Digest::from_words(&[0x15c1bd3a, 0x19aff6dd, 0x293c8677, 0x1fb9f2c0, 0x1c2a0c8c, 0x5821e835, 0x1f654b10, 0x16a8076a]));
    r.push(Digest::from_words(&[0x075cd717, 0x333f370f, 0x33afbb3b, 0x74bb88a6, 0x046705fc, 0x635dcd35, 0x607bd378, 0x00e34884]));
    r.push(Digest::from_words(&[0x1712cff3, 0x3c405c48, 0x1e6b52ea, 0x3508e752, 0x6edc1bc3, 0x12ee1630, 0x656c6f91, 0x7709fc61]));
    r.push(Digest::from_words(&[0x14ce4340, 0x4f1d8126, 0x279c6a0e, 0x25056d25, 0x3957c913, 0x740cb8e9, 0x13f328f6, 0x5cb739c7]));
    r.push(Digest::from_words(&[0x3ffcedb4, 0x02f1492c, 0x74dcbc85, 0x0681eb93, 0x0a825939, 0x56935659, 0x2cb673fb, 0x1fe08615]));
    r.push(Digest::from_words(&[0x75d61bcc, 0x41fdb83b, 0x14ba1bd4, 0x0fe956bb, 0x4fdf9dfa, 0x7772f720, 0x6740d134, 0x2bc59c5a]));
    r.push(Digest::from_words(&[0x2bca8e27, 0x69fe629c, 0x5ccfb636, 0x556b061b, 0x220362d7, 0x1a33c4f7, 0x2ff9a521, 0x6b6c1f85]));
    proof {
        assert(r@.map_values(|d: Digest| d@) =~~= poseidon2_table());
    }
    r
}

/// The precomputed control identifiers of the rv32im circuit for
/// Blake2b seals, one per size class, smallest first.
pub open spec fn blake2b_table() -> Seq<Seq<u32>> {
    seq![
        seq![0x47777f1au32, 0x816871c8u32, 0x360ce9e4u32, 0xff588912u32, 0x99590e73u32, 0xdc24c64cu32, 0x58ada737u32, 0x4550b5b1u32],
        seq![0x979fbb3au32, 0x3bcd6cc9u32, 0x7a47799cu32, 0xec6afa9fu32, 0x78a4f34cu32, 0xb7584159u32, 0x31306c99u32, 0x1e6f0831u32],
        seq![0xb72725e6u32, 0x82e663eau32, 0x01a2d843u32, 0xd084387du32, 0x5224918fu32, 0xcfa2a36du32, 0x17e1a644u32, 0x048401deu32],
        seq![0x55b9663fu32, 0xa9bb2371u32, 0xf29f451bu32, 0x7e42e031u32, 0x6a217c67u32, 0x4f638b32u32, 0x84c98ff2u32, 0x2975a0d2u32],
        seq![0x66acfe50u32, 0x1778703fu32, 0xccb9c4cbu32, 0x85a20f0fu32, 0x2a61d82cu32, 0x007e568bu32, 0x3e293e71u32, 0xc0134dcbu32],
        seq![0xa56ac1c1u32, 0xccbc1333u32, 0xcf436680u32, 0x339dd308u32, 0xa57ba0b8u32, 0x88195566u32, 0x80e2530du32, 0x88da5089u32],
        seq![0xcb96e849u32, 0x4aee1bd6u32, 0x7a8737b9u32, 0x1f94621fu32, 0x8d728ab3u32, 0xd0878452u32, 0x8ee2c58fu32, 0x9cc0d884u32],
        seq![0xece877bau32, 0x89ea7c03u32, 0xd4e13d03u32, 0xbd81bcc9u32, 0x017270fdu32, 0x0c7d698fu32, 0xd6e28981u32, 0xf69a85fcu32],
        seq![0x3ad5f187u32, 0x14bf7aa6u32, 0x40d1101fu32, 0x321cde75u32, 0x8181acb6u32, 0x5a1ebc10u32, 0xa91e0290u32, 0x314c02b8u32],
        seq![0x2e43d504u32, 0x9de64c6eu32, 0x088b86cfu32, 0x301a8c41u32, 0x0c4d9eefu32, 0x89e850f3u32, 0x6043c2e1u32, 0x5860b095u32],
        seq![0x254aa9d0u32, 0xc8bff94au32, 0xf8d557e4u32, 0x5051fe4au32, 0x9c5780d6u32, 0x71e365ffu32, 0xa10a7240u32, 0x9f3be612u32],
        seq![0x7865b746u32, 0x055e322fu32, 0x8e1804cfu32, 0xf3a60f53u32, 0x338c6a3cu32, 0x923b0f05u32, 0xdbeed69bu32, 0xa0b51e54u32],
    ]
}

/// The table of [`blake2b_table`], as a vector of digests.
pub fn blake2b_control_ids() -> (r: Vec<Digest>)
    ensures
        r@.len() == CONTROL_ID_ENTRIES,
        r@.map_values(|d: Digest| d@) == blake2b_table(),
{
    let mut r: Vec<Digest> = Vec::new();
    r.push(Digest::from_words(&[0x47777f1a, 0x816871c8, 0x360ce9e4, 0xff588912, 0x99590e73, 0xdc24c64c, 0x58ada737, 0x4550b5b1]));
    r.push(Digest::from_words(&[0x979fbb3a, 0x3bcd6cc9, 0x7a47799c, 0xec6afa9f, 0x78a4f34c, 0xb7584159, 0x31306c99, 0x1e6f0831]));
    r.push(Digest::from_words(&[0xb72725e6, 0x82e663ea, 0x01a2d843, 0xd084387d, 0x5224918f, 0xcfa2a36d, 0x17e1a644, 0x048401de]));
    r.push(Digest::from_words(&[0x55b9663f, 0xa9bb2371, 0xf29f451b, 0x7e42e031, 0x6a217c67, 0x4f638b32, 0x84c98ff2, 0x2975a0d2]));
    r.push(Digest::from_words(&[0x66acfe50, 0x1778703f, 0xccb9c4cb, 0x85a20f0f, 0x2a61d82c, 0x007e568b, 0x3e293e71, 0xc0134dcb]));
    r.push(Digest::from_words(&[0xa56ac1c1, 0xccbc1333, 0xcf436680, 0x339dd308, 0xa57ba0b8, 0x88195566, 0x80e2530d, 0x88da5089]));
    r.push(Digest::from_words(&[0xcb96e849, 0x4aee1bd6, 0x7a8737b9, 0x1f94621f, 0x8d728ab3, 0xd0878452, 0x8ee2c58f, 0x9cc0d884]));
    r.push(Digest::from_words(&[0xece877ba, 0x89ea7c03, 0xd4e13d03, 0xbd81bcc9, 0x017270fd, 0x0c7d698f, 0xd6e28981, 0xf69a85fc]));
    r.push(Digest::from_words(&[0x3ad5f187, 0x14bf7aa6, 0x40d1101f, 0x321cde75, 0x8181acb6, 0x5a1ebc10, 0xa91e0290, 0x314c02b8]));
    r.push(Digest::from_words(&[0x2e43d504, 0x9de64c6e, 0x088b86cf, 0x301a8c41, 0x0c4d9eef, 0x89e850f3, 0x6043c2e1, 0x5860b095]));
    r.push(Digest::from_words(&[0x254aa9d0, 0xc8bff94a, 0xf8d557e4, 0x5051fe4a, 0x9c5780d6, 0x71e365ff, 0xa10a7240, 0x9f3be612]));
    r.push(Digest::from_words(&[0x7865b746, 0x055e322f, 0x8e1804cf, 0xf3a60f53, 0x338c6a3c, 0x923b0f05, 0xdbeed69b, 0xa0b51e54]));
    proof {
        assert(r@.map_values(|d: Digest| d@) =~~= blake2b_table());
    }
    r
}

/// The model of the version 1.2 registry: all three tables.
pub open spec fn v1_2_registry() -> RegistryView {
    RegistryView {
        sha256: sha256_table(),
        poseidon2: poseidon2_table(),
        blake2b: blake2b_table(),
    }
}

impl ControlIdRegistry {
    /// The registry of control identifiers precomputed for the version 1.2
    /// base execution circuit.
    pub fn v1_2() -> (r: ControlIdRegistry)
        ensures
            r@ == v1_2_registry(),
            crate::circuit::registry_wf(r@),
    {
        ControlIdRegistry::new(sha256_control_ids(), poseidon2_control_ids(), blake2b_control_ids())
    }
}

/// Whether a hash function name is one of the supported identifiers.
pub open spec fn supported_hash(name: Seq<char>) -> bool {
    name == "sha-256"@ || name == "poseidon2"@ || name == "blake2b"@
}

/// The hash kind a name denotes, if any.
pub open spec fn hash_kind_of(name: Seq<char>) -> Option<HashKind> {
    if name == "sha-256"@ {
        Some(HashKind::Sha256)
    } else if name == "poseidon2"@ {
        Some(HashKind::Poseidon2)
    } else if name == "blake2b"@ {
        Some(HashKind::Blake2b)
    } else {
        None
    }
}

/// Map a hash function name to its kind.  Exactly the three supported
/// identifiers are recognized.
pub fn parse_hash_name(hash_name: &str) -> (r: Option<HashKind>)
    ensures
        r == hash_kind_of(hash_name@),
{
    let name = hash_name.to_owned();
    if name == "sha-256".to_owned() {
        Some(HashKind::Sha256)
    } else if name == "poseidon2".to_owned() {
        Some(HashKind::Poseidon2)
    } else if name == "blake2b".to_owned() {
        Some(HashKind::Blake2b)
    } else {
        None
    }
}

/// Fetch the control identifier of the version 1.2 base circuit for the
/// given hash function name and cycle limit as a power of two (po2).
///
/// Supported values for `hash_name` are "sha-256", "poseidon2" and
/// "blake2b"; the supported size classes are `MIN_CYCLES_PO2` through
/// `MAX_CYCLES_PO2` inclusive.  For any other name or size class this
/// returns `None`; absence is an expected outcome, not an error.
pub fn control_id(hash_name: &str, po2: usize) -> (r: Option<Digest>)
    ensures
        (r is Some) <==> (supported_hash(hash_name@) && MIN_CYCLES_PO2 <= po2 <= MAX_CYCLES_PO2),
        match r {
            Some(d) => hash_kind_of(hash_name@) matches Some(k) && lookup_spec(
                v1_2_registry(),
                k,
                po2 as int,
            ) == Some(d@),
            None => true,
        },
{
    match parse_hash_name(hash_name) {
        None => None,
        Some(kind) => {
            let registry = ControlIdRegistry::v1_2();
            let r = registry.lookup(kind, po2);
            proof {
                crate::circuit::lemma_lookup_total(registry@, kind, po2 as int);
            }
            r
        },
    }
}

} // verus!
