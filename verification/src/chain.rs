//! Chains and their native assets.
use vstd::prelude::*;

use bitcoin::hashes::Hash as _;
use bitcoin::BlockHash;

use crate::bytes::same_hash;

verus! {

/// Identifier of an asset; that of the native asset of a chain is the hash of
/// the genesis block of the chain.
#[derive(Copy, Clone, PartialOrd, Ord, PartialEq, Eq, Hash, Debug)]
pub struct AssetId(pub [u8; 32]);

/// A chain: a predefined one, or another one by the hash of its genesis block.
#[derive(Copy, Clone, Eq, Debug)]
#[non_exhaustive]
pub enum Chain {
    /// Bitcoin mainnet
    Mainnet,
    /// Bitcoin testnet version 3
    Testnet3,
    /// Bitcoin regtest network, with provided genesis hash to distinguish
    /// different private networks
    Regtest([u8; 32]),
    /// Default bitcoin signet network
    Signet,
    /// Some private bitcoin signet network, with provided genesis hash to
    /// distinguish private networks from each other
    SignetCustom([u8; 32]),
    /// Liquidv1 sidechain & network by Blockstream
    LiquidV1,
    /// All other networks/chains
    Other([u8; 32]),
}

/// Hash of the genesis block of bitcoin mainnet.
pub open spec fn genesis_mainnet() -> Seq<u8> {
    seq![
        0x6fu8, 0xe2u8, 0x8cu8, 0x0au8, 0xb6u8, 0xf1u8, 0xb3u8, 0x72u8,
        0xc1u8, 0xa6u8, 0xa2u8, 0x46u8, 0xaeu8, 0x63u8, 0xf7u8, 0x4fu8,
        0x93u8, 0x1eu8, 0x83u8, 0x65u8, 0xe1u8, 0x5au8, 0x08u8, 0x9cu8,
        0x68u8, 0xd6u8, 0x19u8, 0x00u8, 0x00u8, 0x00u8, 0x00u8, 0x00u8,
    ]
}

/// Hash of the genesis block of bitcoin testnet version 3.
pub open spec fn genesis_testnet() -> Seq<u8> {
    seq![
        0x43u8, 0x49u8, 0x7fu8, 0xd7u8, 0xf8u8, 0x26u8, 0x95u8, 0x71u8,
        0x08u8, 0xf4u8, 0xa3u8, 0x0fu8, 0xd9u8, 0xceu8, 0xc3u8, 0xaeu8,
        0xbau8, 0x79u8, 0x97u8, 0x20u8, 0x84u8, 0xe9u8, 0x0eu8, 0xadu8,
        0x01u8, 0xeau8, 0x33u8, 0x09u8, 0x00u8, 0x00u8, 0x00u8, 0x00u8,
    ]
}

/// Hash of the genesis block of the default bitcoin signet.
pub open spec fn genesis_signet() -> Seq<u8> {
    seq![
        0xf6u8, 0x1eu8, 0xeeu8, 0x3bu8, 0x63u8, 0xa3u8, 0x80u8, 0xa4u8,
        0x77u8, 0xa0u8, 0x63u8, 0xafu8, 0x32u8, 0xb2u8, 0xbbu8, 0xc9u8,
        0x7cu8, 0x9fu8, 0xf9u8, 0xf0u8, 0x1fu8, 0x2cu8, 0x42u8, 0x25u8,
        0xe9u8, 0x73u8, 0x98u8, 0x81u8, 0x08u8, 0x00u8, 0x00u8, 0x00u8,
    ]
}

/// Hash of the genesis block of the liquid sidechain.
pub open spec fn genesis_liquidv1() -> Seq<u8> {
    seq![
        0x14u8, 0x66u8, 0x27u8, 0x58u8, 0x36u8, 0x22u8, 0x0du8, 0xb2u8,
        0x94u8, 0x4cu8, 0xa0u8, 0x59u8, 0xa3u8, 0xa1u8, 0x0eu8, 0xf6u8,
        0xfdu8, 0x2eu8, 0xa6u8, 0x84u8, 0xb0u8, 0x68u8, 0x8du8, 0x2cu8,
        0x37u8, 0x92u8, 0x96u8, 0x88u8, 0x8au8, 0x20u8, 0x60u8, 0x03u8,
    ]
}

impl Chain {
    /// The hash of the genesis block of the chain.
    pub open spec fn genesis(&self) -> Seq<u8> {
        match *self {
            Chain::Mainnet => genesis_mainnet(),
            Chain::Testnet3 => genesis_testnet(),
            Chain::Signet => genesis_signet(),
            Chain::LiquidV1 => genesis_liquidv1(),
            Chain::Regtest(hash) => hash@,
            Chain::SignetCustom(hash) => hash@,
            Chain::Other(hash) => hash@,
        }
    }
}

impl vstd::std_specs::cmp::PartialEqSpecImpl for Chain {
    open spec fn obeys_eq_spec() -> bool {
        true
    }

    open spec fn eq_spec(&self, other: &Chain) -> bool {
        self.genesis() == other.genesis()
    }
}

/// Chains are the same where they have the same genesis block.
impl PartialEq for Chain {
    fn eq(&self, other: &Chain) -> (r: bool)
        ensures
            r == (self.genesis() == other.genesis()),
    {
        let a = native_asset(self);
        let b = native_asset(other);
        let r = same_hash(&a, &b);
        if !r {
            assert(!(a =~= b));
        }
        r
    }
}

/// Calls `AssetId::native` of lnpbp. Claimed: the identifier is the hash of the
/// genesis block of the chain, which is a fixed one for the predefined chains
/// and the one that the chain was given otherwise.
#[verifier::external_body]
fn native_asset(chain: &Chain) -> (r: [u8; 32])
    ensures
        r@ == chain.genesis(),
{
    let outside = match *chain {
        Chain::Mainnet => lnpbp::Chain::Mainnet,
        Chain::Testnet3 => lnpbp::Chain::Testnet3,
        Chain::Regtest(hash) => lnpbp::Chain::Regtest(BlockHash::from_inner(hash)),
        Chain::Signet => lnpbp::Chain::Signet,
        Chain::SignetCustom(hash) => lnpbp::Chain::SignetCustom(BlockHash::from_inner(hash)),
        Chain::LiquidV1 => lnpbp::Chain::LiquidV1,
        Chain::Other(hash) => lnpbp::Chain::Other(lnpbp::chain::ChainParams {
            genesis_hash: BlockHash::from_inner(hash),
            ..lnpbp::Chain::Mainnet.chain_params()
        }),
    };
    lnpbp::chain::AssetId::native(&outside).into_inner()
}

impl AssetId {
    /// Returns the identifier of the native asset of a chain.
    pub fn native(chain: &Chain) -> (r: AssetId)
        ensures
            r.0@ == chain.genesis(),
            match *chain {
                Chain::Regtest(hash) => r.0@ == hash@,
                Chain::SignetCustom(hash) => r.0@ == hash@,
                Chain::Other(hash) => r.0@ == hash@,
                Chain::Mainnet => r.0@ == genesis_mainnet(),
                Chain::Testnet3 => r.0@ == genesis_testnet(),
                Chain::Signet => r.0@ == genesis_signet(),
                Chain::LiquidV1 => r.0@ == genesis_liquidv1(),
            },
    {
        AssetId(native_asset(chain))
    }
}

/// The number that eight bytes from the index on make up, the first being the
/// lowest.
pub open spec fn word(bytes: Seq<u8>, i: int) -> nat {
    (bytes[i] + 0x100 * bytes[i + 1] + 0x1_0000 * bytes[i + 2] + 0x100_0000 * bytes[i + 3]
        + 0x1_0000_0000 * bytes[i + 4] + 0x100_0000_0000 * bytes[i + 5] + 0x1_0000_0000_0000
        * bytes[i + 6] + 0x100_0000_0000_0000 * bytes[i + 7]) as nat
}

/// The genesis hashes of the predefined chains, as the numbers that block hashes
/// are compared as.
pub proof fn law_predefined_genesis()
    ensures
        genesis_mainnet().len() == 32,
        word(genesis_mainnet(), 0) == 0x72b3f1b60a8ce26f,
        word(genesis_mainnet(), 8) == 0x4ff763ae46a2a6c1,
        word(genesis_mainnet(), 16) == 0x9c085ae165831e93,
        word(genesis_mainnet(), 24) == 0x000000000019d668,
        genesis_testnet().len() == 32,
        word(genesis_testnet(), 0) == 0x719526f8d77f4943,
        word(genesis_testnet(), 8) == 0xaec3ced90fa3f408,
        word(genesis_testnet(), 16) == 0xad0ee984209779ba,
        word(genesis_testnet(), 24) == 0x000000000933ea01,
        genesis_signet().len() == 32,
        word(genesis_signet(), 0) == 0xa480a3633bee1ef6,
        word(genesis_signet(), 8) == 0xc9bbb232af63a077,
        word(genesis_signet(), 16) == 0x25422c1ff0f99f7c,
        word(genesis_signet(), 24) == 0x00000008819873e9,
        genesis_liquidv1().len() == 32,
        word(genesis_liquidv1(), 0) == 0xb20d223658276614,
        word(genesis_liquidv1(), 8) == 0xf60ea1a359a04c94,
        word(genesis_liquidv1(), 16) == 0x2c8d68b084a62efd,
        word(genesis_liquidv1(), 24) == 0x0360208a88969237,
{
}

/// A chain that was given a genesis hash has that one, and the predefined chains
/// have theirs.
pub proof fn law_genesis(hash: [u8; 32])
    ensures
        Chain::Regtest(hash).genesis() == hash@,
        Chain::SignetCustom(hash).genesis() == hash@,
        Chain::Other(hash).genesis() == hash@,
        Chain::Mainnet.genesis() == genesis_mainnet(),
        Chain::Testnet3.genesis() == genesis_testnet(),
        Chain::Signet.genesis() == genesis_signet(),
        Chain::LiquidV1.genesis() == genesis_liquidv1(),
{
}

/// Two chains are the same if and only if their genesis hashes are.
pub proof fn law_same_chain(a: Chain, b: Chain)
    ensures
        vstd::std_specs::cmp::PartialEqSpec::eq_spec(&a, &b) <==> a.genesis() == b.genesis(),
{
}

} // verus!
