//! Bitcoin addresses.
use vstd::prelude::*;

use bitcoin::bech32::u5;
use bitcoin::hashes::Hash as _;
use bitcoin::util::address::Payload as OutsidePayload;
use bitcoin::{PubkeyHash, ScriptHash};
use std::str::FromStr;

verus! {

/// The network that an address is for.
#[derive(Copy, Clone, PartialOrd, Ord, PartialEq, Eq, Hash, Debug, Structural)]
pub enum Network {
    Bitcoin,
    Testnet,
    Signet,
    Regtest,
}

/// What an address pays to.
#[derive(Clone, PartialOrd, Ord, PartialEq, Eq, Hash, Debug)]
pub enum Payload {
    /// P2PKH address
    PubkeyHash([u8; 20]),
    /// P2SH address
    ScriptHash([u8; 20]),
    /// Segwit addresses: witness version and program
    WitnessProgram(u8, Vec<u8>),
}

/// Bitcoin address.
#[derive(Clone, PartialOrd, Ord, PartialEq, Eq, Hash, Debug)]
pub struct Address {
    pub payload: Payload,
    pub network: Network,
}

/// Contents of a [`Payload`].
pub enum PayloadView {
    PubkeyHash(Seq<u8>),
    ScriptHash(Seq<u8>),
    WitnessProgram(u8, Seq<u8>),
}

/// Contents of an [`Address`].
pub struct AddressView {
    pub payload: PayloadView,
    pub network: Network,
}

impl View for Address {
    type V = AddressView;

    open spec fn view(&self) -> AddressView {
        AddressView {
            payload: match self.payload {
                Payload::PubkeyHash(hash) => PayloadView::PubkeyHash(hash@),
                Payload::ScriptHash(hash) => PayloadView::ScriptHash(hash@),
                Payload::WitnessProgram(version, program) => PayloadView::WitnessProgram(
                    version,
                    program@,
                ),
            },
            network: self.network,
        }
    }
}

/// The contents of an address, where there is one.
pub open spec fn address_view(address: Option<Address>) -> Option<AddressView> {
    match address {
        Some(address) => Some(address@),
        None => None,
    }
}

impl AddressView {
    /// A witness version takes five bits.
    pub open spec fn well_formed(self) -> bool {
        self.payload matches PayloadView::WitnessProgram(version, _) ==> version < 32
    }

    /// Whether the text of the address says all of it. A text in base58 tells
    /// mainnet from other networks only, and one in bech32 does not tell signet
    /// from testnet; and witness programs are limited in version and length.
    pub open spec fn readable(self) -> bool {
        match self.payload {
            PayloadView::WitnessProgram(version, program) => {
                &&& self.network != Network::Signet
                &&& version <= 16
                &&& 2 <= program.len() <= 40
                &&& version == 0 ==> program.len() == 20 || program.len() == 32
            },
            _ => self.network == Network::Bitcoin || self.network == Network::Testnet,
        }
    }
}

/// The address that `Address::from_str` of bitcoin reads from a text.
pub uninterp spec fn parsed_address(s: Seq<char>) -> Option<AddressView>;

/// The text that bitcoin displays an address as.
pub uninterp spec fn address_text(address: AddressView) -> Seq<char>;

/// Calls `Address::from_str` of bitcoin. Claimed: the address, or that there is
/// none, depends on the text alone, and the text of that address would say all
/// of it.
#[verifier::external_body]
pub(crate) fn parse_address(s: &str) -> (r: Option<Address>)
    ensures
        address_view(r) == parsed_address(s@),
        r is Some ==> r->0@.readable(),
{
    let address = bitcoin::Address::from_str(s).ok()?;
    let payload = match address.payload {
        OutsidePayload::PubkeyHash(hash) => Payload::PubkeyHash(hash.into_inner()),
        OutsidePayload::ScriptHash(hash) => Payload::ScriptHash(hash.into_inner()),
        OutsidePayload::WitnessProgram { version, program } =>
            Payload::WitnessProgram(version.to_u8(), program),
    };
    let network = match address.network {
        bitcoin::Network::Bitcoin => Network::Bitcoin,
        bitcoin::Network::Testnet => Network::Testnet,
        bitcoin::Network::Signet => Network::Signet,
        bitcoin::Network::Regtest => Network::Regtest,
    };
    Some(Address { payload, network })
}

/// Displays an address of bitcoin. Claimed: the text depends on the address
/// alone, and where it says all of the address, `Address::from_str` reads that
/// address from it.
#[verifier::external_body]
pub(crate) fn display_address(address: &Address) -> (r: String)
    requires
        address@.well_formed(),
    ensures
        r@ == address_text(address@),
        address@.readable() ==> parsed_address(r@) == Some(address@),
{
    let payload = match address.payload.clone() {
        Payload::PubkeyHash(hash) => OutsidePayload::PubkeyHash(PubkeyHash::from_inner(hash)),
        Payload::ScriptHash(hash) => OutsidePayload::ScriptHash(ScriptHash::from_inner(hash)),
        Payload::WitnessProgram(version, program) =>
            OutsidePayload::WitnessProgram { version: u5::try_from_u8(version).unwrap(), program },
    };
    let network = match address.network {
        Network::Bitcoin => bitcoin::Network::Bitcoin,
        Network::Testnet => bitcoin::Network::Testnet,
        Network::Signet => bitcoin::Network::Signet,
        Network::Regtest => bitcoin::Network::Regtest,
    };
    bitcoin::Address { payload, network }.to_string()
}

/// The contents of an address are its network and what it pays to, byte for byte.
pub proof fn law_address_view(address: Address)
    ensures
        address@.network == address.network,
        address.payload matches Payload::PubkeyHash(hash) ==> address@.payload
            == PayloadView::PubkeyHash(hash@),
        address.payload matches Payload::ScriptHash(hash) ==> address@.payload
            == PayloadView::ScriptHash(hash@),
        address.payload matches Payload::WitnessProgram(version, program) ==> address@.payload
            == PayloadView::WitnessProgram(version, program@),
        address_view(Some(address)) == Some(address@),
        address_view(None) is None,
{
}

/// An address in base58 for mainnet or testnet, and one in bech32 for any
/// network but signet with a witness program that may be spent to, is told from
/// its text.
pub proof fn law_readable_addresses(hash: Seq<u8>, version: u8, program: Seq<u8>, network: Network)
    ensures
        (AddressView { payload: PayloadView::PubkeyHash(hash), network }).readable() <==> (network
            is Bitcoin || network is Testnet),
        (AddressView { payload: PayloadView::ScriptHash(hash), network }).readable() <==> (network
            is Bitcoin || network is Testnet),
        version == 0 ==> ((AddressView {
            payload: PayloadView::WitnessProgram(version, program),
            network,
        }).readable() <==> !(network is Signet) && (program.len() == 20 || program.len() == 32)),
        version > 0 ==> ((AddressView {
            payload: PayloadView::WitnessProgram(version, program),
            network,
        }).readable() <==> !(network is Signet) && version <= 16 && 2 <= program.len() <= 40),
        (AddressView {
            payload: PayloadView::WitnessProgram(version, program),
            network,
        }).well_formed() <==> version < 32,
        (AddressView { payload: PayloadView::PubkeyHash(hash), network }).well_formed(),
        (AddressView { payload: PayloadView::ScriptHash(hash), network }).well_formed(),
{
}

} // verus!
