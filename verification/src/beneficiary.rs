//! Those who are to be paid.
use vstd::prelude::*;

use bitcoin::hashes::{sha256, Hash as _};
use lnpbp::bech32::Blob;
use lnpbp::TaggedHash;
use miniscript::descriptor::DescriptorPublicKey;
use std::str::FromStr;

use crate::address::{
    address_text, address_view, display_address, parse_address, parsed_address, Address,
    AddressView, Payload,
};
use crate::lightning::LnAddress;
use crate::text::hex;

verus! {

/// Blinded transaction outpoint: the hash of the outpoint with some salt.
#[derive(Copy, Clone, PartialOrd, Ord, PartialEq, Eq, Hash, Debug)]
pub struct OutpointHash(pub [u8; 32]);

/// The outermost form of a descriptor.
#[derive(Copy, Clone, PartialOrd, Ord, PartialEq, Eq, Hash, Debug, Structural)]
pub enum DescriptorForm {
    /// A raw script
    Bare,
    /// Pay-to-PubKey-Hash
    Pkh,
    /// Pay-to-Witness-PubKey-Hash
    Wpkh,
    /// Pay-to-ScriptHash
    Sh,
    /// Pay-to-Witness-ScriptHash
    Wsh,
}

/// Miniscript-based descriptor. The text alone does not tell the raw script of a
/// key hash from the Pay-to-PubKey-Hash descriptor of the same key.
#[derive(Clone, PartialOrd, Ord, PartialEq, Eq, Hash, Debug)]
pub struct Descriptor {
    pub form: DescriptorForm,
    /// The descriptor as it is displayed, with its checksum
    pub text: String,
}

impl View for Descriptor {
    type V = (DescriptorForm, Seq<char>);

    open spec fn view(&self) -> (DescriptorForm, Seq<char>) {
        (self.form, self.text@)
    }
}

/// Serialized transaction template.
#[derive(Clone, PartialOrd, Ord, PartialEq, Eq, Hash, Debug)]
pub struct Psbt(pub Vec<u8>);

/// The one who is to be paid.
#[derive(Clone, PartialEq, Eq, Debug)]
#[non_exhaustive]
pub enum Beneficiary {
    /// Addresses are useful when you do not like to leak public key
    /// information
    Address(Address),
    /// Used by protocols that work with existing UTXOs and can assign some
    /// client-validated data to them (like in RGB). We always hide the real
    /// UTXO behind the hashed version (using some salt)
    BlindUtxo(OutpointHash),
    /// Miniscript-based descriptors allowing custom derivation & key
    /// generation
    Descriptor(Descriptor),
    /// Full transaction template in PSBT format
    Psbt(Psbt),
    /// Lightning node receiving the payment. Not the same as lightning invoice
    /// since many of the invoice data now will be part of the invoice here.
    Lightning(LnAddress),
    /// Fallback option for all future variants
    Unknown(Vec<u8>),
}

/// The text is no beneficiary.
#[derive(Copy, Clone, PartialOrd, Ord, PartialEq, Eq, Debug, Structural)]
pub struct BeneficiaryParseError;

impl BeneficiaryParseError {
    /// Writes the message of the error.
    pub fn to_string(&self) -> (r: String)
        ensures
            r@ == "Incorrect beneficiary format"@,
    {
        "Incorrect beneficiary format".to_owned()
    }
}

/// Contents of a [`Beneficiary`].
pub enum BeneficiaryView {
    Address(AddressView),
    BlindUtxo(Seq<u8>),
    Descriptor((DescriptorForm, Seq<char>)),
    Psbt(Seq<u8>),
    Lightning(LnAddress),
    Unknown(Seq<u8>),
}

impl View for Beneficiary {
    type V = BeneficiaryView;

    open spec fn view(&self) -> BeneficiaryView {
        match *self {
            Beneficiary::Address(address) => BeneficiaryView::Address(address@),
            Beneficiary::BlindUtxo(outpoint) => BeneficiaryView::BlindUtxo(outpoint.0@),
            Beneficiary::Descriptor(descriptor) => BeneficiaryView::Descriptor(descriptor@),
            Beneficiary::Psbt(psbt) => BeneficiaryView::Psbt(psbt.0@),
            Beneficiary::Lightning(address) => BeneficiaryView::Lightning(address),
            Beneficiary::Unknown(blob) => BeneficiaryView::Unknown(blob@),
        }
    }
}

/// The hash that `OutpointHash::from_str` of lnpbp reads from a text.
pub uninterp spec fn parsed_outpoint(s: Seq<char>) -> Option<Seq<u8>>;

/// The text that lnpbp displays an outpoint hash as.
pub uninterp spec fn outpoint_text(hash: Seq<u8>) -> Seq<char>;

/// The form of the descriptor that `Descriptor::from_str` of miniscript reads
/// from a text, and the text that miniscript displays it as.
pub uninterp spec fn parsed_descriptor(s: Seq<char>) -> Option<(DescriptorForm, Seq<char>)>;

/// The text that lnpbp displays a blob of data as.
pub uninterp spec fn blob_text(data: Seq<u8>) -> Seq<char>;

/// The bytes of an outpoint hash, where there is one.
pub open spec fn outpoint_view(outpoint: Option<OutpointHash>) -> Option<Seq<u8>> {
    match outpoint {
        Some(outpoint) => Some(outpoint.0@),
        None => None,
    }
}

/// The contents of a descriptor, where there is one.
pub open spec fn descriptor_view(descriptor: Option<Descriptor>) -> Option<
    (DescriptorForm, Seq<char>),
> {
    match descriptor {
        Some(descriptor) => Some(descriptor@),
        None => None,
    }
}

/// Calls `OutpointHash::from_str` of lnpbp. Claimed: the hash, or that there is
/// none, depends on the text alone.
#[verifier::external_body]
fn parse_outpoint(s: &str) -> (r: Option<OutpointHash>)
    ensures
        outpoint_view(r) == parsed_outpoint(s@),
{
    let outpoint = lnpbp::seals::OutpointHash::from_str(s).ok()?;
    Some(OutpointHash(*outpoint.as_slice()))
}

/// Displays an `OutpointHash` of lnpbp. Claimed: the text depends on the hash
/// alone; it is one of 64 characters that start with "utxob1", which
/// `OutpointHash::from_str` reads back as the hash, and `Address::from_str` of
/// bitcoin does not read at all.
#[verifier::external_body]
fn display_outpoint(outpoint: &OutpointHash) -> (r: String)
    ensures
        r@ == outpoint_text(outpoint.0@),
        parsed_outpoint(r@) == Some(outpoint.0@),
        parsed_address(r@) is None,
{
    lnpbp::seals::OutpointHash::from_hash(sha256::Hash::from_inner(outpoint.0)).to_string()
}

/// Calls `Descriptor::from_str` of miniscript, for descriptors with public keys,
/// and displays the descriptor. Claimed: its form and text, or that there is
/// none, depend on the text alone that is read. How much stack the call takes
/// grows with the nesting of that text. That the descriptor is read back from
/// the text is not claimed.
#[verifier::external_body]
fn parse_descriptor(s: &str) -> (r: Option<Descriptor>)
    ensures
        descriptor_view(r) == parsed_descriptor(s@),
{
    let descriptor = miniscript::Descriptor::<DescriptorPublicKey>::from_str(s).ok()?;
    let form = match descriptor {
        miniscript::Descriptor::Bare(_) => DescriptorForm::Bare,
        miniscript::Descriptor::Pkh(_) => DescriptorForm::Pkh,
        miniscript::Descriptor::Wpkh(_) => DescriptorForm::Wpkh,
        miniscript::Descriptor::Sh(_) => DescriptorForm::Sh,
        miniscript::Descriptor::Wsh(_) => DescriptorForm::Wsh,
    };
    Some(Descriptor { form, text: descriptor.to_string() })
}

/// Displays a `Blob` of lnpbp. Claimed: the text depends on the data alone.
#[verifier::external_body]
fn display_blob(data: &Vec<u8>) -> (r: String)
    ensures
        r@ == blob_text(data@),
{
    Blob::from(data.clone()).to_string()
}

/// The beneficiary that a text stands for, given what it is read as: an address,
/// or else a blinded outpoint, or else a descriptor.
pub open spec fn beneficiary_with(
    address: Option<AddressView>,
    outpoint: Option<Seq<u8>>,
    descriptor: Option<(DescriptorForm, Seq<char>)>,
) -> Result<BeneficiaryView, BeneficiaryParseError> {
    if address is Some {
        Ok(BeneficiaryView::Address(address->0))
    } else if outpoint is Some {
        Ok(BeneficiaryView::BlindUtxo(outpoint->0))
    } else if descriptor is Some {
        Ok(BeneficiaryView::Descriptor(descriptor->0))
    } else {
        Err(BeneficiaryParseError)
    }
}

/// The beneficiary that a text stands for.
pub open spec fn beneficiary_of(s: Seq<char>) -> Result<BeneficiaryView, BeneficiaryParseError> {
    beneficiary_with(parsed_address(s), parsed_outpoint(s), parsed_descriptor(s))
}

/// The contents of a beneficiary that was read.
pub open spec fn read_view(read: Result<Beneficiary, BeneficiaryParseError>) -> Result<
    BeneficiaryView,
    BeneficiaryParseError,
> {
    match read {
        Ok(beneficiary) => Ok(beneficiary@),
        Err(error) => Err(error),
    }
}

impl Beneficiary {
    /// The bounds of the data that a beneficiary is made of.
    pub open spec fn well_formed(&self) -> bool {
        self@ matches BeneficiaryView::Address(address) ==> address.well_formed()
    }

    /// Tells whether the data are within their bounds.
    pub fn is_well_formed(&self) -> (r: bool)
        ensures
            r == self.well_formed(),
            r <==> !(self matches Beneficiary::Address(address)
                && address.payload matches Payload::WitnessProgram(version, _) && version >= 32),
    {
        match self {
            Beneficiary::Address(address) => match &address.payload {
                Payload::WitnessProgram(version, _) => *version < 32,
                _ => true,
            },
            _ => true,
        }
    }

    /// Whether the text of the beneficiary is read back as that beneficiary.
    pub open spec fn readable(&self) -> bool {
        match self@ {
            BeneficiaryView::Address(address) => address.readable(),
            BeneficiaryView::BlindUtxo(_) => true,
            _ => false,
        }
    }

    /// The text of a beneficiary.
    pub open spec fn text(&self) -> Seq<char> {
        match self@ {
            BeneficiaryView::Address(address) => address_text(address),
            BeneficiaryView::BlindUtxo(hash) => outpoint_text(hash),
            BeneficiaryView::Descriptor(descriptor) => descriptor.1,
            BeneficiaryView::Psbt(_) => "PSBT!"@,
            BeneficiaryView::Lightning(address) => hex(address.node_id@),
            BeneficiaryView::Unknown(blob) => blob_text(blob),
        }
    }

    /// Chooses among what a text was read as: an address comes before a blinded
    /// outpoint, and that before a descriptor.
    pub fn from_parsed(
        address: Option<Address>,
        outpoint: Option<OutpointHash>,
        descriptor: Option<Descriptor>,
    ) -> (r: Result<Beneficiary, BeneficiaryParseError>)
        ensures
            read_view(r) == beneficiary_with(
                address_view(address),
                outpoint_view(outpoint),
                descriptor_view(descriptor),
            ),
            address matches Some(address) ==> r == Ok::<Beneficiary, BeneficiaryParseError>(
                Beneficiary::Address(address),
            ),
            address is None ==> (outpoint matches Some(outpoint) ==> r == Ok::<
                Beneficiary,
                BeneficiaryParseError,
            >(Beneficiary::BlindUtxo(outpoint))),
            address is None && outpoint is None ==> (descriptor matches Some(descriptor) ==> r
                == Ok::<Beneficiary, BeneficiaryParseError>(Beneficiary::Descriptor(descriptor))),
            r is Err <==> address is None && outpoint is None && descriptor is None,
    {
        if let Some(address) = address {
            Ok(Beneficiary::Address(address))
        } else if let Some(outpoint) = outpoint {
            Ok(Beneficiary::BlindUtxo(outpoint))
        } else if let Some(descriptor) = descriptor {
            Ok(Beneficiary::Descriptor(descriptor))
        } else {
            Err(BeneficiaryParseError)
        }
    }

    /// Reads a beneficiary: an address, a blinded outpoint or a descriptor.
    pub fn from_str(s: &str) -> (r: Result<Beneficiary, BeneficiaryParseError>)
        ensures
            read_view(r) == beneficiary_of(s@),
            parsed_address(s@) is Some ==> (r matches Ok(Beneficiary::Address(address)) && Some(
                address@,
            ) == parsed_address(s@)),
            parsed_address(s@) is None && parsed_outpoint(s@) is Some ==> (r matches Ok(
                Beneficiary::BlindUtxo(outpoint),
            ) && Some(outpoint.0@) == parsed_outpoint(s@)),
            parsed_address(s@) is None && parsed_outpoint(s@) is None && parsed_descriptor(s@)
                is Some ==> (r matches Ok(Beneficiary::Descriptor(descriptor)) && Some(
                (descriptor.form, descriptor.text@),
            ) == parsed_descriptor(s@)),
            r is Err <==> parsed_address(s@) is None && parsed_outpoint(s@) is None
                && parsed_descriptor(s@) is None,
            r is Ok ==> r->Ok_0.well_formed(),
    {
        let address = parse_address(s);
        if address.is_some() {
            return Beneficiary::from_parsed(address, None, None);
        }
        let outpoint = parse_outpoint(s);
        if outpoint.is_some() {
            return Beneficiary::from_parsed(None, outpoint, None);
        }
        Beneficiary::from_parsed(None, None, parse_descriptor(s))
    }

    /// Writes the beneficiary. An address whose text says all of it, and any
    /// blinded outpoint, is read back from the text.
    pub fn to_string(&self) -> (r: String)
        requires
            self.well_formed(),
        ensures
            r@ == self.text(),
            match *self {
                Beneficiary::Address(address) => r@ == address_text(address@)
                    && (address@.readable() ==> parsed_address(r@) == Some(address@)),
                Beneficiary::BlindUtxo(outpoint) => r@ == outpoint_text(outpoint.0@)
                    && parsed_outpoint(r@) == Some(outpoint.0@) && parsed_address(r@) is None,
                Beneficiary::Descriptor(descriptor) => r@ == descriptor.text@,
                Beneficiary::Psbt(_) => r@ == "PSBT!"@,
                Beneficiary::Lightning(address) => r@ == hex(address.node_id@),
                Beneficiary::Unknown(blob) => r@ == blob_text(blob@),
            },
            self.readable() ==> beneficiary_of(r@) == Ok::<BeneficiaryView, BeneficiaryParseError>(
                self@,
            ),
    {
        match self {
            Beneficiary::Address(address) => display_address(address),
            Beneficiary::BlindUtxo(outpoint) => display_outpoint(outpoint),
            Beneficiary::Descriptor(descriptor) => descriptor.text.clone(),
            Beneficiary::Psbt(_) => "PSBT!".to_owned(),
            Beneficiary::Lightning(address) => address.to_string(),
            Beneficiary::Unknown(blob) => display_blob(blob),
        }
    }
}

impl vstd::std_specs::convert::FromSpecImpl<Address> for Beneficiary {
    open spec fn obeys_from_spec() -> bool {
        true
    }

    open spec fn from_spec(address: Address) -> Beneficiary {
        Beneficiary::Address(address)
    }
}

impl From<Address> for Beneficiary {
    fn from(address: Address) -> (r: Beneficiary)
        ensures
            r == Beneficiary::Address(address),
    {
        Beneficiary::Address(address)
    }
}

impl vstd::std_specs::convert::FromSpecImpl<OutpointHash> for Beneficiary {
    open spec fn obeys_from_spec() -> bool {
        true
    }

    open spec fn from_spec(outpoint: OutpointHash) -> Beneficiary {
        Beneficiary::BlindUtxo(outpoint)
    }
}

impl From<OutpointHash> for Beneficiary {
    fn from(outpoint: OutpointHash) -> (r: Beneficiary)
        ensures
            r == Beneficiary::BlindUtxo(outpoint),
    {
        Beneficiary::BlindUtxo(outpoint)
    }
}

impl vstd::std_specs::convert::FromSpecImpl<Descriptor> for Beneficiary {
    open spec fn obeys_from_spec() -> bool {
        true
    }

    open spec fn from_spec(descriptor: Descriptor) -> Beneficiary {
        Beneficiary::Descriptor(descriptor)
    }
}

impl From<Descriptor> for Beneficiary {
    fn from(descriptor: Descriptor) -> (r: Beneficiary)
        ensures
            r == Beneficiary::Descriptor(descriptor),
    {
        Beneficiary::Descriptor(descriptor)
    }
}

impl vstd::std_specs::convert::FromSpecImpl<Psbt> for Beneficiary {
    open spec fn obeys_from_spec() -> bool {
        true
    }

    open spec fn from_spec(psbt: Psbt) -> Beneficiary {
        Beneficiary::Psbt(psbt)
    }
}

impl From<Psbt> for Beneficiary {
    fn from(psbt: Psbt) -> (r: Beneficiary)
        ensures
            r == Beneficiary::Psbt(psbt),
    {
        Beneficiary::Psbt(psbt)
    }
}

impl vstd::std_specs::convert::FromSpecImpl<LnAddress> for Beneficiary {
    open spec fn obeys_from_spec() -> bool {
        true
    }

    open spec fn from_spec(address: LnAddress) -> Beneficiary {
        Beneficiary::Lightning(address)
    }
}

impl From<LnAddress> for Beneficiary {
    fn from(address: LnAddress) -> (r: Beneficiary)
        ensures
            r == Beneficiary::Lightning(address),
    {
        Beneficiary::Lightning(address)
    }
}

/// A text that is read as an address stands for that address, whatever else it
/// could be read as.
pub proof fn law_address_is_first(s: Seq<char>)
    requires
        parsed_address(s) is Some,
    ensures
        beneficiary_of(s) == Ok::<BeneficiaryView, BeneficiaryParseError>(
            BeneficiaryView::Address(parsed_address(s)->0),
        ),
{
}

/// A text that is read as a blinded outpoint and not as an address stands for
/// that outpoint.
pub proof fn law_outpoint_is_second(s: Seq<char>)
    requires
        parsed_address(s) is None,
        parsed_outpoint(s) is Some,
    ensures
        beneficiary_of(s) == Ok::<BeneficiaryView, BeneficiaryParseError>(
            BeneficiaryView::BlindUtxo(parsed_outpoint(s)->0),
        ),
{
}

/// Every text that is read as a descriptor and as nothing before it stands for
/// that descriptor.
pub proof fn law_descriptor_is_third(s: Seq<char>)
    requires
        parsed_address(s) is None,
        parsed_outpoint(s) is None,
        parsed_descriptor(s) is Some,
    ensures
        beneficiary_of(s) == Ok::<BeneficiaryView, BeneficiaryParseError>(
            BeneficiaryView::Descriptor(parsed_descriptor(s)->0),
        ),
{
}

/// A text is refused only where it is read in none of the three ways.
pub proof fn law_refused_beneficiary(s: Seq<char>)
    ensures
        beneficiary_of(s) is Err <==> parsed_address(s) is None && parsed_outpoint(s) is None
            && parsed_descriptor(s) is None,
{
}

/// The contents of a beneficiary say which of the ways to be paid it is and hold
/// all of its data.
pub proof fn law_beneficiary_view(beneficiary: Beneficiary)
    ensures
        beneficiary matches Beneficiary::Address(address) ==> beneficiary@
            == BeneficiaryView::Address(address@),
        beneficiary matches Beneficiary::BlindUtxo(outpoint) ==> beneficiary@
            == BeneficiaryView::BlindUtxo(outpoint.0@),
        beneficiary matches Beneficiary::Descriptor(descriptor) ==> beneficiary@
            == BeneficiaryView::Descriptor((descriptor.form, descriptor.text@)),
        beneficiary matches Beneficiary::Psbt(psbt) ==> beneficiary@ == BeneficiaryView::Psbt(
            psbt.0@,
        ),
        beneficiary matches Beneficiary::Lightning(address) ==> beneficiary@
            == BeneficiaryView::Lightning(address),
        beneficiary matches Beneficiary::Unknown(blob) ==> beneficiary@ == BeneficiaryView::Unknown(
            blob@,
        ),
        read_view(Ok(beneficiary)) == Ok::<BeneficiaryView, BeneficiaryParseError>(beneficiary@),
        read_view(Err(BeneficiaryParseError)) is Err,
{
}

/// An outpoint hash and a descriptor that were read hold all of what was read.
pub proof fn law_read_contents(outpoint: OutpointHash, descriptor: Descriptor)
    ensures
        outpoint_view(Some(outpoint)) == Some(outpoint.0@),
        outpoint_view(None) is None,
        descriptor_view(Some(descriptor)) == Some((descriptor.form, descriptor.text@)),
        descriptor_view(None) is None,
{
}

/// Every blinded outpoint, and exactly the addresses that are told from their
/// text, are read back; all beneficiaries but addresses are within their bounds.
pub proof fn law_readable_beneficiaries(beneficiary: Beneficiary)
    ensures
        beneficiary is BlindUtxo ==> beneficiary.readable(),
        beneficiary matches Beneficiary::Address(address) ==> (beneficiary.readable()
            <==> address@.readable()),
        beneficiary matches Beneficiary::Address(address) ==> (beneficiary.well_formed()
            <==> address@.well_formed()),
        !(beneficiary is Address) ==> beneficiary.well_formed(),
{
}

/// Each way to be paid makes a beneficiary of its own.
pub proof fn law_beneficiary_from(
    address: Address,
    outpoint: OutpointHash,
    descriptor: Descriptor,
    psbt: Psbt,
    node: LnAddress,
)
    ensures
        <Beneficiary as vstd::std_specs::convert::FromSpec<Address>>::from_spec(address)
            == Beneficiary::Address(address),
        <Beneficiary as vstd::std_specs::convert::FromSpec<OutpointHash>>::from_spec(outpoint)
            == Beneficiary::BlindUtxo(outpoint),
        <Beneficiary as vstd::std_specs::convert::FromSpec<Descriptor>>::from_spec(descriptor)
            == Beneficiary::Descriptor(descriptor),
        <Beneficiary as vstd::std_specs::convert::FromSpec<Psbt>>::from_spec(psbt)
            == Beneficiary::Psbt(psbt),
        <Beneficiary as vstd::std_specs::convert::FromSpec<LnAddress>>::from_spec(node)
            == Beneficiary::Lightning(node),
{
}

} // verus!
