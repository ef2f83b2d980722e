//! Invoices.
use std::collections::BTreeMap;
use vstd::prelude::*;

use crate::amount::AmountExt;
use crate::beneficiary::Beneficiary;
use crate::chain::{genesis_mainnet, AssetId, Chain};
use crate::currency::CurrencyData;
use crate::quantity::Quantity;
use crate::recurrent::Recurrent;

verus! {

/// Further details of a payment.
#[derive(Clone, PartialOrd, Ord, PartialEq, Eq, Hash, Debug)]
pub struct Details {
    /// Double SHA-256 hash of the details.
    pub commitment: [u8; 32],
    /// URL
    pub source: String,
}

impl Details {
    /// Writes where the details are.
    pub fn to_string(&self) -> (r: String)
        ensures
            r@ == self.source@,
    {
        self.source.clone()
    }
}

/// Invoice for a payment.
#[derive(Clone, PartialEq, Eq, Debug)]
pub struct Invoice {
    /// Version byte, always 0 for the initial version
    pub version: u8,
    /// Amount in the specified asset - a price per single item, if `quantity`
    /// options is set
    pub amount: AmountExt,
    /// Main beneficiary. Separating the first beneficiary into a standalone
    /// field allows to ensure that there is always at lease one beneficiary
    /// at compile time
    pub beneficiary: Beneficiary,
    /// List of beneficiary ordered in most desirable-first order, which follow
    /// `beneficiary` value
    pub alt_beneficiaries: Vec<Beneficiary>,
    /// AssetId can also be used to define blockchain. If it's empty it implies
    /// bitcoin mainnet
    pub asset: Option<AssetId>,
    /// Interval between recurrent payments
    pub recurrent: Recurrent,
    /// Unix time in seconds
    pub expiry: Option<i64>,
    pub quantity: Option<Quantity>,
    /// If the price of the asset provided by fiat provider URL goes below this
    /// limit the merchant will not accept the payment and it will become
    /// expired
    pub currency_requirement: Option<CurrencyData>,
    pub merchant: Option<String>,
    pub purpose: Option<String>,
    pub details: Option<Details>,
    /// Signature in compact form
    pub signature: Option<[u8; 64]>,
    /// Records of types that are not known
    pub unknown: BTreeMap<u64, Vec<u8>>,
}

impl Invoice {
    /// Whether the invoice says no more than whom to pay, how much and in which
    /// asset.
    pub open spec fn is_plain(
        &self,
        beneficiary: Beneficiary,
        amount: AmountExt,
        asset: Option<AssetId>,
    ) -> bool {
        &&& self.version == 0
        &&& self.amount == amount
        &&& self.beneficiary == beneficiary
        &&& self.alt_beneficiaries@ == Seq::<Beneficiary>::empty()
        &&& self.asset == asset
        &&& self.recurrent == Recurrent::NonRecurrent
        &&& self.expiry is None
        &&& self.quantity is None
        &&& self.currency_requirement is None
        &&& self.merchant is None
        &&& self.purpose is None
        &&& self.details is None
        &&& self.signature is None
        &&& self.unknown@ == Map::<u64, Vec<u8>>::empty()
    }

    /// The identifier of the asset: the native asset of bitcoin mainnet where
    /// the invoice names none.
    pub open spec fn asset_id(&self) -> Seq<u8> {
        match self.asset {
            Some(asset) => asset.0@,
            None => genesis_mainnet(),
        }
    }

    /// All beneficiaries, the most desirable first.
    pub open spec fn payees(&self) -> Seq<Beneficiary> {
        seq![self.beneficiary] + self.alt_beneficiaries@
    }

    /// The beneficiary that the step with the given number, counted from zero,
    /// leads to.
    pub open spec fn payee_at(&self, step: int) -> Option<Beneficiary> {
        if 0 <= step < self.payees().len() {
            Some(self.payees()[step])
        } else {
            None
        }
    }

    /// Makes an invoice for an amount of an asset, or for any amount of it.
    pub fn new(beneficiary: Beneficiary, amount: Option<u64>, asset: Option<AssetId>) -> (r:
        Invoice)
        ensures
            r.is_plain(
                beneficiary,
                match amount {
                    Some(value) => AmountExt::Normal(value),
                    None => AmountExt::Any,
                },
                asset,
            ),
            r.version == 0,
            r.beneficiary == beneficiary,
            amount matches Some(value) ==> r.amount == AmountExt::Normal(value),
            amount is None ==> r.amount == AmountExt::Any,
            r.alt_beneficiaries@.len() == 0,
            r.recurrent is NonRecurrent,
            r.expiry is None,
            r.quantity is None,
            r.currency_requirement is None,
            r.merchant is None,
            r.purpose is None,
            r.details is None,
            r.signature is None,
            forall|key: u64| !r.unknown@.dom().contains(key),
            r.asset == asset,
    {
        Invoice {
            version: 0,
            amount: match amount {
                Some(value) => AmountExt::Normal(value),
                None => AmountExt::Any,
            },
            beneficiary,
            alt_beneficiaries: Vec::new(),
            asset,
            recurrent: Recurrent::default(),
            expiry: None,
            quantity: None,
            currency_requirement: None,
            merchant: None,
            purpose: None,
            details: None,
            signature: None,
            unknown: BTreeMap::new(),
        }
    }

    /// Makes an invoice for an amount of the native asset of a chain, or for any
    /// amount of it. The asset is left out for bitcoin mainnet, and only there;
    /// either way the invoice is for the native asset of the chain.
    pub fn native(beneficiary: Beneficiary, amount: Option<u64>, chain: &Chain) -> (r: Invoice)
        ensures
            r.is_plain(
                beneficiary,
                match amount {
                    Some(value) => AmountExt::Normal(value),
                    None => AmountExt::Any,
                },
                r.asset,
            ),
            r.version == 0,
            r.beneficiary == beneficiary,
            amount matches Some(value) ==> r.amount == AmountExt::Normal(value),
            amount is None ==> r.amount == AmountExt::Any,
            r.alt_beneficiaries@.len() == 0,
            r.recurrent is NonRecurrent,
            r.expiry is None,
            r.quantity is None,
            r.currency_requirement is None,
            r.merchant is None,
            r.purpose is None,
            r.details is None,
            r.signature is None,
            forall|key: u64| !r.unknown@.dom().contains(key),
            r.asset is None <==> chain.genesis() == genesis_mainnet(),
            r.asset matches Some(asset) ==> asset.0@ == chain.genesis(),
            r.asset_id() == chain.genesis(),
    {
        let asset = if *chain == Chain::Mainnet {
            None
        } else {
            Some(AssetId::native(chain))
        };
        Invoice::new(beneficiary, amount, asset)
    }

    /// Starts going through all beneficiaries, the most desirable first.
    pub fn beneficiaries(&self) -> (r: BeneficiariesIter<'_>)
        ensures
            *r.invoice == *self,
            r.index == 0,
    {
        BeneficiariesIter { invoice: self, index: 0 }
    }

    /// Version byte
    pub fn version(&self) -> (r: &u8)
        ensures
            *r == self.version,
    {
        &self.version
    }

    /// Amount in the specified asset
    pub fn amount(&self) -> (r: &AmountExt)
        ensures
            *r == self.amount,
    {
        &self.amount
    }

    /// Main beneficiary
    pub fn beneficiary(&self) -> (r: &Beneficiary)
        ensures
            *r == self.beneficiary,
    {
        &self.beneficiary
    }

    /// Beneficiaries that follow the main one
    pub fn alt_beneficiaries(&self) -> (r: &Vec<Beneficiary>)
        ensures
            *r == self.alt_beneficiaries,
    {
        &self.alt_beneficiaries
    }

    /// Asset, if it is not bitcoin
    pub fn asset(&self) -> (r: &Option<AssetId>)
        ensures
            *r == self.asset,
    {
        &self.asset
    }

    /// Interval between recurrent payments
    pub fn recurrent(&self) -> (r: &Recurrent)
        ensures
            *r == self.recurrent,
    {
        &self.recurrent
    }

    /// Time at which the invoice expires
    pub fn expiry(&self) -> (r: &Option<i64>)
        ensures
            *r == self.expiry,
    {
        &self.expiry
    }

    /// Number of items
    pub fn quantity(&self) -> (r: &Option<Quantity>)
        ensures
            *r == self.quantity,
    {
        &self.quantity
    }

    /// Limit on the price of the asset
    pub fn currency_requirement(&self) -> (r: &Option<CurrencyData>)
        ensures
            *r == self.currency_requirement,
    {
        &self.currency_requirement
    }

    /// Merchant
    pub fn merchant(&self) -> (r: &Option<String>)
        ensures
            *r == self.merchant,
    {
        &self.merchant
    }

    /// Purpose of the payment
    pub fn purpose(&self) -> (r: &Option<String>)
        ensures
            *r == self.purpose,
    {
        &self.purpose
    }

    /// Further details
    pub fn details(&self) -> (r: &Option<Details>)
        ensures
            *r == self.details,
    {
        &self.details
    }

    /// Signature
    pub fn signature(&self) -> (r: &Option<[u8; 64]>)
        ensures
            *r == self.signature,
    {
        &self.signature
    }

    /// Records of types that are not known
    pub fn unknown(&self) -> (r: &BTreeMap<u64, Vec<u8>>)
        ensures
            *r == self.unknown,
    {
        &self.unknown
    }
}

/// Goes through the beneficiaries of an invoice.
#[derive(Clone, PartialEq, Eq, Debug)]
pub struct BeneficiariesIter<'a> {
    pub invoice: &'a Invoice,
    /// Number of steps that were taken
    pub index: usize,
}

impl<'a> BeneficiariesIter<'a> {
    /// Takes a step and returns the beneficiary that it leads to: the main one
    /// first, then the others in their order, then none.
    pub fn next(&mut self) -> (r: Option<&'a Beneficiary>)
        requires
            old(self).index < usize::MAX,
        ensures
            final(self).invoice == old(self).invoice,
            final(self).index == old(self).index + 1,
            match r {
                Some(beneficiary) => old(self).invoice.payee_at(old(self).index as int) == Some(
                    *beneficiary,
                ),
                None => old(self).invoice.payee_at(old(self).index as int) is None,
            },
            r is Some <==> old(self).index <= old(self).invoice.alt_beneficiaries@.len(),
            old(self).index == 0 ==> r is Some && *r->0 == old(self).invoice.beneficiary,
            0 < old(self).index <= old(self).invoice.alt_beneficiaries@.len() ==> r is Some && *r->0
                == old(self).invoice.alt_beneficiaries@[old(self).index - 1],
    {
        self.index = self.index + 1;
        if self.index == 1 {
            Some(&self.invoice.beneficiary)
        } else if self.index - 2 < self.invoice.alt_beneficiaries.len() {
            Some(&self.invoice.alt_beneficiaries[self.index - 2])
        } else {
            None
        }
    }

    /// Returns all beneficiaries that are left, in their order; none where a step
    /// has led nowhere.
    pub fn collect(self) -> (r: Vec<&'a Beneficiary>)
        requires
            self.index < usize::MAX,
            self.invoice.payees().len() < usize::MAX,
        ensures
            r@.len() == if self.index <= self.invoice.payees().len() {
                self.invoice.payees().len() - self.index
            } else {
                0
            },
            forall|i: int|
                0 <= i < r@.len() ==> *(#[trigger] r@[i]) == self.invoice.payees()[self.index + i],
            self.index <= self.invoice.alt_beneficiaries@.len() ==> r@.len()
                == self.invoice.alt_beneficiaries@.len() + 1 - self.index,
            self.index > self.invoice.alt_beneficiaries@.len() ==> r@.len() == 0,
            self.index == 0 ==> *r@[0] == self.invoice.beneficiary,
            forall|i: int|
                0 <= i < r@.len() && self.index + i > 0 ==> *(#[trigger] r@[i])
                    == self.invoice.alt_beneficiaries@[self.index + i - 1],
    {
        let ghost payees = self.invoice.payees();
        let mut iter = BeneficiariesIter { invoice: self.invoice, index: self.index };
        let mut r: Vec<&'a Beneficiary> = Vec::new();
        loop
            invariant
                payees == self.invoice.payees(),
                iter.invoice.payees() == payees,
                self.index <= iter.index < usize::MAX,
                payees.len() < usize::MAX,
                iter.index == self.index || iter.index <= payees.len(),
                r@.len() == iter.index - self.index,
                forall|i: int|
                    0 <= i < r@.len() ==> *(#[trigger] r@[i]) == payees[self.index + i],
            decreases payees.len() - iter.index,
        {
            match iter.next() {
                Some(beneficiary) => r.push(beneficiary),
                None => {
                    return r;
                },
            }
        }
    }
}

/// There is always a beneficiary: the first step leads to the main one.
pub proof fn law_first_beneficiary(invoice: Invoice)
    ensures
        invoice.payee_at(0) == Some(invoice.beneficiary),
{
}

/// The steps behind the first lead to the other beneficiaries, in their order.
pub proof fn law_next_beneficiaries(invoice: Invoice, i: int)
    requires
        0 <= i < invoice.alt_beneficiaries@.len(),
    ensures
        invoice.payee_at(i + 1) == Some(invoice.alt_beneficiaries@[i]),
{
}

/// A step that leads nowhere is followed by such steps only.
pub proof fn law_beneficiaries_end(invoice: Invoice, step: int, later: int)
    requires
        0 <= step <= later,
        invoice.payee_at(step) is None,
    ensures
        invoice.payee_at(later) is None,
{
}

/// The beneficiaries are the main one and the others behind it.
pub proof fn law_payees(invoice: Invoice, i: int)
    ensures
        invoice.payees().len() == invoice.alt_beneficiaries@.len() + 1,
        invoice.payees()[0] == invoice.beneficiary,
        0 <= i < invoice.alt_beneficiaries@.len() ==> invoice.payees()[i + 1]
            == invoice.alt_beneficiaries@[i],
{
}

/// An invoice is for the asset that it names, and for that of bitcoin mainnet
/// where it names none.
pub proof fn law_asset_of_invoice(invoice: Invoice)
    ensures
        invoice.asset matches Some(asset) ==> invoice.asset_id() == asset.0@,
        invoice.asset is None ==> invoice.asset_id() == Chain::Mainnet.genesis(),
{
}

/// A plain invoice says whom to pay, how much and in which asset, and nothing
/// more.
pub proof fn law_plain_invoice(
    invoice: Invoice,
    beneficiary: Beneficiary,
    amount: AmountExt,
    asset: Option<AssetId>,
)
    requires
        invoice.is_plain(beneficiary, amount, asset),
    ensures
        invoice.version == 0,
        invoice.amount == amount,
        invoice.beneficiary == beneficiary,
        invoice.asset == asset,
        invoice.payees() == seq![beneficiary],
        invoice.recurrent is NonRecurrent,
        invoice.expiry is None,
        invoice.quantity is None,
        invoice.currency_requirement is None,
        invoice.merchant is None,
        invoice.purpose is None,
        invoice.details is None,
        invoice.signature is None,
        invoice.unknown@.dom() == Set::<u64>::empty(),
{
    assert(invoice.payees() =~= seq![beneficiary]);
}

} // verus!
