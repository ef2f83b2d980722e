//! Universal invoices, and single-use seals over transaction outputs.
//!
//! An [`Invoice`](invoice::Invoice) asks for an amount of an asset and names one
//! or more beneficiaries. A [`Witness`](seals::witness::Witness) shows that seals
//! were closed over a message.

pub mod address;
pub mod amount;
pub mod beneficiary;
pub mod bytes;
pub mod chain;
pub mod currency;
pub mod invoice;
pub mod lightning;
pub mod order;
pub mod quantity;
pub mod recurrent;
pub mod seals;
pub mod text;

pub use crate::amount::{AmountExt, AmountParseError};
pub use crate::beneficiary::{Beneficiary, BeneficiaryParseError};
pub use crate::currency::{CurrencyData, Iso4217, Iso4217Error};
pub use crate::invoice::{BeneficiariesIter, Details, Invoice};
pub use crate::lightning::{LnAddress, LnPathHint};
pub use crate::quantity::Quantity;
pub use crate::recurrent::Recurrent;
pub use crate::seals::witness::Witness;
