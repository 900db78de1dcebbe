//! Shared type declarations for the domain models, kept in one spot so a
//! change of representation touches a single file.

pub mod client;
pub mod transactions;

use vstd::prelude::*;

verus! {

/// The type of client ids.
pub type ClientID = u16;

/// The type of transaction ids.
pub type TransactionID = u32;

/// The type for the amounts transacted in the system: fixed-point values
/// with four implied decimal digits, held as scaled integers so that no
/// floating-point drift can creep into the accounts.
pub type MoneyType = u64;

/// The type for the `available` balance of an account. It is signed because
/// disputing a deposit claws the amount back even when the client has
/// already spent it, which may drive `available` below zero.
pub type BalanceType = i64;

/// Marker type for the type-state builders, indicating that the
/// corresponding field has not yet been filled.
#[derive(Default)]
pub struct NoVal {}

} // verus!
