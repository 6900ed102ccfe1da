//! Tagged values carrying the facts extracted from a matched
//! instruction.

use vstd::prelude::*;

verus! {

/// A tagged value extracted from a matched instruction.  The variant set
/// is closed and exactly one variant is populated per instance; there is
/// no implicit coercion between variants.
#[derive(Clone, Debug)]
pub enum InstructionDataValue {
    /// Which accounts participated and what auxiliary text accompanied
    /// them.
    AccountsAndData {
        /// Ordered textual account identifiers.
        accounts: Vec<String>,
        /// Optional textual payload.
        data: Option<String>,
    },
    /// A single numeric quantity.
    Amount(u64),
}

impl InstructionDataValue {
    /// The numeric quantity: exposed by the `Amount` variant and by no
    /// other.
    pub fn amount(&self) -> (r: Option<u64>)
        ensures
            match *self {
                InstructionDataValue::Amount(x) => r == Some(x),
                InstructionDataValue::AccountsAndData { .. } => r is None,
            },
    {
        match self {
            InstructionDataValue::Amount(x) => Some(*x),
            InstructionDataValue::AccountsAndData { .. } => None,
        }
    }

    /// The participating accounts: exposed by the `AccountsAndData`
    /// variant and by no other.
    pub fn accounts(&self) -> (r: Option<&Vec<String>>)
        ensures
            match *self {
                InstructionDataValue::AccountsAndData { accounts, .. } => (r matches Some(a)
                    && *a == accounts),
                InstructionDataValue::Amount(_) => r is None,
            },
    {
        match self {
            InstructionDataValue::AccountsAndData { accounts, .. } => Some(accounts),
            InstructionDataValue::Amount(_) => None,
        }
    }

    /// The auxiliary textual payload: exposed by the `AccountsAndData`
    /// variant and by no other.
    pub fn data(&self) -> (r: Option<&Option<String>>)
        ensures
            match *self {
                InstructionDataValue::AccountsAndData { data, .. } => (r matches Some(d) && *d
                    == data),
                InstructionDataValue::Amount(_) => r is None,
            },
    {
        match self {
            InstructionDataValue::AccountsAndData { data, .. } => Some(data),
            InstructionDataValue::Amount(_) => None,
        }
    }
}

/// Tagged-value exclusivity: a value is an `Amount` exactly when it is
/// not an `AccountsAndData`, so a value constructed as one variant never
/// exposes the other variant's view.
pub proof fn lemma_variant_exclusive(v: InstructionDataValue)
    ensures
        (v is Amount) <==> !(v is AccountsAndData),
{
}

/// The instruction information extracted from a transaction: wraps
/// exactly one tagged value, immutable after construction.
#[derive(Clone, Debug)]
pub struct InstructionData {
    /// The extracted fact.
    pub value: InstructionDataValue,
}

} // verus!
