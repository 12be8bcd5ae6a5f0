//! The item record, the payload that creates or rewrites one, and the error.

use vstd::prelude::*;
use vstd::string::StringExecFns;

verus! {

/// The caller-supplied fields of an item: used both to create a record and to
/// overwrite the mutable part of an existing one.
#[derive(Clone, Debug, PartialEq, Eq)]
pub struct ItemPayload {
    pub name: String,
    pub description: String,
    pub owner: String,
    pub rental_price: u64,
}

/// One rentable object, as stored in the table.
#[derive(Clone, Debug, PartialEq, Eq)]
pub struct Item {
    pub id: u64,
    pub name: String,
    pub description: String,
    pub owner: String,
    pub rental_price: u64,
    pub available: bool,
    pub created_at: u64,
    pub updated_at: Option<u64>,
}

impl ItemPayload {
    pub fn new(name: String, description: String, owner: String, rental_price: u64) -> (r:
        ItemPayload)
        ensures
            r.name == name,
            r.description == description,
            r.owner == owner,
            r.rental_price == rental_price,
    {
        ItemPayload { name, description, owner, rental_price }
    }
}

impl Item {
    /// The time of the last change to the record: its last update, or its
    /// creation when it was never updated.
    pub open spec fn last_stamp(self) -> u64 {
        match self.updated_at {
            Some(t) => t,
            None => self.created_at,
        }
    }

    /// A field-by-field copy of the record.
    pub fn duplicate(&self) -> (r: Item)
        ensures
            r == *self,
    {
        Item {
            id: self.id,
            name: self.name.clone(),
            description: self.description.clone(),
            owner: self.owner.clone(),
            rental_price: self.rental_price,
            available: self.available,
            created_at: self.created_at,
            updated_at: self.updated_at,
        }
    }
}

/// The one way an operation can fail: the identifier names no record.
#[derive(Clone, Copy, Debug, PartialEq, Eq, Structural)]
pub enum MarketError {
    NotFound(u64),
}

/// The character for a decimal digit.
pub open spec fn digit_char(d: nat) -> char {
    seq!['0', '1', '2', '3', '4', '5', '6', '7', '8', '9'][d as int]
}

/// The decimal notation of a natural number, without leading zeros.
pub open spec fn decimal(n: nat) -> Seq<char>
    decreases n,
{
    if n < 10 {
        seq![digit_char(n)]
    } else {
        decimal(n / 10) + seq![digit_char(n % 10)]
    }
}

/// The text that reports a missing identifier.
pub open spec fn not_found_text(id: u64) -> Seq<char> {
    "NFT item with ID "@ + decimal(id as nat) + " not found"@
}

/// Relies on `u64`'s `ToString` (through `Display`): the decimal notation of
/// the number.
#[verifier::external_body]
fn decimal_string(n: u64) -> (r: String)
    ensures
        r@ == decimal(n as nat),
{
    n.to_string()
}

impl MarketError {
    /// The identifier that was looked up.
    pub fn id(&self) -> (r: u64)
        ensures
            *self == MarketError::NotFound(r),
    {
        match self {
            MarketError::NotFound(id) => *id,
        }
    }

    /// The error as the text shown to remote callers.
    pub fn message(&self) -> (r: String)
        ensures
            r@ == not_found_text(self->NotFound_0),
    {
        let id = self.id();
        let mut text = String::from_str("NFT item with ID ");
        let digits = decimal_string(id);
        text.append(digits.as_str());
        text.append(" not found");
        proof {
            reveal_strlit("NFT item with ID ");
            reveal_strlit(" not found");
        }
        text
    }
}

} // verus!
