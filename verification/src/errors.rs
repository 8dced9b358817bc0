//! What the library reports when it turns a request down.

use vstd::prelude::*;

verus! {

/// Why a ledger or a voucher could not be produced.
#[derive(Clone, Copy, Debug, PartialEq, Eq, Structural)]
pub enum PersistenceError {
    /// The stored ledger could not be read or written as text.
    JsonError,
    /// The store itself failed.
    DBError,
    /// No ledger is kept under the identity asked for.
    NotFound,
    /// No voucher is defined under the id asked for.
    InvalidIDVoucher,
}

/// A request turned down by a business rule, named by the status it is
/// answered with.
#[derive(Clone, Copy, Debug, PartialEq, Eq, Structural)]
pub enum Refusal {
    /// Nothing is kept under what the request names.
    NotFound,
    /// The rules forbid the request as the ledger stands.
    Forbidden,
    /// The request lacks a name or a cost.
    LengthRequired,
    /// The ledger cannot pay for what was asked.
    InsufficientStorage,
}

impl PersistenceError {
    /// The text shown for this error.
    pub open spec fn text(self) -> Seq<char> {
        match self {
            PersistenceError::JsonError => "Serialization of User Error"@,
            PersistenceError::DBError => "Sqlite user loading error!"@,
            PersistenceError::NotFound => "User Not Found"@,
            PersistenceError::InvalidIDVoucher => "Invalid ID, Unable to construct voucher"@,
        }
    }

    /// The text shown for this error, as an owned string.
    pub fn message(&self) -> (msg: String)
        ensures
            msg@ == self.text(),
    {
        match self {
            PersistenceError::JsonError => "Serialization of User Error".to_owned(),
            PersistenceError::DBError => "Sqlite user loading error!".to_owned(),
            PersistenceError::NotFound => "User Not Found".to_owned(),
            PersistenceError::InvalidIDVoucher => "Invalid ID, Unable to construct voucher".to_owned(),
        }
    }
}

impl Refusal {
    /// The status code this refusal is answered with.
    pub open spec fn status(self) -> u16 {
        match self {
            Refusal::NotFound => 404,
            Refusal::Forbidden => 403,
            Refusal::LengthRequired => 411,
            Refusal::InsufficientStorage => 507,
        }
    }

    /// The status code this refusal is answered with.
    pub fn code(&self) -> (code: u16)
        ensures
            code == self.status(),
    {
        match self {
            Refusal::NotFound => 404,
            Refusal::Forbidden => 403,
            Refusal::LengthRequired => 411,
            Refusal::InsufficientStorage => 507,
        }
    }
}

} // verus!
