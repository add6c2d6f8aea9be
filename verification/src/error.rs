//! The reasons a verification pass rejects a transaction.
//!
//! Every failure is terminal for the invocation: the host surfaces the
//! error's exit code as the script's validation result.  The mapping from
//! error kind to exit code is an explicitly enumerated table, and it is
//! injective, so each code names exactly one failure.

use vstd::prelude::*;

verus! {

/// Why an unlock or finality check failed.
#[derive(Clone, Copy, Debug, PartialEq, Eq, Structural)]
pub enum Error {
    /// The host was asked for an item (such as a header) it does not have.
    IndexOutOfBound,
    /// A cell's data or script arguments have a malformed byte layout.
    Encoding,
    /// The lock's script arguments have a malformed byte layout.
    InvalidArgs,
    /// No input cell carries the owner's lock-script hash.
    OwnerCellNotFound,
    /// No cell in the required source carries the rollup's type-script hash.
    RollupCellNotFound,
    /// No cell dep's data hash matches the committed rollup-config hash.
    RollupConfigNotFound,
    /// Neither unlock path of a stake or custodian lock is satisfied.
    InvalidUnlock,
    /// The witness signature is absent, mis-sized, or does not recover to
    /// the declared address.
    WrongSignature,
    /// The claimed timepoint has not passed the finality rule yet.
    NotFinalized,
}

impl Error {
    /// The stable positive exit code surfaced to the host for this kind.
    pub open spec fn spec_exit_code(self) -> i8 {
        match self {
            Error::IndexOutOfBound => 1,
            Error::Encoding => 4,
            Error::InvalidArgs => 5,
            Error::OwnerCellNotFound => 8,
            Error::RollupCellNotFound => 9,
            Error::RollupConfigNotFound => 10,
            Error::InvalidUnlock => 22,
            Error::WrongSignature => 41,
            Error::NotFinalized => 45,
        }
    }

    pub fn exit_code(&self) -> (code: i8)
        ensures
            code == self.spec_exit_code(),
            code > 0,
    {
        match self {
            Error::IndexOutOfBound => 1,
            Error::Encoding => 4,
            Error::InvalidArgs => 5,
            Error::OwnerCellNotFound => 8,
            Error::RollupCellNotFound => 9,
            Error::RollupConfigNotFound => 10,
            Error::InvalidUnlock => 22,
            Error::WrongSignature => 41,
            Error::NotFinalized => 45,
        }
    }
}

/// Law: the exit-code table is injective — two error kinds with the same
/// exit code are the same kind, so the table is a bijection onto its range.
pub proof fn lemma_exit_codes_distinct(a: Error, b: Error)
    ensures
        a.spec_exit_code() == b.spec_exit_code() ==> a == b,
{
}

} // verus!
