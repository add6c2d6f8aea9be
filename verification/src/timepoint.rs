//! Packed 64-bit timepoints.
//!
//! A timepoint is a tagged 64-bit value: the highest bit selects whether
//! the remaining 63 bits mean an L1 block number or an L1 timestamp in
//! milliseconds.  Decoding is total: every 64-bit pattern maps to exactly
//! one variant and magnitude.

use vstd::prelude::*;

verus! {

/// The reserved high bit that tags a packed timepoint as timestamp-based.
/// A packed value below it is a block number; for any other value the
/// magnitude is what remains after clearing the bit.
pub const TIMESTAMP_FLAG: u64 = 0x8000_0000_0000_0000;

/// A point in L1 time, either a block number or a timestamp in milliseconds.
#[derive(Clone, Copy, Debug, PartialEq, Eq, Structural)]
pub enum Timepoint {
    BlockNumber(u64),
    Timestamp(u64),
}

impl Timepoint {
    /// The magnitude fits in the 63 bits left after the tag.
    pub open spec fn wf(self) -> bool {
        self.spec_value() < TIMESTAMP_FLAG
    }

    /// The magnitude, without the tag.
    pub open spec fn spec_value(self) -> u64 {
        match self {
            Timepoint::BlockNumber(n) => n,
            Timepoint::Timestamp(t) => t,
        }
    }

    pub open spec fn spec_is_block_number_based(self) -> bool {
        self is BlockNumber
    }

    pub open spec fn spec_is_timestamp_based(self) -> bool {
        self is Timestamp
    }

    /// The variant and magnitude packed into one 64-bit value.
    pub open spec fn spec_full_value(self) -> u64 {
        match self {
            Timepoint::BlockNumber(n) => n,
            Timepoint::Timestamp(t) => (t + TIMESTAMP_FLAG) as u64,
        }
    }

    /// The unique reading of a packed 64-bit value.
    pub open spec fn spec_from_full_value(raw: u64) -> Timepoint {
        if raw < TIMESTAMP_FLAG {
            Timepoint::BlockNumber(raw)
        } else {
            Timepoint::Timestamp((raw - TIMESTAMP_FLAG) as u64)
        }
    }

    /// Decodes a packed timepoint; total over all 64-bit values.
    pub fn from_full_value(raw: u64) -> (tp: Timepoint)
        ensures
            tp == Timepoint::spec_from_full_value(raw),
            tp.wf(),
    {
        if raw < TIMESTAMP_FLAG {
            Timepoint::BlockNumber(raw)
        } else {
            Timepoint::Timestamp(raw - TIMESTAMP_FLAG)
        }
    }

    /// Packs the timepoint back into its 64-bit form.
    pub fn full_value(&self) -> (raw: u64)
        requires
            self.wf(),
        ensures
            raw == self.spec_full_value(),
    {
        match *self {
            Timepoint::BlockNumber(n) => n,
            Timepoint::Timestamp(t) => t + TIMESTAMP_FLAG,
        }
    }

    pub fn value(&self) -> (v: u64)
        ensures
            v == self.spec_value(),
    {
        match *self {
            Timepoint::BlockNumber(n) => n,
            Timepoint::Timestamp(t) => t,
        }
    }

    pub fn is_block_number_based(&self) -> (b: bool)
        ensures
            b == self.spec_is_block_number_based(),
    {
        matches!(*self, Timepoint::BlockNumber(_))
    }

    pub fn is_timestamp_based(&self) -> (b: bool)
        ensures
            b == self.spec_is_timestamp_based(),
    {
        matches!(*self, Timepoint::Timestamp(_))
    }
}

/// Law: packing a well-formed timepoint and decoding the result gives the
/// timepoint back, so distinct well-formed timepoints have distinct packed
/// forms.
pub proof fn lemma_timepoint_pack_unpack(tp: Timepoint)
    requires
        tp.wf(),
    ensures
        Timepoint::spec_from_full_value(tp.spec_full_value()) == tp,
{
}

/// Law: decoding is a bijection — re-packing the decoded timepoint
/// reproduces the original 64-bit pattern, so every pattern maps to exactly
/// one variant and magnitude.
pub proof fn lemma_timepoint_unpack_pack(raw: u64)
    ensures
        Timepoint::spec_from_full_value(raw).spec_full_value() == raw,
{
}

} // verus!
