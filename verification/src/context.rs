//! The materialized transaction context.
//!
//! A verification pass never performs I/O: the host queries the chain and
//! hands in, per source (inputs, cell deps), the projection of each cell
//! that the decision procedures read, together with the timestamps of the
//! attached header deps.  Everything here is read-only and fixed for the
//! whole pass.

use vstd::prelude::*;

verus! {

/// The projection of one transaction cell that the authorization logic reads.
pub struct CellInfo {
    /// Hash of the cell's lock script.
    pub lock_script_hash: [u8; 32],
    /// Hash of the cell's type script, if the cell has one.
    pub type_script_hash: Option<[u8; 32]>,
    /// The cell's data.
    pub data: Vec<u8>,
    /// Hash of the cell's data, as the host computes it.
    pub data_hash: [u8; 32],
    /// Timestamp in milliseconds of the header of the block that included
    /// this cell, where the host can reach that header.
    pub header_timestamp: Option<u64>,
}

pub open spec fn cell_has_type_hash(c: CellInfo, h: Seq<u8>) -> bool {
    c.type_script_hash matches Some(t) && t@ == h
}

pub open spec fn cell_has_lock_hash(c: CellInfo, h: Seq<u8>) -> bool {
    c.lock_script_hash@ == h
}

pub open spec fn cell_has_data_hash(c: CellInfo, h: Seq<u8>) -> bool {
    c.data_hash@ == h
}

pub open spec fn has_cell_with_type_hash(cells: Seq<CellInfo>, h: Seq<u8>) -> bool {
    exists|i: int| 0 <= i < cells.len() && cell_has_type_hash(#[trigger] cells[i], h)
}

pub open spec fn has_cell_with_lock_hash(cells: Seq<CellInfo>, h: Seq<u8>) -> bool {
    exists|i: int| 0 <= i < cells.len() && cell_has_lock_hash(#[trigger] cells[i], h)
}

/// `i` is the position of the first cell whose type-script hash is `h`.
pub open spec fn is_first_type_match(cells: Seq<CellInfo>, h: Seq<u8>, i: int) -> bool {
    &&& 0 <= i < cells.len()
    &&& cell_has_type_hash(cells[i], h)
    &&& forall|j: int| 0 <= j < i ==> !cell_has_type_hash(#[trigger] cells[j], h)
}

/// `i` is the position of the first cell whose data hash is `h`.
pub open spec fn is_first_data_hash_match(cells: Seq<CellInfo>, h: Seq<u8>, i: int) -> bool {
    &&& 0 <= i < cells.len()
    &&& cell_has_data_hash(cells[i], h)
    &&& forall|j: int| 0 <= j < i ==> !cell_has_data_hash(#[trigger] cells[j], h)
}

/// Position of the first cell whose type-script hash is `h`, or -1.
pub open spec fn first_type_match(cells: Seq<CellInfo>, h: Seq<u8>) -> int
    decreases cells.len(),
{
    if cells.len() == 0 {
        -1
    } else if cell_has_type_hash(cells[0], h) {
        0
    } else {
        let rest = first_type_match(cells.subrange(1, cells.len() as int), h);
        if rest == -1 {
            -1
        } else {
            rest + 1
        }
    }
}

/// Position of the first cell whose data hash is `h`, or -1.
pub open spec fn first_data_hash_match(cells: Seq<CellInfo>, h: Seq<u8>) -> int
    decreases cells.len(),
{
    if cells.len() == 0 {
        -1
    } else if cell_has_data_hash(cells[0], h) {
        0
    } else {
        let rest = first_data_hash_match(cells.subrange(1, cells.len() as int), h);
        if rest == -1 {
            -1
        } else {
            rest + 1
        }
    }
}

/// `first_type_match` returns -1 exactly when no cell matches, and
/// otherwise returns the unique position satisfying `is_first_type_match`.
pub proof fn lemma_first_type_match(cells: Seq<CellInfo>, h: Seq<u8>)
    ensures
        first_type_match(cells, h) == -1 <==> !has_cell_with_type_hash(cells, h),
        first_type_match(cells, h) != -1 ==> is_first_type_match(cells, h, first_type_match(cells, h)),
        forall|i: int| is_first_type_match(cells, h, i) ==> i == first_type_match(cells, h),
    decreases cells.len(),
{
    if cells.len() == 0 {
    } else {
        let rest = cells.subrange(1, cells.len() as int);
        lemma_first_type_match(rest, h);
        assert(forall|j: int| 1 <= j < cells.len() ==> cells[j] == #[trigger] rest[j - 1]);
        if cell_has_type_hash(cells[0], h) {
            assert(is_first_type_match(cells, h, 0));
        } else {
            let r = first_type_match(rest, h);
            if r == -1 {
                assert(!has_cell_with_type_hash(cells, h)) by {
                    assert forall|i: int| 0 <= i < cells.len() implies !cell_has_type_hash(
                        #[trigger] cells[i],
                        h,
                    ) by {
                        if i >= 1 {
                            assert(cells[i] == rest[i - 1]);
                            assert(!has_cell_with_type_hash(rest, h));
                        }
                    }
                }
            } else {
                assert(is_first_type_match(rest, h, r));
                assert(cell_has_type_hash(cells[r + 1], h));
                assert forall|j: int| 0 <= j < r + 1 implies !cell_has_type_hash(
                    #[trigger] cells[j],
                    h,
                ) by {
                    if j >= 1 {
                        assert(cells[j] == rest[j - 1]);
                    }
                }
                assert(is_first_type_match(cells, h, r + 1));
                assert(has_cell_with_type_hash(cells, h));
            }
            assert forall|i: int| is_first_type_match(cells, h, i) implies i == first_type_match(
                cells,
                h,
            ) by {
                assert(!cell_has_type_hash(cells[0], h));
                assert(i >= 1);
                assert(is_first_type_match(rest, h, i - 1)) by {
                    assert(cells[i] == rest[i - 1]);
                    assert forall|j: int| 0 <= j < i - 1 implies !cell_has_type_hash(
                        #[trigger] rest[j],
                        h,
                    ) by {
                        assert(rest[j] == cells[j + 1]);
                    }
                }
            }
        }
    }
}

/// `first_data_hash_match` returns -1 exactly when no cell matches, and
/// otherwise returns the unique position satisfying
/// `is_first_data_hash_match`.
pub proof fn lemma_first_data_hash_match(cells: Seq<CellInfo>, h: Seq<u8>)
    ensures
        first_data_hash_match(cells, h) == -1 <==> (forall|i: int|
            0 <= i < cells.len() ==> !cell_has_data_hash(#[trigger] cells[i], h)),
        first_data_hash_match(cells, h) != -1 ==> is_first_data_hash_match(
            cells,
            h,
            first_data_hash_match(cells, h),
        ),
        forall|i: int|
            is_first_data_hash_match(cells, h, i) ==> i == first_data_hash_match(cells, h),
    decreases cells.len(),
{
    if cells.len() == 0 {
    } else {
        let rest = cells.subrange(1, cells.len() as int);
        lemma_first_data_hash_match(rest, h);
        assert(forall|j: int| 1 <= j < cells.len() ==> cells[j] == #[trigger] rest[j - 1]);
        if cell_has_data_hash(cells[0], h) {
            assert(is_first_data_hash_match(cells, h, 0));
        } else {
            let r = first_data_hash_match(rest, h);
            if r == -1 {
                assert forall|i: int| 0 <= i < cells.len() implies !cell_has_data_hash(
                    #[trigger] cells[i],
                    h,
                ) by {
                    if i >= 1 {
                        assert(cells[i] == rest[i - 1]);
                    }
                }
            } else {
                assert(is_first_data_hash_match(rest, h, r));
                assert(cell_has_data_hash(cells[r + 1], h));
                assert forall|j: int| 0 <= j < r + 1 implies !cell_has_data_hash(
                    #[trigger] cells[j],
                    h,
                ) by {
                    if j >= 1 {
                        assert(cells[j] == rest[j - 1]);
                    }
                }
                assert(is_first_data_hash_match(cells, h, r + 1));
            }
            assert forall|i: int| is_first_data_hash_match(cells, h, i) implies i
                == first_data_hash_match(cells, h) by {
                assert(!cell_has_data_hash(cells[0], h));
                assert(i >= 1);
                assert(is_first_data_hash_match(rest, h, i - 1)) by {
                    assert(cells[i] == rest[i - 1]);
                    assert forall|j: int| 0 <= j < i - 1 implies !cell_has_data_hash(
                        #[trigger] rest[j],
                        h,
                    ) by {
                        assert(rest[j] == cells[j + 1]);
                    }
                }
            }
        }
    }
}

/// Byte-for-byte equality of two 32-byte hashes.
pub fn hash32_eq(a: &[u8; 32], b: &[u8; 32]) -> (r: bool)
    ensures
        r == (a@ == b@),
{
    let mut i: usize = 0;
    while i < 32
        invariant
            0 <= i <= 32,
            forall|j: int| 0 <= j < i ==> a@[j] == b@[j],
        decreases 32 - i,
    {
        if a[i] != b[i] {
            return false;
        }
        i += 1;
    }
    proof {
        assert(a@ =~= b@);
    }
    true
}

} // verus!
