//! Rowid descriptors.

use vstd::prelude::*;
use crate::oci::ptr::Ptr;
use crate::oci::call::OciCall;
use crate::oci::{calls, OCIError, OCIRowid};

verus! {

/// The first and one past the last byte of a rowid descriptor that hold the rowid.
pub const ROWID_FIRST_BYTE: usize = 16;
pub const ROWID_END_BYTE: usize = 26;

/// The number of bytes of a rowid descriptor that `is_initialized` looks at.
pub const ROWID_PROBE_LEN: usize = 32;

/// A rowid: the address of its descriptor.
pub struct RowID {
    desc: Ptr<OCIRowid>,
}

/// Whether a rowid descriptor's memory holds a rowid: some byte of the rowid part is set.
pub open spec fn holds_rowid(mem: Seq<u8>) -> bool {
    exists|i: int| ROWID_FIRST_BYTE <= i < ROWID_END_BYTE && mem[i] != 0
}

impl RowID {
    pub closed spec fn desc_addr(&self) -> usize { self.desc.addr() }

    pub fn from(desc: Ptr<OCIRowid>) -> (r: RowID)
        ensures
            r.desc_addr() == desc.addr(),
    {
        RowID { desc }
    }

    pub fn as_ptr(&self) -> (r: Ptr<OCIRowid>)
        ensures
            r.addr() == self.desc_addr(),
    {
        self.desc
    }

    /// Converts the rowid into its text form (OCI answers with the text).
    pub fn to_string(&self, err: Ptr<OCIError>) -> (r: OciCall)
        ensures
            r == (OciCall::RowidToChar { desc: self.desc_addr(), err: err.addr() }),
    {
        calls::rowid_to_char(self.desc, err)
    }

    /// Whether the rowid was filled in, judged by the first `ROWID_PROBE_LEN` bytes of
    /// its descriptor's memory.
    pub fn is_initialized(mem: &[u8]) -> (r: bool)
        requires
            mem@.len() >= ROWID_PROBE_LEN,
        ensures
            r == holds_rowid(mem@),
    {
        let mut i: usize = ROWID_FIRST_BYTE;
        while i < ROWID_END_BYTE
            invariant
                ROWID_FIRST_BYTE <= i <= ROWID_END_BYTE,
                mem@.len() >= ROWID_PROBE_LEN,
                forall|j: int| ROWID_FIRST_BYTE <= j < i ==> mem@[j] == 0,
            decreases ROWID_END_BYTE - i,
        {
            if mem[i] != 0 {
                assert(mem@[i as int] != 0);
                return true;
            }
            i = i + 1;
        }
        false
    }
}

} // verus!
