use crate::ondisk::ids::EntryId;
use vstd::prelude::*;

verus! {

/// Implemented by the on-disk structures that can make up (part of) the body of an
/// entry.
pub trait EntryCompatible {
    /// Returns whether the ENTRY_ID can in principle house the impl of the
    /// trait EntryCompatible. Note: Usually, caller still needs to check
    /// whether the size is correct.  Since arrays are allowed and the ondisk
    /// structures then are array Element only, the payload size can be a
    /// natural multiple of the struct size.
    fn is_entry_compatible(entry_id: EntryId, prefix: &[u8]) -> bool {
        false
    }

    /// Returns (type, size).  Note that size is the entire stride necessary to
    /// skip one entire blurb.  Note that skip_step also needs to call
    /// is_entry_compatible automatically.
    fn skip_step(entry_id: EntryId, prefix: &[u8]) -> Option<(u16, usize)> {
        None
    }
}

} // verus!
