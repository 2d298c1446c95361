use crate::le::{append_bytes, le_bytes_u32, lemma_auto_spec_u32_to_from_le_bytes, spec_u32_to_le_bytes, u32_from_le_bytes};
use crate::ondisk::ids::EntryId;
use crate::types::Result;
use vstd::prelude::*;

verus! {

/// A value with a fixed-size little-endian on-disk layout.
pub trait ByteLayout: Sized {
    /// Number of bytes that the value takes on disk.
    spec fn spec_size() -> nat;

    /// The bytes that store the value on disk.
    spec fn spec_to_bytes(self) -> Seq<u8>;

    fn size() -> (r: usize)
        ensures
            r == Self::spec_size(),
    ;

    /// Reads a value from exactly its number of bytes.
    fn from_bytes(bytes: &[u8]) -> (r: Self)
        requires
            bytes@.len() == Self::spec_size(),
        ensures
            r.spec_to_bytes() == bytes@,
    ;

    /// The bytes that store the value on disk.
    fn to_bytes(&self) -> (r: Vec<u8>)
        ensures
            r@ == self.spec_to_bytes(),
            r@.len() == Self::spec_size(),
    ;
}

impl ByteLayout for u32 {
    open spec fn spec_size() -> nat {
        4
    }

    open spec fn spec_to_bytes(self) -> Seq<u8> {
        spec_u32_to_le_bytes(self)
    }

    fn size() -> (r: usize) {
        4
    }

    fn from_bytes(bytes: &[u8]) -> (r: Self) {
        proof {
            lemma_auto_spec_u32_to_from_le_bytes();
        }
        u32_from_le_bytes(bytes)
    }

    fn to_bytes(&self) -> (r: Vec<u8>) {
        proof {
            lemma_auto_spec_u32_to_from_le_bytes();
        }
        let mut out: Vec<u8> = Vec::new();
        append_bytes(&mut out, &le_bytes_u32(*self));
        out
    }
}

/// A structure that heads an entry and can be followed by an array of items of another
/// type (the tail).
pub trait HeaderWithTail {
    /// The type of the items of the tail (`()` where there is no tail).
    type TailArrayItemType<'de>;
}

/// A value that can be written out as its on-disk bytes.
pub trait ElementAsBytes {
    /// The bytes that store the value on disk.
    fn element_as_bytes(&self) -> Vec<u8>;
}

/// An element of a sequence that can be written out into an entry.
pub trait SequenceElementAsBytes {
    /// Checks whether the element fits into an entry of ENTRY_ID; if so, returns its
    /// on-disk bytes, otherwise None.
    fn checked_as_bytes(&self, entry_id: EntryId) -> Option<Vec<u8>>;
}

/// An element of a sequence of differently-typed elements (implemented on the enum of
/// the element kinds).
pub trait SequenceElementFromBytes<'a>: Sized {
    /// Whether parsing an item from WORLD is defined.
    spec fn spec_parse_defined(entry_id: EntryId, world: Seq<u8>) -> bool;

    /// Parses one item from (*WORLD), where (*WORLD) usually holds more than that
    /// item; (*WORLD)'s beginning is moved to after the parsed item.
    fn checked_from_bytes(entry_id: EntryId, world: &mut &'a [u8]) -> Result<Self>
        requires
            Self::spec_parse_defined(entry_id, old(world)@),
    ;
}

/// Given *BUF (a collection of multiple items), retrieves the first of the
/// items and returns it after advancing *BUF to the next item. If the item
/// cannot be parsed, returns None and does not advance.
pub fn take_header_from_collection<'a, T: ByteLayout>(buf: &mut &'a [u8]) -> (r: Option<T>)
    ensures
        old(buf)@.len() >= T::spec_size() ==> {
            &&& r matches Some(x) && x.spec_to_bytes() == old(buf)@.subrange(0, T::spec_size() as int)
            &&& final(buf)@ == old(buf)@.subrange(T::spec_size() as int, old(buf)@.len() as int)
        },
        old(buf)@.len() < T::spec_size() ==> r.is_none() && final(buf)@ == old(buf)@,
{
    let xbuf: &'a [u8] = *buf;
    let size = T::size();
    if xbuf.len() >= size {
        let (item, rest) = xbuf.split_at(size);
        *buf = rest;
        Some(T::from_bytes(item))
    } else {
        None
    }
}

/// The number of padding bytes that follow an item of SIZE bytes so that the next item
/// starts at a multiple of ALIGNMENT again.
pub open spec fn spec_padding(size: int, alignment: int) -> int {
    if size % alignment != 0 {
        alignment - size % alignment
    } else {
        0
    }
}

/// Given *BUF (a collection of multiple items), retrieves the first of the
/// items and returns it after advancing *BUF to the next item. Assuming that
/// *BUF had been aligned to ALIGNMENT before the call, it also ensures that
/// *BUF is aligned to ALIGNMENT after the call. If the item cannot be parsed,
/// returns None and does not advance.
pub fn take_body_from_collection<'a>(buf: &mut &'a [u8], size: usize, alignment: usize) -> (r: Option<&'a [u8]>)
    requires
        old(buf)@.len() >= size ==> alignment > 0,
    ensures
        old(buf)@.len() >= size ==> {
            let rest_len = old(buf)@.len() - size;
            let pad = spec_padding(size as int, alignment as int);
            &&& r is Some
            &&& r->0@ == old(buf)@.subrange(0, size as int)
            &&& final(buf)@ == if rest_len >= pad {
                old(buf)@.subrange(size + pad, old(buf)@.len() as int)
            } else {
                old(buf)@.subrange(size as int, old(buf)@.len() as int)
            }
        },
        old(buf)@.len() < size ==> r.is_none() && final(buf)@ == old(buf)@,
{
    let xbuf: &'a [u8] = *buf;
    if xbuf.len() >= size {
        let (item, rest) = xbuf.split_at(size);
        if size % alignment != 0 && rest.len() >= alignment - (size % alignment) {
            let (_, b) = rest.split_at(alignment - (size % alignment));
            *buf = b;
        } else {
            *buf = rest;
        }
        Some(item)
    } else {
        None
    }
}

/// Given *BUF (a mutable collection of multiple items), retrieves the first of
/// the items and returns it after advancing *BUF to the next item. Assuming that
/// *BUF had been aligned to ALIGNMENT before the call, it also ensures that
/// *BUF is aligned to ALIGNMENT after the call. If the item cannot be parsed,
/// returns None and does not advance.
pub fn take_body_from_collection_mut<'a>(buf: &mut &'a mut [u8], size: usize, alignment: usize) -> (r: Option<&'a mut [u8]>)
    requires
        old(buf)@.len() >= size ==> alignment > 0,
    ensures
        old(buf)@.len() >= size ==> {
            let rest_len = old(buf)@.len() - size;
            let pad = spec_padding(size as int, alignment as int);
            &&& r is Some
            &&& r->0@ == old(buf)@.subrange(0, size as int)
            &&& final(buf)@ == if rest_len >= pad {
                old(buf)@.subrange(size + pad, old(buf)@.len() as int)
            } else {
                old(buf)@.subrange(size as int, old(buf)@.len() as int)
            }
        },
        old(buf)@.len() < size ==> r.is_none() && final(buf)@ == old(buf)@,
{
    let mut xbuf: &'a mut [u8] = &mut [];
    core::mem::swap(&mut xbuf, buf);
    if xbuf.len() >= size {
        let (item, rest) = xbuf.split_at_mut(size);
        if size % alignment != 0 && rest.len() >= alignment - (size % alignment) {
            let (_, b) = rest.split_at_mut(alignment - (size % alignment));
            *buf = b;
        } else {
            *buf = rest;
        }
        Some(item)
    } else {
        *buf = xbuf;
        None
    }
}

/// Stores VALUE over the first item of *BUF (a collection of multiple items), as its bytes:
/// an item taken with `take_header_from_collection` and changed is written back this way.
/// Returns false, and changes nothing, where *BUF is too short to hold the item.
pub fn put_header_into_collection<T: ByteLayout>(buf: &mut [u8], value: &T) -> (r: bool)
    ensures
        r == (old(buf)@.len() >= T::spec_size()),
        r ==> final(buf)@ == value.spec_to_bytes() + old(buf)@.subrange(T::spec_size() as int, old(buf)@.len() as int),
        !r ==> final(buf)@ == old(buf)@,
{
    let bytes = value.to_bytes();
    if buf.len() < bytes.len() {
        return false;
    }
    let mut i: usize = 0;
    while i < bytes.len()
        invariant
            i <= bytes@.len(),
            bytes@.len() == T::spec_size(),
            bytes@ == value.spec_to_bytes(),
            buf@.len() == old(buf)@.len(),
            old(buf)@.len() >= bytes@.len(),
            forall|j: int| 0 <= j < i ==> buf@[j] == bytes@[j],
            forall|j: int| i <= j < buf@.len() ==> buf@[j] == old(buf)@[j],
        decreases bytes@.len() - i,
    {
        buf[i] = bytes[i];
        i = i + 1;
    }
    proof {
        assert(buf@ =~= bytes@ + old(buf)@.subrange(T::spec_size() as int, old(buf)@.len() as int));
    }
    true
}

} // verus!
