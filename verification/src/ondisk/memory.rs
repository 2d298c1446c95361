use crate::bits::{field_u8, field_u16, field_u32, field_u64, lemma_field_bound_u8, lemma_field_bound_u16, lemma_field_bound_u32, lemma_field_bound_u64, lemma_shift_table_u8, lemma_shift_table_u16, lemma_shift_table_u32, lemma_shift_table_u64, lemma_with_field_other_u8, lemma_with_field_other_u16, lemma_with_field_other_u32, lemma_with_field_other_u64, lemma_with_field_same_u8, lemma_with_field_same_u16, lemma_with_field_same_u32, lemma_with_field_same_u64, spec_field_u8, spec_field_u16, spec_field_u32, spec_field_u64, spec_with_field_u8, spec_with_field_u16, spec_with_field_u32, spec_with_field_u64, lemma_masked_bound_u64, with_field_u8, with_field_u16, with_field_u32, with_field_u64};
use crate::le::{append_bytes, le_bytes_u16, le_bytes_u32, le_bytes_u64, lemma_auto_spec_u16_to_from_le_bytes, lemma_auto_spec_u32_to_from_le_bytes, lemma_auto_spec_u64_to_from_le_bytes, lemma_u32_le_bytes, lemma_u64_le_bytes, spec_u16_from_le_bytes, spec_u16_to_le_bytes, spec_u32_from_le_bytes, spec_u32_to_le_bytes, spec_u64_from_le_bytes, spec_u64_to_le_bytes, u16_from_le_bytes, u32_from_le_bytes, u64_from_le_bytes};
use crate::ondisk::collection::{ByteLayout, HeaderWithTail};
use crate::ondisk::compat::EntryCompatible;
use crate::ondisk::ids::{EntryId, MemoryEntryId};
use crate::struct_accessors::{spec_bool_result_of_raw, spec_raw_of_bool};
use crate::types::{Error, Result};
use vstd::prelude::*;
use vstd::slice::slice_subrange;

pub mod platform_specific_override;
pub mod platform_tuning;

verus! {

/// The optional value that a stored byte stands for, where 0xFF means "none".
pub open spec fn spec_optional_address(raw: u8) -> Option<u8> {
    if raw == 0xFF {
        None
    } else {
        Some(raw)
    }
}

/// The byte that stores an optional value, where 0xFF means "none".
pub open spec fn spec_stored_address(value: Option<u8>) -> u8 {
    match value {
        None => 0xFF,
        Some(x) => x,
    }
}

/// Where the SPD data of one DIMM is found.
#[allow(non_camel_case_types)]
#[derive(Debug, Clone, Copy, PartialEq, Eq, Structural)]
pub struct DimmInfoSmbusElement {
    pub(crate) dimm_slot_present: u8,
    pub(crate) socket_id: u8,
    pub(crate) channel_id: u8,
    pub(crate) dimm_id: u8,
    pub(crate) dimm_smbus_address: u8,
    pub(crate) i2c_mux_address: u8,
    pub(crate) mux_control_address: u8,
    pub(crate) mux_channel: u8,
}

impl DimmInfoSmbusElement {
    pub closed spec fn spec_dimm_slot_present(self) -> u8 {
        self.dimm_slot_present
    }

    pub closed spec fn spec_socket_id(self) -> u8 {
        self.socket_id
    }

    pub closed spec fn spec_channel_id(self) -> u8 {
        self.channel_id
    }

    pub closed spec fn spec_dimm_id(self) -> u8 {
        self.dimm_id
    }

    pub closed spec fn spec_dimm_smbus_address(self) -> u8 {
        self.dimm_smbus_address
    }

    pub closed spec fn spec_i2c_mux_address(self) -> u8 {
        self.i2c_mux_address
    }

    pub closed spec fn spec_mux_control_address(self) -> u8 {
        self.mux_control_address
    }

    pub closed spec fn spec_mux_channel(self) -> u8 {
        self.mux_channel
    }

    pub fn dimm_slot_present(&self) -> (r: Result<bool>)
        ensures
            r == spec_bool_result_of_raw(self.spec_dimm_slot_present() as int),
    {
        match self.dimm_slot_present {
            0 => Ok(false),
            1 => Ok(true),
            _ => Err(Error::EntryTypeMismatch),
        }
    }

    pub fn set_dimm_slot_present(&mut self, value: bool)
        ensures
            final(self).spec_dimm_slot_present() == spec_raw_of_bool(value) as u8,
            final(self).spec_socket_id() == old(self).spec_socket_id(),
            final(self).spec_channel_id() == old(self).spec_channel_id(),
            final(self).spec_dimm_id() == old(self).spec_dimm_id(),
            final(self).spec_dimm_smbus_address() == old(self).spec_dimm_smbus_address(),
            final(self).spec_i2c_mux_address() == old(self).spec_i2c_mux_address(),
            final(self).spec_mux_control_address() == old(self).spec_mux_control_address(),
            final(self).spec_mux_channel() == old(self).spec_mux_channel(),
    {
        self.dimm_slot_present = if value { 1 } else { 0 };
    }

    pub fn socket_id(&self) -> (r: Result<u8>)
        ensures
            r == Ok::<u8, Error>(self.spec_socket_id()),
    {
        Ok(self.socket_id)
    }

    pub fn set_socket_id(&mut self, value: u8)
        ensures
            final(self).spec_socket_id() == value,
            final(self).spec_dimm_slot_present() == old(self).spec_dimm_slot_present(),
            final(self).spec_channel_id() == old(self).spec_channel_id(),
            final(self).spec_dimm_id() == old(self).spec_dimm_id(),
            final(self).spec_dimm_smbus_address() == old(self).spec_dimm_smbus_address(),
            final(self).spec_i2c_mux_address() == old(self).spec_i2c_mux_address(),
            final(self).spec_mux_control_address() == old(self).spec_mux_control_address(),
            final(self).spec_mux_channel() == old(self).spec_mux_channel(),
    {
        self.socket_id = value;
    }

    pub fn channel_id(&self) -> (r: Result<u8>)
        ensures
            r == Ok::<u8, Error>(self.spec_channel_id()),
    {
        Ok(self.channel_id)
    }

    pub fn set_channel_id(&mut self, value: u8)
        ensures
            final(self).spec_channel_id() == value,
            final(self).spec_dimm_slot_present() == old(self).spec_dimm_slot_present(),
            final(self).spec_socket_id() == old(self).spec_socket_id(),
            final(self).spec_dimm_id() == old(self).spec_dimm_id(),
            final(self).spec_dimm_smbus_address() == old(self).spec_dimm_smbus_address(),
            final(self).spec_i2c_mux_address() == old(self).spec_i2c_mux_address(),
            final(self).spec_mux_control_address() == old(self).spec_mux_control_address(),
            final(self).spec_mux_channel() == old(self).spec_mux_channel(),
    {
        self.channel_id = value;
    }

    pub fn dimm_id(&self) -> (r: Result<u8>)
        ensures
            r == Ok::<u8, Error>(self.spec_dimm_id()),
    {
        Ok(self.dimm_id)
    }

    pub fn set_dimm_id(&mut self, value: u8)
        ensures
            final(self).spec_dimm_id() == value,
            final(self).spec_dimm_slot_present() == old(self).spec_dimm_slot_present(),
            final(self).spec_socket_id() == old(self).spec_socket_id(),
            final(self).spec_channel_id() == old(self).spec_channel_id(),
            final(self).spec_dimm_smbus_address() == old(self).spec_dimm_smbus_address(),
            final(self).spec_i2c_mux_address() == old(self).spec_i2c_mux_address(),
            final(self).spec_mux_control_address() == old(self).spec_mux_control_address(),
            final(self).spec_mux_channel() == old(self).spec_mux_channel(),
    {
        self.dimm_id = value;
    }

}

impl DimmInfoSmbusElement {
    /// The bytes that store this value on disk.
    pub closed spec fn spec_bytes(self) -> Seq<u8> {
        seq![self.dimm_slot_present]
            + seq![self.socket_id]
            + seq![self.channel_id]
            + seq![self.dimm_id]
            + seq![self.dimm_smbus_address]
            + seq![self.i2c_mux_address]
            + seq![self.mux_control_address]
            + seq![self.mux_channel]
    }
}

impl ByteLayout for DimmInfoSmbusElement {
    open spec fn spec_size() -> nat {
        8
    }

    open spec fn spec_to_bytes(self) -> Seq<u8> {
        self.spec_bytes()
    }

    fn size() -> (r: usize) {
        8
    }

    #[verifier::spinoff_prover]
    fn from_bytes(bytes: &[u8]) -> (r: Self) {
        let dimm_slot_present: u8 = bytes[0];
        let socket_id: u8 = bytes[1];
        let channel_id: u8 = bytes[2];
        let dimm_id: u8 = bytes[3];
        let dimm_smbus_address: u8 = bytes[4];
        let i2c_mux_address: u8 = bytes[5];
        let mux_control_address: u8 = bytes[6];
        let mux_channel: u8 = bytes[7];
        let r = DimmInfoSmbusElement { dimm_slot_present, socket_id, channel_id, dimm_id, dimm_smbus_address, i2c_mux_address, mux_control_address, mux_channel };
        proof {
            lemma_auto_spec_u16_to_from_le_bytes();
            lemma_auto_spec_u32_to_from_le_bytes();
            lemma_auto_spec_u64_to_from_le_bytes();
            lemma_dimm_info_smbus_element_bytes_pieces(r);
            assert(bytes@.subrange(0, 2) =~= bytes@.subrange(0, 1) + bytes@.subrange(1, 2));
            assert(bytes@.subrange(0, 3) =~= bytes@.subrange(0, 2) + bytes@.subrange(2, 3));
            assert(bytes@.subrange(0, 4) =~= bytes@.subrange(0, 3) + bytes@.subrange(3, 4));
            assert(bytes@.subrange(0, 5) =~= bytes@.subrange(0, 4) + bytes@.subrange(4, 5));
            assert(bytes@.subrange(0, 6) =~= bytes@.subrange(0, 5) + bytes@.subrange(5, 6));
            assert(bytes@.subrange(0, 7) =~= bytes@.subrange(0, 6) + bytes@.subrange(6, 7));
            assert(bytes@.subrange(0, 8) =~= bytes@.subrange(0, 7) + bytes@.subrange(7, 8));
            assert(bytes@.subrange(0, 8) =~= bytes@);
            assert(bytes@ == r.spec_bytes());
        }
        r
    }

    #[verifier::spinoff_prover]
    fn to_bytes(&self) -> (r: Vec<u8>) {
        let mut out: Vec<u8> = Vec::new();
        out.push(self.dimm_slot_present);
        out.push(self.socket_id);
        out.push(self.channel_id);
        out.push(self.dimm_id);
        out.push(self.dimm_smbus_address);
        out.push(self.i2c_mux_address);
        out.push(self.mux_control_address);
        out.push(self.mux_channel);
        proof {
            lemma_dimm_info_smbus_element_bytes_pieces(*self);
        }
        out
    }
}

/// How the bytes of a DimmInfoSmbusElement split up into its fields.
pub proof fn lemma_dimm_info_smbus_element_bytes_pieces(x: DimmInfoSmbusElement)
    ensures
        x.spec_bytes().len() == 8,
        x.spec_bytes()[0] == x.spec_dimm_slot_present(),
        x.spec_bytes()[1] == x.spec_socket_id(),
        x.spec_bytes()[2] == x.spec_channel_id(),
        x.spec_bytes()[3] == x.spec_dimm_id(),
        x.spec_bytes()[4] == x.spec_dimm_smbus_address(),
        x.spec_bytes()[5] == x.spec_i2c_mux_address(),
        x.spec_bytes()[6] == x.spec_mux_control_address(),
        x.spec_bytes()[7] == x.spec_mux_channel(),
{
    lemma_auto_spec_u16_to_from_le_bytes();
    lemma_auto_spec_u32_to_from_le_bytes();
    lemma_auto_spec_u64_to_from_le_bytes();
}

/// Exactly one of the SMBus address (of a DIMM in a slot) and the SPD info index (of a
/// soldered-down DIMM) is present, and either is byte 4 of the element; the index is the one
/// present exactly when byte 0 (slot present) is 0.
pub proof fn lemma_dimm_info_smbus_address_or_index(d: DimmInfoSmbusElement)
    ensures
        d.spec_dimm_smbus_address_opt() is Some <==> !(d.spec_dimm_spd_info_index_opt() is Some),
        d.spec_dimm_spd_info_index_opt() is Some <==> d.spec_to_bytes()[0] == 0,
        d.spec_dimm_smbus_address_opt() matches Some(a) ==> a == d.spec_to_bytes()[4],
        d.spec_dimm_spd_info_index_opt() matches Some(i) ==> i == d.spec_to_bytes()[4],
{
    lemma_dimm_info_smbus_element_bytes_pieces(d);
}

/// Two values of DimmInfoSmbusElement with the same bytes are the same value.
#[verifier::spinoff_prover]
pub proof fn lemma_dimm_info_smbus_element_bytes_injective(x: DimmInfoSmbusElement, y: DimmInfoSmbusElement)
    requires
        x.spec_bytes() == y.spec_bytes(),
    ensures
        x == y,
{
    lemma_dimm_info_smbus_element_bytes_pieces(x);
    lemma_dimm_info_smbus_element_bytes_pieces(y);
    lemma_auto_spec_u16_to_from_le_bytes();
    lemma_auto_spec_u32_to_from_le_bytes();
    lemma_auto_spec_u64_to_from_le_bytes();
    assert(x.dimm_slot_present == y.dimm_slot_present);
    assert(x.socket_id == y.socket_id);
    assert(x.channel_id == y.channel_id);
    assert(x.dimm_id == y.dimm_id);
    assert(x.dimm_smbus_address == y.dimm_smbus_address);
    assert(x.i2c_mux_address == y.i2c_mux_address);
    assert(x.mux_control_address == y.mux_control_address);
    assert(x.mux_channel == y.mux_channel);
}

impl DimmInfoSmbusElement {
    /// The address of the I2C multiplexer, if there is one (stored as 0xFF otherwise).
    pub fn i2c_mux_address(&self) -> (r: Option<u8>)
        ensures
            r == spec_optional_address(self.spec_i2c_mux_address()),
    {
        match self.i2c_mux_address {
            0xFF => None,
            x => Some(x),
        }
    }

    pub fn set_i2c_mux_address(&mut self, value: Option<u8>) -> (r: Result<()>)
        ensures
            r is Ok <==> value != Some(0xFFu8),
            r is Ok ==> final(self).spec_i2c_mux_address() == spec_stored_address(value),
            r is Err ==> r == Err::<(), Error>(Error::EntryTypeMismatch) && *final(self) == *old(self),
            final(self).spec_dimm_slot_present() == old(self).spec_dimm_slot_present(),
            final(self).spec_socket_id() == old(self).spec_socket_id(),
            final(self).spec_channel_id() == old(self).spec_channel_id(),
            final(self).spec_dimm_id() == old(self).spec_dimm_id(),
            final(self).spec_dimm_smbus_address() == old(self).spec_dimm_smbus_address(),
            final(self).spec_mux_control_address() == old(self).spec_mux_control_address(),
            final(self).spec_mux_channel() == old(self).spec_mux_channel(),
    {
        self.i2c_mux_address = match value {
            None => 0xFF,
            Some(0xFF) => {
                return Err(Error::EntryTypeMismatch);
            },
            Some(x) => x,
        };
        Ok(())
    }

    /// The SMBus address of the DIMM; only a slot has one.
    /// The SMBus address of a DIMM in a slot; a soldered-down DIMM has none.
    pub open spec fn spec_dimm_smbus_address_opt(self) -> Option<u8> {
        if self.spec_dimm_slot_present() == 0 { None } else { Some(self.spec_dimm_smbus_address()) }
    }

    /// The SPD info index of a soldered-down DIMM; a DIMM in a slot has none.
    pub open spec fn spec_dimm_spd_info_index_opt(self) -> Option<u8> {
        if self.spec_dimm_slot_present() == 0 { Some(self.spec_dimm_smbus_address()) } else { None }
    }

    pub fn dimm_smbus_address(&self) -> (r: Option<u8>)
        ensures
            r == self.spec_dimm_smbus_address_opt(),
    {
        match self.dimm_slot_present {
            0 => None,
            _ => Some(self.dimm_smbus_address),
        }
    }

    pub fn set_dimm_smbus_address(&mut self, value: u8) -> (r: Result<()>)
        ensures
            r is Ok <==> old(self).spec_dimm_slot_present() != 0,
            r is Ok ==> final(self).spec_dimm_smbus_address() == value,
            r is Err ==> r == Err::<(), Error>(Error::EntryTypeMismatch) && *final(self) == *old(self),
            final(self).spec_dimm_slot_present() == old(self).spec_dimm_slot_present(),
            final(self).spec_socket_id() == old(self).spec_socket_id(),
            final(self).spec_channel_id() == old(self).spec_channel_id(),
            final(self).spec_dimm_id() == old(self).spec_dimm_id(),
            final(self).spec_i2c_mux_address() == old(self).spec_i2c_mux_address(),
            final(self).spec_mux_control_address() == old(self).spec_mux_control_address(),
            final(self).spec_mux_channel() == old(self).spec_mux_channel(),
    {
        match self.dimm_slot_present {
            0 => Err(Error::EntryTypeMismatch),
            _ => {
                self.dimm_smbus_address = value;
                Ok(())
            },
        }
    }

    /// For a soldered-down DIMM: the index of its SPD data in the SpdInfo entry.
    pub fn dimm_spd_info_index(&self) -> (r: Option<u8>)
        ensures
            r == self.spec_dimm_spd_info_index_opt(),
    {
        match self.dimm_slot_present {
            0 => Some(self.dimm_smbus_address),
            _ => None,
        }
    }

    pub fn set_dimm_spd_info_index(&mut self, value: u8) -> (r: Result<()>)
        ensures
            r is Ok <==> old(self).spec_dimm_slot_present() == 0,
            r is Ok ==> final(self).spec_dimm_smbus_address() == value,
            r is Err ==> r == Err::<(), Error>(Error::EntryTypeMismatch) && *final(self) == *old(self),
            final(self).spec_dimm_slot_present() == old(self).spec_dimm_slot_present(),
            final(self).spec_socket_id() == old(self).spec_socket_id(),
            final(self).spec_channel_id() == old(self).spec_channel_id(),
            final(self).spec_dimm_id() == old(self).spec_dimm_id(),
            final(self).spec_i2c_mux_address() == old(self).spec_i2c_mux_address(),
            final(self).spec_mux_control_address() == old(self).spec_mux_control_address(),
            final(self).spec_mux_channel() == old(self).spec_mux_channel(),
    {
        self.dimm_smbus_address = match self.dimm_slot_present {
            0 => value,
            _ => {
                return Err(Error::EntryTypeMismatch);
            },
        };
        Ok(())
    }

    /// The address of the multiplexer control, if there is one (stored as 0xFF otherwise).
    pub fn mux_control_address(&self) -> (r: Option<u8>)
        ensures
            r == spec_optional_address(self.spec_mux_control_address()),
    {
        match self.mux_control_address {
            0xFF => None,
            x => Some(x),
        }
    }

    pub fn set_mux_control_address(&mut self, value: Option<u8>) -> (r: Result<()>)
        ensures
            r is Ok <==> value != Some(0xFFu8),
            r is Ok ==> final(self).spec_mux_control_address() == spec_stored_address(value),
            r is Err ==> r == Err::<(), Error>(Error::EntryTypeMismatch) && *final(self) == *old(self),
            final(self).spec_dimm_slot_present() == old(self).spec_dimm_slot_present(),
            final(self).spec_socket_id() == old(self).spec_socket_id(),
            final(self).spec_channel_id() == old(self).spec_channel_id(),
            final(self).spec_dimm_id() == old(self).spec_dimm_id(),
            final(self).spec_dimm_smbus_address() == old(self).spec_dimm_smbus_address(),
            final(self).spec_i2c_mux_address() == old(self).spec_i2c_mux_address(),
            final(self).spec_mux_channel() == old(self).spec_mux_channel(),
    {
        self.mux_control_address = match value {
            None => 0xFF,
            Some(0xFF) => {
                return Err(Error::EntryTypeMismatch);
            },
            Some(x) => x,
        };
        Ok(())
    }

    /// The multiplexer channel, if there is one (stored as 0xFF otherwise).
    pub fn mux_channel(&self) -> (r: Option<u8>)
        ensures
            r == spec_optional_address(self.spec_mux_channel()),
    {
        match self.mux_channel {
            0xFF => None,
            x => Some(x),
        }
    }

    pub fn set_mux_channel(&mut self, value: Option<u8>) -> (r: Result<()>)
        ensures
            r is Ok <==> value != Some(0xFFu8),
            r is Ok ==> final(self).spec_mux_channel() == spec_stored_address(value),
            r is Err ==> r == Err::<(), Error>(Error::EntryTypeMismatch) && *final(self) == *old(self),
            final(self).spec_dimm_slot_present() == old(self).spec_dimm_slot_present(),
            final(self).spec_socket_id() == old(self).spec_socket_id(),
            final(self).spec_channel_id() == old(self).spec_channel_id(),
            final(self).spec_dimm_id() == old(self).spec_dimm_id(),
            final(self).spec_dimm_smbus_address() == old(self).spec_dimm_smbus_address(),
            final(self).spec_i2c_mux_address() == old(self).spec_i2c_mux_address(),
            final(self).spec_mux_control_address() == old(self).spec_mux_control_address(),
    {
        self.mux_channel = match value {
            None => 0xFF,
            Some(0xFF) => {
                return Err(Error::EntryTypeMismatch);
            },
            Some(x) => x,
        };
        Ok(())
    }

    /// A DIMM in a slot, found at DIMM_SMBUS_ADDRESS.
    pub fn new_slot(
        socket_id: u8,
        channel_id: u8,
        dimm_id: u8,
        dimm_smbus_address: u8,
        i2c_mux_address: Option<u8>,
        mux_control_address: Option<u8>,
        mux_channel: Option<u8>,
    ) -> (r: Result<Self>)
        ensures
            r is Ok <==> (i2c_mux_address != Some(0xFFu8) && mux_control_address != Some(0xFFu8) && mux_channel
                != Some(0xFFu8)),
            r is Err ==> r == Err::<Self, Error>(Error::EntryTypeMismatch),
            r matches Ok(x) ==> {
                &&& x.spec_dimm_slot_present() == 1
                &&& x.spec_socket_id() == socket_id
                &&& x.spec_channel_id() == channel_id
                &&& x.spec_dimm_id() == dimm_id
                &&& x.spec_dimm_smbus_address() == dimm_smbus_address
                &&& x.spec_i2c_mux_address() == spec_stored_address(i2c_mux_address)
                &&& x.spec_mux_control_address() == spec_stored_address(mux_control_address)
                &&& x.spec_mux_channel() == spec_stored_address(mux_channel)
            },
    {
        let mut result = Self {
            dimm_slot_present: 1,
            socket_id,
            channel_id,
            dimm_id,
            dimm_smbus_address,
            i2c_mux_address: 0xFF,
            mux_control_address: 0xFF,
            mux_channel: 0xFF,
        };
        result.set_i2c_mux_address(i2c_mux_address)?;
        result.set_mux_control_address(mux_control_address)?;
        result.set_mux_channel(mux_channel)?;
        Ok(result)
    }

    /// A soldered-down DIMM whose SPD data is entry DIMM_SPD_INFO_INDEX of SpdInfo.
    pub fn new_soldered_down(
        socket_id: u8,
        channel_id: u8,
        dimm_id: u8,
        dimm_spd_info_index: u8,
        i2c_mux_address: Option<u8>,
        mux_control_address: Option<u8>,
        mux_channel: Option<u8>,
    ) -> (r: Result<Self>)
        ensures
            r is Ok <==> (i2c_mux_address != Some(0xFFu8) && mux_control_address != Some(0xFFu8) && mux_channel
                != Some(0xFFu8)),
            r is Err ==> r == Err::<Self, Error>(Error::EntryTypeMismatch),
            r matches Ok(x) ==> {
                &&& x.spec_dimm_slot_present() == 0
                &&& x.spec_socket_id() == socket_id
                &&& x.spec_channel_id() == channel_id
                &&& x.spec_dimm_id() == dimm_id
                &&& x.spec_dimm_smbus_address() == dimm_spd_info_index
                &&& x.spec_i2c_mux_address() == spec_stored_address(i2c_mux_address)
                &&& x.spec_mux_control_address() == spec_stored_address(mux_control_address)
                &&& x.spec_mux_channel() == spec_stored_address(mux_channel)
            },
    {
        let mut result = Self {
            dimm_slot_present: 0,
            socket_id,
            channel_id,
            dimm_id,
            dimm_smbus_address: dimm_spd_info_index,
            i2c_mux_address: 0xFF,
            mux_control_address: 0xFF,
            mux_channel: 0xFF,
        };
        result.set_i2c_mux_address(i2c_mux_address)?;
        result.set_mux_control_address(mux_control_address)?;
        result.set_mux_channel(mux_channel)?;
        Ok(result)
    }
}

impl Default for DimmInfoSmbusElement {
    fn default() -> (r: Self)
        ensures
            r.spec_dimm_slot_present() == 0,
            r.spec_socket_id() == 0,
            r.spec_channel_id() == 0,
            r.spec_dimm_id() == 0,
            r.spec_dimm_smbus_address() == 0,
            r.spec_i2c_mux_address() == 0,
            r.spec_mux_control_address() == 0,
            r.spec_mux_channel() == 0,
    {
        Self {
            dimm_slot_present: 0,
            socket_id: 0,
            channel_id: 0,
            dimm_id: 0,
            dimm_smbus_address: 0,
            i2c_mux_address: 0,
            mux_control_address: 0,
            mux_channel: 0,
        }
    }
}

impl EntryCompatible for DimmInfoSmbusElement {
    fn is_entry_compatible(entry_id: EntryId, _prefix: &[u8]) -> (r: bool)
        ensures
            r == (entry_id == EntryId::Memory(MemoryEntryId::DimmInfoSmbus)),
    {
        matches!(entry_id, EntryId::Memory(MemoryEntryId::DimmInfoSmbus))
    }
}

/// Writing an optional address that is not 0xFF and reading it back gives the same
/// optional address.
pub proof fn lemma_optional_address_roundtrip(value: Option<u8>)
    requires
        value != Some(0xFFu8),
    ensures
        spec_optional_address(spec_stored_address(value)) == value,
{
}

/// What the ABL logs, and where.
#[allow(non_camel_case_types)]
#[derive(Debug, Clone, Copy, PartialEq, Eq, Structural)]
pub struct AblConsoleOutControl {
    pub(crate) enable_console_logging: u8,
    pub(crate) enable_mem_flow_logging: u8,
    pub(crate) enable_mem_setreg_logging: u8,
    pub(crate) enable_mem_getreg_logging: u8,
    pub(crate) enable_mem_status_logging: u8,
    pub(crate) enable_mem_pmu_logging: u8,
    pub(crate) enable_mem_pmu_sram_read_logging: u8,
    pub(crate) enable_mem_pmu_sram_write_logging: u8,
    pub(crate) enable_mem_test_verbose_logging: u8,
    pub(crate) enable_mem_basic_output_logging: u8,
    pub(crate) _reserved_: u16,
    pub(crate) abl_console_port: u32,
}

impl AblConsoleOutControl {
    pub closed spec fn spec_enable_console_logging(self) -> u8 {
        self.enable_console_logging
    }

    pub closed spec fn spec_enable_mem_flow_logging(self) -> u8 {
        self.enable_mem_flow_logging
    }

    pub closed spec fn spec_enable_mem_setreg_logging(self) -> u8 {
        self.enable_mem_setreg_logging
    }

    pub closed spec fn spec_enable_mem_getreg_logging(self) -> u8 {
        self.enable_mem_getreg_logging
    }

    pub closed spec fn spec_enable_mem_status_logging(self) -> u8 {
        self.enable_mem_status_logging
    }

    pub closed spec fn spec_enable_mem_pmu_logging(self) -> u8 {
        self.enable_mem_pmu_logging
    }

    pub closed spec fn spec_enable_mem_pmu_sram_read_logging(self) -> u8 {
        self.enable_mem_pmu_sram_read_logging
    }

    pub closed spec fn spec_enable_mem_pmu_sram_write_logging(self) -> u8 {
        self.enable_mem_pmu_sram_write_logging
    }

    pub closed spec fn spec_enable_mem_test_verbose_logging(self) -> u8 {
        self.enable_mem_test_verbose_logging
    }

    pub closed spec fn spec_enable_mem_basic_output_logging(self) -> u8 {
        self.enable_mem_basic_output_logging
    }

    pub closed spec fn spec__reserved_(self) -> u16 {
        self._reserved_
    }

    pub closed spec fn spec_abl_console_port(self) -> u32 {
        self.abl_console_port
    }

    pub fn enable_console_logging(&self) -> (r: Result<bool>)
        ensures
            r == spec_bool_result_of_raw(self.spec_enable_console_logging() as int),
    {
        match self.enable_console_logging {
            0 => Ok(false),
            1 => Ok(true),
            _ => Err(Error::EntryTypeMismatch),
        }
    }

    pub fn set_enable_console_logging(&mut self, value: bool)
        ensures
            final(self).spec_enable_console_logging() == spec_raw_of_bool(value) as u8,
            final(self).spec_enable_mem_flow_logging() == old(self).spec_enable_mem_flow_logging(),
            final(self).spec_enable_mem_setreg_logging() == old(self).spec_enable_mem_setreg_logging(),
            final(self).spec_enable_mem_getreg_logging() == old(self).spec_enable_mem_getreg_logging(),
            final(self).spec_enable_mem_status_logging() == old(self).spec_enable_mem_status_logging(),
            final(self).spec_enable_mem_pmu_logging() == old(self).spec_enable_mem_pmu_logging(),
            final(self).spec_enable_mem_pmu_sram_read_logging() == old(self).spec_enable_mem_pmu_sram_read_logging(),
            final(self).spec_enable_mem_pmu_sram_write_logging() == old(self).spec_enable_mem_pmu_sram_write_logging(),
            final(self).spec_enable_mem_test_verbose_logging() == old(self).spec_enable_mem_test_verbose_logging(),
            final(self).spec_enable_mem_basic_output_logging() == old(self).spec_enable_mem_basic_output_logging(),
            final(self).spec__reserved_() == old(self).spec__reserved_(),
            final(self).spec_abl_console_port() == old(self).spec_abl_console_port(),
    {
        self.enable_console_logging = if value { 1 } else { 0 };
    }

    pub fn enable_mem_flow_logging(&self) -> (r: Result<bool>)
        ensures
            r == spec_bool_result_of_raw(self.spec_enable_mem_flow_logging() as int),
    {
        match self.enable_mem_flow_logging {
            0 => Ok(false),
            1 => Ok(true),
            _ => Err(Error::EntryTypeMismatch),
        }
    }

    pub fn set_enable_mem_flow_logging(&mut self, value: bool)
        ensures
            final(self).spec_enable_mem_flow_logging() == spec_raw_of_bool(value) as u8,
            final(self).spec_enable_console_logging() == old(self).spec_enable_console_logging(),
            final(self).spec_enable_mem_setreg_logging() == old(self).spec_enable_mem_setreg_logging(),
            final(self).spec_enable_mem_getreg_logging() == old(self).spec_enable_mem_getreg_logging(),
            final(self).spec_enable_mem_status_logging() == old(self).spec_enable_mem_status_logging(),
            final(self).spec_enable_mem_pmu_logging() == old(self).spec_enable_mem_pmu_logging(),
            final(self).spec_enable_mem_pmu_sram_read_logging() == old(self).spec_enable_mem_pmu_sram_read_logging(),
            final(self).spec_enable_mem_pmu_sram_write_logging() == old(self).spec_enable_mem_pmu_sram_write_logging(),
            final(self).spec_enable_mem_test_verbose_logging() == old(self).spec_enable_mem_test_verbose_logging(),
            final(self).spec_enable_mem_basic_output_logging() == old(self).spec_enable_mem_basic_output_logging(),
            final(self).spec__reserved_() == old(self).spec__reserved_(),
            final(self).spec_abl_console_port() == old(self).spec_abl_console_port(),
    {
        self.enable_mem_flow_logging = if value { 1 } else { 0 };
    }

    pub fn enable_mem_setreg_logging(&self) -> (r: Result<bool>)
        ensures
            r == spec_bool_result_of_raw(self.spec_enable_mem_setreg_logging() as int),
    {
        match self.enable_mem_setreg_logging {
            0 => Ok(false),
            1 => Ok(true),
            _ => Err(Error::EntryTypeMismatch),
        }
    }

    pub fn set_enable_mem_setreg_logging(&mut self, value: bool)
        ensures
            final(self).spec_enable_mem_setreg_logging() == spec_raw_of_bool(value) as u8,
            final(self).spec_enable_console_logging() == old(self).spec_enable_console_logging(),
            final(self).spec_enable_mem_flow_logging() == old(self).spec_enable_mem_flow_logging(),
            final(self).spec_enable_mem_getreg_logging() == old(self).spec_enable_mem_getreg_logging(),
            final(self).spec_enable_mem_status_logging() == old(self).spec_enable_mem_status_logging(),
            final(self).spec_enable_mem_pmu_logging() == old(self).spec_enable_mem_pmu_logging(),
            final(self).spec_enable_mem_pmu_sram_read_logging() == old(self).spec_enable_mem_pmu_sram_read_logging(),
            final(self).spec_enable_mem_pmu_sram_write_logging() == old(self).spec_enable_mem_pmu_sram_write_logging(),
            final(self).spec_enable_mem_test_verbose_logging() == old(self).spec_enable_mem_test_verbose_logging(),
            final(self).spec_enable_mem_basic_output_logging() == old(self).spec_enable_mem_basic_output_logging(),
            final(self).spec__reserved_() == old(self).spec__reserved_(),
            final(self).spec_abl_console_port() == old(self).spec_abl_console_port(),
    {
        self.enable_mem_setreg_logging = if value { 1 } else { 0 };
    }

    pub fn enable_mem_getreg_logging(&self) -> (r: Result<bool>)
        ensures
            r == spec_bool_result_of_raw(self.spec_enable_mem_getreg_logging() as int),
    {
        match self.enable_mem_getreg_logging {
            0 => Ok(false),
            1 => Ok(true),
            _ => Err(Error::EntryTypeMismatch),
        }
    }

    pub fn set_enable_mem_getreg_logging(&mut self, value: bool)
        ensures
            final(self).spec_enable_mem_getreg_logging() == spec_raw_of_bool(value) as u8,
            final(self).spec_enable_console_logging() == old(self).spec_enable_console_logging(),
            final(self).spec_enable_mem_flow_logging() == old(self).spec_enable_mem_flow_logging(),
            final(self).spec_enable_mem_setreg_logging() == old(self).spec_enable_mem_setreg_logging(),
            final(self).spec_enable_mem_status_logging() == old(self).spec_enable_mem_status_logging(),
            final(self).spec_enable_mem_pmu_logging() == old(self).spec_enable_mem_pmu_logging(),
            final(self).spec_enable_mem_pmu_sram_read_logging() == old(self).spec_enable_mem_pmu_sram_read_logging(),
            final(self).spec_enable_mem_pmu_sram_write_logging() == old(self).spec_enable_mem_pmu_sram_write_logging(),
            final(self).spec_enable_mem_test_verbose_logging() == old(self).spec_enable_mem_test_verbose_logging(),
            final(self).spec_enable_mem_basic_output_logging() == old(self).spec_enable_mem_basic_output_logging(),
            final(self).spec__reserved_() == old(self).spec__reserved_(),
            final(self).spec_abl_console_port() == old(self).spec_abl_console_port(),
    {
        self.enable_mem_getreg_logging = if value { 1 } else { 0 };
    }

    pub fn enable_mem_status_logging(&self) -> (r: Result<bool>)
        ensures
            r == spec_bool_result_of_raw(self.spec_enable_mem_status_logging() as int),
    {
        match self.enable_mem_status_logging {
            0 => Ok(false),
            1 => Ok(true),
            _ => Err(Error::EntryTypeMismatch),
        }
    }

    pub fn set_enable_mem_status_logging(&mut self, value: bool)
        ensures
            final(self).spec_enable_mem_status_logging() == spec_raw_of_bool(value) as u8,
            final(self).spec_enable_console_logging() == old(self).spec_enable_console_logging(),
            final(self).spec_enable_mem_flow_logging() == old(self).spec_enable_mem_flow_logging(),
            final(self).spec_enable_mem_setreg_logging() == old(self).spec_enable_mem_setreg_logging(),
            final(self).spec_enable_mem_getreg_logging() == old(self).spec_enable_mem_getreg_logging(),
            final(self).spec_enable_mem_pmu_logging() == old(self).spec_enable_mem_pmu_logging(),
            final(self).spec_enable_mem_pmu_sram_read_logging() == old(self).spec_enable_mem_pmu_sram_read_logging(),
            final(self).spec_enable_mem_pmu_sram_write_logging() == old(self).spec_enable_mem_pmu_sram_write_logging(),
            final(self).spec_enable_mem_test_verbose_logging() == old(self).spec_enable_mem_test_verbose_logging(),
            final(self).spec_enable_mem_basic_output_logging() == old(self).spec_enable_mem_basic_output_logging(),
            final(self).spec__reserved_() == old(self).spec__reserved_(),
            final(self).spec_abl_console_port() == old(self).spec_abl_console_port(),
    {
        self.enable_mem_status_logging = if value { 1 } else { 0 };
    }

    pub fn enable_mem_pmu_logging(&self) -> (r: Result<bool>)
        ensures
            r == spec_bool_result_of_raw(self.spec_enable_mem_pmu_logging() as int),
    {
        match self.enable_mem_pmu_logging {
            0 => Ok(false),
            1 => Ok(true),
            _ => Err(Error::EntryTypeMismatch),
        }
    }

    pub fn set_enable_mem_pmu_logging(&mut self, value: bool)
        ensures
            final(self).spec_enable_mem_pmu_logging() == spec_raw_of_bool(value) as u8,
            final(self).spec_enable_console_logging() == old(self).spec_enable_console_logging(),
            final(self).spec_enable_mem_flow_logging() == old(self).spec_enable_mem_flow_logging(),
            final(self).spec_enable_mem_setreg_logging() == old(self).spec_enable_mem_setreg_logging(),
            final(self).spec_enable_mem_getreg_logging() == old(self).spec_enable_mem_getreg_logging(),
            final(self).spec_enable_mem_status_logging() == old(self).spec_enable_mem_status_logging(),
            final(self).spec_enable_mem_pmu_sram_read_logging() == old(self).spec_enable_mem_pmu_sram_read_logging(),
            final(self).spec_enable_mem_pmu_sram_write_logging() == old(self).spec_enable_mem_pmu_sram_write_logging(),
            final(self).spec_enable_mem_test_verbose_logging() == old(self).spec_enable_mem_test_verbose_logging(),
            final(self).spec_enable_mem_basic_output_logging() == old(self).spec_enable_mem_basic_output_logging(),
            final(self).spec__reserved_() == old(self).spec__reserved_(),
            final(self).spec_abl_console_port() == old(self).spec_abl_console_port(),
    {
        self.enable_mem_pmu_logging = if value { 1 } else { 0 };
    }

    pub fn enable_mem_pmu_sram_read_logging(&self) -> (r: Result<bool>)
        ensures
            r == spec_bool_result_of_raw(self.spec_enable_mem_pmu_sram_read_logging() as int),
    {
        match self.enable_mem_pmu_sram_read_logging {
            0 => Ok(false),
            1 => Ok(true),
            _ => Err(Error::EntryTypeMismatch),
        }
    }

    pub fn set_enable_mem_pmu_sram_read_logging(&mut self, value: bool)
        ensures
            final(self).spec_enable_mem_pmu_sram_read_logging() == spec_raw_of_bool(value) as u8,
            final(self).spec_enable_console_logging() == old(self).spec_enable_console_logging(),
            final(self).spec_enable_mem_flow_logging() == old(self).spec_enable_mem_flow_logging(),
            final(self).spec_enable_mem_setreg_logging() == old(self).spec_enable_mem_setreg_logging(),
            final(self).spec_enable_mem_getreg_logging() == old(self).spec_enable_mem_getreg_logging(),
            final(self).spec_enable_mem_status_logging() == old(self).spec_enable_mem_status_logging(),
            final(self).spec_enable_mem_pmu_logging() == old(self).spec_enable_mem_pmu_logging(),
            final(self).spec_enable_mem_pmu_sram_write_logging() == old(self).spec_enable_mem_pmu_sram_write_logging(),
            final(self).spec_enable_mem_test_verbose_logging() == old(self).spec_enable_mem_test_verbose_logging(),
            final(self).spec_enable_mem_basic_output_logging() == old(self).spec_enable_mem_basic_output_logging(),
            final(self).spec__reserved_() == old(self).spec__reserved_(),
            final(self).spec_abl_console_port() == old(self).spec_abl_console_port(),
    {
        self.enable_mem_pmu_sram_read_logging = if value { 1 } else { 0 };
    }

    pub fn enable_mem_pmu_sram_write_logging(&self) -> (r: Result<bool>)
        ensures
            r == spec_bool_result_of_raw(self.spec_enable_mem_pmu_sram_write_logging() as int),
    {
        match self.enable_mem_pmu_sram_write_logging {
            0 => Ok(false),
            1 => Ok(true),
            _ => Err(Error::EntryTypeMismatch),
        }
    }

    pub fn set_enable_mem_pmu_sram_write_logging(&mut self, value: bool)
        ensures
            final(self).spec_enable_mem_pmu_sram_write_logging() == spec_raw_of_bool(value) as u8,
            final(self).spec_enable_console_logging() == old(self).spec_enable_console_logging(),
            final(self).spec_enable_mem_flow_logging() == old(self).spec_enable_mem_flow_logging(),
            final(self).spec_enable_mem_setreg_logging() == old(self).spec_enable_mem_setreg_logging(),
            final(self).spec_enable_mem_getreg_logging() == old(self).spec_enable_mem_getreg_logging(),
            final(self).spec_enable_mem_status_logging() == old(self).spec_enable_mem_status_logging(),
            final(self).spec_enable_mem_pmu_logging() == old(self).spec_enable_mem_pmu_logging(),
            final(self).spec_enable_mem_pmu_sram_read_logging() == old(self).spec_enable_mem_pmu_sram_read_logging(),
            final(self).spec_enable_mem_test_verbose_logging() == old(self).spec_enable_mem_test_verbose_logging(),
            final(self).spec_enable_mem_basic_output_logging() == old(self).spec_enable_mem_basic_output_logging(),
            final(self).spec__reserved_() == old(self).spec__reserved_(),
            final(self).spec_abl_console_port() == old(self).spec_abl_console_port(),
    {
        self.enable_mem_pmu_sram_write_logging = if value { 1 } else { 0 };
    }

    pub fn enable_mem_test_verbose_logging(&self) -> (r: Result<bool>)
        ensures
            r == spec_bool_result_of_raw(self.spec_enable_mem_test_verbose_logging() as int),
    {
        match self.enable_mem_test_verbose_logging {
            0 => Ok(false),
            1 => Ok(true),
            _ => Err(Error::EntryTypeMismatch),
        }
    }

    pub fn set_enable_mem_test_verbose_logging(&mut self, value: bool)
        ensures
            final(self).spec_enable_mem_test_verbose_logging() == spec_raw_of_bool(value) as u8,
            final(self).spec_enable_console_logging() == old(self).spec_enable_console_logging(),
            final(self).spec_enable_mem_flow_logging() == old(self).spec_enable_mem_flow_logging(),
            final(self).spec_enable_mem_setreg_logging() == old(self).spec_enable_mem_setreg_logging(),
            final(self).spec_enable_mem_getreg_logging() == old(self).spec_enable_mem_getreg_logging(),
            final(self).spec_enable_mem_status_logging() == old(self).spec_enable_mem_status_logging(),
            final(self).spec_enable_mem_pmu_logging() == old(self).spec_enable_mem_pmu_logging(),
            final(self).spec_enable_mem_pmu_sram_read_logging() == old(self).spec_enable_mem_pmu_sram_read_logging(),
            final(self).spec_enable_mem_pmu_sram_write_logging() == old(self).spec_enable_mem_pmu_sram_write_logging(),
            final(self).spec_enable_mem_basic_output_logging() == old(self).spec_enable_mem_basic_output_logging(),
            final(self).spec__reserved_() == old(self).spec__reserved_(),
            final(self).spec_abl_console_port() == old(self).spec_abl_console_port(),
    {
        self.enable_mem_test_verbose_logging = if value { 1 } else { 0 };
    }

    pub fn enable_mem_basic_output_logging(&self) -> (r: Result<bool>)
        ensures
            r == spec_bool_result_of_raw(self.spec_enable_mem_basic_output_logging() as int),
    {
        match self.enable_mem_basic_output_logging {
            0 => Ok(false),
            1 => Ok(true),
            _ => Err(Error::EntryTypeMismatch),
        }
    }

    pub fn set_enable_mem_basic_output_logging(&mut self, value: bool)
        ensures
            final(self).spec_enable_mem_basic_output_logging() == spec_raw_of_bool(value) as u8,
            final(self).spec_enable_console_logging() == old(self).spec_enable_console_logging(),
            final(self).spec_enable_mem_flow_logging() == old(self).spec_enable_mem_flow_logging(),
            final(self).spec_enable_mem_setreg_logging() == old(self).spec_enable_mem_setreg_logging(),
            final(self).spec_enable_mem_getreg_logging() == old(self).spec_enable_mem_getreg_logging(),
            final(self).spec_enable_mem_status_logging() == old(self).spec_enable_mem_status_logging(),
            final(self).spec_enable_mem_pmu_logging() == old(self).spec_enable_mem_pmu_logging(),
            final(self).spec_enable_mem_pmu_sram_read_logging() == old(self).spec_enable_mem_pmu_sram_read_logging(),
            final(self).spec_enable_mem_pmu_sram_write_logging() == old(self).spec_enable_mem_pmu_sram_write_logging(),
            final(self).spec_enable_mem_test_verbose_logging() == old(self).spec_enable_mem_test_verbose_logging(),
            final(self).spec__reserved_() == old(self).spec__reserved_(),
            final(self).spec_abl_console_port() == old(self).spec_abl_console_port(),
    {
        self.enable_mem_basic_output_logging = if value { 1 } else { 0 };
    }

    pub fn abl_console_port(&self) -> (r: Result<u32>)
        ensures
            r == Ok::<u32, Error>(self.spec_abl_console_port()),
    {
        Ok(self.abl_console_port)
    }

    pub fn set_abl_console_port(&mut self, value: u32)
        ensures
            final(self).spec_abl_console_port() == value,
            final(self).spec_enable_console_logging() == old(self).spec_enable_console_logging(),
            final(self).spec_enable_mem_flow_logging() == old(self).spec_enable_mem_flow_logging(),
            final(self).spec_enable_mem_setreg_logging() == old(self).spec_enable_mem_setreg_logging(),
            final(self).spec_enable_mem_getreg_logging() == old(self).spec_enable_mem_getreg_logging(),
            final(self).spec_enable_mem_status_logging() == old(self).spec_enable_mem_status_logging(),
            final(self).spec_enable_mem_pmu_logging() == old(self).spec_enable_mem_pmu_logging(),
            final(self).spec_enable_mem_pmu_sram_read_logging() == old(self).spec_enable_mem_pmu_sram_read_logging(),
            final(self).spec_enable_mem_pmu_sram_write_logging() == old(self).spec_enable_mem_pmu_sram_write_logging(),
            final(self).spec_enable_mem_test_verbose_logging() == old(self).spec_enable_mem_test_verbose_logging(),
            final(self).spec_enable_mem_basic_output_logging() == old(self).spec_enable_mem_basic_output_logging(),
            final(self).spec__reserved_() == old(self).spec__reserved_(),
    {
        self.abl_console_port = value;
    }

}

impl AblConsoleOutControl {
    /// The bytes that store this value on disk.
    pub closed spec fn spec_bytes(self) -> Seq<u8> {
        seq![self.enable_console_logging]
            + seq![self.enable_mem_flow_logging]
            + seq![self.enable_mem_setreg_logging]
            + seq![self.enable_mem_getreg_logging]
            + seq![self.enable_mem_status_logging]
            + seq![self.enable_mem_pmu_logging]
            + seq![self.enable_mem_pmu_sram_read_logging]
            + seq![self.enable_mem_pmu_sram_write_logging]
            + seq![self.enable_mem_test_verbose_logging]
            + seq![self.enable_mem_basic_output_logging]
            + spec_u16_to_le_bytes(self._reserved_)
            + spec_u32_to_le_bytes(self.abl_console_port)
    }
}

impl ByteLayout for AblConsoleOutControl {
    open spec fn spec_size() -> nat {
        16
    }

    open spec fn spec_to_bytes(self) -> Seq<u8> {
        self.spec_bytes()
    }

    fn size() -> (r: usize) {
        16
    }

    #[verifier::spinoff_prover]
    fn from_bytes(bytes: &[u8]) -> (r: Self) {
        let enable_console_logging: u8 = bytes[0];
        let enable_mem_flow_logging: u8 = bytes[1];
        let enable_mem_setreg_logging: u8 = bytes[2];
        let enable_mem_getreg_logging: u8 = bytes[3];
        let enable_mem_status_logging: u8 = bytes[4];
        let enable_mem_pmu_logging: u8 = bytes[5];
        let enable_mem_pmu_sram_read_logging: u8 = bytes[6];
        let enable_mem_pmu_sram_write_logging: u8 = bytes[7];
        let enable_mem_test_verbose_logging: u8 = bytes[8];
        let enable_mem_basic_output_logging: u8 = bytes[9];
        let _reserved_: u16 = u16_from_le_bytes(slice_subrange(bytes, 10, 12));
        let abl_console_port: u32 = u32_from_le_bytes(slice_subrange(bytes, 12, 16));
        let r = AblConsoleOutControl { enable_console_logging, enable_mem_flow_logging, enable_mem_setreg_logging, enable_mem_getreg_logging, enable_mem_status_logging, enable_mem_pmu_logging, enable_mem_pmu_sram_read_logging, enable_mem_pmu_sram_write_logging, enable_mem_test_verbose_logging, enable_mem_basic_output_logging, _reserved_, abl_console_port };
        proof {
            lemma_auto_spec_u16_to_from_le_bytes();
            lemma_auto_spec_u32_to_from_le_bytes();
            lemma_auto_spec_u64_to_from_le_bytes();
            lemma_abl_console_out_control_bytes_pieces(r);
            assert(bytes@.subrange(10, 12) == spec_u16_to_le_bytes(_reserved_));
            assert(bytes@.subrange(12, 16) == spec_u32_to_le_bytes(abl_console_port));
            assert(bytes@.subrange(0, 2) =~= bytes@.subrange(0, 1) + bytes@.subrange(1, 2));
            assert(bytes@.subrange(0, 3) =~= bytes@.subrange(0, 2) + bytes@.subrange(2, 3));
            assert(bytes@.subrange(0, 4) =~= bytes@.subrange(0, 3) + bytes@.subrange(3, 4));
            assert(bytes@.subrange(0, 5) =~= bytes@.subrange(0, 4) + bytes@.subrange(4, 5));
            assert(bytes@.subrange(0, 6) =~= bytes@.subrange(0, 5) + bytes@.subrange(5, 6));
            assert(bytes@.subrange(0, 7) =~= bytes@.subrange(0, 6) + bytes@.subrange(6, 7));
            assert(bytes@.subrange(0, 8) =~= bytes@.subrange(0, 7) + bytes@.subrange(7, 8));
            assert(bytes@.subrange(0, 9) =~= bytes@.subrange(0, 8) + bytes@.subrange(8, 9));
            assert(bytes@.subrange(0, 10) =~= bytes@.subrange(0, 9) + bytes@.subrange(9, 10));
            assert(bytes@.subrange(0, 12) =~= bytes@.subrange(0, 10) + bytes@.subrange(10, 12));
            assert(bytes@.subrange(0, 16) =~= bytes@.subrange(0, 12) + bytes@.subrange(12, 16));
            assert(bytes@.subrange(0, 16) =~= bytes@);
            assert(bytes@ == r.spec_bytes());
        }
        r
    }

    #[verifier::spinoff_prover]
    fn to_bytes(&self) -> (r: Vec<u8>) {
        let mut out: Vec<u8> = Vec::new();
        out.push(self.enable_console_logging);
        out.push(self.enable_mem_flow_logging);
        out.push(self.enable_mem_setreg_logging);
        out.push(self.enable_mem_getreg_logging);
        out.push(self.enable_mem_status_logging);
        out.push(self.enable_mem_pmu_logging);
        out.push(self.enable_mem_pmu_sram_read_logging);
        out.push(self.enable_mem_pmu_sram_write_logging);
        out.push(self.enable_mem_test_verbose_logging);
        out.push(self.enable_mem_basic_output_logging);
        append_bytes(&mut out, &le_bytes_u16(self._reserved_));
        append_bytes(&mut out, &le_bytes_u32(self.abl_console_port));
        proof {
            lemma_abl_console_out_control_bytes_pieces(*self);
        }
        out
    }
}

/// How the bytes of a AblConsoleOutControl split up into its fields.
pub proof fn lemma_abl_console_out_control_bytes_pieces(x: AblConsoleOutControl)
    ensures
        x.spec_bytes().len() == 16,
        x.spec_bytes()[0] == x.spec_enable_console_logging(),
        x.spec_bytes()[1] == x.spec_enable_mem_flow_logging(),
        x.spec_bytes()[2] == x.spec_enable_mem_setreg_logging(),
        x.spec_bytes()[3] == x.spec_enable_mem_getreg_logging(),
        x.spec_bytes()[4] == x.spec_enable_mem_status_logging(),
        x.spec_bytes()[5] == x.spec_enable_mem_pmu_logging(),
        x.spec_bytes()[6] == x.spec_enable_mem_pmu_sram_read_logging(),
        x.spec_bytes()[7] == x.spec_enable_mem_pmu_sram_write_logging(),
        x.spec_bytes()[8] == x.spec_enable_mem_test_verbose_logging(),
        x.spec_bytes()[9] == x.spec_enable_mem_basic_output_logging(),
        x.spec_bytes().subrange(10, 12) == spec_u16_to_le_bytes(x.spec__reserved_()),
        x.spec_bytes().subrange(12, 16) == spec_u32_to_le_bytes(x.spec_abl_console_port()),
{
    lemma_auto_spec_u16_to_from_le_bytes();
    lemma_auto_spec_u32_to_from_le_bytes();
    lemma_auto_spec_u64_to_from_le_bytes();
    assert(x.spec_bytes().subrange(10, 12) == spec_u16_to_le_bytes(x._reserved_));
    assert(x.spec_bytes().subrange(12, 16) == spec_u32_to_le_bytes(x.abl_console_port));
}

/// Two values of AblConsoleOutControl with the same bytes are the same value.
#[verifier::spinoff_prover]
pub proof fn lemma_abl_console_out_control_bytes_injective(x: AblConsoleOutControl, y: AblConsoleOutControl)
    requires
        x.spec_bytes() == y.spec_bytes(),
    ensures
        x == y,
{
    lemma_abl_console_out_control_bytes_pieces(x);
    lemma_abl_console_out_control_bytes_pieces(y);
    lemma_auto_spec_u16_to_from_le_bytes();
    lemma_auto_spec_u32_to_from_le_bytes();
    lemma_auto_spec_u64_to_from_le_bytes();
    assert(x.enable_console_logging == y.enable_console_logging);
    assert(x.enable_mem_flow_logging == y.enable_mem_flow_logging);
    assert(x.enable_mem_setreg_logging == y.enable_mem_setreg_logging);
    assert(x.enable_mem_getreg_logging == y.enable_mem_getreg_logging);
    assert(x.enable_mem_status_logging == y.enable_mem_status_logging);
    assert(x.enable_mem_pmu_logging == y.enable_mem_pmu_logging);
    assert(x.enable_mem_pmu_sram_read_logging == y.enable_mem_pmu_sram_read_logging);
    assert(x.enable_mem_pmu_sram_write_logging == y.enable_mem_pmu_sram_write_logging);
    assert(x.enable_mem_test_verbose_logging == y.enable_mem_test_verbose_logging);
    assert(x.enable_mem_basic_output_logging == y.enable_mem_basic_output_logging);
    assert(spec_u16_from_le_bytes(spec_u16_to_le_bytes(x._reserved_)) == spec_u16_from_le_bytes(spec_u16_to_le_bytes(y._reserved_)));
    assert(spec_u32_from_le_bytes(spec_u32_to_le_bytes(x.abl_console_port)) == spec_u32_from_le_bytes(spec_u32_to_le_bytes(y.abl_console_port)));
}

impl AblConsoleOutControl {
    /// Whether this is the value that `default` gives.
    pub open spec fn spec_is_default(self) -> bool {
        &&& self.spec_enable_console_logging() == 1
        &&& self.spec_enable_mem_flow_logging() == 1
        &&& self.spec_enable_mem_setreg_logging() == 1
        &&& self.spec_enable_mem_getreg_logging() == 0
        &&& self.spec_enable_mem_status_logging() == 0
        &&& self.spec_enable_mem_pmu_logging() == 0
        &&& self.spec_enable_mem_pmu_sram_read_logging() == 0
        &&& self.spec_enable_mem_pmu_sram_write_logging() == 0
        &&& self.spec_enable_mem_test_verbose_logging() == 0
        &&& self.spec_enable_mem_basic_output_logging() == 0
        &&& self.spec__reserved_() == 0
        &&& self.spec_abl_console_port() == 0x80
    }
}

impl Default for AblConsoleOutControl {
    fn default() -> (r: Self)
        ensures
            r.spec_enable_console_logging() == 1,
            r.spec_enable_mem_flow_logging() == 1,
            r.spec_enable_mem_setreg_logging() == 1,
            r.spec_enable_mem_getreg_logging() == 0,
            r.spec_enable_mem_status_logging() == 0,
            r.spec_enable_mem_pmu_logging() == 0,
            r.spec_enable_mem_pmu_sram_read_logging() == 0,
            r.spec_enable_mem_pmu_sram_write_logging() == 0,
            r.spec_enable_mem_test_verbose_logging() == 0,
            r.spec_enable_mem_basic_output_logging() == 0,
            r.spec__reserved_() == 0,
            r.spec_abl_console_port() == 0x80,
            r.spec_is_default(),
    {
        AblConsoleOutControl { enable_console_logging: 1, enable_mem_flow_logging: 1, enable_mem_setreg_logging: 1, enable_mem_getreg_logging: 0, enable_mem_status_logging: 0, enable_mem_pmu_logging: 0, enable_mem_pmu_sram_read_logging: 0, enable_mem_pmu_sram_write_logging: 0, enable_mem_test_verbose_logging: 0, enable_mem_basic_output_logging: 0, _reserved_: 0, abl_console_port: 0x80 }
    }
}

impl AblConsoleOutControl {
    pub fn new() -> (r: Self)
        ensures
            r.spec_enable_console_logging() == 1,
            r.spec_enable_mem_flow_logging() == 1,
            r.spec_enable_mem_setreg_logging() == 1,
            r.spec_enable_mem_getreg_logging() == 0,
            r.spec_enable_mem_status_logging() == 0,
            r.spec_enable_mem_pmu_logging() == 0,
            r.spec_enable_mem_pmu_sram_read_logging() == 0,
            r.spec_enable_mem_pmu_sram_write_logging() == 0,
            r.spec_enable_mem_test_verbose_logging() == 0,
            r.spec_enable_mem_basic_output_logging() == 0,
            r.spec__reserved_() == 0,
            r.spec_abl_console_port() == 0x80,
    {
        Self::default()
    }
}

/// Whether the ABL stops at breakpoints.
#[allow(non_camel_case_types)]
#[derive(Debug, Clone, Copy, PartialEq, Eq, Structural)]
pub struct AblBreakpointControl {
    pub(crate) enable_breakpoint: u8,
    pub(crate) break_on_all_dies: u8,
}

impl AblBreakpointControl {
    pub closed spec fn spec_enable_breakpoint(self) -> u8 {
        self.enable_breakpoint
    }

    pub closed spec fn spec_break_on_all_dies(self) -> u8 {
        self.break_on_all_dies
    }

    pub fn enable_breakpoint(&self) -> (r: Result<bool>)
        ensures
            r == spec_bool_result_of_raw(self.spec_enable_breakpoint() as int),
    {
        match self.enable_breakpoint {
            0 => Ok(false),
            1 => Ok(true),
            _ => Err(Error::EntryTypeMismatch),
        }
    }

    pub fn set_enable_breakpoint(&mut self, value: bool)
        ensures
            final(self).spec_enable_breakpoint() == spec_raw_of_bool(value) as u8,
            final(self).spec_break_on_all_dies() == old(self).spec_break_on_all_dies(),
    {
        self.enable_breakpoint = if value { 1 } else { 0 };
    }

    pub fn break_on_all_dies(&self) -> (r: Result<bool>)
        ensures
            r == spec_bool_result_of_raw(self.spec_break_on_all_dies() as int),
    {
        match self.break_on_all_dies {
            0 => Ok(false),
            1 => Ok(true),
            _ => Err(Error::EntryTypeMismatch),
        }
    }

    pub fn set_break_on_all_dies(&mut self, value: bool)
        ensures
            final(self).spec_break_on_all_dies() == spec_raw_of_bool(value) as u8,
            final(self).spec_enable_breakpoint() == old(self).spec_enable_breakpoint(),
    {
        self.break_on_all_dies = if value { 1 } else { 0 };
    }

}

impl AblBreakpointControl {
    /// The bytes that store this value on disk.
    pub closed spec fn spec_bytes(self) -> Seq<u8> {
        seq![self.enable_breakpoint]
            + seq![self.break_on_all_dies]
    }
}

impl ByteLayout for AblBreakpointControl {
    open spec fn spec_size() -> nat {
        2
    }

    open spec fn spec_to_bytes(self) -> Seq<u8> {
        self.spec_bytes()
    }

    fn size() -> (r: usize) {
        2
    }

    #[verifier::spinoff_prover]
    fn from_bytes(bytes: &[u8]) -> (r: Self) {
        let enable_breakpoint: u8 = bytes[0];
        let break_on_all_dies: u8 = bytes[1];
        let r = AblBreakpointControl { enable_breakpoint, break_on_all_dies };
        proof {
            lemma_auto_spec_u16_to_from_le_bytes();
            lemma_auto_spec_u32_to_from_le_bytes();
            lemma_auto_spec_u64_to_from_le_bytes();
            lemma_abl_breakpoint_control_bytes_pieces(r);
            assert(bytes@.subrange(0, 2) =~= bytes@.subrange(0, 1) + bytes@.subrange(1, 2));
            assert(bytes@.subrange(0, 2) =~= bytes@);
            assert(bytes@ == r.spec_bytes());
        }
        r
    }

    #[verifier::spinoff_prover]
    fn to_bytes(&self) -> (r: Vec<u8>) {
        let mut out: Vec<u8> = Vec::new();
        out.push(self.enable_breakpoint);
        out.push(self.break_on_all_dies);
        proof {
            lemma_abl_breakpoint_control_bytes_pieces(*self);
        }
        out
    }
}

/// How the bytes of a AblBreakpointControl split up into its fields.
pub proof fn lemma_abl_breakpoint_control_bytes_pieces(x: AblBreakpointControl)
    ensures
        x.spec_bytes().len() == 2,
        x.spec_bytes()[0] == x.spec_enable_breakpoint(),
        x.spec_bytes()[1] == x.spec_break_on_all_dies(),
{
    lemma_auto_spec_u16_to_from_le_bytes();
    lemma_auto_spec_u32_to_from_le_bytes();
    lemma_auto_spec_u64_to_from_le_bytes();
}

/// Two values of AblBreakpointControl with the same bytes are the same value.
#[verifier::spinoff_prover]
pub proof fn lemma_abl_breakpoint_control_bytes_injective(x: AblBreakpointControl, y: AblBreakpointControl)
    requires
        x.spec_bytes() == y.spec_bytes(),
    ensures
        x == y,
{
    lemma_abl_breakpoint_control_bytes_pieces(x);
    lemma_abl_breakpoint_control_bytes_pieces(y);
    lemma_auto_spec_u16_to_from_le_bytes();
    lemma_auto_spec_u32_to_from_le_bytes();
    lemma_auto_spec_u64_to_from_le_bytes();
    assert(x.enable_breakpoint == y.enable_breakpoint);
    assert(x.break_on_all_dies == y.break_on_all_dies);
}

impl AblBreakpointControl {
    /// Whether this is the value that `default` gives.
    pub open spec fn spec_is_default(self) -> bool {
        &&& self.spec_enable_breakpoint() == 1
        &&& self.spec_break_on_all_dies() == 1
    }
}

impl Default for AblBreakpointControl {
    fn default() -> (r: Self)
        ensures
            r.spec_enable_breakpoint() == 1,
            r.spec_break_on_all_dies() == 1,
            r.spec_is_default(),
    {
        AblBreakpointControl { enable_breakpoint: 1, break_on_all_dies: 1 }
    }
}

/// The console control entry (newer than Naples).
#[allow(non_camel_case_types)]
#[derive(Debug, Clone, Copy)]
pub struct ConsoleOutControl {
    pub abl_console_out_control: AblConsoleOutControl,
    pub abl_breakpoint_control: AblBreakpointControl,
    pub(crate) _reserved_: u16,
}

impl ConsoleOutControl {
    pub closed spec fn spec_abl_console_out_control(self) -> AblConsoleOutControl {
        self.abl_console_out_control
    }

    pub closed spec fn spec_abl_breakpoint_control(self) -> AblBreakpointControl {
        self.abl_breakpoint_control
    }

    pub closed spec fn spec__reserved_(self) -> u16 {
        self._reserved_
    }

}

impl ConsoleOutControl {
    /// The bytes that store this value on disk.
    pub closed spec fn spec_bytes(self) -> Seq<u8> {
        self.abl_console_out_control.spec_to_bytes()
            + self.abl_breakpoint_control.spec_to_bytes()
            + spec_u16_to_le_bytes(self._reserved_)
    }
}

impl ByteLayout for ConsoleOutControl {
    open spec fn spec_size() -> nat {
        20
    }

    open spec fn spec_to_bytes(self) -> Seq<u8> {
        self.spec_bytes()
    }

    fn size() -> (r: usize) {
        20
    }

    #[verifier::spinoff_prover]
    fn from_bytes(bytes: &[u8]) -> (r: Self) {
        let abl_console_out_control: AblConsoleOutControl = AblConsoleOutControl::from_bytes(slice_subrange(bytes, 0, 16));
        let abl_breakpoint_control: AblBreakpointControl = AblBreakpointControl::from_bytes(slice_subrange(bytes, 16, 18));
        let _reserved_: u16 = u16_from_le_bytes(slice_subrange(bytes, 18, 20));
        let r = ConsoleOutControl { abl_console_out_control, abl_breakpoint_control, _reserved_ };
        proof {
            lemma_auto_spec_u16_to_from_le_bytes();
            lemma_auto_spec_u32_to_from_le_bytes();
            lemma_auto_spec_u64_to_from_le_bytes();
            lemma_console_out_control_bytes_pieces(r);
            assert(bytes@.subrange(0, 16) == abl_console_out_control.spec_to_bytes());
            assert(bytes@.subrange(16, 18) == abl_breakpoint_control.spec_to_bytes());
            assert(bytes@.subrange(18, 20) == spec_u16_to_le_bytes(_reserved_));
            assert(bytes@.subrange(0, 18) =~= bytes@.subrange(0, 16) + bytes@.subrange(16, 18));
            assert(bytes@.subrange(0, 20) =~= bytes@.subrange(0, 18) + bytes@.subrange(18, 20));
            assert(bytes@.subrange(0, 20) =~= bytes@);
            assert(bytes@ == r.spec_bytes());
        }
        r
    }

    #[verifier::spinoff_prover]
    fn to_bytes(&self) -> (r: Vec<u8>) {
        let mut out: Vec<u8> = Vec::new();
        let part = self.abl_console_out_control.to_bytes();
        append_bytes(&mut out, part.as_slice());
        let part = self.abl_breakpoint_control.to_bytes();
        append_bytes(&mut out, part.as_slice());
        append_bytes(&mut out, &le_bytes_u16(self._reserved_));
        proof {
            lemma_console_out_control_bytes_pieces(*self);
        }
        out
    }
}

/// How the bytes of a ConsoleOutControl split up into its fields.
pub proof fn lemma_console_out_control_bytes_pieces(x: ConsoleOutControl)
    ensures
        x.spec_bytes().len() == 20,
        x.spec_bytes().subrange(0, 16) == x.spec_abl_console_out_control().spec_to_bytes(),
        x.spec_bytes().subrange(16, 18) == x.spec_abl_breakpoint_control().spec_to_bytes(),
        x.spec_bytes().subrange(18, 20) == spec_u16_to_le_bytes(x.spec__reserved_()),
{
    lemma_auto_spec_u16_to_from_le_bytes();
    lemma_auto_spec_u32_to_from_le_bytes();
    lemma_auto_spec_u64_to_from_le_bytes();
    lemma_abl_console_out_control_bytes_pieces(x.abl_console_out_control);
    lemma_abl_breakpoint_control_bytes_pieces(x.abl_breakpoint_control);
    assert(x.spec_bytes().subrange(0, 16) == x.abl_console_out_control.spec_to_bytes());
    assert(x.spec_bytes().subrange(16, 18) == x.abl_breakpoint_control.spec_to_bytes());
    assert(x.spec_bytes().subrange(18, 20) == spec_u16_to_le_bytes(x._reserved_));
}

/// Two values of ConsoleOutControl with the same bytes are the same value.
#[verifier::spinoff_prover]
pub proof fn lemma_console_out_control_bytes_injective(x: ConsoleOutControl, y: ConsoleOutControl)
    requires
        x.spec_bytes() == y.spec_bytes(),
    ensures
        x == y,
{
    lemma_console_out_control_bytes_pieces(x);
    lemma_console_out_control_bytes_pieces(y);
    lemma_auto_spec_u16_to_from_le_bytes();
    lemma_auto_spec_u32_to_from_le_bytes();
    lemma_auto_spec_u64_to_from_le_bytes();
    lemma_abl_console_out_control_bytes_injective(x.abl_console_out_control, y.abl_console_out_control);
    lemma_abl_breakpoint_control_bytes_injective(x.abl_breakpoint_control, y.abl_breakpoint_control);
    assert(spec_u16_from_le_bytes(spec_u16_to_le_bytes(x._reserved_)) == spec_u16_from_le_bytes(spec_u16_to_le_bytes(y._reserved_)));
}

/// What the ABL logs, and where (Naples layout).
#[allow(non_camel_case_types)]
#[derive(Debug, Clone, Copy)]
pub struct NaplesAblConsoleOutControl {
    pub(crate) enable_console_logging: u8,
    pub(crate) _reserved_0: [u8; 3],
    pub(crate) abl_console_port: u32,
    pub(crate) enable_mem_flow_logging: u8,
    pub(crate) enable_mem_setreg_logging: u8,
    pub(crate) enable_mem_getreg_logging: u8,
    pub(crate) enable_mem_status_logging: u8,
    pub(crate) enable_mem_pmu_logging: u8,
    pub(crate) enable_mem_pmu_sram_read_logging: u8,
    pub(crate) enable_mem_pmu_sram_write_logging: u8,
    pub(crate) enable_mem_test_verbose_logging: u8,
}

impl NaplesAblConsoleOutControl {
    pub closed spec fn spec_enable_console_logging(self) -> u8 {
        self.enable_console_logging
    }

    pub closed spec fn spec__reserved_0(self) -> [u8; 3] {
        self._reserved_0
    }

    pub closed spec fn spec_abl_console_port(self) -> u32 {
        self.abl_console_port
    }

    pub closed spec fn spec_enable_mem_flow_logging(self) -> u8 {
        self.enable_mem_flow_logging
    }

    pub closed spec fn spec_enable_mem_setreg_logging(self) -> u8 {
        self.enable_mem_setreg_logging
    }

    pub closed spec fn spec_enable_mem_getreg_logging(self) -> u8 {
        self.enable_mem_getreg_logging
    }

    pub closed spec fn spec_enable_mem_status_logging(self) -> u8 {
        self.enable_mem_status_logging
    }

    pub closed spec fn spec_enable_mem_pmu_logging(self) -> u8 {
        self.enable_mem_pmu_logging
    }

    pub closed spec fn spec_enable_mem_pmu_sram_read_logging(self) -> u8 {
        self.enable_mem_pmu_sram_read_logging
    }

    pub closed spec fn spec_enable_mem_pmu_sram_write_logging(self) -> u8 {
        self.enable_mem_pmu_sram_write_logging
    }

    pub closed spec fn spec_enable_mem_test_verbose_logging(self) -> u8 {
        self.enable_mem_test_verbose_logging
    }

    pub fn enable_console_logging(&self) -> (r: Result<bool>)
        ensures
            r == spec_bool_result_of_raw(self.spec_enable_console_logging() as int),
    {
        match self.enable_console_logging {
            0 => Ok(false),
            1 => Ok(true),
            _ => Err(Error::EntryTypeMismatch),
        }
    }

    pub fn set_enable_console_logging(&mut self, value: bool)
        ensures
            final(self).spec_enable_console_logging() == spec_raw_of_bool(value) as u8,
            final(self).spec__reserved_0() == old(self).spec__reserved_0(),
            final(self).spec_abl_console_port() == old(self).spec_abl_console_port(),
            final(self).spec_enable_mem_flow_logging() == old(self).spec_enable_mem_flow_logging(),
            final(self).spec_enable_mem_setreg_logging() == old(self).spec_enable_mem_setreg_logging(),
            final(self).spec_enable_mem_getreg_logging() == old(self).spec_enable_mem_getreg_logging(),
            final(self).spec_enable_mem_status_logging() == old(self).spec_enable_mem_status_logging(),
            final(self).spec_enable_mem_pmu_logging() == old(self).spec_enable_mem_pmu_logging(),
            final(self).spec_enable_mem_pmu_sram_read_logging() == old(self).spec_enable_mem_pmu_sram_read_logging(),
            final(self).spec_enable_mem_pmu_sram_write_logging() == old(self).spec_enable_mem_pmu_sram_write_logging(),
            final(self).spec_enable_mem_test_verbose_logging() == old(self).spec_enable_mem_test_verbose_logging(),
    {
        self.enable_console_logging = if value { 1 } else { 0 };
    }

    pub fn abl_console_port(&self) -> (r: Result<u32>)
        ensures
            r == Ok::<u32, Error>(self.spec_abl_console_port()),
    {
        Ok(self.abl_console_port)
    }

    pub fn set_abl_console_port(&mut self, value: u32)
        ensures
            final(self).spec_abl_console_port() == value,
            final(self).spec_enable_console_logging() == old(self).spec_enable_console_logging(),
            final(self).spec__reserved_0() == old(self).spec__reserved_0(),
            final(self).spec_enable_mem_flow_logging() == old(self).spec_enable_mem_flow_logging(),
            final(self).spec_enable_mem_setreg_logging() == old(self).spec_enable_mem_setreg_logging(),
            final(self).spec_enable_mem_getreg_logging() == old(self).spec_enable_mem_getreg_logging(),
            final(self).spec_enable_mem_status_logging() == old(self).spec_enable_mem_status_logging(),
            final(self).spec_enable_mem_pmu_logging() == old(self).spec_enable_mem_pmu_logging(),
            final(self).spec_enable_mem_pmu_sram_read_logging() == old(self).spec_enable_mem_pmu_sram_read_logging(),
            final(self).spec_enable_mem_pmu_sram_write_logging() == old(self).spec_enable_mem_pmu_sram_write_logging(),
            final(self).spec_enable_mem_test_verbose_logging() == old(self).spec_enable_mem_test_verbose_logging(),
    {
        self.abl_console_port = value;
    }

    pub fn enable_mem_flow_logging(&self) -> (r: Result<bool>)
        ensures
            r == spec_bool_result_of_raw(self.spec_enable_mem_flow_logging() as int),
    {
        match self.enable_mem_flow_logging {
            0 => Ok(false),
            1 => Ok(true),
            _ => Err(Error::EntryTypeMismatch),
        }
    }

    pub fn set_enable_mem_flow_logging(&mut self, value: bool)
        ensures
            final(self).spec_enable_mem_flow_logging() == spec_raw_of_bool(value) as u8,
            final(self).spec_enable_console_logging() == old(self).spec_enable_console_logging(),
            final(self).spec__reserved_0() == old(self).spec__reserved_0(),
            final(self).spec_abl_console_port() == old(self).spec_abl_console_port(),
            final(self).spec_enable_mem_setreg_logging() == old(self).spec_enable_mem_setreg_logging(),
            final(self).spec_enable_mem_getreg_logging() == old(self).spec_enable_mem_getreg_logging(),
            final(self).spec_enable_mem_status_logging() == old(self).spec_enable_mem_status_logging(),
            final(self).spec_enable_mem_pmu_logging() == old(self).spec_enable_mem_pmu_logging(),
            final(self).spec_enable_mem_pmu_sram_read_logging() == old(self).spec_enable_mem_pmu_sram_read_logging(),
            final(self).spec_enable_mem_pmu_sram_write_logging() == old(self).spec_enable_mem_pmu_sram_write_logging(),
            final(self).spec_enable_mem_test_verbose_logging() == old(self).spec_enable_mem_test_verbose_logging(),
    {
        self.enable_mem_flow_logging = if value { 1 } else { 0 };
    }

    pub fn enable_mem_setreg_logging(&self) -> (r: Result<bool>)
        ensures
            r == spec_bool_result_of_raw(self.spec_enable_mem_setreg_logging() as int),
    {
        match self.enable_mem_setreg_logging {
            0 => Ok(false),
            1 => Ok(true),
            _ => Err(Error::EntryTypeMismatch),
        }
    }

    pub fn set_enable_mem_setreg_logging(&mut self, value: bool)
        ensures
            final(self).spec_enable_mem_setreg_logging() == spec_raw_of_bool(value) as u8,
            final(self).spec_enable_console_logging() == old(self).spec_enable_console_logging(),
            final(self).spec__reserved_0() == old(self).spec__reserved_0(),
            final(self).spec_abl_console_port() == old(self).spec_abl_console_port(),
            final(self).spec_enable_mem_flow_logging() == old(self).spec_enable_mem_flow_logging(),
            final(self).spec_enable_mem_getreg_logging() == old(self).spec_enable_mem_getreg_logging(),
            final(self).spec_enable_mem_status_logging() == old(self).spec_enable_mem_status_logging(),
            final(self).spec_enable_mem_pmu_logging() == old(self).spec_enable_mem_pmu_logging(),
            final(self).spec_enable_mem_pmu_sram_read_logging() == old(self).spec_enable_mem_pmu_sram_read_logging(),
            final(self).spec_enable_mem_pmu_sram_write_logging() == old(self).spec_enable_mem_pmu_sram_write_logging(),
            final(self).spec_enable_mem_test_verbose_logging() == old(self).spec_enable_mem_test_verbose_logging(),
    {
        self.enable_mem_setreg_logging = if value { 1 } else { 0 };
    }

    pub fn enable_mem_getreg_logging(&self) -> (r: Result<bool>)
        ensures
            r == spec_bool_result_of_raw(self.spec_enable_mem_getreg_logging() as int),
    {
        match self.enable_mem_getreg_logging {
            0 => Ok(false),
            1 => Ok(true),
            _ => Err(Error::EntryTypeMismatch),
        }
    }

    pub fn set_enable_mem_getreg_logging(&mut self, value: bool)
        ensures
            final(self).spec_enable_mem_getreg_logging() == spec_raw_of_bool(value) as u8,
            final(self).spec_enable_console_logging() == old(self).spec_enable_console_logging(),
            final(self).spec__reserved_0() == old(self).spec__reserved_0(),
            final(self).spec_abl_console_port() == old(self).spec_abl_console_port(),
            final(self).spec_enable_mem_flow_logging() == old(self).spec_enable_mem_flow_logging(),
            final(self).spec_enable_mem_setreg_logging() == old(self).spec_enable_mem_setreg_logging(),
            final(self).spec_enable_mem_status_logging() == old(self).spec_enable_mem_status_logging(),
            final(self).spec_enable_mem_pmu_logging() == old(self).spec_enable_mem_pmu_logging(),
            final(self).spec_enable_mem_pmu_sram_read_logging() == old(self).spec_enable_mem_pmu_sram_read_logging(),
            final(self).spec_enable_mem_pmu_sram_write_logging() == old(self).spec_enable_mem_pmu_sram_write_logging(),
            final(self).spec_enable_mem_test_verbose_logging() == old(self).spec_enable_mem_test_verbose_logging(),
    {
        self.enable_mem_getreg_logging = if value { 1 } else { 0 };
    }

    pub fn enable_mem_status_logging(&self) -> (r: Result<bool>)
        ensures
            r == spec_bool_result_of_raw(self.spec_enable_mem_status_logging() as int),
    {
        match self.enable_mem_status_logging {
            0 => Ok(false),
            1 => Ok(true),
            _ => Err(Error::EntryTypeMismatch),
        }
    }

    pub fn set_enable_mem_status_logging(&mut self, value: bool)
        ensures
            final(self).spec_enable_mem_status_logging() == spec_raw_of_bool(value) as u8,
            final(self).spec_enable_console_logging() == old(self).spec_enable_console_logging(),
            final(self).spec__reserved_0() == old(self).spec__reserved_0(),
            final(self).spec_abl_console_port() == old(self).spec_abl_console_port(),
            final(self).spec_enable_mem_flow_logging() == old(self).spec_enable_mem_flow_logging(),
            final(self).spec_enable_mem_setreg_logging() == old(self).spec_enable_mem_setreg_logging(),
            final(self).spec_enable_mem_getreg_logging() == old(self).spec_enable_mem_getreg_logging(),
            final(self).spec_enable_mem_pmu_logging() == old(self).spec_enable_mem_pmu_logging(),
            final(self).spec_enable_mem_pmu_sram_read_logging() == old(self).spec_enable_mem_pmu_sram_read_logging(),
            final(self).spec_enable_mem_pmu_sram_write_logging() == old(self).spec_enable_mem_pmu_sram_write_logging(),
            final(self).spec_enable_mem_test_verbose_logging() == old(self).spec_enable_mem_test_verbose_logging(),
    {
        self.enable_mem_status_logging = if value { 1 } else { 0 };
    }

    pub fn enable_mem_pmu_logging(&self) -> (r: Result<bool>)
        ensures
            r == spec_bool_result_of_raw(self.spec_enable_mem_pmu_logging() as int),
    {
        match self.enable_mem_pmu_logging {
            0 => Ok(false),
            1 => Ok(true),
            _ => Err(Error::EntryTypeMismatch),
        }
    }

    pub fn set_enable_mem_pmu_logging(&mut self, value: bool)
        ensures
            final(self).spec_enable_mem_pmu_logging() == spec_raw_of_bool(value) as u8,
            final(self).spec_enable_console_logging() == old(self).spec_enable_console_logging(),
            final(self).spec__reserved_0() == old(self).spec__reserved_0(),
            final(self).spec_abl_console_port() == old(self).spec_abl_console_port(),
            final(self).spec_enable_mem_flow_logging() == old(self).spec_enable_mem_flow_logging(),
            final(self).spec_enable_mem_setreg_logging() == old(self).spec_enable_mem_setreg_logging(),
            final(self).spec_enable_mem_getreg_logging() == old(self).spec_enable_mem_getreg_logging(),
            final(self).spec_enable_mem_status_logging() == old(self).spec_enable_mem_status_logging(),
            final(self).spec_enable_mem_pmu_sram_read_logging() == old(self).spec_enable_mem_pmu_sram_read_logging(),
            final(self).spec_enable_mem_pmu_sram_write_logging() == old(self).spec_enable_mem_pmu_sram_write_logging(),
            final(self).spec_enable_mem_test_verbose_logging() == old(self).spec_enable_mem_test_verbose_logging(),
    {
        self.enable_mem_pmu_logging = if value { 1 } else { 0 };
    }

    pub fn enable_mem_pmu_sram_read_logging(&self) -> (r: Result<bool>)
        ensures
            r == spec_bool_result_of_raw(self.spec_enable_mem_pmu_sram_read_logging() as int),
    {
        match self.enable_mem_pmu_sram_read_logging {
            0 => Ok(false),
            1 => Ok(true),
            _ => Err(Error::EntryTypeMismatch),
        }
    }

    pub fn set_enable_mem_pmu_sram_read_logging(&mut self, value: bool)
        ensures
            final(self).spec_enable_mem_pmu_sram_read_logging() == spec_raw_of_bool(value) as u8,
            final(self).spec_enable_console_logging() == old(self).spec_enable_console_logging(),
            final(self).spec__reserved_0() == old(self).spec__reserved_0(),
            final(self).spec_abl_console_port() == old(self).spec_abl_console_port(),
            final(self).spec_enable_mem_flow_logging() == old(self).spec_enable_mem_flow_logging(),
            final(self).spec_enable_mem_setreg_logging() == old(self).spec_enable_mem_setreg_logging(),
            final(self).spec_enable_mem_getreg_logging() == old(self).spec_enable_mem_getreg_logging(),
            final(self).spec_enable_mem_status_logging() == old(self).spec_enable_mem_status_logging(),
            final(self).spec_enable_mem_pmu_logging() == old(self).spec_enable_mem_pmu_logging(),
            final(self).spec_enable_mem_pmu_sram_write_logging() == old(self).spec_enable_mem_pmu_sram_write_logging(),
            final(self).spec_enable_mem_test_verbose_logging() == old(self).spec_enable_mem_test_verbose_logging(),
    {
        self.enable_mem_pmu_sram_read_logging = if value { 1 } else { 0 };
    }

    pub fn enable_mem_pmu_sram_write_logging(&self) -> (r: Result<bool>)
        ensures
            r == spec_bool_result_of_raw(self.spec_enable_mem_pmu_sram_write_logging() as int),
    {
        match self.enable_mem_pmu_sram_write_logging {
            0 => Ok(false),
            1 => Ok(true),
            _ => Err(Error::EntryTypeMismatch),
        }
    }

    pub fn set_enable_mem_pmu_sram_write_logging(&mut self, value: bool)
        ensures
            final(self).spec_enable_mem_pmu_sram_write_logging() == spec_raw_of_bool(value) as u8,
            final(self).spec_enable_console_logging() == old(self).spec_enable_console_logging(),
            final(self).spec__reserved_0() == old(self).spec__reserved_0(),
            final(self).spec_abl_console_port() == old(self).spec_abl_console_port(),
            final(self).spec_enable_mem_flow_logging() == old(self).spec_enable_mem_flow_logging(),
            final(self).spec_enable_mem_setreg_logging() == old(self).spec_enable_mem_setreg_logging(),
            final(self).spec_enable_mem_getreg_logging() == old(self).spec_enable_mem_getreg_logging(),
            final(self).spec_enable_mem_status_logging() == old(self).spec_enable_mem_status_logging(),
            final(self).spec_enable_mem_pmu_logging() == old(self).spec_enable_mem_pmu_logging(),
            final(self).spec_enable_mem_pmu_sram_read_logging() == old(self).spec_enable_mem_pmu_sram_read_logging(),
            final(self).spec_enable_mem_test_verbose_logging() == old(self).spec_enable_mem_test_verbose_logging(),
    {
        self.enable_mem_pmu_sram_write_logging = if value { 1 } else { 0 };
    }

    pub fn enable_mem_test_verbose_logging(&self) -> (r: Result<bool>)
        ensures
            r == spec_bool_result_of_raw(self.spec_enable_mem_test_verbose_logging() as int),
    {
        match self.enable_mem_test_verbose_logging {
            0 => Ok(false),
            1 => Ok(true),
            _ => Err(Error::EntryTypeMismatch),
        }
    }

    pub fn set_enable_mem_test_verbose_logging(&mut self, value: bool)
        ensures
            final(self).spec_enable_mem_test_verbose_logging() == spec_raw_of_bool(value) as u8,
            final(self).spec_enable_console_logging() == old(self).spec_enable_console_logging(),
            final(self).spec__reserved_0() == old(self).spec__reserved_0(),
            final(self).spec_abl_console_port() == old(self).spec_abl_console_port(),
            final(self).spec_enable_mem_flow_logging() == old(self).spec_enable_mem_flow_logging(),
            final(self).spec_enable_mem_setreg_logging() == old(self).spec_enable_mem_setreg_logging(),
            final(self).spec_enable_mem_getreg_logging() == old(self).spec_enable_mem_getreg_logging(),
            final(self).spec_enable_mem_status_logging() == old(self).spec_enable_mem_status_logging(),
            final(self).spec_enable_mem_pmu_logging() == old(self).spec_enable_mem_pmu_logging(),
            final(self).spec_enable_mem_pmu_sram_read_logging() == old(self).spec_enable_mem_pmu_sram_read_logging(),
            final(self).spec_enable_mem_pmu_sram_write_logging() == old(self).spec_enable_mem_pmu_sram_write_logging(),
    {
        self.enable_mem_test_verbose_logging = if value { 1 } else { 0 };
    }

}

impl NaplesAblConsoleOutControl {
    /// The bytes that store this value on disk.
    pub closed spec fn spec_bytes(self) -> Seq<u8> {
        seq![self.enable_console_logging]
            + self._reserved_0@
            + spec_u32_to_le_bytes(self.abl_console_port)
            + seq![self.enable_mem_flow_logging]
            + seq![self.enable_mem_setreg_logging]
            + seq![self.enable_mem_getreg_logging]
            + seq![self.enable_mem_status_logging]
            + seq![self.enable_mem_pmu_logging]
            + seq![self.enable_mem_pmu_sram_read_logging]
            + seq![self.enable_mem_pmu_sram_write_logging]
            + seq![self.enable_mem_test_verbose_logging]
    }
}

impl ByteLayout for NaplesAblConsoleOutControl {
    open spec fn spec_size() -> nat {
        16
    }

    open spec fn spec_to_bytes(self) -> Seq<u8> {
        self.spec_bytes()
    }

    fn size() -> (r: usize) {
        16
    }

    #[verifier::spinoff_prover]
    fn from_bytes(bytes: &[u8]) -> (r: Self) {
        let enable_console_logging: u8 = bytes[0];
        let _reserved_0: [u8; 3] = [bytes[1], bytes[2], bytes[3]];
        let abl_console_port: u32 = u32_from_le_bytes(slice_subrange(bytes, 4, 8));
        let enable_mem_flow_logging: u8 = bytes[8];
        let enable_mem_setreg_logging: u8 = bytes[9];
        let enable_mem_getreg_logging: u8 = bytes[10];
        let enable_mem_status_logging: u8 = bytes[11];
        let enable_mem_pmu_logging: u8 = bytes[12];
        let enable_mem_pmu_sram_read_logging: u8 = bytes[13];
        let enable_mem_pmu_sram_write_logging: u8 = bytes[14];
        let enable_mem_test_verbose_logging: u8 = bytes[15];
        let r = NaplesAblConsoleOutControl { enable_console_logging, _reserved_0, abl_console_port, enable_mem_flow_logging, enable_mem_setreg_logging, enable_mem_getreg_logging, enable_mem_status_logging, enable_mem_pmu_logging, enable_mem_pmu_sram_read_logging, enable_mem_pmu_sram_write_logging, enable_mem_test_verbose_logging };
        proof {
            lemma_auto_spec_u16_to_from_le_bytes();
            lemma_auto_spec_u32_to_from_le_bytes();
            lemma_auto_spec_u64_to_from_le_bytes();
            lemma_naples_abl_console_out_control_bytes_pieces(r);
            assert(bytes@.subrange(1, 4) =~= _reserved_0@);
            assert(bytes@.subrange(4, 8) == spec_u32_to_le_bytes(abl_console_port));
            assert(bytes@.subrange(0, 4) =~= bytes@.subrange(0, 1) + bytes@.subrange(1, 4));
            assert(bytes@.subrange(0, 8) =~= bytes@.subrange(0, 4) + bytes@.subrange(4, 8));
            assert(bytes@.subrange(0, 9) =~= bytes@.subrange(0, 8) + bytes@.subrange(8, 9));
            assert(bytes@.subrange(0, 10) =~= bytes@.subrange(0, 9) + bytes@.subrange(9, 10));
            assert(bytes@.subrange(0, 11) =~= bytes@.subrange(0, 10) + bytes@.subrange(10, 11));
            assert(bytes@.subrange(0, 12) =~= bytes@.subrange(0, 11) + bytes@.subrange(11, 12));
            assert(bytes@.subrange(0, 13) =~= bytes@.subrange(0, 12) + bytes@.subrange(12, 13));
            assert(bytes@.subrange(0, 14) =~= bytes@.subrange(0, 13) + bytes@.subrange(13, 14));
            assert(bytes@.subrange(0, 15) =~= bytes@.subrange(0, 14) + bytes@.subrange(14, 15));
            assert(bytes@.subrange(0, 16) =~= bytes@.subrange(0, 15) + bytes@.subrange(15, 16));
            assert(bytes@.subrange(0, 16) =~= bytes@);
            assert(bytes@ == r.spec_bytes());
        }
        r
    }

    #[verifier::spinoff_prover]
    fn to_bytes(&self) -> (r: Vec<u8>) {
        let mut out: Vec<u8> = Vec::new();
        out.push(self.enable_console_logging);
        append_bytes(&mut out, &self._reserved_0);
        append_bytes(&mut out, &le_bytes_u32(self.abl_console_port));
        out.push(self.enable_mem_flow_logging);
        out.push(self.enable_mem_setreg_logging);
        out.push(self.enable_mem_getreg_logging);
        out.push(self.enable_mem_status_logging);
        out.push(self.enable_mem_pmu_logging);
        out.push(self.enable_mem_pmu_sram_read_logging);
        out.push(self.enable_mem_pmu_sram_write_logging);
        out.push(self.enable_mem_test_verbose_logging);
        proof {
            lemma_naples_abl_console_out_control_bytes_pieces(*self);
        }
        out
    }
}

/// How the bytes of a NaplesAblConsoleOutControl split up into its fields.
pub proof fn lemma_naples_abl_console_out_control_bytes_pieces(x: NaplesAblConsoleOutControl)
    ensures
        x.spec_bytes().len() == 16,
        x.spec_bytes()[0] == x.spec_enable_console_logging(),
        x.spec_bytes().subrange(1, 4) == x.spec__reserved_0()@,
        x.spec_bytes().subrange(4, 8) == spec_u32_to_le_bytes(x.spec_abl_console_port()),
        x.spec_bytes()[8] == x.spec_enable_mem_flow_logging(),
        x.spec_bytes()[9] == x.spec_enable_mem_setreg_logging(),
        x.spec_bytes()[10] == x.spec_enable_mem_getreg_logging(),
        x.spec_bytes()[11] == x.spec_enable_mem_status_logging(),
        x.spec_bytes()[12] == x.spec_enable_mem_pmu_logging(),
        x.spec_bytes()[13] == x.spec_enable_mem_pmu_sram_read_logging(),
        x.spec_bytes()[14] == x.spec_enable_mem_pmu_sram_write_logging(),
        x.spec_bytes()[15] == x.spec_enable_mem_test_verbose_logging(),
{
    lemma_auto_spec_u16_to_from_le_bytes();
    lemma_auto_spec_u32_to_from_le_bytes();
    lemma_auto_spec_u64_to_from_le_bytes();
    assert(x.spec_bytes().subrange(1, 4) == x._reserved_0@);
    assert(x.spec_bytes().subrange(4, 8) == spec_u32_to_le_bytes(x.abl_console_port));
}

/// Two values of NaplesAblConsoleOutControl with the same bytes are the same value.
#[verifier::spinoff_prover]
pub proof fn lemma_naples_abl_console_out_control_bytes_injective(x: NaplesAblConsoleOutControl, y: NaplesAblConsoleOutControl)
    requires
        x.spec_bytes() == y.spec_bytes(),
    ensures
        x == y,
{
    lemma_naples_abl_console_out_control_bytes_pieces(x);
    lemma_naples_abl_console_out_control_bytes_pieces(y);
    lemma_auto_spec_u16_to_from_le_bytes();
    lemma_auto_spec_u32_to_from_le_bytes();
    lemma_auto_spec_u64_to_from_le_bytes();
    assert(x.enable_console_logging == y.enable_console_logging);
    assert(x._reserved_0@ == x.spec_bytes().subrange(1, 4));
    assert(x._reserved_0 =~= y._reserved_0);
    assert(spec_u32_from_le_bytes(spec_u32_to_le_bytes(x.abl_console_port)) == spec_u32_from_le_bytes(spec_u32_to_le_bytes(y.abl_console_port)));
    assert(x.enable_mem_flow_logging == y.enable_mem_flow_logging);
    assert(x.enable_mem_setreg_logging == y.enable_mem_setreg_logging);
    assert(x.enable_mem_getreg_logging == y.enable_mem_getreg_logging);
    assert(x.enable_mem_status_logging == y.enable_mem_status_logging);
    assert(x.enable_mem_pmu_logging == y.enable_mem_pmu_logging);
    assert(x.enable_mem_pmu_sram_read_logging == y.enable_mem_pmu_sram_read_logging);
    assert(x.enable_mem_pmu_sram_write_logging == y.enable_mem_pmu_sram_write_logging);
    assert(x.enable_mem_test_verbose_logging == y.enable_mem_test_verbose_logging);
}

impl NaplesAblConsoleOutControl {
    /// Whether this is the value that `default` gives.
    pub open spec fn spec_is_default(self) -> bool {
        &&& self.spec_enable_console_logging() == 1
        &&& self.spec__reserved_0() == [0u8, 0u8, 0u8]
        &&& self.spec_abl_console_port() == 0x80
        &&& self.spec_enable_mem_flow_logging() == 1
        &&& self.spec_enable_mem_setreg_logging() == 1
        &&& self.spec_enable_mem_getreg_logging() == 0
        &&& self.spec_enable_mem_status_logging() == 0
        &&& self.spec_enable_mem_pmu_logging() == 0
        &&& self.spec_enable_mem_pmu_sram_read_logging() == 0
        &&& self.spec_enable_mem_pmu_sram_write_logging() == 0
        &&& self.spec_enable_mem_test_verbose_logging() == 0
    }
}

impl Default for NaplesAblConsoleOutControl {
    fn default() -> (r: Self)
        ensures
            r.spec_enable_console_logging() == 1,
            r.spec__reserved_0() == [0u8, 0u8, 0u8],
            r.spec_abl_console_port() == 0x80,
            r.spec_enable_mem_flow_logging() == 1,
            r.spec_enable_mem_setreg_logging() == 1,
            r.spec_enable_mem_getreg_logging() == 0,
            r.spec_enable_mem_status_logging() == 0,
            r.spec_enable_mem_pmu_logging() == 0,
            r.spec_enable_mem_pmu_sram_read_logging() == 0,
            r.spec_enable_mem_pmu_sram_write_logging() == 0,
            r.spec_enable_mem_test_verbose_logging() == 0,
            r.spec_is_default(),
    {
        NaplesAblConsoleOutControl { enable_console_logging: 1, _reserved_0: [0, 0, 0], abl_console_port: 0x80, enable_mem_flow_logging: 1, enable_mem_setreg_logging: 1, enable_mem_getreg_logging: 0, enable_mem_status_logging: 0, enable_mem_pmu_logging: 0, enable_mem_pmu_sram_read_logging: 0, enable_mem_pmu_sram_write_logging: 0, enable_mem_test_verbose_logging: 0 }
    }
}

impl NaplesAblConsoleOutControl {
    pub fn new() -> (r: Self)
        ensures
            r.spec_enable_console_logging() == 1,
            r.spec__reserved_0() == [0u8, 0u8, 0u8],
            r.spec_abl_console_port() == 0x80,
            r.spec_enable_mem_flow_logging() == 1,
            r.spec_enable_mem_setreg_logging() == 1,
            r.spec_enable_mem_getreg_logging() == 0,
            r.spec_enable_mem_status_logging() == 0,
            r.spec_enable_mem_pmu_logging() == 0,
            r.spec_enable_mem_pmu_sram_read_logging() == 0,
            r.spec_enable_mem_pmu_sram_write_logging() == 0,
            r.spec_enable_mem_test_verbose_logging() == 0,
    {
        Self::default()
    }
}

/// The console control entry (Naples layout).
#[allow(non_camel_case_types)]
#[derive(Debug, Clone, Copy)]
pub struct NaplesConsoleOutControl {
    pub abl_console_out_control: NaplesAblConsoleOutControl,
    pub abl_breakpoint_control: AblBreakpointControl,
    pub(crate) _reserved_: u16,
}

impl NaplesConsoleOutControl {
    pub closed spec fn spec_abl_console_out_control(self) -> NaplesAblConsoleOutControl {
        self.abl_console_out_control
    }

    pub closed spec fn spec_abl_breakpoint_control(self) -> AblBreakpointControl {
        self.abl_breakpoint_control
    }

    pub closed spec fn spec__reserved_(self) -> u16 {
        self._reserved_
    }

}

impl NaplesConsoleOutControl {
    /// The bytes that store this value on disk.
    pub closed spec fn spec_bytes(self) -> Seq<u8> {
        self.abl_console_out_control.spec_to_bytes()
            + self.abl_breakpoint_control.spec_to_bytes()
            + spec_u16_to_le_bytes(self._reserved_)
    }
}

impl ByteLayout for NaplesConsoleOutControl {
    open spec fn spec_size() -> nat {
        20
    }

    open spec fn spec_to_bytes(self) -> Seq<u8> {
        self.spec_bytes()
    }

    fn size() -> (r: usize) {
        20
    }

    #[verifier::spinoff_prover]
    fn from_bytes(bytes: &[u8]) -> (r: Self) {
        let abl_console_out_control: NaplesAblConsoleOutControl = NaplesAblConsoleOutControl::from_bytes(slice_subrange(bytes, 0, 16));
        let abl_breakpoint_control: AblBreakpointControl = AblBreakpointControl::from_bytes(slice_subrange(bytes, 16, 18));
        let _reserved_: u16 = u16_from_le_bytes(slice_subrange(bytes, 18, 20));
        let r = NaplesConsoleOutControl { abl_console_out_control, abl_breakpoint_control, _reserved_ };
        proof {
            lemma_auto_spec_u16_to_from_le_bytes();
            lemma_auto_spec_u32_to_from_le_bytes();
            lemma_auto_spec_u64_to_from_le_bytes();
            lemma_naples_console_out_control_bytes_pieces(r);
            assert(bytes@.subrange(0, 16) == abl_console_out_control.spec_to_bytes());
            assert(bytes@.subrange(16, 18) == abl_breakpoint_control.spec_to_bytes());
            assert(bytes@.subrange(18, 20) == spec_u16_to_le_bytes(_reserved_));
            assert(bytes@.subrange(0, 18) =~= bytes@.subrange(0, 16) + bytes@.subrange(16, 18));
            assert(bytes@.subrange(0, 20) =~= bytes@.subrange(0, 18) + bytes@.subrange(18, 20));
            assert(bytes@.subrange(0, 20) =~= bytes@);
            assert(bytes@ == r.spec_bytes());
        }
        r
    }

    #[verifier::spinoff_prover]
    fn to_bytes(&self) -> (r: Vec<u8>) {
        let mut out: Vec<u8> = Vec::new();
        let part = self.abl_console_out_control.to_bytes();
        append_bytes(&mut out, part.as_slice());
        let part = self.abl_breakpoint_control.to_bytes();
        append_bytes(&mut out, part.as_slice());
        append_bytes(&mut out, &le_bytes_u16(self._reserved_));
        proof {
            lemma_naples_console_out_control_bytes_pieces(*self);
        }
        out
    }
}

/// How the bytes of a NaplesConsoleOutControl split up into its fields.
pub proof fn lemma_naples_console_out_control_bytes_pieces(x: NaplesConsoleOutControl)
    ensures
        x.spec_bytes().len() == 20,
        x.spec_bytes().subrange(0, 16) == x.spec_abl_console_out_control().spec_to_bytes(),
        x.spec_bytes().subrange(16, 18) == x.spec_abl_breakpoint_control().spec_to_bytes(),
        x.spec_bytes().subrange(18, 20) == spec_u16_to_le_bytes(x.spec__reserved_()),
{
    lemma_auto_spec_u16_to_from_le_bytes();
    lemma_auto_spec_u32_to_from_le_bytes();
    lemma_auto_spec_u64_to_from_le_bytes();
    lemma_naples_abl_console_out_control_bytes_pieces(x.abl_console_out_control);
    lemma_abl_breakpoint_control_bytes_pieces(x.abl_breakpoint_control);
    assert(x.spec_bytes().subrange(0, 16) == x.abl_console_out_control.spec_to_bytes());
    assert(x.spec_bytes().subrange(16, 18) == x.abl_breakpoint_control.spec_to_bytes());
    assert(x.spec_bytes().subrange(18, 20) == spec_u16_to_le_bytes(x._reserved_));
}

/// Two values of NaplesConsoleOutControl with the same bytes are the same value.
#[verifier::spinoff_prover]
pub proof fn lemma_naples_console_out_control_bytes_injective(x: NaplesConsoleOutControl, y: NaplesConsoleOutControl)
    requires
        x.spec_bytes() == y.spec_bytes(),
    ensures
        x == y,
{
    lemma_naples_console_out_control_bytes_pieces(x);
    lemma_naples_console_out_control_bytes_pieces(y);
    lemma_auto_spec_u16_to_from_le_bytes();
    lemma_auto_spec_u32_to_from_le_bytes();
    lemma_auto_spec_u64_to_from_le_bytes();
    lemma_naples_abl_console_out_control_bytes_injective(x.abl_console_out_control, y.abl_console_out_control);
    lemma_abl_breakpoint_control_bytes_injective(x.abl_breakpoint_control, y.abl_breakpoint_control);
    assert(spec_u16_from_le_bytes(spec_u16_to_le_bytes(x._reserved_)) == spec_u16_from_le_bytes(spec_u16_to_le_bytes(y._reserved_)));
}

impl EntryCompatible for ConsoleOutControl {
    /// On Naples and on newer models the console control is 20 bytes long, but the
    /// layouts differ: at offset 4 Naples stores the port number, newer models four
    /// booleans. A byte of 0 or 1 there is taken as the newer layout.
    fn is_entry_compatible(entry_id: EntryId, prefix: &[u8]) -> (r: bool)
        ensures
            r == spec_console_out_control_compatible(entry_id, prefix@),
    {
        if prefix.len() >= 20 && prefix[4] <= 1 {
            matches!(entry_id, EntryId::Memory(MemoryEntryId::ConsoleOutControl))
        } else {
            false
        }
    }
}

impl EntryCompatible for NaplesConsoleOutControl {
    /// The Naples layout of the console control: see `ConsoleOutControl`.
    fn is_entry_compatible(entry_id: EntryId, prefix: &[u8]) -> (r: bool)
        ensures
            r == spec_naples_console_out_control_compatible(entry_id, prefix@),
    {
        if prefix.len() >= 20 && prefix[4] > 1 {
            matches!(entry_id, EntryId::Memory(MemoryEntryId::ConsoleOutControl))
        } else {
            false
        }
    }
}

/// Whether the console control layout (newer than Naples) claims PREFIX of an entry ENTRY_ID.
pub open spec fn spec_console_out_control_compatible(entry_id: EntryId, prefix: Seq<u8>) -> bool {
    prefix.len() >= 20 && prefix[4] <= 1 && entry_id == EntryId::Memory(MemoryEntryId::ConsoleOutControl)
}

/// Whether the Naples console control layout claims PREFIX of an entry ENTRY_ID.
pub open spec fn spec_naples_console_out_control_compatible(entry_id: EntryId, prefix: Seq<u8>) -> bool {
    prefix.len() >= 20 && prefix[4] > 1 && entry_id == EntryId::Memory(MemoryEntryId::ConsoleOutControl)
}

impl ConsoleOutControl {
    /// Whether this is the value that `default` gives.
    pub open spec fn spec_is_default(self) -> bool {
        &&& self.spec_abl_console_out_control().spec_is_default()
        &&& self.spec_abl_breakpoint_control().spec_is_default()
        &&& self.spec__reserved_() == 0
    }
}

impl NaplesConsoleOutControl {
    /// Whether this is the value that `default` gives.
    pub open spec fn spec_is_default(self) -> bool {
        &&& self.spec_abl_console_out_control().spec_is_default()
        &&& self.spec_abl_breakpoint_control().spec_is_default()
        &&& self.spec__reserved_() == 0
    }
}

impl Default for ConsoleOutControl {
    fn default() -> (r: Self)
        ensures
            r.spec_is_default(),
    {
        Self {
            abl_console_out_control: AblConsoleOutControl::default(),
            abl_breakpoint_control: AblBreakpointControl::default(),
            _reserved_: 0,
        }
    }
}

impl Default for NaplesConsoleOutControl {
    fn default() -> (r: Self)
        ensures
            r.spec_is_default(),
    {
        Self {
            abl_console_out_control: NaplesAblConsoleOutControl::default(),
            abl_breakpoint_control: AblBreakpointControl::default(),
            _reserved_: 0,
        }
    }
}

/// The two console control layouts never both claim a prefix; for the console control entry,
/// a prefix of at least 20 bytes is claimed by exactly one of them (by the newer layout
/// exactly when byte 4 is 0 or 1); and each layout claims the bytes of its own default value
/// (the Naples one because byte 4 there is the low byte of the port number 0x80).
pub proof fn lemma_console_out_control_compatibility(
    entry_id: EntryId,
    prefix: Seq<u8>,
    c: ConsoleOutControl,
    n: NaplesConsoleOutControl,
)
    requires
        c.spec_is_default(),
        n.spec_is_default(),
    ensures
        !(spec_console_out_control_compatible(entry_id, prefix) && spec_naples_console_out_control_compatible(entry_id, prefix)),
        entry_id == EntryId::Memory(MemoryEntryId::ConsoleOutControl) && prefix.len() >= 20 ==> {
            &&& (spec_console_out_control_compatible(entry_id, prefix) <==> prefix[4] <= 1)
            &&& (spec_console_out_control_compatible(entry_id, prefix) || spec_naples_console_out_control_compatible(entry_id, prefix))
        },
        spec_console_out_control_compatible(EntryId::Memory(MemoryEntryId::ConsoleOutControl), c.spec_to_bytes()),
        spec_naples_console_out_control_compatible(EntryId::Memory(MemoryEntryId::ConsoleOutControl), n.spec_to_bytes()),
{
    lemma_naples_console_out_control_bytes_pieces(n);
    lemma_naples_abl_console_out_control_bytes_pieces(n.spec_abl_console_out_control());
    lemma_u32_le_bytes(0x80);
    assert((0x80u32 & 0xff) as u8 == 0x80u8) by (bit_vector);
    let port_bytes = n.spec_abl_console_out_control().spec_to_bytes().subrange(4, 8);
    assert(port_bytes[0] == 0x80u8);
    assert(n.spec_to_bytes()[4] == n.spec_to_bytes().subrange(0, 16)[4]);
    assert(n.spec_to_bytes().subrange(0, 16)[4] == port_bytes[0]);
    lemma_console_out_control_bytes_pieces(c);
    lemma_abl_console_out_control_bytes_pieces(c.abl_console_out_control);
    assert(c.spec_to_bytes()[4] == c.spec_to_bytes().subrange(0, 16)[4]);
}

impl AblBreakpointControl {
    pub fn new(enable_breakpoint: bool, break_on_all_dies: bool) -> (r: Self)
        ensures
            r.spec_enable_breakpoint() == spec_raw_of_bool(enable_breakpoint),
            r.spec_break_on_all_dies() == spec_raw_of_bool(break_on_all_dies),
    {
        let mut result = Self::default();
        result.set_enable_breakpoint(enable_breakpoint);
        result.set_break_on_all_dies(break_on_all_dies);
        result
    }
}

impl ConsoleOutControl {
    pub fn new(abl_console_out_control: AblConsoleOutControl, abl_breakpoint_control: AblBreakpointControl) -> (r: Self)
        ensures
            r.spec_abl_console_out_control() == abl_console_out_control,
            r.spec_abl_breakpoint_control() == abl_breakpoint_control,
            r.spec__reserved_() == 0,
    {
        Self { abl_console_out_control, abl_breakpoint_control, _reserved_: 0 }
    }
}

impl NaplesConsoleOutControl {
    pub fn new(abl_console_out_control: NaplesAblConsoleOutControl, abl_breakpoint_control: AblBreakpointControl) -> (r: Self)
        ensures
            r.spec_abl_console_out_control() == abl_console_out_control,
            r.spec_abl_breakpoint_control() == abl_breakpoint_control,
            r.spec__reserved_() == 0,
    {
        Self { abl_console_out_control, abl_breakpoint_control, _reserved_: 0 }
    }
}

/// The kind of port that an external voltage controller is reached through.
#[derive(Debug, PartialEq, Eq, Clone, Copy, Structural)]
pub enum PortType {
    PcieHt0,
    PcieHt1,
    PcieMmio,
    FchHtIo,
    FchMmio,
}

impl PortType {
    /// The number that stands for this value.
    pub open spec fn spec_to_u64(self) -> u64 {
        match self {
            PortType::PcieHt0 => 0x0,
            PortType::PcieHt1 => 0x2,
            PortType::PcieMmio => 0x5,
            PortType::FchHtIo => 0x6,
            PortType::FchMmio => 0x7,
        }
    }

    /// The value that VALUE stands for, if any.
    pub open spec fn spec_from_u64(value: u64) -> Option<PortType> {
        match value {
            0x0 => Some(PortType::PcieHt0),
            0x2 => Some(PortType::PcieHt1),
            0x5 => Some(PortType::PcieMmio),
            0x6 => Some(PortType::FchHtIo),
            0x7 => Some(PortType::FchMmio),
            _ => None,
        }
    }

    pub fn from_u64(value: u64) -> (r: Option<PortType>)
        ensures
            r == PortType::spec_from_u64(value),
    {
        match value {
            0x0 => Some(PortType::PcieHt0),
            0x2 => Some(PortType::PcieHt1),
            0x5 => Some(PortType::PcieMmio),
            0x6 => Some(PortType::FchHtIo),
            0x7 => Some(PortType::FchMmio),
            _ => None,
        }
    }

    pub fn to_u64(&self) -> (r: Option<u64>)
        ensures
            r == Some(self.spec_to_u64()),
    {
        Some(
            match self {
                PortType::PcieHt0 => 0x0,
                PortType::PcieHt1 => 0x2,
                PortType::PcieMmio => 0x5,
                PortType::FchHtIo => 0x6,
                PortType::FchMmio => 0x7,
            },
        )
    }
}

impl Default for PortType {
    fn default() -> (r: Self)
        ensures
            r == PortType::FchHtIo,
    {
        PortType::FchHtIo
    }
}

/// Every value of PortType is read back from its own number, and every number that is
/// read as a value is that value's number.
pub proof fn lemma_port_type_roundtrip(x: PortType, value: u64)
    ensures
        PortType::spec_from_u64(x.spec_to_u64()) == Some(x),
        PortType::spec_from_u64(value) matches Some(y) ==> y.spec_to_u64() == value,
{
}

/// The width of an external voltage controller port.
#[derive(Debug, PartialEq, Eq, Clone, Copy, Structural)]
pub enum PortSize {
    _8Bit,
    _16Bit,
    _32Bit,
}

impl PortSize {
    /// The number that stands for this value.
    pub open spec fn spec_to_u64(self) -> u64 {
        match self {
            PortSize::_8Bit => 0x1,
            PortSize::_16Bit => 0x2,
            PortSize::_32Bit => 0x4,
        }
    }

    /// The value that VALUE stands for, if any.
    pub open spec fn spec_from_u64(value: u64) -> Option<PortSize> {
        match value {
            0x1 => Some(PortSize::_8Bit),
            0x2 => Some(PortSize::_16Bit),
            0x4 => Some(PortSize::_32Bit),
            _ => None,
        }
    }

    pub fn from_u64(value: u64) -> (r: Option<PortSize>)
        ensures
            r == PortSize::spec_from_u64(value),
    {
        match value {
            0x1 => Some(PortSize::_8Bit),
            0x2 => Some(PortSize::_16Bit),
            0x4 => Some(PortSize::_32Bit),
            _ => None,
        }
    }

    pub fn to_u64(&self) -> (r: Option<u64>)
        ensures
            r == Some(self.spec_to_u64()),
    {
        Some(
            match self {
                PortSize::_8Bit => 0x1,
                PortSize::_16Bit => 0x2,
                PortSize::_32Bit => 0x4,
            },
        )
    }
}

impl Default for PortSize {
    fn default() -> (r: Self)
        ensures
            r == PortSize::_32Bit,
    {
        PortSize::_32Bit
    }
}

/// Every value of PortSize is read back from its own number, and every number that is
/// read as a value is that value's number.
pub proof fn lemma_port_size_roundtrip(x: PortSize, value: u64)
    ensures
        PortSize::spec_from_u64(x.spec_to_u64()) == Some(x),
        PortSize::spec_from_u64(value) matches Some(y) ==> y.spec_to_u64() == value,
{
}

impl PortSize {
    /// What the name of this value says: the width, in bits.
    pub open spec fn spec_width_in_bits(self) -> int {
        match self {
            PortSize::_8Bit => 8,
            PortSize::_16Bit => 16,
            PortSize::_32Bit => 32,
        }
    }
}

/// The number of each value follows from what its name says: 8 times the number is
/// 1 times the named quantity plus 0.
pub proof fn lemma_port_size_numbers_follow_names(x: PortSize)
    ensures
        8 * x.spec_to_u64() == x.spec_width_in_bits(),
{
}

/// How the PSP reaches an external voltage controller ("input" and "output" as the PSP sees them).
#[allow(non_camel_case_types)]
#[derive(Debug, Clone, Copy)]
pub struct ExtVoltageControl {
    pub(crate) enabled: u8,
    pub(crate) _reserved_: [u8; 3],
    pub(crate) input_port: u32,
    pub(crate) output_port: u32,
    pub(crate) input_port_size: u32,
    pub(crate) output_port_size: u32,
    pub(crate) input_port_type: u32,
    pub(crate) output_port_type: u32,
    pub(crate) clear_acknowledgement: u8,
    pub(crate) _reserved_2: [u8; 3],
}

impl ExtVoltageControl {
    pub closed spec fn spec_enabled(self) -> u8 {
        self.enabled
    }

    pub closed spec fn spec__reserved_(self) -> [u8; 3] {
        self._reserved_
    }

    pub closed spec fn spec_input_port(self) -> u32 {
        self.input_port
    }

    pub closed spec fn spec_output_port(self) -> u32 {
        self.output_port
    }

    pub closed spec fn spec_input_port_size(self) -> u32 {
        self.input_port_size
    }

    pub closed spec fn spec_output_port_size(self) -> u32 {
        self.output_port_size
    }

    pub closed spec fn spec_input_port_type(self) -> u32 {
        self.input_port_type
    }

    pub closed spec fn spec_output_port_type(self) -> u32 {
        self.output_port_type
    }

    pub closed spec fn spec_clear_acknowledgement(self) -> u8 {
        self.clear_acknowledgement
    }

    pub closed spec fn spec__reserved_2(self) -> [u8; 3] {
        self._reserved_2
    }

    pub fn enabled(&self) -> (r: Result<bool>)
        ensures
            r == spec_bool_result_of_raw(self.spec_enabled() as int),
    {
        match self.enabled {
            0 => Ok(false),
            1 => Ok(true),
            _ => Err(Error::EntryTypeMismatch),
        }
    }

    pub fn set_enabled(&mut self, value: bool)
        ensures
            final(self).spec_enabled() == spec_raw_of_bool(value) as u8,
            final(self).spec__reserved_() == old(self).spec__reserved_(),
            final(self).spec_input_port() == old(self).spec_input_port(),
            final(self).spec_output_port() == old(self).spec_output_port(),
            final(self).spec_input_port_size() == old(self).spec_input_port_size(),
            final(self).spec_output_port_size() == old(self).spec_output_port_size(),
            final(self).spec_input_port_type() == old(self).spec_input_port_type(),
            final(self).spec_output_port_type() == old(self).spec_output_port_type(),
            final(self).spec_clear_acknowledgement() == old(self).spec_clear_acknowledgement(),
            final(self).spec__reserved_2() == old(self).spec__reserved_2(),
    {
        self.enabled = if value { 1 } else { 0 };
    }

    pub fn input_port(&self) -> (r: Result<u32>)
        ensures
            r == Ok::<u32, Error>(self.spec_input_port()),
    {
        Ok(self.input_port)
    }

    pub fn set_input_port(&mut self, value: u32)
        ensures
            final(self).spec_input_port() == value,
            final(self).spec_enabled() == old(self).spec_enabled(),
            final(self).spec__reserved_() == old(self).spec__reserved_(),
            final(self).spec_output_port() == old(self).spec_output_port(),
            final(self).spec_input_port_size() == old(self).spec_input_port_size(),
            final(self).spec_output_port_size() == old(self).spec_output_port_size(),
            final(self).spec_input_port_type() == old(self).spec_input_port_type(),
            final(self).spec_output_port_type() == old(self).spec_output_port_type(),
            final(self).spec_clear_acknowledgement() == old(self).spec_clear_acknowledgement(),
            final(self).spec__reserved_2() == old(self).spec__reserved_2(),
    {
        self.input_port = value;
    }

    pub fn output_port(&self) -> (r: Result<u32>)
        ensures
            r == Ok::<u32, Error>(self.spec_output_port()),
    {
        Ok(self.output_port)
    }

    pub fn set_output_port(&mut self, value: u32)
        ensures
            final(self).spec_output_port() == value,
            final(self).spec_enabled() == old(self).spec_enabled(),
            final(self).spec__reserved_() == old(self).spec__reserved_(),
            final(self).spec_input_port() == old(self).spec_input_port(),
            final(self).spec_input_port_size() == old(self).spec_input_port_size(),
            final(self).spec_output_port_size() == old(self).spec_output_port_size(),
            final(self).spec_input_port_type() == old(self).spec_input_port_type(),
            final(self).spec_output_port_type() == old(self).spec_output_port_type(),
            final(self).spec_clear_acknowledgement() == old(self).spec_clear_acknowledgement(),
            final(self).spec__reserved_2() == old(self).spec__reserved_2(),
    {
        self.output_port = value;
    }

    pub fn input_port_size(&self) -> (r: Result<PortSize>)
        ensures
            r == match PortSize::spec_from_u64(self.spec_input_port_size() as u64) {
                Some(e) => Ok::<PortSize, Error>(e),
                None => Err(Error::EntryTypeMismatch),
            },
    {
        match PortSize::from_u64(self.input_port_size as u64) {
            Some(e) => Ok(e),
            None => Err(Error::EntryTypeMismatch),
        }
    }

    pub fn set_input_port_size(&mut self, value: PortSize)
        ensures
            final(self).spec_input_port_size() == value.spec_to_u64() as u32,
            final(self).spec_enabled() == old(self).spec_enabled(),
            final(self).spec__reserved_() == old(self).spec__reserved_(),
            final(self).spec_input_port() == old(self).spec_input_port(),
            final(self).spec_output_port() == old(self).spec_output_port(),
            final(self).spec_output_port_size() == old(self).spec_output_port_size(),
            final(self).spec_input_port_type() == old(self).spec_input_port_type(),
            final(self).spec_output_port_type() == old(self).spec_output_port_type(),
            final(self).spec_clear_acknowledgement() == old(self).spec_clear_acknowledgement(),
            final(self).spec__reserved_2() == old(self).spec__reserved_2(),
    {
        self.input_port_size = value.to_u64().unwrap() as u32;
    }

    pub fn output_port_size(&self) -> (r: Result<PortSize>)
        ensures
            r == match PortSize::spec_from_u64(self.spec_output_port_size() as u64) {
                Some(e) => Ok::<PortSize, Error>(e),
                None => Err(Error::EntryTypeMismatch),
            },
    {
        match PortSize::from_u64(self.output_port_size as u64) {
            Some(e) => Ok(e),
            None => Err(Error::EntryTypeMismatch),
        }
    }

    pub fn set_output_port_size(&mut self, value: PortSize)
        ensures
            final(self).spec_output_port_size() == value.spec_to_u64() as u32,
            final(self).spec_enabled() == old(self).spec_enabled(),
            final(self).spec__reserved_() == old(self).spec__reserved_(),
            final(self).spec_input_port() == old(self).spec_input_port(),
            final(self).spec_output_port() == old(self).spec_output_port(),
            final(self).spec_input_port_size() == old(self).spec_input_port_size(),
            final(self).spec_input_port_type() == old(self).spec_input_port_type(),
            final(self).spec_output_port_type() == old(self).spec_output_port_type(),
            final(self).spec_clear_acknowledgement() == old(self).spec_clear_acknowledgement(),
            final(self).spec__reserved_2() == old(self).spec__reserved_2(),
    {
        self.output_port_size = value.to_u64().unwrap() as u32;
    }

    pub fn input_port_type(&self) -> (r: Result<PortType>)
        ensures
            r == match PortType::spec_from_u64(self.spec_input_port_type() as u64) {
                Some(e) => Ok::<PortType, Error>(e),
                None => Err(Error::EntryTypeMismatch),
            },
    {
        match PortType::from_u64(self.input_port_type as u64) {
            Some(e) => Ok(e),
            None => Err(Error::EntryTypeMismatch),
        }
    }

    pub fn set_input_port_type(&mut self, value: PortType)
        ensures
            final(self).spec_input_port_type() == value.spec_to_u64() as u32,
            final(self).spec_enabled() == old(self).spec_enabled(),
            final(self).spec__reserved_() == old(self).spec__reserved_(),
            final(self).spec_input_port() == old(self).spec_input_port(),
            final(self).spec_output_port() == old(self).spec_output_port(),
            final(self).spec_input_port_size() == old(self).spec_input_port_size(),
            final(self).spec_output_port_size() == old(self).spec_output_port_size(),
            final(self).spec_output_port_type() == old(self).spec_output_port_type(),
            final(self).spec_clear_acknowledgement() == old(self).spec_clear_acknowledgement(),
            final(self).spec__reserved_2() == old(self).spec__reserved_2(),
    {
        self.input_port_type = value.to_u64().unwrap() as u32;
    }

    pub fn output_port_type(&self) -> (r: Result<PortType>)
        ensures
            r == match PortType::spec_from_u64(self.spec_output_port_type() as u64) {
                Some(e) => Ok::<PortType, Error>(e),
                None => Err(Error::EntryTypeMismatch),
            },
    {
        match PortType::from_u64(self.output_port_type as u64) {
            Some(e) => Ok(e),
            None => Err(Error::EntryTypeMismatch),
        }
    }

    pub fn set_output_port_type(&mut self, value: PortType)
        ensures
            final(self).spec_output_port_type() == value.spec_to_u64() as u32,
            final(self).spec_enabled() == old(self).spec_enabled(),
            final(self).spec__reserved_() == old(self).spec__reserved_(),
            final(self).spec_input_port() == old(self).spec_input_port(),
            final(self).spec_output_port() == old(self).spec_output_port(),
            final(self).spec_input_port_size() == old(self).spec_input_port_size(),
            final(self).spec_output_port_size() == old(self).spec_output_port_size(),
            final(self).spec_input_port_type() == old(self).spec_input_port_type(),
            final(self).spec_clear_acknowledgement() == old(self).spec_clear_acknowledgement(),
            final(self).spec__reserved_2() == old(self).spec__reserved_2(),
    {
        self.output_port_type = value.to_u64().unwrap() as u32;
    }

    pub fn clear_acknowledgement(&self) -> (r: Result<bool>)
        ensures
            r == spec_bool_result_of_raw(self.spec_clear_acknowledgement() as int),
    {
        match self.clear_acknowledgement {
            0 => Ok(false),
            1 => Ok(true),
            _ => Err(Error::EntryTypeMismatch),
        }
    }

    pub fn set_clear_acknowledgement(&mut self, value: bool)
        ensures
            final(self).spec_clear_acknowledgement() == spec_raw_of_bool(value) as u8,
            final(self).spec_enabled() == old(self).spec_enabled(),
            final(self).spec__reserved_() == old(self).spec__reserved_(),
            final(self).spec_input_port() == old(self).spec_input_port(),
            final(self).spec_output_port() == old(self).spec_output_port(),
            final(self).spec_input_port_size() == old(self).spec_input_port_size(),
            final(self).spec_output_port_size() == old(self).spec_output_port_size(),
            final(self).spec_input_port_type() == old(self).spec_input_port_type(),
            final(self).spec_output_port_type() == old(self).spec_output_port_type(),
            final(self).spec__reserved_2() == old(self).spec__reserved_2(),
    {
        self.clear_acknowledgement = if value { 1 } else { 0 };
    }

}

impl ExtVoltageControl {
    /// The bytes that store this value on disk.
    pub closed spec fn spec_bytes(self) -> Seq<u8> {
        seq![self.enabled]
            + self._reserved_@
            + spec_u32_to_le_bytes(self.input_port)
            + spec_u32_to_le_bytes(self.output_port)
            + spec_u32_to_le_bytes(self.input_port_size)
            + spec_u32_to_le_bytes(self.output_port_size)
            + spec_u32_to_le_bytes(self.input_port_type)
            + spec_u32_to_le_bytes(self.output_port_type)
            + seq![self.clear_acknowledgement]
            + self._reserved_2@
    }
}

impl ByteLayout for ExtVoltageControl {
    open spec fn spec_size() -> nat {
        32
    }

    open spec fn spec_to_bytes(self) -> Seq<u8> {
        self.spec_bytes()
    }

    fn size() -> (r: usize) {
        32
    }

    #[verifier::spinoff_prover]
    fn from_bytes(bytes: &[u8]) -> (r: Self) {
        let enabled: u8 = bytes[0];
        let _reserved_: [u8; 3] = [bytes[1], bytes[2], bytes[3]];
        let input_port: u32 = u32_from_le_bytes(slice_subrange(bytes, 4, 8));
        let output_port: u32 = u32_from_le_bytes(slice_subrange(bytes, 8, 12));
        let input_port_size: u32 = u32_from_le_bytes(slice_subrange(bytes, 12, 16));
        let output_port_size: u32 = u32_from_le_bytes(slice_subrange(bytes, 16, 20));
        let input_port_type: u32 = u32_from_le_bytes(slice_subrange(bytes, 20, 24));
        let output_port_type: u32 = u32_from_le_bytes(slice_subrange(bytes, 24, 28));
        let clear_acknowledgement: u8 = bytes[28];
        let _reserved_2: [u8; 3] = [bytes[29], bytes[30], bytes[31]];
        let r = ExtVoltageControl { enabled, _reserved_, input_port, output_port, input_port_size, output_port_size, input_port_type, output_port_type, clear_acknowledgement, _reserved_2 };
        proof {
            lemma_auto_spec_u16_to_from_le_bytes();
            lemma_auto_spec_u32_to_from_le_bytes();
            lemma_auto_spec_u64_to_from_le_bytes();
            lemma_ext_voltage_control_bytes_pieces(r);
            assert(bytes@.subrange(1, 4) =~= _reserved_@);
            assert(bytes@.subrange(4, 8) == spec_u32_to_le_bytes(input_port));
            assert(bytes@.subrange(8, 12) == spec_u32_to_le_bytes(output_port));
            assert(bytes@.subrange(12, 16) == spec_u32_to_le_bytes(input_port_size));
            assert(bytes@.subrange(16, 20) == spec_u32_to_le_bytes(output_port_size));
            assert(bytes@.subrange(20, 24) == spec_u32_to_le_bytes(input_port_type));
            assert(bytes@.subrange(24, 28) == spec_u32_to_le_bytes(output_port_type));
            assert(bytes@.subrange(29, 32) =~= _reserved_2@);
            assert(bytes@.subrange(0, 4) =~= bytes@.subrange(0, 1) + bytes@.subrange(1, 4));
            assert(bytes@.subrange(0, 8) =~= bytes@.subrange(0, 4) + bytes@.subrange(4, 8));
            assert(bytes@.subrange(0, 12) =~= bytes@.subrange(0, 8) + bytes@.subrange(8, 12));
            assert(bytes@.subrange(0, 16) =~= bytes@.subrange(0, 12) + bytes@.subrange(12, 16));
            assert(bytes@.subrange(0, 20) =~= bytes@.subrange(0, 16) + bytes@.subrange(16, 20));
            assert(bytes@.subrange(0, 24) =~= bytes@.subrange(0, 20) + bytes@.subrange(20, 24));
            assert(bytes@.subrange(0, 28) =~= bytes@.subrange(0, 24) + bytes@.subrange(24, 28));
            assert(bytes@.subrange(0, 29) =~= bytes@.subrange(0, 28) + bytes@.subrange(28, 29));
            assert(bytes@.subrange(0, 32) =~= bytes@.subrange(0, 29) + bytes@.subrange(29, 32));
            assert(bytes@.subrange(0, 32) =~= bytes@);
            assert(bytes@ == r.spec_bytes());
        }
        r
    }

    #[verifier::spinoff_prover]
    fn to_bytes(&self) -> (r: Vec<u8>) {
        let mut out: Vec<u8> = Vec::new();
        out.push(self.enabled);
        append_bytes(&mut out, &self._reserved_);
        append_bytes(&mut out, &le_bytes_u32(self.input_port));
        append_bytes(&mut out, &le_bytes_u32(self.output_port));
        append_bytes(&mut out, &le_bytes_u32(self.input_port_size));
        append_bytes(&mut out, &le_bytes_u32(self.output_port_size));
        append_bytes(&mut out, &le_bytes_u32(self.input_port_type));
        append_bytes(&mut out, &le_bytes_u32(self.output_port_type));
        out.push(self.clear_acknowledgement);
        append_bytes(&mut out, &self._reserved_2);
        proof {
            lemma_ext_voltage_control_bytes_pieces(*self);
        }
        out
    }
}

/// How the bytes of a ExtVoltageControl split up into its fields.
pub proof fn lemma_ext_voltage_control_bytes_pieces(x: ExtVoltageControl)
    ensures
        x.spec_bytes().len() == 32,
        x.spec_bytes()[0] == x.spec_enabled(),
        x.spec_bytes().subrange(1, 4) == x.spec__reserved_()@,
        x.spec_bytes().subrange(4, 8) == spec_u32_to_le_bytes(x.spec_input_port()),
        x.spec_bytes().subrange(8, 12) == spec_u32_to_le_bytes(x.spec_output_port()),
        x.spec_bytes().subrange(12, 16) == spec_u32_to_le_bytes(x.spec_input_port_size()),
        x.spec_bytes().subrange(16, 20) == spec_u32_to_le_bytes(x.spec_output_port_size()),
        x.spec_bytes().subrange(20, 24) == spec_u32_to_le_bytes(x.spec_input_port_type()),
        x.spec_bytes().subrange(24, 28) == spec_u32_to_le_bytes(x.spec_output_port_type()),
        x.spec_bytes()[28] == x.spec_clear_acknowledgement(),
        x.spec_bytes().subrange(29, 32) == x.spec__reserved_2()@,
{
    lemma_auto_spec_u16_to_from_le_bytes();
    lemma_auto_spec_u32_to_from_le_bytes();
    lemma_auto_spec_u64_to_from_le_bytes();
    assert(x.spec_bytes().subrange(1, 4) == x._reserved_@);
    assert(x.spec_bytes().subrange(4, 8) == spec_u32_to_le_bytes(x.input_port));
    assert(x.spec_bytes().subrange(8, 12) == spec_u32_to_le_bytes(x.output_port));
    assert(x.spec_bytes().subrange(12, 16) == spec_u32_to_le_bytes(x.input_port_size));
    assert(x.spec_bytes().subrange(16, 20) == spec_u32_to_le_bytes(x.output_port_size));
    assert(x.spec_bytes().subrange(20, 24) == spec_u32_to_le_bytes(x.input_port_type));
    assert(x.spec_bytes().subrange(24, 28) == spec_u32_to_le_bytes(x.output_port_type));
    assert(x.spec_bytes().subrange(29, 32) == x._reserved_2@);
}

/// Two values of ExtVoltageControl with the same bytes are the same value.
#[verifier::spinoff_prover]
pub proof fn lemma_ext_voltage_control_bytes_injective(x: ExtVoltageControl, y: ExtVoltageControl)
    requires
        x.spec_bytes() == y.spec_bytes(),
    ensures
        x == y,
{
    lemma_ext_voltage_control_bytes_pieces(x);
    lemma_ext_voltage_control_bytes_pieces(y);
    lemma_auto_spec_u16_to_from_le_bytes();
    lemma_auto_spec_u32_to_from_le_bytes();
    lemma_auto_spec_u64_to_from_le_bytes();
    assert(x.enabled == y.enabled);
    assert(x._reserved_@ == x.spec_bytes().subrange(1, 4));
    assert(x._reserved_ =~= y._reserved_);
    assert(spec_u32_from_le_bytes(spec_u32_to_le_bytes(x.input_port)) == spec_u32_from_le_bytes(spec_u32_to_le_bytes(y.input_port)));
    assert(spec_u32_from_le_bytes(spec_u32_to_le_bytes(x.output_port)) == spec_u32_from_le_bytes(spec_u32_to_le_bytes(y.output_port)));
    assert(spec_u32_from_le_bytes(spec_u32_to_le_bytes(x.input_port_size)) == spec_u32_from_le_bytes(spec_u32_to_le_bytes(y.input_port_size)));
    assert(spec_u32_from_le_bytes(spec_u32_to_le_bytes(x.output_port_size)) == spec_u32_from_le_bytes(spec_u32_to_le_bytes(y.output_port_size)));
    assert(spec_u32_from_le_bytes(spec_u32_to_le_bytes(x.input_port_type)) == spec_u32_from_le_bytes(spec_u32_to_le_bytes(y.input_port_type)));
    assert(spec_u32_from_le_bytes(spec_u32_to_le_bytes(x.output_port_type)) == spec_u32_from_le_bytes(spec_u32_to_le_bytes(y.output_port_type)));
    assert(x.clear_acknowledgement == y.clear_acknowledgement);
    assert(x._reserved_2@ == x.spec_bytes().subrange(29, 32));
    assert(x._reserved_2 =~= y._reserved_2);
}

impl Default for ExtVoltageControl {
    fn default() -> (r: Self)
        ensures
            r.spec_enabled() == 0,
            r.spec__reserved_() == [0u8, 0u8, 0u8],
            r.spec_input_port() == 0x84,
            r.spec_output_port() == 0x80,
            r.spec_input_port_size() == 4,
            r.spec_output_port_size() == 4,
            r.spec_input_port_type() == 6,
            r.spec_output_port_type() == 6,
            r.spec_clear_acknowledgement() == 0,
            r.spec__reserved_2() == [0u8, 0u8, 0u8],
    {
        ExtVoltageControl { enabled: 0, _reserved_: [0, 0, 0], input_port: 0x84, output_port: 0x80, input_port_size: 4, output_port_size: 4, input_port_type: 6, output_port_type: 6, clear_acknowledgement: 0, _reserved_2: [0, 0, 0] }
    }
}

impl EntryCompatible for ExtVoltageControl {
    fn is_entry_compatible(entry_id: EntryId, _prefix: &[u8]) -> (r: bool)
        ensures
            r == (entry_id == EntryId::Memory(MemoryEntryId::ExtVoltageControl)),
    {
        matches!(entry_id, EntryId::Memory(MemoryEntryId::ExtVoltageControl))
    }
}

impl ExtVoltageControl {
    /// An enabled controller with the given ports ("input" and "output" as the PSP sees them);
    /// the rest as in the default.
    pub fn new_enabled(
        input_port_type: PortType,
        input_port: u32,
        input_port_size: PortSize,
        output_port_type: PortType,
        output_port: u32,
        output_port_size: PortSize,
        clear_acknowledgement: bool,
    ) -> (r: Self)
        ensures
            r.spec_enabled() == 1,
            r.spec__reserved_() == [0u8, 0u8, 0u8],
            r.spec_input_port() == input_port,
            r.spec_output_port() == output_port,
            r.spec_input_port_size() == input_port_size.spec_to_u64() as u32,
            r.spec_output_port_size() == output_port_size.spec_to_u64() as u32,
            r.spec_input_port_type() == input_port_type.spec_to_u64() as u32,
            r.spec_output_port_type() == output_port_type.spec_to_u64() as u32,
            r.spec_clear_acknowledgement() == spec_raw_of_bool(clear_acknowledgement),
            r.spec__reserved_2() == [0u8, 0u8, 0u8],
    {
        let mut result = Self::default();
        result.set_enabled(true);
        result.set_input_port_type(input_port_type);
        result.set_input_port(input_port);
        result.set_input_port_size(input_port_size);
        result.set_output_port_type(output_port_type);
        result.set_output_port(output_port);
        result.set_output_port_size(output_port_size);
        result.set_clear_acknowledgement(clear_acknowledgement);
        result
    }

    /// A disabled controller: the default.
    pub fn new_disabled() -> (r: Self)
        ensures
            r.spec_enabled() == 0,
            r.spec__reserved_() == [0u8, 0u8, 0u8],
            r.spec_input_port() == 0x84,
            r.spec_output_port() == 0x80,
            r.spec_input_port_size() == 4,
            r.spec_output_port_size() == 4,
            r.spec_input_port_type() == 6,
            r.spec_output_port_type() == 6,
            r.spec_clear_acknowledgement() == 0,
            r.spec__reserved_2() == [0u8, 0u8, 0u8],
    {
        Self::default()
    }
}

/// The ranks that a DIMM may have; several set bits allow any of them
/// (single_rank and dual_rank together allow either).
#[derive(Debug, Clone, Copy, PartialEq, Eq, Structural)]
pub struct Ddr4DimmRanks(u8);

impl Ddr4DimmRanks {
    /// The packed bits.
    pub closed spec fn spec_raw(self) -> u8 {
        self.0
    }

    /// The value with the given packed bits.
    pub closed spec fn spec_from_raw(raw: u8) -> Self {
        Ddr4DimmRanks(raw)
    }

    /// The packed bits determine the value, and any packed bits make a value.
    pub proof fn lemma_raw(x: Self, raw: u8)
        ensures
            Self::spec_from_raw(raw).spec_raw() == raw,
            Self::spec_from_raw(x.spec_raw()) == x,
    {
    }

    pub open spec fn spec_unpopulated(self) -> bool {
        spec_field_u8(self.spec_raw(), 0, 1) == 1
    }

    pub open spec fn spec_single_rank(self) -> bool {
        spec_field_u8(self.spec_raw(), 1, 1) == 1
    }

    pub open spec fn spec_dual_rank(self) -> bool {
        spec_field_u8(self.spec_raw(), 2, 1) == 1
    }

    pub open spec fn spec_quad_rank(self) -> bool {
        spec_field_u8(self.spec_raw(), 3, 1) == 1
    }

    /// All bits clear.
    pub fn new() -> (r: Self)
        ensures
            r.spec_raw() == 0,
    {
        Ddr4DimmRanks(0)
    }

    /// The value with the given packed bits.
    pub fn from_raw(raw: u8) -> (r: Self)
        ensures
            r.spec_raw() == raw,
            r == Self::spec_from_raw(raw),
    {
        Ddr4DimmRanks(raw)
    }

    /// The packed bits.
    pub fn into_raw(self) -> (r: u8)
        ensures
            r == self.spec_raw(),
    {
        self.0
    }

    pub fn unpopulated(&self) -> (r: bool)
        ensures
            r == self.spec_unpopulated(),
    {
        field_u8(self.0, 0, 1) == 1
    }

    pub fn set_unpopulated(&mut self, value: bool)
        ensures
            final(self).spec_raw() == spec_with_field_u8(old(self).spec_raw(), 0, 1, (if value { 1u8 } else { 0u8 })),
            final(self).spec_unpopulated() == value,
            final(self).spec_single_rank() == old(self).spec_single_rank(),
            final(self).spec_dual_rank() == old(self).spec_dual_rank(),
            final(self).spec_quad_rank() == old(self).spec_quad_rank(),
    {
        let x: u8 = if value { 1 } else { 0 };
        let ghost old_raw = self.0;
        proof {
            lemma_shift_table_u8();
            lemma_with_field_same_u8(old_raw, 0, 1, x);
            lemma_with_field_other_u8(old_raw, 0, 1, x, 1, 1);
            lemma_with_field_other_u8(old_raw, 0, 1, x, 2, 1);
            lemma_with_field_other_u8(old_raw, 0, 1, x, 3, 1);
        }
        self.0 = with_field_u8(self.0, 0, 1, x);
    }

    pub fn with_unpopulated(self, value: bool) -> (r: Self)
        ensures
            r.spec_raw() == spec_with_field_u8(self.spec_raw(), 0, 1, (if value { 1u8 } else { 0u8 })),
            r.spec_unpopulated() == value,
            r.spec_single_rank() == self.spec_single_rank(),
            r.spec_dual_rank() == self.spec_dual_rank(),
            r.spec_quad_rank() == self.spec_quad_rank(),
    {
        let mut r = self;
        r.set_unpopulated(value);
        r
    }

    pub fn single_rank(&self) -> (r: bool)
        ensures
            r == self.spec_single_rank(),
    {
        field_u8(self.0, 1, 1) == 1
    }

    pub fn set_single_rank(&mut self, value: bool)
        ensures
            final(self).spec_raw() == spec_with_field_u8(old(self).spec_raw(), 1, 1, (if value { 1u8 } else { 0u8 })),
            final(self).spec_single_rank() == value,
            final(self).spec_unpopulated() == old(self).spec_unpopulated(),
            final(self).spec_dual_rank() == old(self).spec_dual_rank(),
            final(self).spec_quad_rank() == old(self).spec_quad_rank(),
    {
        let x: u8 = if value { 1 } else { 0 };
        let ghost old_raw = self.0;
        proof {
            lemma_shift_table_u8();
            lemma_with_field_same_u8(old_raw, 1, 1, x);
            lemma_with_field_other_u8(old_raw, 1, 1, x, 0, 1);
            lemma_with_field_other_u8(old_raw, 1, 1, x, 2, 1);
            lemma_with_field_other_u8(old_raw, 1, 1, x, 3, 1);
        }
        self.0 = with_field_u8(self.0, 1, 1, x);
    }

    pub fn with_single_rank(self, value: bool) -> (r: Self)
        ensures
            r.spec_raw() == spec_with_field_u8(self.spec_raw(), 1, 1, (if value { 1u8 } else { 0u8 })),
            r.spec_single_rank() == value,
            r.spec_unpopulated() == self.spec_unpopulated(),
            r.spec_dual_rank() == self.spec_dual_rank(),
            r.spec_quad_rank() == self.spec_quad_rank(),
    {
        let mut r = self;
        r.set_single_rank(value);
        r
    }

    pub fn dual_rank(&self) -> (r: bool)
        ensures
            r == self.spec_dual_rank(),
    {
        field_u8(self.0, 2, 1) == 1
    }

    pub fn set_dual_rank(&mut self, value: bool)
        ensures
            final(self).spec_raw() == spec_with_field_u8(old(self).spec_raw(), 2, 1, (if value { 1u8 } else { 0u8 })),
            final(self).spec_dual_rank() == value,
            final(self).spec_unpopulated() == old(self).spec_unpopulated(),
            final(self).spec_single_rank() == old(self).spec_single_rank(),
            final(self).spec_quad_rank() == old(self).spec_quad_rank(),
    {
        let x: u8 = if value { 1 } else { 0 };
        let ghost old_raw = self.0;
        proof {
            lemma_shift_table_u8();
            lemma_with_field_same_u8(old_raw, 2, 1, x);
            lemma_with_field_other_u8(old_raw, 2, 1, x, 0, 1);
            lemma_with_field_other_u8(old_raw, 2, 1, x, 1, 1);
            lemma_with_field_other_u8(old_raw, 2, 1, x, 3, 1);
        }
        self.0 = with_field_u8(self.0, 2, 1, x);
    }

    pub fn with_dual_rank(self, value: bool) -> (r: Self)
        ensures
            r.spec_raw() == spec_with_field_u8(self.spec_raw(), 2, 1, (if value { 1u8 } else { 0u8 })),
            r.spec_dual_rank() == value,
            r.spec_unpopulated() == self.spec_unpopulated(),
            r.spec_single_rank() == self.spec_single_rank(),
            r.spec_quad_rank() == self.spec_quad_rank(),
    {
        let mut r = self;
        r.set_dual_rank(value);
        r
    }

    pub fn quad_rank(&self) -> (r: bool)
        ensures
            r == self.spec_quad_rank(),
    {
        field_u8(self.0, 3, 1) == 1
    }

    pub fn set_quad_rank(&mut self, value: bool)
        ensures
            final(self).spec_raw() == spec_with_field_u8(old(self).spec_raw(), 3, 1, (if value { 1u8 } else { 0u8 })),
            final(self).spec_quad_rank() == value,
            final(self).spec_unpopulated() == old(self).spec_unpopulated(),
            final(self).spec_single_rank() == old(self).spec_single_rank(),
            final(self).spec_dual_rank() == old(self).spec_dual_rank(),
    {
        let x: u8 = if value { 1 } else { 0 };
        let ghost old_raw = self.0;
        proof {
            lemma_shift_table_u8();
            lemma_with_field_same_u8(old_raw, 3, 1, x);
            lemma_with_field_other_u8(old_raw, 3, 1, x, 0, 1);
            lemma_with_field_other_u8(old_raw, 3, 1, x, 1, 1);
            lemma_with_field_other_u8(old_raw, 3, 1, x, 2, 1);
        }
        self.0 = with_field_u8(self.0, 3, 1, x);
    }

    pub fn with_quad_rank(self, value: bool) -> (r: Self)
        ensures
            r.spec_raw() == spec_with_field_u8(self.spec_raw(), 3, 1, (if value { 1u8 } else { 0u8 })),
            r.spec_quad_rank() == value,
            r.spec_unpopulated() == self.spec_unpopulated(),
            r.spec_single_rank() == self.spec_single_rank(),
            r.spec_dual_rank() == self.spec_dual_rank(),
    {
        let mut r = self;
        r.set_quad_rank(value);
        r
    }

    /// The bits that have a meaning; the others are reserved.
    pub const VALID_BITS: u64 = 0xf;

    /// Whether VALUE leaves all reserved bits clear.
    pub fn all_reserved_bits_are_unused(value: u64) -> (r: bool)
        ensures
            r == (value & !0xfu64 == 0),
    {
        value & !Self::VALID_BITS == 0
    }

    pub fn from_u64(value: u64) -> (r: Option<Self>)
        ensures
            r is Some <==> (value & !0xfu64 == 0 && value <= 0xff),
            r matches Some(x) ==> x.spec_raw() == value,
    {
        if Self::all_reserved_bits_are_unused(value) {
            if value <= 0xff {
                Some(Ddr4DimmRanks(value as u8))
            } else {
                None
            }
        } else {
            None
        }
    }

    pub fn from_i64(value: i64) -> (r: Option<Self>)
        ensures
            r is Some <==> (value >= 0 && (value as u64) & !0xfu64 == 0 && value <= 0xff),
            r matches Some(x) ==> x.spec_raw() == value,
    {
        if value >= 0 {
            Self::from_u64(value as u64)
        } else {
            None
        }
    }

    pub fn to_u64(&self) -> (r: Option<u64>)
        ensures
            r == Some(self.spec_raw() as u64),
    {
        Some(self.0 as u64)
    }

    pub fn to_i64(&self) -> (r: Option<i64>)
        ensures
            r == Some(self.spec_raw() as i64),
    {
        Some(self.0 as i64)
    }

}

impl Default for Ddr4DimmRanks {
    fn default() -> (r: Self)
        ensures
            r.spec_raw() == 0,
    {
        Self::new()
    }
}

/// The kinds of LRDIMM slot population allowed; several set bits allow any of them.
#[derive(Debug, Clone, Copy, PartialEq, Eq, Structural)]
pub struct LrdimmDdr4DimmRanks(u8);

impl LrdimmDdr4DimmRanks {
    /// The packed bits.
    pub closed spec fn spec_raw(self) -> u8 {
        self.0
    }

    /// The value with the given packed bits.
    pub closed spec fn spec_from_raw(raw: u8) -> Self {
        LrdimmDdr4DimmRanks(raw)
    }

    /// The packed bits determine the value, and any packed bits make a value.
    pub proof fn lemma_raw(x: Self, raw: u8)
        ensures
            Self::spec_from_raw(raw).spec_raw() == raw,
            Self::spec_from_raw(x.spec_raw()) == x,
    {
    }

    pub open spec fn spec_unpopulated(self) -> bool {
        spec_field_u8(self.spec_raw(), 0, 1) == 1
    }

    pub open spec fn spec_lr(self) -> bool {
        spec_field_u8(self.spec_raw(), 1, 1) == 1
    }

    /// All bits clear.
    pub fn new() -> (r: Self)
        ensures
            r.spec_raw() == 0,
    {
        LrdimmDdr4DimmRanks(0)
    }

    /// The value with the given packed bits.
    pub fn from_raw(raw: u8) -> (r: Self)
        ensures
            r.spec_raw() == raw,
            r == Self::spec_from_raw(raw),
    {
        LrdimmDdr4DimmRanks(raw)
    }

    /// The packed bits.
    pub fn into_raw(self) -> (r: u8)
        ensures
            r == self.spec_raw(),
    {
        self.0
    }

    pub fn unpopulated(&self) -> (r: bool)
        ensures
            r == self.spec_unpopulated(),
    {
        field_u8(self.0, 0, 1) == 1
    }

    pub fn set_unpopulated(&mut self, value: bool)
        ensures
            final(self).spec_raw() == spec_with_field_u8(old(self).spec_raw(), 0, 1, (if value { 1u8 } else { 0u8 })),
            final(self).spec_unpopulated() == value,
            final(self).spec_lr() == old(self).spec_lr(),
    {
        let x: u8 = if value { 1 } else { 0 };
        let ghost old_raw = self.0;
        proof {
            lemma_shift_table_u8();
            lemma_with_field_same_u8(old_raw, 0, 1, x);
            lemma_with_field_other_u8(old_raw, 0, 1, x, 1, 1);
        }
        self.0 = with_field_u8(self.0, 0, 1, x);
    }

    pub fn with_unpopulated(self, value: bool) -> (r: Self)
        ensures
            r.spec_raw() == spec_with_field_u8(self.spec_raw(), 0, 1, (if value { 1u8 } else { 0u8 })),
            r.spec_unpopulated() == value,
            r.spec_lr() == self.spec_lr(),
    {
        let mut r = self;
        r.set_unpopulated(value);
        r
    }

    pub fn lr(&self) -> (r: bool)
        ensures
            r == self.spec_lr(),
    {
        field_u8(self.0, 1, 1) == 1
    }

    pub fn set_lr(&mut self, value: bool)
        ensures
            final(self).spec_raw() == spec_with_field_u8(old(self).spec_raw(), 1, 1, (if value { 1u8 } else { 0u8 })),
            final(self).spec_lr() == value,
            final(self).spec_unpopulated() == old(self).spec_unpopulated(),
    {
        let x: u8 = if value { 1 } else { 0 };
        let ghost old_raw = self.0;
        proof {
            lemma_shift_table_u8();
            lemma_with_field_same_u8(old_raw, 1, 1, x);
            lemma_with_field_other_u8(old_raw, 1, 1, x, 0, 1);
        }
        self.0 = with_field_u8(self.0, 1, 1, x);
    }

    pub fn with_lr(self, value: bool) -> (r: Self)
        ensures
            r.spec_raw() == spec_with_field_u8(self.spec_raw(), 1, 1, (if value { 1u8 } else { 0u8 })),
            r.spec_lr() == value,
            r.spec_unpopulated() == self.spec_unpopulated(),
    {
        let mut r = self;
        r.set_lr(value);
        r
    }

    /// The bits that have a meaning; the others are reserved.
    pub const VALID_BITS: u64 = 0x3;

    /// Whether VALUE leaves all reserved bits clear.
    pub fn all_reserved_bits_are_unused(value: u64) -> (r: bool)
        ensures
            r == (value & !0x3u64 == 0),
    {
        value & !Self::VALID_BITS == 0
    }

    pub fn from_u64(value: u64) -> (r: Option<Self>)
        ensures
            r is Some <==> (value & !0x3u64 == 0 && value <= 0xff),
            r matches Some(x) ==> x.spec_raw() == value,
    {
        if Self::all_reserved_bits_are_unused(value) {
            if value <= 0xff {
                Some(LrdimmDdr4DimmRanks(value as u8))
            } else {
                None
            }
        } else {
            None
        }
    }

    pub fn from_i64(value: i64) -> (r: Option<Self>)
        ensures
            r is Some <==> (value >= 0 && (value as u64) & !0x3u64 == 0 && value <= 0xff),
            r matches Some(x) ==> x.spec_raw() == value,
    {
        if value >= 0 {
            Self::from_u64(value as u64)
        } else {
            None
        }
    }

    pub fn to_u64(&self) -> (r: Option<u64>)
        ensures
            r == Some(self.spec_raw() as u64),
    {
        Some(self.0 as u64)
    }

    pub fn to_i64(&self) -> (r: Option<i64>)
        ensures
            r == Some(self.spec_raw() as i64),
    {
        Some(self.0 as i64)
    }

}

impl Default for LrdimmDdr4DimmRanks {
    fn default() -> (r: Self)
        ensures
            r.spec_raw() == 0,
    {
        Self::new()
    }
}

/// The drive strength of a command/address bus signal.
#[derive(Debug, PartialEq, Eq, Clone, Copy, Structural)]
pub enum CadBusClkDriveStrength {
    Auto,
    _120Ohm,
    _60Ohm,
    _40Ohm,
    _30Ohm,
    _24Ohm,
    _20Ohm,
}

impl CadBusClkDriveStrength {
    /// The number that stands for this value.
    pub open spec fn spec_to_u64(self) -> u64 {
        match self {
            CadBusClkDriveStrength::Auto => 0xff,
            CadBusClkDriveStrength::_120Ohm => 0x0,
            CadBusClkDriveStrength::_60Ohm => 0x1,
            CadBusClkDriveStrength::_40Ohm => 0x3,
            CadBusClkDriveStrength::_30Ohm => 0x7,
            CadBusClkDriveStrength::_24Ohm => 0xf,
            CadBusClkDriveStrength::_20Ohm => 0x1f,
        }
    }

    /// The value that VALUE stands for, if any.
    pub open spec fn spec_from_u64(value: u64) -> Option<CadBusClkDriveStrength> {
        match value {
            0xff => Some(CadBusClkDriveStrength::Auto),
            0x0 => Some(CadBusClkDriveStrength::_120Ohm),
            0x1 => Some(CadBusClkDriveStrength::_60Ohm),
            0x3 => Some(CadBusClkDriveStrength::_40Ohm),
            0x7 => Some(CadBusClkDriveStrength::_30Ohm),
            0xf => Some(CadBusClkDriveStrength::_24Ohm),
            0x1f => Some(CadBusClkDriveStrength::_20Ohm),
            _ => None,
        }
    }

    pub fn from_u64(value: u64) -> (r: Option<CadBusClkDriveStrength>)
        ensures
            r == CadBusClkDriveStrength::spec_from_u64(value),
    {
        match value {
            0xff => Some(CadBusClkDriveStrength::Auto),
            0x0 => Some(CadBusClkDriveStrength::_120Ohm),
            0x1 => Some(CadBusClkDriveStrength::_60Ohm),
            0x3 => Some(CadBusClkDriveStrength::_40Ohm),
            0x7 => Some(CadBusClkDriveStrength::_30Ohm),
            0xf => Some(CadBusClkDriveStrength::_24Ohm),
            0x1f => Some(CadBusClkDriveStrength::_20Ohm),
            _ => None,
        }
    }

    pub fn to_u64(&self) -> (r: Option<u64>)
        ensures
            r == Some(self.spec_to_u64()),
    {
        Some(
            match self {
                CadBusClkDriveStrength::Auto => 0xff,
                CadBusClkDriveStrength::_120Ohm => 0x0,
                CadBusClkDriveStrength::_60Ohm => 0x1,
                CadBusClkDriveStrength::_40Ohm => 0x3,
                CadBusClkDriveStrength::_30Ohm => 0x7,
                CadBusClkDriveStrength::_24Ohm => 0xf,
                CadBusClkDriveStrength::_20Ohm => 0x1f,
            },
        )
    }
}

/// Every value of CadBusClkDriveStrength is read back from its own number, and every number that is
/// read as a value is that value's number.
pub proof fn lemma_cad_bus_clk_drive_strength_roundtrip(x: CadBusClkDriveStrength, value: u64)
    ensures
        CadBusClkDriveStrength::spec_from_u64(x.spec_to_u64()) == Some(x),
        CadBusClkDriveStrength::spec_from_u64(value) matches Some(y) ==> y.spec_to_u64() == value,
{
}

impl CadBusClkDriveStrength {
    /// What the name of this value says: the impedance, in ohms (0 for the values that do not name one).
    pub open spec fn spec_ohms(self) -> int {
        match self {
            CadBusClkDriveStrength::_120Ohm => 120,
            CadBusClkDriveStrength::_60Ohm => 60,
            CadBusClkDriveStrength::_40Ohm => 40,
            CadBusClkDriveStrength::_30Ohm => 30,
            CadBusClkDriveStrength::_24Ohm => 24,
            CadBusClkDriveStrength::_20Ohm => 20,
            CadBusClkDriveStrength::Auto => 0,
        }
    }
}

/// The numbers of the values follow what their names say: of two values that name one,
/// the one with the larger named quantity has the smaller number; each other value has a number of its own.
pub proof fn lemma_cad_bus_clk_drive_strength_numbers_follow_names(x: CadBusClkDriveStrength, y: CadBusClkDriveStrength)
    ensures
        (x != CadBusClkDriveStrength::Auto && y != CadBusClkDriveStrength::Auto) ==> (x.spec_ohms() < y.spec_ohms() <==> x.spec_to_u64() > y.spec_to_u64()),
        x == CadBusClkDriveStrength::Auto <==> x.spec_to_u64() == 255,
{
}

/// The drive strength of the address/command signals.
pub type CadBusAddressCommandDriveStrength = CadBusClkDriveStrength;

/// The drive strength of the CKE signals.
pub type CadBusCkeDriveStrength = CadBusClkDriveStrength;

/// The drive strength of the CS and ODT signals.
pub type CadBusCsOdtDriveStrength = CadBusClkDriveStrength;

/// The DDR rates that a setting applies to (one bit each).
#[derive(Debug, Clone, Copy, PartialEq, Eq, Structural)]
pub struct DdrRates(u32);

impl DdrRates {
    /// The packed bits.
    pub closed spec fn spec_raw(self) -> u32 {
        self.0
    }

    /// The value with the given packed bits.
    pub closed spec fn spec_from_raw(raw: u32) -> Self {
        DdrRates(raw)
    }

    /// The packed bits determine the value, and any packed bits make a value.
    pub proof fn lemma_raw(x: Self, raw: u32)
        ensures
            Self::spec_from_raw(raw).spec_raw() == raw,
            Self::spec_from_raw(x.spec_raw()) == x,
    {
    }

    pub open spec fn spec_ddr400(self) -> bool {
        spec_field_u32(self.spec_raw(), 3, 1) == 1
    }

    pub open spec fn spec_ddr533(self) -> bool {
        spec_field_u32(self.spec_raw(), 4, 1) == 1
    }

    pub open spec fn spec_ddr667(self) -> bool {
        spec_field_u32(self.spec_raw(), 5, 1) == 1
    }

    pub open spec fn spec_ddr800(self) -> bool {
        spec_field_u32(self.spec_raw(), 6, 1) == 1
    }

    pub open spec fn spec_ddr1066(self) -> bool {
        spec_field_u32(self.spec_raw(), 8, 1) == 1
    }

    pub open spec fn spec_ddr1333(self) -> bool {
        spec_field_u32(self.spec_raw(), 10, 1) == 1
    }

    pub open spec fn spec_ddr1600(self) -> bool {
        spec_field_u32(self.spec_raw(), 12, 1) == 1
    }

    pub open spec fn spec_ddr1866(self) -> bool {
        spec_field_u32(self.spec_raw(), 14, 1) == 1
    }

    pub open spec fn spec_ddr2133(self) -> bool {
        spec_field_u32(self.spec_raw(), 16, 1) == 1
    }

    pub open spec fn spec_ddr2400(self) -> bool {
        spec_field_u32(self.spec_raw(), 18, 1) == 1
    }

    pub open spec fn spec_ddr2667(self) -> bool {
        spec_field_u32(self.spec_raw(), 20, 1) == 1
    }

    pub open spec fn spec_ddr2933(self) -> bool {
        spec_field_u32(self.spec_raw(), 22, 1) == 1
    }

    pub open spec fn spec_ddr3200(self) -> bool {
        spec_field_u32(self.spec_raw(), 24, 1) == 1
    }

    /// All bits clear.
    pub fn new() -> (r: Self)
        ensures
            r.spec_raw() == 0,
    {
        DdrRates(0)
    }

    /// The value with the given packed bits.
    pub fn from_raw(raw: u32) -> (r: Self)
        ensures
            r.spec_raw() == raw,
            r == Self::spec_from_raw(raw),
    {
        DdrRates(raw)
    }

    /// The packed bits.
    pub fn into_raw(self) -> (r: u32)
        ensures
            r == self.spec_raw(),
    {
        self.0
    }

    pub fn ddr400(&self) -> (r: bool)
        ensures
            r == self.spec_ddr400(),
    {
        field_u32(self.0, 3, 1) == 1
    }

    pub fn set_ddr400(&mut self, value: bool)
        ensures
            final(self).spec_raw() == spec_with_field_u32(old(self).spec_raw(), 3, 1, (if value { 1u32 } else { 0u32 })),
            final(self).spec_ddr400() == value,
            final(self).spec_ddr533() == old(self).spec_ddr533(),
            final(self).spec_ddr667() == old(self).spec_ddr667(),
            final(self).spec_ddr800() == old(self).spec_ddr800(),
            final(self).spec_ddr1066() == old(self).spec_ddr1066(),
            final(self).spec_ddr1333() == old(self).spec_ddr1333(),
            final(self).spec_ddr1600() == old(self).spec_ddr1600(),
            final(self).spec_ddr1866() == old(self).spec_ddr1866(),
            final(self).spec_ddr2133() == old(self).spec_ddr2133(),
            final(self).spec_ddr2400() == old(self).spec_ddr2400(),
            final(self).spec_ddr2667() == old(self).spec_ddr2667(),
            final(self).spec_ddr2933() == old(self).spec_ddr2933(),
            final(self).spec_ddr3200() == old(self).spec_ddr3200(),
    {
        let x: u32 = if value { 1 } else { 0 };
        let ghost old_raw = self.0;
        proof {
            lemma_shift_table_u32();
            lemma_with_field_same_u32(old_raw, 3, 1, x);
            lemma_with_field_other_u32(old_raw, 3, 1, x, 4, 1);
            lemma_with_field_other_u32(old_raw, 3, 1, x, 5, 1);
            lemma_with_field_other_u32(old_raw, 3, 1, x, 6, 1);
            lemma_with_field_other_u32(old_raw, 3, 1, x, 8, 1);
            lemma_with_field_other_u32(old_raw, 3, 1, x, 10, 1);
            lemma_with_field_other_u32(old_raw, 3, 1, x, 12, 1);
            lemma_with_field_other_u32(old_raw, 3, 1, x, 14, 1);
            lemma_with_field_other_u32(old_raw, 3, 1, x, 16, 1);
            lemma_with_field_other_u32(old_raw, 3, 1, x, 18, 1);
            lemma_with_field_other_u32(old_raw, 3, 1, x, 20, 1);
            lemma_with_field_other_u32(old_raw, 3, 1, x, 22, 1);
            lemma_with_field_other_u32(old_raw, 3, 1, x, 24, 1);
        }
        self.0 = with_field_u32(self.0, 3, 1, x);
    }

    pub fn with_ddr400(self, value: bool) -> (r: Self)
        ensures
            r.spec_raw() == spec_with_field_u32(self.spec_raw(), 3, 1, (if value { 1u32 } else { 0u32 })),
            r.spec_ddr400() == value,
            r.spec_ddr533() == self.spec_ddr533(),
            r.spec_ddr667() == self.spec_ddr667(),
            r.spec_ddr800() == self.spec_ddr800(),
            r.spec_ddr1066() == self.spec_ddr1066(),
            r.spec_ddr1333() == self.spec_ddr1333(),
            r.spec_ddr1600() == self.spec_ddr1600(),
            r.spec_ddr1866() == self.spec_ddr1866(),
            r.spec_ddr2133() == self.spec_ddr2133(),
            r.spec_ddr2400() == self.spec_ddr2400(),
            r.spec_ddr2667() == self.spec_ddr2667(),
            r.spec_ddr2933() == self.spec_ddr2933(),
            r.spec_ddr3200() == self.spec_ddr3200(),
    {
        let mut r = self;
        r.set_ddr400(value);
        r
    }

    pub fn ddr533(&self) -> (r: bool)
        ensures
            r == self.spec_ddr533(),
    {
        field_u32(self.0, 4, 1) == 1
    }

    pub fn set_ddr533(&mut self, value: bool)
        ensures
            final(self).spec_raw() == spec_with_field_u32(old(self).spec_raw(), 4, 1, (if value { 1u32 } else { 0u32 })),
            final(self).spec_ddr533() == value,
            final(self).spec_ddr400() == old(self).spec_ddr400(),
            final(self).spec_ddr667() == old(self).spec_ddr667(),
            final(self).spec_ddr800() == old(self).spec_ddr800(),
            final(self).spec_ddr1066() == old(self).spec_ddr1066(),
            final(self).spec_ddr1333() == old(self).spec_ddr1333(),
            final(self).spec_ddr1600() == old(self).spec_ddr1600(),
            final(self).spec_ddr1866() == old(self).spec_ddr1866(),
            final(self).spec_ddr2133() == old(self).spec_ddr2133(),
            final(self).spec_ddr2400() == old(self).spec_ddr2400(),
            final(self).spec_ddr2667() == old(self).spec_ddr2667(),
            final(self).spec_ddr2933() == old(self).spec_ddr2933(),
            final(self).spec_ddr3200() == old(self).spec_ddr3200(),
    {
        let x: u32 = if value { 1 } else { 0 };
        let ghost old_raw = self.0;
        proof {
            lemma_shift_table_u32();
            lemma_with_field_same_u32(old_raw, 4, 1, x);
            lemma_with_field_other_u32(old_raw, 4, 1, x, 3, 1);
            lemma_with_field_other_u32(old_raw, 4, 1, x, 5, 1);
            lemma_with_field_other_u32(old_raw, 4, 1, x, 6, 1);
            lemma_with_field_other_u32(old_raw, 4, 1, x, 8, 1);
            lemma_with_field_other_u32(old_raw, 4, 1, x, 10, 1);
            lemma_with_field_other_u32(old_raw, 4, 1, x, 12, 1);
            lemma_with_field_other_u32(old_raw, 4, 1, x, 14, 1);
            lemma_with_field_other_u32(old_raw, 4, 1, x, 16, 1);
            lemma_with_field_other_u32(old_raw, 4, 1, x, 18, 1);
            lemma_with_field_other_u32(old_raw, 4, 1, x, 20, 1);
            lemma_with_field_other_u32(old_raw, 4, 1, x, 22, 1);
            lemma_with_field_other_u32(old_raw, 4, 1, x, 24, 1);
        }
        self.0 = with_field_u32(self.0, 4, 1, x);
    }

    pub fn with_ddr533(self, value: bool) -> (r: Self)
        ensures
            r.spec_raw() == spec_with_field_u32(self.spec_raw(), 4, 1, (if value { 1u32 } else { 0u32 })),
            r.spec_ddr533() == value,
            r.spec_ddr400() == self.spec_ddr400(),
            r.spec_ddr667() == self.spec_ddr667(),
            r.spec_ddr800() == self.spec_ddr800(),
            r.spec_ddr1066() == self.spec_ddr1066(),
            r.spec_ddr1333() == self.spec_ddr1333(),
            r.spec_ddr1600() == self.spec_ddr1600(),
            r.spec_ddr1866() == self.spec_ddr1866(),
            r.spec_ddr2133() == self.spec_ddr2133(),
            r.spec_ddr2400() == self.spec_ddr2400(),
            r.spec_ddr2667() == self.spec_ddr2667(),
            r.spec_ddr2933() == self.spec_ddr2933(),
            r.spec_ddr3200() == self.spec_ddr3200(),
    {
        let mut r = self;
        r.set_ddr533(value);
        r
    }

    pub fn ddr667(&self) -> (r: bool)
        ensures
            r == self.spec_ddr667(),
    {
        field_u32(self.0, 5, 1) == 1
    }

    pub fn set_ddr667(&mut self, value: bool)
        ensures
            final(self).spec_raw() == spec_with_field_u32(old(self).spec_raw(), 5, 1, (if value { 1u32 } else { 0u32 })),
            final(self).spec_ddr667() == value,
            final(self).spec_ddr400() == old(self).spec_ddr400(),
            final(self).spec_ddr533() == old(self).spec_ddr533(),
            final(self).spec_ddr800() == old(self).spec_ddr800(),
            final(self).spec_ddr1066() == old(self).spec_ddr1066(),
            final(self).spec_ddr1333() == old(self).spec_ddr1333(),
            final(self).spec_ddr1600() == old(self).spec_ddr1600(),
            final(self).spec_ddr1866() == old(self).spec_ddr1866(),
            final(self).spec_ddr2133() == old(self).spec_ddr2133(),
            final(self).spec_ddr2400() == old(self).spec_ddr2400(),
            final(self).spec_ddr2667() == old(self).spec_ddr2667(),
            final(self).spec_ddr2933() == old(self).spec_ddr2933(),
            final(self).spec_ddr3200() == old(self).spec_ddr3200(),
    {
        let x: u32 = if value { 1 } else { 0 };
        let ghost old_raw = self.0;
        proof {
            lemma_shift_table_u32();
            lemma_with_field_same_u32(old_raw, 5, 1, x);
            lemma_with_field_other_u32(old_raw, 5, 1, x, 3, 1);
            lemma_with_field_other_u32(old_raw, 5, 1, x, 4, 1);
            lemma_with_field_other_u32(old_raw, 5, 1, x, 6, 1);
            lemma_with_field_other_u32(old_raw, 5, 1, x, 8, 1);
            lemma_with_field_other_u32(old_raw, 5, 1, x, 10, 1);
            lemma_with_field_other_u32(old_raw, 5, 1, x, 12, 1);
            lemma_with_field_other_u32(old_raw, 5, 1, x, 14, 1);
            lemma_with_field_other_u32(old_raw, 5, 1, x, 16, 1);
            lemma_with_field_other_u32(old_raw, 5, 1, x, 18, 1);
            lemma_with_field_other_u32(old_raw, 5, 1, x, 20, 1);
            lemma_with_field_other_u32(old_raw, 5, 1, x, 22, 1);
            lemma_with_field_other_u32(old_raw, 5, 1, x, 24, 1);
        }
        self.0 = with_field_u32(self.0, 5, 1, x);
    }

    pub fn with_ddr667(self, value: bool) -> (r: Self)
        ensures
            r.spec_raw() == spec_with_field_u32(self.spec_raw(), 5, 1, (if value { 1u32 } else { 0u32 })),
            r.spec_ddr667() == value,
            r.spec_ddr400() == self.spec_ddr400(),
            r.spec_ddr533() == self.spec_ddr533(),
            r.spec_ddr800() == self.spec_ddr800(),
            r.spec_ddr1066() == self.spec_ddr1066(),
            r.spec_ddr1333() == self.spec_ddr1333(),
            r.spec_ddr1600() == self.spec_ddr1600(),
            r.spec_ddr1866() == self.spec_ddr1866(),
            r.spec_ddr2133() == self.spec_ddr2133(),
            r.spec_ddr2400() == self.spec_ddr2400(),
            r.spec_ddr2667() == self.spec_ddr2667(),
            r.spec_ddr2933() == self.spec_ddr2933(),
            r.spec_ddr3200() == self.spec_ddr3200(),
    {
        let mut r = self;
        r.set_ddr667(value);
        r
    }

    pub fn ddr800(&self) -> (r: bool)
        ensures
            r == self.spec_ddr800(),
    {
        field_u32(self.0, 6, 1) == 1
    }

    pub fn set_ddr800(&mut self, value: bool)
        ensures
            final(self).spec_raw() == spec_with_field_u32(old(self).spec_raw(), 6, 1, (if value { 1u32 } else { 0u32 })),
            final(self).spec_ddr800() == value,
            final(self).spec_ddr400() == old(self).spec_ddr400(),
            final(self).spec_ddr533() == old(self).spec_ddr533(),
            final(self).spec_ddr667() == old(self).spec_ddr667(),
            final(self).spec_ddr1066() == old(self).spec_ddr1066(),
            final(self).spec_ddr1333() == old(self).spec_ddr1333(),
            final(self).spec_ddr1600() == old(self).spec_ddr1600(),
            final(self).spec_ddr1866() == old(self).spec_ddr1866(),
            final(self).spec_ddr2133() == old(self).spec_ddr2133(),
            final(self).spec_ddr2400() == old(self).spec_ddr2400(),
            final(self).spec_ddr2667() == old(self).spec_ddr2667(),
            final(self).spec_ddr2933() == old(self).spec_ddr2933(),
            final(self).spec_ddr3200() == old(self).spec_ddr3200(),
    {
        let x: u32 = if value { 1 } else { 0 };
        let ghost old_raw = self.0;
        proof {
            lemma_shift_table_u32();
            lemma_with_field_same_u32(old_raw, 6, 1, x);
            lemma_with_field_other_u32(old_raw, 6, 1, x, 3, 1);
            lemma_with_field_other_u32(old_raw, 6, 1, x, 4, 1);
            lemma_with_field_other_u32(old_raw, 6, 1, x, 5, 1);
            lemma_with_field_other_u32(old_raw, 6, 1, x, 8, 1);
            lemma_with_field_other_u32(old_raw, 6, 1, x, 10, 1);
            lemma_with_field_other_u32(old_raw, 6, 1, x, 12, 1);
            lemma_with_field_other_u32(old_raw, 6, 1, x, 14, 1);
            lemma_with_field_other_u32(old_raw, 6, 1, x, 16, 1);
            lemma_with_field_other_u32(old_raw, 6, 1, x, 18, 1);
            lemma_with_field_other_u32(old_raw, 6, 1, x, 20, 1);
            lemma_with_field_other_u32(old_raw, 6, 1, x, 22, 1);
            lemma_with_field_other_u32(old_raw, 6, 1, x, 24, 1);
        }
        self.0 = with_field_u32(self.0, 6, 1, x);
    }

    pub fn with_ddr800(self, value: bool) -> (r: Self)
        ensures
            r.spec_raw() == spec_with_field_u32(self.spec_raw(), 6, 1, (if value { 1u32 } else { 0u32 })),
            r.spec_ddr800() == value,
            r.spec_ddr400() == self.spec_ddr400(),
            r.spec_ddr533() == self.spec_ddr533(),
            r.spec_ddr667() == self.spec_ddr667(),
            r.spec_ddr1066() == self.spec_ddr1066(),
            r.spec_ddr1333() == self.spec_ddr1333(),
            r.spec_ddr1600() == self.spec_ddr1600(),
            r.spec_ddr1866() == self.spec_ddr1866(),
            r.spec_ddr2133() == self.spec_ddr2133(),
            r.spec_ddr2400() == self.spec_ddr2400(),
            r.spec_ddr2667() == self.spec_ddr2667(),
            r.spec_ddr2933() == self.spec_ddr2933(),
            r.spec_ddr3200() == self.spec_ddr3200(),
    {
        let mut r = self;
        r.set_ddr800(value);
        r
    }

    pub fn ddr1066(&self) -> (r: bool)
        ensures
            r == self.spec_ddr1066(),
    {
        field_u32(self.0, 8, 1) == 1
    }

    pub fn set_ddr1066(&mut self, value: bool)
        ensures
            final(self).spec_raw() == spec_with_field_u32(old(self).spec_raw(), 8, 1, (if value { 1u32 } else { 0u32 })),
            final(self).spec_ddr1066() == value,
            final(self).spec_ddr400() == old(self).spec_ddr400(),
            final(self).spec_ddr533() == old(self).spec_ddr533(),
            final(self).spec_ddr667() == old(self).spec_ddr667(),
            final(self).spec_ddr800() == old(self).spec_ddr800(),
            final(self).spec_ddr1333() == old(self).spec_ddr1333(),
            final(self).spec_ddr1600() == old(self).spec_ddr1600(),
            final(self).spec_ddr1866() == old(self).spec_ddr1866(),
            final(self).spec_ddr2133() == old(self).spec_ddr2133(),
            final(self).spec_ddr2400() == old(self).spec_ddr2400(),
            final(self).spec_ddr2667() == old(self).spec_ddr2667(),
            final(self).spec_ddr2933() == old(self).spec_ddr2933(),
            final(self).spec_ddr3200() == old(self).spec_ddr3200(),
    {
        let x: u32 = if value { 1 } else { 0 };
        let ghost old_raw = self.0;
        proof {
            lemma_shift_table_u32();
            lemma_with_field_same_u32(old_raw, 8, 1, x);
            lemma_with_field_other_u32(old_raw, 8, 1, x, 3, 1);
            lemma_with_field_other_u32(old_raw, 8, 1, x, 4, 1);
            lemma_with_field_other_u32(old_raw, 8, 1, x, 5, 1);
            lemma_with_field_other_u32(old_raw, 8, 1, x, 6, 1);
            lemma_with_field_other_u32(old_raw, 8, 1, x, 10, 1);
            lemma_with_field_other_u32(old_raw, 8, 1, x, 12, 1);
            lemma_with_field_other_u32(old_raw, 8, 1, x, 14, 1);
            lemma_with_field_other_u32(old_raw, 8, 1, x, 16, 1);
            lemma_with_field_other_u32(old_raw, 8, 1, x, 18, 1);
            lemma_with_field_other_u32(old_raw, 8, 1, x, 20, 1);
            lemma_with_field_other_u32(old_raw, 8, 1, x, 22, 1);
            lemma_with_field_other_u32(old_raw, 8, 1, x, 24, 1);
        }
        self.0 = with_field_u32(self.0, 8, 1, x);
    }

    pub fn with_ddr1066(self, value: bool) -> (r: Self)
        ensures
            r.spec_raw() == spec_with_field_u32(self.spec_raw(), 8, 1, (if value { 1u32 } else { 0u32 })),
            r.spec_ddr1066() == value,
            r.spec_ddr400() == self.spec_ddr400(),
            r.spec_ddr533() == self.spec_ddr533(),
            r.spec_ddr667() == self.spec_ddr667(),
            r.spec_ddr800() == self.spec_ddr800(),
            r.spec_ddr1333() == self.spec_ddr1333(),
            r.spec_ddr1600() == self.spec_ddr1600(),
            r.spec_ddr1866() == self.spec_ddr1866(),
            r.spec_ddr2133() == self.spec_ddr2133(),
            r.spec_ddr2400() == self.spec_ddr2400(),
            r.spec_ddr2667() == self.spec_ddr2667(),
            r.spec_ddr2933() == self.spec_ddr2933(),
            r.spec_ddr3200() == self.spec_ddr3200(),
    {
        let mut r = self;
        r.set_ddr1066(value);
        r
    }

    pub fn ddr1333(&self) -> (r: bool)
        ensures
            r == self.spec_ddr1333(),
    {
        field_u32(self.0, 10, 1) == 1
    }

    pub fn set_ddr1333(&mut self, value: bool)
        ensures
            final(self).spec_raw() == spec_with_field_u32(old(self).spec_raw(), 10, 1, (if value { 1u32 } else { 0u32 })),
            final(self).spec_ddr1333() == value,
            final(self).spec_ddr400() == old(self).spec_ddr400(),
            final(self).spec_ddr533() == old(self).spec_ddr533(),
            final(self).spec_ddr667() == old(self).spec_ddr667(),
            final(self).spec_ddr800() == old(self).spec_ddr800(),
            final(self).spec_ddr1066() == old(self).spec_ddr1066(),
            final(self).spec_ddr1600() == old(self).spec_ddr1600(),
            final(self).spec_ddr1866() == old(self).spec_ddr1866(),
            final(self).spec_ddr2133() == old(self).spec_ddr2133(),
            final(self).spec_ddr2400() == old(self).spec_ddr2400(),
            final(self).spec_ddr2667() == old(self).spec_ddr2667(),
            final(self).spec_ddr2933() == old(self).spec_ddr2933(),
            final(self).spec_ddr3200() == old(self).spec_ddr3200(),
    {
        let x: u32 = if value { 1 } else { 0 };
        let ghost old_raw = self.0;
        proof {
            lemma_shift_table_u32();
            lemma_with_field_same_u32(old_raw, 10, 1, x);
            lemma_with_field_other_u32(old_raw, 10, 1, x, 3, 1);
            lemma_with_field_other_u32(old_raw, 10, 1, x, 4, 1);
            lemma_with_field_other_u32(old_raw, 10, 1, x, 5, 1);
            lemma_with_field_other_u32(old_raw, 10, 1, x, 6, 1);
            lemma_with_field_other_u32(old_raw, 10, 1, x, 8, 1);
            lemma_with_field_other_u32(old_raw, 10, 1, x, 12, 1);
            lemma_with_field_other_u32(old_raw, 10, 1, x, 14, 1);
            lemma_with_field_other_u32(old_raw, 10, 1, x, 16, 1);
            lemma_with_field_other_u32(old_raw, 10, 1, x, 18, 1);
            lemma_with_field_other_u32(old_raw, 10, 1, x, 20, 1);
            lemma_with_field_other_u32(old_raw, 10, 1, x, 22, 1);
            lemma_with_field_other_u32(old_raw, 10, 1, x, 24, 1);
        }
        self.0 = with_field_u32(self.0, 10, 1, x);
    }

    pub fn with_ddr1333(self, value: bool) -> (r: Self)
        ensures
            r.spec_raw() == spec_with_field_u32(self.spec_raw(), 10, 1, (if value { 1u32 } else { 0u32 })),
            r.spec_ddr1333() == value,
            r.spec_ddr400() == self.spec_ddr400(),
            r.spec_ddr533() == self.spec_ddr533(),
            r.spec_ddr667() == self.spec_ddr667(),
            r.spec_ddr800() == self.spec_ddr800(),
            r.spec_ddr1066() == self.spec_ddr1066(),
            r.spec_ddr1600() == self.spec_ddr1600(),
            r.spec_ddr1866() == self.spec_ddr1866(),
            r.spec_ddr2133() == self.spec_ddr2133(),
            r.spec_ddr2400() == self.spec_ddr2400(),
            r.spec_ddr2667() == self.spec_ddr2667(),
            r.spec_ddr2933() == self.spec_ddr2933(),
            r.spec_ddr3200() == self.spec_ddr3200(),
    {
        let mut r = self;
        r.set_ddr1333(value);
        r
    }

    pub fn ddr1600(&self) -> (r: bool)
        ensures
            r == self.spec_ddr1600(),
    {
        field_u32(self.0, 12, 1) == 1
    }

    pub fn set_ddr1600(&mut self, value: bool)
        ensures
            final(self).spec_raw() == spec_with_field_u32(old(self).spec_raw(), 12, 1, (if value { 1u32 } else { 0u32 })),
            final(self).spec_ddr1600() == value,
            final(self).spec_ddr400() == old(self).spec_ddr400(),
            final(self).spec_ddr533() == old(self).spec_ddr533(),
            final(self).spec_ddr667() == old(self).spec_ddr667(),
            final(self).spec_ddr800() == old(self).spec_ddr800(),
            final(self).spec_ddr1066() == old(self).spec_ddr1066(),
            final(self).spec_ddr1333() == old(self).spec_ddr1333(),
            final(self).spec_ddr1866() == old(self).spec_ddr1866(),
            final(self).spec_ddr2133() == old(self).spec_ddr2133(),
            final(self).spec_ddr2400() == old(self).spec_ddr2400(),
            final(self).spec_ddr2667() == old(self).spec_ddr2667(),
            final(self).spec_ddr2933() == old(self).spec_ddr2933(),
            final(self).spec_ddr3200() == old(self).spec_ddr3200(),
    {
        let x: u32 = if value { 1 } else { 0 };
        let ghost old_raw = self.0;
        proof {
            lemma_shift_table_u32();
            lemma_with_field_same_u32(old_raw, 12, 1, x);
            lemma_with_field_other_u32(old_raw, 12, 1, x, 3, 1);
            lemma_with_field_other_u32(old_raw, 12, 1, x, 4, 1);
            lemma_with_field_other_u32(old_raw, 12, 1, x, 5, 1);
            lemma_with_field_other_u32(old_raw, 12, 1, x, 6, 1);
            lemma_with_field_other_u32(old_raw, 12, 1, x, 8, 1);
            lemma_with_field_other_u32(old_raw, 12, 1, x, 10, 1);
            lemma_with_field_other_u32(old_raw, 12, 1, x, 14, 1);
            lemma_with_field_other_u32(old_raw, 12, 1, x, 16, 1);
            lemma_with_field_other_u32(old_raw, 12, 1, x, 18, 1);
            lemma_with_field_other_u32(old_raw, 12, 1, x, 20, 1);
            lemma_with_field_other_u32(old_raw, 12, 1, x, 22, 1);
            lemma_with_field_other_u32(old_raw, 12, 1, x, 24, 1);
        }
        self.0 = with_field_u32(self.0, 12, 1, x);
    }

    pub fn with_ddr1600(self, value: bool) -> (r: Self)
        ensures
            r.spec_raw() == spec_with_field_u32(self.spec_raw(), 12, 1, (if value { 1u32 } else { 0u32 })),
            r.spec_ddr1600() == value,
            r.spec_ddr400() == self.spec_ddr400(),
            r.spec_ddr533() == self.spec_ddr533(),
            r.spec_ddr667() == self.spec_ddr667(),
            r.spec_ddr800() == self.spec_ddr800(),
            r.spec_ddr1066() == self.spec_ddr1066(),
            r.spec_ddr1333() == self.spec_ddr1333(),
            r.spec_ddr1866() == self.spec_ddr1866(),
            r.spec_ddr2133() == self.spec_ddr2133(),
            r.spec_ddr2400() == self.spec_ddr2400(),
            r.spec_ddr2667() == self.spec_ddr2667(),
            r.spec_ddr2933() == self.spec_ddr2933(),
            r.spec_ddr3200() == self.spec_ddr3200(),
    {
        let mut r = self;
        r.set_ddr1600(value);
        r
    }

    pub fn ddr1866(&self) -> (r: bool)
        ensures
            r == self.spec_ddr1866(),
    {
        field_u32(self.0, 14, 1) == 1
    }

    pub fn set_ddr1866(&mut self, value: bool)
        ensures
            final(self).spec_raw() == spec_with_field_u32(old(self).spec_raw(), 14, 1, (if value { 1u32 } else { 0u32 })),
            final(self).spec_ddr1866() == value,
            final(self).spec_ddr400() == old(self).spec_ddr400(),
            final(self).spec_ddr533() == old(self).spec_ddr533(),
            final(self).spec_ddr667() == old(self).spec_ddr667(),
            final(self).spec_ddr800() == old(self).spec_ddr800(),
            final(self).spec_ddr1066() == old(self).spec_ddr1066(),
            final(self).spec_ddr1333() == old(self).spec_ddr1333(),
            final(self).spec_ddr1600() == old(self).spec_ddr1600(),
            final(self).spec_ddr2133() == old(self).spec_ddr2133(),
            final(self).spec_ddr2400() == old(self).spec_ddr2400(),
            final(self).spec_ddr2667() == old(self).spec_ddr2667(),
            final(self).spec_ddr2933() == old(self).spec_ddr2933(),
            final(self).spec_ddr3200() == old(self).spec_ddr3200(),
    {
        let x: u32 = if value { 1 } else { 0 };
        let ghost old_raw = self.0;
        proof {
            lemma_shift_table_u32();
            lemma_with_field_same_u32(old_raw, 14, 1, x);
            lemma_with_field_other_u32(old_raw, 14, 1, x, 3, 1);
            lemma_with_field_other_u32(old_raw, 14, 1, x, 4, 1);
            lemma_with_field_other_u32(old_raw, 14, 1, x, 5, 1);
            lemma_with_field_other_u32(old_raw, 14, 1, x, 6, 1);
            lemma_with_field_other_u32(old_raw, 14, 1, x, 8, 1);
            lemma_with_field_other_u32(old_raw, 14, 1, x, 10, 1);
            lemma_with_field_other_u32(old_raw, 14, 1, x, 12, 1);
            lemma_with_field_other_u32(old_raw, 14, 1, x, 16, 1);
            lemma_with_field_other_u32(old_raw, 14, 1, x, 18, 1);
            lemma_with_field_other_u32(old_raw, 14, 1, x, 20, 1);
            lemma_with_field_other_u32(old_raw, 14, 1, x, 22, 1);
            lemma_with_field_other_u32(old_raw, 14, 1, x, 24, 1);
        }
        self.0 = with_field_u32(self.0, 14, 1, x);
    }

    pub fn with_ddr1866(self, value: bool) -> (r: Self)
        ensures
            r.spec_raw() == spec_with_field_u32(self.spec_raw(), 14, 1, (if value { 1u32 } else { 0u32 })),
            r.spec_ddr1866() == value,
            r.spec_ddr400() == self.spec_ddr400(),
            r.spec_ddr533() == self.spec_ddr533(),
            r.spec_ddr667() == self.spec_ddr667(),
            r.spec_ddr800() == self.spec_ddr800(),
            r.spec_ddr1066() == self.spec_ddr1066(),
            r.spec_ddr1333() == self.spec_ddr1333(),
            r.spec_ddr1600() == self.spec_ddr1600(),
            r.spec_ddr2133() == self.spec_ddr2133(),
            r.spec_ddr2400() == self.spec_ddr2400(),
            r.spec_ddr2667() == self.spec_ddr2667(),
            r.spec_ddr2933() == self.spec_ddr2933(),
            r.spec_ddr3200() == self.spec_ddr3200(),
    {
        let mut r = self;
        r.set_ddr1866(value);
        r
    }

    pub fn ddr2133(&self) -> (r: bool)
        ensures
            r == self.spec_ddr2133(),
    {
        field_u32(self.0, 16, 1) == 1
    }

    pub fn set_ddr2133(&mut self, value: bool)
        ensures
            final(self).spec_raw() == spec_with_field_u32(old(self).spec_raw(), 16, 1, (if value { 1u32 } else { 0u32 })),
            final(self).spec_ddr2133() == value,
            final(self).spec_ddr400() == old(self).spec_ddr400(),
            final(self).spec_ddr533() == old(self).spec_ddr533(),
            final(self).spec_ddr667() == old(self).spec_ddr667(),
            final(self).spec_ddr800() == old(self).spec_ddr800(),
            final(self).spec_ddr1066() == old(self).spec_ddr1066(),
            final(self).spec_ddr1333() == old(self).spec_ddr1333(),
            final(self).spec_ddr1600() == old(self).spec_ddr1600(),
            final(self).spec_ddr1866() == old(self).spec_ddr1866(),
            final(self).spec_ddr2400() == old(self).spec_ddr2400(),
            final(self).spec_ddr2667() == old(self).spec_ddr2667(),
            final(self).spec_ddr2933() == old(self).spec_ddr2933(),
            final(self).spec_ddr3200() == old(self).spec_ddr3200(),
    {
        let x: u32 = if value { 1 } else { 0 };
        let ghost old_raw = self.0;
        proof {
            lemma_shift_table_u32();
            lemma_with_field_same_u32(old_raw, 16, 1, x);
            lemma_with_field_other_u32(old_raw, 16, 1, x, 3, 1);
            lemma_with_field_other_u32(old_raw, 16, 1, x, 4, 1);
            lemma_with_field_other_u32(old_raw, 16, 1, x, 5, 1);
            lemma_with_field_other_u32(old_raw, 16, 1, x, 6, 1);
            lemma_with_field_other_u32(old_raw, 16, 1, x, 8, 1);
            lemma_with_field_other_u32(old_raw, 16, 1, x, 10, 1);
            lemma_with_field_other_u32(old_raw, 16, 1, x, 12, 1);
            lemma_with_field_other_u32(old_raw, 16, 1, x, 14, 1);
            lemma_with_field_other_u32(old_raw, 16, 1, x, 18, 1);
            lemma_with_field_other_u32(old_raw, 16, 1, x, 20, 1);
            lemma_with_field_other_u32(old_raw, 16, 1, x, 22, 1);
            lemma_with_field_other_u32(old_raw, 16, 1, x, 24, 1);
        }
        self.0 = with_field_u32(self.0, 16, 1, x);
    }

    pub fn with_ddr2133(self, value: bool) -> (r: Self)
        ensures
            r.spec_raw() == spec_with_field_u32(self.spec_raw(), 16, 1, (if value { 1u32 } else { 0u32 })),
            r.spec_ddr2133() == value,
            r.spec_ddr400() == self.spec_ddr400(),
            r.spec_ddr533() == self.spec_ddr533(),
            r.spec_ddr667() == self.spec_ddr667(),
            r.spec_ddr800() == self.spec_ddr800(),
            r.spec_ddr1066() == self.spec_ddr1066(),
            r.spec_ddr1333() == self.spec_ddr1333(),
            r.spec_ddr1600() == self.spec_ddr1600(),
            r.spec_ddr1866() == self.spec_ddr1866(),
            r.spec_ddr2400() == self.spec_ddr2400(),
            r.spec_ddr2667() == self.spec_ddr2667(),
            r.spec_ddr2933() == self.spec_ddr2933(),
            r.spec_ddr3200() == self.spec_ddr3200(),
    {
        let mut r = self;
        r.set_ddr2133(value);
        r
    }

    pub fn ddr2400(&self) -> (r: bool)
        ensures
            r == self.spec_ddr2400(),
    {
        field_u32(self.0, 18, 1) == 1
    }

    pub fn set_ddr2400(&mut self, value: bool)
        ensures
            final(self).spec_raw() == spec_with_field_u32(old(self).spec_raw(), 18, 1, (if value { 1u32 } else { 0u32 })),
            final(self).spec_ddr2400() == value,
            final(self).spec_ddr400() == old(self).spec_ddr400(),
            final(self).spec_ddr533() == old(self).spec_ddr533(),
            final(self).spec_ddr667() == old(self).spec_ddr667(),
            final(self).spec_ddr800() == old(self).spec_ddr800(),
            final(self).spec_ddr1066() == old(self).spec_ddr1066(),
            final(self).spec_ddr1333() == old(self).spec_ddr1333(),
            final(self).spec_ddr1600() == old(self).spec_ddr1600(),
            final(self).spec_ddr1866() == old(self).spec_ddr1866(),
            final(self).spec_ddr2133() == old(self).spec_ddr2133(),
            final(self).spec_ddr2667() == old(self).spec_ddr2667(),
            final(self).spec_ddr2933() == old(self).spec_ddr2933(),
            final(self).spec_ddr3200() == old(self).spec_ddr3200(),
    {
        let x: u32 = if value { 1 } else { 0 };
        let ghost old_raw = self.0;
        proof {
            lemma_shift_table_u32();
            lemma_with_field_same_u32(old_raw, 18, 1, x);
            lemma_with_field_other_u32(old_raw, 18, 1, x, 3, 1);
            lemma_with_field_other_u32(old_raw, 18, 1, x, 4, 1);
            lemma_with_field_other_u32(old_raw, 18, 1, x, 5, 1);
            lemma_with_field_other_u32(old_raw, 18, 1, x, 6, 1);
            lemma_with_field_other_u32(old_raw, 18, 1, x, 8, 1);
            lemma_with_field_other_u32(old_raw, 18, 1, x, 10, 1);
            lemma_with_field_other_u32(old_raw, 18, 1, x, 12, 1);
            lemma_with_field_other_u32(old_raw, 18, 1, x, 14, 1);
            lemma_with_field_other_u32(old_raw, 18, 1, x, 16, 1);
            lemma_with_field_other_u32(old_raw, 18, 1, x, 20, 1);
            lemma_with_field_other_u32(old_raw, 18, 1, x, 22, 1);
            lemma_with_field_other_u32(old_raw, 18, 1, x, 24, 1);
        }
        self.0 = with_field_u32(self.0, 18, 1, x);
    }

    pub fn with_ddr2400(self, value: bool) -> (r: Self)
        ensures
            r.spec_raw() == spec_with_field_u32(self.spec_raw(), 18, 1, (if value { 1u32 } else { 0u32 })),
            r.spec_ddr2400() == value,
            r.spec_ddr400() == self.spec_ddr400(),
            r.spec_ddr533() == self.spec_ddr533(),
            r.spec_ddr667() == self.spec_ddr667(),
            r.spec_ddr800() == self.spec_ddr800(),
            r.spec_ddr1066() == self.spec_ddr1066(),
            r.spec_ddr1333() == self.spec_ddr1333(),
            r.spec_ddr1600() == self.spec_ddr1600(),
            r.spec_ddr1866() == self.spec_ddr1866(),
            r.spec_ddr2133() == self.spec_ddr2133(),
            r.spec_ddr2667() == self.spec_ddr2667(),
            r.spec_ddr2933() == self.spec_ddr2933(),
            r.spec_ddr3200() == self.spec_ddr3200(),
    {
        let mut r = self;
        r.set_ddr2400(value);
        r
    }

    pub fn ddr2667(&self) -> (r: bool)
        ensures
            r == self.spec_ddr2667(),
    {
        field_u32(self.0, 20, 1) == 1
    }

    pub fn set_ddr2667(&mut self, value: bool)
        ensures
            final(self).spec_raw() == spec_with_field_u32(old(self).spec_raw(), 20, 1, (if value { 1u32 } else { 0u32 })),
            final(self).spec_ddr2667() == value,
            final(self).spec_ddr400() == old(self).spec_ddr400(),
            final(self).spec_ddr533() == old(self).spec_ddr533(),
            final(self).spec_ddr667() == old(self).spec_ddr667(),
            final(self).spec_ddr800() == old(self).spec_ddr800(),
            final(self).spec_ddr1066() == old(self).spec_ddr1066(),
            final(self).spec_ddr1333() == old(self).spec_ddr1333(),
            final(self).spec_ddr1600() == old(self).spec_ddr1600(),
            final(self).spec_ddr1866() == old(self).spec_ddr1866(),
            final(self).spec_ddr2133() == old(self).spec_ddr2133(),
            final(self).spec_ddr2400() == old(self).spec_ddr2400(),
            final(self).spec_ddr2933() == old(self).spec_ddr2933(),
            final(self).spec_ddr3200() == old(self).spec_ddr3200(),
    {
        let x: u32 = if value { 1 } else { 0 };
        let ghost old_raw = self.0;
        proof {
            lemma_shift_table_u32();
            lemma_with_field_same_u32(old_raw, 20, 1, x);
            lemma_with_field_other_u32(old_raw, 20, 1, x, 3, 1);
            lemma_with_field_other_u32(old_raw, 20, 1, x, 4, 1);
            lemma_with_field_other_u32(old_raw, 20, 1, x, 5, 1);
            lemma_with_field_other_u32(old_raw, 20, 1, x, 6, 1);
            lemma_with_field_other_u32(old_raw, 20, 1, x, 8, 1);
            lemma_with_field_other_u32(old_raw, 20, 1, x, 10, 1);
            lemma_with_field_other_u32(old_raw, 20, 1, x, 12, 1);
            lemma_with_field_other_u32(old_raw, 20, 1, x, 14, 1);
            lemma_with_field_other_u32(old_raw, 20, 1, x, 16, 1);
            lemma_with_field_other_u32(old_raw, 20, 1, x, 18, 1);
            lemma_with_field_other_u32(old_raw, 20, 1, x, 22, 1);
            lemma_with_field_other_u32(old_raw, 20, 1, x, 24, 1);
        }
        self.0 = with_field_u32(self.0, 20, 1, x);
    }

    pub fn with_ddr2667(self, value: bool) -> (r: Self)
        ensures
            r.spec_raw() == spec_with_field_u32(self.spec_raw(), 20, 1, (if value { 1u32 } else { 0u32 })),
            r.spec_ddr2667() == value,
            r.spec_ddr400() == self.spec_ddr400(),
            r.spec_ddr533() == self.spec_ddr533(),
            r.spec_ddr667() == self.spec_ddr667(),
            r.spec_ddr800() == self.spec_ddr800(),
            r.spec_ddr1066() == self.spec_ddr1066(),
            r.spec_ddr1333() == self.spec_ddr1333(),
            r.spec_ddr1600() == self.spec_ddr1600(),
            r.spec_ddr1866() == self.spec_ddr1866(),
            r.spec_ddr2133() == self.spec_ddr2133(),
            r.spec_ddr2400() == self.spec_ddr2400(),
            r.spec_ddr2933() == self.spec_ddr2933(),
            r.spec_ddr3200() == self.spec_ddr3200(),
    {
        let mut r = self;
        r.set_ddr2667(value);
        r
    }

    pub fn ddr2933(&self) -> (r: bool)
        ensures
            r == self.spec_ddr2933(),
    {
        field_u32(self.0, 22, 1) == 1
    }

    pub fn set_ddr2933(&mut self, value: bool)
        ensures
            final(self).spec_raw() == spec_with_field_u32(old(self).spec_raw(), 22, 1, (if value { 1u32 } else { 0u32 })),
            final(self).spec_ddr2933() == value,
            final(self).spec_ddr400() == old(self).spec_ddr400(),
            final(self).spec_ddr533() == old(self).spec_ddr533(),
            final(self).spec_ddr667() == old(self).spec_ddr667(),
            final(self).spec_ddr800() == old(self).spec_ddr800(),
            final(self).spec_ddr1066() == old(self).spec_ddr1066(),
            final(self).spec_ddr1333() == old(self).spec_ddr1333(),
            final(self).spec_ddr1600() == old(self).spec_ddr1600(),
            final(self).spec_ddr1866() == old(self).spec_ddr1866(),
            final(self).spec_ddr2133() == old(self).spec_ddr2133(),
            final(self).spec_ddr2400() == old(self).spec_ddr2400(),
            final(self).spec_ddr2667() == old(self).spec_ddr2667(),
            final(self).spec_ddr3200() == old(self).spec_ddr3200(),
    {
        let x: u32 = if value { 1 } else { 0 };
        let ghost old_raw = self.0;
        proof {
            lemma_shift_table_u32();
            lemma_with_field_same_u32(old_raw, 22, 1, x);
            lemma_with_field_other_u32(old_raw, 22, 1, x, 3, 1);
            lemma_with_field_other_u32(old_raw, 22, 1, x, 4, 1);
            lemma_with_field_other_u32(old_raw, 22, 1, x, 5, 1);
            lemma_with_field_other_u32(old_raw, 22, 1, x, 6, 1);
            lemma_with_field_other_u32(old_raw, 22, 1, x, 8, 1);
            lemma_with_field_other_u32(old_raw, 22, 1, x, 10, 1);
            lemma_with_field_other_u32(old_raw, 22, 1, x, 12, 1);
            lemma_with_field_other_u32(old_raw, 22, 1, x, 14, 1);
            lemma_with_field_other_u32(old_raw, 22, 1, x, 16, 1);
            lemma_with_field_other_u32(old_raw, 22, 1, x, 18, 1);
            lemma_with_field_other_u32(old_raw, 22, 1, x, 20, 1);
            lemma_with_field_other_u32(old_raw, 22, 1, x, 24, 1);
        }
        self.0 = with_field_u32(self.0, 22, 1, x);
    }

    pub fn with_ddr2933(self, value: bool) -> (r: Self)
        ensures
            r.spec_raw() == spec_with_field_u32(self.spec_raw(), 22, 1, (if value { 1u32 } else { 0u32 })),
            r.spec_ddr2933() == value,
            r.spec_ddr400() == self.spec_ddr400(),
            r.spec_ddr533() == self.spec_ddr533(),
            r.spec_ddr667() == self.spec_ddr667(),
            r.spec_ddr800() == self.spec_ddr800(),
            r.spec_ddr1066() == self.spec_ddr1066(),
            r.spec_ddr1333() == self.spec_ddr1333(),
            r.spec_ddr1600() == self.spec_ddr1600(),
            r.spec_ddr1866() == self.spec_ddr1866(),
            r.spec_ddr2133() == self.spec_ddr2133(),
            r.spec_ddr2400() == self.spec_ddr2400(),
            r.spec_ddr2667() == self.spec_ddr2667(),
            r.spec_ddr3200() == self.spec_ddr3200(),
    {
        let mut r = self;
        r.set_ddr2933(value);
        r
    }

    pub fn ddr3200(&self) -> (r: bool)
        ensures
            r == self.spec_ddr3200(),
    {
        field_u32(self.0, 24, 1) == 1
    }

    pub fn set_ddr3200(&mut self, value: bool)
        ensures
            final(self).spec_raw() == spec_with_field_u32(old(self).spec_raw(), 24, 1, (if value { 1u32 } else { 0u32 })),
            final(self).spec_ddr3200() == value,
            final(self).spec_ddr400() == old(self).spec_ddr400(),
            final(self).spec_ddr533() == old(self).spec_ddr533(),
            final(self).spec_ddr667() == old(self).spec_ddr667(),
            final(self).spec_ddr800() == old(self).spec_ddr800(),
            final(self).spec_ddr1066() == old(self).spec_ddr1066(),
            final(self).spec_ddr1333() == old(self).spec_ddr1333(),
            final(self).spec_ddr1600() == old(self).spec_ddr1600(),
            final(self).spec_ddr1866() == old(self).spec_ddr1866(),
            final(self).spec_ddr2133() == old(self).spec_ddr2133(),
            final(self).spec_ddr2400() == old(self).spec_ddr2400(),
            final(self).spec_ddr2667() == old(self).spec_ddr2667(),
            final(self).spec_ddr2933() == old(self).spec_ddr2933(),
    {
        let x: u32 = if value { 1 } else { 0 };
        let ghost old_raw = self.0;
        proof {
            lemma_shift_table_u32();
            lemma_with_field_same_u32(old_raw, 24, 1, x);
            lemma_with_field_other_u32(old_raw, 24, 1, x, 3, 1);
            lemma_with_field_other_u32(old_raw, 24, 1, x, 4, 1);
            lemma_with_field_other_u32(old_raw, 24, 1, x, 5, 1);
            lemma_with_field_other_u32(old_raw, 24, 1, x, 6, 1);
            lemma_with_field_other_u32(old_raw, 24, 1, x, 8, 1);
            lemma_with_field_other_u32(old_raw, 24, 1, x, 10, 1);
            lemma_with_field_other_u32(old_raw, 24, 1, x, 12, 1);
            lemma_with_field_other_u32(old_raw, 24, 1, x, 14, 1);
            lemma_with_field_other_u32(old_raw, 24, 1, x, 16, 1);
            lemma_with_field_other_u32(old_raw, 24, 1, x, 18, 1);
            lemma_with_field_other_u32(old_raw, 24, 1, x, 20, 1);
            lemma_with_field_other_u32(old_raw, 24, 1, x, 22, 1);
        }
        self.0 = with_field_u32(self.0, 24, 1, x);
    }

    pub fn with_ddr3200(self, value: bool) -> (r: Self)
        ensures
            r.spec_raw() == spec_with_field_u32(self.spec_raw(), 24, 1, (if value { 1u32 } else { 0u32 })),
            r.spec_ddr3200() == value,
            r.spec_ddr400() == self.spec_ddr400(),
            r.spec_ddr533() == self.spec_ddr533(),
            r.spec_ddr667() == self.spec_ddr667(),
            r.spec_ddr800() == self.spec_ddr800(),
            r.spec_ddr1066() == self.spec_ddr1066(),
            r.spec_ddr1333() == self.spec_ddr1333(),
            r.spec_ddr1600() == self.spec_ddr1600(),
            r.spec_ddr1866() == self.spec_ddr1866(),
            r.spec_ddr2133() == self.spec_ddr2133(),
            r.spec_ddr2400() == self.spec_ddr2400(),
            r.spec_ddr2667() == self.spec_ddr2667(),
            r.spec_ddr2933() == self.spec_ddr2933(),
    {
        let mut r = self;
        r.set_ddr3200(value);
        r
    }

    /// The bits that have a meaning; the others are reserved.
    pub const VALID_BITS: u64 = 0x1555578;

    /// Whether VALUE leaves all reserved bits clear.
    pub fn all_reserved_bits_are_unused(value: u64) -> (r: bool)
        ensures
            r == (value & !0x1555578u64 == 0),
    {
        value & !Self::VALID_BITS == 0
    }

    pub fn from_u64(value: u64) -> (r: Option<Self>)
        ensures
            r is Some <==> (value & !0x1555578u64 == 0 && value <= 0xffffffff),
            r matches Some(x) ==> x.spec_raw() == value,
    {
        if Self::all_reserved_bits_are_unused(value) {
            if value <= 0xffffffff {
                Some(DdrRates(value as u32))
            } else {
                None
            }
        } else {
            None
        }
    }

    pub fn from_i64(value: i64) -> (r: Option<Self>)
        ensures
            r is Some <==> (value >= 0 && (value as u64) & !0x1555578u64 == 0 && value <= 0xffffffff),
            r matches Some(x) ==> x.spec_raw() == value,
    {
        if value >= 0 {
            Self::from_u64(value as u64)
        } else {
            None
        }
    }

    pub fn to_u64(&self) -> (r: Option<u64>)
        ensures
            r == Some(self.spec_raw() as u64),
    {
        Some(self.0 as u64)
    }

    pub fn to_i64(&self) -> (r: Option<i64>)
        ensures
            r == Some(self.spec_raw() as i64),
    {
        Some(self.0 as i64)
    }

}

/// The numbers of DIMMs per channel that a setting applies to (one bit each).
#[derive(Debug, Clone, Copy, PartialEq, Eq, Structural)]
pub struct DimmsPerChannelSelector(u32);

impl DimmsPerChannelSelector {
    /// The packed bits.
    pub closed spec fn spec_raw(self) -> u32 {
        self.0
    }

    /// The value with the given packed bits.
    pub closed spec fn spec_from_raw(raw: u32) -> Self {
        DimmsPerChannelSelector(raw)
    }

    /// The packed bits determine the value, and any packed bits make a value.
    pub proof fn lemma_raw(x: Self, raw: u32)
        ensures
            Self::spec_from_raw(raw).spec_raw() == raw,
            Self::spec_from_raw(x.spec_raw()) == x,
    {
    }

    pub open spec fn spec_one_dimm(self) -> bool {
        spec_field_u32(self.spec_raw(), 0, 1) == 1
    }

    pub open spec fn spec_two_dimms(self) -> bool {
        spec_field_u32(self.spec_raw(), 1, 1) == 1
    }

    pub open spec fn spec_three_dimms(self) -> bool {
        spec_field_u32(self.spec_raw(), 2, 1) == 1
    }

    pub open spec fn spec_four_dimms(self) -> bool {
        spec_field_u32(self.spec_raw(), 3, 1) == 1
    }

    /// All bits clear.
    pub fn new() -> (r: Self)
        ensures
            r.spec_raw() == 0,
    {
        DimmsPerChannelSelector(0)
    }

    /// The value with the given packed bits.
    pub fn from_raw(raw: u32) -> (r: Self)
        ensures
            r.spec_raw() == raw,
            r == Self::spec_from_raw(raw),
    {
        DimmsPerChannelSelector(raw)
    }

    /// The packed bits.
    pub fn into_raw(self) -> (r: u32)
        ensures
            r == self.spec_raw(),
    {
        self.0
    }

    pub fn one_dimm(&self) -> (r: bool)
        ensures
            r == self.spec_one_dimm(),
    {
        field_u32(self.0, 0, 1) == 1
    }

    pub fn set_one_dimm(&mut self, value: bool)
        ensures
            final(self).spec_raw() == spec_with_field_u32(old(self).spec_raw(), 0, 1, (if value { 1u32 } else { 0u32 })),
            final(self).spec_one_dimm() == value,
            final(self).spec_two_dimms() == old(self).spec_two_dimms(),
            final(self).spec_three_dimms() == old(self).spec_three_dimms(),
            final(self).spec_four_dimms() == old(self).spec_four_dimms(),
    {
        let x: u32 = if value { 1 } else { 0 };
        let ghost old_raw = self.0;
        proof {
            lemma_shift_table_u32();
            lemma_with_field_same_u32(old_raw, 0, 1, x);
            lemma_with_field_other_u32(old_raw, 0, 1, x, 1, 1);
            lemma_with_field_other_u32(old_raw, 0, 1, x, 2, 1);
            lemma_with_field_other_u32(old_raw, 0, 1, x, 3, 1);
        }
        self.0 = with_field_u32(self.0, 0, 1, x);
    }

    pub fn with_one_dimm(self, value: bool) -> (r: Self)
        ensures
            r.spec_raw() == spec_with_field_u32(self.spec_raw(), 0, 1, (if value { 1u32 } else { 0u32 })),
            r.spec_one_dimm() == value,
            r.spec_two_dimms() == self.spec_two_dimms(),
            r.spec_three_dimms() == self.spec_three_dimms(),
            r.spec_four_dimms() == self.spec_four_dimms(),
    {
        let mut r = self;
        r.set_one_dimm(value);
        r
    }

    pub fn two_dimms(&self) -> (r: bool)
        ensures
            r == self.spec_two_dimms(),
    {
        field_u32(self.0, 1, 1) == 1
    }

    pub fn set_two_dimms(&mut self, value: bool)
        ensures
            final(self).spec_raw() == spec_with_field_u32(old(self).spec_raw(), 1, 1, (if value { 1u32 } else { 0u32 })),
            final(self).spec_two_dimms() == value,
            final(self).spec_one_dimm() == old(self).spec_one_dimm(),
            final(self).spec_three_dimms() == old(self).spec_three_dimms(),
            final(self).spec_four_dimms() == old(self).spec_four_dimms(),
    {
        let x: u32 = if value { 1 } else { 0 };
        let ghost old_raw = self.0;
        proof {
            lemma_shift_table_u32();
            lemma_with_field_same_u32(old_raw, 1, 1, x);
            lemma_with_field_other_u32(old_raw, 1, 1, x, 0, 1);
            lemma_with_field_other_u32(old_raw, 1, 1, x, 2, 1);
            lemma_with_field_other_u32(old_raw, 1, 1, x, 3, 1);
        }
        self.0 = with_field_u32(self.0, 1, 1, x);
    }

    pub fn with_two_dimms(self, value: bool) -> (r: Self)
        ensures
            r.spec_raw() == spec_with_field_u32(self.spec_raw(), 1, 1, (if value { 1u32 } else { 0u32 })),
            r.spec_two_dimms() == value,
            r.spec_one_dimm() == self.spec_one_dimm(),
            r.spec_three_dimms() == self.spec_three_dimms(),
            r.spec_four_dimms() == self.spec_four_dimms(),
    {
        let mut r = self;
        r.set_two_dimms(value);
        r
    }

    pub fn three_dimms(&self) -> (r: bool)
        ensures
            r == self.spec_three_dimms(),
    {
        field_u32(self.0, 2, 1) == 1
    }

    pub fn set_three_dimms(&mut self, value: bool)
        ensures
            final(self).spec_raw() == spec_with_field_u32(old(self).spec_raw(), 2, 1, (if value { 1u32 } else { 0u32 })),
            final(self).spec_three_dimms() == value,
            final(self).spec_one_dimm() == old(self).spec_one_dimm(),
            final(self).spec_two_dimms() == old(self).spec_two_dimms(),
            final(self).spec_four_dimms() == old(self).spec_four_dimms(),
    {
        let x: u32 = if value { 1 } else { 0 };
        let ghost old_raw = self.0;
        proof {
            lemma_shift_table_u32();
            lemma_with_field_same_u32(old_raw, 2, 1, x);
            lemma_with_field_other_u32(old_raw, 2, 1, x, 0, 1);
            lemma_with_field_other_u32(old_raw, 2, 1, x, 1, 1);
            lemma_with_field_other_u32(old_raw, 2, 1, x, 3, 1);
        }
        self.0 = with_field_u32(self.0, 2, 1, x);
    }

    pub fn with_three_dimms(self, value: bool) -> (r: Self)
        ensures
            r.spec_raw() == spec_with_field_u32(self.spec_raw(), 2, 1, (if value { 1u32 } else { 0u32 })),
            r.spec_three_dimms() == value,
            r.spec_one_dimm() == self.spec_one_dimm(),
            r.spec_two_dimms() == self.spec_two_dimms(),
            r.spec_four_dimms() == self.spec_four_dimms(),
    {
        let mut r = self;
        r.set_three_dimms(value);
        r
    }

    pub fn four_dimms(&self) -> (r: bool)
        ensures
            r == self.spec_four_dimms(),
    {
        field_u32(self.0, 3, 1) == 1
    }

    pub fn set_four_dimms(&mut self, value: bool)
        ensures
            final(self).spec_raw() == spec_with_field_u32(old(self).spec_raw(), 3, 1, (if value { 1u32 } else { 0u32 })),
            final(self).spec_four_dimms() == value,
            final(self).spec_one_dimm() == old(self).spec_one_dimm(),
            final(self).spec_two_dimms() == old(self).spec_two_dimms(),
            final(self).spec_three_dimms() == old(self).spec_three_dimms(),
    {
        let x: u32 = if value { 1 } else { 0 };
        let ghost old_raw = self.0;
        proof {
            lemma_shift_table_u32();
            lemma_with_field_same_u32(old_raw, 3, 1, x);
            lemma_with_field_other_u32(old_raw, 3, 1, x, 0, 1);
            lemma_with_field_other_u32(old_raw, 3, 1, x, 1, 1);
            lemma_with_field_other_u32(old_raw, 3, 1, x, 2, 1);
        }
        self.0 = with_field_u32(self.0, 3, 1, x);
    }

    pub fn with_four_dimms(self, value: bool) -> (r: Self)
        ensures
            r.spec_raw() == spec_with_field_u32(self.spec_raw(), 3, 1, (if value { 1u32 } else { 0u32 })),
            r.spec_four_dimms() == value,
            r.spec_one_dimm() == self.spec_one_dimm(),
            r.spec_two_dimms() == self.spec_two_dimms(),
            r.spec_three_dimms() == self.spec_three_dimms(),
    {
        let mut r = self;
        r.set_four_dimms(value);
        r
    }

    /// The bits that have a meaning; the others are reserved.
    pub const VALID_BITS: u64 = 0xf;

    /// Whether VALUE leaves all reserved bits clear.
    pub fn all_reserved_bits_are_unused(value: u64) -> (r: bool)
        ensures
            r == (value & !0xfu64 == 0),
    {
        value & !Self::VALID_BITS == 0
    }

    pub fn from_u64(value: u64) -> (r: Option<Self>)
        ensures
            r is Some <==> (value & !0xfu64 == 0 && value <= 0xffffffff),
            r matches Some(x) ==> x.spec_raw() == value,
    {
        if Self::all_reserved_bits_are_unused(value) {
            if value <= 0xffffffff {
                Some(DimmsPerChannelSelector(value as u32))
            } else {
                None
            }
        } else {
            None
        }
    }

    pub fn from_i64(value: i64) -> (r: Option<Self>)
        ensures
            r is Some <==> (value >= 0 && (value as u64) & !0xfu64 == 0 && value <= 0xffffffff),
            r matches Some(x) ==> x.spec_raw() == value,
    {
        if value >= 0 {
            Self::from_u64(value as u64)
        } else {
            None
        }
    }

    pub fn to_u64(&self) -> (r: Option<u64>)
        ensures
            r == Some(self.spec_raw() as u64),
    {
        Some(self.0 as u64)
    }

    pub fn to_i64(&self) -> (r: Option<i64>)
        ensures
            r == Some(self.spec_raw() as i64),
    {
        Some(self.0 as i64)
    }

}

/// How many DIMMs per channel a setting applies to.
#[derive(Debug, Clone, Copy, PartialEq, Eq, Structural)]
pub enum DimmsPerChannel {
    /// Stored as 0xF0.
    NoSlot,
    /// Stored as 0xFF.
    DontCare,
    Specific(DimmsPerChannelSelector),
}

impl DimmsPerChannel {
    /// The number that stands for this value.
    pub open spec fn spec_to_u64(self) -> u64 {
        match self {
            DimmsPerChannel::NoSlot => 0xf0,
            DimmsPerChannel::DontCare => 0xff,
            DimmsPerChannel::Specific(d) => d.spec_raw() as u64,
        }
    }

    /// Whether this value has a number: a selector must not collide with the two markers.
    pub open spec fn spec_has_number(self) -> bool {
        match self {
            DimmsPerChannel::Specific(d) => d.spec_raw() != 0xf0 && d.spec_raw() != 0xff,
            _ => true,
        }
    }

    /// The value that VALUE stands for, if any.
    pub open spec fn spec_from_u64(value: u64) -> Option<DimmsPerChannel> {
        if value > 0xffff_ffff {
            None
        } else if value == 0xff {
            Some(DimmsPerChannel::DontCare)
        } else if value == 0xf0 {
            Some(DimmsPerChannel::NoSlot)
        } else if value & !0xfu64 == 0 {
            Some(DimmsPerChannel::Specific(DimmsPerChannelSelector::spec_from_raw(value as u32)))
        } else {
            None
        }
    }

    pub fn from_u64(raw_value: u64) -> (r: Option<DimmsPerChannel>)
        ensures
            r == DimmsPerChannel::spec_from_u64(raw_value),
    {
        if raw_value > 0xffff_ffff {
            None
        } else {
            let raw_value: u32 = raw_value as u32;
            if raw_value == 0xff {
                Some(Self::DontCare)
            } else if raw_value == 0xf0 {
                Some(Self::NoSlot)
            } else {
                match DimmsPerChannelSelector::from_u64(raw_value as u64) {
                    Some(selector) => {
                        proof {
                            DimmsPerChannelSelector::lemma_raw(selector, raw_value);
                        }
                        Some(Self::Specific(selector))
                    },
                    None => None,
                }
            }
        }
    }

    pub fn from_i64(raw_value: i64) -> (r: Option<DimmsPerChannel>)
        ensures
            r == (if raw_value >= 0 { DimmsPerChannel::spec_from_u64(raw_value as u64) } else { None }),
    {
        if raw_value >= 0 {
            Self::from_u64(raw_value as u64)
        } else {
            None
        }
    }

    pub fn to_i64(&self) -> (r: Option<i64>)
        requires
            self.spec_has_number(),
        ensures
            r == Some(self.spec_to_u64() as i64),
    {
        match self {
            Self::NoSlot => Some(0xf0),
            Self::DontCare => Some(0xff),
            Self::Specific(dimms) => {
                let value = dimms.to_i64().unwrap();
                Some(value)
            },
        }
    }

    pub fn to_u64(&self) -> (r: Option<u64>)
        requires
            self.spec_has_number(),
        ensures
            r == Some(self.spec_to_u64()),
    {
        match self {
            Self::NoSlot => Some(0xf0),
            Self::DontCare => Some(0xff),
            Self::Specific(dimms) => dimms.to_u64(),
        }
    }
}

/// Reading a number back gives the value that it was read as; and a value with a valid
/// selector is read back from its own number.
pub proof fn lemma_dimms_per_channel_roundtrip(x: DimmsPerChannel, value: u64)
    ensures
        DimmsPerChannel::spec_from_u64(value) matches Some(y) ==> y.spec_has_number() && y.spec_to_u64() == value,
        (x matches DimmsPerChannel::Specific(d) ==> (d.spec_raw() as u64) & !0xfu64 == 0)
            ==> DimmsPerChannel::spec_from_u64(x.spec_to_u64()) == Some(x),
{
    assert(0xf0u64 & !0xfu64 != 0) by (bit_vector);
    assert(0xffu64 & !0xfu64 != 0) by (bit_vector);
    if value <= 0xffff_ffff && value != 0xff && value != 0xf0 && value & !0xfu64 == 0 {
        DimmsPerChannelSelector::lemma_raw(DimmsPerChannelSelector::spec_from_raw(value as u32), value as u32);
    }
    if let DimmsPerChannel::Specific(d) = x {
        DimmsPerChannelSelector::lemma_raw(d, d.spec_raw());
        if (d.spec_raw() as u64) & !0xfu64 == 0 {
            lemma_masked_bound_u64(d.spec_raw() as u64, 0xfu64);
        }
    }
}

/// The RDIMM supply voltages that a setting applies to.
#[derive(Debug, Clone, Copy, PartialEq, Eq, Structural)]
pub struct RdimmDdr4Voltages(u32);

impl RdimmDdr4Voltages {
    /// The packed bits.
    pub closed spec fn spec_raw(self) -> u32 {
        self.0
    }

    /// The value with the given packed bits.
    pub closed spec fn spec_from_raw(raw: u32) -> Self {
        RdimmDdr4Voltages(raw)
    }

    /// The packed bits determine the value, and any packed bits make a value.
    pub proof fn lemma_raw(x: Self, raw: u32)
        ensures
            Self::spec_from_raw(raw).spec_raw() == raw,
            Self::spec_from_raw(x.spec_raw()) == x,
    {
    }

    pub open spec fn spec__1_2V(self) -> bool {
        spec_field_u32(self.spec_raw(), 0, 1) == 1
    }

    /// All bits clear.
    pub fn new() -> (r: Self)
        ensures
            r.spec_raw() == 0,
    {
        RdimmDdr4Voltages(0)
    }

    /// The value with the given packed bits.
    pub fn from_raw(raw: u32) -> (r: Self)
        ensures
            r.spec_raw() == raw,
            r == Self::spec_from_raw(raw),
    {
        RdimmDdr4Voltages(raw)
    }

    /// The packed bits.
    pub fn into_raw(self) -> (r: u32)
        ensures
            r == self.spec_raw(),
    {
        self.0
    }

    pub fn _1_2V(&self) -> (r: bool)
        ensures
            r == self.spec__1_2V(),
    {
        field_u32(self.0, 0, 1) == 1
    }

    pub fn set__1_2V(&mut self, value: bool)
        ensures
            final(self).spec_raw() == spec_with_field_u32(old(self).spec_raw(), 0, 1, (if value { 1u32 } else { 0u32 })),
            final(self).spec__1_2V() == value,
    {
        let x: u32 = if value { 1 } else { 0 };
        let ghost old_raw = self.0;
        proof {
            lemma_shift_table_u32();
            lemma_with_field_same_u32(old_raw, 0, 1, x);
        }
        self.0 = with_field_u32(self.0, 0, 1, x);
    }

    pub fn with__1_2V(self, value: bool) -> (r: Self)
        ensures
            r.spec_raw() == spec_with_field_u32(self.spec_raw(), 0, 1, (if value { 1u32 } else { 0u32 })),
            r.spec__1_2V() == value,
    {
        let mut r = self;
        r.set__1_2V(value);
        r
    }

    /// The bits that have a meaning; the others are reserved.
    pub const VALID_BITS: u64 = 0x1;

    /// Whether VALUE leaves all reserved bits clear.
    pub fn all_reserved_bits_are_unused(value: u64) -> (r: bool)
        ensures
            r == (value & !0x1u64 == 0),
    {
        value & !Self::VALID_BITS == 0
    }

    pub fn from_u64(value: u64) -> (r: Option<Self>)
        ensures
            r is Some <==> (value & !0x1u64 == 0 && value <= 0xffffffff),
            r matches Some(x) ==> x.spec_raw() == value,
    {
        if Self::all_reserved_bits_are_unused(value) {
            if value <= 0xffffffff {
                Some(RdimmDdr4Voltages(value as u32))
            } else {
                None
            }
        } else {
            None
        }
    }

    pub fn from_i64(value: i64) -> (r: Option<Self>)
        ensures
            r is Some <==> (value >= 0 && (value as u64) & !0x1u64 == 0 && value <= 0xffffffff),
            r matches Some(x) ==> x.spec_raw() == value,
    {
        if value >= 0 {
            Self::from_u64(value as u64)
        } else {
            None
        }
    }

    pub fn to_u64(&self) -> (r: Option<u64>)
        ensures
            r == Some(self.spec_raw() as u64),
    {
        Some(self.0 as u64)
    }

    pub fn to_i64(&self) -> (r: Option<i64>)
        ensures
            r == Some(self.spec_raw() as i64),
    {
        Some(self.0 as i64)
    }

}

impl Default for RdimmDdr4Voltages {
    fn default() -> (r: Self)
        ensures
            r.spec_raw() == 1,
            r.spec__1_2V(),
    {
        let r = Self::new().with__1_2V(true);
        proof {
            lemma_shift_table_u32();
            lemma_single_bit_of_zero_u32(0);
        }
        r
    }
}

/// The UDIMM supply voltages that a setting applies to.
#[derive(Debug, Clone, Copy, PartialEq, Eq, Structural)]
pub struct UdimmDdr4Voltages(u32);

impl UdimmDdr4Voltages {
    /// The packed bits.
    pub closed spec fn spec_raw(self) -> u32 {
        self.0
    }

    /// The value with the given packed bits.
    pub closed spec fn spec_from_raw(raw: u32) -> Self {
        UdimmDdr4Voltages(raw)
    }

    /// The packed bits determine the value, and any packed bits make a value.
    pub proof fn lemma_raw(x: Self, raw: u32)
        ensures
            Self::spec_from_raw(raw).spec_raw() == raw,
            Self::spec_from_raw(x.spec_raw()) == x,
    {
    }

    pub open spec fn spec__1_5V(self) -> bool {
        spec_field_u32(self.spec_raw(), 0, 1) == 1
    }

    pub open spec fn spec__1_35V(self) -> bool {
        spec_field_u32(self.spec_raw(), 1, 1) == 1
    }

    pub open spec fn spec__1_25V(self) -> bool {
        spec_field_u32(self.spec_raw(), 2, 1) == 1
    }

    /// All bits clear.
    pub fn new() -> (r: Self)
        ensures
            r.spec_raw() == 0,
    {
        UdimmDdr4Voltages(0)
    }

    /// The value with the given packed bits.
    pub fn from_raw(raw: u32) -> (r: Self)
        ensures
            r.spec_raw() == raw,
            r == Self::spec_from_raw(raw),
    {
        UdimmDdr4Voltages(raw)
    }

    /// The packed bits.
    pub fn into_raw(self) -> (r: u32)
        ensures
            r == self.spec_raw(),
    {
        self.0
    }

    pub fn _1_5V(&self) -> (r: bool)
        ensures
            r == self.spec__1_5V(),
    {
        field_u32(self.0, 0, 1) == 1
    }

    pub fn set__1_5V(&mut self, value: bool)
        ensures
            final(self).spec_raw() == spec_with_field_u32(old(self).spec_raw(), 0, 1, (if value { 1u32 } else { 0u32 })),
            final(self).spec__1_5V() == value,
            final(self).spec__1_35V() == old(self).spec__1_35V(),
            final(self).spec__1_25V() == old(self).spec__1_25V(),
    {
        let x: u32 = if value { 1 } else { 0 };
        let ghost old_raw = self.0;
        proof {
            lemma_shift_table_u32();
            lemma_with_field_same_u32(old_raw, 0, 1, x);
            lemma_with_field_other_u32(old_raw, 0, 1, x, 1, 1);
            lemma_with_field_other_u32(old_raw, 0, 1, x, 2, 1);
        }
        self.0 = with_field_u32(self.0, 0, 1, x);
    }

    pub fn with__1_5V(self, value: bool) -> (r: Self)
        ensures
            r.spec_raw() == spec_with_field_u32(self.spec_raw(), 0, 1, (if value { 1u32 } else { 0u32 })),
            r.spec__1_5V() == value,
            r.spec__1_35V() == self.spec__1_35V(),
            r.spec__1_25V() == self.spec__1_25V(),
    {
        let mut r = self;
        r.set__1_5V(value);
        r
    }

    pub fn _1_35V(&self) -> (r: bool)
        ensures
            r == self.spec__1_35V(),
    {
        field_u32(self.0, 1, 1) == 1
    }

    pub fn set__1_35V(&mut self, value: bool)
        ensures
            final(self).spec_raw() == spec_with_field_u32(old(self).spec_raw(), 1, 1, (if value { 1u32 } else { 0u32 })),
            final(self).spec__1_35V() == value,
            final(self).spec__1_5V() == old(self).spec__1_5V(),
            final(self).spec__1_25V() == old(self).spec__1_25V(),
    {
        let x: u32 = if value { 1 } else { 0 };
        let ghost old_raw = self.0;
        proof {
            lemma_shift_table_u32();
            lemma_with_field_same_u32(old_raw, 1, 1, x);
            lemma_with_field_other_u32(old_raw, 1, 1, x, 0, 1);
            lemma_with_field_other_u32(old_raw, 1, 1, x, 2, 1);
        }
        self.0 = with_field_u32(self.0, 1, 1, x);
    }

    pub fn with__1_35V(self, value: bool) -> (r: Self)
        ensures
            r.spec_raw() == spec_with_field_u32(self.spec_raw(), 1, 1, (if value { 1u32 } else { 0u32 })),
            r.spec__1_35V() == value,
            r.spec__1_5V() == self.spec__1_5V(),
            r.spec__1_25V() == self.spec__1_25V(),
    {
        let mut r = self;
        r.set__1_35V(value);
        r
    }

    pub fn _1_25V(&self) -> (r: bool)
        ensures
            r == self.spec__1_25V(),
    {
        field_u32(self.0, 2, 1) == 1
    }

    pub fn set__1_25V(&mut self, value: bool)
        ensures
            final(self).spec_raw() == spec_with_field_u32(old(self).spec_raw(), 2, 1, (if value { 1u32 } else { 0u32 })),
            final(self).spec__1_25V() == value,
            final(self).spec__1_5V() == old(self).spec__1_5V(),
            final(self).spec__1_35V() == old(self).spec__1_35V(),
    {
        let x: u32 = if value { 1 } else { 0 };
        let ghost old_raw = self.0;
        proof {
            lemma_shift_table_u32();
            lemma_with_field_same_u32(old_raw, 2, 1, x);
            lemma_with_field_other_u32(old_raw, 2, 1, x, 0, 1);
            lemma_with_field_other_u32(old_raw, 2, 1, x, 1, 1);
        }
        self.0 = with_field_u32(self.0, 2, 1, x);
    }

    pub fn with__1_25V(self, value: bool) -> (r: Self)
        ensures
            r.spec_raw() == spec_with_field_u32(self.spec_raw(), 2, 1, (if value { 1u32 } else { 0u32 })),
            r.spec__1_25V() == value,
            r.spec__1_5V() == self.spec__1_5V(),
            r.spec__1_35V() == self.spec__1_35V(),
    {
        let mut r = self;
        r.set__1_25V(value);
        r
    }

    /// The bits that have a meaning; the others are reserved.
    pub const VALID_BITS: u64 = 0x7;

    /// Whether VALUE leaves all reserved bits clear.
    pub fn all_reserved_bits_are_unused(value: u64) -> (r: bool)
        ensures
            r == (value & !0x7u64 == 0),
    {
        value & !Self::VALID_BITS == 0
    }

    pub fn from_u64(value: u64) -> (r: Option<Self>)
        ensures
            r is Some <==> (value & !0x7u64 == 0 && value <= 0xffffffff),
            r matches Some(x) ==> x.spec_raw() == value,
    {
        if Self::all_reserved_bits_are_unused(value) {
            if value <= 0xffffffff {
                Some(UdimmDdr4Voltages(value as u32))
            } else {
                None
            }
        } else {
            None
        }
    }

    pub fn from_i64(value: i64) -> (r: Option<Self>)
        ensures
            r is Some <==> (value >= 0 && (value as u64) & !0x7u64 == 0 && value <= 0xffffffff),
            r matches Some(x) ==> x.spec_raw() == value,
    {
        if value >= 0 {
            Self::from_u64(value as u64)
        } else {
            None
        }
    }

    pub fn to_u64(&self) -> (r: Option<u64>)
        ensures
            r == Some(self.spec_raw() as u64),
    {
        Some(self.0 as u64)
    }

    pub fn to_i64(&self) -> (r: Option<i64>)
        ensures
            r == Some(self.spec_raw() as i64),
    {
        Some(self.0 as i64)
    }

}

/// The LRDIMM supply voltages that a setting applies to.
#[derive(Debug, Clone, Copy, PartialEq, Eq, Structural)]
pub struct LrdimmDdr4Voltages(u32);

impl LrdimmDdr4Voltages {
    /// The packed bits.
    pub closed spec fn spec_raw(self) -> u32 {
        self.0
    }

    /// The value with the given packed bits.
    pub closed spec fn spec_from_raw(raw: u32) -> Self {
        LrdimmDdr4Voltages(raw)
    }

    /// The packed bits determine the value, and any packed bits make a value.
    pub proof fn lemma_raw(x: Self, raw: u32)
        ensures
            Self::spec_from_raw(raw).spec_raw() == raw,
            Self::spec_from_raw(x.spec_raw()) == x,
    {
    }

    pub open spec fn spec__1_2V(self) -> bool {
        spec_field_u32(self.spec_raw(), 0, 1) == 1
    }

    /// All bits clear.
    pub fn new() -> (r: Self)
        ensures
            r.spec_raw() == 0,
    {
        LrdimmDdr4Voltages(0)
    }

    /// The value with the given packed bits.
    pub fn from_raw(raw: u32) -> (r: Self)
        ensures
            r.spec_raw() == raw,
            r == Self::spec_from_raw(raw),
    {
        LrdimmDdr4Voltages(raw)
    }

    /// The packed bits.
    pub fn into_raw(self) -> (r: u32)
        ensures
            r == self.spec_raw(),
    {
        self.0
    }

    pub fn _1_2V(&self) -> (r: bool)
        ensures
            r == self.spec__1_2V(),
    {
        field_u32(self.0, 0, 1) == 1
    }

    pub fn set__1_2V(&mut self, value: bool)
        ensures
            final(self).spec_raw() == spec_with_field_u32(old(self).spec_raw(), 0, 1, (if value { 1u32 } else { 0u32 })),
            final(self).spec__1_2V() == value,
    {
        let x: u32 = if value { 1 } else { 0 };
        let ghost old_raw = self.0;
        proof {
            lemma_shift_table_u32();
            lemma_with_field_same_u32(old_raw, 0, 1, x);
        }
        self.0 = with_field_u32(self.0, 0, 1, x);
    }

    pub fn with__1_2V(self, value: bool) -> (r: Self)
        ensures
            r.spec_raw() == spec_with_field_u32(self.spec_raw(), 0, 1, (if value { 1u32 } else { 0u32 })),
            r.spec__1_2V() == value,
    {
        let mut r = self;
        r.set__1_2V(value);
        r
    }

    /// The bits that have a meaning; the others are reserved.
    pub const VALID_BITS: u64 = 0x1;

    /// Whether VALUE leaves all reserved bits clear.
    pub fn all_reserved_bits_are_unused(value: u64) -> (r: bool)
        ensures
            r == (value & !0x1u64 == 0),
    {
        value & !Self::VALID_BITS == 0
    }

    pub fn from_u64(value: u64) -> (r: Option<Self>)
        ensures
            r is Some <==> (value & !0x1u64 == 0 && value <= 0xffffffff),
            r matches Some(x) ==> x.spec_raw() == value,
    {
        if Self::all_reserved_bits_are_unused(value) {
            if value <= 0xffffffff {
                Some(LrdimmDdr4Voltages(value as u32))
            } else {
                None
            }
        } else {
            None
        }
    }

    pub fn from_i64(value: i64) -> (r: Option<Self>)
        ensures
            r is Some <==> (value >= 0 && (value as u64) & !0x1u64 == 0 && value <= 0xffffffff),
            r matches Some(x) ==> x.spec_raw() == value,
    {
        if value >= 0 {
            Self::from_u64(value as u64)
        } else {
            None
        }
    }

    pub fn to_u64(&self) -> (r: Option<u64>)
        ensures
            r == Some(self.spec_raw() as u64),
    {
        Some(self.0 as u64)
    }

    pub fn to_i64(&self) -> (r: Option<i64>)
        ensures
            r == Some(self.spec_raw() as i64),
    {
        Some(self.0 as i64)
    }

}

impl Default for LrdimmDdr4Voltages {
    fn default() -> (r: Self)
        ensures
            r.spec_raw() == 1,
            r.spec__1_2V(),
    {
        let r = Self::new().with__1_2V(true);
        proof {
            lemma_shift_table_u32();
            lemma_single_bit_of_zero_u32(0);
        }
        r
    }
}

proof fn lemma_single_bit_of_zero_u32(i: u32)
    by (bit_vector)
    requires
        i < 32,
    ensures
        spec_with_field_u32(0, i, 1, 1) == (1u32 << i),
{
}

/// Control/address bus settings for RDIMMs (one element per configuration).
#[allow(non_camel_case_types)]
#[derive(Debug, Clone, Copy, PartialEq, Eq, Structural)]
pub struct RdimmDdr4CadBusElement {
    pub(crate) dimm_slots_per_channel: u32,
    pub(crate) ddr_rates: u32,
    pub(crate) vdd_io: u32,
    pub(crate) dimm0_ranks: u32,
    pub(crate) dimm1_ranks: u32,
    pub(crate) gear_down_mode: u16,
    pub(crate) _reserved_: u16,
    pub(crate) slow_mode: u16,
    pub(crate) _reserved_2: u16,
    pub(crate) address_command_control: u32,
    pub(crate) cke_drive_strength: u8,
    pub(crate) cs_odt_drive_strength: u8,
    pub(crate) address_command_drive_strength: u8,
    pub(crate) clk_drive_strength: u8,
}

impl RdimmDdr4CadBusElement {
    pub closed spec fn spec_dimm_slots_per_channel(self) -> u32 {
        self.dimm_slots_per_channel
    }

    pub closed spec fn spec_ddr_rates(self) -> u32 {
        self.ddr_rates
    }

    pub closed spec fn spec_vdd_io(self) -> u32 {
        self.vdd_io
    }

    pub closed spec fn spec_dimm0_ranks(self) -> u32 {
        self.dimm0_ranks
    }

    pub closed spec fn spec_dimm1_ranks(self) -> u32 {
        self.dimm1_ranks
    }

    pub closed spec fn spec_gear_down_mode(self) -> u16 {
        self.gear_down_mode
    }

    pub closed spec fn spec__reserved_(self) -> u16 {
        self._reserved_
    }

    pub closed spec fn spec_slow_mode(self) -> u16 {
        self.slow_mode
    }

    pub closed spec fn spec__reserved_2(self) -> u16 {
        self._reserved_2
    }

    pub closed spec fn spec_address_command_control(self) -> u32 {
        self.address_command_control
    }

    pub closed spec fn spec_cke_drive_strength(self) -> u8 {
        self.cke_drive_strength
    }

    pub closed spec fn spec_cs_odt_drive_strength(self) -> u8 {
        self.cs_odt_drive_strength
    }

    pub closed spec fn spec_address_command_drive_strength(self) -> u8 {
        self.address_command_drive_strength
    }

    pub closed spec fn spec_clk_drive_strength(self) -> u8 {
        self.clk_drive_strength
    }

    pub fn dimm_slots_per_channel(&self) -> (r: Result<u32>)
        ensures
            r == Ok::<u32, Error>(self.spec_dimm_slots_per_channel()),
    {
        Ok(self.dimm_slots_per_channel)
    }

    pub fn set_dimm_slots_per_channel(&mut self, value: u32)
        ensures
            final(self).spec_dimm_slots_per_channel() == value,
            final(self).spec_ddr_rates() == old(self).spec_ddr_rates(),
            final(self).spec_vdd_io() == old(self).spec_vdd_io(),
            final(self).spec_dimm0_ranks() == old(self).spec_dimm0_ranks(),
            final(self).spec_dimm1_ranks() == old(self).spec_dimm1_ranks(),
            final(self).spec_gear_down_mode() == old(self).spec_gear_down_mode(),
            final(self).spec__reserved_() == old(self).spec__reserved_(),
            final(self).spec_slow_mode() == old(self).spec_slow_mode(),
            final(self).spec__reserved_2() == old(self).spec__reserved_2(),
            final(self).spec_address_command_control() == old(self).spec_address_command_control(),
            final(self).spec_cke_drive_strength() == old(self).spec_cke_drive_strength(),
            final(self).spec_cs_odt_drive_strength() == old(self).spec_cs_odt_drive_strength(),
            final(self).spec_address_command_drive_strength() == old(self).spec_address_command_drive_strength(),
            final(self).spec_clk_drive_strength() == old(self).spec_clk_drive_strength(),
    {
        self.dimm_slots_per_channel = value;
    }

    pub fn ddr_rates(&self) -> (r: Result<DdrRates>)
        ensures
            r is Ok <==> (self.spec_ddr_rates() as u64) & !0x1555578u64 == 0,
            r matches Ok(b) ==> b.spec_raw() == self.spec_ddr_rates(),
    {
        proof {
            if (self.ddr_rates as u64) & !0x1555578u64 == 0 {
                lemma_masked_bound_u64(self.ddr_rates as u64, 0x1555578u64);
            }
        }
        match DdrRates::from_u64(self.ddr_rates as u64) {
            Some(b) => Ok(b),
            None => Err(Error::EntryTypeMismatch),
        }
    }

    pub fn set_ddr_rates(&mut self, value: DdrRates)
        ensures
            final(self).spec_ddr_rates() == value.spec_raw() as u32,
            final(self).spec_dimm_slots_per_channel() == old(self).spec_dimm_slots_per_channel(),
            final(self).spec_vdd_io() == old(self).spec_vdd_io(),
            final(self).spec_dimm0_ranks() == old(self).spec_dimm0_ranks(),
            final(self).spec_dimm1_ranks() == old(self).spec_dimm1_ranks(),
            final(self).spec_gear_down_mode() == old(self).spec_gear_down_mode(),
            final(self).spec__reserved_() == old(self).spec__reserved_(),
            final(self).spec_slow_mode() == old(self).spec_slow_mode(),
            final(self).spec__reserved_2() == old(self).spec__reserved_2(),
            final(self).spec_address_command_control() == old(self).spec_address_command_control(),
            final(self).spec_cke_drive_strength() == old(self).spec_cke_drive_strength(),
            final(self).spec_cs_odt_drive_strength() == old(self).spec_cs_odt_drive_strength(),
            final(self).spec_address_command_drive_strength() == old(self).spec_address_command_drive_strength(),
            final(self).spec_clk_drive_strength() == old(self).spec_clk_drive_strength(),
    {
        self.ddr_rates = value.into_raw() as u32;
    }

    pub fn vdd_io(&self) -> (r: Result<RdimmDdr4Voltages>)
        ensures
            r is Ok <==> (self.spec_vdd_io() as u64) & !0x1u64 == 0,
            r matches Ok(b) ==> b.spec_raw() == self.spec_vdd_io(),
    {
        proof {
            if (self.vdd_io as u64) & !0x1u64 == 0 {
                lemma_masked_bound_u64(self.vdd_io as u64, 0x1u64);
            }
        }
        match RdimmDdr4Voltages::from_u64(self.vdd_io as u64) {
            Some(b) => Ok(b),
            None => Err(Error::EntryTypeMismatch),
        }
    }

    pub fn set_vdd_io(&mut self, value: RdimmDdr4Voltages)
        ensures
            final(self).spec_vdd_io() == value.spec_raw() as u32,
            final(self).spec_dimm_slots_per_channel() == old(self).spec_dimm_slots_per_channel(),
            final(self).spec_ddr_rates() == old(self).spec_ddr_rates(),
            final(self).spec_dimm0_ranks() == old(self).spec_dimm0_ranks(),
            final(self).spec_dimm1_ranks() == old(self).spec_dimm1_ranks(),
            final(self).spec_gear_down_mode() == old(self).spec_gear_down_mode(),
            final(self).spec__reserved_() == old(self).spec__reserved_(),
            final(self).spec_slow_mode() == old(self).spec_slow_mode(),
            final(self).spec__reserved_2() == old(self).spec__reserved_2(),
            final(self).spec_address_command_control() == old(self).spec_address_command_control(),
            final(self).spec_cke_drive_strength() == old(self).spec_cke_drive_strength(),
            final(self).spec_cs_odt_drive_strength() == old(self).spec_cs_odt_drive_strength(),
            final(self).spec_address_command_drive_strength() == old(self).spec_address_command_drive_strength(),
            final(self).spec_clk_drive_strength() == old(self).spec_clk_drive_strength(),
    {
        self.vdd_io = value.into_raw() as u32;
    }

    pub fn dimm0_ranks(&self) -> (r: Result<Ddr4DimmRanks>)
        ensures
            r is Ok <==> (self.spec_dimm0_ranks() as u64) & !0xfu64 == 0,
            r matches Ok(b) ==> b.spec_raw() == self.spec_dimm0_ranks(),
    {
        proof {
            if (self.dimm0_ranks as u64) & !0xfu64 == 0 {
                lemma_masked_bound_u64(self.dimm0_ranks as u64, 0xfu64);
            }
        }
        match Ddr4DimmRanks::from_u64(self.dimm0_ranks as u64) {
            Some(b) => Ok(b),
            None => Err(Error::EntryTypeMismatch),
        }
    }

    pub fn set_dimm0_ranks(&mut self, value: Ddr4DimmRanks)
        ensures
            final(self).spec_dimm0_ranks() == value.spec_raw() as u32,
            final(self).spec_dimm_slots_per_channel() == old(self).spec_dimm_slots_per_channel(),
            final(self).spec_ddr_rates() == old(self).spec_ddr_rates(),
            final(self).spec_vdd_io() == old(self).spec_vdd_io(),
            final(self).spec_dimm1_ranks() == old(self).spec_dimm1_ranks(),
            final(self).spec_gear_down_mode() == old(self).spec_gear_down_mode(),
            final(self).spec__reserved_() == old(self).spec__reserved_(),
            final(self).spec_slow_mode() == old(self).spec_slow_mode(),
            final(self).spec__reserved_2() == old(self).spec__reserved_2(),
            final(self).spec_address_command_control() == old(self).spec_address_command_control(),
            final(self).spec_cke_drive_strength() == old(self).spec_cke_drive_strength(),
            final(self).spec_cs_odt_drive_strength() == old(self).spec_cs_odt_drive_strength(),
            final(self).spec_address_command_drive_strength() == old(self).spec_address_command_drive_strength(),
            final(self).spec_clk_drive_strength() == old(self).spec_clk_drive_strength(),
    {
        self.dimm0_ranks = value.into_raw() as u32;
    }

    pub fn dimm1_ranks(&self) -> (r: Result<Ddr4DimmRanks>)
        ensures
            r is Ok <==> (self.spec_dimm1_ranks() as u64) & !0xfu64 == 0,
            r matches Ok(b) ==> b.spec_raw() == self.spec_dimm1_ranks(),
    {
        proof {
            if (self.dimm1_ranks as u64) & !0xfu64 == 0 {
                lemma_masked_bound_u64(self.dimm1_ranks as u64, 0xfu64);
            }
        }
        match Ddr4DimmRanks::from_u64(self.dimm1_ranks as u64) {
            Some(b) => Ok(b),
            None => Err(Error::EntryTypeMismatch),
        }
    }

    pub fn set_dimm1_ranks(&mut self, value: Ddr4DimmRanks)
        ensures
            final(self).spec_dimm1_ranks() == value.spec_raw() as u32,
            final(self).spec_dimm_slots_per_channel() == old(self).spec_dimm_slots_per_channel(),
            final(self).spec_ddr_rates() == old(self).spec_ddr_rates(),
            final(self).spec_vdd_io() == old(self).spec_vdd_io(),
            final(self).spec_dimm0_ranks() == old(self).spec_dimm0_ranks(),
            final(self).spec_gear_down_mode() == old(self).spec_gear_down_mode(),
            final(self).spec__reserved_() == old(self).spec__reserved_(),
            final(self).spec_slow_mode() == old(self).spec_slow_mode(),
            final(self).spec__reserved_2() == old(self).spec__reserved_2(),
            final(self).spec_address_command_control() == old(self).spec_address_command_control(),
            final(self).spec_cke_drive_strength() == old(self).spec_cke_drive_strength(),
            final(self).spec_cs_odt_drive_strength() == old(self).spec_cs_odt_drive_strength(),
            final(self).spec_address_command_drive_strength() == old(self).spec_address_command_drive_strength(),
            final(self).spec_clk_drive_strength() == old(self).spec_clk_drive_strength(),
    {
        self.dimm1_ranks = value.into_raw() as u32;
    }

    pub fn gear_down_mode(&self) -> (r: Result<bool>)
        ensures
            r == spec_bool_result_of_raw(self.spec_gear_down_mode() as int),
    {
        match self.gear_down_mode {
            0 => Ok(false),
            1 => Ok(true),
            _ => Err(Error::EntryTypeMismatch),
        }
    }

    pub fn set_gear_down_mode(&mut self, value: bool)
        ensures
            final(self).spec_gear_down_mode() == spec_raw_of_bool(value) as u16,
            final(self).spec_dimm_slots_per_channel() == old(self).spec_dimm_slots_per_channel(),
            final(self).spec_ddr_rates() == old(self).spec_ddr_rates(),
            final(self).spec_vdd_io() == old(self).spec_vdd_io(),
            final(self).spec_dimm0_ranks() == old(self).spec_dimm0_ranks(),
            final(self).spec_dimm1_ranks() == old(self).spec_dimm1_ranks(),
            final(self).spec__reserved_() == old(self).spec__reserved_(),
            final(self).spec_slow_mode() == old(self).spec_slow_mode(),
            final(self).spec__reserved_2() == old(self).spec__reserved_2(),
            final(self).spec_address_command_control() == old(self).spec_address_command_control(),
            final(self).spec_cke_drive_strength() == old(self).spec_cke_drive_strength(),
            final(self).spec_cs_odt_drive_strength() == old(self).spec_cs_odt_drive_strength(),
            final(self).spec_address_command_drive_strength() == old(self).spec_address_command_drive_strength(),
            final(self).spec_clk_drive_strength() == old(self).spec_clk_drive_strength(),
    {
        self.gear_down_mode = if value { 1 } else { 0 };
    }

    pub fn slow_mode(&self) -> (r: Result<bool>)
        ensures
            r == spec_bool_result_of_raw(self.spec_slow_mode() as int),
    {
        match self.slow_mode {
            0 => Ok(false),
            1 => Ok(true),
            _ => Err(Error::EntryTypeMismatch),
        }
    }

    pub fn set_slow_mode(&mut self, value: bool)
        ensures
            final(self).spec_slow_mode() == spec_raw_of_bool(value) as u16,
            final(self).spec_dimm_slots_per_channel() == old(self).spec_dimm_slots_per_channel(),
            final(self).spec_ddr_rates() == old(self).spec_ddr_rates(),
            final(self).spec_vdd_io() == old(self).spec_vdd_io(),
            final(self).spec_dimm0_ranks() == old(self).spec_dimm0_ranks(),
            final(self).spec_dimm1_ranks() == old(self).spec_dimm1_ranks(),
            final(self).spec_gear_down_mode() == old(self).spec_gear_down_mode(),
            final(self).spec__reserved_() == old(self).spec__reserved_(),
            final(self).spec__reserved_2() == old(self).spec__reserved_2(),
            final(self).spec_address_command_control() == old(self).spec_address_command_control(),
            final(self).spec_cke_drive_strength() == old(self).spec_cke_drive_strength(),
            final(self).spec_cs_odt_drive_strength() == old(self).spec_cs_odt_drive_strength(),
            final(self).spec_address_command_drive_strength() == old(self).spec_address_command_drive_strength(),
            final(self).spec_clk_drive_strength() == old(self).spec_clk_drive_strength(),
    {
        self.slow_mode = if value { 1 } else { 0 };
    }

    pub fn address_command_control(&self) -> (r: Result<u32>)
        ensures
            r == Ok::<u32, Error>(self.spec_address_command_control()),
    {
        Ok(self.address_command_control)
    }

    pub fn set_address_command_control(&mut self, value: u32)
        ensures
            final(self).spec_address_command_control() == value,
            final(self).spec_dimm_slots_per_channel() == old(self).spec_dimm_slots_per_channel(),
            final(self).spec_ddr_rates() == old(self).spec_ddr_rates(),
            final(self).spec_vdd_io() == old(self).spec_vdd_io(),
            final(self).spec_dimm0_ranks() == old(self).spec_dimm0_ranks(),
            final(self).spec_dimm1_ranks() == old(self).spec_dimm1_ranks(),
            final(self).spec_gear_down_mode() == old(self).spec_gear_down_mode(),
            final(self).spec__reserved_() == old(self).spec__reserved_(),
            final(self).spec_slow_mode() == old(self).spec_slow_mode(),
            final(self).spec__reserved_2() == old(self).spec__reserved_2(),
            final(self).spec_cke_drive_strength() == old(self).spec_cke_drive_strength(),
            final(self).spec_cs_odt_drive_strength() == old(self).spec_cs_odt_drive_strength(),
            final(self).spec_address_command_drive_strength() == old(self).spec_address_command_drive_strength(),
            final(self).spec_clk_drive_strength() == old(self).spec_clk_drive_strength(),
    {
        self.address_command_control = value;
    }

    pub fn cke_drive_strength(&self) -> (r: Result<CadBusClkDriveStrength>)
        ensures
            r == match CadBusClkDriveStrength::spec_from_u64(self.spec_cke_drive_strength() as u64) {
                Some(e) => Ok::<CadBusClkDriveStrength, Error>(e),
                None => Err(Error::EntryTypeMismatch),
            },
    {
        match CadBusClkDriveStrength::from_u64(self.cke_drive_strength as u64) {
            Some(e) => Ok(e),
            None => Err(Error::EntryTypeMismatch),
        }
    }

    pub fn set_cke_drive_strength(&mut self, value: CadBusClkDriveStrength)
        ensures
            final(self).spec_cke_drive_strength() == value.spec_to_u64() as u8,
            final(self).spec_dimm_slots_per_channel() == old(self).spec_dimm_slots_per_channel(),
            final(self).spec_ddr_rates() == old(self).spec_ddr_rates(),
            final(self).spec_vdd_io() == old(self).spec_vdd_io(),
            final(self).spec_dimm0_ranks() == old(self).spec_dimm0_ranks(),
            final(self).spec_dimm1_ranks() == old(self).spec_dimm1_ranks(),
            final(self).spec_gear_down_mode() == old(self).spec_gear_down_mode(),
            final(self).spec__reserved_() == old(self).spec__reserved_(),
            final(self).spec_slow_mode() == old(self).spec_slow_mode(),
            final(self).spec__reserved_2() == old(self).spec__reserved_2(),
            final(self).spec_address_command_control() == old(self).spec_address_command_control(),
            final(self).spec_cs_odt_drive_strength() == old(self).spec_cs_odt_drive_strength(),
            final(self).spec_address_command_drive_strength() == old(self).spec_address_command_drive_strength(),
            final(self).spec_clk_drive_strength() == old(self).spec_clk_drive_strength(),
    {
        self.cke_drive_strength = value.to_u64().unwrap() as u8;
    }

    pub fn cs_odt_drive_strength(&self) -> (r: Result<CadBusClkDriveStrength>)
        ensures
            r == match CadBusClkDriveStrength::spec_from_u64(self.spec_cs_odt_drive_strength() as u64) {
                Some(e) => Ok::<CadBusClkDriveStrength, Error>(e),
                None => Err(Error::EntryTypeMismatch),
            },
    {
        match CadBusClkDriveStrength::from_u64(self.cs_odt_drive_strength as u64) {
            Some(e) => Ok(e),
            None => Err(Error::EntryTypeMismatch),
        }
    }

    pub fn set_cs_odt_drive_strength(&mut self, value: CadBusClkDriveStrength)
        ensures
            final(self).spec_cs_odt_drive_strength() == value.spec_to_u64() as u8,
            final(self).spec_dimm_slots_per_channel() == old(self).spec_dimm_slots_per_channel(),
            final(self).spec_ddr_rates() == old(self).spec_ddr_rates(),
            final(self).spec_vdd_io() == old(self).spec_vdd_io(),
            final(self).spec_dimm0_ranks() == old(self).spec_dimm0_ranks(),
            final(self).spec_dimm1_ranks() == old(self).spec_dimm1_ranks(),
            final(self).spec_gear_down_mode() == old(self).spec_gear_down_mode(),
            final(self).spec__reserved_() == old(self).spec__reserved_(),
            final(self).spec_slow_mode() == old(self).spec_slow_mode(),
            final(self).spec__reserved_2() == old(self).spec__reserved_2(),
            final(self).spec_address_command_control() == old(self).spec_address_command_control(),
            final(self).spec_cke_drive_strength() == old(self).spec_cke_drive_strength(),
            final(self).spec_address_command_drive_strength() == old(self).spec_address_command_drive_strength(),
            final(self).spec_clk_drive_strength() == old(self).spec_clk_drive_strength(),
    {
        self.cs_odt_drive_strength = value.to_u64().unwrap() as u8;
    }

    pub fn address_command_drive_strength(&self) -> (r: Result<CadBusClkDriveStrength>)
        ensures
            r == match CadBusClkDriveStrength::spec_from_u64(self.spec_address_command_drive_strength() as u64) {
                Some(e) => Ok::<CadBusClkDriveStrength, Error>(e),
                None => Err(Error::EntryTypeMismatch),
            },
    {
        match CadBusClkDriveStrength::from_u64(self.address_command_drive_strength as u64) {
            Some(e) => Ok(e),
            None => Err(Error::EntryTypeMismatch),
        }
    }

    pub fn set_address_command_drive_strength(&mut self, value: CadBusClkDriveStrength)
        ensures
            final(self).spec_address_command_drive_strength() == value.spec_to_u64() as u8,
            final(self).spec_dimm_slots_per_channel() == old(self).spec_dimm_slots_per_channel(),
            final(self).spec_ddr_rates() == old(self).spec_ddr_rates(),
            final(self).spec_vdd_io() == old(self).spec_vdd_io(),
            final(self).spec_dimm0_ranks() == old(self).spec_dimm0_ranks(),
            final(self).spec_dimm1_ranks() == old(self).spec_dimm1_ranks(),
            final(self).spec_gear_down_mode() == old(self).spec_gear_down_mode(),
            final(self).spec__reserved_() == old(self).spec__reserved_(),
            final(self).spec_slow_mode() == old(self).spec_slow_mode(),
            final(self).spec__reserved_2() == old(self).spec__reserved_2(),
            final(self).spec_address_command_control() == old(self).spec_address_command_control(),
            final(self).spec_cke_drive_strength() == old(self).spec_cke_drive_strength(),
            final(self).spec_cs_odt_drive_strength() == old(self).spec_cs_odt_drive_strength(),
            final(self).spec_clk_drive_strength() == old(self).spec_clk_drive_strength(),
    {
        self.address_command_drive_strength = value.to_u64().unwrap() as u8;
    }

    pub fn clk_drive_strength(&self) -> (r: Result<CadBusClkDriveStrength>)
        ensures
            r == match CadBusClkDriveStrength::spec_from_u64(self.spec_clk_drive_strength() as u64) {
                Some(e) => Ok::<CadBusClkDriveStrength, Error>(e),
                None => Err(Error::EntryTypeMismatch),
            },
    {
        match CadBusClkDriveStrength::from_u64(self.clk_drive_strength as u64) {
            Some(e) => Ok(e),
            None => Err(Error::EntryTypeMismatch),
        }
    }

    pub fn set_clk_drive_strength(&mut self, value: CadBusClkDriveStrength)
        ensures
            final(self).spec_clk_drive_strength() == value.spec_to_u64() as u8,
            final(self).spec_dimm_slots_per_channel() == old(self).spec_dimm_slots_per_channel(),
            final(self).spec_ddr_rates() == old(self).spec_ddr_rates(),
            final(self).spec_vdd_io() == old(self).spec_vdd_io(),
            final(self).spec_dimm0_ranks() == old(self).spec_dimm0_ranks(),
            final(self).spec_dimm1_ranks() == old(self).spec_dimm1_ranks(),
            final(self).spec_gear_down_mode() == old(self).spec_gear_down_mode(),
            final(self).spec__reserved_() == old(self).spec__reserved_(),
            final(self).spec_slow_mode() == old(self).spec_slow_mode(),
            final(self).spec__reserved_2() == old(self).spec__reserved_2(),
            final(self).spec_address_command_control() == old(self).spec_address_command_control(),
            final(self).spec_cke_drive_strength() == old(self).spec_cke_drive_strength(),
            final(self).spec_cs_odt_drive_strength() == old(self).spec_cs_odt_drive_strength(),
            final(self).spec_address_command_drive_strength() == old(self).spec_address_command_drive_strength(),
    {
        self.clk_drive_strength = value.to_u64().unwrap() as u8;
    }

}

impl RdimmDdr4CadBusElement {
    /// The bytes that store this value on disk.
    pub closed spec fn spec_bytes(self) -> Seq<u8> {
        spec_u32_to_le_bytes(self.dimm_slots_per_channel)
            + spec_u32_to_le_bytes(self.ddr_rates)
            + spec_u32_to_le_bytes(self.vdd_io)
            + spec_u32_to_le_bytes(self.dimm0_ranks)
            + spec_u32_to_le_bytes(self.dimm1_ranks)
            + spec_u16_to_le_bytes(self.gear_down_mode)
            + spec_u16_to_le_bytes(self._reserved_)
            + spec_u16_to_le_bytes(self.slow_mode)
            + spec_u16_to_le_bytes(self._reserved_2)
            + spec_u32_to_le_bytes(self.address_command_control)
            + seq![self.cke_drive_strength]
            + seq![self.cs_odt_drive_strength]
            + seq![self.address_command_drive_strength]
            + seq![self.clk_drive_strength]
    }
}

impl ByteLayout for RdimmDdr4CadBusElement {
    open spec fn spec_size() -> nat {
        36
    }

    open spec fn spec_to_bytes(self) -> Seq<u8> {
        self.spec_bytes()
    }

    fn size() -> (r: usize) {
        36
    }

    #[verifier::spinoff_prover]
    #[verifier::rlimit(60)]
    fn from_bytes(bytes: &[u8]) -> (r: Self) {
        let dimm_slots_per_channel: u32 = u32_from_le_bytes(slice_subrange(bytes, 0, 4));
        let ddr_rates: u32 = u32_from_le_bytes(slice_subrange(bytes, 4, 8));
        let vdd_io: u32 = u32_from_le_bytes(slice_subrange(bytes, 8, 12));
        let dimm0_ranks: u32 = u32_from_le_bytes(slice_subrange(bytes, 12, 16));
        let dimm1_ranks: u32 = u32_from_le_bytes(slice_subrange(bytes, 16, 20));
        let gear_down_mode: u16 = u16_from_le_bytes(slice_subrange(bytes, 20, 22));
        let _reserved_: u16 = u16_from_le_bytes(slice_subrange(bytes, 22, 24));
        let slow_mode: u16 = u16_from_le_bytes(slice_subrange(bytes, 24, 26));
        let _reserved_2: u16 = u16_from_le_bytes(slice_subrange(bytes, 26, 28));
        let address_command_control: u32 = u32_from_le_bytes(slice_subrange(bytes, 28, 32));
        let cke_drive_strength: u8 = bytes[32];
        let cs_odt_drive_strength: u8 = bytes[33];
        let address_command_drive_strength: u8 = bytes[34];
        let clk_drive_strength: u8 = bytes[35];
        let r = RdimmDdr4CadBusElement { dimm_slots_per_channel, ddr_rates, vdd_io, dimm0_ranks, dimm1_ranks, gear_down_mode, _reserved_, slow_mode, _reserved_2, address_command_control, cke_drive_strength, cs_odt_drive_strength, address_command_drive_strength, clk_drive_strength };
        proof {
            lemma_auto_spec_u16_to_from_le_bytes();
            lemma_auto_spec_u32_to_from_le_bytes();
            lemma_auto_spec_u64_to_from_le_bytes();
            lemma_rdimm_ddr4_cad_bus_element_bytes_pieces(r);
            assert(bytes@.subrange(0, 4) == spec_u32_to_le_bytes(dimm_slots_per_channel));
            assert(bytes@.subrange(4, 8) == spec_u32_to_le_bytes(ddr_rates));
            assert(bytes@.subrange(8, 12) == spec_u32_to_le_bytes(vdd_io));
            assert(bytes@.subrange(12, 16) == spec_u32_to_le_bytes(dimm0_ranks));
            assert(bytes@.subrange(16, 20) == spec_u32_to_le_bytes(dimm1_ranks));
            assert(bytes@.subrange(20, 22) == spec_u16_to_le_bytes(gear_down_mode));
            assert(bytes@.subrange(22, 24) == spec_u16_to_le_bytes(_reserved_));
            assert(bytes@.subrange(24, 26) == spec_u16_to_le_bytes(slow_mode));
            assert(bytes@.subrange(26, 28) == spec_u16_to_le_bytes(_reserved_2));
            assert(bytes@.subrange(28, 32) == spec_u32_to_le_bytes(address_command_control));
            assert(bytes@.subrange(0, 8) =~= bytes@.subrange(0, 4) + bytes@.subrange(4, 8));
            assert(bytes@.subrange(0, 12) =~= bytes@.subrange(0, 8) + bytes@.subrange(8, 12));
            assert(bytes@.subrange(0, 16) =~= bytes@.subrange(0, 12) + bytes@.subrange(12, 16));
            assert(bytes@.subrange(0, 20) =~= bytes@.subrange(0, 16) + bytes@.subrange(16, 20));
            assert(bytes@.subrange(0, 22) =~= bytes@.subrange(0, 20) + bytes@.subrange(20, 22));
            assert(bytes@.subrange(0, 24) =~= bytes@.subrange(0, 22) + bytes@.subrange(22, 24));
            assert(bytes@.subrange(0, 26) =~= bytes@.subrange(0, 24) + bytes@.subrange(24, 26));
            assert(bytes@.subrange(0, 28) =~= bytes@.subrange(0, 26) + bytes@.subrange(26, 28));
            assert(bytes@.subrange(0, 32) =~= bytes@.subrange(0, 28) + bytes@.subrange(28, 32));
            assert(bytes@.subrange(0, 33) =~= bytes@.subrange(0, 32) + bytes@.subrange(32, 33));
            assert(bytes@.subrange(0, 34) =~= bytes@.subrange(0, 33) + bytes@.subrange(33, 34));
            assert(bytes@.subrange(0, 35) =~= bytes@.subrange(0, 34) + bytes@.subrange(34, 35));
            assert(bytes@.subrange(0, 36) =~= bytes@.subrange(0, 35) + bytes@.subrange(35, 36));
            assert(bytes@.subrange(0, 36) =~= bytes@);
            assert(bytes@ == r.spec_bytes());
        }
        r
    }

    #[verifier::spinoff_prover]
    #[verifier::rlimit(60)]
    fn to_bytes(&self) -> (r: Vec<u8>) {
        let mut out: Vec<u8> = Vec::new();
        append_bytes(&mut out, &le_bytes_u32(self.dimm_slots_per_channel));
        append_bytes(&mut out, &le_bytes_u32(self.ddr_rates));
        append_bytes(&mut out, &le_bytes_u32(self.vdd_io));
        append_bytes(&mut out, &le_bytes_u32(self.dimm0_ranks));
        append_bytes(&mut out, &le_bytes_u32(self.dimm1_ranks));
        append_bytes(&mut out, &le_bytes_u16(self.gear_down_mode));
        append_bytes(&mut out, &le_bytes_u16(self._reserved_));
        append_bytes(&mut out, &le_bytes_u16(self.slow_mode));
        append_bytes(&mut out, &le_bytes_u16(self._reserved_2));
        append_bytes(&mut out, &le_bytes_u32(self.address_command_control));
        out.push(self.cke_drive_strength);
        out.push(self.cs_odt_drive_strength);
        out.push(self.address_command_drive_strength);
        out.push(self.clk_drive_strength);
        proof {
            lemma_rdimm_ddr4_cad_bus_element_bytes_pieces(*self);
        }
        out
    }
}

/// How the bytes of a RdimmDdr4CadBusElement split up into its fields.
pub proof fn lemma_rdimm_ddr4_cad_bus_element_bytes_pieces(x: RdimmDdr4CadBusElement)
    ensures
        x.spec_bytes().len() == 36,
        x.spec_bytes().subrange(0, 4) == spec_u32_to_le_bytes(x.spec_dimm_slots_per_channel()),
        x.spec_bytes().subrange(4, 8) == spec_u32_to_le_bytes(x.spec_ddr_rates()),
        x.spec_bytes().subrange(8, 12) == spec_u32_to_le_bytes(x.spec_vdd_io()),
        x.spec_bytes().subrange(12, 16) == spec_u32_to_le_bytes(x.spec_dimm0_ranks()),
        x.spec_bytes().subrange(16, 20) == spec_u32_to_le_bytes(x.spec_dimm1_ranks()),
        x.spec_bytes().subrange(20, 22) == spec_u16_to_le_bytes(x.spec_gear_down_mode()),
        x.spec_bytes().subrange(22, 24) == spec_u16_to_le_bytes(x.spec__reserved_()),
        x.spec_bytes().subrange(24, 26) == spec_u16_to_le_bytes(x.spec_slow_mode()),
        x.spec_bytes().subrange(26, 28) == spec_u16_to_le_bytes(x.spec__reserved_2()),
        x.spec_bytes().subrange(28, 32) == spec_u32_to_le_bytes(x.spec_address_command_control()),
        x.spec_bytes()[32] == x.spec_cke_drive_strength(),
        x.spec_bytes()[33] == x.spec_cs_odt_drive_strength(),
        x.spec_bytes()[34] == x.spec_address_command_drive_strength(),
        x.spec_bytes()[35] == x.spec_clk_drive_strength(),
{
    lemma_auto_spec_u16_to_from_le_bytes();
    lemma_auto_spec_u32_to_from_le_bytes();
    lemma_auto_spec_u64_to_from_le_bytes();
    assert(x.spec_bytes().subrange(0, 4) == spec_u32_to_le_bytes(x.dimm_slots_per_channel));
    assert(x.spec_bytes().subrange(4, 8) == spec_u32_to_le_bytes(x.ddr_rates));
    assert(x.spec_bytes().subrange(8, 12) == spec_u32_to_le_bytes(x.vdd_io));
    assert(x.spec_bytes().subrange(12, 16) == spec_u32_to_le_bytes(x.dimm0_ranks));
    assert(x.spec_bytes().subrange(16, 20) == spec_u32_to_le_bytes(x.dimm1_ranks));
    assert(x.spec_bytes().subrange(20, 22) == spec_u16_to_le_bytes(x.gear_down_mode));
    assert(x.spec_bytes().subrange(22, 24) == spec_u16_to_le_bytes(x._reserved_));
    assert(x.spec_bytes().subrange(24, 26) == spec_u16_to_le_bytes(x.slow_mode));
    assert(x.spec_bytes().subrange(26, 28) == spec_u16_to_le_bytes(x._reserved_2));
    assert(x.spec_bytes().subrange(28, 32) == spec_u32_to_le_bytes(x.address_command_control));
}

/// Two values of RdimmDdr4CadBusElement with the same bytes are the same value.
#[verifier::spinoff_prover]
#[verifier::rlimit(60)]
pub proof fn lemma_rdimm_ddr4_cad_bus_element_bytes_injective(x: RdimmDdr4CadBusElement, y: RdimmDdr4CadBusElement)
    requires
        x.spec_bytes() == y.spec_bytes(),
    ensures
        x == y,
{
    lemma_rdimm_ddr4_cad_bus_element_bytes_pieces(x);
    lemma_rdimm_ddr4_cad_bus_element_bytes_pieces(y);
    lemma_auto_spec_u16_to_from_le_bytes();
    lemma_auto_spec_u32_to_from_le_bytes();
    lemma_auto_spec_u64_to_from_le_bytes();
    assert(spec_u32_from_le_bytes(spec_u32_to_le_bytes(x.dimm_slots_per_channel)) == spec_u32_from_le_bytes(spec_u32_to_le_bytes(y.dimm_slots_per_channel)));
    assert(spec_u32_from_le_bytes(spec_u32_to_le_bytes(x.ddr_rates)) == spec_u32_from_le_bytes(spec_u32_to_le_bytes(y.ddr_rates)));
    assert(spec_u32_from_le_bytes(spec_u32_to_le_bytes(x.vdd_io)) == spec_u32_from_le_bytes(spec_u32_to_le_bytes(y.vdd_io)));
    assert(spec_u32_from_le_bytes(spec_u32_to_le_bytes(x.dimm0_ranks)) == spec_u32_from_le_bytes(spec_u32_to_le_bytes(y.dimm0_ranks)));
    assert(spec_u32_from_le_bytes(spec_u32_to_le_bytes(x.dimm1_ranks)) == spec_u32_from_le_bytes(spec_u32_to_le_bytes(y.dimm1_ranks)));
    assert(spec_u16_from_le_bytes(spec_u16_to_le_bytes(x.gear_down_mode)) == spec_u16_from_le_bytes(spec_u16_to_le_bytes(y.gear_down_mode)));
    assert(spec_u16_from_le_bytes(spec_u16_to_le_bytes(x._reserved_)) == spec_u16_from_le_bytes(spec_u16_to_le_bytes(y._reserved_)));
    assert(spec_u16_from_le_bytes(spec_u16_to_le_bytes(x.slow_mode)) == spec_u16_from_le_bytes(spec_u16_to_le_bytes(y.slow_mode)));
    assert(spec_u16_from_le_bytes(spec_u16_to_le_bytes(x._reserved_2)) == spec_u16_from_le_bytes(spec_u16_to_le_bytes(y._reserved_2)));
    assert(spec_u32_from_le_bytes(spec_u32_to_le_bytes(x.address_command_control)) == spec_u32_from_le_bytes(spec_u32_to_le_bytes(y.address_command_control)));
    assert(x.cke_drive_strength == y.cke_drive_strength);
    assert(x.cs_odt_drive_strength == y.cs_odt_drive_strength);
    assert(x.address_command_drive_strength == y.address_command_drive_strength);
    assert(x.clk_drive_strength == y.clk_drive_strength);
}

impl Default for RdimmDdr4CadBusElement {
    fn default() -> (r: Self)
        ensures
            r.spec_dimm_slots_per_channel() == 1,
            r.spec_ddr_rates() == 0xa00,
            r.spec_vdd_io() == 1,
            r.spec_dimm0_ranks() == 6,
            r.spec_dimm1_ranks() == 1,
            r.spec_gear_down_mode() == 0,
            r.spec__reserved_() == 0,
            r.spec_slow_mode() == 0,
            r.spec__reserved_2() == 0,
            r.spec_address_command_control() == 0x272727,
            r.spec_cke_drive_strength() == 7,
            r.spec_cs_odt_drive_strength() == 7,
            r.spec_address_command_drive_strength() == 7,
            r.spec_clk_drive_strength() == 7,
    {
        RdimmDdr4CadBusElement { dimm_slots_per_channel: 1, ddr_rates: 0xa00, vdd_io: 1, dimm0_ranks: 6, dimm1_ranks: 1, gear_down_mode: 0, _reserved_: 0, slow_mode: 0, _reserved_2: 0, address_command_control: 0x272727, cke_drive_strength: 7, cs_odt_drive_strength: 7, address_command_drive_strength: 7, clk_drive_strength: 7 }
    }
}

impl RdimmDdr4CadBusElement {
    /// An element for the given configuration, the rest as in the default; the
    /// address/command control value has 24 bits.
    pub fn new(
        dimm_slots_per_channel: u32,
        ddr_rates: DdrRates,
        dimm0_ranks: Ddr4DimmRanks,
        dimm1_ranks: Ddr4DimmRanks,
        address_command_control: u32,
    ) -> (r: Result<Self>)
        ensures
            r is Ok <==> address_command_control < 0x100_0000,
            r is Err ==> r == Err::<Self, Error>(Error::EntryTypeMismatch),
            r matches Ok(e) ==> {
                &&& e.spec_dimm_slots_per_channel() == dimm_slots_per_channel
                &&& e.spec_ddr_rates() == ddr_rates.spec_raw()
                &&& e.spec_vdd_io() == 1
                &&& e.spec_dimm0_ranks() == dimm0_ranks.spec_raw() as u32
                &&& e.spec_dimm1_ranks() == dimm1_ranks.spec_raw() as u32
                &&& e.spec_gear_down_mode() == 0
                &&& e.spec__reserved_() == 0
                &&& e.spec_slow_mode() == 0
                &&& e.spec__reserved_2() == 0
                &&& e.spec_address_command_control() == address_command_control
                &&& e.spec_cke_drive_strength() == 7
                &&& e.spec_cs_odt_drive_strength() == 7
                &&& e.spec_address_command_drive_strength() == 7
                &&& e.spec_clk_drive_strength() == 7
            },
    {
        if address_command_control < 0x100_0000 {
            let mut result = Self::default();
            result.dimm_slots_per_channel = dimm_slots_per_channel;
            result.ddr_rates = ddr_rates.to_u64().unwrap() as u32;
            result.dimm0_ranks = dimm0_ranks.to_u64().unwrap() as u32;
            result.dimm1_ranks = dimm1_ranks.to_u64().unwrap() as u32;
            result.address_command_control = address_command_control;
            Ok(result)
        } else {
            Err(Error::EntryTypeMismatch)
        }
    }
}

impl EntryCompatible for RdimmDdr4CadBusElement {
    fn is_entry_compatible(entry_id: EntryId, _prefix: &[u8]) -> (r: bool)
        ensures
            r == (entry_id == EntryId::Memory(MemoryEntryId::PsRdimmDdr4CadBus)),
    {
        matches!(entry_id, EntryId::Memory(MemoryEntryId::PsRdimmDdr4CadBus))
    }
}

/// Control/address bus settings for UDIMMs (one element per configuration).
#[allow(non_camel_case_types)]
#[derive(Debug, Clone, Copy, PartialEq, Eq, Structural)]
pub struct UdimmDdr4CadBusElement {
    pub(crate) dimm_slots_per_channel: u32,
    pub(crate) ddr_rates: u32,
    pub(crate) vdd_io: u32,
    pub(crate) dimm0_ranks: u32,
    pub(crate) dimm1_ranks: u32,
    pub(crate) gear_down_mode: u16,
    pub(crate) _reserved_: u16,
    pub(crate) slow_mode: u16,
    pub(crate) _reserved_2: u16,
    pub(crate) address_command_control: u32,
    pub(crate) cke_drive_strength: u8,
    pub(crate) cs_odt_drive_strength: u8,
    pub(crate) address_command_drive_strength: u8,
    pub(crate) clk_drive_strength: u8,
}

impl UdimmDdr4CadBusElement {
    pub closed spec fn spec_dimm_slots_per_channel(self) -> u32 {
        self.dimm_slots_per_channel
    }

    pub closed spec fn spec_ddr_rates(self) -> u32 {
        self.ddr_rates
    }

    pub closed spec fn spec_vdd_io(self) -> u32 {
        self.vdd_io
    }

    pub closed spec fn spec_dimm0_ranks(self) -> u32 {
        self.dimm0_ranks
    }

    pub closed spec fn spec_dimm1_ranks(self) -> u32 {
        self.dimm1_ranks
    }

    pub closed spec fn spec_gear_down_mode(self) -> u16 {
        self.gear_down_mode
    }

    pub closed spec fn spec__reserved_(self) -> u16 {
        self._reserved_
    }

    pub closed spec fn spec_slow_mode(self) -> u16 {
        self.slow_mode
    }

    pub closed spec fn spec__reserved_2(self) -> u16 {
        self._reserved_2
    }

    pub closed spec fn spec_address_command_control(self) -> u32 {
        self.address_command_control
    }

    pub closed spec fn spec_cke_drive_strength(self) -> u8 {
        self.cke_drive_strength
    }

    pub closed spec fn spec_cs_odt_drive_strength(self) -> u8 {
        self.cs_odt_drive_strength
    }

    pub closed spec fn spec_address_command_drive_strength(self) -> u8 {
        self.address_command_drive_strength
    }

    pub closed spec fn spec_clk_drive_strength(self) -> u8 {
        self.clk_drive_strength
    }

    pub fn dimm_slots_per_channel(&self) -> (r: Result<u32>)
        ensures
            r == Ok::<u32, Error>(self.spec_dimm_slots_per_channel()),
    {
        Ok(self.dimm_slots_per_channel)
    }

    pub fn set_dimm_slots_per_channel(&mut self, value: u32)
        ensures
            final(self).spec_dimm_slots_per_channel() == value,
            final(self).spec_ddr_rates() == old(self).spec_ddr_rates(),
            final(self).spec_vdd_io() == old(self).spec_vdd_io(),
            final(self).spec_dimm0_ranks() == old(self).spec_dimm0_ranks(),
            final(self).spec_dimm1_ranks() == old(self).spec_dimm1_ranks(),
            final(self).spec_gear_down_mode() == old(self).spec_gear_down_mode(),
            final(self).spec__reserved_() == old(self).spec__reserved_(),
            final(self).spec_slow_mode() == old(self).spec_slow_mode(),
            final(self).spec__reserved_2() == old(self).spec__reserved_2(),
            final(self).spec_address_command_control() == old(self).spec_address_command_control(),
            final(self).spec_cke_drive_strength() == old(self).spec_cke_drive_strength(),
            final(self).spec_cs_odt_drive_strength() == old(self).spec_cs_odt_drive_strength(),
            final(self).spec_address_command_drive_strength() == old(self).spec_address_command_drive_strength(),
            final(self).spec_clk_drive_strength() == old(self).spec_clk_drive_strength(),
    {
        self.dimm_slots_per_channel = value;
    }

    pub fn ddr_rates(&self) -> (r: Result<DdrRates>)
        ensures
            r is Ok <==> (self.spec_ddr_rates() as u64) & !0x1555578u64 == 0,
            r matches Ok(b) ==> b.spec_raw() == self.spec_ddr_rates(),
    {
        proof {
            if (self.ddr_rates as u64) & !0x1555578u64 == 0 {
                lemma_masked_bound_u64(self.ddr_rates as u64, 0x1555578u64);
            }
        }
        match DdrRates::from_u64(self.ddr_rates as u64) {
            Some(b) => Ok(b),
            None => Err(Error::EntryTypeMismatch),
        }
    }

    pub fn set_ddr_rates(&mut self, value: DdrRates)
        ensures
            final(self).spec_ddr_rates() == value.spec_raw() as u32,
            final(self).spec_dimm_slots_per_channel() == old(self).spec_dimm_slots_per_channel(),
            final(self).spec_vdd_io() == old(self).spec_vdd_io(),
            final(self).spec_dimm0_ranks() == old(self).spec_dimm0_ranks(),
            final(self).spec_dimm1_ranks() == old(self).spec_dimm1_ranks(),
            final(self).spec_gear_down_mode() == old(self).spec_gear_down_mode(),
            final(self).spec__reserved_() == old(self).spec__reserved_(),
            final(self).spec_slow_mode() == old(self).spec_slow_mode(),
            final(self).spec__reserved_2() == old(self).spec__reserved_2(),
            final(self).spec_address_command_control() == old(self).spec_address_command_control(),
            final(self).spec_cke_drive_strength() == old(self).spec_cke_drive_strength(),
            final(self).spec_cs_odt_drive_strength() == old(self).spec_cs_odt_drive_strength(),
            final(self).spec_address_command_drive_strength() == old(self).spec_address_command_drive_strength(),
            final(self).spec_clk_drive_strength() == old(self).spec_clk_drive_strength(),
    {
        self.ddr_rates = value.into_raw() as u32;
    }

    pub fn vdd_io(&self) -> (r: Result<UdimmDdr4Voltages>)
        ensures
            r is Ok <==> (self.spec_vdd_io() as u64) & !0x7u64 == 0,
            r matches Ok(b) ==> b.spec_raw() == self.spec_vdd_io(),
    {
        proof {
            if (self.vdd_io as u64) & !0x7u64 == 0 {
                lemma_masked_bound_u64(self.vdd_io as u64, 0x7u64);
            }
        }
        match UdimmDdr4Voltages::from_u64(self.vdd_io as u64) {
            Some(b) => Ok(b),
            None => Err(Error::EntryTypeMismatch),
        }
    }

    pub fn set_vdd_io(&mut self, value: UdimmDdr4Voltages)
        ensures
            final(self).spec_vdd_io() == value.spec_raw() as u32,
            final(self).spec_dimm_slots_per_channel() == old(self).spec_dimm_slots_per_channel(),
            final(self).spec_ddr_rates() == old(self).spec_ddr_rates(),
            final(self).spec_dimm0_ranks() == old(self).spec_dimm0_ranks(),
            final(self).spec_dimm1_ranks() == old(self).spec_dimm1_ranks(),
            final(self).spec_gear_down_mode() == old(self).spec_gear_down_mode(),
            final(self).spec__reserved_() == old(self).spec__reserved_(),
            final(self).spec_slow_mode() == old(self).spec_slow_mode(),
            final(self).spec__reserved_2() == old(self).spec__reserved_2(),
            final(self).spec_address_command_control() == old(self).spec_address_command_control(),
            final(self).spec_cke_drive_strength() == old(self).spec_cke_drive_strength(),
            final(self).spec_cs_odt_drive_strength() == old(self).spec_cs_odt_drive_strength(),
            final(self).spec_address_command_drive_strength() == old(self).spec_address_command_drive_strength(),
            final(self).spec_clk_drive_strength() == old(self).spec_clk_drive_strength(),
    {
        self.vdd_io = value.into_raw() as u32;
    }

    pub fn dimm0_ranks(&self) -> (r: Result<Ddr4DimmRanks>)
        ensures
            r is Ok <==> (self.spec_dimm0_ranks() as u64) & !0xfu64 == 0,
            r matches Ok(b) ==> b.spec_raw() == self.spec_dimm0_ranks(),
    {
        proof {
            if (self.dimm0_ranks as u64) & !0xfu64 == 0 {
                lemma_masked_bound_u64(self.dimm0_ranks as u64, 0xfu64);
            }
        }
        match Ddr4DimmRanks::from_u64(self.dimm0_ranks as u64) {
            Some(b) => Ok(b),
            None => Err(Error::EntryTypeMismatch),
        }
    }

    pub fn set_dimm0_ranks(&mut self, value: Ddr4DimmRanks)
        ensures
            final(self).spec_dimm0_ranks() == value.spec_raw() as u32,
            final(self).spec_dimm_slots_per_channel() == old(self).spec_dimm_slots_per_channel(),
            final(self).spec_ddr_rates() == old(self).spec_ddr_rates(),
            final(self).spec_vdd_io() == old(self).spec_vdd_io(),
            final(self).spec_dimm1_ranks() == old(self).spec_dimm1_ranks(),
            final(self).spec_gear_down_mode() == old(self).spec_gear_down_mode(),
            final(self).spec__reserved_() == old(self).spec__reserved_(),
            final(self).spec_slow_mode() == old(self).spec_slow_mode(),
            final(self).spec__reserved_2() == old(self).spec__reserved_2(),
            final(self).spec_address_command_control() == old(self).spec_address_command_control(),
            final(self).spec_cke_drive_strength() == old(self).spec_cke_drive_strength(),
            final(self).spec_cs_odt_drive_strength() == old(self).spec_cs_odt_drive_strength(),
            final(self).spec_address_command_drive_strength() == old(self).spec_address_command_drive_strength(),
            final(self).spec_clk_drive_strength() == old(self).spec_clk_drive_strength(),
    {
        self.dimm0_ranks = value.into_raw() as u32;
    }

    pub fn dimm1_ranks(&self) -> (r: Result<Ddr4DimmRanks>)
        ensures
            r is Ok <==> (self.spec_dimm1_ranks() as u64) & !0xfu64 == 0,
            r matches Ok(b) ==> b.spec_raw() == self.spec_dimm1_ranks(),
    {
        proof {
            if (self.dimm1_ranks as u64) & !0xfu64 == 0 {
                lemma_masked_bound_u64(self.dimm1_ranks as u64, 0xfu64);
            }
        }
        match Ddr4DimmRanks::from_u64(self.dimm1_ranks as u64) {
            Some(b) => Ok(b),
            None => Err(Error::EntryTypeMismatch),
        }
    }

    pub fn set_dimm1_ranks(&mut self, value: Ddr4DimmRanks)
        ensures
            final(self).spec_dimm1_ranks() == value.spec_raw() as u32,
            final(self).spec_dimm_slots_per_channel() == old(self).spec_dimm_slots_per_channel(),
            final(self).spec_ddr_rates() == old(self).spec_ddr_rates(),
            final(self).spec_vdd_io() == old(self).spec_vdd_io(),
            final(self).spec_dimm0_ranks() == old(self).spec_dimm0_ranks(),
            final(self).spec_gear_down_mode() == old(self).spec_gear_down_mode(),
            final(self).spec__reserved_() == old(self).spec__reserved_(),
            final(self).spec_slow_mode() == old(self).spec_slow_mode(),
            final(self).spec__reserved_2() == old(self).spec__reserved_2(),
            final(self).spec_address_command_control() == old(self).spec_address_command_control(),
            final(self).spec_cke_drive_strength() == old(self).spec_cke_drive_strength(),
            final(self).spec_cs_odt_drive_strength() == old(self).spec_cs_odt_drive_strength(),
            final(self).spec_address_command_drive_strength() == old(self).spec_address_command_drive_strength(),
            final(self).spec_clk_drive_strength() == old(self).spec_clk_drive_strength(),
    {
        self.dimm1_ranks = value.into_raw() as u32;
    }

    pub fn gear_down_mode(&self) -> (r: Result<u16>)
        ensures
            r == Ok::<u16, Error>(self.spec_gear_down_mode()),
    {
        Ok(self.gear_down_mode)
    }

    pub fn set_gear_down_mode(&mut self, value: u16)
        ensures
            final(self).spec_gear_down_mode() == value,
            final(self).spec_dimm_slots_per_channel() == old(self).spec_dimm_slots_per_channel(),
            final(self).spec_ddr_rates() == old(self).spec_ddr_rates(),
            final(self).spec_vdd_io() == old(self).spec_vdd_io(),
            final(self).spec_dimm0_ranks() == old(self).spec_dimm0_ranks(),
            final(self).spec_dimm1_ranks() == old(self).spec_dimm1_ranks(),
            final(self).spec__reserved_() == old(self).spec__reserved_(),
            final(self).spec_slow_mode() == old(self).spec_slow_mode(),
            final(self).spec__reserved_2() == old(self).spec__reserved_2(),
            final(self).spec_address_command_control() == old(self).spec_address_command_control(),
            final(self).spec_cke_drive_strength() == old(self).spec_cke_drive_strength(),
            final(self).spec_cs_odt_drive_strength() == old(self).spec_cs_odt_drive_strength(),
            final(self).spec_address_command_drive_strength() == old(self).spec_address_command_drive_strength(),
            final(self).spec_clk_drive_strength() == old(self).spec_clk_drive_strength(),
    {
        self.gear_down_mode = value;
    }

    pub fn slow_mode(&self) -> (r: Result<u16>)
        ensures
            r == Ok::<u16, Error>(self.spec_slow_mode()),
    {
        Ok(self.slow_mode)
    }

    pub fn set_slow_mode(&mut self, value: u16)
        ensures
            final(self).spec_slow_mode() == value,
            final(self).spec_dimm_slots_per_channel() == old(self).spec_dimm_slots_per_channel(),
            final(self).spec_ddr_rates() == old(self).spec_ddr_rates(),
            final(self).spec_vdd_io() == old(self).spec_vdd_io(),
            final(self).spec_dimm0_ranks() == old(self).spec_dimm0_ranks(),
            final(self).spec_dimm1_ranks() == old(self).spec_dimm1_ranks(),
            final(self).spec_gear_down_mode() == old(self).spec_gear_down_mode(),
            final(self).spec__reserved_() == old(self).spec__reserved_(),
            final(self).spec__reserved_2() == old(self).spec__reserved_2(),
            final(self).spec_address_command_control() == old(self).spec_address_command_control(),
            final(self).spec_cke_drive_strength() == old(self).spec_cke_drive_strength(),
            final(self).spec_cs_odt_drive_strength() == old(self).spec_cs_odt_drive_strength(),
            final(self).spec_address_command_drive_strength() == old(self).spec_address_command_drive_strength(),
            final(self).spec_clk_drive_strength() == old(self).spec_clk_drive_strength(),
    {
        self.slow_mode = value;
    }

    pub fn address_command_control(&self) -> (r: Result<u32>)
        ensures
            r == Ok::<u32, Error>(self.spec_address_command_control()),
    {
        Ok(self.address_command_control)
    }

    pub fn set_address_command_control(&mut self, value: u32)
        ensures
            final(self).spec_address_command_control() == value,
            final(self).spec_dimm_slots_per_channel() == old(self).spec_dimm_slots_per_channel(),
            final(self).spec_ddr_rates() == old(self).spec_ddr_rates(),
            final(self).spec_vdd_io() == old(self).spec_vdd_io(),
            final(self).spec_dimm0_ranks() == old(self).spec_dimm0_ranks(),
            final(self).spec_dimm1_ranks() == old(self).spec_dimm1_ranks(),
            final(self).spec_gear_down_mode() == old(self).spec_gear_down_mode(),
            final(self).spec__reserved_() == old(self).spec__reserved_(),
            final(self).spec_slow_mode() == old(self).spec_slow_mode(),
            final(self).spec__reserved_2() == old(self).spec__reserved_2(),
            final(self).spec_cke_drive_strength() == old(self).spec_cke_drive_strength(),
            final(self).spec_cs_odt_drive_strength() == old(self).spec_cs_odt_drive_strength(),
            final(self).spec_address_command_drive_strength() == old(self).spec_address_command_drive_strength(),
            final(self).spec_clk_drive_strength() == old(self).spec_clk_drive_strength(),
    {
        self.address_command_control = value;
    }

    pub fn cke_drive_strength(&self) -> (r: Result<CadBusClkDriveStrength>)
        ensures
            r == match CadBusClkDriveStrength::spec_from_u64(self.spec_cke_drive_strength() as u64) {
                Some(e) => Ok::<CadBusClkDriveStrength, Error>(e),
                None => Err(Error::EntryTypeMismatch),
            },
    {
        match CadBusClkDriveStrength::from_u64(self.cke_drive_strength as u64) {
            Some(e) => Ok(e),
            None => Err(Error::EntryTypeMismatch),
        }
    }

    pub fn set_cke_drive_strength(&mut self, value: CadBusClkDriveStrength)
        ensures
            final(self).spec_cke_drive_strength() == value.spec_to_u64() as u8,
            final(self).spec_dimm_slots_per_channel() == old(self).spec_dimm_slots_per_channel(),
            final(self).spec_ddr_rates() == old(self).spec_ddr_rates(),
            final(self).spec_vdd_io() == old(self).spec_vdd_io(),
            final(self).spec_dimm0_ranks() == old(self).spec_dimm0_ranks(),
            final(self).spec_dimm1_ranks() == old(self).spec_dimm1_ranks(),
            final(self).spec_gear_down_mode() == old(self).spec_gear_down_mode(),
            final(self).spec__reserved_() == old(self).spec__reserved_(),
            final(self).spec_slow_mode() == old(self).spec_slow_mode(),
            final(self).spec__reserved_2() == old(self).spec__reserved_2(),
            final(self).spec_address_command_control() == old(self).spec_address_command_control(),
            final(self).spec_cs_odt_drive_strength() == old(self).spec_cs_odt_drive_strength(),
            final(self).spec_address_command_drive_strength() == old(self).spec_address_command_drive_strength(),
            final(self).spec_clk_drive_strength() == old(self).spec_clk_drive_strength(),
    {
        self.cke_drive_strength = value.to_u64().unwrap() as u8;
    }

    pub fn cs_odt_drive_strength(&self) -> (r: Result<CadBusClkDriveStrength>)
        ensures
            r == match CadBusClkDriveStrength::spec_from_u64(self.spec_cs_odt_drive_strength() as u64) {
                Some(e) => Ok::<CadBusClkDriveStrength, Error>(e),
                None => Err(Error::EntryTypeMismatch),
            },
    {
        match CadBusClkDriveStrength::from_u64(self.cs_odt_drive_strength as u64) {
            Some(e) => Ok(e),
            None => Err(Error::EntryTypeMismatch),
        }
    }

    pub fn set_cs_odt_drive_strength(&mut self, value: CadBusClkDriveStrength)
        ensures
            final(self).spec_cs_odt_drive_strength() == value.spec_to_u64() as u8,
            final(self).spec_dimm_slots_per_channel() == old(self).spec_dimm_slots_per_channel(),
            final(self).spec_ddr_rates() == old(self).spec_ddr_rates(),
            final(self).spec_vdd_io() == old(self).spec_vdd_io(),
            final(self).spec_dimm0_ranks() == old(self).spec_dimm0_ranks(),
            final(self).spec_dimm1_ranks() == old(self).spec_dimm1_ranks(),
            final(self).spec_gear_down_mode() == old(self).spec_gear_down_mode(),
            final(self).spec__reserved_() == old(self).spec__reserved_(),
            final(self).spec_slow_mode() == old(self).spec_slow_mode(),
            final(self).spec__reserved_2() == old(self).spec__reserved_2(),
            final(self).spec_address_command_control() == old(self).spec_address_command_control(),
            final(self).spec_cke_drive_strength() == old(self).spec_cke_drive_strength(),
            final(self).spec_address_command_drive_strength() == old(self).spec_address_command_drive_strength(),
            final(self).spec_clk_drive_strength() == old(self).spec_clk_drive_strength(),
    {
        self.cs_odt_drive_strength = value.to_u64().unwrap() as u8;
    }

    pub fn address_command_drive_strength(&self) -> (r: Result<CadBusClkDriveStrength>)
        ensures
            r == match CadBusClkDriveStrength::spec_from_u64(self.spec_address_command_drive_strength() as u64) {
                Some(e) => Ok::<CadBusClkDriveStrength, Error>(e),
                None => Err(Error::EntryTypeMismatch),
            },
    {
        match CadBusClkDriveStrength::from_u64(self.address_command_drive_strength as u64) {
            Some(e) => Ok(e),
            None => Err(Error::EntryTypeMismatch),
        }
    }

    pub fn set_address_command_drive_strength(&mut self, value: CadBusClkDriveStrength)
        ensures
            final(self).spec_address_command_drive_strength() == value.spec_to_u64() as u8,
            final(self).spec_dimm_slots_per_channel() == old(self).spec_dimm_slots_per_channel(),
            final(self).spec_ddr_rates() == old(self).spec_ddr_rates(),
            final(self).spec_vdd_io() == old(self).spec_vdd_io(),
            final(self).spec_dimm0_ranks() == old(self).spec_dimm0_ranks(),
            final(self).spec_dimm1_ranks() == old(self).spec_dimm1_ranks(),
            final(self).spec_gear_down_mode() == old(self).spec_gear_down_mode(),
            final(self).spec__reserved_() == old(self).spec__reserved_(),
            final(self).spec_slow_mode() == old(self).spec_slow_mode(),
            final(self).spec__reserved_2() == old(self).spec__reserved_2(),
            final(self).spec_address_command_control() == old(self).spec_address_command_control(),
            final(self).spec_cke_drive_strength() == old(self).spec_cke_drive_strength(),
            final(self).spec_cs_odt_drive_strength() == old(self).spec_cs_odt_drive_strength(),
            final(self).spec_clk_drive_strength() == old(self).spec_clk_drive_strength(),
    {
        self.address_command_drive_strength = value.to_u64().unwrap() as u8;
    }

    pub fn clk_drive_strength(&self) -> (r: Result<CadBusClkDriveStrength>)
        ensures
            r == match CadBusClkDriveStrength::spec_from_u64(self.spec_clk_drive_strength() as u64) {
                Some(e) => Ok::<CadBusClkDriveStrength, Error>(e),
                None => Err(Error::EntryTypeMismatch),
            },
    {
        match CadBusClkDriveStrength::from_u64(self.clk_drive_strength as u64) {
            Some(e) => Ok(e),
            None => Err(Error::EntryTypeMismatch),
        }
    }

    pub fn set_clk_drive_strength(&mut self, value: CadBusClkDriveStrength)
        ensures
            final(self).spec_clk_drive_strength() == value.spec_to_u64() as u8,
            final(self).spec_dimm_slots_per_channel() == old(self).spec_dimm_slots_per_channel(),
            final(self).spec_ddr_rates() == old(self).spec_ddr_rates(),
            final(self).spec_vdd_io() == old(self).spec_vdd_io(),
            final(self).spec_dimm0_ranks() == old(self).spec_dimm0_ranks(),
            final(self).spec_dimm1_ranks() == old(self).spec_dimm1_ranks(),
            final(self).spec_gear_down_mode() == old(self).spec_gear_down_mode(),
            final(self).spec__reserved_() == old(self).spec__reserved_(),
            final(self).spec_slow_mode() == old(self).spec_slow_mode(),
            final(self).spec__reserved_2() == old(self).spec__reserved_2(),
            final(self).spec_address_command_control() == old(self).spec_address_command_control(),
            final(self).spec_cke_drive_strength() == old(self).spec_cke_drive_strength(),
            final(self).spec_cs_odt_drive_strength() == old(self).spec_cs_odt_drive_strength(),
            final(self).spec_address_command_drive_strength() == old(self).spec_address_command_drive_strength(),
    {
        self.clk_drive_strength = value.to_u64().unwrap() as u8;
    }

}

impl UdimmDdr4CadBusElement {
    /// The bytes that store this value on disk.
    pub closed spec fn spec_bytes(self) -> Seq<u8> {
        spec_u32_to_le_bytes(self.dimm_slots_per_channel)
            + spec_u32_to_le_bytes(self.ddr_rates)
            + spec_u32_to_le_bytes(self.vdd_io)
            + spec_u32_to_le_bytes(self.dimm0_ranks)
            + spec_u32_to_le_bytes(self.dimm1_ranks)
            + spec_u16_to_le_bytes(self.gear_down_mode)
            + spec_u16_to_le_bytes(self._reserved_)
            + spec_u16_to_le_bytes(self.slow_mode)
            + spec_u16_to_le_bytes(self._reserved_2)
            + spec_u32_to_le_bytes(self.address_command_control)
            + seq![self.cke_drive_strength]
            + seq![self.cs_odt_drive_strength]
            + seq![self.address_command_drive_strength]
            + seq![self.clk_drive_strength]
    }
}

impl ByteLayout for UdimmDdr4CadBusElement {
    open spec fn spec_size() -> nat {
        36
    }

    open spec fn spec_to_bytes(self) -> Seq<u8> {
        self.spec_bytes()
    }

    fn size() -> (r: usize) {
        36
    }

    #[verifier::spinoff_prover]
    #[verifier::rlimit(60)]
    fn from_bytes(bytes: &[u8]) -> (r: Self) {
        let dimm_slots_per_channel: u32 = u32_from_le_bytes(slice_subrange(bytes, 0, 4));
        let ddr_rates: u32 = u32_from_le_bytes(slice_subrange(bytes, 4, 8));
        let vdd_io: u32 = u32_from_le_bytes(slice_subrange(bytes, 8, 12));
        let dimm0_ranks: u32 = u32_from_le_bytes(slice_subrange(bytes, 12, 16));
        let dimm1_ranks: u32 = u32_from_le_bytes(slice_subrange(bytes, 16, 20));
        let gear_down_mode: u16 = u16_from_le_bytes(slice_subrange(bytes, 20, 22));
        let _reserved_: u16 = u16_from_le_bytes(slice_subrange(bytes, 22, 24));
        let slow_mode: u16 = u16_from_le_bytes(slice_subrange(bytes, 24, 26));
        let _reserved_2: u16 = u16_from_le_bytes(slice_subrange(bytes, 26, 28));
        let address_command_control: u32 = u32_from_le_bytes(slice_subrange(bytes, 28, 32));
        let cke_drive_strength: u8 = bytes[32];
        let cs_odt_drive_strength: u8 = bytes[33];
        let address_command_drive_strength: u8 = bytes[34];
        let clk_drive_strength: u8 = bytes[35];
        let r = UdimmDdr4CadBusElement { dimm_slots_per_channel, ddr_rates, vdd_io, dimm0_ranks, dimm1_ranks, gear_down_mode, _reserved_, slow_mode, _reserved_2, address_command_control, cke_drive_strength, cs_odt_drive_strength, address_command_drive_strength, clk_drive_strength };
        proof {
            lemma_auto_spec_u16_to_from_le_bytes();
            lemma_auto_spec_u32_to_from_le_bytes();
            lemma_auto_spec_u64_to_from_le_bytes();
            lemma_udimm_ddr4_cad_bus_element_bytes_pieces(r);
            assert(bytes@.subrange(0, 4) == spec_u32_to_le_bytes(dimm_slots_per_channel));
            assert(bytes@.subrange(4, 8) == spec_u32_to_le_bytes(ddr_rates));
            assert(bytes@.subrange(8, 12) == spec_u32_to_le_bytes(vdd_io));
            assert(bytes@.subrange(12, 16) == spec_u32_to_le_bytes(dimm0_ranks));
            assert(bytes@.subrange(16, 20) == spec_u32_to_le_bytes(dimm1_ranks));
            assert(bytes@.subrange(20, 22) == spec_u16_to_le_bytes(gear_down_mode));
            assert(bytes@.subrange(22, 24) == spec_u16_to_le_bytes(_reserved_));
            assert(bytes@.subrange(24, 26) == spec_u16_to_le_bytes(slow_mode));
            assert(bytes@.subrange(26, 28) == spec_u16_to_le_bytes(_reserved_2));
            assert(bytes@.subrange(28, 32) == spec_u32_to_le_bytes(address_command_control));
            assert(bytes@.subrange(0, 8) =~= bytes@.subrange(0, 4) + bytes@.subrange(4, 8));
            assert(bytes@.subrange(0, 12) =~= bytes@.subrange(0, 8) + bytes@.subrange(8, 12));
            assert(bytes@.subrange(0, 16) =~= bytes@.subrange(0, 12) + bytes@.subrange(12, 16));
            assert(bytes@.subrange(0, 20) =~= bytes@.subrange(0, 16) + bytes@.subrange(16, 20));
            assert(bytes@.subrange(0, 22) =~= bytes@.subrange(0, 20) + bytes@.subrange(20, 22));
            assert(bytes@.subrange(0, 24) =~= bytes@.subrange(0, 22) + bytes@.subrange(22, 24));
            assert(bytes@.subrange(0, 26) =~= bytes@.subrange(0, 24) + bytes@.subrange(24, 26));
            assert(bytes@.subrange(0, 28) =~= bytes@.subrange(0, 26) + bytes@.subrange(26, 28));
            assert(bytes@.subrange(0, 32) =~= bytes@.subrange(0, 28) + bytes@.subrange(28, 32));
            assert(bytes@.subrange(0, 33) =~= bytes@.subrange(0, 32) + bytes@.subrange(32, 33));
            assert(bytes@.subrange(0, 34) =~= bytes@.subrange(0, 33) + bytes@.subrange(33, 34));
            assert(bytes@.subrange(0, 35) =~= bytes@.subrange(0, 34) + bytes@.subrange(34, 35));
            assert(bytes@.subrange(0, 36) =~= bytes@.subrange(0, 35) + bytes@.subrange(35, 36));
            assert(bytes@.subrange(0, 36) =~= bytes@);
            assert(bytes@ == r.spec_bytes());
        }
        r
    }

    #[verifier::spinoff_prover]
    #[verifier::rlimit(60)]
    fn to_bytes(&self) -> (r: Vec<u8>) {
        let mut out: Vec<u8> = Vec::new();
        append_bytes(&mut out, &le_bytes_u32(self.dimm_slots_per_channel));
        append_bytes(&mut out, &le_bytes_u32(self.ddr_rates));
        append_bytes(&mut out, &le_bytes_u32(self.vdd_io));
        append_bytes(&mut out, &le_bytes_u32(self.dimm0_ranks));
        append_bytes(&mut out, &le_bytes_u32(self.dimm1_ranks));
        append_bytes(&mut out, &le_bytes_u16(self.gear_down_mode));
        append_bytes(&mut out, &le_bytes_u16(self._reserved_));
        append_bytes(&mut out, &le_bytes_u16(self.slow_mode));
        append_bytes(&mut out, &le_bytes_u16(self._reserved_2));
        append_bytes(&mut out, &le_bytes_u32(self.address_command_control));
        out.push(self.cke_drive_strength);
        out.push(self.cs_odt_drive_strength);
        out.push(self.address_command_drive_strength);
        out.push(self.clk_drive_strength);
        proof {
            lemma_udimm_ddr4_cad_bus_element_bytes_pieces(*self);
        }
        out
    }
}

/// How the bytes of a UdimmDdr4CadBusElement split up into its fields.
pub proof fn lemma_udimm_ddr4_cad_bus_element_bytes_pieces(x: UdimmDdr4CadBusElement)
    ensures
        x.spec_bytes().len() == 36,
        x.spec_bytes().subrange(0, 4) == spec_u32_to_le_bytes(x.spec_dimm_slots_per_channel()),
        x.spec_bytes().subrange(4, 8) == spec_u32_to_le_bytes(x.spec_ddr_rates()),
        x.spec_bytes().subrange(8, 12) == spec_u32_to_le_bytes(x.spec_vdd_io()),
        x.spec_bytes().subrange(12, 16) == spec_u32_to_le_bytes(x.spec_dimm0_ranks()),
        x.spec_bytes().subrange(16, 20) == spec_u32_to_le_bytes(x.spec_dimm1_ranks()),
        x.spec_bytes().subrange(20, 22) == spec_u16_to_le_bytes(x.spec_gear_down_mode()),
        x.spec_bytes().subrange(22, 24) == spec_u16_to_le_bytes(x.spec__reserved_()),
        x.spec_bytes().subrange(24, 26) == spec_u16_to_le_bytes(x.spec_slow_mode()),
        x.spec_bytes().subrange(26, 28) == spec_u16_to_le_bytes(x.spec__reserved_2()),
        x.spec_bytes().subrange(28, 32) == spec_u32_to_le_bytes(x.spec_address_command_control()),
        x.spec_bytes()[32] == x.spec_cke_drive_strength(),
        x.spec_bytes()[33] == x.spec_cs_odt_drive_strength(),
        x.spec_bytes()[34] == x.spec_address_command_drive_strength(),
        x.spec_bytes()[35] == x.spec_clk_drive_strength(),
{
    lemma_auto_spec_u16_to_from_le_bytes();
    lemma_auto_spec_u32_to_from_le_bytes();
    lemma_auto_spec_u64_to_from_le_bytes();
    assert(x.spec_bytes().subrange(0, 4) == spec_u32_to_le_bytes(x.dimm_slots_per_channel));
    assert(x.spec_bytes().subrange(4, 8) == spec_u32_to_le_bytes(x.ddr_rates));
    assert(x.spec_bytes().subrange(8, 12) == spec_u32_to_le_bytes(x.vdd_io));
    assert(x.spec_bytes().subrange(12, 16) == spec_u32_to_le_bytes(x.dimm0_ranks));
    assert(x.spec_bytes().subrange(16, 20) == spec_u32_to_le_bytes(x.dimm1_ranks));
    assert(x.spec_bytes().subrange(20, 22) == spec_u16_to_le_bytes(x.gear_down_mode));
    assert(x.spec_bytes().subrange(22, 24) == spec_u16_to_le_bytes(x._reserved_));
    assert(x.spec_bytes().subrange(24, 26) == spec_u16_to_le_bytes(x.slow_mode));
    assert(x.spec_bytes().subrange(26, 28) == spec_u16_to_le_bytes(x._reserved_2));
    assert(x.spec_bytes().subrange(28, 32) == spec_u32_to_le_bytes(x.address_command_control));
}

/// Two values of UdimmDdr4CadBusElement with the same bytes are the same value.
#[verifier::spinoff_prover]
#[verifier::rlimit(60)]
pub proof fn lemma_udimm_ddr4_cad_bus_element_bytes_injective(x: UdimmDdr4CadBusElement, y: UdimmDdr4CadBusElement)
    requires
        x.spec_bytes() == y.spec_bytes(),
    ensures
        x == y,
{
    lemma_udimm_ddr4_cad_bus_element_bytes_pieces(x);
    lemma_udimm_ddr4_cad_bus_element_bytes_pieces(y);
    lemma_auto_spec_u16_to_from_le_bytes();
    lemma_auto_spec_u32_to_from_le_bytes();
    lemma_auto_spec_u64_to_from_le_bytes();
    assert(spec_u32_from_le_bytes(spec_u32_to_le_bytes(x.dimm_slots_per_channel)) == spec_u32_from_le_bytes(spec_u32_to_le_bytes(y.dimm_slots_per_channel)));
    assert(spec_u32_from_le_bytes(spec_u32_to_le_bytes(x.ddr_rates)) == spec_u32_from_le_bytes(spec_u32_to_le_bytes(y.ddr_rates)));
    assert(spec_u32_from_le_bytes(spec_u32_to_le_bytes(x.vdd_io)) == spec_u32_from_le_bytes(spec_u32_to_le_bytes(y.vdd_io)));
    assert(spec_u32_from_le_bytes(spec_u32_to_le_bytes(x.dimm0_ranks)) == spec_u32_from_le_bytes(spec_u32_to_le_bytes(y.dimm0_ranks)));
    assert(spec_u32_from_le_bytes(spec_u32_to_le_bytes(x.dimm1_ranks)) == spec_u32_from_le_bytes(spec_u32_to_le_bytes(y.dimm1_ranks)));
    assert(spec_u16_from_le_bytes(spec_u16_to_le_bytes(x.gear_down_mode)) == spec_u16_from_le_bytes(spec_u16_to_le_bytes(y.gear_down_mode)));
    assert(spec_u16_from_le_bytes(spec_u16_to_le_bytes(x._reserved_)) == spec_u16_from_le_bytes(spec_u16_to_le_bytes(y._reserved_)));
    assert(spec_u16_from_le_bytes(spec_u16_to_le_bytes(x.slow_mode)) == spec_u16_from_le_bytes(spec_u16_to_le_bytes(y.slow_mode)));
    assert(spec_u16_from_le_bytes(spec_u16_to_le_bytes(x._reserved_2)) == spec_u16_from_le_bytes(spec_u16_to_le_bytes(y._reserved_2)));
    assert(spec_u32_from_le_bytes(spec_u32_to_le_bytes(x.address_command_control)) == spec_u32_from_le_bytes(spec_u32_to_le_bytes(y.address_command_control)));
    assert(x.cke_drive_strength == y.cke_drive_strength);
    assert(x.cs_odt_drive_strength == y.cs_odt_drive_strength);
    assert(x.address_command_drive_strength == y.address_command_drive_strength);
    assert(x.clk_drive_strength == y.clk_drive_strength);
}

impl Default for UdimmDdr4CadBusElement {
    fn default() -> (r: Self)
        ensures
            r.spec_dimm_slots_per_channel() == 1,
            r.spec_ddr_rates() == 0xa00,
            r.spec_vdd_io() == 1,
            r.spec_dimm0_ranks() == 6,
            r.spec_dimm1_ranks() == 1,
            r.spec_gear_down_mode() == 0,
            r.spec__reserved_() == 0,
            r.spec_slow_mode() == 0,
            r.spec__reserved_2() == 0,
            r.spec_address_command_control() == 0x272727,
            r.spec_cke_drive_strength() == 7,
            r.spec_cs_odt_drive_strength() == 7,
            r.spec_address_command_drive_strength() == 7,
            r.spec_clk_drive_strength() == 7,
    {
        UdimmDdr4CadBusElement { dimm_slots_per_channel: 1, ddr_rates: 0xa00, vdd_io: 1, dimm0_ranks: 6, dimm1_ranks: 1, gear_down_mode: 0, _reserved_: 0, slow_mode: 0, _reserved_2: 0, address_command_control: 0x272727, cke_drive_strength: 7, cs_odt_drive_strength: 7, address_command_drive_strength: 7, clk_drive_strength: 7 }
    }
}

impl EntryCompatible for UdimmDdr4CadBusElement {
    fn is_entry_compatible(entry_id: EntryId, _prefix: &[u8]) -> (r: bool)
        ensures
            r == (entry_id == EntryId::Memory(MemoryEntryId::PsUdimmDdr4CadBus)),
    {
        matches!(entry_id, EntryId::Memory(MemoryEntryId::PsUdimmDdr4CadBus))
    }
}

/// Control/address bus settings for LRDIMMs (one element per configuration).
#[allow(non_camel_case_types)]
#[derive(Debug, Clone, Copy, PartialEq, Eq, Structural)]
pub struct LrdimmDdr4CadBusElement {
    pub(crate) dimm_slots_per_channel: u32,
    pub(crate) ddr_rates: u32,
    pub(crate) vdd_io: u32,
    pub(crate) dimm0_ranks: u32,
    pub(crate) dimm1_ranks: u32,
    pub(crate) gear_down_mode: u16,
    pub(crate) _reserved_: u16,
    pub(crate) slow_mode: u16,
    pub(crate) _reserved_2: u16,
    pub(crate) address_command_control: u32,
    pub(crate) cke_drive_strength: u8,
    pub(crate) cs_odt_drive_strength: u8,
    pub(crate) address_command_drive_strength: u8,
    pub(crate) clk_drive_strength: u8,
}

impl LrdimmDdr4CadBusElement {
    pub closed spec fn spec_dimm_slots_per_channel(self) -> u32 {
        self.dimm_slots_per_channel
    }

    pub closed spec fn spec_ddr_rates(self) -> u32 {
        self.ddr_rates
    }

    pub closed spec fn spec_vdd_io(self) -> u32 {
        self.vdd_io
    }

    pub closed spec fn spec_dimm0_ranks(self) -> u32 {
        self.dimm0_ranks
    }

    pub closed spec fn spec_dimm1_ranks(self) -> u32 {
        self.dimm1_ranks
    }

    pub closed spec fn spec_gear_down_mode(self) -> u16 {
        self.gear_down_mode
    }

    pub closed spec fn spec__reserved_(self) -> u16 {
        self._reserved_
    }

    pub closed spec fn spec_slow_mode(self) -> u16 {
        self.slow_mode
    }

    pub closed spec fn spec__reserved_2(self) -> u16 {
        self._reserved_2
    }

    pub closed spec fn spec_address_command_control(self) -> u32 {
        self.address_command_control
    }

    pub closed spec fn spec_cke_drive_strength(self) -> u8 {
        self.cke_drive_strength
    }

    pub closed spec fn spec_cs_odt_drive_strength(self) -> u8 {
        self.cs_odt_drive_strength
    }

    pub closed spec fn spec_address_command_drive_strength(self) -> u8 {
        self.address_command_drive_strength
    }

    pub closed spec fn spec_clk_drive_strength(self) -> u8 {
        self.clk_drive_strength
    }

    pub fn dimm_slots_per_channel(&self) -> (r: Result<u32>)
        ensures
            r == Ok::<u32, Error>(self.spec_dimm_slots_per_channel()),
    {
        Ok(self.dimm_slots_per_channel)
    }

    pub fn set_dimm_slots_per_channel(&mut self, value: u32)
        ensures
            final(self).spec_dimm_slots_per_channel() == value,
            final(self).spec_ddr_rates() == old(self).spec_ddr_rates(),
            final(self).spec_vdd_io() == old(self).spec_vdd_io(),
            final(self).spec_dimm0_ranks() == old(self).spec_dimm0_ranks(),
            final(self).spec_dimm1_ranks() == old(self).spec_dimm1_ranks(),
            final(self).spec_gear_down_mode() == old(self).spec_gear_down_mode(),
            final(self).spec__reserved_() == old(self).spec__reserved_(),
            final(self).spec_slow_mode() == old(self).spec_slow_mode(),
            final(self).spec__reserved_2() == old(self).spec__reserved_2(),
            final(self).spec_address_command_control() == old(self).spec_address_command_control(),
            final(self).spec_cke_drive_strength() == old(self).spec_cke_drive_strength(),
            final(self).spec_cs_odt_drive_strength() == old(self).spec_cs_odt_drive_strength(),
            final(self).spec_address_command_drive_strength() == old(self).spec_address_command_drive_strength(),
            final(self).spec_clk_drive_strength() == old(self).spec_clk_drive_strength(),
    {
        self.dimm_slots_per_channel = value;
    }

    pub fn ddr_rates(&self) -> (r: Result<DdrRates>)
        ensures
            r is Ok <==> (self.spec_ddr_rates() as u64) & !0x1555578u64 == 0,
            r matches Ok(b) ==> b.spec_raw() == self.spec_ddr_rates(),
    {
        proof {
            if (self.ddr_rates as u64) & !0x1555578u64 == 0 {
                lemma_masked_bound_u64(self.ddr_rates as u64, 0x1555578u64);
            }
        }
        match DdrRates::from_u64(self.ddr_rates as u64) {
            Some(b) => Ok(b),
            None => Err(Error::EntryTypeMismatch),
        }
    }

    pub fn set_ddr_rates(&mut self, value: DdrRates)
        ensures
            final(self).spec_ddr_rates() == value.spec_raw() as u32,
            final(self).spec_dimm_slots_per_channel() == old(self).spec_dimm_slots_per_channel(),
            final(self).spec_vdd_io() == old(self).spec_vdd_io(),
            final(self).spec_dimm0_ranks() == old(self).spec_dimm0_ranks(),
            final(self).spec_dimm1_ranks() == old(self).spec_dimm1_ranks(),
            final(self).spec_gear_down_mode() == old(self).spec_gear_down_mode(),
            final(self).spec__reserved_() == old(self).spec__reserved_(),
            final(self).spec_slow_mode() == old(self).spec_slow_mode(),
            final(self).spec__reserved_2() == old(self).spec__reserved_2(),
            final(self).spec_address_command_control() == old(self).spec_address_command_control(),
            final(self).spec_cke_drive_strength() == old(self).spec_cke_drive_strength(),
            final(self).spec_cs_odt_drive_strength() == old(self).spec_cs_odt_drive_strength(),
            final(self).spec_address_command_drive_strength() == old(self).spec_address_command_drive_strength(),
            final(self).spec_clk_drive_strength() == old(self).spec_clk_drive_strength(),
    {
        self.ddr_rates = value.into_raw() as u32;
    }

    pub fn vdd_io(&self) -> (r: Result<LrdimmDdr4Voltages>)
        ensures
            r is Ok <==> (self.spec_vdd_io() as u64) & !0x1u64 == 0,
            r matches Ok(b) ==> b.spec_raw() == self.spec_vdd_io(),
    {
        proof {
            if (self.vdd_io as u64) & !0x1u64 == 0 {
                lemma_masked_bound_u64(self.vdd_io as u64, 0x1u64);
            }
        }
        match LrdimmDdr4Voltages::from_u64(self.vdd_io as u64) {
            Some(b) => Ok(b),
            None => Err(Error::EntryTypeMismatch),
        }
    }

    pub fn set_vdd_io(&mut self, value: LrdimmDdr4Voltages)
        ensures
            final(self).spec_vdd_io() == value.spec_raw() as u32,
            final(self).spec_dimm_slots_per_channel() == old(self).spec_dimm_slots_per_channel(),
            final(self).spec_ddr_rates() == old(self).spec_ddr_rates(),
            final(self).spec_dimm0_ranks() == old(self).spec_dimm0_ranks(),
            final(self).spec_dimm1_ranks() == old(self).spec_dimm1_ranks(),
            final(self).spec_gear_down_mode() == old(self).spec_gear_down_mode(),
            final(self).spec__reserved_() == old(self).spec__reserved_(),
            final(self).spec_slow_mode() == old(self).spec_slow_mode(),
            final(self).spec__reserved_2() == old(self).spec__reserved_2(),
            final(self).spec_address_command_control() == old(self).spec_address_command_control(),
            final(self).spec_cke_drive_strength() == old(self).spec_cke_drive_strength(),
            final(self).spec_cs_odt_drive_strength() == old(self).spec_cs_odt_drive_strength(),
            final(self).spec_address_command_drive_strength() == old(self).spec_address_command_drive_strength(),
            final(self).spec_clk_drive_strength() == old(self).spec_clk_drive_strength(),
    {
        self.vdd_io = value.into_raw() as u32;
    }

    pub fn dimm0_ranks(&self) -> (r: Result<LrdimmDdr4DimmRanks>)
        ensures
            r is Ok <==> (self.spec_dimm0_ranks() as u64) & !0x3u64 == 0,
            r matches Ok(b) ==> b.spec_raw() == self.spec_dimm0_ranks(),
    {
        proof {
            if (self.dimm0_ranks as u64) & !0x3u64 == 0 {
                lemma_masked_bound_u64(self.dimm0_ranks as u64, 0x3u64);
            }
        }
        match LrdimmDdr4DimmRanks::from_u64(self.dimm0_ranks as u64) {
            Some(b) => Ok(b),
            None => Err(Error::EntryTypeMismatch),
        }
    }

    pub fn set_dimm0_ranks(&mut self, value: LrdimmDdr4DimmRanks)
        ensures
            final(self).spec_dimm0_ranks() == value.spec_raw() as u32,
            final(self).spec_dimm_slots_per_channel() == old(self).spec_dimm_slots_per_channel(),
            final(self).spec_ddr_rates() == old(self).spec_ddr_rates(),
            final(self).spec_vdd_io() == old(self).spec_vdd_io(),
            final(self).spec_dimm1_ranks() == old(self).spec_dimm1_ranks(),
            final(self).spec_gear_down_mode() == old(self).spec_gear_down_mode(),
            final(self).spec__reserved_() == old(self).spec__reserved_(),
            final(self).spec_slow_mode() == old(self).spec_slow_mode(),
            final(self).spec__reserved_2() == old(self).spec__reserved_2(),
            final(self).spec_address_command_control() == old(self).spec_address_command_control(),
            final(self).spec_cke_drive_strength() == old(self).spec_cke_drive_strength(),
            final(self).spec_cs_odt_drive_strength() == old(self).spec_cs_odt_drive_strength(),
            final(self).spec_address_command_drive_strength() == old(self).spec_address_command_drive_strength(),
            final(self).spec_clk_drive_strength() == old(self).spec_clk_drive_strength(),
    {
        self.dimm0_ranks = value.into_raw() as u32;
    }

    pub fn dimm1_ranks(&self) -> (r: Result<LrdimmDdr4DimmRanks>)
        ensures
            r is Ok <==> (self.spec_dimm1_ranks() as u64) & !0x3u64 == 0,
            r matches Ok(b) ==> b.spec_raw() == self.spec_dimm1_ranks(),
    {
        proof {
            if (self.dimm1_ranks as u64) & !0x3u64 == 0 {
                lemma_masked_bound_u64(self.dimm1_ranks as u64, 0x3u64);
            }
        }
        match LrdimmDdr4DimmRanks::from_u64(self.dimm1_ranks as u64) {
            Some(b) => Ok(b),
            None => Err(Error::EntryTypeMismatch),
        }
    }

    pub fn set_dimm1_ranks(&mut self, value: LrdimmDdr4DimmRanks)
        ensures
            final(self).spec_dimm1_ranks() == value.spec_raw() as u32,
            final(self).spec_dimm_slots_per_channel() == old(self).spec_dimm_slots_per_channel(),
            final(self).spec_ddr_rates() == old(self).spec_ddr_rates(),
            final(self).spec_vdd_io() == old(self).spec_vdd_io(),
            final(self).spec_dimm0_ranks() == old(self).spec_dimm0_ranks(),
            final(self).spec_gear_down_mode() == old(self).spec_gear_down_mode(),
            final(self).spec__reserved_() == old(self).spec__reserved_(),
            final(self).spec_slow_mode() == old(self).spec_slow_mode(),
            final(self).spec__reserved_2() == old(self).spec__reserved_2(),
            final(self).spec_address_command_control() == old(self).spec_address_command_control(),
            final(self).spec_cke_drive_strength() == old(self).spec_cke_drive_strength(),
            final(self).spec_cs_odt_drive_strength() == old(self).spec_cs_odt_drive_strength(),
            final(self).spec_address_command_drive_strength() == old(self).spec_address_command_drive_strength(),
            final(self).spec_clk_drive_strength() == old(self).spec_clk_drive_strength(),
    {
        self.dimm1_ranks = value.into_raw() as u32;
    }

    pub fn gear_down_mode(&self) -> (r: Result<u16>)
        ensures
            r == Ok::<u16, Error>(self.spec_gear_down_mode()),
    {
        Ok(self.gear_down_mode)
    }

    pub fn set_gear_down_mode(&mut self, value: u16)
        ensures
            final(self).spec_gear_down_mode() == value,
            final(self).spec_dimm_slots_per_channel() == old(self).spec_dimm_slots_per_channel(),
            final(self).spec_ddr_rates() == old(self).spec_ddr_rates(),
            final(self).spec_vdd_io() == old(self).spec_vdd_io(),
            final(self).spec_dimm0_ranks() == old(self).spec_dimm0_ranks(),
            final(self).spec_dimm1_ranks() == old(self).spec_dimm1_ranks(),
            final(self).spec__reserved_() == old(self).spec__reserved_(),
            final(self).spec_slow_mode() == old(self).spec_slow_mode(),
            final(self).spec__reserved_2() == old(self).spec__reserved_2(),
            final(self).spec_address_command_control() == old(self).spec_address_command_control(),
            final(self).spec_cke_drive_strength() == old(self).spec_cke_drive_strength(),
            final(self).spec_cs_odt_drive_strength() == old(self).spec_cs_odt_drive_strength(),
            final(self).spec_address_command_drive_strength() == old(self).spec_address_command_drive_strength(),
            final(self).spec_clk_drive_strength() == old(self).spec_clk_drive_strength(),
    {
        self.gear_down_mode = value;
    }

    pub fn slow_mode(&self) -> (r: Result<u16>)
        ensures
            r == Ok::<u16, Error>(self.spec_slow_mode()),
    {
        Ok(self.slow_mode)
    }

    pub fn set_slow_mode(&mut self, value: u16)
        ensures
            final(self).spec_slow_mode() == value,
            final(self).spec_dimm_slots_per_channel() == old(self).spec_dimm_slots_per_channel(),
            final(self).spec_ddr_rates() == old(self).spec_ddr_rates(),
            final(self).spec_vdd_io() == old(self).spec_vdd_io(),
            final(self).spec_dimm0_ranks() == old(self).spec_dimm0_ranks(),
            final(self).spec_dimm1_ranks() == old(self).spec_dimm1_ranks(),
            final(self).spec_gear_down_mode() == old(self).spec_gear_down_mode(),
            final(self).spec__reserved_() == old(self).spec__reserved_(),
            final(self).spec__reserved_2() == old(self).spec__reserved_2(),
            final(self).spec_address_command_control() == old(self).spec_address_command_control(),
            final(self).spec_cke_drive_strength() == old(self).spec_cke_drive_strength(),
            final(self).spec_cs_odt_drive_strength() == old(self).spec_cs_odt_drive_strength(),
            final(self).spec_address_command_drive_strength() == old(self).spec_address_command_drive_strength(),
            final(self).spec_clk_drive_strength() == old(self).spec_clk_drive_strength(),
    {
        self.slow_mode = value;
    }

    pub fn address_command_control(&self) -> (r: Result<u32>)
        ensures
            r == Ok::<u32, Error>(self.spec_address_command_control()),
    {
        Ok(self.address_command_control)
    }

    pub fn set_address_command_control(&mut self, value: u32)
        ensures
            final(self).spec_address_command_control() == value,
            final(self).spec_dimm_slots_per_channel() == old(self).spec_dimm_slots_per_channel(),
            final(self).spec_ddr_rates() == old(self).spec_ddr_rates(),
            final(self).spec_vdd_io() == old(self).spec_vdd_io(),
            final(self).spec_dimm0_ranks() == old(self).spec_dimm0_ranks(),
            final(self).spec_dimm1_ranks() == old(self).spec_dimm1_ranks(),
            final(self).spec_gear_down_mode() == old(self).spec_gear_down_mode(),
            final(self).spec__reserved_() == old(self).spec__reserved_(),
            final(self).spec_slow_mode() == old(self).spec_slow_mode(),
            final(self).spec__reserved_2() == old(self).spec__reserved_2(),
            final(self).spec_cke_drive_strength() == old(self).spec_cke_drive_strength(),
            final(self).spec_cs_odt_drive_strength() == old(self).spec_cs_odt_drive_strength(),
            final(self).spec_address_command_drive_strength() == old(self).spec_address_command_drive_strength(),
            final(self).spec_clk_drive_strength() == old(self).spec_clk_drive_strength(),
    {
        self.address_command_control = value;
    }

    pub fn cke_drive_strength(&self) -> (r: Result<CadBusClkDriveStrength>)
        ensures
            r == match CadBusClkDriveStrength::spec_from_u64(self.spec_cke_drive_strength() as u64) {
                Some(e) => Ok::<CadBusClkDriveStrength, Error>(e),
                None => Err(Error::EntryTypeMismatch),
            },
    {
        match CadBusClkDriveStrength::from_u64(self.cke_drive_strength as u64) {
            Some(e) => Ok(e),
            None => Err(Error::EntryTypeMismatch),
        }
    }

    pub fn set_cke_drive_strength(&mut self, value: CadBusClkDriveStrength)
        ensures
            final(self).spec_cke_drive_strength() == value.spec_to_u64() as u8,
            final(self).spec_dimm_slots_per_channel() == old(self).spec_dimm_slots_per_channel(),
            final(self).spec_ddr_rates() == old(self).spec_ddr_rates(),
            final(self).spec_vdd_io() == old(self).spec_vdd_io(),
            final(self).spec_dimm0_ranks() == old(self).spec_dimm0_ranks(),
            final(self).spec_dimm1_ranks() == old(self).spec_dimm1_ranks(),
            final(self).spec_gear_down_mode() == old(self).spec_gear_down_mode(),
            final(self).spec__reserved_() == old(self).spec__reserved_(),
            final(self).spec_slow_mode() == old(self).spec_slow_mode(),
            final(self).spec__reserved_2() == old(self).spec__reserved_2(),
            final(self).spec_address_command_control() == old(self).spec_address_command_control(),
            final(self).spec_cs_odt_drive_strength() == old(self).spec_cs_odt_drive_strength(),
            final(self).spec_address_command_drive_strength() == old(self).spec_address_command_drive_strength(),
            final(self).spec_clk_drive_strength() == old(self).spec_clk_drive_strength(),
    {
        self.cke_drive_strength = value.to_u64().unwrap() as u8;
    }

    pub fn cs_odt_drive_strength(&self) -> (r: Result<CadBusClkDriveStrength>)
        ensures
            r == match CadBusClkDriveStrength::spec_from_u64(self.spec_cs_odt_drive_strength() as u64) {
                Some(e) => Ok::<CadBusClkDriveStrength, Error>(e),
                None => Err(Error::EntryTypeMismatch),
            },
    {
        match CadBusClkDriveStrength::from_u64(self.cs_odt_drive_strength as u64) {
            Some(e) => Ok(e),
            None => Err(Error::EntryTypeMismatch),
        }
    }

    pub fn set_cs_odt_drive_strength(&mut self, value: CadBusClkDriveStrength)
        ensures
            final(self).spec_cs_odt_drive_strength() == value.spec_to_u64() as u8,
            final(self).spec_dimm_slots_per_channel() == old(self).spec_dimm_slots_per_channel(),
            final(self).spec_ddr_rates() == old(self).spec_ddr_rates(),
            final(self).spec_vdd_io() == old(self).spec_vdd_io(),
            final(self).spec_dimm0_ranks() == old(self).spec_dimm0_ranks(),
            final(self).spec_dimm1_ranks() == old(self).spec_dimm1_ranks(),
            final(self).spec_gear_down_mode() == old(self).spec_gear_down_mode(),
            final(self).spec__reserved_() == old(self).spec__reserved_(),
            final(self).spec_slow_mode() == old(self).spec_slow_mode(),
            final(self).spec__reserved_2() == old(self).spec__reserved_2(),
            final(self).spec_address_command_control() == old(self).spec_address_command_control(),
            final(self).spec_cke_drive_strength() == old(self).spec_cke_drive_strength(),
            final(self).spec_address_command_drive_strength() == old(self).spec_address_command_drive_strength(),
            final(self).spec_clk_drive_strength() == old(self).spec_clk_drive_strength(),
    {
        self.cs_odt_drive_strength = value.to_u64().unwrap() as u8;
    }

    pub fn address_command_drive_strength(&self) -> (r: Result<CadBusClkDriveStrength>)
        ensures
            r == match CadBusClkDriveStrength::spec_from_u64(self.spec_address_command_drive_strength() as u64) {
                Some(e) => Ok::<CadBusClkDriveStrength, Error>(e),
                None => Err(Error::EntryTypeMismatch),
            },
    {
        match CadBusClkDriveStrength::from_u64(self.address_command_drive_strength as u64) {
            Some(e) => Ok(e),
            None => Err(Error::EntryTypeMismatch),
        }
    }

    pub fn set_address_command_drive_strength(&mut self, value: CadBusClkDriveStrength)
        ensures
            final(self).spec_address_command_drive_strength() == value.spec_to_u64() as u8,
            final(self).spec_dimm_slots_per_channel() == old(self).spec_dimm_slots_per_channel(),
            final(self).spec_ddr_rates() == old(self).spec_ddr_rates(),
            final(self).spec_vdd_io() == old(self).spec_vdd_io(),
            final(self).spec_dimm0_ranks() == old(self).spec_dimm0_ranks(),
            final(self).spec_dimm1_ranks() == old(self).spec_dimm1_ranks(),
            final(self).spec_gear_down_mode() == old(self).spec_gear_down_mode(),
            final(self).spec__reserved_() == old(self).spec__reserved_(),
            final(self).spec_slow_mode() == old(self).spec_slow_mode(),
            final(self).spec__reserved_2() == old(self).spec__reserved_2(),
            final(self).spec_address_command_control() == old(self).spec_address_command_control(),
            final(self).spec_cke_drive_strength() == old(self).spec_cke_drive_strength(),
            final(self).spec_cs_odt_drive_strength() == old(self).spec_cs_odt_drive_strength(),
            final(self).spec_clk_drive_strength() == old(self).spec_clk_drive_strength(),
    {
        self.address_command_drive_strength = value.to_u64().unwrap() as u8;
    }

    pub fn clk_drive_strength(&self) -> (r: Result<CadBusClkDriveStrength>)
        ensures
            r == match CadBusClkDriveStrength::spec_from_u64(self.spec_clk_drive_strength() as u64) {
                Some(e) => Ok::<CadBusClkDriveStrength, Error>(e),
                None => Err(Error::EntryTypeMismatch),
            },
    {
        match CadBusClkDriveStrength::from_u64(self.clk_drive_strength as u64) {
            Some(e) => Ok(e),
            None => Err(Error::EntryTypeMismatch),
        }
    }

    pub fn set_clk_drive_strength(&mut self, value: CadBusClkDriveStrength)
        ensures
            final(self).spec_clk_drive_strength() == value.spec_to_u64() as u8,
            final(self).spec_dimm_slots_per_channel() == old(self).spec_dimm_slots_per_channel(),
            final(self).spec_ddr_rates() == old(self).spec_ddr_rates(),
            final(self).spec_vdd_io() == old(self).spec_vdd_io(),
            final(self).spec_dimm0_ranks() == old(self).spec_dimm0_ranks(),
            final(self).spec_dimm1_ranks() == old(self).spec_dimm1_ranks(),
            final(self).spec_gear_down_mode() == old(self).spec_gear_down_mode(),
            final(self).spec__reserved_() == old(self).spec__reserved_(),
            final(self).spec_slow_mode() == old(self).spec_slow_mode(),
            final(self).spec__reserved_2() == old(self).spec__reserved_2(),
            final(self).spec_address_command_control() == old(self).spec_address_command_control(),
            final(self).spec_cke_drive_strength() == old(self).spec_cke_drive_strength(),
            final(self).spec_cs_odt_drive_strength() == old(self).spec_cs_odt_drive_strength(),
            final(self).spec_address_command_drive_strength() == old(self).spec_address_command_drive_strength(),
    {
        self.clk_drive_strength = value.to_u64().unwrap() as u8;
    }

}

impl LrdimmDdr4CadBusElement {
    /// The bytes that store this value on disk.
    pub closed spec fn spec_bytes(self) -> Seq<u8> {
        spec_u32_to_le_bytes(self.dimm_slots_per_channel)
            + spec_u32_to_le_bytes(self.ddr_rates)
            + spec_u32_to_le_bytes(self.vdd_io)
            + spec_u32_to_le_bytes(self.dimm0_ranks)
            + spec_u32_to_le_bytes(self.dimm1_ranks)
            + spec_u16_to_le_bytes(self.gear_down_mode)
            + spec_u16_to_le_bytes(self._reserved_)
            + spec_u16_to_le_bytes(self.slow_mode)
            + spec_u16_to_le_bytes(self._reserved_2)
            + spec_u32_to_le_bytes(self.address_command_control)
            + seq![self.cke_drive_strength]
            + seq![self.cs_odt_drive_strength]
            + seq![self.address_command_drive_strength]
            + seq![self.clk_drive_strength]
    }
}

impl ByteLayout for LrdimmDdr4CadBusElement {
    open spec fn spec_size() -> nat {
        36
    }

    open spec fn spec_to_bytes(self) -> Seq<u8> {
        self.spec_bytes()
    }

    fn size() -> (r: usize) {
        36
    }

    #[verifier::spinoff_prover]
    #[verifier::rlimit(60)]
    fn from_bytes(bytes: &[u8]) -> (r: Self) {
        let dimm_slots_per_channel: u32 = u32_from_le_bytes(slice_subrange(bytes, 0, 4));
        let ddr_rates: u32 = u32_from_le_bytes(slice_subrange(bytes, 4, 8));
        let vdd_io: u32 = u32_from_le_bytes(slice_subrange(bytes, 8, 12));
        let dimm0_ranks: u32 = u32_from_le_bytes(slice_subrange(bytes, 12, 16));
        let dimm1_ranks: u32 = u32_from_le_bytes(slice_subrange(bytes, 16, 20));
        let gear_down_mode: u16 = u16_from_le_bytes(slice_subrange(bytes, 20, 22));
        let _reserved_: u16 = u16_from_le_bytes(slice_subrange(bytes, 22, 24));
        let slow_mode: u16 = u16_from_le_bytes(slice_subrange(bytes, 24, 26));
        let _reserved_2: u16 = u16_from_le_bytes(slice_subrange(bytes, 26, 28));
        let address_command_control: u32 = u32_from_le_bytes(slice_subrange(bytes, 28, 32));
        let cke_drive_strength: u8 = bytes[32];
        let cs_odt_drive_strength: u8 = bytes[33];
        let address_command_drive_strength: u8 = bytes[34];
        let clk_drive_strength: u8 = bytes[35];
        let r = LrdimmDdr4CadBusElement { dimm_slots_per_channel, ddr_rates, vdd_io, dimm0_ranks, dimm1_ranks, gear_down_mode, _reserved_, slow_mode, _reserved_2, address_command_control, cke_drive_strength, cs_odt_drive_strength, address_command_drive_strength, clk_drive_strength };
        proof {
            lemma_auto_spec_u16_to_from_le_bytes();
            lemma_auto_spec_u32_to_from_le_bytes();
            lemma_auto_spec_u64_to_from_le_bytes();
            lemma_lrdimm_ddr4_cad_bus_element_bytes_pieces(r);
            assert(bytes@.subrange(0, 4) == spec_u32_to_le_bytes(dimm_slots_per_channel));
            assert(bytes@.subrange(4, 8) == spec_u32_to_le_bytes(ddr_rates));
            assert(bytes@.subrange(8, 12) == spec_u32_to_le_bytes(vdd_io));
            assert(bytes@.subrange(12, 16) == spec_u32_to_le_bytes(dimm0_ranks));
            assert(bytes@.subrange(16, 20) == spec_u32_to_le_bytes(dimm1_ranks));
            assert(bytes@.subrange(20, 22) == spec_u16_to_le_bytes(gear_down_mode));
            assert(bytes@.subrange(22, 24) == spec_u16_to_le_bytes(_reserved_));
            assert(bytes@.subrange(24, 26) == spec_u16_to_le_bytes(slow_mode));
            assert(bytes@.subrange(26, 28) == spec_u16_to_le_bytes(_reserved_2));
            assert(bytes@.subrange(28, 32) == spec_u32_to_le_bytes(address_command_control));
            assert(bytes@.subrange(0, 8) =~= bytes@.subrange(0, 4) + bytes@.subrange(4, 8));
            assert(bytes@.subrange(0, 12) =~= bytes@.subrange(0, 8) + bytes@.subrange(8, 12));
            assert(bytes@.subrange(0, 16) =~= bytes@.subrange(0, 12) + bytes@.subrange(12, 16));
            assert(bytes@.subrange(0, 20) =~= bytes@.subrange(0, 16) + bytes@.subrange(16, 20));
            assert(bytes@.subrange(0, 22) =~= bytes@.subrange(0, 20) + bytes@.subrange(20, 22));
            assert(bytes@.subrange(0, 24) =~= bytes@.subrange(0, 22) + bytes@.subrange(22, 24));
            assert(bytes@.subrange(0, 26) =~= bytes@.subrange(0, 24) + bytes@.subrange(24, 26));
            assert(bytes@.subrange(0, 28) =~= bytes@.subrange(0, 26) + bytes@.subrange(26, 28));
            assert(bytes@.subrange(0, 32) =~= bytes@.subrange(0, 28) + bytes@.subrange(28, 32));
            assert(bytes@.subrange(0, 33) =~= bytes@.subrange(0, 32) + bytes@.subrange(32, 33));
            assert(bytes@.subrange(0, 34) =~= bytes@.subrange(0, 33) + bytes@.subrange(33, 34));
            assert(bytes@.subrange(0, 35) =~= bytes@.subrange(0, 34) + bytes@.subrange(34, 35));
            assert(bytes@.subrange(0, 36) =~= bytes@.subrange(0, 35) + bytes@.subrange(35, 36));
            assert(bytes@.subrange(0, 36) =~= bytes@);
            assert(bytes@ == r.spec_bytes());
        }
        r
    }

    #[verifier::spinoff_prover]
    #[verifier::rlimit(60)]
    fn to_bytes(&self) -> (r: Vec<u8>) {
        let mut out: Vec<u8> = Vec::new();
        append_bytes(&mut out, &le_bytes_u32(self.dimm_slots_per_channel));
        append_bytes(&mut out, &le_bytes_u32(self.ddr_rates));
        append_bytes(&mut out, &le_bytes_u32(self.vdd_io));
        append_bytes(&mut out, &le_bytes_u32(self.dimm0_ranks));
        append_bytes(&mut out, &le_bytes_u32(self.dimm1_ranks));
        append_bytes(&mut out, &le_bytes_u16(self.gear_down_mode));
        append_bytes(&mut out, &le_bytes_u16(self._reserved_));
        append_bytes(&mut out, &le_bytes_u16(self.slow_mode));
        append_bytes(&mut out, &le_bytes_u16(self._reserved_2));
        append_bytes(&mut out, &le_bytes_u32(self.address_command_control));
        out.push(self.cke_drive_strength);
        out.push(self.cs_odt_drive_strength);
        out.push(self.address_command_drive_strength);
        out.push(self.clk_drive_strength);
        proof {
            lemma_lrdimm_ddr4_cad_bus_element_bytes_pieces(*self);
        }
        out
    }
}

/// How the bytes of a LrdimmDdr4CadBusElement split up into its fields.
pub proof fn lemma_lrdimm_ddr4_cad_bus_element_bytes_pieces(x: LrdimmDdr4CadBusElement)
    ensures
        x.spec_bytes().len() == 36,
        x.spec_bytes().subrange(0, 4) == spec_u32_to_le_bytes(x.spec_dimm_slots_per_channel()),
        x.spec_bytes().subrange(4, 8) == spec_u32_to_le_bytes(x.spec_ddr_rates()),
        x.spec_bytes().subrange(8, 12) == spec_u32_to_le_bytes(x.spec_vdd_io()),
        x.spec_bytes().subrange(12, 16) == spec_u32_to_le_bytes(x.spec_dimm0_ranks()),
        x.spec_bytes().subrange(16, 20) == spec_u32_to_le_bytes(x.spec_dimm1_ranks()),
        x.spec_bytes().subrange(20, 22) == spec_u16_to_le_bytes(x.spec_gear_down_mode()),
        x.spec_bytes().subrange(22, 24) == spec_u16_to_le_bytes(x.spec__reserved_()),
        x.spec_bytes().subrange(24, 26) == spec_u16_to_le_bytes(x.spec_slow_mode()),
        x.spec_bytes().subrange(26, 28) == spec_u16_to_le_bytes(x.spec__reserved_2()),
        x.spec_bytes().subrange(28, 32) == spec_u32_to_le_bytes(x.spec_address_command_control()),
        x.spec_bytes()[32] == x.spec_cke_drive_strength(),
        x.spec_bytes()[33] == x.spec_cs_odt_drive_strength(),
        x.spec_bytes()[34] == x.spec_address_command_drive_strength(),
        x.spec_bytes()[35] == x.spec_clk_drive_strength(),
{
    lemma_auto_spec_u16_to_from_le_bytes();
    lemma_auto_spec_u32_to_from_le_bytes();
    lemma_auto_spec_u64_to_from_le_bytes();
    assert(x.spec_bytes().subrange(0, 4) == spec_u32_to_le_bytes(x.dimm_slots_per_channel));
    assert(x.spec_bytes().subrange(4, 8) == spec_u32_to_le_bytes(x.ddr_rates));
    assert(x.spec_bytes().subrange(8, 12) == spec_u32_to_le_bytes(x.vdd_io));
    assert(x.spec_bytes().subrange(12, 16) == spec_u32_to_le_bytes(x.dimm0_ranks));
    assert(x.spec_bytes().subrange(16, 20) == spec_u32_to_le_bytes(x.dimm1_ranks));
    assert(x.spec_bytes().subrange(20, 22) == spec_u16_to_le_bytes(x.gear_down_mode));
    assert(x.spec_bytes().subrange(22, 24) == spec_u16_to_le_bytes(x._reserved_));
    assert(x.spec_bytes().subrange(24, 26) == spec_u16_to_le_bytes(x.slow_mode));
    assert(x.spec_bytes().subrange(26, 28) == spec_u16_to_le_bytes(x._reserved_2));
    assert(x.spec_bytes().subrange(28, 32) == spec_u32_to_le_bytes(x.address_command_control));
}

/// Two values of LrdimmDdr4CadBusElement with the same bytes are the same value.
#[verifier::spinoff_prover]
#[verifier::rlimit(60)]
pub proof fn lemma_lrdimm_ddr4_cad_bus_element_bytes_injective(x: LrdimmDdr4CadBusElement, y: LrdimmDdr4CadBusElement)
    requires
        x.spec_bytes() == y.spec_bytes(),
    ensures
        x == y,
{
    lemma_lrdimm_ddr4_cad_bus_element_bytes_pieces(x);
    lemma_lrdimm_ddr4_cad_bus_element_bytes_pieces(y);
    lemma_auto_spec_u16_to_from_le_bytes();
    lemma_auto_spec_u32_to_from_le_bytes();
    lemma_auto_spec_u64_to_from_le_bytes();
    assert(spec_u32_from_le_bytes(spec_u32_to_le_bytes(x.dimm_slots_per_channel)) == spec_u32_from_le_bytes(spec_u32_to_le_bytes(y.dimm_slots_per_channel)));
    assert(spec_u32_from_le_bytes(spec_u32_to_le_bytes(x.ddr_rates)) == spec_u32_from_le_bytes(spec_u32_to_le_bytes(y.ddr_rates)));
    assert(spec_u32_from_le_bytes(spec_u32_to_le_bytes(x.vdd_io)) == spec_u32_from_le_bytes(spec_u32_to_le_bytes(y.vdd_io)));
    assert(spec_u32_from_le_bytes(spec_u32_to_le_bytes(x.dimm0_ranks)) == spec_u32_from_le_bytes(spec_u32_to_le_bytes(y.dimm0_ranks)));
    assert(spec_u32_from_le_bytes(spec_u32_to_le_bytes(x.dimm1_ranks)) == spec_u32_from_le_bytes(spec_u32_to_le_bytes(y.dimm1_ranks)));
    assert(spec_u16_from_le_bytes(spec_u16_to_le_bytes(x.gear_down_mode)) == spec_u16_from_le_bytes(spec_u16_to_le_bytes(y.gear_down_mode)));
    assert(spec_u16_from_le_bytes(spec_u16_to_le_bytes(x._reserved_)) == spec_u16_from_le_bytes(spec_u16_to_le_bytes(y._reserved_)));
    assert(spec_u16_from_le_bytes(spec_u16_to_le_bytes(x.slow_mode)) == spec_u16_from_le_bytes(spec_u16_to_le_bytes(y.slow_mode)));
    assert(spec_u16_from_le_bytes(spec_u16_to_le_bytes(x._reserved_2)) == spec_u16_from_le_bytes(spec_u16_to_le_bytes(y._reserved_2)));
    assert(spec_u32_from_le_bytes(spec_u32_to_le_bytes(x.address_command_control)) == spec_u32_from_le_bytes(spec_u32_to_le_bytes(y.address_command_control)));
    assert(x.cke_drive_strength == y.cke_drive_strength);
    assert(x.cs_odt_drive_strength == y.cs_odt_drive_strength);
    assert(x.address_command_drive_strength == y.address_command_drive_strength);
    assert(x.clk_drive_strength == y.clk_drive_strength);
}

impl Default for LrdimmDdr4CadBusElement {
    fn default() -> (r: Self)
        ensures
            r.spec_dimm_slots_per_channel() == 1,
            r.spec_ddr_rates() == 0xa00,
            r.spec_vdd_io() == 1,
            r.spec_dimm0_ranks() == 2,
            r.spec_dimm1_ranks() == 1,
            r.spec_gear_down_mode() == 0,
            r.spec__reserved_() == 0,
            r.spec_slow_mode() == 0,
            r.spec__reserved_2() == 0,
            r.spec_address_command_control() == 0x373737,
            r.spec_cke_drive_strength() == 7,
            r.spec_cs_odt_drive_strength() == 7,
            r.spec_address_command_drive_strength() == 7,
            r.spec_clk_drive_strength() == 7,
    {
        LrdimmDdr4CadBusElement { dimm_slots_per_channel: 1, ddr_rates: 0xa00, vdd_io: 1, dimm0_ranks: 2, dimm1_ranks: 1, gear_down_mode: 0, _reserved_: 0, slow_mode: 0, _reserved_2: 0, address_command_control: 0x373737, cke_drive_strength: 7, cs_odt_drive_strength: 7, address_command_drive_strength: 7, clk_drive_strength: 7 }
    }
}

impl LrdimmDdr4CadBusElement {
    /// An element for the given configuration, the rest as in the default; the
    /// address/command control value has 24 bits.
    pub fn new(
        dimm_slots_per_channel: u32,
        ddr_rates: DdrRates,
        dimm0_ranks: LrdimmDdr4DimmRanks,
        dimm1_ranks: LrdimmDdr4DimmRanks,
        address_command_control: u32,
    ) -> (r: Result<Self>)
        ensures
            r is Ok <==> address_command_control < 0x100_0000,
            r is Err ==> r == Err::<Self, Error>(Error::EntryTypeMismatch),
            r matches Ok(e) ==> {
                &&& e.spec_dimm_slots_per_channel() == dimm_slots_per_channel
                &&& e.spec_ddr_rates() == ddr_rates.spec_raw()
                &&& e.spec_vdd_io() == 1
                &&& e.spec_dimm0_ranks() == dimm0_ranks.spec_raw() as u32
                &&& e.spec_dimm1_ranks() == dimm1_ranks.spec_raw() as u32
                &&& e.spec_gear_down_mode() == 0
                &&& e.spec__reserved_() == 0
                &&& e.spec_slow_mode() == 0
                &&& e.spec__reserved_2() == 0
                &&& e.spec_address_command_control() == address_command_control
                &&& e.spec_cke_drive_strength() == 7
                &&& e.spec_cs_odt_drive_strength() == 7
                &&& e.spec_address_command_drive_strength() == 7
                &&& e.spec_clk_drive_strength() == 7
            },
    {
        if address_command_control < 0x100_0000 {
            let mut result = Self::default();
            result.dimm_slots_per_channel = dimm_slots_per_channel;
            result.ddr_rates = ddr_rates.to_u64().unwrap() as u32;
            result.dimm0_ranks = dimm0_ranks.to_u64().unwrap() as u32;
            result.dimm1_ranks = dimm1_ranks.to_u64().unwrap() as u32;
            result.address_command_control = address_command_control;
            Ok(result)
        } else {
            Err(Error::EntryTypeMismatch)
        }
    }
}

impl EntryCompatible for LrdimmDdr4CadBusElement {
    fn is_entry_compatible(entry_id: EntryId, _prefix: &[u8]) -> (r: bool)
        ensures
            r == (entry_id == EntryId::Memory(MemoryEntryId::PsLrdimmDdr4CadBus)),
    {
        matches!(entry_id, EntryId::Memory(MemoryEntryId::PsLrdimmDdr4CadBus))
    }
}

/// Nominal on-die termination (also used for the park termination).
#[derive(Debug, PartialEq, Eq, Clone, Copy, Structural)]
pub enum RttNom {
    Off,
    _60Ohm,
    _120Ohm,
    _40Ohm,
    _240Ohm,
    _48Ohm,
    _80Ohm,
    _34Ohm,
}

impl RttNom {
    /// The number that stands for this value.
    pub open spec fn spec_to_u64(self) -> u64 {
        match self {
            RttNom::Off => 0x0,
            RttNom::_60Ohm => 0x1,
            RttNom::_120Ohm => 0x2,
            RttNom::_40Ohm => 0x3,
            RttNom::_240Ohm => 0x4,
            RttNom::_48Ohm => 0x5,
            RttNom::_80Ohm => 0x6,
            RttNom::_34Ohm => 0x7,
        }
    }

    /// The value that VALUE stands for, if any.
    pub open spec fn spec_from_u64(value: u64) -> Option<RttNom> {
        match value {
            0x0 => Some(RttNom::Off),
            0x1 => Some(RttNom::_60Ohm),
            0x2 => Some(RttNom::_120Ohm),
            0x3 => Some(RttNom::_40Ohm),
            0x4 => Some(RttNom::_240Ohm),
            0x5 => Some(RttNom::_48Ohm),
            0x6 => Some(RttNom::_80Ohm),
            0x7 => Some(RttNom::_34Ohm),
            _ => None,
        }
    }

    pub fn from_u64(value: u64) -> (r: Option<RttNom>)
        ensures
            r == RttNom::spec_from_u64(value),
    {
        match value {
            0x0 => Some(RttNom::Off),
            0x1 => Some(RttNom::_60Ohm),
            0x2 => Some(RttNom::_120Ohm),
            0x3 => Some(RttNom::_40Ohm),
            0x4 => Some(RttNom::_240Ohm),
            0x5 => Some(RttNom::_48Ohm),
            0x6 => Some(RttNom::_80Ohm),
            0x7 => Some(RttNom::_34Ohm),
            _ => None,
        }
    }

    pub fn to_u64(&self) -> (r: Option<u64>)
        ensures
            r == Some(self.spec_to_u64()),
    {
        Some(
            match self {
                RttNom::Off => 0x0,
                RttNom::_60Ohm => 0x1,
                RttNom::_120Ohm => 0x2,
                RttNom::_40Ohm => 0x3,
                RttNom::_240Ohm => 0x4,
                RttNom::_48Ohm => 0x5,
                RttNom::_80Ohm => 0x6,
                RttNom::_34Ohm => 0x7,
            },
        )
    }
}

/// Every value of RttNom is read back from its own number, and every number that is
/// read as a value is that value's number.
pub proof fn lemma_rtt_nom_roundtrip(x: RttNom, value: u64)
    ensures
        RttNom::spec_from_u64(x.spec_to_u64()) == Some(x),
        RttNom::spec_from_u64(value) matches Some(y) ==> y.spec_to_u64() == value,
{
}

impl RttNom {
    /// The nominal termination, in ohms (34 for RZQ/7, whose exact value is 34.3); 0 for off.
    pub open spec fn spec_ohms(self) -> nat {
        match self {
            RttNom::Off => 0,
            RttNom::_60Ohm => 60,
            RttNom::_120Ohm => 120,
            RttNom::_40Ohm => 40,
            RttNom::_240Ohm => 240,
            RttNom::_48Ohm => 48,
            RttNom::_80Ohm => 80,
            RttNom::_34Ohm => 34,
        }
    }
}

/// The divisor N of RZQ (240 ohms) that the DDR4 nominal termination code CODE selects
/// (RZQ/N); the codes 1 to 7 select RZQ/4, RZQ/2, RZQ/6, RZQ/1, RZQ/5, RZQ/3 and RZQ/7.
pub open spec fn spec_ddr4_rtt_nom_rzq_divisor(code: u64) -> nat {
    if code == 1 {
        4
    } else if code == 2 {
        2
    } else if code == 3 {
        6
    } else if code == 4 {
        1
    } else if code == 5 {
        5
    } else if code == 6 {
        3
    } else {
        7
    }
}

/// The number of a nominal termination is its DDR4 code: 0 for off, and otherwise the code
/// of RZQ/N for the N with 240 / N ohms (rounded down) equal to the termination; every code
/// from 0 to 7 decodes, to the termination that it selects.
pub proof fn lemma_rtt_nom_numbers_are_ddr4_codes(x: RttNom, v: u64)
    ensures
        x.spec_to_u64() < 8,
        x.spec_to_u64() == 0 <==> x.spec_ohms() == 0,
        x.spec_to_u64() != 0 ==> x.spec_ohms() == 240nat / spec_ddr4_rtt_nom_rzq_divisor(x.spec_to_u64()),
        RttNom::spec_from_u64(v) is Some <==> v < 8,
        RttNom::spec_from_u64(v) matches Some(y) ==> (if v == 0 { y.spec_ohms() == 0 } else {
            y.spec_ohms() == 240nat / spec_ddr4_rtt_nom_rzq_divisor(v)
        }),
{
}

/// The on-die termination used while ODT is low.
pub type RttPark = RttNom;

/// Dynamic on-die termination, used on writes.
#[derive(Debug, PartialEq, Eq, Clone, Copy, Structural)]
pub enum RttWr {
    Off,
    _120Ohm,
    _240Ohm,
    Floating,
    _80Ohm,
}

impl RttWr {
    /// The number that stands for this value.
    pub open spec fn spec_to_u64(self) -> u64 {
        match self {
            RttWr::Off => 0x0,
            RttWr::_120Ohm => 0x1,
            RttWr::_240Ohm => 0x2,
            RttWr::Floating => 0x3,
            RttWr::_80Ohm => 0x4,
        }
    }

    /// The value that VALUE stands for, if any.
    pub open spec fn spec_from_u64(value: u64) -> Option<RttWr> {
        match value {
            0x0 => Some(RttWr::Off),
            0x1 => Some(RttWr::_120Ohm),
            0x2 => Some(RttWr::_240Ohm),
            0x3 => Some(RttWr::Floating),
            0x4 => Some(RttWr::_80Ohm),
            _ => None,
        }
    }

    pub fn from_u64(value: u64) -> (r: Option<RttWr>)
        ensures
            r == RttWr::spec_from_u64(value),
    {
        match value {
            0x0 => Some(RttWr::Off),
            0x1 => Some(RttWr::_120Ohm),
            0x2 => Some(RttWr::_240Ohm),
            0x3 => Some(RttWr::Floating),
            0x4 => Some(RttWr::_80Ohm),
            _ => None,
        }
    }

    pub fn to_u64(&self) -> (r: Option<u64>)
        ensures
            r == Some(self.spec_to_u64()),
    {
        Some(
            match self {
                RttWr::Off => 0x0,
                RttWr::_120Ohm => 0x1,
                RttWr::_240Ohm => 0x2,
                RttWr::Floating => 0x3,
                RttWr::_80Ohm => 0x4,
            },
        )
    }
}

/// Every value of RttWr is read back from its own number, and every number that is
/// read as a value is that value's number.
pub proof fn lemma_rtt_wr_roundtrip(x: RttWr, value: u64)
    ensures
        RttWr::spec_from_u64(x.spec_to_u64()) == Some(x),
        RttWr::spec_from_u64(value) matches Some(y) ==> y.spec_to_u64() == value,
{
}

impl RttWr {
    /// The dynamic termination during writes, in ohms; 0 for off and for floating (Hi-Z).
    pub open spec fn spec_ohms(self) -> nat {
        match self {
            RttWr::Off => 0,
            RttWr::_120Ohm => 120,
            RttWr::_240Ohm => 240,
            RttWr::Floating => 0,
            RttWr::_80Ohm => 80,
        }
    }
}

/// The number of a write termination is its DDR4 code: 0 for off, 3 for floating (Hi-Z),
/// and otherwise the code of RZQ/N (codes 1, 2 and 4 for RZQ/2, RZQ/1 and RZQ/3) for the
/// N with 240 / N ohms equal to the termination.
pub proof fn lemma_rtt_wr_numbers_are_ddr4_codes(x: RttWr, v: u64)
    ensures
        x.spec_to_u64() < 5,
        x.spec_to_u64() == 0 <==> x == RttWr::Off,
        x.spec_to_u64() == 3 <==> x == RttWr::Floating,
        x.spec_to_u64() == 1 ==> x.spec_ohms() == 240nat / 2,
        x.spec_to_u64() == 2 ==> x.spec_ohms() == 240nat / 1,
        x.spec_to_u64() == 4 ==> x.spec_ohms() == 240nat / 3,
        RttWr::spec_from_u64(v) is Some <==> v < 5,
{
}

/// A DQ reference voltage step of range 1 (60% to 92.5% of VDDQ, in steps of 0.65%).
#[derive(Debug, PartialEq, Eq, Clone, Copy, Structural)]
pub enum VrefDqRange1 {
    _60_00P,
    _60_65P,
    _61_30P,
    _61_95P,
    _62_60P,
    _63_25P,
    _63_90P,
    _64_55P,
    _65_20P,
    _65_85P,
    _66_50P,
    _67_15P,
    _67_80P,
    _68_45P,
    _69_10P,
    _69_75P,
    _70_40P,
    _71_05P,
    _71_70P,
    _72_35P,
    _73_00P,
    _73_65P,
    _74_30P,
    _74_95P,
    _75_60P,
    _76_25P,
    _76_90P,
    _77_55P,
    _78_20P,
    _78_85P,
    _79_50P,
    _80_15P,
    _80_80P,
    _81_45P,
    _82_10P,
    _82_75P,
    _83_40P,
    _84_05P,
    _84_70P,
    _85_35P,
    _86_00P,
    _86_65P,
    _87_30P,
    _87_95P,
    _88_60P,
    _89_25P,
    _89_90P,
    _90_55P,
    _91_20P,
    _91_85P,
    _92_50P,
}

impl VrefDqRange1 {
    /// The number that stands for this value.
    pub open spec fn spec_to_u64(self) -> u64 {
        match self {
            VrefDqRange1::_60_00P => 0x0,
            VrefDqRange1::_60_65P => 0x1,
            VrefDqRange1::_61_30P => 0x2,
            VrefDqRange1::_61_95P => 0x3,
            VrefDqRange1::_62_60P => 0x4,
            VrefDqRange1::_63_25P => 0x5,
            VrefDqRange1::_63_90P => 0x6,
            VrefDqRange1::_64_55P => 0x7,
            VrefDqRange1::_65_20P => 0x8,
            VrefDqRange1::_65_85P => 0x9,
            VrefDqRange1::_66_50P => 0xa,
            VrefDqRange1::_67_15P => 0xb,
            VrefDqRange1::_67_80P => 0xc,
            VrefDqRange1::_68_45P => 0xd,
            VrefDqRange1::_69_10P => 0xe,
            VrefDqRange1::_69_75P => 0xf,
            VrefDqRange1::_70_40P => 0x10,
            VrefDqRange1::_71_05P => 0x11,
            VrefDqRange1::_71_70P => 0x12,
            VrefDqRange1::_72_35P => 0x13,
            VrefDqRange1::_73_00P => 0x14,
            VrefDqRange1::_73_65P => 0x15,
            VrefDqRange1::_74_30P => 0x16,
            VrefDqRange1::_74_95P => 0x17,
            VrefDqRange1::_75_60P => 0x18,
            VrefDqRange1::_76_25P => 0x19,
            VrefDqRange1::_76_90P => 0x1a,
            VrefDqRange1::_77_55P => 0x1b,
            VrefDqRange1::_78_20P => 0x1c,
            VrefDqRange1::_78_85P => 0x1d,
            VrefDqRange1::_79_50P => 0x1e,
            VrefDqRange1::_80_15P => 0x1f,
            VrefDqRange1::_80_80P => 0x20,
            VrefDqRange1::_81_45P => 0x21,
            VrefDqRange1::_82_10P => 0x22,
            VrefDqRange1::_82_75P => 0x23,
            VrefDqRange1::_83_40P => 0x24,
            VrefDqRange1::_84_05P => 0x25,
            VrefDqRange1::_84_70P => 0x26,
            VrefDqRange1::_85_35P => 0x27,
            VrefDqRange1::_86_00P => 0x28,
            VrefDqRange1::_86_65P => 0x29,
            VrefDqRange1::_87_30P => 0x2a,
            VrefDqRange1::_87_95P => 0x2b,
            VrefDqRange1::_88_60P => 0x2c,
            VrefDqRange1::_89_25P => 0x2d,
            VrefDqRange1::_89_90P => 0x2e,
            VrefDqRange1::_90_55P => 0x2f,
            VrefDqRange1::_91_20P => 0x30,
            VrefDqRange1::_91_85P => 0x31,
            VrefDqRange1::_92_50P => 0x32,
        }
    }

    /// The value that VALUE stands for, if any.
    pub open spec fn spec_from_u64(value: u64) -> Option<VrefDqRange1> {
        match value {
            0x0 => Some(VrefDqRange1::_60_00P),
            0x1 => Some(VrefDqRange1::_60_65P),
            0x2 => Some(VrefDqRange1::_61_30P),
            0x3 => Some(VrefDqRange1::_61_95P),
            0x4 => Some(VrefDqRange1::_62_60P),
            0x5 => Some(VrefDqRange1::_63_25P),
            0x6 => Some(VrefDqRange1::_63_90P),
            0x7 => Some(VrefDqRange1::_64_55P),
            0x8 => Some(VrefDqRange1::_65_20P),
            0x9 => Some(VrefDqRange1::_65_85P),
            0xa => Some(VrefDqRange1::_66_50P),
            0xb => Some(VrefDqRange1::_67_15P),
            0xc => Some(VrefDqRange1::_67_80P),
            0xd => Some(VrefDqRange1::_68_45P),
            0xe => Some(VrefDqRange1::_69_10P),
            0xf => Some(VrefDqRange1::_69_75P),
            0x10 => Some(VrefDqRange1::_70_40P),
            0x11 => Some(VrefDqRange1::_71_05P),
            0x12 => Some(VrefDqRange1::_71_70P),
            0x13 => Some(VrefDqRange1::_72_35P),
            0x14 => Some(VrefDqRange1::_73_00P),
            0x15 => Some(VrefDqRange1::_73_65P),
            0x16 => Some(VrefDqRange1::_74_30P),
            0x17 => Some(VrefDqRange1::_74_95P),
            0x18 => Some(VrefDqRange1::_75_60P),
            0x19 => Some(VrefDqRange1::_76_25P),
            0x1a => Some(VrefDqRange1::_76_90P),
            0x1b => Some(VrefDqRange1::_77_55P),
            0x1c => Some(VrefDqRange1::_78_20P),
            0x1d => Some(VrefDqRange1::_78_85P),
            0x1e => Some(VrefDqRange1::_79_50P),
            0x1f => Some(VrefDqRange1::_80_15P),
            0x20 => Some(VrefDqRange1::_80_80P),
            0x21 => Some(VrefDqRange1::_81_45P),
            0x22 => Some(VrefDqRange1::_82_10P),
            0x23 => Some(VrefDqRange1::_82_75P),
            0x24 => Some(VrefDqRange1::_83_40P),
            0x25 => Some(VrefDqRange1::_84_05P),
            0x26 => Some(VrefDqRange1::_84_70P),
            0x27 => Some(VrefDqRange1::_85_35P),
            0x28 => Some(VrefDqRange1::_86_00P),
            0x29 => Some(VrefDqRange1::_86_65P),
            0x2a => Some(VrefDqRange1::_87_30P),
            0x2b => Some(VrefDqRange1::_87_95P),
            0x2c => Some(VrefDqRange1::_88_60P),
            0x2d => Some(VrefDqRange1::_89_25P),
            0x2e => Some(VrefDqRange1::_89_90P),
            0x2f => Some(VrefDqRange1::_90_55P),
            0x30 => Some(VrefDqRange1::_91_20P),
            0x31 => Some(VrefDqRange1::_91_85P),
            0x32 => Some(VrefDqRange1::_92_50P),
            _ => None,
        }
    }

    pub fn from_u64(value: u64) -> (r: Option<VrefDqRange1>)
        ensures
            r == VrefDqRange1::spec_from_u64(value),
    {
        match value {
            0x0 => Some(VrefDqRange1::_60_00P),
            0x1 => Some(VrefDqRange1::_60_65P),
            0x2 => Some(VrefDqRange1::_61_30P),
            0x3 => Some(VrefDqRange1::_61_95P),
            0x4 => Some(VrefDqRange1::_62_60P),
            0x5 => Some(VrefDqRange1::_63_25P),
            0x6 => Some(VrefDqRange1::_63_90P),
            0x7 => Some(VrefDqRange1::_64_55P),
            0x8 => Some(VrefDqRange1::_65_20P),
            0x9 => Some(VrefDqRange1::_65_85P),
            0xa => Some(VrefDqRange1::_66_50P),
            0xb => Some(VrefDqRange1::_67_15P),
            0xc => Some(VrefDqRange1::_67_80P),
            0xd => Some(VrefDqRange1::_68_45P),
            0xe => Some(VrefDqRange1::_69_10P),
            0xf => Some(VrefDqRange1::_69_75P),
            0x10 => Some(VrefDqRange1::_70_40P),
            0x11 => Some(VrefDqRange1::_71_05P),
            0x12 => Some(VrefDqRange1::_71_70P),
            0x13 => Some(VrefDqRange1::_72_35P),
            0x14 => Some(VrefDqRange1::_73_00P),
            0x15 => Some(VrefDqRange1::_73_65P),
            0x16 => Some(VrefDqRange1::_74_30P),
            0x17 => Some(VrefDqRange1::_74_95P),
            0x18 => Some(VrefDqRange1::_75_60P),
            0x19 => Some(VrefDqRange1::_76_25P),
            0x1a => Some(VrefDqRange1::_76_90P),
            0x1b => Some(VrefDqRange1::_77_55P),
            0x1c => Some(VrefDqRange1::_78_20P),
            0x1d => Some(VrefDqRange1::_78_85P),
            0x1e => Some(VrefDqRange1::_79_50P),
            0x1f => Some(VrefDqRange1::_80_15P),
            0x20 => Some(VrefDqRange1::_80_80P),
            0x21 => Some(VrefDqRange1::_81_45P),
            0x22 => Some(VrefDqRange1::_82_10P),
            0x23 => Some(VrefDqRange1::_82_75P),
            0x24 => Some(VrefDqRange1::_83_40P),
            0x25 => Some(VrefDqRange1::_84_05P),
            0x26 => Some(VrefDqRange1::_84_70P),
            0x27 => Some(VrefDqRange1::_85_35P),
            0x28 => Some(VrefDqRange1::_86_00P),
            0x29 => Some(VrefDqRange1::_86_65P),
            0x2a => Some(VrefDqRange1::_87_30P),
            0x2b => Some(VrefDqRange1::_87_95P),
            0x2c => Some(VrefDqRange1::_88_60P),
            0x2d => Some(VrefDqRange1::_89_25P),
            0x2e => Some(VrefDqRange1::_89_90P),
            0x2f => Some(VrefDqRange1::_90_55P),
            0x30 => Some(VrefDqRange1::_91_20P),
            0x31 => Some(VrefDqRange1::_91_85P),
            0x32 => Some(VrefDqRange1::_92_50P),
            _ => None,
        }
    }

    pub fn to_u64(&self) -> (r: Option<u64>)
        ensures
            r == Some(self.spec_to_u64()),
    {
        Some(
            match self {
                VrefDqRange1::_60_00P => 0x0,
                VrefDqRange1::_60_65P => 0x1,
                VrefDqRange1::_61_30P => 0x2,
                VrefDqRange1::_61_95P => 0x3,
                VrefDqRange1::_62_60P => 0x4,
                VrefDqRange1::_63_25P => 0x5,
                VrefDqRange1::_63_90P => 0x6,
                VrefDqRange1::_64_55P => 0x7,
                VrefDqRange1::_65_20P => 0x8,
                VrefDqRange1::_65_85P => 0x9,
                VrefDqRange1::_66_50P => 0xa,
                VrefDqRange1::_67_15P => 0xb,
                VrefDqRange1::_67_80P => 0xc,
                VrefDqRange1::_68_45P => 0xd,
                VrefDqRange1::_69_10P => 0xe,
                VrefDqRange1::_69_75P => 0xf,
                VrefDqRange1::_70_40P => 0x10,
                VrefDqRange1::_71_05P => 0x11,
                VrefDqRange1::_71_70P => 0x12,
                VrefDqRange1::_72_35P => 0x13,
                VrefDqRange1::_73_00P => 0x14,
                VrefDqRange1::_73_65P => 0x15,
                VrefDqRange1::_74_30P => 0x16,
                VrefDqRange1::_74_95P => 0x17,
                VrefDqRange1::_75_60P => 0x18,
                VrefDqRange1::_76_25P => 0x19,
                VrefDqRange1::_76_90P => 0x1a,
                VrefDqRange1::_77_55P => 0x1b,
                VrefDqRange1::_78_20P => 0x1c,
                VrefDqRange1::_78_85P => 0x1d,
                VrefDqRange1::_79_50P => 0x1e,
                VrefDqRange1::_80_15P => 0x1f,
                VrefDqRange1::_80_80P => 0x20,
                VrefDqRange1::_81_45P => 0x21,
                VrefDqRange1::_82_10P => 0x22,
                VrefDqRange1::_82_75P => 0x23,
                VrefDqRange1::_83_40P => 0x24,
                VrefDqRange1::_84_05P => 0x25,
                VrefDqRange1::_84_70P => 0x26,
                VrefDqRange1::_85_35P => 0x27,
                VrefDqRange1::_86_00P => 0x28,
                VrefDqRange1::_86_65P => 0x29,
                VrefDqRange1::_87_30P => 0x2a,
                VrefDqRange1::_87_95P => 0x2b,
                VrefDqRange1::_88_60P => 0x2c,
                VrefDqRange1::_89_25P => 0x2d,
                VrefDqRange1::_89_90P => 0x2e,
                VrefDqRange1::_90_55P => 0x2f,
                VrefDqRange1::_91_20P => 0x30,
                VrefDqRange1::_91_85P => 0x31,
                VrefDqRange1::_92_50P => 0x32,
            },
        )
    }
}

/// Every value of VrefDqRange1 is read back from its own number, and every number that is
/// read as a value is that value's number.
pub proof fn lemma_vref_dq_range1_roundtrip(x: VrefDqRange1, value: u64)
    ensures
        VrefDqRange1::spec_from_u64(x.spec_to_u64()) == Some(x),
        VrefDqRange1::spec_from_u64(value) matches Some(y) ==> y.spec_to_u64() == value,
{
}

impl VrefDqRange1 {
    /// What the name of this value says: the level, in hundredths of a percent.
    pub open spec fn spec_percent_hundredths(self) -> int {
        match self {
            VrefDqRange1::_60_00P => 6000,
            VrefDqRange1::_60_65P => 6065,
            VrefDqRange1::_61_30P => 6130,
            VrefDqRange1::_61_95P => 6195,
            VrefDqRange1::_62_60P => 6260,
            VrefDqRange1::_63_25P => 6325,
            VrefDqRange1::_63_90P => 6390,
            VrefDqRange1::_64_55P => 6455,
            VrefDqRange1::_65_20P => 6520,
            VrefDqRange1::_65_85P => 6585,
            VrefDqRange1::_66_50P => 6650,
            VrefDqRange1::_67_15P => 6715,
            VrefDqRange1::_67_80P => 6780,
            VrefDqRange1::_68_45P => 6845,
            VrefDqRange1::_69_10P => 6910,
            VrefDqRange1::_69_75P => 6975,
            VrefDqRange1::_70_40P => 7040,
            VrefDqRange1::_71_05P => 7105,
            VrefDqRange1::_71_70P => 7170,
            VrefDqRange1::_72_35P => 7235,
            VrefDqRange1::_73_00P => 7300,
            VrefDqRange1::_73_65P => 7365,
            VrefDqRange1::_74_30P => 7430,
            VrefDqRange1::_74_95P => 7495,
            VrefDqRange1::_75_60P => 7560,
            VrefDqRange1::_76_25P => 7625,
            VrefDqRange1::_76_90P => 7690,
            VrefDqRange1::_77_55P => 7755,
            VrefDqRange1::_78_20P => 7820,
            VrefDqRange1::_78_85P => 7885,
            VrefDqRange1::_79_50P => 7950,
            VrefDqRange1::_80_15P => 8015,
            VrefDqRange1::_80_80P => 8080,
            VrefDqRange1::_81_45P => 8145,
            VrefDqRange1::_82_10P => 8210,
            VrefDqRange1::_82_75P => 8275,
            VrefDqRange1::_83_40P => 8340,
            VrefDqRange1::_84_05P => 8405,
            VrefDqRange1::_84_70P => 8470,
            VrefDqRange1::_85_35P => 8535,
            VrefDqRange1::_86_00P => 8600,
            VrefDqRange1::_86_65P => 8665,
            VrefDqRange1::_87_30P => 8730,
            VrefDqRange1::_87_95P => 8795,
            VrefDqRange1::_88_60P => 8860,
            VrefDqRange1::_89_25P => 8925,
            VrefDqRange1::_89_90P => 8990,
            VrefDqRange1::_90_55P => 9055,
            VrefDqRange1::_91_20P => 9120,
            VrefDqRange1::_91_85P => 9185,
            VrefDqRange1::_92_50P => 9250,
        }
    }
}

/// The number of each value follows from what its name says: 65 times the number is
/// 1 times the named quantity plus -6000.
pub proof fn lemma_vref_dq_range1_numbers_follow_names(x: VrefDqRange1)
    ensures
        65 * x.spec_to_u64() == x.spec_percent_hundredths() - 6000,
{
}

/// A DQ reference voltage step of range 2 (45% to 77.5% of VDDQ, in steps of 0.65%).
#[derive(Debug, PartialEq, Eq, Clone, Copy, Structural)]
pub enum VrefDqRange2 {
    _45_00P,
    _45_65P,
    _46_30P,
    _46_95P,
    _47_60P,
    _48_25P,
    _48_90P,
    _49_55P,
    _50_20P,
    _50_85P,
    _51_50P,
    _52_15P,
    _52_80P,
    _53_45P,
    _54_10P,
    _54_75P,
    _55_40P,
    _56_05P,
    _56_70P,
    _57_35P,
    _58_00P,
    _58_65P,
    _59_30P,
    _59_95P,
    _60_60P,
    _61_25P,
    _61_90P,
    _62_55P,
    _63_20P,
    _63_85P,
    _64_50P,
    _65_15P,
    _65_80P,
    _66_45P,
    _67_10P,
    _67_75P,
    _68_40P,
    _69_05P,
    _69_70P,
    _70_35P,
    _71_00P,
    _71_65P,
    _72_30P,
    _72_95P,
    _73_60P,
    _74_25P,
    _74_90P,
    _75_55P,
    _76_20P,
    _76_85P,
    _77_50P,
}

impl VrefDqRange2 {
    /// The number that stands for this value.
    pub open spec fn spec_to_u64(self) -> u64 {
        match self {
            VrefDqRange2::_45_00P => 0x0,
            VrefDqRange2::_45_65P => 0x1,
            VrefDqRange2::_46_30P => 0x2,
            VrefDqRange2::_46_95P => 0x3,
            VrefDqRange2::_47_60P => 0x4,
            VrefDqRange2::_48_25P => 0x5,
            VrefDqRange2::_48_90P => 0x6,
            VrefDqRange2::_49_55P => 0x7,
            VrefDqRange2::_50_20P => 0x8,
            VrefDqRange2::_50_85P => 0x9,
            VrefDqRange2::_51_50P => 0xa,
            VrefDqRange2::_52_15P => 0xb,
            VrefDqRange2::_52_80P => 0xc,
            VrefDqRange2::_53_45P => 0xd,
            VrefDqRange2::_54_10P => 0xe,
            VrefDqRange2::_54_75P => 0xf,
            VrefDqRange2::_55_40P => 0x10,
            VrefDqRange2::_56_05P => 0x11,
            VrefDqRange2::_56_70P => 0x12,
            VrefDqRange2::_57_35P => 0x13,
            VrefDqRange2::_58_00P => 0x14,
            VrefDqRange2::_58_65P => 0x15,
            VrefDqRange2::_59_30P => 0x16,
            VrefDqRange2::_59_95P => 0x17,
            VrefDqRange2::_60_60P => 0x18,
            VrefDqRange2::_61_25P => 0x19,
            VrefDqRange2::_61_90P => 0x1a,
            VrefDqRange2::_62_55P => 0x1b,
            VrefDqRange2::_63_20P => 0x1c,
            VrefDqRange2::_63_85P => 0x1d,
            VrefDqRange2::_64_50P => 0x1e,
            VrefDqRange2::_65_15P => 0x1f,
            VrefDqRange2::_65_80P => 0x20,
            VrefDqRange2::_66_45P => 0x21,
            VrefDqRange2::_67_10P => 0x22,
            VrefDqRange2::_67_75P => 0x23,
            VrefDqRange2::_68_40P => 0x24,
            VrefDqRange2::_69_05P => 0x25,
            VrefDqRange2::_69_70P => 0x26,
            VrefDqRange2::_70_35P => 0x27,
            VrefDqRange2::_71_00P => 0x28,
            VrefDqRange2::_71_65P => 0x29,
            VrefDqRange2::_72_30P => 0x2a,
            VrefDqRange2::_72_95P => 0x2b,
            VrefDqRange2::_73_60P => 0x2c,
            VrefDqRange2::_74_25P => 0x2d,
            VrefDqRange2::_74_90P => 0x2e,
            VrefDqRange2::_75_55P => 0x2f,
            VrefDqRange2::_76_20P => 0x30,
            VrefDqRange2::_76_85P => 0x31,
            VrefDqRange2::_77_50P => 0x32,
        }
    }

    /// The value that VALUE stands for, if any.
    pub open spec fn spec_from_u64(value: u64) -> Option<VrefDqRange2> {
        match value {
            0x0 => Some(VrefDqRange2::_45_00P),
            0x1 => Some(VrefDqRange2::_45_65P),
            0x2 => Some(VrefDqRange2::_46_30P),
            0x3 => Some(VrefDqRange2::_46_95P),
            0x4 => Some(VrefDqRange2::_47_60P),
            0x5 => Some(VrefDqRange2::_48_25P),
            0x6 => Some(VrefDqRange2::_48_90P),
            0x7 => Some(VrefDqRange2::_49_55P),
            0x8 => Some(VrefDqRange2::_50_20P),
            0x9 => Some(VrefDqRange2::_50_85P),
            0xa => Some(VrefDqRange2::_51_50P),
            0xb => Some(VrefDqRange2::_52_15P),
            0xc => Some(VrefDqRange2::_52_80P),
            0xd => Some(VrefDqRange2::_53_45P),
            0xe => Some(VrefDqRange2::_54_10P),
            0xf => Some(VrefDqRange2::_54_75P),
            0x10 => Some(VrefDqRange2::_55_40P),
            0x11 => Some(VrefDqRange2::_56_05P),
            0x12 => Some(VrefDqRange2::_56_70P),
            0x13 => Some(VrefDqRange2::_57_35P),
            0x14 => Some(VrefDqRange2::_58_00P),
            0x15 => Some(VrefDqRange2::_58_65P),
            0x16 => Some(VrefDqRange2::_59_30P),
            0x17 => Some(VrefDqRange2::_59_95P),
            0x18 => Some(VrefDqRange2::_60_60P),
            0x19 => Some(VrefDqRange2::_61_25P),
            0x1a => Some(VrefDqRange2::_61_90P),
            0x1b => Some(VrefDqRange2::_62_55P),
            0x1c => Some(VrefDqRange2::_63_20P),
            0x1d => Some(VrefDqRange2::_63_85P),
            0x1e => Some(VrefDqRange2::_64_50P),
            0x1f => Some(VrefDqRange2::_65_15P),
            0x20 => Some(VrefDqRange2::_65_80P),
            0x21 => Some(VrefDqRange2::_66_45P),
            0x22 => Some(VrefDqRange2::_67_10P),
            0x23 => Some(VrefDqRange2::_67_75P),
            0x24 => Some(VrefDqRange2::_68_40P),
            0x25 => Some(VrefDqRange2::_69_05P),
            0x26 => Some(VrefDqRange2::_69_70P),
            0x27 => Some(VrefDqRange2::_70_35P),
            0x28 => Some(VrefDqRange2::_71_00P),
            0x29 => Some(VrefDqRange2::_71_65P),
            0x2a => Some(VrefDqRange2::_72_30P),
            0x2b => Some(VrefDqRange2::_72_95P),
            0x2c => Some(VrefDqRange2::_73_60P),
            0x2d => Some(VrefDqRange2::_74_25P),
            0x2e => Some(VrefDqRange2::_74_90P),
            0x2f => Some(VrefDqRange2::_75_55P),
            0x30 => Some(VrefDqRange2::_76_20P),
            0x31 => Some(VrefDqRange2::_76_85P),
            0x32 => Some(VrefDqRange2::_77_50P),
            _ => None,
        }
    }

    pub fn from_u64(value: u64) -> (r: Option<VrefDqRange2>)
        ensures
            r == VrefDqRange2::spec_from_u64(value),
    {
        match value {
            0x0 => Some(VrefDqRange2::_45_00P),
            0x1 => Some(VrefDqRange2::_45_65P),
            0x2 => Some(VrefDqRange2::_46_30P),
            0x3 => Some(VrefDqRange2::_46_95P),
            0x4 => Some(VrefDqRange2::_47_60P),
            0x5 => Some(VrefDqRange2::_48_25P),
            0x6 => Some(VrefDqRange2::_48_90P),
            0x7 => Some(VrefDqRange2::_49_55P),
            0x8 => Some(VrefDqRange2::_50_20P),
            0x9 => Some(VrefDqRange2::_50_85P),
            0xa => Some(VrefDqRange2::_51_50P),
            0xb => Some(VrefDqRange2::_52_15P),
            0xc => Some(VrefDqRange2::_52_80P),
            0xd => Some(VrefDqRange2::_53_45P),
            0xe => Some(VrefDqRange2::_54_10P),
            0xf => Some(VrefDqRange2::_54_75P),
            0x10 => Some(VrefDqRange2::_55_40P),
            0x11 => Some(VrefDqRange2::_56_05P),
            0x12 => Some(VrefDqRange2::_56_70P),
            0x13 => Some(VrefDqRange2::_57_35P),
            0x14 => Some(VrefDqRange2::_58_00P),
            0x15 => Some(VrefDqRange2::_58_65P),
            0x16 => Some(VrefDqRange2::_59_30P),
            0x17 => Some(VrefDqRange2::_59_95P),
            0x18 => Some(VrefDqRange2::_60_60P),
            0x19 => Some(VrefDqRange2::_61_25P),
            0x1a => Some(VrefDqRange2::_61_90P),
            0x1b => Some(VrefDqRange2::_62_55P),
            0x1c => Some(VrefDqRange2::_63_20P),
            0x1d => Some(VrefDqRange2::_63_85P),
            0x1e => Some(VrefDqRange2::_64_50P),
            0x1f => Some(VrefDqRange2::_65_15P),
            0x20 => Some(VrefDqRange2::_65_80P),
            0x21 => Some(VrefDqRange2::_66_45P),
            0x22 => Some(VrefDqRange2::_67_10P),
            0x23 => Some(VrefDqRange2::_67_75P),
            0x24 => Some(VrefDqRange2::_68_40P),
            0x25 => Some(VrefDqRange2::_69_05P),
            0x26 => Some(VrefDqRange2::_69_70P),
            0x27 => Some(VrefDqRange2::_70_35P),
            0x28 => Some(VrefDqRange2::_71_00P),
            0x29 => Some(VrefDqRange2::_71_65P),
            0x2a => Some(VrefDqRange2::_72_30P),
            0x2b => Some(VrefDqRange2::_72_95P),
            0x2c => Some(VrefDqRange2::_73_60P),
            0x2d => Some(VrefDqRange2::_74_25P),
            0x2e => Some(VrefDqRange2::_74_90P),
            0x2f => Some(VrefDqRange2::_75_55P),
            0x30 => Some(VrefDqRange2::_76_20P),
            0x31 => Some(VrefDqRange2::_76_85P),
            0x32 => Some(VrefDqRange2::_77_50P),
            _ => None,
        }
    }

    pub fn to_u64(&self) -> (r: Option<u64>)
        ensures
            r == Some(self.spec_to_u64()),
    {
        Some(
            match self {
                VrefDqRange2::_45_00P => 0x0,
                VrefDqRange2::_45_65P => 0x1,
                VrefDqRange2::_46_30P => 0x2,
                VrefDqRange2::_46_95P => 0x3,
                VrefDqRange2::_47_60P => 0x4,
                VrefDqRange2::_48_25P => 0x5,
                VrefDqRange2::_48_90P => 0x6,
                VrefDqRange2::_49_55P => 0x7,
                VrefDqRange2::_50_20P => 0x8,
                VrefDqRange2::_50_85P => 0x9,
                VrefDqRange2::_51_50P => 0xa,
                VrefDqRange2::_52_15P => 0xb,
                VrefDqRange2::_52_80P => 0xc,
                VrefDqRange2::_53_45P => 0xd,
                VrefDqRange2::_54_10P => 0xe,
                VrefDqRange2::_54_75P => 0xf,
                VrefDqRange2::_55_40P => 0x10,
                VrefDqRange2::_56_05P => 0x11,
                VrefDqRange2::_56_70P => 0x12,
                VrefDqRange2::_57_35P => 0x13,
                VrefDqRange2::_58_00P => 0x14,
                VrefDqRange2::_58_65P => 0x15,
                VrefDqRange2::_59_30P => 0x16,
                VrefDqRange2::_59_95P => 0x17,
                VrefDqRange2::_60_60P => 0x18,
                VrefDqRange2::_61_25P => 0x19,
                VrefDqRange2::_61_90P => 0x1a,
                VrefDqRange2::_62_55P => 0x1b,
                VrefDqRange2::_63_20P => 0x1c,
                VrefDqRange2::_63_85P => 0x1d,
                VrefDqRange2::_64_50P => 0x1e,
                VrefDqRange2::_65_15P => 0x1f,
                VrefDqRange2::_65_80P => 0x20,
                VrefDqRange2::_66_45P => 0x21,
                VrefDqRange2::_67_10P => 0x22,
                VrefDqRange2::_67_75P => 0x23,
                VrefDqRange2::_68_40P => 0x24,
                VrefDqRange2::_69_05P => 0x25,
                VrefDqRange2::_69_70P => 0x26,
                VrefDqRange2::_70_35P => 0x27,
                VrefDqRange2::_71_00P => 0x28,
                VrefDqRange2::_71_65P => 0x29,
                VrefDqRange2::_72_30P => 0x2a,
                VrefDqRange2::_72_95P => 0x2b,
                VrefDqRange2::_73_60P => 0x2c,
                VrefDqRange2::_74_25P => 0x2d,
                VrefDqRange2::_74_90P => 0x2e,
                VrefDqRange2::_75_55P => 0x2f,
                VrefDqRange2::_76_20P => 0x30,
                VrefDqRange2::_76_85P => 0x31,
                VrefDqRange2::_77_50P => 0x32,
            },
        )
    }
}

/// Every value of VrefDqRange2 is read back from its own number, and every number that is
/// read as a value is that value's number.
pub proof fn lemma_vref_dq_range2_roundtrip(x: VrefDqRange2, value: u64)
    ensures
        VrefDqRange2::spec_from_u64(x.spec_to_u64()) == Some(x),
        VrefDqRange2::spec_from_u64(value) matches Some(y) ==> y.spec_to_u64() == value,
{
}

impl VrefDqRange2 {
    /// What the name of this value says: the level, in hundredths of a percent.
    pub open spec fn spec_percent_hundredths(self) -> int {
        match self {
            VrefDqRange2::_45_00P => 4500,
            VrefDqRange2::_45_65P => 4565,
            VrefDqRange2::_46_30P => 4630,
            VrefDqRange2::_46_95P => 4695,
            VrefDqRange2::_47_60P => 4760,
            VrefDqRange2::_48_25P => 4825,
            VrefDqRange2::_48_90P => 4890,
            VrefDqRange2::_49_55P => 4955,
            VrefDqRange2::_50_20P => 5020,
            VrefDqRange2::_50_85P => 5085,
            VrefDqRange2::_51_50P => 5150,
            VrefDqRange2::_52_15P => 5215,
            VrefDqRange2::_52_80P => 5280,
            VrefDqRange2::_53_45P => 5345,
            VrefDqRange2::_54_10P => 5410,
            VrefDqRange2::_54_75P => 5475,
            VrefDqRange2::_55_40P => 5540,
            VrefDqRange2::_56_05P => 5605,
            VrefDqRange2::_56_70P => 5670,
            VrefDqRange2::_57_35P => 5735,
            VrefDqRange2::_58_00P => 5800,
            VrefDqRange2::_58_65P => 5865,
            VrefDqRange2::_59_30P => 5930,
            VrefDqRange2::_59_95P => 5995,
            VrefDqRange2::_60_60P => 6060,
            VrefDqRange2::_61_25P => 6125,
            VrefDqRange2::_61_90P => 6190,
            VrefDqRange2::_62_55P => 6255,
            VrefDqRange2::_63_20P => 6320,
            VrefDqRange2::_63_85P => 6385,
            VrefDqRange2::_64_50P => 6450,
            VrefDqRange2::_65_15P => 6515,
            VrefDqRange2::_65_80P => 6580,
            VrefDqRange2::_66_45P => 6645,
            VrefDqRange2::_67_10P => 6710,
            VrefDqRange2::_67_75P => 6775,
            VrefDqRange2::_68_40P => 6840,
            VrefDqRange2::_69_05P => 6905,
            VrefDqRange2::_69_70P => 6970,
            VrefDqRange2::_70_35P => 7035,
            VrefDqRange2::_71_00P => 7100,
            VrefDqRange2::_71_65P => 7165,
            VrefDqRange2::_72_30P => 7230,
            VrefDqRange2::_72_95P => 7295,
            VrefDqRange2::_73_60P => 7360,
            VrefDqRange2::_74_25P => 7425,
            VrefDqRange2::_74_90P => 7490,
            VrefDqRange2::_75_55P => 7555,
            VrefDqRange2::_76_20P => 7620,
            VrefDqRange2::_76_85P => 7685,
            VrefDqRange2::_77_50P => 7750,
        }
    }
}

/// The number of each value follows from what its name says: 65 times the number is
/// 1 times the named quantity plus -4500.
pub proof fn lemma_vref_dq_range2_numbers_follow_names(x: VrefDqRange2)
    ensures
        65 * x.spec_to_u64() == x.spec_percent_hundredths() - 4500,
{
}

/// The DQ reference voltage: a step of range 1 (between 60% and 92.5% of VDDQ, for
/// module-based systems) or of range 2 (between 45% and 77.5% of VDDQ, for point-to-point
/// systems); either in steps of 0.65% of VDDQ.
#[derive(Debug, Clone, Copy, PartialEq, Eq, Structural)]
pub enum VrefDq {
    Range1(VrefDqRange1),
    Range2(VrefDqRange2),
}

impl VrefDq {
    /// The number that stands for this value: the step, with bit 6 (0x40) set for range 2.
    pub open spec fn spec_to_u64(self) -> u64 {
        match self {
            VrefDq::Range1(x) => x.spec_to_u64(),
            VrefDq::Range2(x) => (0x40 + x.spec_to_u64()) as u64,
        }
    }

    /// The value that VALUE stands for, if any: bit 6 picks the range, bits 0 to 5 the step,
    /// and no other bit may be set.
    pub open spec fn spec_from_u64(value: u64) -> Option<VrefDq> {
        if value >= 0x80 {
            None
        } else if value >= 0x40 {
            match VrefDqRange2::spec_from_u64((value - 0x40) as u64) {
                Some(x) => Some(VrefDq::Range2(x)),
                None => None,
            }
        } else {
            match VrefDqRange1::spec_from_u64(value) {
                Some(x) => Some(VrefDq::Range1(x)),
                None => None,
            }
        }
    }

    pub fn to_i64(&self) -> (r: Option<i64>)
        ensures
            r == Some(self.spec_to_u64() as i64),
    {
        match self {
            Self::Range1(x) => Some(x.to_u64().unwrap() as i64),
            Self::Range2(x) => Some((0x40 + x.to_u64().unwrap()) as i64),
        }
    }

    pub fn to_u64(&self) -> (r: Option<u64>)
        ensures
            r == Some(self.spec_to_u64()),
    {
        match self {
            Self::Range1(x) => x.to_u64(),
            Self::Range2(x) => Some(0x40 + x.to_u64().unwrap()),
        }
    }

    pub fn from_u64(value: u64) -> (r: Option<VrefDq>)
        ensures
            r == VrefDq::spec_from_u64(value),
    {
        if value >= 0x80 {
            None
        } else if value >= 0x40 {
            match VrefDqRange2::from_u64(value - 0x40) {
                Some(x) => Some(VrefDq::Range2(x)),
                None => None,
            }
        } else {
            match VrefDqRange1::from_u64(value) {
                Some(x) => Some(VrefDq::Range1(x)),
                None => None,
            }
        }
    }

    pub fn from_i64(value: i64) -> (r: Option<VrefDq>)
        ensures
            r == (if value >= 0 { VrefDq::spec_from_u64(value as u64) } else { None }),
    {
        if value >= 0 {
            Self::from_u64(value as u64)
        } else {
            None
        }
    }
}

/// Every VrefDq value is read back from its own number, and every number that is read as a
/// value is that value's number.
pub proof fn lemma_vref_dq_roundtrip(x: VrefDq, value: u64)
    ensures
        VrefDq::spec_from_u64(x.spec_to_u64()) == Some(x),
        VrefDq::spec_from_u64(value) matches Some(y) ==> y.spec_to_u64() == value,
{
    match x {
        VrefDq::Range1(a) => lemma_vref_dq_range1_roundtrip(a, value),
        VrefDq::Range2(a) => {
            lemma_vref_dq_range2_roundtrip(a, (value - 0x40) as u64);
        },
    }
    if 0x40 <= value < 0x80 {
        lemma_vref_dq_range2_roundtrip(VrefDqRange2::_45_00P, (value - 0x40) as u64);
    } else if value < 0x40 {
        lemma_vref_dq_range1_roundtrip(VrefDqRange1::_60_00P, value);
    }
}

/// Data bus settings for RDIMMs and UDIMMs (one element per configuration; not for soldered-down DRAM).
#[allow(non_camel_case_types)]
#[derive(Debug, Clone, Copy, PartialEq, Eq, Structural)]
pub struct Ddr4DataBusElement {
    pub(crate) dimm_slots_per_channel: u32,
    pub(crate) ddr_rates: u32,
    pub(crate) vdd_io: u32,
    pub(crate) dimm0_ranks: u32,
    pub(crate) dimm1_ranks: u32,
    pub(crate) rtt_nom: u32,
    pub(crate) rtt_wr: u32,
    pub(crate) rtt_park: u32,
    pub(crate) dq_drive_strength: u32,
    pub(crate) dqs_drive_strength: u32,
    pub(crate) odt_drive_strength: u32,
    pub(crate) pmu_phy_vref: u32,
    pub(crate) vref_dq: u32,
}

impl Ddr4DataBusElement {
    pub closed spec fn spec_dimm_slots_per_channel(self) -> u32 {
        self.dimm_slots_per_channel
    }

    pub closed spec fn spec_ddr_rates(self) -> u32 {
        self.ddr_rates
    }

    pub closed spec fn spec_vdd_io(self) -> u32 {
        self.vdd_io
    }

    pub closed spec fn spec_dimm0_ranks(self) -> u32 {
        self.dimm0_ranks
    }

    pub closed spec fn spec_dimm1_ranks(self) -> u32 {
        self.dimm1_ranks
    }

    pub closed spec fn spec_rtt_nom(self) -> u32 {
        self.rtt_nom
    }

    pub closed spec fn spec_rtt_wr(self) -> u32 {
        self.rtt_wr
    }

    pub closed spec fn spec_rtt_park(self) -> u32 {
        self.rtt_park
    }

    pub closed spec fn spec_dq_drive_strength(self) -> u32 {
        self.dq_drive_strength
    }

    pub closed spec fn spec_dqs_drive_strength(self) -> u32 {
        self.dqs_drive_strength
    }

    pub closed spec fn spec_odt_drive_strength(self) -> u32 {
        self.odt_drive_strength
    }

    pub closed spec fn spec_pmu_phy_vref(self) -> u32 {
        self.pmu_phy_vref
    }

    pub closed spec fn spec_vref_dq(self) -> u32 {
        self.vref_dq
    }

    pub fn dimm_slots_per_channel(&self) -> (r: Result<u32>)
        ensures
            r == Ok::<u32, Error>(self.spec_dimm_slots_per_channel()),
    {
        Ok(self.dimm_slots_per_channel)
    }

    pub fn set_dimm_slots_per_channel(&mut self, value: u32)
        ensures
            final(self).spec_dimm_slots_per_channel() == value,
            final(self).spec_ddr_rates() == old(self).spec_ddr_rates(),
            final(self).spec_vdd_io() == old(self).spec_vdd_io(),
            final(self).spec_dimm0_ranks() == old(self).spec_dimm0_ranks(),
            final(self).spec_dimm1_ranks() == old(self).spec_dimm1_ranks(),
            final(self).spec_rtt_nom() == old(self).spec_rtt_nom(),
            final(self).spec_rtt_wr() == old(self).spec_rtt_wr(),
            final(self).spec_rtt_park() == old(self).spec_rtt_park(),
            final(self).spec_dq_drive_strength() == old(self).spec_dq_drive_strength(),
            final(self).spec_dqs_drive_strength() == old(self).spec_dqs_drive_strength(),
            final(self).spec_odt_drive_strength() == old(self).spec_odt_drive_strength(),
            final(self).spec_pmu_phy_vref() == old(self).spec_pmu_phy_vref(),
            final(self).spec_vref_dq() == old(self).spec_vref_dq(),
    {
        self.dimm_slots_per_channel = value;
    }

    pub fn ddr_rates(&self) -> (r: Result<DdrRates>)
        ensures
            r is Ok <==> (self.spec_ddr_rates() as u64) & !0x1555578u64 == 0,
            r matches Ok(b) ==> b.spec_raw() == self.spec_ddr_rates(),
    {
        proof {
            if (self.ddr_rates as u64) & !0x1555578u64 == 0 {
                lemma_masked_bound_u64(self.ddr_rates as u64, 0x1555578u64);
            }
        }
        match DdrRates::from_u64(self.ddr_rates as u64) {
            Some(b) => Ok(b),
            None => Err(Error::EntryTypeMismatch),
        }
    }

    pub fn set_ddr_rates(&mut self, value: DdrRates)
        ensures
            final(self).spec_ddr_rates() == value.spec_raw() as u32,
            final(self).spec_dimm_slots_per_channel() == old(self).spec_dimm_slots_per_channel(),
            final(self).spec_vdd_io() == old(self).spec_vdd_io(),
            final(self).spec_dimm0_ranks() == old(self).spec_dimm0_ranks(),
            final(self).spec_dimm1_ranks() == old(self).spec_dimm1_ranks(),
            final(self).spec_rtt_nom() == old(self).spec_rtt_nom(),
            final(self).spec_rtt_wr() == old(self).spec_rtt_wr(),
            final(self).spec_rtt_park() == old(self).spec_rtt_park(),
            final(self).spec_dq_drive_strength() == old(self).spec_dq_drive_strength(),
            final(self).spec_dqs_drive_strength() == old(self).spec_dqs_drive_strength(),
            final(self).spec_odt_drive_strength() == old(self).spec_odt_drive_strength(),
            final(self).spec_pmu_phy_vref() == old(self).spec_pmu_phy_vref(),
            final(self).spec_vref_dq() == old(self).spec_vref_dq(),
    {
        self.ddr_rates = value.into_raw() as u32;
    }

    pub fn vdd_io(&self) -> (r: Result<RdimmDdr4Voltages>)
        ensures
            r is Ok <==> (self.spec_vdd_io() as u64) & !0x1u64 == 0,
            r matches Ok(b) ==> b.spec_raw() == self.spec_vdd_io(),
    {
        proof {
            if (self.vdd_io as u64) & !0x1u64 == 0 {
                lemma_masked_bound_u64(self.vdd_io as u64, 0x1u64);
            }
        }
        match RdimmDdr4Voltages::from_u64(self.vdd_io as u64) {
            Some(b) => Ok(b),
            None => Err(Error::EntryTypeMismatch),
        }
    }

    pub fn set_vdd_io(&mut self, value: RdimmDdr4Voltages)
        ensures
            final(self).spec_vdd_io() == value.spec_raw() as u32,
            final(self).spec_dimm_slots_per_channel() == old(self).spec_dimm_slots_per_channel(),
            final(self).spec_ddr_rates() == old(self).spec_ddr_rates(),
            final(self).spec_dimm0_ranks() == old(self).spec_dimm0_ranks(),
            final(self).spec_dimm1_ranks() == old(self).spec_dimm1_ranks(),
            final(self).spec_rtt_nom() == old(self).spec_rtt_nom(),
            final(self).spec_rtt_wr() == old(self).spec_rtt_wr(),
            final(self).spec_rtt_park() == old(self).spec_rtt_park(),
            final(self).spec_dq_drive_strength() == old(self).spec_dq_drive_strength(),
            final(self).spec_dqs_drive_strength() == old(self).spec_dqs_drive_strength(),
            final(self).spec_odt_drive_strength() == old(self).spec_odt_drive_strength(),
            final(self).spec_pmu_phy_vref() == old(self).spec_pmu_phy_vref(),
            final(self).spec_vref_dq() == old(self).spec_vref_dq(),
    {
        self.vdd_io = value.into_raw() as u32;
    }

    pub fn dimm0_ranks(&self) -> (r: Result<Ddr4DimmRanks>)
        ensures
            r is Ok <==> (self.spec_dimm0_ranks() as u64) & !0xfu64 == 0,
            r matches Ok(b) ==> b.spec_raw() == self.spec_dimm0_ranks(),
    {
        proof {
            if (self.dimm0_ranks as u64) & !0xfu64 == 0 {
                lemma_masked_bound_u64(self.dimm0_ranks as u64, 0xfu64);
            }
        }
        match Ddr4DimmRanks::from_u64(self.dimm0_ranks as u64) {
            Some(b) => Ok(b),
            None => Err(Error::EntryTypeMismatch),
        }
    }

    pub fn set_dimm0_ranks(&mut self, value: Ddr4DimmRanks)
        ensures
            final(self).spec_dimm0_ranks() == value.spec_raw() as u32,
            final(self).spec_dimm_slots_per_channel() == old(self).spec_dimm_slots_per_channel(),
            final(self).spec_ddr_rates() == old(self).spec_ddr_rates(),
            final(self).spec_vdd_io() == old(self).spec_vdd_io(),
            final(self).spec_dimm1_ranks() == old(self).spec_dimm1_ranks(),
            final(self).spec_rtt_nom() == old(self).spec_rtt_nom(),
            final(self).spec_rtt_wr() == old(self).spec_rtt_wr(),
            final(self).spec_rtt_park() == old(self).spec_rtt_park(),
            final(self).spec_dq_drive_strength() == old(self).spec_dq_drive_strength(),
            final(self).spec_dqs_drive_strength() == old(self).spec_dqs_drive_strength(),
            final(self).spec_odt_drive_strength() == old(self).spec_odt_drive_strength(),
            final(self).spec_pmu_phy_vref() == old(self).spec_pmu_phy_vref(),
            final(self).spec_vref_dq() == old(self).spec_vref_dq(),
    {
        self.dimm0_ranks = value.into_raw() as u32;
    }

    pub fn dimm1_ranks(&self) -> (r: Result<Ddr4DimmRanks>)
        ensures
            r is Ok <==> (self.spec_dimm1_ranks() as u64) & !0xfu64 == 0,
            r matches Ok(b) ==> b.spec_raw() == self.spec_dimm1_ranks(),
    {
        proof {
            if (self.dimm1_ranks as u64) & !0xfu64 == 0 {
                lemma_masked_bound_u64(self.dimm1_ranks as u64, 0xfu64);
            }
        }
        match Ddr4DimmRanks::from_u64(self.dimm1_ranks as u64) {
            Some(b) => Ok(b),
            None => Err(Error::EntryTypeMismatch),
        }
    }

    pub fn set_dimm1_ranks(&mut self, value: Ddr4DimmRanks)
        ensures
            final(self).spec_dimm1_ranks() == value.spec_raw() as u32,
            final(self).spec_dimm_slots_per_channel() == old(self).spec_dimm_slots_per_channel(),
            final(self).spec_ddr_rates() == old(self).spec_ddr_rates(),
            final(self).spec_vdd_io() == old(self).spec_vdd_io(),
            final(self).spec_dimm0_ranks() == old(self).spec_dimm0_ranks(),
            final(self).spec_rtt_nom() == old(self).spec_rtt_nom(),
            final(self).spec_rtt_wr() == old(self).spec_rtt_wr(),
            final(self).spec_rtt_park() == old(self).spec_rtt_park(),
            final(self).spec_dq_drive_strength() == old(self).spec_dq_drive_strength(),
            final(self).spec_dqs_drive_strength() == old(self).spec_dqs_drive_strength(),
            final(self).spec_odt_drive_strength() == old(self).spec_odt_drive_strength(),
            final(self).spec_pmu_phy_vref() == old(self).spec_pmu_phy_vref(),
            final(self).spec_vref_dq() == old(self).spec_vref_dq(),
    {
        self.dimm1_ranks = value.into_raw() as u32;
    }

    pub fn rtt_nom(&self) -> (r: Result<RttNom>)
        ensures
            r == match RttNom::spec_from_u64(self.spec_rtt_nom() as u64) {
                Some(e) => Ok::<RttNom, Error>(e),
                None => Err(Error::EntryTypeMismatch),
            },
    {
        match RttNom::from_u64(self.rtt_nom as u64) {
            Some(e) => Ok(e),
            None => Err(Error::EntryTypeMismatch),
        }
    }

    pub fn set_rtt_nom(&mut self, value: RttNom)
        ensures
            final(self).spec_rtt_nom() == value.spec_to_u64() as u32,
            final(self).spec_dimm_slots_per_channel() == old(self).spec_dimm_slots_per_channel(),
            final(self).spec_ddr_rates() == old(self).spec_ddr_rates(),
            final(self).spec_vdd_io() == old(self).spec_vdd_io(),
            final(self).spec_dimm0_ranks() == old(self).spec_dimm0_ranks(),
            final(self).spec_dimm1_ranks() == old(self).spec_dimm1_ranks(),
            final(self).spec_rtt_wr() == old(self).spec_rtt_wr(),
            final(self).spec_rtt_park() == old(self).spec_rtt_park(),
            final(self).spec_dq_drive_strength() == old(self).spec_dq_drive_strength(),
            final(self).spec_dqs_drive_strength() == old(self).spec_dqs_drive_strength(),
            final(self).spec_odt_drive_strength() == old(self).spec_odt_drive_strength(),
            final(self).spec_pmu_phy_vref() == old(self).spec_pmu_phy_vref(),
            final(self).spec_vref_dq() == old(self).spec_vref_dq(),
    {
        self.rtt_nom = value.to_u64().unwrap() as u32;
    }

    pub fn rtt_wr(&self) -> (r: Result<RttWr>)
        ensures
            r == match RttWr::spec_from_u64(self.spec_rtt_wr() as u64) {
                Some(e) => Ok::<RttWr, Error>(e),
                None => Err(Error::EntryTypeMismatch),
            },
    {
        match RttWr::from_u64(self.rtt_wr as u64) {
            Some(e) => Ok(e),
            None => Err(Error::EntryTypeMismatch),
        }
    }

    pub fn set_rtt_wr(&mut self, value: RttWr)
        ensures
            final(self).spec_rtt_wr() == value.spec_to_u64() as u32,
            final(self).spec_dimm_slots_per_channel() == old(self).spec_dimm_slots_per_channel(),
            final(self).spec_ddr_rates() == old(self).spec_ddr_rates(),
            final(self).spec_vdd_io() == old(self).spec_vdd_io(),
            final(self).spec_dimm0_ranks() == old(self).spec_dimm0_ranks(),
            final(self).spec_dimm1_ranks() == old(self).spec_dimm1_ranks(),
            final(self).spec_rtt_nom() == old(self).spec_rtt_nom(),
            final(self).spec_rtt_park() == old(self).spec_rtt_park(),
            final(self).spec_dq_drive_strength() == old(self).spec_dq_drive_strength(),
            final(self).spec_dqs_drive_strength() == old(self).spec_dqs_drive_strength(),
            final(self).spec_odt_drive_strength() == old(self).spec_odt_drive_strength(),
            final(self).spec_pmu_phy_vref() == old(self).spec_pmu_phy_vref(),
            final(self).spec_vref_dq() == old(self).spec_vref_dq(),
    {
        self.rtt_wr = value.to_u64().unwrap() as u32;
    }

    pub fn rtt_park(&self) -> (r: Result<RttNom>)
        ensures
            r == match RttNom::spec_from_u64(self.spec_rtt_park() as u64) {
                Some(e) => Ok::<RttNom, Error>(e),
                None => Err(Error::EntryTypeMismatch),
            },
    {
        match RttNom::from_u64(self.rtt_park as u64) {
            Some(e) => Ok(e),
            None => Err(Error::EntryTypeMismatch),
        }
    }

    pub fn set_rtt_park(&mut self, value: RttNom)
        ensures
            final(self).spec_rtt_park() == value.spec_to_u64() as u32,
            final(self).spec_dimm_slots_per_channel() == old(self).spec_dimm_slots_per_channel(),
            final(self).spec_ddr_rates() == old(self).spec_ddr_rates(),
            final(self).spec_vdd_io() == old(self).spec_vdd_io(),
            final(self).spec_dimm0_ranks() == old(self).spec_dimm0_ranks(),
            final(self).spec_dimm1_ranks() == old(self).spec_dimm1_ranks(),
            final(self).spec_rtt_nom() == old(self).spec_rtt_nom(),
            final(self).spec_rtt_wr() == old(self).spec_rtt_wr(),
            final(self).spec_dq_drive_strength() == old(self).spec_dq_drive_strength(),
            final(self).spec_dqs_drive_strength() == old(self).spec_dqs_drive_strength(),
            final(self).spec_odt_drive_strength() == old(self).spec_odt_drive_strength(),
            final(self).spec_pmu_phy_vref() == old(self).spec_pmu_phy_vref(),
            final(self).spec_vref_dq() == old(self).spec_vref_dq(),
    {
        self.rtt_park = value.to_u64().unwrap() as u32;
    }

    pub fn dq_drive_strength(&self) -> (r: Result<u32>)
        ensures
            r == Ok::<u32, Error>(self.spec_dq_drive_strength()),
    {
        Ok(self.dq_drive_strength)
    }

    pub fn set_dq_drive_strength(&mut self, value: u32)
        ensures
            final(self).spec_dq_drive_strength() == value,
            final(self).spec_dimm_slots_per_channel() == old(self).spec_dimm_slots_per_channel(),
            final(self).spec_ddr_rates() == old(self).spec_ddr_rates(),
            final(self).spec_vdd_io() == old(self).spec_vdd_io(),
            final(self).spec_dimm0_ranks() == old(self).spec_dimm0_ranks(),
            final(self).spec_dimm1_ranks() == old(self).spec_dimm1_ranks(),
            final(self).spec_rtt_nom() == old(self).spec_rtt_nom(),
            final(self).spec_rtt_wr() == old(self).spec_rtt_wr(),
            final(self).spec_rtt_park() == old(self).spec_rtt_park(),
            final(self).spec_dqs_drive_strength() == old(self).spec_dqs_drive_strength(),
            final(self).spec_odt_drive_strength() == old(self).spec_odt_drive_strength(),
            final(self).spec_pmu_phy_vref() == old(self).spec_pmu_phy_vref(),
            final(self).spec_vref_dq() == old(self).spec_vref_dq(),
    {
        self.dq_drive_strength = value;
    }

    pub fn dqs_drive_strength(&self) -> (r: Result<u32>)
        ensures
            r == Ok::<u32, Error>(self.spec_dqs_drive_strength()),
    {
        Ok(self.dqs_drive_strength)
    }

    pub fn set_dqs_drive_strength(&mut self, value: u32)
        ensures
            final(self).spec_dqs_drive_strength() == value,
            final(self).spec_dimm_slots_per_channel() == old(self).spec_dimm_slots_per_channel(),
            final(self).spec_ddr_rates() == old(self).spec_ddr_rates(),
            final(self).spec_vdd_io() == old(self).spec_vdd_io(),
            final(self).spec_dimm0_ranks() == old(self).spec_dimm0_ranks(),
            final(self).spec_dimm1_ranks() == old(self).spec_dimm1_ranks(),
            final(self).spec_rtt_nom() == old(self).spec_rtt_nom(),
            final(self).spec_rtt_wr() == old(self).spec_rtt_wr(),
            final(self).spec_rtt_park() == old(self).spec_rtt_park(),
            final(self).spec_dq_drive_strength() == old(self).spec_dq_drive_strength(),
            final(self).spec_odt_drive_strength() == old(self).spec_odt_drive_strength(),
            final(self).spec_pmu_phy_vref() == old(self).spec_pmu_phy_vref(),
            final(self).spec_vref_dq() == old(self).spec_vref_dq(),
    {
        self.dqs_drive_strength = value;
    }

    pub fn odt_drive_strength(&self) -> (r: Result<u32>)
        ensures
            r == Ok::<u32, Error>(self.spec_odt_drive_strength()),
    {
        Ok(self.odt_drive_strength)
    }

    pub fn set_odt_drive_strength(&mut self, value: u32)
        ensures
            final(self).spec_odt_drive_strength() == value,
            final(self).spec_dimm_slots_per_channel() == old(self).spec_dimm_slots_per_channel(),
            final(self).spec_ddr_rates() == old(self).spec_ddr_rates(),
            final(self).spec_vdd_io() == old(self).spec_vdd_io(),
            final(self).spec_dimm0_ranks() == old(self).spec_dimm0_ranks(),
            final(self).spec_dimm1_ranks() == old(self).spec_dimm1_ranks(),
            final(self).spec_rtt_nom() == old(self).spec_rtt_nom(),
            final(self).spec_rtt_wr() == old(self).spec_rtt_wr(),
            final(self).spec_rtt_park() == old(self).spec_rtt_park(),
            final(self).spec_dq_drive_strength() == old(self).spec_dq_drive_strength(),
            final(self).spec_dqs_drive_strength() == old(self).spec_dqs_drive_strength(),
            final(self).spec_pmu_phy_vref() == old(self).spec_pmu_phy_vref(),
            final(self).spec_vref_dq() == old(self).spec_vref_dq(),
    {
        self.odt_drive_strength = value;
    }

    pub fn pmu_phy_vref(&self) -> (r: Result<u32>)
        ensures
            r == Ok::<u32, Error>(self.spec_pmu_phy_vref()),
    {
        Ok(self.pmu_phy_vref)
    }

    pub fn set_pmu_phy_vref(&mut self, value: u32)
        ensures
            final(self).spec_pmu_phy_vref() == value,
            final(self).spec_dimm_slots_per_channel() == old(self).spec_dimm_slots_per_channel(),
            final(self).spec_ddr_rates() == old(self).spec_ddr_rates(),
            final(self).spec_vdd_io() == old(self).spec_vdd_io(),
            final(self).spec_dimm0_ranks() == old(self).spec_dimm0_ranks(),
            final(self).spec_dimm1_ranks() == old(self).spec_dimm1_ranks(),
            final(self).spec_rtt_nom() == old(self).spec_rtt_nom(),
            final(self).spec_rtt_wr() == old(self).spec_rtt_wr(),
            final(self).spec_rtt_park() == old(self).spec_rtt_park(),
            final(self).spec_dq_drive_strength() == old(self).spec_dq_drive_strength(),
            final(self).spec_dqs_drive_strength() == old(self).spec_dqs_drive_strength(),
            final(self).spec_odt_drive_strength() == old(self).spec_odt_drive_strength(),
            final(self).spec_vref_dq() == old(self).spec_vref_dq(),
    {
        self.pmu_phy_vref = value;
    }

    pub fn vref_dq(&self) -> (r: Result<VrefDq>)
        ensures
            r == match VrefDq::spec_from_u64(self.spec_vref_dq() as u64) {
                Some(e) => Ok::<VrefDq, Error>(e),
                None => Err(Error::EntryTypeMismatch),
            },
    {
        match VrefDq::from_u64(self.vref_dq as u64) {
            Some(e) => Ok(e),
            None => Err(Error::EntryTypeMismatch),
        }
    }

    pub fn set_vref_dq(&mut self, value: VrefDq)
        ensures
            final(self).spec_vref_dq() == value.spec_to_u64() as u32,
            final(self).spec_dimm_slots_per_channel() == old(self).spec_dimm_slots_per_channel(),
            final(self).spec_ddr_rates() == old(self).spec_ddr_rates(),
            final(self).spec_vdd_io() == old(self).spec_vdd_io(),
            final(self).spec_dimm0_ranks() == old(self).spec_dimm0_ranks(),
            final(self).spec_dimm1_ranks() == old(self).spec_dimm1_ranks(),
            final(self).spec_rtt_nom() == old(self).spec_rtt_nom(),
            final(self).spec_rtt_wr() == old(self).spec_rtt_wr(),
            final(self).spec_rtt_park() == old(self).spec_rtt_park(),
            final(self).spec_dq_drive_strength() == old(self).spec_dq_drive_strength(),
            final(self).spec_dqs_drive_strength() == old(self).spec_dqs_drive_strength(),
            final(self).spec_odt_drive_strength() == old(self).spec_odt_drive_strength(),
            final(self).spec_pmu_phy_vref() == old(self).spec_pmu_phy_vref(),
    {
        self.vref_dq = value.to_u64().unwrap() as u32;
    }

}

impl Ddr4DataBusElement {
    /// The bytes that store this value on disk.
    pub closed spec fn spec_bytes(self) -> Seq<u8> {
        spec_u32_to_le_bytes(self.dimm_slots_per_channel)
            + spec_u32_to_le_bytes(self.ddr_rates)
            + spec_u32_to_le_bytes(self.vdd_io)
            + spec_u32_to_le_bytes(self.dimm0_ranks)
            + spec_u32_to_le_bytes(self.dimm1_ranks)
            + spec_u32_to_le_bytes(self.rtt_nom)
            + spec_u32_to_le_bytes(self.rtt_wr)
            + spec_u32_to_le_bytes(self.rtt_park)
            + spec_u32_to_le_bytes(self.dq_drive_strength)
            + spec_u32_to_le_bytes(self.dqs_drive_strength)
            + spec_u32_to_le_bytes(self.odt_drive_strength)
            + spec_u32_to_le_bytes(self.pmu_phy_vref)
            + spec_u32_to_le_bytes(self.vref_dq)
    }
}

impl ByteLayout for Ddr4DataBusElement {
    open spec fn spec_size() -> nat {
        52
    }

    open spec fn spec_to_bytes(self) -> Seq<u8> {
        self.spec_bytes()
    }

    fn size() -> (r: usize) {
        52
    }

    #[verifier::spinoff_prover]
    #[verifier::rlimit(60)]
    fn from_bytes(bytes: &[u8]) -> (r: Self) {
        let dimm_slots_per_channel: u32 = u32_from_le_bytes(slice_subrange(bytes, 0, 4));
        let ddr_rates: u32 = u32_from_le_bytes(slice_subrange(bytes, 4, 8));
        let vdd_io: u32 = u32_from_le_bytes(slice_subrange(bytes, 8, 12));
        let dimm0_ranks: u32 = u32_from_le_bytes(slice_subrange(bytes, 12, 16));
        let dimm1_ranks: u32 = u32_from_le_bytes(slice_subrange(bytes, 16, 20));
        let rtt_nom: u32 = u32_from_le_bytes(slice_subrange(bytes, 20, 24));
        let rtt_wr: u32 = u32_from_le_bytes(slice_subrange(bytes, 24, 28));
        let rtt_park: u32 = u32_from_le_bytes(slice_subrange(bytes, 28, 32));
        let dq_drive_strength: u32 = u32_from_le_bytes(slice_subrange(bytes, 32, 36));
        let dqs_drive_strength: u32 = u32_from_le_bytes(slice_subrange(bytes, 36, 40));
        let odt_drive_strength: u32 = u32_from_le_bytes(slice_subrange(bytes, 40, 44));
        let pmu_phy_vref: u32 = u32_from_le_bytes(slice_subrange(bytes, 44, 48));
        let vref_dq: u32 = u32_from_le_bytes(slice_subrange(bytes, 48, 52));
        let r = Ddr4DataBusElement { dimm_slots_per_channel, ddr_rates, vdd_io, dimm0_ranks, dimm1_ranks, rtt_nom, rtt_wr, rtt_park, dq_drive_strength, dqs_drive_strength, odt_drive_strength, pmu_phy_vref, vref_dq };
        proof {
            lemma_auto_spec_u16_to_from_le_bytes();
            lemma_auto_spec_u32_to_from_le_bytes();
            lemma_auto_spec_u64_to_from_le_bytes();
            lemma_ddr4_data_bus_element_bytes_pieces(r);
            assert(bytes@.subrange(0, 4) == spec_u32_to_le_bytes(dimm_slots_per_channel));
            assert(bytes@.subrange(4, 8) == spec_u32_to_le_bytes(ddr_rates));
            assert(bytes@.subrange(8, 12) == spec_u32_to_le_bytes(vdd_io));
            assert(bytes@.subrange(12, 16) == spec_u32_to_le_bytes(dimm0_ranks));
            assert(bytes@.subrange(16, 20) == spec_u32_to_le_bytes(dimm1_ranks));
            assert(bytes@.subrange(20, 24) == spec_u32_to_le_bytes(rtt_nom));
            assert(bytes@.subrange(24, 28) == spec_u32_to_le_bytes(rtt_wr));
            assert(bytes@.subrange(28, 32) == spec_u32_to_le_bytes(rtt_park));
            assert(bytes@.subrange(32, 36) == spec_u32_to_le_bytes(dq_drive_strength));
            assert(bytes@.subrange(36, 40) == spec_u32_to_le_bytes(dqs_drive_strength));
            assert(bytes@.subrange(40, 44) == spec_u32_to_le_bytes(odt_drive_strength));
            assert(bytes@.subrange(44, 48) == spec_u32_to_le_bytes(pmu_phy_vref));
            assert(bytes@.subrange(48, 52) == spec_u32_to_le_bytes(vref_dq));
            assert(bytes@.subrange(0, 8) =~= bytes@.subrange(0, 4) + bytes@.subrange(4, 8));
            assert(bytes@.subrange(0, 12) =~= bytes@.subrange(0, 8) + bytes@.subrange(8, 12));
            assert(bytes@.subrange(0, 16) =~= bytes@.subrange(0, 12) + bytes@.subrange(12, 16));
            assert(bytes@.subrange(0, 20) =~= bytes@.subrange(0, 16) + bytes@.subrange(16, 20));
            assert(bytes@.subrange(0, 24) =~= bytes@.subrange(0, 20) + bytes@.subrange(20, 24));
            assert(bytes@.subrange(0, 28) =~= bytes@.subrange(0, 24) + bytes@.subrange(24, 28));
            assert(bytes@.subrange(0, 32) =~= bytes@.subrange(0, 28) + bytes@.subrange(28, 32));
            assert(bytes@.subrange(0, 36) =~= bytes@.subrange(0, 32) + bytes@.subrange(32, 36));
            assert(bytes@.subrange(0, 40) =~= bytes@.subrange(0, 36) + bytes@.subrange(36, 40));
            assert(bytes@.subrange(0, 44) =~= bytes@.subrange(0, 40) + bytes@.subrange(40, 44));
            assert(bytes@.subrange(0, 48) =~= bytes@.subrange(0, 44) + bytes@.subrange(44, 48));
            assert(bytes@.subrange(0, 52) =~= bytes@.subrange(0, 48) + bytes@.subrange(48, 52));
            assert(bytes@.subrange(0, 52) =~= bytes@);
            assert(bytes@ == r.spec_bytes());
        }
        r
    }

    #[verifier::spinoff_prover]
    #[verifier::rlimit(60)]
    fn to_bytes(&self) -> (r: Vec<u8>) {
        let mut out: Vec<u8> = Vec::new();
        append_bytes(&mut out, &le_bytes_u32(self.dimm_slots_per_channel));
        append_bytes(&mut out, &le_bytes_u32(self.ddr_rates));
        append_bytes(&mut out, &le_bytes_u32(self.vdd_io));
        append_bytes(&mut out, &le_bytes_u32(self.dimm0_ranks));
        append_bytes(&mut out, &le_bytes_u32(self.dimm1_ranks));
        append_bytes(&mut out, &le_bytes_u32(self.rtt_nom));
        append_bytes(&mut out, &le_bytes_u32(self.rtt_wr));
        append_bytes(&mut out, &le_bytes_u32(self.rtt_park));
        append_bytes(&mut out, &le_bytes_u32(self.dq_drive_strength));
        append_bytes(&mut out, &le_bytes_u32(self.dqs_drive_strength));
        append_bytes(&mut out, &le_bytes_u32(self.odt_drive_strength));
        append_bytes(&mut out, &le_bytes_u32(self.pmu_phy_vref));
        append_bytes(&mut out, &le_bytes_u32(self.vref_dq));
        proof {
            lemma_ddr4_data_bus_element_bytes_pieces(*self);
        }
        out
    }
}

/// How the bytes of a Ddr4DataBusElement split up into its fields.
pub proof fn lemma_ddr4_data_bus_element_bytes_pieces(x: Ddr4DataBusElement)
    ensures
        x.spec_bytes().len() == 52,
        x.spec_bytes().subrange(0, 4) == spec_u32_to_le_bytes(x.spec_dimm_slots_per_channel()),
        x.spec_bytes().subrange(4, 8) == spec_u32_to_le_bytes(x.spec_ddr_rates()),
        x.spec_bytes().subrange(8, 12) == spec_u32_to_le_bytes(x.spec_vdd_io()),
        x.spec_bytes().subrange(12, 16) == spec_u32_to_le_bytes(x.spec_dimm0_ranks()),
        x.spec_bytes().subrange(16, 20) == spec_u32_to_le_bytes(x.spec_dimm1_ranks()),
        x.spec_bytes().subrange(20, 24) == spec_u32_to_le_bytes(x.spec_rtt_nom()),
        x.spec_bytes().subrange(24, 28) == spec_u32_to_le_bytes(x.spec_rtt_wr()),
        x.spec_bytes().subrange(28, 32) == spec_u32_to_le_bytes(x.spec_rtt_park()),
        x.spec_bytes().subrange(32, 36) == spec_u32_to_le_bytes(x.spec_dq_drive_strength()),
        x.spec_bytes().subrange(36, 40) == spec_u32_to_le_bytes(x.spec_dqs_drive_strength()),
        x.spec_bytes().subrange(40, 44) == spec_u32_to_le_bytes(x.spec_odt_drive_strength()),
        x.spec_bytes().subrange(44, 48) == spec_u32_to_le_bytes(x.spec_pmu_phy_vref()),
        x.spec_bytes().subrange(48, 52) == spec_u32_to_le_bytes(x.spec_vref_dq()),
{
    lemma_auto_spec_u16_to_from_le_bytes();
    lemma_auto_spec_u32_to_from_le_bytes();
    lemma_auto_spec_u64_to_from_le_bytes();
    assert(x.spec_bytes().subrange(0, 4) == spec_u32_to_le_bytes(x.dimm_slots_per_channel));
    assert(x.spec_bytes().subrange(4, 8) == spec_u32_to_le_bytes(x.ddr_rates));
    assert(x.spec_bytes().subrange(8, 12) == spec_u32_to_le_bytes(x.vdd_io));
    assert(x.spec_bytes().subrange(12, 16) == spec_u32_to_le_bytes(x.dimm0_ranks));
    assert(x.spec_bytes().subrange(16, 20) == spec_u32_to_le_bytes(x.dimm1_ranks));
    assert(x.spec_bytes().subrange(20, 24) == spec_u32_to_le_bytes(x.rtt_nom));
    assert(x.spec_bytes().subrange(24, 28) == spec_u32_to_le_bytes(x.rtt_wr));
    assert(x.spec_bytes().subrange(28, 32) == spec_u32_to_le_bytes(x.rtt_park));
    assert(x.spec_bytes().subrange(32, 36) == spec_u32_to_le_bytes(x.dq_drive_strength));
    assert(x.spec_bytes().subrange(36, 40) == spec_u32_to_le_bytes(x.dqs_drive_strength));
    assert(x.spec_bytes().subrange(40, 44) == spec_u32_to_le_bytes(x.odt_drive_strength));
    assert(x.spec_bytes().subrange(44, 48) == spec_u32_to_le_bytes(x.pmu_phy_vref));
    assert(x.spec_bytes().subrange(48, 52) == spec_u32_to_le_bytes(x.vref_dq));
}

/// Two values of Ddr4DataBusElement with the same bytes are the same value.
#[verifier::spinoff_prover]
#[verifier::rlimit(60)]
pub proof fn lemma_ddr4_data_bus_element_bytes_injective(x: Ddr4DataBusElement, y: Ddr4DataBusElement)
    requires
        x.spec_bytes() == y.spec_bytes(),
    ensures
        x == y,
{
    lemma_ddr4_data_bus_element_bytes_pieces(x);
    lemma_ddr4_data_bus_element_bytes_pieces(y);
    lemma_auto_spec_u16_to_from_le_bytes();
    lemma_auto_spec_u32_to_from_le_bytes();
    lemma_auto_spec_u64_to_from_le_bytes();
    assert(spec_u32_from_le_bytes(spec_u32_to_le_bytes(x.dimm_slots_per_channel)) == spec_u32_from_le_bytes(spec_u32_to_le_bytes(y.dimm_slots_per_channel)));
    assert(spec_u32_from_le_bytes(spec_u32_to_le_bytes(x.ddr_rates)) == spec_u32_from_le_bytes(spec_u32_to_le_bytes(y.ddr_rates)));
    assert(spec_u32_from_le_bytes(spec_u32_to_le_bytes(x.vdd_io)) == spec_u32_from_le_bytes(spec_u32_to_le_bytes(y.vdd_io)));
    assert(spec_u32_from_le_bytes(spec_u32_to_le_bytes(x.dimm0_ranks)) == spec_u32_from_le_bytes(spec_u32_to_le_bytes(y.dimm0_ranks)));
    assert(spec_u32_from_le_bytes(spec_u32_to_le_bytes(x.dimm1_ranks)) == spec_u32_from_le_bytes(spec_u32_to_le_bytes(y.dimm1_ranks)));
    assert(spec_u32_from_le_bytes(spec_u32_to_le_bytes(x.rtt_nom)) == spec_u32_from_le_bytes(spec_u32_to_le_bytes(y.rtt_nom)));
    assert(spec_u32_from_le_bytes(spec_u32_to_le_bytes(x.rtt_wr)) == spec_u32_from_le_bytes(spec_u32_to_le_bytes(y.rtt_wr)));
    assert(spec_u32_from_le_bytes(spec_u32_to_le_bytes(x.rtt_park)) == spec_u32_from_le_bytes(spec_u32_to_le_bytes(y.rtt_park)));
    assert(spec_u32_from_le_bytes(spec_u32_to_le_bytes(x.dq_drive_strength)) == spec_u32_from_le_bytes(spec_u32_to_le_bytes(y.dq_drive_strength)));
    assert(spec_u32_from_le_bytes(spec_u32_to_le_bytes(x.dqs_drive_strength)) == spec_u32_from_le_bytes(spec_u32_to_le_bytes(y.dqs_drive_strength)));
    assert(spec_u32_from_le_bytes(spec_u32_to_le_bytes(x.odt_drive_strength)) == spec_u32_from_le_bytes(spec_u32_to_le_bytes(y.odt_drive_strength)));
    assert(spec_u32_from_le_bytes(spec_u32_to_le_bytes(x.pmu_phy_vref)) == spec_u32_from_le_bytes(spec_u32_to_le_bytes(y.pmu_phy_vref)));
    assert(spec_u32_from_le_bytes(spec_u32_to_le_bytes(x.vref_dq)) == spec_u32_from_le_bytes(spec_u32_to_le_bytes(y.vref_dq)));
}

impl Default for Ddr4DataBusElement {
    fn default() -> (r: Self)
        ensures
            r.spec_dimm_slots_per_channel() == 1,
            r.spec_ddr_rates() == 0x1373200,
            r.spec_vdd_io() == 1,
            r.spec_dimm0_ranks() == 2,
            r.spec_dimm1_ranks() == 1,
            r.spec_rtt_nom() == 0,
            r.spec_rtt_wr() == 0,
            r.spec_rtt_park() == 5,
            r.spec_dq_drive_strength() == 62,
            r.spec_dqs_drive_strength() == 62,
            r.spec_odt_drive_strength() == 24,
            r.spec_pmu_phy_vref() == 91,
            r.spec_vref_dq() == 23,
    {
        Ddr4DataBusElement { dimm_slots_per_channel: 1, ddr_rates: 0x1373200, vdd_io: 1, dimm0_ranks: 2, dimm1_ranks: 1, rtt_nom: 0, rtt_wr: 0, rtt_park: 5, dq_drive_strength: 62, dqs_drive_strength: 62, odt_drive_strength: 24, pmu_phy_vref: 91, vref_dq: 23 }
    }
}

/// The data bus element of RDIMMs.
pub type RdimmDdr4DataBusElement = Ddr4DataBusElement;

/// The data bus element of UDIMMs.
pub type UdimmDdr4DataBusElement = Ddr4DataBusElement;

impl Ddr4DataBusElement {
    /// An element for the given configuration, the drive strengths as in the default.
    pub fn new(
        dimm_slots_per_channel: u32,
        ddr_rates: DdrRates,
        dimm0_ranks: Ddr4DimmRanks,
        dimm1_ranks: Ddr4DimmRanks,
        rtt_nom: RttNom,
        rtt_wr: RttWr,
        rtt_park: RttPark,
        pmu_phy_vref: u32,
        vref_dq: VrefDq,
    ) -> (r: Result<Self>)
        ensures
            r matches Ok(e) && {
                &&& e.spec_dimm_slots_per_channel() == dimm_slots_per_channel
                &&& e.spec_ddr_rates() == ddr_rates.spec_raw()
                &&& e.spec_vdd_io() == 1
                &&& e.spec_dimm0_ranks() == dimm0_ranks.spec_raw() as u32
                &&& e.spec_dimm1_ranks() == dimm1_ranks.spec_raw() as u32
                &&& e.spec_rtt_nom() == rtt_nom.spec_to_u64() as u32
                &&& e.spec_rtt_wr() == rtt_wr.spec_to_u64() as u32
                &&& e.spec_rtt_park() == rtt_park.spec_to_u64() as u32
                &&& e.spec_dq_drive_strength() == 62
                &&& e.spec_dqs_drive_strength() == 62
                &&& e.spec_odt_drive_strength() == 24
                &&& e.spec_pmu_phy_vref() == pmu_phy_vref
                &&& e.spec_vref_dq() == vref_dq.spec_to_u64() as u32
            },
    {
        let mut result = Self::default();
        result.dimm_slots_per_channel = dimm_slots_per_channel;
        result.ddr_rates = ddr_rates.to_u64().unwrap() as u32;
        result.dimm0_ranks = dimm0_ranks.to_u64().unwrap() as u32;
        result.dimm1_ranks = dimm1_ranks.to_u64().unwrap() as u32;
        result.rtt_nom = rtt_nom.to_u64().unwrap() as u32;
        result.rtt_wr = rtt_wr.to_u64().unwrap() as u32;
        result.rtt_park = rtt_park.to_u64().unwrap() as u32;
        result.pmu_phy_vref = pmu_phy_vref;
        result.vref_dq = vref_dq.to_u64().unwrap() as u32;
        Ok(result)
    }
}

impl EntryCompatible for Ddr4DataBusElement {
    fn is_entry_compatible(entry_id: EntryId, _prefix: &[u8]) -> (r: bool)
        ensures
            r == (entry_id == EntryId::Memory(MemoryEntryId::PsUdimmDdr4DataBus) || entry_id == EntryId::Memory(MemoryEntryId::PsRdimmDdr4DataBus) || entry_id == EntryId::Memory(MemoryEntryId::Ps3dsRdimmDdr4DataBus)),
    {
        matches!(entry_id, EntryId::Memory(MemoryEntryId::PsUdimmDdr4DataBus) | EntryId::Memory(MemoryEntryId::PsRdimmDdr4DataBus) | EntryId::Memory(MemoryEntryId::Ps3dsRdimmDdr4DataBus))
    }
}

/// Data bus settings for LRDIMMs (one element per configuration).
#[allow(non_camel_case_types)]
#[derive(Debug, Clone, Copy, PartialEq, Eq, Structural)]
pub struct LrdimmDdr4DataBusElement {
    pub(crate) dimm_slots_per_channel: u32,
    pub(crate) ddr_rates: u32,
    pub(crate) vdd_io: u32,
    pub(crate) dimm0_ranks: u32,
    pub(crate) dimm1_ranks: u32,
    pub(crate) rtt_nom: u32,
    pub(crate) rtt_wr: u32,
    pub(crate) rtt_park: u32,
    pub(crate) dq_drive_strength: u32,
    pub(crate) dqs_drive_strength: u32,
    pub(crate) odt_drive_strength: u32,
    pub(crate) pmu_phy_vref: u32,
    pub(crate) vref_dq: u32,
}

impl LrdimmDdr4DataBusElement {
    pub closed spec fn spec_dimm_slots_per_channel(self) -> u32 {
        self.dimm_slots_per_channel
    }

    pub closed spec fn spec_ddr_rates(self) -> u32 {
        self.ddr_rates
    }

    pub closed spec fn spec_vdd_io(self) -> u32 {
        self.vdd_io
    }

    pub closed spec fn spec_dimm0_ranks(self) -> u32 {
        self.dimm0_ranks
    }

    pub closed spec fn spec_dimm1_ranks(self) -> u32 {
        self.dimm1_ranks
    }

    pub closed spec fn spec_rtt_nom(self) -> u32 {
        self.rtt_nom
    }

    pub closed spec fn spec_rtt_wr(self) -> u32 {
        self.rtt_wr
    }

    pub closed spec fn spec_rtt_park(self) -> u32 {
        self.rtt_park
    }

    pub closed spec fn spec_dq_drive_strength(self) -> u32 {
        self.dq_drive_strength
    }

    pub closed spec fn spec_dqs_drive_strength(self) -> u32 {
        self.dqs_drive_strength
    }

    pub closed spec fn spec_odt_drive_strength(self) -> u32 {
        self.odt_drive_strength
    }

    pub closed spec fn spec_pmu_phy_vref(self) -> u32 {
        self.pmu_phy_vref
    }

    pub closed spec fn spec_vref_dq(self) -> u32 {
        self.vref_dq
    }

    pub fn dimm_slots_per_channel(&self) -> (r: Result<u32>)
        ensures
            r == Ok::<u32, Error>(self.spec_dimm_slots_per_channel()),
    {
        Ok(self.dimm_slots_per_channel)
    }

    pub fn set_dimm_slots_per_channel(&mut self, value: u32)
        ensures
            final(self).spec_dimm_slots_per_channel() == value,
            final(self).spec_ddr_rates() == old(self).spec_ddr_rates(),
            final(self).spec_vdd_io() == old(self).spec_vdd_io(),
            final(self).spec_dimm0_ranks() == old(self).spec_dimm0_ranks(),
            final(self).spec_dimm1_ranks() == old(self).spec_dimm1_ranks(),
            final(self).spec_rtt_nom() == old(self).spec_rtt_nom(),
            final(self).spec_rtt_wr() == old(self).spec_rtt_wr(),
            final(self).spec_rtt_park() == old(self).spec_rtt_park(),
            final(self).spec_dq_drive_strength() == old(self).spec_dq_drive_strength(),
            final(self).spec_dqs_drive_strength() == old(self).spec_dqs_drive_strength(),
            final(self).spec_odt_drive_strength() == old(self).spec_odt_drive_strength(),
            final(self).spec_pmu_phy_vref() == old(self).spec_pmu_phy_vref(),
            final(self).spec_vref_dq() == old(self).spec_vref_dq(),
    {
        self.dimm_slots_per_channel = value;
    }

    pub fn ddr_rates(&self) -> (r: Result<DdrRates>)
        ensures
            r is Ok <==> (self.spec_ddr_rates() as u64) & !0x1555578u64 == 0,
            r matches Ok(b) ==> b.spec_raw() == self.spec_ddr_rates(),
    {
        proof {
            if (self.ddr_rates as u64) & !0x1555578u64 == 0 {
                lemma_masked_bound_u64(self.ddr_rates as u64, 0x1555578u64);
            }
        }
        match DdrRates::from_u64(self.ddr_rates as u64) {
            Some(b) => Ok(b),
            None => Err(Error::EntryTypeMismatch),
        }
    }

    pub fn set_ddr_rates(&mut self, value: DdrRates)
        ensures
            final(self).spec_ddr_rates() == value.spec_raw() as u32,
            final(self).spec_dimm_slots_per_channel() == old(self).spec_dimm_slots_per_channel(),
            final(self).spec_vdd_io() == old(self).spec_vdd_io(),
            final(self).spec_dimm0_ranks() == old(self).spec_dimm0_ranks(),
            final(self).spec_dimm1_ranks() == old(self).spec_dimm1_ranks(),
            final(self).spec_rtt_nom() == old(self).spec_rtt_nom(),
            final(self).spec_rtt_wr() == old(self).spec_rtt_wr(),
            final(self).spec_rtt_park() == old(self).spec_rtt_park(),
            final(self).spec_dq_drive_strength() == old(self).spec_dq_drive_strength(),
            final(self).spec_dqs_drive_strength() == old(self).spec_dqs_drive_strength(),
            final(self).spec_odt_drive_strength() == old(self).spec_odt_drive_strength(),
            final(self).spec_pmu_phy_vref() == old(self).spec_pmu_phy_vref(),
            final(self).spec_vref_dq() == old(self).spec_vref_dq(),
    {
        self.ddr_rates = value.into_raw() as u32;
    }

    pub fn vdd_io(&self) -> (r: Result<LrdimmDdr4Voltages>)
        ensures
            r is Ok <==> (self.spec_vdd_io() as u64) & !0x1u64 == 0,
            r matches Ok(b) ==> b.spec_raw() == self.spec_vdd_io(),
    {
        proof {
            if (self.vdd_io as u64) & !0x1u64 == 0 {
                lemma_masked_bound_u64(self.vdd_io as u64, 0x1u64);
            }
        }
        match LrdimmDdr4Voltages::from_u64(self.vdd_io as u64) {
            Some(b) => Ok(b),
            None => Err(Error::EntryTypeMismatch),
        }
    }

    pub fn set_vdd_io(&mut self, value: LrdimmDdr4Voltages)
        ensures
            final(self).spec_vdd_io() == value.spec_raw() as u32,
            final(self).spec_dimm_slots_per_channel() == old(self).spec_dimm_slots_per_channel(),
            final(self).spec_ddr_rates() == old(self).spec_ddr_rates(),
            final(self).spec_dimm0_ranks() == old(self).spec_dimm0_ranks(),
            final(self).spec_dimm1_ranks() == old(self).spec_dimm1_ranks(),
            final(self).spec_rtt_nom() == old(self).spec_rtt_nom(),
            final(self).spec_rtt_wr() == old(self).spec_rtt_wr(),
            final(self).spec_rtt_park() == old(self).spec_rtt_park(),
            final(self).spec_dq_drive_strength() == old(self).spec_dq_drive_strength(),
            final(self).spec_dqs_drive_strength() == old(self).spec_dqs_drive_strength(),
            final(self).spec_odt_drive_strength() == old(self).spec_odt_drive_strength(),
            final(self).spec_pmu_phy_vref() == old(self).spec_pmu_phy_vref(),
            final(self).spec_vref_dq() == old(self).spec_vref_dq(),
    {
        self.vdd_io = value.into_raw() as u32;
    }

    pub fn dimm0_ranks(&self) -> (r: Result<LrdimmDdr4DimmRanks>)
        ensures
            r is Ok <==> (self.spec_dimm0_ranks() as u64) & !0x3u64 == 0,
            r matches Ok(b) ==> b.spec_raw() == self.spec_dimm0_ranks(),
    {
        proof {
            if (self.dimm0_ranks as u64) & !0x3u64 == 0 {
                lemma_masked_bound_u64(self.dimm0_ranks as u64, 0x3u64);
            }
        }
        match LrdimmDdr4DimmRanks::from_u64(self.dimm0_ranks as u64) {
            Some(b) => Ok(b),
            None => Err(Error::EntryTypeMismatch),
        }
    }

    pub fn set_dimm0_ranks(&mut self, value: LrdimmDdr4DimmRanks)
        ensures
            final(self).spec_dimm0_ranks() == value.spec_raw() as u32,
            final(self).spec_dimm_slots_per_channel() == old(self).spec_dimm_slots_per_channel(),
            final(self).spec_ddr_rates() == old(self).spec_ddr_rates(),
            final(self).spec_vdd_io() == old(self).spec_vdd_io(),
            final(self).spec_dimm1_ranks() == old(self).spec_dimm1_ranks(),
            final(self).spec_rtt_nom() == old(self).spec_rtt_nom(),
            final(self).spec_rtt_wr() == old(self).spec_rtt_wr(),
            final(self).spec_rtt_park() == old(self).spec_rtt_park(),
            final(self).spec_dq_drive_strength() == old(self).spec_dq_drive_strength(),
            final(self).spec_dqs_drive_strength() == old(self).spec_dqs_drive_strength(),
            final(self).spec_odt_drive_strength() == old(self).spec_odt_drive_strength(),
            final(self).spec_pmu_phy_vref() == old(self).spec_pmu_phy_vref(),
            final(self).spec_vref_dq() == old(self).spec_vref_dq(),
    {
        self.dimm0_ranks = value.into_raw() as u32;
    }

    pub fn dimm1_ranks(&self) -> (r: Result<LrdimmDdr4DimmRanks>)
        ensures
            r is Ok <==> (self.spec_dimm1_ranks() as u64) & !0x3u64 == 0,
            r matches Ok(b) ==> b.spec_raw() == self.spec_dimm1_ranks(),
    {
        proof {
            if (self.dimm1_ranks as u64) & !0x3u64 == 0 {
                lemma_masked_bound_u64(self.dimm1_ranks as u64, 0x3u64);
            }
        }
        match LrdimmDdr4DimmRanks::from_u64(self.dimm1_ranks as u64) {
            Some(b) => Ok(b),
            None => Err(Error::EntryTypeMismatch),
        }
    }

    pub fn set_dimm1_ranks(&mut self, value: LrdimmDdr4DimmRanks)
        ensures
            final(self).spec_dimm1_ranks() == value.spec_raw() as u32,
            final(self).spec_dimm_slots_per_channel() == old(self).spec_dimm_slots_per_channel(),
            final(self).spec_ddr_rates() == old(self).spec_ddr_rates(),
            final(self).spec_vdd_io() == old(self).spec_vdd_io(),
            final(self).spec_dimm0_ranks() == old(self).spec_dimm0_ranks(),
            final(self).spec_rtt_nom() == old(self).spec_rtt_nom(),
            final(self).spec_rtt_wr() == old(self).spec_rtt_wr(),
            final(self).spec_rtt_park() == old(self).spec_rtt_park(),
            final(self).spec_dq_drive_strength() == old(self).spec_dq_drive_strength(),
            final(self).spec_dqs_drive_strength() == old(self).spec_dqs_drive_strength(),
            final(self).spec_odt_drive_strength() == old(self).spec_odt_drive_strength(),
            final(self).spec_pmu_phy_vref() == old(self).spec_pmu_phy_vref(),
            final(self).spec_vref_dq() == old(self).spec_vref_dq(),
    {
        self.dimm1_ranks = value.into_raw() as u32;
    }

    pub fn rtt_nom(&self) -> (r: Result<RttNom>)
        ensures
            r == match RttNom::spec_from_u64(self.spec_rtt_nom() as u64) {
                Some(e) => Ok::<RttNom, Error>(e),
                None => Err(Error::EntryTypeMismatch),
            },
    {
        match RttNom::from_u64(self.rtt_nom as u64) {
            Some(e) => Ok(e),
            None => Err(Error::EntryTypeMismatch),
        }
    }

    pub fn set_rtt_nom(&mut self, value: RttNom)
        ensures
            final(self).spec_rtt_nom() == value.spec_to_u64() as u32,
            final(self).spec_dimm_slots_per_channel() == old(self).spec_dimm_slots_per_channel(),
            final(self).spec_ddr_rates() == old(self).spec_ddr_rates(),
            final(self).spec_vdd_io() == old(self).spec_vdd_io(),
            final(self).spec_dimm0_ranks() == old(self).spec_dimm0_ranks(),
            final(self).spec_dimm1_ranks() == old(self).spec_dimm1_ranks(),
            final(self).spec_rtt_wr() == old(self).spec_rtt_wr(),
            final(self).spec_rtt_park() == old(self).spec_rtt_park(),
            final(self).spec_dq_drive_strength() == old(self).spec_dq_drive_strength(),
            final(self).spec_dqs_drive_strength() == old(self).spec_dqs_drive_strength(),
            final(self).spec_odt_drive_strength() == old(self).spec_odt_drive_strength(),
            final(self).spec_pmu_phy_vref() == old(self).spec_pmu_phy_vref(),
            final(self).spec_vref_dq() == old(self).spec_vref_dq(),
    {
        self.rtt_nom = value.to_u64().unwrap() as u32;
    }

    pub fn rtt_wr(&self) -> (r: Result<RttWr>)
        ensures
            r == match RttWr::spec_from_u64(self.spec_rtt_wr() as u64) {
                Some(e) => Ok::<RttWr, Error>(e),
                None => Err(Error::EntryTypeMismatch),
            },
    {
        match RttWr::from_u64(self.rtt_wr as u64) {
            Some(e) => Ok(e),
            None => Err(Error::EntryTypeMismatch),
        }
    }

    pub fn set_rtt_wr(&mut self, value: RttWr)
        ensures
            final(self).spec_rtt_wr() == value.spec_to_u64() as u32,
            final(self).spec_dimm_slots_per_channel() == old(self).spec_dimm_slots_per_channel(),
            final(self).spec_ddr_rates() == old(self).spec_ddr_rates(),
            final(self).spec_vdd_io() == old(self).spec_vdd_io(),
            final(self).spec_dimm0_ranks() == old(self).spec_dimm0_ranks(),
            final(self).spec_dimm1_ranks() == old(self).spec_dimm1_ranks(),
            final(self).spec_rtt_nom() == old(self).spec_rtt_nom(),
            final(self).spec_rtt_park() == old(self).spec_rtt_park(),
            final(self).spec_dq_drive_strength() == old(self).spec_dq_drive_strength(),
            final(self).spec_dqs_drive_strength() == old(self).spec_dqs_drive_strength(),
            final(self).spec_odt_drive_strength() == old(self).spec_odt_drive_strength(),
            final(self).spec_pmu_phy_vref() == old(self).spec_pmu_phy_vref(),
            final(self).spec_vref_dq() == old(self).spec_vref_dq(),
    {
        self.rtt_wr = value.to_u64().unwrap() as u32;
    }

    pub fn rtt_park(&self) -> (r: Result<RttNom>)
        ensures
            r == match RttNom::spec_from_u64(self.spec_rtt_park() as u64) {
                Some(e) => Ok::<RttNom, Error>(e),
                None => Err(Error::EntryTypeMismatch),
            },
    {
        match RttNom::from_u64(self.rtt_park as u64) {
            Some(e) => Ok(e),
            None => Err(Error::EntryTypeMismatch),
        }
    }

    pub fn set_rtt_park(&mut self, value: RttNom)
        ensures
            final(self).spec_rtt_park() == value.spec_to_u64() as u32,
            final(self).spec_dimm_slots_per_channel() == old(self).spec_dimm_slots_per_channel(),
            final(self).spec_ddr_rates() == old(self).spec_ddr_rates(),
            final(self).spec_vdd_io() == old(self).spec_vdd_io(),
            final(self).spec_dimm0_ranks() == old(self).spec_dimm0_ranks(),
            final(self).spec_dimm1_ranks() == old(self).spec_dimm1_ranks(),
            final(self).spec_rtt_nom() == old(self).spec_rtt_nom(),
            final(self).spec_rtt_wr() == old(self).spec_rtt_wr(),
            final(self).spec_dq_drive_strength() == old(self).spec_dq_drive_strength(),
            final(self).spec_dqs_drive_strength() == old(self).spec_dqs_drive_strength(),
            final(self).spec_odt_drive_strength() == old(self).spec_odt_drive_strength(),
            final(self).spec_pmu_phy_vref() == old(self).spec_pmu_phy_vref(),
            final(self).spec_vref_dq() == old(self).spec_vref_dq(),
    {
        self.rtt_park = value.to_u64().unwrap() as u32;
    }

    pub fn dq_drive_strength(&self) -> (r: Result<u32>)
        ensures
            r == Ok::<u32, Error>(self.spec_dq_drive_strength()),
    {
        Ok(self.dq_drive_strength)
    }

    pub fn set_dq_drive_strength(&mut self, value: u32)
        ensures
            final(self).spec_dq_drive_strength() == value,
            final(self).spec_dimm_slots_per_channel() == old(self).spec_dimm_slots_per_channel(),
            final(self).spec_ddr_rates() == old(self).spec_ddr_rates(),
            final(self).spec_vdd_io() == old(self).spec_vdd_io(),
            final(self).spec_dimm0_ranks() == old(self).spec_dimm0_ranks(),
            final(self).spec_dimm1_ranks() == old(self).spec_dimm1_ranks(),
            final(self).spec_rtt_nom() == old(self).spec_rtt_nom(),
            final(self).spec_rtt_wr() == old(self).spec_rtt_wr(),
            final(self).spec_rtt_park() == old(self).spec_rtt_park(),
            final(self).spec_dqs_drive_strength() == old(self).spec_dqs_drive_strength(),
            final(self).spec_odt_drive_strength() == old(self).spec_odt_drive_strength(),
            final(self).spec_pmu_phy_vref() == old(self).spec_pmu_phy_vref(),
            final(self).spec_vref_dq() == old(self).spec_vref_dq(),
    {
        self.dq_drive_strength = value;
    }

    pub fn dqs_drive_strength(&self) -> (r: Result<u32>)
        ensures
            r == Ok::<u32, Error>(self.spec_dqs_drive_strength()),
    {
        Ok(self.dqs_drive_strength)
    }

    pub fn set_dqs_drive_strength(&mut self, value: u32)
        ensures
            final(self).spec_dqs_drive_strength() == value,
            final(self).spec_dimm_slots_per_channel() == old(self).spec_dimm_slots_per_channel(),
            final(self).spec_ddr_rates() == old(self).spec_ddr_rates(),
            final(self).spec_vdd_io() == old(self).spec_vdd_io(),
            final(self).spec_dimm0_ranks() == old(self).spec_dimm0_ranks(),
            final(self).spec_dimm1_ranks() == old(self).spec_dimm1_ranks(),
            final(self).spec_rtt_nom() == old(self).spec_rtt_nom(),
            final(self).spec_rtt_wr() == old(self).spec_rtt_wr(),
            final(self).spec_rtt_park() == old(self).spec_rtt_park(),
            final(self).spec_dq_drive_strength() == old(self).spec_dq_drive_strength(),
            final(self).spec_odt_drive_strength() == old(self).spec_odt_drive_strength(),
            final(self).spec_pmu_phy_vref() == old(self).spec_pmu_phy_vref(),
            final(self).spec_vref_dq() == old(self).spec_vref_dq(),
    {
        self.dqs_drive_strength = value;
    }

    pub fn odt_drive_strength(&self) -> (r: Result<u32>)
        ensures
            r == Ok::<u32, Error>(self.spec_odt_drive_strength()),
    {
        Ok(self.odt_drive_strength)
    }

    pub fn set_odt_drive_strength(&mut self, value: u32)
        ensures
            final(self).spec_odt_drive_strength() == value,
            final(self).spec_dimm_slots_per_channel() == old(self).spec_dimm_slots_per_channel(),
            final(self).spec_ddr_rates() == old(self).spec_ddr_rates(),
            final(self).spec_vdd_io() == old(self).spec_vdd_io(),
            final(self).spec_dimm0_ranks() == old(self).spec_dimm0_ranks(),
            final(self).spec_dimm1_ranks() == old(self).spec_dimm1_ranks(),
            final(self).spec_rtt_nom() == old(self).spec_rtt_nom(),
            final(self).spec_rtt_wr() == old(self).spec_rtt_wr(),
            final(self).spec_rtt_park() == old(self).spec_rtt_park(),
            final(self).spec_dq_drive_strength() == old(self).spec_dq_drive_strength(),
            final(self).spec_dqs_drive_strength() == old(self).spec_dqs_drive_strength(),
            final(self).spec_pmu_phy_vref() == old(self).spec_pmu_phy_vref(),
            final(self).spec_vref_dq() == old(self).spec_vref_dq(),
    {
        self.odt_drive_strength = value;
    }

    pub fn pmu_phy_vref(&self) -> (r: Result<u32>)
        ensures
            r == Ok::<u32, Error>(self.spec_pmu_phy_vref()),
    {
        Ok(self.pmu_phy_vref)
    }

    pub fn set_pmu_phy_vref(&mut self, value: u32)
        ensures
            final(self).spec_pmu_phy_vref() == value,
            final(self).spec_dimm_slots_per_channel() == old(self).spec_dimm_slots_per_channel(),
            final(self).spec_ddr_rates() == old(self).spec_ddr_rates(),
            final(self).spec_vdd_io() == old(self).spec_vdd_io(),
            final(self).spec_dimm0_ranks() == old(self).spec_dimm0_ranks(),
            final(self).spec_dimm1_ranks() == old(self).spec_dimm1_ranks(),
            final(self).spec_rtt_nom() == old(self).spec_rtt_nom(),
            final(self).spec_rtt_wr() == old(self).spec_rtt_wr(),
            final(self).spec_rtt_park() == old(self).spec_rtt_park(),
            final(self).spec_dq_drive_strength() == old(self).spec_dq_drive_strength(),
            final(self).spec_dqs_drive_strength() == old(self).spec_dqs_drive_strength(),
            final(self).spec_odt_drive_strength() == old(self).spec_odt_drive_strength(),
            final(self).spec_vref_dq() == old(self).spec_vref_dq(),
    {
        self.pmu_phy_vref = value;
    }

    pub fn vref_dq(&self) -> (r: Result<u32>)
        ensures
            r == Ok::<u32, Error>(self.spec_vref_dq()),
    {
        Ok(self.vref_dq)
    }

    pub fn set_vref_dq(&mut self, value: u32)
        ensures
            final(self).spec_vref_dq() == value,
            final(self).spec_dimm_slots_per_channel() == old(self).spec_dimm_slots_per_channel(),
            final(self).spec_ddr_rates() == old(self).spec_ddr_rates(),
            final(self).spec_vdd_io() == old(self).spec_vdd_io(),
            final(self).spec_dimm0_ranks() == old(self).spec_dimm0_ranks(),
            final(self).spec_dimm1_ranks() == old(self).spec_dimm1_ranks(),
            final(self).spec_rtt_nom() == old(self).spec_rtt_nom(),
            final(self).spec_rtt_wr() == old(self).spec_rtt_wr(),
            final(self).spec_rtt_park() == old(self).spec_rtt_park(),
            final(self).spec_dq_drive_strength() == old(self).spec_dq_drive_strength(),
            final(self).spec_dqs_drive_strength() == old(self).spec_dqs_drive_strength(),
            final(self).spec_odt_drive_strength() == old(self).spec_odt_drive_strength(),
            final(self).spec_pmu_phy_vref() == old(self).spec_pmu_phy_vref(),
    {
        self.vref_dq = value;
    }

}

impl LrdimmDdr4DataBusElement {
    /// The bytes that store this value on disk.
    pub closed spec fn spec_bytes(self) -> Seq<u8> {
        spec_u32_to_le_bytes(self.dimm_slots_per_channel)
            + spec_u32_to_le_bytes(self.ddr_rates)
            + spec_u32_to_le_bytes(self.vdd_io)
            + spec_u32_to_le_bytes(self.dimm0_ranks)
            + spec_u32_to_le_bytes(self.dimm1_ranks)
            + spec_u32_to_le_bytes(self.rtt_nom)
            + spec_u32_to_le_bytes(self.rtt_wr)
            + spec_u32_to_le_bytes(self.rtt_park)
            + spec_u32_to_le_bytes(self.dq_drive_strength)
            + spec_u32_to_le_bytes(self.dqs_drive_strength)
            + spec_u32_to_le_bytes(self.odt_drive_strength)
            + spec_u32_to_le_bytes(self.pmu_phy_vref)
            + spec_u32_to_le_bytes(self.vref_dq)
    }
}

impl ByteLayout for LrdimmDdr4DataBusElement {
    open spec fn spec_size() -> nat {
        52
    }

    open spec fn spec_to_bytes(self) -> Seq<u8> {
        self.spec_bytes()
    }

    fn size() -> (r: usize) {
        52
    }

    #[verifier::spinoff_prover]
    #[verifier::rlimit(60)]
    fn from_bytes(bytes: &[u8]) -> (r: Self) {
        let dimm_slots_per_channel: u32 = u32_from_le_bytes(slice_subrange(bytes, 0, 4));
        let ddr_rates: u32 = u32_from_le_bytes(slice_subrange(bytes, 4, 8));
        let vdd_io: u32 = u32_from_le_bytes(slice_subrange(bytes, 8, 12));
        let dimm0_ranks: u32 = u32_from_le_bytes(slice_subrange(bytes, 12, 16));
        let dimm1_ranks: u32 = u32_from_le_bytes(slice_subrange(bytes, 16, 20));
        let rtt_nom: u32 = u32_from_le_bytes(slice_subrange(bytes, 20, 24));
        let rtt_wr: u32 = u32_from_le_bytes(slice_subrange(bytes, 24, 28));
        let rtt_park: u32 = u32_from_le_bytes(slice_subrange(bytes, 28, 32));
        let dq_drive_strength: u32 = u32_from_le_bytes(slice_subrange(bytes, 32, 36));
        let dqs_drive_strength: u32 = u32_from_le_bytes(slice_subrange(bytes, 36, 40));
        let odt_drive_strength: u32 = u32_from_le_bytes(slice_subrange(bytes, 40, 44));
        let pmu_phy_vref: u32 = u32_from_le_bytes(slice_subrange(bytes, 44, 48));
        let vref_dq: u32 = u32_from_le_bytes(slice_subrange(bytes, 48, 52));
        let r = LrdimmDdr4DataBusElement { dimm_slots_per_channel, ddr_rates, vdd_io, dimm0_ranks, dimm1_ranks, rtt_nom, rtt_wr, rtt_park, dq_drive_strength, dqs_drive_strength, odt_drive_strength, pmu_phy_vref, vref_dq };
        proof {
            lemma_auto_spec_u16_to_from_le_bytes();
            lemma_auto_spec_u32_to_from_le_bytes();
            lemma_auto_spec_u64_to_from_le_bytes();
            lemma_lrdimm_ddr4_data_bus_element_bytes_pieces(r);
            assert(bytes@.subrange(0, 4) == spec_u32_to_le_bytes(dimm_slots_per_channel));
            assert(bytes@.subrange(4, 8) == spec_u32_to_le_bytes(ddr_rates));
            assert(bytes@.subrange(8, 12) == spec_u32_to_le_bytes(vdd_io));
            assert(bytes@.subrange(12, 16) == spec_u32_to_le_bytes(dimm0_ranks));
            assert(bytes@.subrange(16, 20) == spec_u32_to_le_bytes(dimm1_ranks));
            assert(bytes@.subrange(20, 24) == spec_u32_to_le_bytes(rtt_nom));
            assert(bytes@.subrange(24, 28) == spec_u32_to_le_bytes(rtt_wr));
            assert(bytes@.subrange(28, 32) == spec_u32_to_le_bytes(rtt_park));
            assert(bytes@.subrange(32, 36) == spec_u32_to_le_bytes(dq_drive_strength));
            assert(bytes@.subrange(36, 40) == spec_u32_to_le_bytes(dqs_drive_strength));
            assert(bytes@.subrange(40, 44) == spec_u32_to_le_bytes(odt_drive_strength));
            assert(bytes@.subrange(44, 48) == spec_u32_to_le_bytes(pmu_phy_vref));
            assert(bytes@.subrange(48, 52) == spec_u32_to_le_bytes(vref_dq));
            assert(bytes@.subrange(0, 8) =~= bytes@.subrange(0, 4) + bytes@.subrange(4, 8));
            assert(bytes@.subrange(0, 12) =~= bytes@.subrange(0, 8) + bytes@.subrange(8, 12));
            assert(bytes@.subrange(0, 16) =~= bytes@.subrange(0, 12) + bytes@.subrange(12, 16));
            assert(bytes@.subrange(0, 20) =~= bytes@.subrange(0, 16) + bytes@.subrange(16, 20));
            assert(bytes@.subrange(0, 24) =~= bytes@.subrange(0, 20) + bytes@.subrange(20, 24));
            assert(bytes@.subrange(0, 28) =~= bytes@.subrange(0, 24) + bytes@.subrange(24, 28));
            assert(bytes@.subrange(0, 32) =~= bytes@.subrange(0, 28) + bytes@.subrange(28, 32));
            assert(bytes@.subrange(0, 36) =~= bytes@.subrange(0, 32) + bytes@.subrange(32, 36));
            assert(bytes@.subrange(0, 40) =~= bytes@.subrange(0, 36) + bytes@.subrange(36, 40));
            assert(bytes@.subrange(0, 44) =~= bytes@.subrange(0, 40) + bytes@.subrange(40, 44));
            assert(bytes@.subrange(0, 48) =~= bytes@.subrange(0, 44) + bytes@.subrange(44, 48));
            assert(bytes@.subrange(0, 52) =~= bytes@.subrange(0, 48) + bytes@.subrange(48, 52));
            assert(bytes@.subrange(0, 52) =~= bytes@);
            assert(bytes@ == r.spec_bytes());
        }
        r
    }

    #[verifier::spinoff_prover]
    #[verifier::rlimit(60)]
    fn to_bytes(&self) -> (r: Vec<u8>) {
        let mut out: Vec<u8> = Vec::new();
        append_bytes(&mut out, &le_bytes_u32(self.dimm_slots_per_channel));
        append_bytes(&mut out, &le_bytes_u32(self.ddr_rates));
        append_bytes(&mut out, &le_bytes_u32(self.vdd_io));
        append_bytes(&mut out, &le_bytes_u32(self.dimm0_ranks));
        append_bytes(&mut out, &le_bytes_u32(self.dimm1_ranks));
        append_bytes(&mut out, &le_bytes_u32(self.rtt_nom));
        append_bytes(&mut out, &le_bytes_u32(self.rtt_wr));
        append_bytes(&mut out, &le_bytes_u32(self.rtt_park));
        append_bytes(&mut out, &le_bytes_u32(self.dq_drive_strength));
        append_bytes(&mut out, &le_bytes_u32(self.dqs_drive_strength));
        append_bytes(&mut out, &le_bytes_u32(self.odt_drive_strength));
        append_bytes(&mut out, &le_bytes_u32(self.pmu_phy_vref));
        append_bytes(&mut out, &le_bytes_u32(self.vref_dq));
        proof {
            lemma_lrdimm_ddr4_data_bus_element_bytes_pieces(*self);
        }
        out
    }
}

/// How the bytes of a LrdimmDdr4DataBusElement split up into its fields.
pub proof fn lemma_lrdimm_ddr4_data_bus_element_bytes_pieces(x: LrdimmDdr4DataBusElement)
    ensures
        x.spec_bytes().len() == 52,
        x.spec_bytes().subrange(0, 4) == spec_u32_to_le_bytes(x.spec_dimm_slots_per_channel()),
        x.spec_bytes().subrange(4, 8) == spec_u32_to_le_bytes(x.spec_ddr_rates()),
        x.spec_bytes().subrange(8, 12) == spec_u32_to_le_bytes(x.spec_vdd_io()),
        x.spec_bytes().subrange(12, 16) == spec_u32_to_le_bytes(x.spec_dimm0_ranks()),
        x.spec_bytes().subrange(16, 20) == spec_u32_to_le_bytes(x.spec_dimm1_ranks()),
        x.spec_bytes().subrange(20, 24) == spec_u32_to_le_bytes(x.spec_rtt_nom()),
        x.spec_bytes().subrange(24, 28) == spec_u32_to_le_bytes(x.spec_rtt_wr()),
        x.spec_bytes().subrange(28, 32) == spec_u32_to_le_bytes(x.spec_rtt_park()),
        x.spec_bytes().subrange(32, 36) == spec_u32_to_le_bytes(x.spec_dq_drive_strength()),
        x.spec_bytes().subrange(36, 40) == spec_u32_to_le_bytes(x.spec_dqs_drive_strength()),
        x.spec_bytes().subrange(40, 44) == spec_u32_to_le_bytes(x.spec_odt_drive_strength()),
        x.spec_bytes().subrange(44, 48) == spec_u32_to_le_bytes(x.spec_pmu_phy_vref()),
        x.spec_bytes().subrange(48, 52) == spec_u32_to_le_bytes(x.spec_vref_dq()),
{
    lemma_auto_spec_u16_to_from_le_bytes();
    lemma_auto_spec_u32_to_from_le_bytes();
    lemma_auto_spec_u64_to_from_le_bytes();
    assert(x.spec_bytes().subrange(0, 4) == spec_u32_to_le_bytes(x.dimm_slots_per_channel));
    assert(x.spec_bytes().subrange(4, 8) == spec_u32_to_le_bytes(x.ddr_rates));
    assert(x.spec_bytes().subrange(8, 12) == spec_u32_to_le_bytes(x.vdd_io));
    assert(x.spec_bytes().subrange(12, 16) == spec_u32_to_le_bytes(x.dimm0_ranks));
    assert(x.spec_bytes().subrange(16, 20) == spec_u32_to_le_bytes(x.dimm1_ranks));
    assert(x.spec_bytes().subrange(20, 24) == spec_u32_to_le_bytes(x.rtt_nom));
    assert(x.spec_bytes().subrange(24, 28) == spec_u32_to_le_bytes(x.rtt_wr));
    assert(x.spec_bytes().subrange(28, 32) == spec_u32_to_le_bytes(x.rtt_park));
    assert(x.spec_bytes().subrange(32, 36) == spec_u32_to_le_bytes(x.dq_drive_strength));
    assert(x.spec_bytes().subrange(36, 40) == spec_u32_to_le_bytes(x.dqs_drive_strength));
    assert(x.spec_bytes().subrange(40, 44) == spec_u32_to_le_bytes(x.odt_drive_strength));
    assert(x.spec_bytes().subrange(44, 48) == spec_u32_to_le_bytes(x.pmu_phy_vref));
    assert(x.spec_bytes().subrange(48, 52) == spec_u32_to_le_bytes(x.vref_dq));
}

/// Two values of LrdimmDdr4DataBusElement with the same bytes are the same value.
#[verifier::spinoff_prover]
#[verifier::rlimit(60)]
pub proof fn lemma_lrdimm_ddr4_data_bus_element_bytes_injective(x: LrdimmDdr4DataBusElement, y: LrdimmDdr4DataBusElement)
    requires
        x.spec_bytes() == y.spec_bytes(),
    ensures
        x == y,
{
    lemma_lrdimm_ddr4_data_bus_element_bytes_pieces(x);
    lemma_lrdimm_ddr4_data_bus_element_bytes_pieces(y);
    lemma_auto_spec_u16_to_from_le_bytes();
    lemma_auto_spec_u32_to_from_le_bytes();
    lemma_auto_spec_u64_to_from_le_bytes();
    assert(spec_u32_from_le_bytes(spec_u32_to_le_bytes(x.dimm_slots_per_channel)) == spec_u32_from_le_bytes(spec_u32_to_le_bytes(y.dimm_slots_per_channel)));
    assert(spec_u32_from_le_bytes(spec_u32_to_le_bytes(x.ddr_rates)) == spec_u32_from_le_bytes(spec_u32_to_le_bytes(y.ddr_rates)));
    assert(spec_u32_from_le_bytes(spec_u32_to_le_bytes(x.vdd_io)) == spec_u32_from_le_bytes(spec_u32_to_le_bytes(y.vdd_io)));
    assert(spec_u32_from_le_bytes(spec_u32_to_le_bytes(x.dimm0_ranks)) == spec_u32_from_le_bytes(spec_u32_to_le_bytes(y.dimm0_ranks)));
    assert(spec_u32_from_le_bytes(spec_u32_to_le_bytes(x.dimm1_ranks)) == spec_u32_from_le_bytes(spec_u32_to_le_bytes(y.dimm1_ranks)));
    assert(spec_u32_from_le_bytes(spec_u32_to_le_bytes(x.rtt_nom)) == spec_u32_from_le_bytes(spec_u32_to_le_bytes(y.rtt_nom)));
    assert(spec_u32_from_le_bytes(spec_u32_to_le_bytes(x.rtt_wr)) == spec_u32_from_le_bytes(spec_u32_to_le_bytes(y.rtt_wr)));
    assert(spec_u32_from_le_bytes(spec_u32_to_le_bytes(x.rtt_park)) == spec_u32_from_le_bytes(spec_u32_to_le_bytes(y.rtt_park)));
    assert(spec_u32_from_le_bytes(spec_u32_to_le_bytes(x.dq_drive_strength)) == spec_u32_from_le_bytes(spec_u32_to_le_bytes(y.dq_drive_strength)));
    assert(spec_u32_from_le_bytes(spec_u32_to_le_bytes(x.dqs_drive_strength)) == spec_u32_from_le_bytes(spec_u32_to_le_bytes(y.dqs_drive_strength)));
    assert(spec_u32_from_le_bytes(spec_u32_to_le_bytes(x.odt_drive_strength)) == spec_u32_from_le_bytes(spec_u32_to_le_bytes(y.odt_drive_strength)));
    assert(spec_u32_from_le_bytes(spec_u32_to_le_bytes(x.pmu_phy_vref)) == spec_u32_from_le_bytes(spec_u32_to_le_bytes(y.pmu_phy_vref)));
    assert(spec_u32_from_le_bytes(spec_u32_to_le_bytes(x.vref_dq)) == spec_u32_from_le_bytes(spec_u32_to_le_bytes(y.vref_dq)));
}

impl Default for LrdimmDdr4DataBusElement {
    fn default() -> (r: Self)
        ensures
            r.spec_dimm_slots_per_channel() == 1,
            r.spec_ddr_rates() == 0x1373200,
            r.spec_vdd_io() == 1,
            r.spec_dimm0_ranks() == 2,
            r.spec_dimm1_ranks() == 1,
            r.spec_rtt_nom() == 0,
            r.spec_rtt_wr() == 0,
            r.spec_rtt_park() == 5,
            r.spec_dq_drive_strength() == 62,
            r.spec_dqs_drive_strength() == 62,
            r.spec_odt_drive_strength() == 24,
            r.spec_pmu_phy_vref() == 91,
            r.spec_vref_dq() == 23,
    {
        LrdimmDdr4DataBusElement { dimm_slots_per_channel: 1, ddr_rates: 0x1373200, vdd_io: 1, dimm0_ranks: 2, dimm1_ranks: 1, rtt_nom: 0, rtt_wr: 0, rtt_park: 5, dq_drive_strength: 62, dqs_drive_strength: 62, odt_drive_strength: 24, pmu_phy_vref: 91, vref_dq: 23 }
    }
}

impl LrdimmDdr4DataBusElement {
    /// An element for the given configuration, the drive strengths as in the default.
    pub fn new(
        dimm_slots_per_channel: u32,
        ddr_rates: DdrRates,
        dimm0_ranks: LrdimmDdr4DimmRanks,
        dimm1_ranks: LrdimmDdr4DimmRanks,
        rtt_nom: RttNom,
        rtt_wr: RttWr,
        rtt_park: RttPark,
        pmu_phy_vref: u32,
        vref_dq: VrefDq,
    ) -> (r: Result<Self>)
        ensures
            r matches Ok(e) && {
                &&& e.spec_dimm_slots_per_channel() == dimm_slots_per_channel
                &&& e.spec_ddr_rates() == ddr_rates.spec_raw()
                &&& e.spec_vdd_io() == 1
                &&& e.spec_dimm0_ranks() == dimm0_ranks.spec_raw() as u32
                &&& e.spec_dimm1_ranks() == dimm1_ranks.spec_raw() as u32
                &&& e.spec_rtt_nom() == rtt_nom.spec_to_u64() as u32
                &&& e.spec_rtt_wr() == rtt_wr.spec_to_u64() as u32
                &&& e.spec_rtt_park() == rtt_park.spec_to_u64() as u32
                &&& e.spec_dq_drive_strength() == 62
                &&& e.spec_dqs_drive_strength() == 62
                &&& e.spec_odt_drive_strength() == 24
                &&& e.spec_pmu_phy_vref() == pmu_phy_vref
                &&& e.spec_vref_dq() == vref_dq.spec_to_u64() as u32
            },
    {
        let mut result = Self::default();
        result.dimm_slots_per_channel = dimm_slots_per_channel;
        result.ddr_rates = ddr_rates.to_u64().unwrap() as u32;
        result.dimm0_ranks = dimm0_ranks.to_u64().unwrap() as u32;
        result.dimm1_ranks = dimm1_ranks.to_u64().unwrap() as u32;
        result.rtt_nom = rtt_nom.to_u64().unwrap() as u32;
        result.rtt_wr = rtt_wr.to_u64().unwrap() as u32;
        result.rtt_park = rtt_park.to_u64().unwrap() as u32;
        result.pmu_phy_vref = pmu_phy_vref;
        result.vref_dq = vref_dq.to_u64().unwrap() as u32;
        Ok(result)
    }
}

impl EntryCompatible for LrdimmDdr4DataBusElement {
    fn is_entry_compatible(entry_id: EntryId, _prefix: &[u8]) -> (r: bool)
        ensures
            r == (entry_id == EntryId::Memory(MemoryEntryId::PsLrdimmDdr4DataBus)),
    {
        matches!(entry_id, EntryId::Memory(MemoryEntryId::PsLrdimmDdr4DataBus))
    }
}

/// The header of a DDR5 RDIMM bus element.
#[allow(non_camel_case_types)]
#[derive(Debug, Clone, Copy, PartialEq, Eq, Structural)]
pub struct RdimmDdr5BusElementHeader {
    pub(crate) total_size: u32,
    pub(crate) target_memclk: u32,
    pub(crate) dimm_slots_per_channel: u8,
    pub(crate) dimm0_rank_bitmap: u8,
    pub(crate) dimm1_rank_bitmap: u8,
    pub(crate) sdram_io_width_bitmap: u8,
}

impl RdimmDdr5BusElementHeader {
    pub closed spec fn spec_total_size(self) -> u32 {
        self.total_size
    }

    pub closed spec fn spec_target_memclk(self) -> u32 {
        self.target_memclk
    }

    pub closed spec fn spec_dimm_slots_per_channel(self) -> u8 {
        self.dimm_slots_per_channel
    }

    pub closed spec fn spec_dimm0_rank_bitmap(self) -> u8 {
        self.dimm0_rank_bitmap
    }

    pub closed spec fn spec_dimm1_rank_bitmap(self) -> u8 {
        self.dimm1_rank_bitmap
    }

    pub closed spec fn spec_sdram_io_width_bitmap(self) -> u8 {
        self.sdram_io_width_bitmap
    }

}

impl RdimmDdr5BusElementHeader {
    /// The bytes that store this value on disk.
    pub closed spec fn spec_bytes(self) -> Seq<u8> {
        spec_u32_to_le_bytes(self.total_size)
            + spec_u32_to_le_bytes(self.target_memclk)
            + seq![self.dimm_slots_per_channel]
            + seq![self.dimm0_rank_bitmap]
            + seq![self.dimm1_rank_bitmap]
            + seq![self.sdram_io_width_bitmap]
    }
}

impl ByteLayout for RdimmDdr5BusElementHeader {
    open spec fn spec_size() -> nat {
        12
    }

    open spec fn spec_to_bytes(self) -> Seq<u8> {
        self.spec_bytes()
    }

    fn size() -> (r: usize) {
        12
    }

    #[verifier::spinoff_prover]
    fn from_bytes(bytes: &[u8]) -> (r: Self) {
        let total_size: u32 = u32_from_le_bytes(slice_subrange(bytes, 0, 4));
        let target_memclk: u32 = u32_from_le_bytes(slice_subrange(bytes, 4, 8));
        let dimm_slots_per_channel: u8 = bytes[8];
        let dimm0_rank_bitmap: u8 = bytes[9];
        let dimm1_rank_bitmap: u8 = bytes[10];
        let sdram_io_width_bitmap: u8 = bytes[11];
        let r = RdimmDdr5BusElementHeader { total_size, target_memclk, dimm_slots_per_channel, dimm0_rank_bitmap, dimm1_rank_bitmap, sdram_io_width_bitmap };
        proof {
            lemma_auto_spec_u16_to_from_le_bytes();
            lemma_auto_spec_u32_to_from_le_bytes();
            lemma_auto_spec_u64_to_from_le_bytes();
            lemma_rdimm_ddr5_bus_element_header_bytes_pieces(r);
            assert(bytes@.subrange(0, 4) == spec_u32_to_le_bytes(total_size));
            assert(bytes@.subrange(4, 8) == spec_u32_to_le_bytes(target_memclk));
            assert(bytes@.subrange(0, 8) =~= bytes@.subrange(0, 4) + bytes@.subrange(4, 8));
            assert(bytes@.subrange(0, 9) =~= bytes@.subrange(0, 8) + bytes@.subrange(8, 9));
            assert(bytes@.subrange(0, 10) =~= bytes@.subrange(0, 9) + bytes@.subrange(9, 10));
            assert(bytes@.subrange(0, 11) =~= bytes@.subrange(0, 10) + bytes@.subrange(10, 11));
            assert(bytes@.subrange(0, 12) =~= bytes@.subrange(0, 11) + bytes@.subrange(11, 12));
            assert(bytes@.subrange(0, 12) =~= bytes@);
            assert(bytes@ == r.spec_bytes());
        }
        r
    }

    #[verifier::spinoff_prover]
    fn to_bytes(&self) -> (r: Vec<u8>) {
        let mut out: Vec<u8> = Vec::new();
        append_bytes(&mut out, &le_bytes_u32(self.total_size));
        append_bytes(&mut out, &le_bytes_u32(self.target_memclk));
        out.push(self.dimm_slots_per_channel);
        out.push(self.dimm0_rank_bitmap);
        out.push(self.dimm1_rank_bitmap);
        out.push(self.sdram_io_width_bitmap);
        proof {
            lemma_rdimm_ddr5_bus_element_header_bytes_pieces(*self);
        }
        out
    }
}

/// How the bytes of a RdimmDdr5BusElementHeader split up into its fields.
pub proof fn lemma_rdimm_ddr5_bus_element_header_bytes_pieces(x: RdimmDdr5BusElementHeader)
    ensures
        x.spec_bytes().len() == 12,
        x.spec_bytes().subrange(0, 4) == spec_u32_to_le_bytes(x.spec_total_size()),
        x.spec_bytes().subrange(4, 8) == spec_u32_to_le_bytes(x.spec_target_memclk()),
        x.spec_bytes()[8] == x.spec_dimm_slots_per_channel(),
        x.spec_bytes()[9] == x.spec_dimm0_rank_bitmap(),
        x.spec_bytes()[10] == x.spec_dimm1_rank_bitmap(),
        x.spec_bytes()[11] == x.spec_sdram_io_width_bitmap(),
{
    lemma_auto_spec_u16_to_from_le_bytes();
    lemma_auto_spec_u32_to_from_le_bytes();
    lemma_auto_spec_u64_to_from_le_bytes();
    assert(x.spec_bytes().subrange(0, 4) == spec_u32_to_le_bytes(x.total_size));
    assert(x.spec_bytes().subrange(4, 8) == spec_u32_to_le_bytes(x.target_memclk));
}

/// Two values of RdimmDdr5BusElementHeader with the same bytes are the same value.
#[verifier::spinoff_prover]
pub proof fn lemma_rdimm_ddr5_bus_element_header_bytes_injective(x: RdimmDdr5BusElementHeader, y: RdimmDdr5BusElementHeader)
    requires
        x.spec_bytes() == y.spec_bytes(),
    ensures
        x == y,
{
    lemma_rdimm_ddr5_bus_element_header_bytes_pieces(x);
    lemma_rdimm_ddr5_bus_element_header_bytes_pieces(y);
    lemma_auto_spec_u16_to_from_le_bytes();
    lemma_auto_spec_u32_to_from_le_bytes();
    lemma_auto_spec_u64_to_from_le_bytes();
    assert(spec_u32_from_le_bytes(spec_u32_to_le_bytes(x.total_size)) == spec_u32_from_le_bytes(spec_u32_to_le_bytes(y.total_size)));
    assert(spec_u32_from_le_bytes(spec_u32_to_le_bytes(x.target_memclk)) == spec_u32_from_le_bytes(spec_u32_to_le_bytes(y.target_memclk)));
    assert(x.dimm_slots_per_channel == y.dimm_slots_per_channel);
    assert(x.dimm0_rank_bitmap == y.dimm0_rank_bitmap);
    assert(x.dimm1_rank_bitmap == y.dimm1_rank_bitmap);
    assert(x.sdram_io_width_bitmap == y.sdram_io_width_bitmap);
}

impl Default for RdimmDdr5BusElementHeader {
    fn default() -> (r: Self)
        ensures
            r.spec_total_size() == 12,
            r.spec_target_memclk() == 2000,
            r.spec_dimm_slots_per_channel() == 2,
            r.spec_dimm0_rank_bitmap() == 4,
            r.spec_dimm1_rank_bitmap() == 4,
            r.spec_sdram_io_width_bitmap() == 1,
    {
        RdimmDdr5BusElementHeader { total_size: 12, target_memclk: 2000, dimm_slots_per_channel: 2, dimm0_rank_bitmap: 4, dimm1_rank_bitmap: 4, sdram_io_width_bitmap: 1 }
    }
}

/// The settings of a DDR5 RDIMM bus element.
#[allow(non_camel_case_types)]
#[derive(Debug, Clone, Copy, PartialEq, Eq, Structural)]
pub struct RdimmDdr5BusElementPayload {
    pub(crate) total_size: u32,
    pub(crate) ca_timing_mode: u32,
    pub(crate) dimm0_rttnomwr: u32,
    pub(crate) dimm0_rttnomrd: u32,
    pub(crate) dimm0_rttwr: u32,
    pub(crate) dimm0_rttpack: u32,
    pub(crate) dimm0_dqs_rttpark: u32,
    pub(crate) dimm1_rttnomwr: u32,
    pub(crate) dimm1_rttnomrd: u32,
    pub(crate) dimm1_rttwr: u32,
    pub(crate) dimm1_rttpack: u32,
    pub(crate) dimm1_dqs_rttpark: u32,
    pub(crate) dram_drv: u32,
    pub(crate) ck_odt_a: u32,
    pub(crate) cs_odt_a: u32,
    pub(crate) ca_odt_a: u32,
    pub(crate) ck_odt_b: u32,
    pub(crate) cs_odt_b: u32,
    pub(crate) ca_odt_b: u32,
    pub(crate) p_odt: u32,
    pub(crate) dq_drv: u32,
    pub(crate) alert_pullup: u32,
    pub(crate) ca_drv: u32,
    pub(crate) phy_vref: u32,
    pub(crate) dq_vref: u32,
    pub(crate) ca_vref: u32,
    pub(crate) cs_vref: u32,
    pub(crate) d_ca_vref: u32,
    pub(crate) d_cs_vref: u32,
    pub(crate) rx_dfe: u32,
    pub(crate) tx_dfe: u32,
}

impl RdimmDdr5BusElementPayload {
    pub closed spec fn spec_total_size(self) -> u32 {
        self.total_size
    }

    pub closed spec fn spec_ca_timing_mode(self) -> u32 {
        self.ca_timing_mode
    }

    pub closed spec fn spec_dimm0_rttnomwr(self) -> u32 {
        self.dimm0_rttnomwr
    }

    pub closed spec fn spec_dimm0_rttnomrd(self) -> u32 {
        self.dimm0_rttnomrd
    }

    pub closed spec fn spec_dimm0_rttwr(self) -> u32 {
        self.dimm0_rttwr
    }

    pub closed spec fn spec_dimm0_rttpack(self) -> u32 {
        self.dimm0_rttpack
    }

    pub closed spec fn spec_dimm0_dqs_rttpark(self) -> u32 {
        self.dimm0_dqs_rttpark
    }

    pub closed spec fn spec_dimm1_rttnomwr(self) -> u32 {
        self.dimm1_rttnomwr
    }

    pub closed spec fn spec_dimm1_rttnomrd(self) -> u32 {
        self.dimm1_rttnomrd
    }

    pub closed spec fn spec_dimm1_rttwr(self) -> u32 {
        self.dimm1_rttwr
    }

    pub closed spec fn spec_dimm1_rttpack(self) -> u32 {
        self.dimm1_rttpack
    }

    pub closed spec fn spec_dimm1_dqs_rttpark(self) -> u32 {
        self.dimm1_dqs_rttpark
    }

    pub closed spec fn spec_dram_drv(self) -> u32 {
        self.dram_drv
    }

    pub closed spec fn spec_ck_odt_a(self) -> u32 {
        self.ck_odt_a
    }

    pub closed spec fn spec_cs_odt_a(self) -> u32 {
        self.cs_odt_a
    }

    pub closed spec fn spec_ca_odt_a(self) -> u32 {
        self.ca_odt_a
    }

    pub closed spec fn spec_ck_odt_b(self) -> u32 {
        self.ck_odt_b
    }

    pub closed spec fn spec_cs_odt_b(self) -> u32 {
        self.cs_odt_b
    }

    pub closed spec fn spec_ca_odt_b(self) -> u32 {
        self.ca_odt_b
    }

    pub closed spec fn spec_p_odt(self) -> u32 {
        self.p_odt
    }

    pub closed spec fn spec_dq_drv(self) -> u32 {
        self.dq_drv
    }

    pub closed spec fn spec_alert_pullup(self) -> u32 {
        self.alert_pullup
    }

    pub closed spec fn spec_ca_drv(self) -> u32 {
        self.ca_drv
    }

    pub closed spec fn spec_phy_vref(self) -> u32 {
        self.phy_vref
    }

    pub closed spec fn spec_dq_vref(self) -> u32 {
        self.dq_vref
    }

    pub closed spec fn spec_ca_vref(self) -> u32 {
        self.ca_vref
    }

    pub closed spec fn spec_cs_vref(self) -> u32 {
        self.cs_vref
    }

    pub closed spec fn spec_d_ca_vref(self) -> u32 {
        self.d_ca_vref
    }

    pub closed spec fn spec_d_cs_vref(self) -> u32 {
        self.d_cs_vref
    }

    pub closed spec fn spec_rx_dfe(self) -> u32 {
        self.rx_dfe
    }

    pub closed spec fn spec_tx_dfe(self) -> u32 {
        self.tx_dfe
    }

}

impl RdimmDdr5BusElementPayload {
    /// The bytes that store this value on disk.
    pub closed spec fn spec_bytes(self) -> Seq<u8> {
        spec_u32_to_le_bytes(self.total_size)
            + spec_u32_to_le_bytes(self.ca_timing_mode)
            + spec_u32_to_le_bytes(self.dimm0_rttnomwr)
            + spec_u32_to_le_bytes(self.dimm0_rttnomrd)
            + spec_u32_to_le_bytes(self.dimm0_rttwr)
            + spec_u32_to_le_bytes(self.dimm0_rttpack)
            + spec_u32_to_le_bytes(self.dimm0_dqs_rttpark)
            + spec_u32_to_le_bytes(self.dimm1_rttnomwr)
            + spec_u32_to_le_bytes(self.dimm1_rttnomrd)
            + spec_u32_to_le_bytes(self.dimm1_rttwr)
            + spec_u32_to_le_bytes(self.dimm1_rttpack)
            + spec_u32_to_le_bytes(self.dimm1_dqs_rttpark)
            + spec_u32_to_le_bytes(self.dram_drv)
            + spec_u32_to_le_bytes(self.ck_odt_a)
            + spec_u32_to_le_bytes(self.cs_odt_a)
            + spec_u32_to_le_bytes(self.ca_odt_a)
            + spec_u32_to_le_bytes(self.ck_odt_b)
            + spec_u32_to_le_bytes(self.cs_odt_b)
            + spec_u32_to_le_bytes(self.ca_odt_b)
            + spec_u32_to_le_bytes(self.p_odt)
            + spec_u32_to_le_bytes(self.dq_drv)
            + spec_u32_to_le_bytes(self.alert_pullup)
            + spec_u32_to_le_bytes(self.ca_drv)
            + spec_u32_to_le_bytes(self.phy_vref)
            + spec_u32_to_le_bytes(self.dq_vref)
            + spec_u32_to_le_bytes(self.ca_vref)
            + spec_u32_to_le_bytes(self.cs_vref)
            + spec_u32_to_le_bytes(self.d_ca_vref)
            + spec_u32_to_le_bytes(self.d_cs_vref)
            + spec_u32_to_le_bytes(self.rx_dfe)
            + spec_u32_to_le_bytes(self.tx_dfe)
    }
}

impl ByteLayout for RdimmDdr5BusElementPayload {
    open spec fn spec_size() -> nat {
        124
    }

    open spec fn spec_to_bytes(self) -> Seq<u8> {
        self.spec_bytes()
    }

    fn size() -> (r: usize) {
        124
    }

    #[verifier::spinoff_prover]
    #[verifier::rlimit(60)]
    fn from_bytes(bytes: &[u8]) -> (r: Self) {
        let total_size: u32 = u32_from_le_bytes(slice_subrange(bytes, 0, 4));
        let ca_timing_mode: u32 = u32_from_le_bytes(slice_subrange(bytes, 4, 8));
        let dimm0_rttnomwr: u32 = u32_from_le_bytes(slice_subrange(bytes, 8, 12));
        let dimm0_rttnomrd: u32 = u32_from_le_bytes(slice_subrange(bytes, 12, 16));
        let dimm0_rttwr: u32 = u32_from_le_bytes(slice_subrange(bytes, 16, 20));
        let dimm0_rttpack: u32 = u32_from_le_bytes(slice_subrange(bytes, 20, 24));
        let dimm0_dqs_rttpark: u32 = u32_from_le_bytes(slice_subrange(bytes, 24, 28));
        let dimm1_rttnomwr: u32 = u32_from_le_bytes(slice_subrange(bytes, 28, 32));
        let dimm1_rttnomrd: u32 = u32_from_le_bytes(slice_subrange(bytes, 32, 36));
        let dimm1_rttwr: u32 = u32_from_le_bytes(slice_subrange(bytes, 36, 40));
        let dimm1_rttpack: u32 = u32_from_le_bytes(slice_subrange(bytes, 40, 44));
        let dimm1_dqs_rttpark: u32 = u32_from_le_bytes(slice_subrange(bytes, 44, 48));
        let dram_drv: u32 = u32_from_le_bytes(slice_subrange(bytes, 48, 52));
        let ck_odt_a: u32 = u32_from_le_bytes(slice_subrange(bytes, 52, 56));
        let cs_odt_a: u32 = u32_from_le_bytes(slice_subrange(bytes, 56, 60));
        let ca_odt_a: u32 = u32_from_le_bytes(slice_subrange(bytes, 60, 64));
        let ck_odt_b: u32 = u32_from_le_bytes(slice_subrange(bytes, 64, 68));
        let cs_odt_b: u32 = u32_from_le_bytes(slice_subrange(bytes, 68, 72));
        let ca_odt_b: u32 = u32_from_le_bytes(slice_subrange(bytes, 72, 76));
        let p_odt: u32 = u32_from_le_bytes(slice_subrange(bytes, 76, 80));
        let dq_drv: u32 = u32_from_le_bytes(slice_subrange(bytes, 80, 84));
        let alert_pullup: u32 = u32_from_le_bytes(slice_subrange(bytes, 84, 88));
        let ca_drv: u32 = u32_from_le_bytes(slice_subrange(bytes, 88, 92));
        let phy_vref: u32 = u32_from_le_bytes(slice_subrange(bytes, 92, 96));
        let dq_vref: u32 = u32_from_le_bytes(slice_subrange(bytes, 96, 100));
        let ca_vref: u32 = u32_from_le_bytes(slice_subrange(bytes, 100, 104));
        let cs_vref: u32 = u32_from_le_bytes(slice_subrange(bytes, 104, 108));
        let d_ca_vref: u32 = u32_from_le_bytes(slice_subrange(bytes, 108, 112));
        let d_cs_vref: u32 = u32_from_le_bytes(slice_subrange(bytes, 112, 116));
        let rx_dfe: u32 = u32_from_le_bytes(slice_subrange(bytes, 116, 120));
        let tx_dfe: u32 = u32_from_le_bytes(slice_subrange(bytes, 120, 124));
        let r = RdimmDdr5BusElementPayload { total_size, ca_timing_mode, dimm0_rttnomwr, dimm0_rttnomrd, dimm0_rttwr, dimm0_rttpack, dimm0_dqs_rttpark, dimm1_rttnomwr, dimm1_rttnomrd, dimm1_rttwr, dimm1_rttpack, dimm1_dqs_rttpark, dram_drv, ck_odt_a, cs_odt_a, ca_odt_a, ck_odt_b, cs_odt_b, ca_odt_b, p_odt, dq_drv, alert_pullup, ca_drv, phy_vref, dq_vref, ca_vref, cs_vref, d_ca_vref, d_cs_vref, rx_dfe, tx_dfe };
        proof {
            lemma_auto_spec_u16_to_from_le_bytes();
            lemma_auto_spec_u32_to_from_le_bytes();
            lemma_auto_spec_u64_to_from_le_bytes();
            lemma_rdimm_ddr5_bus_element_payload_bytes_pieces(r);
            assert(bytes@.subrange(0, 4) == spec_u32_to_le_bytes(total_size));
            assert(bytes@.subrange(4, 8) == spec_u32_to_le_bytes(ca_timing_mode));
            assert(bytes@.subrange(8, 12) == spec_u32_to_le_bytes(dimm0_rttnomwr));
            assert(bytes@.subrange(12, 16) == spec_u32_to_le_bytes(dimm0_rttnomrd));
            assert(bytes@.subrange(16, 20) == spec_u32_to_le_bytes(dimm0_rttwr));
            assert(bytes@.subrange(20, 24) == spec_u32_to_le_bytes(dimm0_rttpack));
            assert(bytes@.subrange(24, 28) == spec_u32_to_le_bytes(dimm0_dqs_rttpark));
            assert(bytes@.subrange(28, 32) == spec_u32_to_le_bytes(dimm1_rttnomwr));
            assert(bytes@.subrange(32, 36) == spec_u32_to_le_bytes(dimm1_rttnomrd));
            assert(bytes@.subrange(36, 40) == spec_u32_to_le_bytes(dimm1_rttwr));
            assert(bytes@.subrange(40, 44) == spec_u32_to_le_bytes(dimm1_rttpack));
            assert(bytes@.subrange(44, 48) == spec_u32_to_le_bytes(dimm1_dqs_rttpark));
            assert(bytes@.subrange(48, 52) == spec_u32_to_le_bytes(dram_drv));
            assert(bytes@.subrange(52, 56) == spec_u32_to_le_bytes(ck_odt_a));
            assert(bytes@.subrange(56, 60) == spec_u32_to_le_bytes(cs_odt_a));
            assert(bytes@.subrange(60, 64) == spec_u32_to_le_bytes(ca_odt_a));
            assert(bytes@.subrange(64, 68) == spec_u32_to_le_bytes(ck_odt_b));
            assert(bytes@.subrange(68, 72) == spec_u32_to_le_bytes(cs_odt_b));
            assert(bytes@.subrange(72, 76) == spec_u32_to_le_bytes(ca_odt_b));
            assert(bytes@.subrange(76, 80) == spec_u32_to_le_bytes(p_odt));
            assert(bytes@.subrange(80, 84) == spec_u32_to_le_bytes(dq_drv));
            assert(bytes@.subrange(84, 88) == spec_u32_to_le_bytes(alert_pullup));
            assert(bytes@.subrange(88, 92) == spec_u32_to_le_bytes(ca_drv));
            assert(bytes@.subrange(92, 96) == spec_u32_to_le_bytes(phy_vref));
            assert(bytes@.subrange(96, 100) == spec_u32_to_le_bytes(dq_vref));
            assert(bytes@.subrange(100, 104) == spec_u32_to_le_bytes(ca_vref));
            assert(bytes@.subrange(104, 108) == spec_u32_to_le_bytes(cs_vref));
            assert(bytes@.subrange(108, 112) == spec_u32_to_le_bytes(d_ca_vref));
            assert(bytes@.subrange(112, 116) == spec_u32_to_le_bytes(d_cs_vref));
            assert(bytes@.subrange(116, 120) == spec_u32_to_le_bytes(rx_dfe));
            assert(bytes@.subrange(120, 124) == spec_u32_to_le_bytes(tx_dfe));
            assert(bytes@.subrange(0, 8) =~= bytes@.subrange(0, 4) + bytes@.subrange(4, 8));
            assert(bytes@.subrange(0, 12) =~= bytes@.subrange(0, 8) + bytes@.subrange(8, 12));
            assert(bytes@.subrange(0, 16) =~= bytes@.subrange(0, 12) + bytes@.subrange(12, 16));
            assert(bytes@.subrange(0, 20) =~= bytes@.subrange(0, 16) + bytes@.subrange(16, 20));
            assert(bytes@.subrange(0, 24) =~= bytes@.subrange(0, 20) + bytes@.subrange(20, 24));
            assert(bytes@.subrange(0, 28) =~= bytes@.subrange(0, 24) + bytes@.subrange(24, 28));
            assert(bytes@.subrange(0, 32) =~= bytes@.subrange(0, 28) + bytes@.subrange(28, 32));
            assert(bytes@.subrange(0, 36) =~= bytes@.subrange(0, 32) + bytes@.subrange(32, 36));
            assert(bytes@.subrange(0, 40) =~= bytes@.subrange(0, 36) + bytes@.subrange(36, 40));
            assert(bytes@.subrange(0, 44) =~= bytes@.subrange(0, 40) + bytes@.subrange(40, 44));
            assert(bytes@.subrange(0, 48) =~= bytes@.subrange(0, 44) + bytes@.subrange(44, 48));
            assert(bytes@.subrange(0, 52) =~= bytes@.subrange(0, 48) + bytes@.subrange(48, 52));
            assert(bytes@.subrange(0, 56) =~= bytes@.subrange(0, 52) + bytes@.subrange(52, 56));
            assert(bytes@.subrange(0, 60) =~= bytes@.subrange(0, 56) + bytes@.subrange(56, 60));
            assert(bytes@.subrange(0, 64) =~= bytes@.subrange(0, 60) + bytes@.subrange(60, 64));
            assert(bytes@.subrange(0, 68) =~= bytes@.subrange(0, 64) + bytes@.subrange(64, 68));
            assert(bytes@.subrange(0, 72) =~= bytes@.subrange(0, 68) + bytes@.subrange(68, 72));
            assert(bytes@.subrange(0, 76) =~= bytes@.subrange(0, 72) + bytes@.subrange(72, 76));
            assert(bytes@.subrange(0, 80) =~= bytes@.subrange(0, 76) + bytes@.subrange(76, 80));
            assert(bytes@.subrange(0, 84) =~= bytes@.subrange(0, 80) + bytes@.subrange(80, 84));
            assert(bytes@.subrange(0, 88) =~= bytes@.subrange(0, 84) + bytes@.subrange(84, 88));
            assert(bytes@.subrange(0, 92) =~= bytes@.subrange(0, 88) + bytes@.subrange(88, 92));
            assert(bytes@.subrange(0, 96) =~= bytes@.subrange(0, 92) + bytes@.subrange(92, 96));
            assert(bytes@.subrange(0, 100) =~= bytes@.subrange(0, 96) + bytes@.subrange(96, 100));
            assert(bytes@.subrange(0, 104) =~= bytes@.subrange(0, 100) + bytes@.subrange(100, 104));
            assert(bytes@.subrange(0, 108) =~= bytes@.subrange(0, 104) + bytes@.subrange(104, 108));
            assert(bytes@.subrange(0, 112) =~= bytes@.subrange(0, 108) + bytes@.subrange(108, 112));
            assert(bytes@.subrange(0, 116) =~= bytes@.subrange(0, 112) + bytes@.subrange(112, 116));
            assert(bytes@.subrange(0, 120) =~= bytes@.subrange(0, 116) + bytes@.subrange(116, 120));
            assert(bytes@.subrange(0, 124) =~= bytes@.subrange(0, 120) + bytes@.subrange(120, 124));
            assert(bytes@.subrange(0, 124) =~= bytes@);
            assert(bytes@ == r.spec_bytes());
        }
        r
    }

    #[verifier::spinoff_prover]
    #[verifier::rlimit(60)]
    fn to_bytes(&self) -> (r: Vec<u8>) {
        let mut out: Vec<u8> = Vec::new();
        append_bytes(&mut out, &le_bytes_u32(self.total_size));
        append_bytes(&mut out, &le_bytes_u32(self.ca_timing_mode));
        append_bytes(&mut out, &le_bytes_u32(self.dimm0_rttnomwr));
        append_bytes(&mut out, &le_bytes_u32(self.dimm0_rttnomrd));
        append_bytes(&mut out, &le_bytes_u32(self.dimm0_rttwr));
        append_bytes(&mut out, &le_bytes_u32(self.dimm0_rttpack));
        append_bytes(&mut out, &le_bytes_u32(self.dimm0_dqs_rttpark));
        append_bytes(&mut out, &le_bytes_u32(self.dimm1_rttnomwr));
        append_bytes(&mut out, &le_bytes_u32(self.dimm1_rttnomrd));
        append_bytes(&mut out, &le_bytes_u32(self.dimm1_rttwr));
        append_bytes(&mut out, &le_bytes_u32(self.dimm1_rttpack));
        append_bytes(&mut out, &le_bytes_u32(self.dimm1_dqs_rttpark));
        append_bytes(&mut out, &le_bytes_u32(self.dram_drv));
        append_bytes(&mut out, &le_bytes_u32(self.ck_odt_a));
        append_bytes(&mut out, &le_bytes_u32(self.cs_odt_a));
        append_bytes(&mut out, &le_bytes_u32(self.ca_odt_a));
        append_bytes(&mut out, &le_bytes_u32(self.ck_odt_b));
        append_bytes(&mut out, &le_bytes_u32(self.cs_odt_b));
        append_bytes(&mut out, &le_bytes_u32(self.ca_odt_b));
        append_bytes(&mut out, &le_bytes_u32(self.p_odt));
        append_bytes(&mut out, &le_bytes_u32(self.dq_drv));
        append_bytes(&mut out, &le_bytes_u32(self.alert_pullup));
        append_bytes(&mut out, &le_bytes_u32(self.ca_drv));
        append_bytes(&mut out, &le_bytes_u32(self.phy_vref));
        append_bytes(&mut out, &le_bytes_u32(self.dq_vref));
        append_bytes(&mut out, &le_bytes_u32(self.ca_vref));
        append_bytes(&mut out, &le_bytes_u32(self.cs_vref));
        append_bytes(&mut out, &le_bytes_u32(self.d_ca_vref));
        append_bytes(&mut out, &le_bytes_u32(self.d_cs_vref));
        append_bytes(&mut out, &le_bytes_u32(self.rx_dfe));
        append_bytes(&mut out, &le_bytes_u32(self.tx_dfe));
        proof {
            lemma_rdimm_ddr5_bus_element_payload_bytes_pieces(*self);
        }
        out
    }
}

/// How the bytes of a RdimmDdr5BusElementPayload split up into its fields.
pub proof fn lemma_rdimm_ddr5_bus_element_payload_bytes_pieces(x: RdimmDdr5BusElementPayload)
    ensures
        x.spec_bytes().len() == 124,
        x.spec_bytes().subrange(0, 4) == spec_u32_to_le_bytes(x.spec_total_size()),
        x.spec_bytes().subrange(4, 8) == spec_u32_to_le_bytes(x.spec_ca_timing_mode()),
        x.spec_bytes().subrange(8, 12) == spec_u32_to_le_bytes(x.spec_dimm0_rttnomwr()),
        x.spec_bytes().subrange(12, 16) == spec_u32_to_le_bytes(x.spec_dimm0_rttnomrd()),
        x.spec_bytes().subrange(16, 20) == spec_u32_to_le_bytes(x.spec_dimm0_rttwr()),
        x.spec_bytes().subrange(20, 24) == spec_u32_to_le_bytes(x.spec_dimm0_rttpack()),
        x.spec_bytes().subrange(24, 28) == spec_u32_to_le_bytes(x.spec_dimm0_dqs_rttpark()),
        x.spec_bytes().subrange(28, 32) == spec_u32_to_le_bytes(x.spec_dimm1_rttnomwr()),
        x.spec_bytes().subrange(32, 36) == spec_u32_to_le_bytes(x.spec_dimm1_rttnomrd()),
        x.spec_bytes().subrange(36, 40) == spec_u32_to_le_bytes(x.spec_dimm1_rttwr()),
        x.spec_bytes().subrange(40, 44) == spec_u32_to_le_bytes(x.spec_dimm1_rttpack()),
        x.spec_bytes().subrange(44, 48) == spec_u32_to_le_bytes(x.spec_dimm1_dqs_rttpark()),
        x.spec_bytes().subrange(48, 52) == spec_u32_to_le_bytes(x.spec_dram_drv()),
        x.spec_bytes().subrange(52, 56) == spec_u32_to_le_bytes(x.spec_ck_odt_a()),
        x.spec_bytes().subrange(56, 60) == spec_u32_to_le_bytes(x.spec_cs_odt_a()),
        x.spec_bytes().subrange(60, 64) == spec_u32_to_le_bytes(x.spec_ca_odt_a()),
        x.spec_bytes().subrange(64, 68) == spec_u32_to_le_bytes(x.spec_ck_odt_b()),
        x.spec_bytes().subrange(68, 72) == spec_u32_to_le_bytes(x.spec_cs_odt_b()),
        x.spec_bytes().subrange(72, 76) == spec_u32_to_le_bytes(x.spec_ca_odt_b()),
        x.spec_bytes().subrange(76, 80) == spec_u32_to_le_bytes(x.spec_p_odt()),
        x.spec_bytes().subrange(80, 84) == spec_u32_to_le_bytes(x.spec_dq_drv()),
        x.spec_bytes().subrange(84, 88) == spec_u32_to_le_bytes(x.spec_alert_pullup()),
        x.spec_bytes().subrange(88, 92) == spec_u32_to_le_bytes(x.spec_ca_drv()),
        x.spec_bytes().subrange(92, 96) == spec_u32_to_le_bytes(x.spec_phy_vref()),
        x.spec_bytes().subrange(96, 100) == spec_u32_to_le_bytes(x.spec_dq_vref()),
        x.spec_bytes().subrange(100, 104) == spec_u32_to_le_bytes(x.spec_ca_vref()),
        x.spec_bytes().subrange(104, 108) == spec_u32_to_le_bytes(x.spec_cs_vref()),
        x.spec_bytes().subrange(108, 112) == spec_u32_to_le_bytes(x.spec_d_ca_vref()),
        x.spec_bytes().subrange(112, 116) == spec_u32_to_le_bytes(x.spec_d_cs_vref()),
        x.spec_bytes().subrange(116, 120) == spec_u32_to_le_bytes(x.spec_rx_dfe()),
        x.spec_bytes().subrange(120, 124) == spec_u32_to_le_bytes(x.spec_tx_dfe()),
{
    lemma_auto_spec_u16_to_from_le_bytes();
    lemma_auto_spec_u32_to_from_le_bytes();
    lemma_auto_spec_u64_to_from_le_bytes();
    assert(x.spec_bytes().subrange(0, 4) == spec_u32_to_le_bytes(x.total_size));
    assert(x.spec_bytes().subrange(4, 8) == spec_u32_to_le_bytes(x.ca_timing_mode));
    assert(x.spec_bytes().subrange(8, 12) == spec_u32_to_le_bytes(x.dimm0_rttnomwr));
    assert(x.spec_bytes().subrange(12, 16) == spec_u32_to_le_bytes(x.dimm0_rttnomrd));
    assert(x.spec_bytes().subrange(16, 20) == spec_u32_to_le_bytes(x.dimm0_rttwr));
    assert(x.spec_bytes().subrange(20, 24) == spec_u32_to_le_bytes(x.dimm0_rttpack));
    assert(x.spec_bytes().subrange(24, 28) == spec_u32_to_le_bytes(x.dimm0_dqs_rttpark));
    assert(x.spec_bytes().subrange(28, 32) == spec_u32_to_le_bytes(x.dimm1_rttnomwr));
    assert(x.spec_bytes().subrange(32, 36) == spec_u32_to_le_bytes(x.dimm1_rttnomrd));
    assert(x.spec_bytes().subrange(36, 40) == spec_u32_to_le_bytes(x.dimm1_rttwr));
    assert(x.spec_bytes().subrange(40, 44) == spec_u32_to_le_bytes(x.dimm1_rttpack));
    assert(x.spec_bytes().subrange(44, 48) == spec_u32_to_le_bytes(x.dimm1_dqs_rttpark));
    assert(x.spec_bytes().subrange(48, 52) == spec_u32_to_le_bytes(x.dram_drv));
    assert(x.spec_bytes().subrange(52, 56) == spec_u32_to_le_bytes(x.ck_odt_a));
    assert(x.spec_bytes().subrange(56, 60) == spec_u32_to_le_bytes(x.cs_odt_a));
    assert(x.spec_bytes().subrange(60, 64) == spec_u32_to_le_bytes(x.ca_odt_a));
    assert(x.spec_bytes().subrange(64, 68) == spec_u32_to_le_bytes(x.ck_odt_b));
    assert(x.spec_bytes().subrange(68, 72) == spec_u32_to_le_bytes(x.cs_odt_b));
    assert(x.spec_bytes().subrange(72, 76) == spec_u32_to_le_bytes(x.ca_odt_b));
    assert(x.spec_bytes().subrange(76, 80) == spec_u32_to_le_bytes(x.p_odt));
    assert(x.spec_bytes().subrange(80, 84) == spec_u32_to_le_bytes(x.dq_drv));
    assert(x.spec_bytes().subrange(84, 88) == spec_u32_to_le_bytes(x.alert_pullup));
    assert(x.spec_bytes().subrange(88, 92) == spec_u32_to_le_bytes(x.ca_drv));
    assert(x.spec_bytes().subrange(92, 96) == spec_u32_to_le_bytes(x.phy_vref));
    assert(x.spec_bytes().subrange(96, 100) == spec_u32_to_le_bytes(x.dq_vref));
    assert(x.spec_bytes().subrange(100, 104) == spec_u32_to_le_bytes(x.ca_vref));
    assert(x.spec_bytes().subrange(104, 108) == spec_u32_to_le_bytes(x.cs_vref));
    assert(x.spec_bytes().subrange(108, 112) == spec_u32_to_le_bytes(x.d_ca_vref));
    assert(x.spec_bytes().subrange(112, 116) == spec_u32_to_le_bytes(x.d_cs_vref));
    assert(x.spec_bytes().subrange(116, 120) == spec_u32_to_le_bytes(x.rx_dfe));
    assert(x.spec_bytes().subrange(120, 124) == spec_u32_to_le_bytes(x.tx_dfe));
}

/// Two values of RdimmDdr5BusElementPayload with the same bytes are the same value.
#[verifier::spinoff_prover]
#[verifier::rlimit(60)]
pub proof fn lemma_rdimm_ddr5_bus_element_payload_bytes_injective(x: RdimmDdr5BusElementPayload, y: RdimmDdr5BusElementPayload)
    requires
        x.spec_bytes() == y.spec_bytes(),
    ensures
        x == y,
{
    lemma_rdimm_ddr5_bus_element_payload_bytes_pieces(x);
    lemma_rdimm_ddr5_bus_element_payload_bytes_pieces(y);
    lemma_auto_spec_u16_to_from_le_bytes();
    lemma_auto_spec_u32_to_from_le_bytes();
    lemma_auto_spec_u64_to_from_le_bytes();
    assert(spec_u32_from_le_bytes(spec_u32_to_le_bytes(x.total_size)) == spec_u32_from_le_bytes(spec_u32_to_le_bytes(y.total_size)));
    assert(spec_u32_from_le_bytes(spec_u32_to_le_bytes(x.ca_timing_mode)) == spec_u32_from_le_bytes(spec_u32_to_le_bytes(y.ca_timing_mode)));
    assert(spec_u32_from_le_bytes(spec_u32_to_le_bytes(x.dimm0_rttnomwr)) == spec_u32_from_le_bytes(spec_u32_to_le_bytes(y.dimm0_rttnomwr)));
    assert(spec_u32_from_le_bytes(spec_u32_to_le_bytes(x.dimm0_rttnomrd)) == spec_u32_from_le_bytes(spec_u32_to_le_bytes(y.dimm0_rttnomrd)));
    assert(spec_u32_from_le_bytes(spec_u32_to_le_bytes(x.dimm0_rttwr)) == spec_u32_from_le_bytes(spec_u32_to_le_bytes(y.dimm0_rttwr)));
    assert(spec_u32_from_le_bytes(spec_u32_to_le_bytes(x.dimm0_rttpack)) == spec_u32_from_le_bytes(spec_u32_to_le_bytes(y.dimm0_rttpack)));
    assert(spec_u32_from_le_bytes(spec_u32_to_le_bytes(x.dimm0_dqs_rttpark)) == spec_u32_from_le_bytes(spec_u32_to_le_bytes(y.dimm0_dqs_rttpark)));
    assert(spec_u32_from_le_bytes(spec_u32_to_le_bytes(x.dimm1_rttnomwr)) == spec_u32_from_le_bytes(spec_u32_to_le_bytes(y.dimm1_rttnomwr)));
    assert(spec_u32_from_le_bytes(spec_u32_to_le_bytes(x.dimm1_rttnomrd)) == spec_u32_from_le_bytes(spec_u32_to_le_bytes(y.dimm1_rttnomrd)));
    assert(spec_u32_from_le_bytes(spec_u32_to_le_bytes(x.dimm1_rttwr)) == spec_u32_from_le_bytes(spec_u32_to_le_bytes(y.dimm1_rttwr)));
    assert(spec_u32_from_le_bytes(spec_u32_to_le_bytes(x.dimm1_rttpack)) == spec_u32_from_le_bytes(spec_u32_to_le_bytes(y.dimm1_rttpack)));
    assert(spec_u32_from_le_bytes(spec_u32_to_le_bytes(x.dimm1_dqs_rttpark)) == spec_u32_from_le_bytes(spec_u32_to_le_bytes(y.dimm1_dqs_rttpark)));
    assert(spec_u32_from_le_bytes(spec_u32_to_le_bytes(x.dram_drv)) == spec_u32_from_le_bytes(spec_u32_to_le_bytes(y.dram_drv)));
    assert(spec_u32_from_le_bytes(spec_u32_to_le_bytes(x.ck_odt_a)) == spec_u32_from_le_bytes(spec_u32_to_le_bytes(y.ck_odt_a)));
    assert(spec_u32_from_le_bytes(spec_u32_to_le_bytes(x.cs_odt_a)) == spec_u32_from_le_bytes(spec_u32_to_le_bytes(y.cs_odt_a)));
    assert(spec_u32_from_le_bytes(spec_u32_to_le_bytes(x.ca_odt_a)) == spec_u32_from_le_bytes(spec_u32_to_le_bytes(y.ca_odt_a)));
    assert(spec_u32_from_le_bytes(spec_u32_to_le_bytes(x.ck_odt_b)) == spec_u32_from_le_bytes(spec_u32_to_le_bytes(y.ck_odt_b)));
    assert(spec_u32_from_le_bytes(spec_u32_to_le_bytes(x.cs_odt_b)) == spec_u32_from_le_bytes(spec_u32_to_le_bytes(y.cs_odt_b)));
    assert(spec_u32_from_le_bytes(spec_u32_to_le_bytes(x.ca_odt_b)) == spec_u32_from_le_bytes(spec_u32_to_le_bytes(y.ca_odt_b)));
    assert(spec_u32_from_le_bytes(spec_u32_to_le_bytes(x.p_odt)) == spec_u32_from_le_bytes(spec_u32_to_le_bytes(y.p_odt)));
    assert(spec_u32_from_le_bytes(spec_u32_to_le_bytes(x.dq_drv)) == spec_u32_from_le_bytes(spec_u32_to_le_bytes(y.dq_drv)));
    assert(spec_u32_from_le_bytes(spec_u32_to_le_bytes(x.alert_pullup)) == spec_u32_from_le_bytes(spec_u32_to_le_bytes(y.alert_pullup)));
    assert(spec_u32_from_le_bytes(spec_u32_to_le_bytes(x.ca_drv)) == spec_u32_from_le_bytes(spec_u32_to_le_bytes(y.ca_drv)));
    assert(spec_u32_from_le_bytes(spec_u32_to_le_bytes(x.phy_vref)) == spec_u32_from_le_bytes(spec_u32_to_le_bytes(y.phy_vref)));
    assert(spec_u32_from_le_bytes(spec_u32_to_le_bytes(x.dq_vref)) == spec_u32_from_le_bytes(spec_u32_to_le_bytes(y.dq_vref)));
    assert(spec_u32_from_le_bytes(spec_u32_to_le_bytes(x.ca_vref)) == spec_u32_from_le_bytes(spec_u32_to_le_bytes(y.ca_vref)));
    assert(spec_u32_from_le_bytes(spec_u32_to_le_bytes(x.cs_vref)) == spec_u32_from_le_bytes(spec_u32_to_le_bytes(y.cs_vref)));
    assert(spec_u32_from_le_bytes(spec_u32_to_le_bytes(x.d_ca_vref)) == spec_u32_from_le_bytes(spec_u32_to_le_bytes(y.d_ca_vref)));
    assert(spec_u32_from_le_bytes(spec_u32_to_le_bytes(x.d_cs_vref)) == spec_u32_from_le_bytes(spec_u32_to_le_bytes(y.d_cs_vref)));
    assert(spec_u32_from_le_bytes(spec_u32_to_le_bytes(x.rx_dfe)) == spec_u32_from_le_bytes(spec_u32_to_le_bytes(y.rx_dfe)));
    assert(spec_u32_from_le_bytes(spec_u32_to_le_bytes(x.tx_dfe)) == spec_u32_from_le_bytes(spec_u32_to_le_bytes(y.tx_dfe)));
}

impl Default for RdimmDdr5BusElementPayload {
    fn default() -> (r: Self)
        ensures
            r.spec_total_size() == 124,
            r.spec_ca_timing_mode() == 1,
            r.spec_dimm0_rttnomwr() == 120,
            r.spec_dimm0_rttnomrd() == 120,
            r.spec_dimm0_rttwr() == 240,
            r.spec_dimm0_rttpack() == 60,
            r.spec_dimm0_dqs_rttpark() == 80,
            r.spec_dimm1_rttnomwr() == 120,
            r.spec_dimm1_rttnomrd() == 120,
            r.spec_dimm1_rttwr() == 240,
            r.spec_dimm1_rttpack() == 60,
            r.spec_dimm1_dqs_rttpark() == 80,
            r.spec_dram_drv() == 34,
            r.spec_ck_odt_a() == 0,
            r.spec_cs_odt_a() == 0,
            r.spec_ca_odt_a() == 0,
            r.spec_ck_odt_b() == 40,
            r.spec_cs_odt_b() == 40,
            r.spec_ca_odt_b() == 60,
            r.spec_p_odt() == 60,
            r.spec_dq_drv() == 34,
            r.spec_alert_pullup() == 80,
            r.spec_ca_drv() == 40,
            r.spec_phy_vref() == 45,
            r.spec_dq_vref() == 45,
            r.spec_ca_vref() == 63,
            r.spec_cs_vref() == 56,
            r.spec_d_ca_vref() == 32,
            r.spec_d_cs_vref() == 40,
            r.spec_rx_dfe() == 1,
            r.spec_tx_dfe() == 1,
    {
        RdimmDdr5BusElementPayload { total_size: 124, ca_timing_mode: 1, dimm0_rttnomwr: 120, dimm0_rttnomrd: 120, dimm0_rttwr: 240, dimm0_rttpack: 60, dimm0_dqs_rttpark: 80, dimm1_rttnomwr: 120, dimm1_rttnomrd: 120, dimm1_rttwr: 240, dimm1_rttpack: 60, dimm1_dqs_rttpark: 80, dram_drv: 34, ck_odt_a: 0, cs_odt_a: 0, ca_odt_a: 0, ck_odt_b: 40, cs_odt_b: 40, ca_odt_b: 60, p_odt: 60, dq_drv: 34, alert_pullup: 80, ca_drv: 40, phy_vref: 45, dq_vref: 45, ca_vref: 63, cs_vref: 56, d_ca_vref: 32, d_cs_vref: 40, rx_dfe: 1, tx_dfe: 1 }
    }
}

/// A DDR5 RDIMM bus element: header and settings.
#[allow(non_camel_case_types)]
#[derive(Debug, Clone, Copy)]
pub struct RdimmDdr5BusElement {
    pub(crate) header: RdimmDdr5BusElementHeader,
    pub(crate) payload: RdimmDdr5BusElementPayload,
}

impl RdimmDdr5BusElement {
    pub closed spec fn spec_header(self) -> RdimmDdr5BusElementHeader {
        self.header
    }

    pub closed spec fn spec_payload(self) -> RdimmDdr5BusElementPayload {
        self.payload
    }

}

impl RdimmDdr5BusElement {
    /// The bytes that store this value on disk.
    pub closed spec fn spec_bytes(self) -> Seq<u8> {
        self.header.spec_to_bytes()
            + self.payload.spec_to_bytes()
    }
}

impl ByteLayout for RdimmDdr5BusElement {
    open spec fn spec_size() -> nat {
        136
    }

    open spec fn spec_to_bytes(self) -> Seq<u8> {
        self.spec_bytes()
    }

    fn size() -> (r: usize) {
        136
    }

    #[verifier::spinoff_prover]
    #[verifier::rlimit(60)]
    fn from_bytes(bytes: &[u8]) -> (r: Self) {
        let header: RdimmDdr5BusElementHeader = RdimmDdr5BusElementHeader::from_bytes(slice_subrange(bytes, 0, 12));
        let payload: RdimmDdr5BusElementPayload = RdimmDdr5BusElementPayload::from_bytes(slice_subrange(bytes, 12, 136));
        let r = RdimmDdr5BusElement { header, payload };
        proof {
            lemma_auto_spec_u16_to_from_le_bytes();
            lemma_auto_spec_u32_to_from_le_bytes();
            lemma_auto_spec_u64_to_from_le_bytes();
            lemma_rdimm_ddr5_bus_element_bytes_pieces(r);
            assert(bytes@.subrange(0, 12) == header.spec_to_bytes());
            assert(bytes@.subrange(12, 136) == payload.spec_to_bytes());
            assert(bytes@.subrange(0, 136) =~= bytes@.subrange(0, 12) + bytes@.subrange(12, 136));
            assert(bytes@.subrange(0, 136) =~= bytes@);
            assert(bytes@ == r.spec_bytes());
        }
        r
    }

    #[verifier::spinoff_prover]
    #[verifier::rlimit(60)]
    fn to_bytes(&self) -> (r: Vec<u8>) {
        let mut out: Vec<u8> = Vec::new();
        let part = self.header.to_bytes();
        append_bytes(&mut out, part.as_slice());
        let part = self.payload.to_bytes();
        append_bytes(&mut out, part.as_slice());
        proof {
            lemma_rdimm_ddr5_bus_element_bytes_pieces(*self);
        }
        out
    }
}

/// How the bytes of a RdimmDdr5BusElement split up into its fields.
pub proof fn lemma_rdimm_ddr5_bus_element_bytes_pieces(x: RdimmDdr5BusElement)
    ensures
        x.spec_bytes().len() == 136,
        x.spec_bytes().subrange(0, 12) == x.spec_header().spec_to_bytes(),
        x.spec_bytes().subrange(12, 136) == x.spec_payload().spec_to_bytes(),
{
    lemma_auto_spec_u16_to_from_le_bytes();
    lemma_auto_spec_u32_to_from_le_bytes();
    lemma_auto_spec_u64_to_from_le_bytes();
    lemma_rdimm_ddr5_bus_element_header_bytes_pieces(x.header);
    lemma_rdimm_ddr5_bus_element_payload_bytes_pieces(x.payload);
    assert(x.spec_bytes().subrange(0, 12) == x.header.spec_to_bytes());
    assert(x.spec_bytes().subrange(12, 136) == x.payload.spec_to_bytes());
}

/// Two values of RdimmDdr5BusElement with the same bytes are the same value.
#[verifier::spinoff_prover]
#[verifier::rlimit(60)]
pub proof fn lemma_rdimm_ddr5_bus_element_bytes_injective(x: RdimmDdr5BusElement, y: RdimmDdr5BusElement)
    requires
        x.spec_bytes() == y.spec_bytes(),
    ensures
        x == y,
{
    lemma_rdimm_ddr5_bus_element_bytes_pieces(x);
    lemma_rdimm_ddr5_bus_element_bytes_pieces(y);
    lemma_auto_spec_u16_to_from_le_bytes();
    lemma_auto_spec_u32_to_from_le_bytes();
    lemma_auto_spec_u64_to_from_le_bytes();
    lemma_rdimm_ddr5_bus_element_header_bytes_injective(x.header, y.header);
    lemma_rdimm_ddr5_bus_element_payload_bytes_injective(x.payload, y.payload);
}

impl Default for RdimmDdr5BusElement {
    fn default() -> (r: Self)
        ensures
            r.spec_header().spec_total_size() == 12,
            r.spec_header().spec_target_memclk() == 2000,
            r.spec_header().spec_dimm_slots_per_channel() == 2,
            r.spec_header().spec_dimm0_rank_bitmap() == 4,
            r.spec_header().spec_dimm1_rank_bitmap() == 4,
            r.spec_header().spec_sdram_io_width_bitmap() == 1,
            r.spec_payload().spec_total_size() == 124,
            r.spec_payload().spec_ca_timing_mode() == 1,
            r.spec_payload().spec_dimm0_rttnomwr() == 120,
            r.spec_payload().spec_dimm0_rttnomrd() == 120,
            r.spec_payload().spec_dimm0_rttwr() == 240,
            r.spec_payload().spec_dimm0_rttpack() == 60,
            r.spec_payload().spec_dimm0_dqs_rttpark() == 80,
            r.spec_payload().spec_dimm1_rttnomwr() == 120,
            r.spec_payload().spec_dimm1_rttnomrd() == 120,
            r.spec_payload().spec_dimm1_rttwr() == 240,
            r.spec_payload().spec_dimm1_rttpack() == 60,
            r.spec_payload().spec_dimm1_dqs_rttpark() == 80,
            r.spec_payload().spec_dram_drv() == 34,
            r.spec_payload().spec_ck_odt_a() == 0,
            r.spec_payload().spec_cs_odt_a() == 0,
            r.spec_payload().spec_ca_odt_a() == 0,
            r.spec_payload().spec_ck_odt_b() == 40,
            r.spec_payload().spec_cs_odt_b() == 40,
            r.spec_payload().spec_ca_odt_b() == 60,
            r.spec_payload().spec_p_odt() == 60,
            r.spec_payload().spec_dq_drv() == 34,
            r.spec_payload().spec_alert_pullup() == 80,
            r.spec_payload().spec_ca_drv() == 40,
            r.spec_payload().spec_phy_vref() == 45,
            r.spec_payload().spec_dq_vref() == 45,
            r.spec_payload().spec_ca_vref() == 63,
            r.spec_payload().spec_cs_vref() == 56,
            r.spec_payload().spec_d_ca_vref() == 32,
            r.spec_payload().spec_d_cs_vref() == 40,
            r.spec_payload().spec_rx_dfe() == 1,
            r.spec_payload().spec_tx_dfe() == 1,
    {
        RdimmDdr5BusElement { header: RdimmDdr5BusElementHeader::default(), payload: RdimmDdr5BusElementPayload::default() }
    }
}

impl EntryCompatible for RdimmDdr5BusElement {
    fn is_entry_compatible(entry_id: EntryId, _prefix: &[u8]) -> (r: bool)
        ensures
            r == (entry_id == EntryId::Memory(MemoryEntryId::PsRdimmDdr5Bus)),
    {
        matches!(entry_id, EntryId::Memory(MemoryEntryId::PsRdimmDdr5Bus))
    }
}

/// The header of a decision feedback equalization search element (Genoa).
#[allow(non_camel_case_types)]
#[derive(Debug, Clone, Copy, PartialEq, Eq, Structural)]
pub struct MemDfeSearchElementHeader {
    pub(crate) total_size: u32,
    pub(crate) dimm_slots_per_channel: u8,
    pub(crate) dimm0_rank_bitmap: u8,
    pub(crate) dimm1_rank_bitmap: u8,
    pub(crate) sdram_io_width_bitmap: u8,
}

impl MemDfeSearchElementHeader {
    pub closed spec fn spec_total_size(self) -> u32 {
        self.total_size
    }

    pub closed spec fn spec_dimm_slots_per_channel(self) -> u8 {
        self.dimm_slots_per_channel
    }

    pub closed spec fn spec_dimm0_rank_bitmap(self) -> u8 {
        self.dimm0_rank_bitmap
    }

    pub closed spec fn spec_dimm1_rank_bitmap(self) -> u8 {
        self.dimm1_rank_bitmap
    }

    pub closed spec fn spec_sdram_io_width_bitmap(self) -> u8 {
        self.sdram_io_width_bitmap
    }

}

impl MemDfeSearchElementHeader {
    /// The bytes that store this value on disk.
    pub closed spec fn spec_bytes(self) -> Seq<u8> {
        spec_u32_to_le_bytes(self.total_size)
            + seq![self.dimm_slots_per_channel]
            + seq![self.dimm0_rank_bitmap]
            + seq![self.dimm1_rank_bitmap]
            + seq![self.sdram_io_width_bitmap]
    }
}

impl ByteLayout for MemDfeSearchElementHeader {
    open spec fn spec_size() -> nat {
        8
    }

    open spec fn spec_to_bytes(self) -> Seq<u8> {
        self.spec_bytes()
    }

    fn size() -> (r: usize) {
        8
    }

    #[verifier::spinoff_prover]
    fn from_bytes(bytes: &[u8]) -> (r: Self) {
        let total_size: u32 = u32_from_le_bytes(slice_subrange(bytes, 0, 4));
        let dimm_slots_per_channel: u8 = bytes[4];
        let dimm0_rank_bitmap: u8 = bytes[5];
        let dimm1_rank_bitmap: u8 = bytes[6];
        let sdram_io_width_bitmap: u8 = bytes[7];
        let r = MemDfeSearchElementHeader { total_size, dimm_slots_per_channel, dimm0_rank_bitmap, dimm1_rank_bitmap, sdram_io_width_bitmap };
        proof {
            lemma_auto_spec_u16_to_from_le_bytes();
            lemma_auto_spec_u32_to_from_le_bytes();
            lemma_auto_spec_u64_to_from_le_bytes();
            lemma_mem_dfe_search_element_header_bytes_pieces(r);
            assert(bytes@.subrange(0, 4) == spec_u32_to_le_bytes(total_size));
            assert(bytes@.subrange(0, 5) =~= bytes@.subrange(0, 4) + bytes@.subrange(4, 5));
            assert(bytes@.subrange(0, 6) =~= bytes@.subrange(0, 5) + bytes@.subrange(5, 6));
            assert(bytes@.subrange(0, 7) =~= bytes@.subrange(0, 6) + bytes@.subrange(6, 7));
            assert(bytes@.subrange(0, 8) =~= bytes@.subrange(0, 7) + bytes@.subrange(7, 8));
            assert(bytes@.subrange(0, 8) =~= bytes@);
            assert(bytes@ == r.spec_bytes());
        }
        r
    }

    #[verifier::spinoff_prover]
    fn to_bytes(&self) -> (r: Vec<u8>) {
        let mut out: Vec<u8> = Vec::new();
        append_bytes(&mut out, &le_bytes_u32(self.total_size));
        out.push(self.dimm_slots_per_channel);
        out.push(self.dimm0_rank_bitmap);
        out.push(self.dimm1_rank_bitmap);
        out.push(self.sdram_io_width_bitmap);
        proof {
            lemma_mem_dfe_search_element_header_bytes_pieces(*self);
        }
        out
    }
}

/// How the bytes of a MemDfeSearchElementHeader split up into its fields.
pub proof fn lemma_mem_dfe_search_element_header_bytes_pieces(x: MemDfeSearchElementHeader)
    ensures
        x.spec_bytes().len() == 8,
        x.spec_bytes().subrange(0, 4) == spec_u32_to_le_bytes(x.spec_total_size()),
        x.spec_bytes()[4] == x.spec_dimm_slots_per_channel(),
        x.spec_bytes()[5] == x.spec_dimm0_rank_bitmap(),
        x.spec_bytes()[6] == x.spec_dimm1_rank_bitmap(),
        x.spec_bytes()[7] == x.spec_sdram_io_width_bitmap(),
{
    lemma_auto_spec_u16_to_from_le_bytes();
    lemma_auto_spec_u32_to_from_le_bytes();
    lemma_auto_spec_u64_to_from_le_bytes();
    assert(x.spec_bytes().subrange(0, 4) == spec_u32_to_le_bytes(x.total_size));
}

/// Two values of MemDfeSearchElementHeader with the same bytes are the same value.
#[verifier::spinoff_prover]
pub proof fn lemma_mem_dfe_search_element_header_bytes_injective(x: MemDfeSearchElementHeader, y: MemDfeSearchElementHeader)
    requires
        x.spec_bytes() == y.spec_bytes(),
    ensures
        x == y,
{
    lemma_mem_dfe_search_element_header_bytes_pieces(x);
    lemma_mem_dfe_search_element_header_bytes_pieces(y);
    lemma_auto_spec_u16_to_from_le_bytes();
    lemma_auto_spec_u32_to_from_le_bytes();
    lemma_auto_spec_u64_to_from_le_bytes();
    assert(spec_u32_from_le_bytes(spec_u32_to_le_bytes(x.total_size)) == spec_u32_from_le_bytes(spec_u32_to_le_bytes(y.total_size)));
    assert(x.dimm_slots_per_channel == y.dimm_slots_per_channel);
    assert(x.dimm0_rank_bitmap == y.dimm0_rank_bitmap);
    assert(x.dimm1_rank_bitmap == y.dimm1_rank_bitmap);
    assert(x.sdram_io_width_bitmap == y.sdram_io_width_bitmap);
}

impl Default for MemDfeSearchElementHeader {
    fn default() -> (r: Self)
        ensures
            r.spec_total_size() == 8,
            r.spec_dimm_slots_per_channel() == 1,
            r.spec_dimm0_rank_bitmap() == 2,
            r.spec_dimm1_rank_bitmap() == 1,
            r.spec_sdram_io_width_bitmap() == 255,
    {
        MemDfeSearchElementHeader { total_size: 8, dimm_slots_per_channel: 1, dimm0_rank_bitmap: 2, dimm1_rank_bitmap: 1, sdram_io_width_bitmap: 255 }
    }
}

/// The twelve-byte header of a decision feedback equalization search element.
#[allow(non_camel_case_types)]
#[derive(Debug, Clone, Copy, PartialEq, Eq, Structural)]
pub struct MemDfeSearchElementHeader12 {
    pub(crate) total_size: u32,
    pub(crate) _reserved: u32,
    pub(crate) dimm_slots_per_channel: u8,
    pub(crate) dimm0_rank_bitmap: u8,
    pub(crate) dimm1_rank_bitmap: u8,
    pub(crate) sdram_io_width_bitmap: u8,
}

impl MemDfeSearchElementHeader12 {
    pub closed spec fn spec_total_size(self) -> u32 {
        self.total_size
    }

    pub closed spec fn spec__reserved(self) -> u32 {
        self._reserved
    }

    pub closed spec fn spec_dimm_slots_per_channel(self) -> u8 {
        self.dimm_slots_per_channel
    }

    pub closed spec fn spec_dimm0_rank_bitmap(self) -> u8 {
        self.dimm0_rank_bitmap
    }

    pub closed spec fn spec_dimm1_rank_bitmap(self) -> u8 {
        self.dimm1_rank_bitmap
    }

    pub closed spec fn spec_sdram_io_width_bitmap(self) -> u8 {
        self.sdram_io_width_bitmap
    }

}

impl MemDfeSearchElementHeader12 {
    /// The bytes that store this value on disk.
    pub closed spec fn spec_bytes(self) -> Seq<u8> {
        spec_u32_to_le_bytes(self.total_size)
            + spec_u32_to_le_bytes(self._reserved)
            + seq![self.dimm_slots_per_channel]
            + seq![self.dimm0_rank_bitmap]
            + seq![self.dimm1_rank_bitmap]
            + seq![self.sdram_io_width_bitmap]
    }
}

impl ByteLayout for MemDfeSearchElementHeader12 {
    open spec fn spec_size() -> nat {
        12
    }

    open spec fn spec_to_bytes(self) -> Seq<u8> {
        self.spec_bytes()
    }

    fn size() -> (r: usize) {
        12
    }

    #[verifier::spinoff_prover]
    fn from_bytes(bytes: &[u8]) -> (r: Self) {
        let total_size: u32 = u32_from_le_bytes(slice_subrange(bytes, 0, 4));
        let _reserved: u32 = u32_from_le_bytes(slice_subrange(bytes, 4, 8));
        let dimm_slots_per_channel: u8 = bytes[8];
        let dimm0_rank_bitmap: u8 = bytes[9];
        let dimm1_rank_bitmap: u8 = bytes[10];
        let sdram_io_width_bitmap: u8 = bytes[11];
        let r = MemDfeSearchElementHeader12 { total_size, _reserved, dimm_slots_per_channel, dimm0_rank_bitmap, dimm1_rank_bitmap, sdram_io_width_bitmap };
        proof {
            lemma_auto_spec_u16_to_from_le_bytes();
            lemma_auto_spec_u32_to_from_le_bytes();
            lemma_auto_spec_u64_to_from_le_bytes();
            lemma_mem_dfe_search_element_header12_bytes_pieces(r);
            assert(bytes@.subrange(0, 4) == spec_u32_to_le_bytes(total_size));
            assert(bytes@.subrange(4, 8) == spec_u32_to_le_bytes(_reserved));
            assert(bytes@.subrange(0, 8) =~= bytes@.subrange(0, 4) + bytes@.subrange(4, 8));
            assert(bytes@.subrange(0, 9) =~= bytes@.subrange(0, 8) + bytes@.subrange(8, 9));
            assert(bytes@.subrange(0, 10) =~= bytes@.subrange(0, 9) + bytes@.subrange(9, 10));
            assert(bytes@.subrange(0, 11) =~= bytes@.subrange(0, 10) + bytes@.subrange(10, 11));
            assert(bytes@.subrange(0, 12) =~= bytes@.subrange(0, 11) + bytes@.subrange(11, 12));
            assert(bytes@.subrange(0, 12) =~= bytes@);
            assert(bytes@ == r.spec_bytes());
        }
        r
    }

    #[verifier::spinoff_prover]
    fn to_bytes(&self) -> (r: Vec<u8>) {
        let mut out: Vec<u8> = Vec::new();
        append_bytes(&mut out, &le_bytes_u32(self.total_size));
        append_bytes(&mut out, &le_bytes_u32(self._reserved));
        out.push(self.dimm_slots_per_channel);
        out.push(self.dimm0_rank_bitmap);
        out.push(self.dimm1_rank_bitmap);
        out.push(self.sdram_io_width_bitmap);
        proof {
            lemma_mem_dfe_search_element_header12_bytes_pieces(*self);
        }
        out
    }
}

/// How the bytes of a MemDfeSearchElementHeader12 split up into its fields.
pub proof fn lemma_mem_dfe_search_element_header12_bytes_pieces(x: MemDfeSearchElementHeader12)
    ensures
        x.spec_bytes().len() == 12,
        x.spec_bytes().subrange(0, 4) == spec_u32_to_le_bytes(x.spec_total_size()),
        x.spec_bytes().subrange(4, 8) == spec_u32_to_le_bytes(x.spec__reserved()),
        x.spec_bytes()[8] == x.spec_dimm_slots_per_channel(),
        x.spec_bytes()[9] == x.spec_dimm0_rank_bitmap(),
        x.spec_bytes()[10] == x.spec_dimm1_rank_bitmap(),
        x.spec_bytes()[11] == x.spec_sdram_io_width_bitmap(),
{
    lemma_auto_spec_u16_to_from_le_bytes();
    lemma_auto_spec_u32_to_from_le_bytes();
    lemma_auto_spec_u64_to_from_le_bytes();
    assert(x.spec_bytes().subrange(0, 4) == spec_u32_to_le_bytes(x.total_size));
    assert(x.spec_bytes().subrange(4, 8) == spec_u32_to_le_bytes(x._reserved));
}

/// Two values of MemDfeSearchElementHeader12 with the same bytes are the same value.
#[verifier::spinoff_prover]
pub proof fn lemma_mem_dfe_search_element_header12_bytes_injective(x: MemDfeSearchElementHeader12, y: MemDfeSearchElementHeader12)
    requires
        x.spec_bytes() == y.spec_bytes(),
    ensures
        x == y,
{
    lemma_mem_dfe_search_element_header12_bytes_pieces(x);
    lemma_mem_dfe_search_element_header12_bytes_pieces(y);
    lemma_auto_spec_u16_to_from_le_bytes();
    lemma_auto_spec_u32_to_from_le_bytes();
    lemma_auto_spec_u64_to_from_le_bytes();
    assert(spec_u32_from_le_bytes(spec_u32_to_le_bytes(x.total_size)) == spec_u32_from_le_bytes(spec_u32_to_le_bytes(y.total_size)));
    assert(spec_u32_from_le_bytes(spec_u32_to_le_bytes(x._reserved)) == spec_u32_from_le_bytes(spec_u32_to_le_bytes(y._reserved)));
    assert(x.dimm_slots_per_channel == y.dimm_slots_per_channel);
    assert(x.dimm0_rank_bitmap == y.dimm0_rank_bitmap);
    assert(x.dimm1_rank_bitmap == y.dimm1_rank_bitmap);
    assert(x.sdram_io_width_bitmap == y.sdram_io_width_bitmap);
}

impl Default for MemDfeSearchElementHeader12 {
    fn default() -> (r: Self)
        ensures
            r.spec_total_size() == 12,
            r.spec__reserved() == 0,
            r.spec_dimm_slots_per_channel() == 1,
            r.spec_dimm0_rank_bitmap() == 2,
            r.spec_dimm1_rank_bitmap() == 1,
            r.spec_sdram_io_width_bitmap() == 255,
    {
        MemDfeSearchElementHeader12 { total_size: 12, _reserved: 0, dimm_slots_per_channel: 1, dimm0_rank_bitmap: 2, dimm1_rank_bitmap: 1, sdram_io_width_bitmap: 255 }
    }
}

/// The transmit-side search ranges of a decision feedback equalization search element
/// (tap 1: -40 to 40, tap 2: -15 to 15, tap 3: -12 to 12, tap 4: -8 to 8).
#[allow(non_camel_case_types)]
#[derive(Debug, Clone, Copy, PartialEq, Eq, Structural)]
pub struct MemDfeSearchElementPayload12 {
    pub(crate) total_size: u32,
    pub(crate) tx_dfe_tap_1_start: u8,
    pub(crate) tx_dfe_tap_1_end: u8,
    pub(crate) tx_dfe_tap_2_start: u8,
    pub(crate) tx_dfe_tap_2_end: u8,
    pub(crate) tx_dfe_tap_3_start: u8,
    pub(crate) tx_dfe_tap_3_end: u8,
    pub(crate) tx_dfe_tap_4_start: u8,
    pub(crate) tx_dfe_tap_4_end: u8,
}

impl MemDfeSearchElementPayload12 {
    pub closed spec fn spec_total_size(self) -> u32 {
        self.total_size
    }

    pub closed spec fn spec_tx_dfe_tap_1_start(self) -> u8 {
        self.tx_dfe_tap_1_start
    }

    pub closed spec fn spec_tx_dfe_tap_1_end(self) -> u8 {
        self.tx_dfe_tap_1_end
    }

    pub closed spec fn spec_tx_dfe_tap_2_start(self) -> u8 {
        self.tx_dfe_tap_2_start
    }

    pub closed spec fn spec_tx_dfe_tap_2_end(self) -> u8 {
        self.tx_dfe_tap_2_end
    }

    pub closed spec fn spec_tx_dfe_tap_3_start(self) -> u8 {
        self.tx_dfe_tap_3_start
    }

    pub closed spec fn spec_tx_dfe_tap_3_end(self) -> u8 {
        self.tx_dfe_tap_3_end
    }

    pub closed spec fn spec_tx_dfe_tap_4_start(self) -> u8 {
        self.tx_dfe_tap_4_start
    }

    pub closed spec fn spec_tx_dfe_tap_4_end(self) -> u8 {
        self.tx_dfe_tap_4_end
    }

}

impl MemDfeSearchElementPayload12 {
    /// The bytes that store this value on disk.
    pub closed spec fn spec_bytes(self) -> Seq<u8> {
        spec_u32_to_le_bytes(self.total_size)
            + seq![self.tx_dfe_tap_1_start]
            + seq![self.tx_dfe_tap_1_end]
            + seq![self.tx_dfe_tap_2_start]
            + seq![self.tx_dfe_tap_2_end]
            + seq![self.tx_dfe_tap_3_start]
            + seq![self.tx_dfe_tap_3_end]
            + seq![self.tx_dfe_tap_4_start]
            + seq![self.tx_dfe_tap_4_end]
    }
}

impl ByteLayout for MemDfeSearchElementPayload12 {
    open spec fn spec_size() -> nat {
        12
    }

    open spec fn spec_to_bytes(self) -> Seq<u8> {
        self.spec_bytes()
    }

    fn size() -> (r: usize) {
        12
    }

    #[verifier::spinoff_prover]
    fn from_bytes(bytes: &[u8]) -> (r: Self) {
        let total_size: u32 = u32_from_le_bytes(slice_subrange(bytes, 0, 4));
        let tx_dfe_tap_1_start: u8 = bytes[4];
        let tx_dfe_tap_1_end: u8 = bytes[5];
        let tx_dfe_tap_2_start: u8 = bytes[6];
        let tx_dfe_tap_2_end: u8 = bytes[7];
        let tx_dfe_tap_3_start: u8 = bytes[8];
        let tx_dfe_tap_3_end: u8 = bytes[9];
        let tx_dfe_tap_4_start: u8 = bytes[10];
        let tx_dfe_tap_4_end: u8 = bytes[11];
        let r = MemDfeSearchElementPayload12 { total_size, tx_dfe_tap_1_start, tx_dfe_tap_1_end, tx_dfe_tap_2_start, tx_dfe_tap_2_end, tx_dfe_tap_3_start, tx_dfe_tap_3_end, tx_dfe_tap_4_start, tx_dfe_tap_4_end };
        proof {
            lemma_auto_spec_u16_to_from_le_bytes();
            lemma_auto_spec_u32_to_from_le_bytes();
            lemma_auto_spec_u64_to_from_le_bytes();
            lemma_mem_dfe_search_element_payload12_bytes_pieces(r);
            assert(bytes@.subrange(0, 4) == spec_u32_to_le_bytes(total_size));
            assert(bytes@.subrange(0, 5) =~= bytes@.subrange(0, 4) + bytes@.subrange(4, 5));
            assert(bytes@.subrange(0, 6) =~= bytes@.subrange(0, 5) + bytes@.subrange(5, 6));
            assert(bytes@.subrange(0, 7) =~= bytes@.subrange(0, 6) + bytes@.subrange(6, 7));
            assert(bytes@.subrange(0, 8) =~= bytes@.subrange(0, 7) + bytes@.subrange(7, 8));
            assert(bytes@.subrange(0, 9) =~= bytes@.subrange(0, 8) + bytes@.subrange(8, 9));
            assert(bytes@.subrange(0, 10) =~= bytes@.subrange(0, 9) + bytes@.subrange(9, 10));
            assert(bytes@.subrange(0, 11) =~= bytes@.subrange(0, 10) + bytes@.subrange(10, 11));
            assert(bytes@.subrange(0, 12) =~= bytes@.subrange(0, 11) + bytes@.subrange(11, 12));
            assert(bytes@.subrange(0, 12) =~= bytes@);
            assert(bytes@ == r.spec_bytes());
        }
        r
    }

    #[verifier::spinoff_prover]
    fn to_bytes(&self) -> (r: Vec<u8>) {
        let mut out: Vec<u8> = Vec::new();
        append_bytes(&mut out, &le_bytes_u32(self.total_size));
        out.push(self.tx_dfe_tap_1_start);
        out.push(self.tx_dfe_tap_1_end);
        out.push(self.tx_dfe_tap_2_start);
        out.push(self.tx_dfe_tap_2_end);
        out.push(self.tx_dfe_tap_3_start);
        out.push(self.tx_dfe_tap_3_end);
        out.push(self.tx_dfe_tap_4_start);
        out.push(self.tx_dfe_tap_4_end);
        proof {
            lemma_mem_dfe_search_element_payload12_bytes_pieces(*self);
        }
        out
    }
}

/// How the bytes of a MemDfeSearchElementPayload12 split up into its fields.
pub proof fn lemma_mem_dfe_search_element_payload12_bytes_pieces(x: MemDfeSearchElementPayload12)
    ensures
        x.spec_bytes().len() == 12,
        x.spec_bytes().subrange(0, 4) == spec_u32_to_le_bytes(x.spec_total_size()),
        x.spec_bytes()[4] == x.spec_tx_dfe_tap_1_start(),
        x.spec_bytes()[5] == x.spec_tx_dfe_tap_1_end(),
        x.spec_bytes()[6] == x.spec_tx_dfe_tap_2_start(),
        x.spec_bytes()[7] == x.spec_tx_dfe_tap_2_end(),
        x.spec_bytes()[8] == x.spec_tx_dfe_tap_3_start(),
        x.spec_bytes()[9] == x.spec_tx_dfe_tap_3_end(),
        x.spec_bytes()[10] == x.spec_tx_dfe_tap_4_start(),
        x.spec_bytes()[11] == x.spec_tx_dfe_tap_4_end(),
{
    lemma_auto_spec_u16_to_from_le_bytes();
    lemma_auto_spec_u32_to_from_le_bytes();
    lemma_auto_spec_u64_to_from_le_bytes();
    assert(x.spec_bytes().subrange(0, 4) == spec_u32_to_le_bytes(x.total_size));
}

/// Two values of MemDfeSearchElementPayload12 with the same bytes are the same value.
#[verifier::spinoff_prover]
pub proof fn lemma_mem_dfe_search_element_payload12_bytes_injective(x: MemDfeSearchElementPayload12, y: MemDfeSearchElementPayload12)
    requires
        x.spec_bytes() == y.spec_bytes(),
    ensures
        x == y,
{
    lemma_mem_dfe_search_element_payload12_bytes_pieces(x);
    lemma_mem_dfe_search_element_payload12_bytes_pieces(y);
    lemma_auto_spec_u16_to_from_le_bytes();
    lemma_auto_spec_u32_to_from_le_bytes();
    lemma_auto_spec_u64_to_from_le_bytes();
    assert(spec_u32_from_le_bytes(spec_u32_to_le_bytes(x.total_size)) == spec_u32_from_le_bytes(spec_u32_to_le_bytes(y.total_size)));
    assert(x.tx_dfe_tap_1_start == y.tx_dfe_tap_1_start);
    assert(x.tx_dfe_tap_1_end == y.tx_dfe_tap_1_end);
    assert(x.tx_dfe_tap_2_start == y.tx_dfe_tap_2_start);
    assert(x.tx_dfe_tap_2_end == y.tx_dfe_tap_2_end);
    assert(x.tx_dfe_tap_3_start == y.tx_dfe_tap_3_start);
    assert(x.tx_dfe_tap_3_end == y.tx_dfe_tap_3_end);
    assert(x.tx_dfe_tap_4_start == y.tx_dfe_tap_4_start);
    assert(x.tx_dfe_tap_4_end == y.tx_dfe_tap_4_end);
}

impl Default for MemDfeSearchElementPayload12 {
    fn default() -> (r: Self)
        ensures
            r.spec_total_size() == 12,
            r.spec_tx_dfe_tap_1_start() == 0,
            r.spec_tx_dfe_tap_1_end() == 24,
            r.spec_tx_dfe_tap_2_start() == 0,
            r.spec_tx_dfe_tap_2_end() == 0,
            r.spec_tx_dfe_tap_3_start() == 0,
            r.spec_tx_dfe_tap_3_end() == 0,
            r.spec_tx_dfe_tap_4_start() == 0,
            r.spec_tx_dfe_tap_4_end() == 0,
    {
        MemDfeSearchElementPayload12 { total_size: 12, tx_dfe_tap_1_start: 0, tx_dfe_tap_1_end: 24, tx_dfe_tap_2_start: 0, tx_dfe_tap_2_end: 0, tx_dfe_tap_3_start: 0, tx_dfe_tap_3_end: 0, tx_dfe_tap_4_start: 0, tx_dfe_tap_4_end: 0 }
    }
}

/// The receive-side search limits (in mV; each a signed byte, stored as its two's complement)
/// of a decision feedback equalization search element.
#[allow(non_camel_case_types)]
#[derive(Debug, Clone, Copy, PartialEq, Eq, Structural)]
pub struct MemDfeSearchElementPayloadExt12 {
    pub(crate) total_size: u32,
    pub(crate) rx_dfe_tap_2_min_mv: u8,
    pub(crate) rx_dfe_tap_2_max_mv: u8,
    pub(crate) rx_dfe_tap_3_min_mv: u8,
    pub(crate) rx_dfe_tap_3_max_mv: u8,
    pub(crate) rx_dfe_tap_4_min_mv: u8,
    pub(crate) rx_dfe_tap_4_max_mv: u8,
    pub(crate) _reserved_1: u8,
    pub(crate) _reserved_2: u8,
}

impl MemDfeSearchElementPayloadExt12 {
    pub closed spec fn spec_total_size(self) -> u32 {
        self.total_size
    }

    pub closed spec fn spec_rx_dfe_tap_2_min_mv(self) -> u8 {
        self.rx_dfe_tap_2_min_mv
    }

    pub closed spec fn spec_rx_dfe_tap_2_max_mv(self) -> u8 {
        self.rx_dfe_tap_2_max_mv
    }

    pub closed spec fn spec_rx_dfe_tap_3_min_mv(self) -> u8 {
        self.rx_dfe_tap_3_min_mv
    }

    pub closed spec fn spec_rx_dfe_tap_3_max_mv(self) -> u8 {
        self.rx_dfe_tap_3_max_mv
    }

    pub closed spec fn spec_rx_dfe_tap_4_min_mv(self) -> u8 {
        self.rx_dfe_tap_4_min_mv
    }

    pub closed spec fn spec_rx_dfe_tap_4_max_mv(self) -> u8 {
        self.rx_dfe_tap_4_max_mv
    }

    pub closed spec fn spec__reserved_1(self) -> u8 {
        self._reserved_1
    }

    pub closed spec fn spec__reserved_2(self) -> u8 {
        self._reserved_2
    }

}

impl MemDfeSearchElementPayloadExt12 {
    /// The bytes that store this value on disk.
    pub closed spec fn spec_bytes(self) -> Seq<u8> {
        spec_u32_to_le_bytes(self.total_size)
            + seq![self.rx_dfe_tap_2_min_mv]
            + seq![self.rx_dfe_tap_2_max_mv]
            + seq![self.rx_dfe_tap_3_min_mv]
            + seq![self.rx_dfe_tap_3_max_mv]
            + seq![self.rx_dfe_tap_4_min_mv]
            + seq![self.rx_dfe_tap_4_max_mv]
            + seq![self._reserved_1]
            + seq![self._reserved_2]
    }
}

impl ByteLayout for MemDfeSearchElementPayloadExt12 {
    open spec fn spec_size() -> nat {
        12
    }

    open spec fn spec_to_bytes(self) -> Seq<u8> {
        self.spec_bytes()
    }

    fn size() -> (r: usize) {
        12
    }

    #[verifier::spinoff_prover]
    fn from_bytes(bytes: &[u8]) -> (r: Self) {
        let total_size: u32 = u32_from_le_bytes(slice_subrange(bytes, 0, 4));
        let rx_dfe_tap_2_min_mv: u8 = bytes[4];
        let rx_dfe_tap_2_max_mv: u8 = bytes[5];
        let rx_dfe_tap_3_min_mv: u8 = bytes[6];
        let rx_dfe_tap_3_max_mv: u8 = bytes[7];
        let rx_dfe_tap_4_min_mv: u8 = bytes[8];
        let rx_dfe_tap_4_max_mv: u8 = bytes[9];
        let _reserved_1: u8 = bytes[10];
        let _reserved_2: u8 = bytes[11];
        let r = MemDfeSearchElementPayloadExt12 { total_size, rx_dfe_tap_2_min_mv, rx_dfe_tap_2_max_mv, rx_dfe_tap_3_min_mv, rx_dfe_tap_3_max_mv, rx_dfe_tap_4_min_mv, rx_dfe_tap_4_max_mv, _reserved_1, _reserved_2 };
        proof {
            lemma_auto_spec_u16_to_from_le_bytes();
            lemma_auto_spec_u32_to_from_le_bytes();
            lemma_auto_spec_u64_to_from_le_bytes();
            lemma_mem_dfe_search_element_payload_ext12_bytes_pieces(r);
            assert(bytes@.subrange(0, 4) == spec_u32_to_le_bytes(total_size));
            assert(bytes@.subrange(0, 5) =~= bytes@.subrange(0, 4) + bytes@.subrange(4, 5));
            assert(bytes@.subrange(0, 6) =~= bytes@.subrange(0, 5) + bytes@.subrange(5, 6));
            assert(bytes@.subrange(0, 7) =~= bytes@.subrange(0, 6) + bytes@.subrange(6, 7));
            assert(bytes@.subrange(0, 8) =~= bytes@.subrange(0, 7) + bytes@.subrange(7, 8));
            assert(bytes@.subrange(0, 9) =~= bytes@.subrange(0, 8) + bytes@.subrange(8, 9));
            assert(bytes@.subrange(0, 10) =~= bytes@.subrange(0, 9) + bytes@.subrange(9, 10));
            assert(bytes@.subrange(0, 11) =~= bytes@.subrange(0, 10) + bytes@.subrange(10, 11));
            assert(bytes@.subrange(0, 12) =~= bytes@.subrange(0, 11) + bytes@.subrange(11, 12));
            assert(bytes@.subrange(0, 12) =~= bytes@);
            assert(bytes@ == r.spec_bytes());
        }
        r
    }

    #[verifier::spinoff_prover]
    fn to_bytes(&self) -> (r: Vec<u8>) {
        let mut out: Vec<u8> = Vec::new();
        append_bytes(&mut out, &le_bytes_u32(self.total_size));
        out.push(self.rx_dfe_tap_2_min_mv);
        out.push(self.rx_dfe_tap_2_max_mv);
        out.push(self.rx_dfe_tap_3_min_mv);
        out.push(self.rx_dfe_tap_3_max_mv);
        out.push(self.rx_dfe_tap_4_min_mv);
        out.push(self.rx_dfe_tap_4_max_mv);
        out.push(self._reserved_1);
        out.push(self._reserved_2);
        proof {
            lemma_mem_dfe_search_element_payload_ext12_bytes_pieces(*self);
        }
        out
    }
}

/// How the bytes of a MemDfeSearchElementPayloadExt12 split up into its fields.
pub proof fn lemma_mem_dfe_search_element_payload_ext12_bytes_pieces(x: MemDfeSearchElementPayloadExt12)
    ensures
        x.spec_bytes().len() == 12,
        x.spec_bytes().subrange(0, 4) == spec_u32_to_le_bytes(x.spec_total_size()),
        x.spec_bytes()[4] == x.spec_rx_dfe_tap_2_min_mv(),
        x.spec_bytes()[5] == x.spec_rx_dfe_tap_2_max_mv(),
        x.spec_bytes()[6] == x.spec_rx_dfe_tap_3_min_mv(),
        x.spec_bytes()[7] == x.spec_rx_dfe_tap_3_max_mv(),
        x.spec_bytes()[8] == x.spec_rx_dfe_tap_4_min_mv(),
        x.spec_bytes()[9] == x.spec_rx_dfe_tap_4_max_mv(),
        x.spec_bytes()[10] == x.spec__reserved_1(),
        x.spec_bytes()[11] == x.spec__reserved_2(),
{
    lemma_auto_spec_u16_to_from_le_bytes();
    lemma_auto_spec_u32_to_from_le_bytes();
    lemma_auto_spec_u64_to_from_le_bytes();
    assert(x.spec_bytes().subrange(0, 4) == spec_u32_to_le_bytes(x.total_size));
}

/// Two values of MemDfeSearchElementPayloadExt12 with the same bytes are the same value.
#[verifier::spinoff_prover]
pub proof fn lemma_mem_dfe_search_element_payload_ext12_bytes_injective(x: MemDfeSearchElementPayloadExt12, y: MemDfeSearchElementPayloadExt12)
    requires
        x.spec_bytes() == y.spec_bytes(),
    ensures
        x == y,
{
    lemma_mem_dfe_search_element_payload_ext12_bytes_pieces(x);
    lemma_mem_dfe_search_element_payload_ext12_bytes_pieces(y);
    lemma_auto_spec_u16_to_from_le_bytes();
    lemma_auto_spec_u32_to_from_le_bytes();
    lemma_auto_spec_u64_to_from_le_bytes();
    assert(spec_u32_from_le_bytes(spec_u32_to_le_bytes(x.total_size)) == spec_u32_from_le_bytes(spec_u32_to_le_bytes(y.total_size)));
    assert(x.rx_dfe_tap_2_min_mv == y.rx_dfe_tap_2_min_mv);
    assert(x.rx_dfe_tap_2_max_mv == y.rx_dfe_tap_2_max_mv);
    assert(x.rx_dfe_tap_3_min_mv == y.rx_dfe_tap_3_min_mv);
    assert(x.rx_dfe_tap_3_max_mv == y.rx_dfe_tap_3_max_mv);
    assert(x.rx_dfe_tap_4_min_mv == y.rx_dfe_tap_4_min_mv);
    assert(x.rx_dfe_tap_4_max_mv == y.rx_dfe_tap_4_max_mv);
    assert(x._reserved_1 == y._reserved_1);
    assert(x._reserved_2 == y._reserved_2);
}

impl Default for MemDfeSearchElementPayloadExt12 {
    fn default() -> (r: Self)
        ensures
            r.spec_total_size() == 12,
            r.spec_rx_dfe_tap_2_min_mv() == 0,
            r.spec_rx_dfe_tap_2_max_mv() == 0,
            r.spec_rx_dfe_tap_3_min_mv() == 0,
            r.spec_rx_dfe_tap_3_max_mv() == 0,
            r.spec_rx_dfe_tap_4_min_mv() == 0,
            r.spec_rx_dfe_tap_4_max_mv() == 0,
            r.spec__reserved_1() == 0,
            r.spec__reserved_2() == 0,
    {
        MemDfeSearchElementPayloadExt12 { total_size: 12, rx_dfe_tap_2_min_mv: 0, rx_dfe_tap_2_max_mv: 0, rx_dfe_tap_3_min_mv: 0, rx_dfe_tap_3_max_mv: 0, rx_dfe_tap_4_min_mv: 0, rx_dfe_tap_4_max_mv: 0, _reserved_1: 0, _reserved_2: 0 }
    }
}

/// A decision feedback equalization search element: header, transmit and receive settings.
#[allow(non_camel_case_types)]
#[derive(Debug, Clone, Copy)]
pub struct MemDfeSearchElement36 {
    pub(crate) header: MemDfeSearchElementHeader12,
    pub(crate) payload: MemDfeSearchElementPayload12,
    pub(crate) payload_ext: MemDfeSearchElementPayloadExt12,
}

impl MemDfeSearchElement36 {
    pub closed spec fn spec_header(self) -> MemDfeSearchElementHeader12 {
        self.header
    }

    pub closed spec fn spec_payload(self) -> MemDfeSearchElementPayload12 {
        self.payload
    }

    pub closed spec fn spec_payload_ext(self) -> MemDfeSearchElementPayloadExt12 {
        self.payload_ext
    }

}

impl MemDfeSearchElement36 {
    /// The bytes that store this value on disk.
    pub closed spec fn spec_bytes(self) -> Seq<u8> {
        self.header.spec_to_bytes()
            + self.payload.spec_to_bytes()
            + self.payload_ext.spec_to_bytes()
    }
}

impl ByteLayout for MemDfeSearchElement36 {
    open spec fn spec_size() -> nat {
        36
    }

    open spec fn spec_to_bytes(self) -> Seq<u8> {
        self.spec_bytes()
    }

    fn size() -> (r: usize) {
        36
    }

    #[verifier::spinoff_prover]
    #[verifier::rlimit(60)]
    fn from_bytes(bytes: &[u8]) -> (r: Self) {
        let header: MemDfeSearchElementHeader12 = MemDfeSearchElementHeader12::from_bytes(slice_subrange(bytes, 0, 12));
        let payload: MemDfeSearchElementPayload12 = MemDfeSearchElementPayload12::from_bytes(slice_subrange(bytes, 12, 24));
        let payload_ext: MemDfeSearchElementPayloadExt12 = MemDfeSearchElementPayloadExt12::from_bytes(slice_subrange(bytes, 24, 36));
        let r = MemDfeSearchElement36 { header, payload, payload_ext };
        proof {
            lemma_auto_spec_u16_to_from_le_bytes();
            lemma_auto_spec_u32_to_from_le_bytes();
            lemma_auto_spec_u64_to_from_le_bytes();
            lemma_mem_dfe_search_element36_bytes_pieces(r);
            assert(bytes@.subrange(0, 12) == header.spec_to_bytes());
            assert(bytes@.subrange(12, 24) == payload.spec_to_bytes());
            assert(bytes@.subrange(24, 36) == payload_ext.spec_to_bytes());
            assert(bytes@.subrange(0, 24) =~= bytes@.subrange(0, 12) + bytes@.subrange(12, 24));
            assert(bytes@.subrange(0, 36) =~= bytes@.subrange(0, 24) + bytes@.subrange(24, 36));
            assert(bytes@.subrange(0, 36) =~= bytes@);
            assert(bytes@ == r.spec_bytes());
        }
        r
    }

    #[verifier::spinoff_prover]
    #[verifier::rlimit(60)]
    fn to_bytes(&self) -> (r: Vec<u8>) {
        let mut out: Vec<u8> = Vec::new();
        let part = self.header.to_bytes();
        append_bytes(&mut out, part.as_slice());
        let part = self.payload.to_bytes();
        append_bytes(&mut out, part.as_slice());
        let part = self.payload_ext.to_bytes();
        append_bytes(&mut out, part.as_slice());
        proof {
            lemma_mem_dfe_search_element36_bytes_pieces(*self);
        }
        out
    }
}

/// How the bytes of a MemDfeSearchElement36 split up into its fields.
pub proof fn lemma_mem_dfe_search_element36_bytes_pieces(x: MemDfeSearchElement36)
    ensures
        x.spec_bytes().len() == 36,
        x.spec_bytes().subrange(0, 12) == x.spec_header().spec_to_bytes(),
        x.spec_bytes().subrange(12, 24) == x.spec_payload().spec_to_bytes(),
        x.spec_bytes().subrange(24, 36) == x.spec_payload_ext().spec_to_bytes(),
{
    lemma_auto_spec_u16_to_from_le_bytes();
    lemma_auto_spec_u32_to_from_le_bytes();
    lemma_auto_spec_u64_to_from_le_bytes();
    lemma_mem_dfe_search_element_header12_bytes_pieces(x.header);
    lemma_mem_dfe_search_element_payload12_bytes_pieces(x.payload);
    lemma_mem_dfe_search_element_payload_ext12_bytes_pieces(x.payload_ext);
    assert(x.spec_bytes().subrange(0, 12) == x.header.spec_to_bytes());
    assert(x.spec_bytes().subrange(12, 24) == x.payload.spec_to_bytes());
    assert(x.spec_bytes().subrange(24, 36) == x.payload_ext.spec_to_bytes());
}

/// Two values of MemDfeSearchElement36 with the same bytes are the same value.
#[verifier::spinoff_prover]
#[verifier::rlimit(60)]
pub proof fn lemma_mem_dfe_search_element36_bytes_injective(x: MemDfeSearchElement36, y: MemDfeSearchElement36)
    requires
        x.spec_bytes() == y.spec_bytes(),
    ensures
        x == y,
{
    lemma_mem_dfe_search_element36_bytes_pieces(x);
    lemma_mem_dfe_search_element36_bytes_pieces(y);
    lemma_auto_spec_u16_to_from_le_bytes();
    lemma_auto_spec_u32_to_from_le_bytes();
    lemma_auto_spec_u64_to_from_le_bytes();
    lemma_mem_dfe_search_element_header12_bytes_injective(x.header, y.header);
    lemma_mem_dfe_search_element_payload12_bytes_injective(x.payload, y.payload);
    lemma_mem_dfe_search_element_payload_ext12_bytes_injective(x.payload_ext, y.payload_ext);
}

impl Default for MemDfeSearchElement36 {
    fn default() -> (r: Self)
        ensures
            r.spec_header().spec_total_size() == 12,
            r.spec_header().spec__reserved() == 0,
            r.spec_header().spec_dimm_slots_per_channel() == 1,
            r.spec_header().spec_dimm0_rank_bitmap() == 2,
            r.spec_header().spec_dimm1_rank_bitmap() == 1,
            r.spec_header().spec_sdram_io_width_bitmap() == 255,
            r.spec_payload().spec_total_size() == 12,
            r.spec_payload().spec_tx_dfe_tap_1_start() == 0,
            r.spec_payload().spec_tx_dfe_tap_1_end() == 24,
            r.spec_payload().spec_tx_dfe_tap_2_start() == 0,
            r.spec_payload().spec_tx_dfe_tap_2_end() == 0,
            r.spec_payload().spec_tx_dfe_tap_3_start() == 0,
            r.spec_payload().spec_tx_dfe_tap_3_end() == 0,
            r.spec_payload().spec_tx_dfe_tap_4_start() == 0,
            r.spec_payload().spec_tx_dfe_tap_4_end() == 0,
            r.spec_payload_ext().spec_total_size() == 12,
            r.spec_payload_ext().spec_rx_dfe_tap_2_min_mv() == 0,
            r.spec_payload_ext().spec_rx_dfe_tap_2_max_mv() == 0,
            r.spec_payload_ext().spec_rx_dfe_tap_3_min_mv() == 0,
            r.spec_payload_ext().spec_rx_dfe_tap_3_max_mv() == 0,
            r.spec_payload_ext().spec_rx_dfe_tap_4_min_mv() == 0,
            r.spec_payload_ext().spec_rx_dfe_tap_4_max_mv() == 0,
            r.spec_payload_ext().spec__reserved_1() == 0,
            r.spec_payload_ext().spec__reserved_2() == 0,
    {
        MemDfeSearchElement36 { header: MemDfeSearchElementHeader12::default(), payload: MemDfeSearchElementPayload12::default(), payload_ext: MemDfeSearchElementPayloadExt12::default() }
    }
}

impl EntryCompatible for MemDfeSearchElement36 {
    fn is_entry_compatible(entry_id: EntryId, _prefix: &[u8]) -> (r: bool)
        ensures
            r == (entry_id == EntryId::Memory(MemoryEntryId::MemDfeSearch)),
    {
        matches!(entry_id, EntryId::Memory(MemoryEntryId::MemDfeSearch))
    }
}

/// A decision feedback equalization search element: header, transmit and receive settings.
#[allow(non_camel_case_types)]
#[derive(Debug, Clone, Copy)]
pub struct MemDfeSearchElement32 {
    pub(crate) header: MemDfeSearchElementHeader,
    pub(crate) payload: MemDfeSearchElementPayload12,
    pub(crate) payload_ext: MemDfeSearchElementPayloadExt12,
}

impl MemDfeSearchElement32 {
    pub closed spec fn spec_header(self) -> MemDfeSearchElementHeader {
        self.header
    }

    pub closed spec fn spec_payload(self) -> MemDfeSearchElementPayload12 {
        self.payload
    }

    pub closed spec fn spec_payload_ext(self) -> MemDfeSearchElementPayloadExt12 {
        self.payload_ext
    }

}

impl MemDfeSearchElement32 {
    /// The bytes that store this value on disk.
    pub closed spec fn spec_bytes(self) -> Seq<u8> {
        self.header.spec_to_bytes()
            + self.payload.spec_to_bytes()
            + self.payload_ext.spec_to_bytes()
    }
}

impl ByteLayout for MemDfeSearchElement32 {
    open spec fn spec_size() -> nat {
        32
    }

    open spec fn spec_to_bytes(self) -> Seq<u8> {
        self.spec_bytes()
    }

    fn size() -> (r: usize) {
        32
    }

    #[verifier::spinoff_prover]
    fn from_bytes(bytes: &[u8]) -> (r: Self) {
        let header: MemDfeSearchElementHeader = MemDfeSearchElementHeader::from_bytes(slice_subrange(bytes, 0, 8));
        let payload: MemDfeSearchElementPayload12 = MemDfeSearchElementPayload12::from_bytes(slice_subrange(bytes, 8, 20));
        let payload_ext: MemDfeSearchElementPayloadExt12 = MemDfeSearchElementPayloadExt12::from_bytes(slice_subrange(bytes, 20, 32));
        let r = MemDfeSearchElement32 { header, payload, payload_ext };
        proof {
            lemma_auto_spec_u16_to_from_le_bytes();
            lemma_auto_spec_u32_to_from_le_bytes();
            lemma_auto_spec_u64_to_from_le_bytes();
            lemma_mem_dfe_search_element32_bytes_pieces(r);
            assert(bytes@.subrange(0, 8) == header.spec_to_bytes());
            assert(bytes@.subrange(8, 20) == payload.spec_to_bytes());
            assert(bytes@.subrange(20, 32) == payload_ext.spec_to_bytes());
            assert(bytes@.subrange(0, 20) =~= bytes@.subrange(0, 8) + bytes@.subrange(8, 20));
            assert(bytes@.subrange(0, 32) =~= bytes@.subrange(0, 20) + bytes@.subrange(20, 32));
            assert(bytes@.subrange(0, 32) =~= bytes@);
            assert(bytes@ == r.spec_bytes());
        }
        r
    }

    #[verifier::spinoff_prover]
    fn to_bytes(&self) -> (r: Vec<u8>) {
        let mut out: Vec<u8> = Vec::new();
        let part = self.header.to_bytes();
        append_bytes(&mut out, part.as_slice());
        let part = self.payload.to_bytes();
        append_bytes(&mut out, part.as_slice());
        let part = self.payload_ext.to_bytes();
        append_bytes(&mut out, part.as_slice());
        proof {
            lemma_mem_dfe_search_element32_bytes_pieces(*self);
        }
        out
    }
}

/// How the bytes of a MemDfeSearchElement32 split up into its fields.
pub proof fn lemma_mem_dfe_search_element32_bytes_pieces(x: MemDfeSearchElement32)
    ensures
        x.spec_bytes().len() == 32,
        x.spec_bytes().subrange(0, 8) == x.spec_header().spec_to_bytes(),
        x.spec_bytes().subrange(8, 20) == x.spec_payload().spec_to_bytes(),
        x.spec_bytes().subrange(20, 32) == x.spec_payload_ext().spec_to_bytes(),
{
    lemma_auto_spec_u16_to_from_le_bytes();
    lemma_auto_spec_u32_to_from_le_bytes();
    lemma_auto_spec_u64_to_from_le_bytes();
    lemma_mem_dfe_search_element_header_bytes_pieces(x.header);
    lemma_mem_dfe_search_element_payload12_bytes_pieces(x.payload);
    lemma_mem_dfe_search_element_payload_ext12_bytes_pieces(x.payload_ext);
    assert(x.spec_bytes().subrange(0, 8) == x.header.spec_to_bytes());
    assert(x.spec_bytes().subrange(8, 20) == x.payload.spec_to_bytes());
    assert(x.spec_bytes().subrange(20, 32) == x.payload_ext.spec_to_bytes());
}

/// Two values of MemDfeSearchElement32 with the same bytes are the same value.
#[verifier::spinoff_prover]
pub proof fn lemma_mem_dfe_search_element32_bytes_injective(x: MemDfeSearchElement32, y: MemDfeSearchElement32)
    requires
        x.spec_bytes() == y.spec_bytes(),
    ensures
        x == y,
{
    lemma_mem_dfe_search_element32_bytes_pieces(x);
    lemma_mem_dfe_search_element32_bytes_pieces(y);
    lemma_auto_spec_u16_to_from_le_bytes();
    lemma_auto_spec_u32_to_from_le_bytes();
    lemma_auto_spec_u64_to_from_le_bytes();
    lemma_mem_dfe_search_element_header_bytes_injective(x.header, y.header);
    lemma_mem_dfe_search_element_payload12_bytes_injective(x.payload, y.payload);
    lemma_mem_dfe_search_element_payload_ext12_bytes_injective(x.payload_ext, y.payload_ext);
}

impl Default for MemDfeSearchElement32 {
    fn default() -> (r: Self)
        ensures
            r.spec_header().spec_total_size() == 8,
            r.spec_header().spec_dimm_slots_per_channel() == 1,
            r.spec_header().spec_dimm0_rank_bitmap() == 2,
            r.spec_header().spec_dimm1_rank_bitmap() == 1,
            r.spec_header().spec_sdram_io_width_bitmap() == 255,
            r.spec_payload().spec_total_size() == 12,
            r.spec_payload().spec_tx_dfe_tap_1_start() == 0,
            r.spec_payload().spec_tx_dfe_tap_1_end() == 24,
            r.spec_payload().spec_tx_dfe_tap_2_start() == 0,
            r.spec_payload().spec_tx_dfe_tap_2_end() == 0,
            r.spec_payload().spec_tx_dfe_tap_3_start() == 0,
            r.spec_payload().spec_tx_dfe_tap_3_end() == 0,
            r.spec_payload().spec_tx_dfe_tap_4_start() == 0,
            r.spec_payload().spec_tx_dfe_tap_4_end() == 0,
            r.spec_payload_ext().spec_total_size() == 12,
            r.spec_payload_ext().spec_rx_dfe_tap_2_min_mv() == 0,
            r.spec_payload_ext().spec_rx_dfe_tap_2_max_mv() == 0,
            r.spec_payload_ext().spec_rx_dfe_tap_3_min_mv() == 0,
            r.spec_payload_ext().spec_rx_dfe_tap_3_max_mv() == 0,
            r.spec_payload_ext().spec_rx_dfe_tap_4_min_mv() == 0,
            r.spec_payload_ext().spec_rx_dfe_tap_4_max_mv() == 0,
            r.spec_payload_ext().spec__reserved_1() == 0,
            r.spec_payload_ext().spec__reserved_2() == 0,
    {
        MemDfeSearchElement32 { header: MemDfeSearchElementHeader::default(), payload: MemDfeSearchElementPayload12::default(), payload_ext: MemDfeSearchElementPayloadExt12::default() }
    }
}

impl EntryCompatible for MemDfeSearchElement32 {
    fn is_entry_compatible(entry_id: EntryId, _prefix: &[u8]) -> (r: bool)
        ensures
            r == (entry_id == EntryId::Memory(MemoryEntryId::MemDfeSearch)),
    {
        matches!(entry_id, EntryId::Memory(MemoryEntryId::MemDfeSearch))
    }
}

/// A memory clock frequency: the actual 1/T, so that DDR400 has 200.
#[derive(Debug, PartialEq, Eq, Clone, Copy, Structural)]
pub enum DdrSpeed {
    Ddr400,
    Ddr533,
    Ddr667,
    Ddr800,
    Ddr1066,
    Ddr1333,
    Ddr1600,
    Ddr1866,
    Ddr2100,
    Ddr2133,
    Ddr2400,
    Ddr2667,
    Ddr2733,
    Ddr2800,
    Ddr2867,
    Ddr2933,
    Ddr3000,
    Ddr3067,
    Ddr3133,
    Ddr3200,
    Ddr3267,
    Ddr3333,
    Ddr3400,
    Ddr3467,
    Ddr3533,
    Ddr3600,
    Ddr3667,
    Ddr3733,
    Ddr3800,
    Ddr3867,
    Ddr3933,
    Ddr4000,
    Ddr4066,
    Ddr4134,
    Ddr4200,
    Ddr4266,
    Ddr4334,
    Ddr4400,
    Ddr4466,
    Ddr4534,
    Ddr4600,
    Ddr4666,
    Ddr4734,
    Ddr4800,
    Ddr4866,
    Ddr4934,
    Ddr5000,
    Ddr5100,
    Ddr5200,
    Ddr5300,
    Ddr5400,
    Ddr5500,
    Ddr5600,
    Ddr5700,
    Ddr5800,
    Ddr5900,
    Ddr6000,
    Ddr6100,
    Ddr6200,
    Ddr6300,
    Ddr6400,
    Ddr6500,
    Ddr6600,
    Ddr6700,
    Ddr6800,
    Ddr6900,
    Ddr7000,
    Ddr7100,
    Ddr7200,
    Ddr7300,
    Ddr7400,
    Ddr7500,
    Ddr7600,
    Ddr7700,
    Ddr7800,
    Ddr7900,
    Ddr8000,
    Ddr8100,
    Ddr8200,
    Ddr8300,
    Ddr8400,
    Ddr8500,
    Ddr8600,
    Ddr8700,
    Ddr8800,
    UnsupportedRome,
    UnsupportedMilan,
}

impl DdrSpeed {
    /// The number that stands for this value.
    pub open spec fn spec_to_u64(self) -> u64 {
        match self {
            DdrSpeed::Ddr400 => 0xc8,
            DdrSpeed::Ddr533 => 0x10a,
            DdrSpeed::Ddr667 => 0x14d,
            DdrSpeed::Ddr800 => 0x190,
            DdrSpeed::Ddr1066 => 0x215,
            DdrSpeed::Ddr1333 => 0x29b,
            DdrSpeed::Ddr1600 => 0x320,
            DdrSpeed::Ddr1866 => 0x3a5,
            DdrSpeed::Ddr2100 => 0x41a,
            DdrSpeed::Ddr2133 => 0x42b,
            DdrSpeed::Ddr2400 => 0x4b0,
            DdrSpeed::Ddr2667 => 0x535,
            DdrSpeed::Ddr2733 => 0x557,
            DdrSpeed::Ddr2800 => 0x578,
            DdrSpeed::Ddr2867 => 0x599,
            DdrSpeed::Ddr2933 => 0x5bb,
            DdrSpeed::Ddr3000 => 0x5dc,
            DdrSpeed::Ddr3067 => 0x5fd,
            DdrSpeed::Ddr3133 => 0x61f,
            DdrSpeed::Ddr3200 => 0x640,
            DdrSpeed::Ddr3267 => 0x661,
            DdrSpeed::Ddr3333 => 0x683,
            DdrSpeed::Ddr3400 => 0x6a4,
            DdrSpeed::Ddr3467 => 0x6c5,
            DdrSpeed::Ddr3533 => 0x6e7,
            DdrSpeed::Ddr3600 => 0x708,
            DdrSpeed::Ddr3667 => 0x729,
            DdrSpeed::Ddr3733 => 0x74b,
            DdrSpeed::Ddr3800 => 0x76c,
            DdrSpeed::Ddr3867 => 0x78d,
            DdrSpeed::Ddr3933 => 0x7af,
            DdrSpeed::Ddr4000 => 0x7d0,
            DdrSpeed::Ddr4066 => 0x7f1,
            DdrSpeed::Ddr4134 => 0x813,
            DdrSpeed::Ddr4200 => 0x834,
            DdrSpeed::Ddr4266 => 0x855,
            DdrSpeed::Ddr4334 => 0x877,
            DdrSpeed::Ddr4400 => 0x898,
            DdrSpeed::Ddr4466 => 0x8b9,
            DdrSpeed::Ddr4534 => 0x8db,
            DdrSpeed::Ddr4600 => 0x8fc,
            DdrSpeed::Ddr4666 => 0x91d,
            DdrSpeed::Ddr4734 => 0x93f,
            DdrSpeed::Ddr4800 => 0x960,
            DdrSpeed::Ddr4866 => 0x981,
            DdrSpeed::Ddr4934 => 0x9a3,
            DdrSpeed::Ddr5000 => 0x9c4,
            DdrSpeed::Ddr5100 => 0x9f6,
            DdrSpeed::Ddr5200 => 0xa28,
            DdrSpeed::Ddr5300 => 0xa5a,
            DdrSpeed::Ddr5400 => 0xa8c,
            DdrSpeed::Ddr5500 => 0xabe,
            DdrSpeed::Ddr5600 => 0xaf0,
            DdrSpeed::Ddr5700 => 0xb22,
            DdrSpeed::Ddr5800 => 0xb54,
            DdrSpeed::Ddr5900 => 0xb86,
            DdrSpeed::Ddr6000 => 0xbb8,
            DdrSpeed::Ddr6100 => 0xbea,
            DdrSpeed::Ddr6200 => 0xc1c,
            DdrSpeed::Ddr6300 => 0xc4e,
            DdrSpeed::Ddr6400 => 0xc80,
            DdrSpeed::Ddr6500 => 0xcb2,
            DdrSpeed::Ddr6600 => 0xce4,
            DdrSpeed::Ddr6700 => 0xd16,
            DdrSpeed::Ddr6800 => 0xd48,
            DdrSpeed::Ddr6900 => 0xd7a,
            DdrSpeed::Ddr7000 => 0xdac,
            DdrSpeed::Ddr7100 => 0xdde,
            DdrSpeed::Ddr7200 => 0xe10,
            DdrSpeed::Ddr7300 => 0xe42,
            DdrSpeed::Ddr7400 => 0xe74,
            DdrSpeed::Ddr7500 => 0xea6,
            DdrSpeed::Ddr7600 => 0xed8,
            DdrSpeed::Ddr7700 => 0xf0a,
            DdrSpeed::Ddr7800 => 0xf3c,
            DdrSpeed::Ddr7900 => 0xf6e,
            DdrSpeed::Ddr8000 => 0xfa0,
            DdrSpeed::Ddr8100 => 0xfd2,
            DdrSpeed::Ddr8200 => 0x1004,
            DdrSpeed::Ddr8300 => 0x1036,
            DdrSpeed::Ddr8400 => 0x1068,
            DdrSpeed::Ddr8500 => 0x109a,
            DdrSpeed::Ddr8600 => 0x10cc,
            DdrSpeed::Ddr8700 => 0x10fe,
            DdrSpeed::Ddr8800 => 0x1130,
            DdrSpeed::UnsupportedRome => 0x899,
            DdrSpeed::UnsupportedMilan => 0x1131,
        }
    }

    /// The value that VALUE stands for, if any.
    pub open spec fn spec_from_u64(value: u64) -> Option<DdrSpeed> {
        match value {
            0xc8 => Some(DdrSpeed::Ddr400),
            0x10a => Some(DdrSpeed::Ddr533),
            0x14d => Some(DdrSpeed::Ddr667),
            0x190 => Some(DdrSpeed::Ddr800),
            0x215 => Some(DdrSpeed::Ddr1066),
            0x29b => Some(DdrSpeed::Ddr1333),
            0x320 => Some(DdrSpeed::Ddr1600),
            0x3a5 => Some(DdrSpeed::Ddr1866),
            0x41a => Some(DdrSpeed::Ddr2100),
            0x42b => Some(DdrSpeed::Ddr2133),
            0x4b0 => Some(DdrSpeed::Ddr2400),
            0x535 => Some(DdrSpeed::Ddr2667),
            0x557 => Some(DdrSpeed::Ddr2733),
            0x578 => Some(DdrSpeed::Ddr2800),
            0x599 => Some(DdrSpeed::Ddr2867),
            0x5bb => Some(DdrSpeed::Ddr2933),
            0x5dc => Some(DdrSpeed::Ddr3000),
            0x5fd => Some(DdrSpeed::Ddr3067),
            0x61f => Some(DdrSpeed::Ddr3133),
            0x640 => Some(DdrSpeed::Ddr3200),
            0x661 => Some(DdrSpeed::Ddr3267),
            0x683 => Some(DdrSpeed::Ddr3333),
            0x6a4 => Some(DdrSpeed::Ddr3400),
            0x6c5 => Some(DdrSpeed::Ddr3467),
            0x6e7 => Some(DdrSpeed::Ddr3533),
            0x708 => Some(DdrSpeed::Ddr3600),
            0x729 => Some(DdrSpeed::Ddr3667),
            0x74b => Some(DdrSpeed::Ddr3733),
            0x76c => Some(DdrSpeed::Ddr3800),
            0x78d => Some(DdrSpeed::Ddr3867),
            0x7af => Some(DdrSpeed::Ddr3933),
            0x7d0 => Some(DdrSpeed::Ddr4000),
            0x7f1 => Some(DdrSpeed::Ddr4066),
            0x813 => Some(DdrSpeed::Ddr4134),
            0x834 => Some(DdrSpeed::Ddr4200),
            0x855 => Some(DdrSpeed::Ddr4266),
            0x877 => Some(DdrSpeed::Ddr4334),
            0x898 => Some(DdrSpeed::Ddr4400),
            0x8b9 => Some(DdrSpeed::Ddr4466),
            0x8db => Some(DdrSpeed::Ddr4534),
            0x8fc => Some(DdrSpeed::Ddr4600),
            0x91d => Some(DdrSpeed::Ddr4666),
            0x93f => Some(DdrSpeed::Ddr4734),
            0x960 => Some(DdrSpeed::Ddr4800),
            0x981 => Some(DdrSpeed::Ddr4866),
            0x9a3 => Some(DdrSpeed::Ddr4934),
            0x9c4 => Some(DdrSpeed::Ddr5000),
            0x9f6 => Some(DdrSpeed::Ddr5100),
            0xa28 => Some(DdrSpeed::Ddr5200),
            0xa5a => Some(DdrSpeed::Ddr5300),
            0xa8c => Some(DdrSpeed::Ddr5400),
            0xabe => Some(DdrSpeed::Ddr5500),
            0xaf0 => Some(DdrSpeed::Ddr5600),
            0xb22 => Some(DdrSpeed::Ddr5700),
            0xb54 => Some(DdrSpeed::Ddr5800),
            0xb86 => Some(DdrSpeed::Ddr5900),
            0xbb8 => Some(DdrSpeed::Ddr6000),
            0xbea => Some(DdrSpeed::Ddr6100),
            0xc1c => Some(DdrSpeed::Ddr6200),
            0xc4e => Some(DdrSpeed::Ddr6300),
            0xc80 => Some(DdrSpeed::Ddr6400),
            0xcb2 => Some(DdrSpeed::Ddr6500),
            0xce4 => Some(DdrSpeed::Ddr6600),
            0xd16 => Some(DdrSpeed::Ddr6700),
            0xd48 => Some(DdrSpeed::Ddr6800),
            0xd7a => Some(DdrSpeed::Ddr6900),
            0xdac => Some(DdrSpeed::Ddr7000),
            0xdde => Some(DdrSpeed::Ddr7100),
            0xe10 => Some(DdrSpeed::Ddr7200),
            0xe42 => Some(DdrSpeed::Ddr7300),
            0xe74 => Some(DdrSpeed::Ddr7400),
            0xea6 => Some(DdrSpeed::Ddr7500),
            0xed8 => Some(DdrSpeed::Ddr7600),
            0xf0a => Some(DdrSpeed::Ddr7700),
            0xf3c => Some(DdrSpeed::Ddr7800),
            0xf6e => Some(DdrSpeed::Ddr7900),
            0xfa0 => Some(DdrSpeed::Ddr8000),
            0xfd2 => Some(DdrSpeed::Ddr8100),
            0x1004 => Some(DdrSpeed::Ddr8200),
            0x1036 => Some(DdrSpeed::Ddr8300),
            0x1068 => Some(DdrSpeed::Ddr8400),
            0x109a => Some(DdrSpeed::Ddr8500),
            0x10cc => Some(DdrSpeed::Ddr8600),
            0x10fe => Some(DdrSpeed::Ddr8700),
            0x1130 => Some(DdrSpeed::Ddr8800),
            0x899 => Some(DdrSpeed::UnsupportedRome),
            0x1131 => Some(DdrSpeed::UnsupportedMilan),
            _ => None,
        }
    }

    pub fn from_u64(value: u64) -> (r: Option<DdrSpeed>)
        ensures
            r == DdrSpeed::spec_from_u64(value),
    {
        match value {
            0xc8 => Some(DdrSpeed::Ddr400),
            0x10a => Some(DdrSpeed::Ddr533),
            0x14d => Some(DdrSpeed::Ddr667),
            0x190 => Some(DdrSpeed::Ddr800),
            0x215 => Some(DdrSpeed::Ddr1066),
            0x29b => Some(DdrSpeed::Ddr1333),
            0x320 => Some(DdrSpeed::Ddr1600),
            0x3a5 => Some(DdrSpeed::Ddr1866),
            0x41a => Some(DdrSpeed::Ddr2100),
            0x42b => Some(DdrSpeed::Ddr2133),
            0x4b0 => Some(DdrSpeed::Ddr2400),
            0x535 => Some(DdrSpeed::Ddr2667),
            0x557 => Some(DdrSpeed::Ddr2733),
            0x578 => Some(DdrSpeed::Ddr2800),
            0x599 => Some(DdrSpeed::Ddr2867),
            0x5bb => Some(DdrSpeed::Ddr2933),
            0x5dc => Some(DdrSpeed::Ddr3000),
            0x5fd => Some(DdrSpeed::Ddr3067),
            0x61f => Some(DdrSpeed::Ddr3133),
            0x640 => Some(DdrSpeed::Ddr3200),
            0x661 => Some(DdrSpeed::Ddr3267),
            0x683 => Some(DdrSpeed::Ddr3333),
            0x6a4 => Some(DdrSpeed::Ddr3400),
            0x6c5 => Some(DdrSpeed::Ddr3467),
            0x6e7 => Some(DdrSpeed::Ddr3533),
            0x708 => Some(DdrSpeed::Ddr3600),
            0x729 => Some(DdrSpeed::Ddr3667),
            0x74b => Some(DdrSpeed::Ddr3733),
            0x76c => Some(DdrSpeed::Ddr3800),
            0x78d => Some(DdrSpeed::Ddr3867),
            0x7af => Some(DdrSpeed::Ddr3933),
            0x7d0 => Some(DdrSpeed::Ddr4000),
            0x7f1 => Some(DdrSpeed::Ddr4066),
            0x813 => Some(DdrSpeed::Ddr4134),
            0x834 => Some(DdrSpeed::Ddr4200),
            0x855 => Some(DdrSpeed::Ddr4266),
            0x877 => Some(DdrSpeed::Ddr4334),
            0x898 => Some(DdrSpeed::Ddr4400),
            0x8b9 => Some(DdrSpeed::Ddr4466),
            0x8db => Some(DdrSpeed::Ddr4534),
            0x8fc => Some(DdrSpeed::Ddr4600),
            0x91d => Some(DdrSpeed::Ddr4666),
            0x93f => Some(DdrSpeed::Ddr4734),
            0x960 => Some(DdrSpeed::Ddr4800),
            0x981 => Some(DdrSpeed::Ddr4866),
            0x9a3 => Some(DdrSpeed::Ddr4934),
            0x9c4 => Some(DdrSpeed::Ddr5000),
            0x9f6 => Some(DdrSpeed::Ddr5100),
            0xa28 => Some(DdrSpeed::Ddr5200),
            0xa5a => Some(DdrSpeed::Ddr5300),
            0xa8c => Some(DdrSpeed::Ddr5400),
            0xabe => Some(DdrSpeed::Ddr5500),
            0xaf0 => Some(DdrSpeed::Ddr5600),
            0xb22 => Some(DdrSpeed::Ddr5700),
            0xb54 => Some(DdrSpeed::Ddr5800),
            0xb86 => Some(DdrSpeed::Ddr5900),
            0xbb8 => Some(DdrSpeed::Ddr6000),
            0xbea => Some(DdrSpeed::Ddr6100),
            0xc1c => Some(DdrSpeed::Ddr6200),
            0xc4e => Some(DdrSpeed::Ddr6300),
            0xc80 => Some(DdrSpeed::Ddr6400),
            0xcb2 => Some(DdrSpeed::Ddr6500),
            0xce4 => Some(DdrSpeed::Ddr6600),
            0xd16 => Some(DdrSpeed::Ddr6700),
            0xd48 => Some(DdrSpeed::Ddr6800),
            0xd7a => Some(DdrSpeed::Ddr6900),
            0xdac => Some(DdrSpeed::Ddr7000),
            0xdde => Some(DdrSpeed::Ddr7100),
            0xe10 => Some(DdrSpeed::Ddr7200),
            0xe42 => Some(DdrSpeed::Ddr7300),
            0xe74 => Some(DdrSpeed::Ddr7400),
            0xea6 => Some(DdrSpeed::Ddr7500),
            0xed8 => Some(DdrSpeed::Ddr7600),
            0xf0a => Some(DdrSpeed::Ddr7700),
            0xf3c => Some(DdrSpeed::Ddr7800),
            0xf6e => Some(DdrSpeed::Ddr7900),
            0xfa0 => Some(DdrSpeed::Ddr8000),
            0xfd2 => Some(DdrSpeed::Ddr8100),
            0x1004 => Some(DdrSpeed::Ddr8200),
            0x1036 => Some(DdrSpeed::Ddr8300),
            0x1068 => Some(DdrSpeed::Ddr8400),
            0x109a => Some(DdrSpeed::Ddr8500),
            0x10cc => Some(DdrSpeed::Ddr8600),
            0x10fe => Some(DdrSpeed::Ddr8700),
            0x1130 => Some(DdrSpeed::Ddr8800),
            0x899 => Some(DdrSpeed::UnsupportedRome),
            0x1131 => Some(DdrSpeed::UnsupportedMilan),
            _ => None,
        }
    }

    pub fn to_u64(&self) -> (r: Option<u64>)
        ensures
            r == Some(self.spec_to_u64()),
    {
        Some(
            match self {
                DdrSpeed::Ddr400 => 0xc8,
                DdrSpeed::Ddr533 => 0x10a,
                DdrSpeed::Ddr667 => 0x14d,
                DdrSpeed::Ddr800 => 0x190,
                DdrSpeed::Ddr1066 => 0x215,
                DdrSpeed::Ddr1333 => 0x29b,
                DdrSpeed::Ddr1600 => 0x320,
                DdrSpeed::Ddr1866 => 0x3a5,
                DdrSpeed::Ddr2100 => 0x41a,
                DdrSpeed::Ddr2133 => 0x42b,
                DdrSpeed::Ddr2400 => 0x4b0,
                DdrSpeed::Ddr2667 => 0x535,
                DdrSpeed::Ddr2733 => 0x557,
                DdrSpeed::Ddr2800 => 0x578,
                DdrSpeed::Ddr2867 => 0x599,
                DdrSpeed::Ddr2933 => 0x5bb,
                DdrSpeed::Ddr3000 => 0x5dc,
                DdrSpeed::Ddr3067 => 0x5fd,
                DdrSpeed::Ddr3133 => 0x61f,
                DdrSpeed::Ddr3200 => 0x640,
                DdrSpeed::Ddr3267 => 0x661,
                DdrSpeed::Ddr3333 => 0x683,
                DdrSpeed::Ddr3400 => 0x6a4,
                DdrSpeed::Ddr3467 => 0x6c5,
                DdrSpeed::Ddr3533 => 0x6e7,
                DdrSpeed::Ddr3600 => 0x708,
                DdrSpeed::Ddr3667 => 0x729,
                DdrSpeed::Ddr3733 => 0x74b,
                DdrSpeed::Ddr3800 => 0x76c,
                DdrSpeed::Ddr3867 => 0x78d,
                DdrSpeed::Ddr3933 => 0x7af,
                DdrSpeed::Ddr4000 => 0x7d0,
                DdrSpeed::Ddr4066 => 0x7f1,
                DdrSpeed::Ddr4134 => 0x813,
                DdrSpeed::Ddr4200 => 0x834,
                DdrSpeed::Ddr4266 => 0x855,
                DdrSpeed::Ddr4334 => 0x877,
                DdrSpeed::Ddr4400 => 0x898,
                DdrSpeed::Ddr4466 => 0x8b9,
                DdrSpeed::Ddr4534 => 0x8db,
                DdrSpeed::Ddr4600 => 0x8fc,
                DdrSpeed::Ddr4666 => 0x91d,
                DdrSpeed::Ddr4734 => 0x93f,
                DdrSpeed::Ddr4800 => 0x960,
                DdrSpeed::Ddr4866 => 0x981,
                DdrSpeed::Ddr4934 => 0x9a3,
                DdrSpeed::Ddr5000 => 0x9c4,
                DdrSpeed::Ddr5100 => 0x9f6,
                DdrSpeed::Ddr5200 => 0xa28,
                DdrSpeed::Ddr5300 => 0xa5a,
                DdrSpeed::Ddr5400 => 0xa8c,
                DdrSpeed::Ddr5500 => 0xabe,
                DdrSpeed::Ddr5600 => 0xaf0,
                DdrSpeed::Ddr5700 => 0xb22,
                DdrSpeed::Ddr5800 => 0xb54,
                DdrSpeed::Ddr5900 => 0xb86,
                DdrSpeed::Ddr6000 => 0xbb8,
                DdrSpeed::Ddr6100 => 0xbea,
                DdrSpeed::Ddr6200 => 0xc1c,
                DdrSpeed::Ddr6300 => 0xc4e,
                DdrSpeed::Ddr6400 => 0xc80,
                DdrSpeed::Ddr6500 => 0xcb2,
                DdrSpeed::Ddr6600 => 0xce4,
                DdrSpeed::Ddr6700 => 0xd16,
                DdrSpeed::Ddr6800 => 0xd48,
                DdrSpeed::Ddr6900 => 0xd7a,
                DdrSpeed::Ddr7000 => 0xdac,
                DdrSpeed::Ddr7100 => 0xdde,
                DdrSpeed::Ddr7200 => 0xe10,
                DdrSpeed::Ddr7300 => 0xe42,
                DdrSpeed::Ddr7400 => 0xe74,
                DdrSpeed::Ddr7500 => 0xea6,
                DdrSpeed::Ddr7600 => 0xed8,
                DdrSpeed::Ddr7700 => 0xf0a,
                DdrSpeed::Ddr7800 => 0xf3c,
                DdrSpeed::Ddr7900 => 0xf6e,
                DdrSpeed::Ddr8000 => 0xfa0,
                DdrSpeed::Ddr8100 => 0xfd2,
                DdrSpeed::Ddr8200 => 0x1004,
                DdrSpeed::Ddr8300 => 0x1036,
                DdrSpeed::Ddr8400 => 0x1068,
                DdrSpeed::Ddr8500 => 0x109a,
                DdrSpeed::Ddr8600 => 0x10cc,
                DdrSpeed::Ddr8700 => 0x10fe,
                DdrSpeed::Ddr8800 => 0x1130,
                DdrSpeed::UnsupportedRome => 0x899,
                DdrSpeed::UnsupportedMilan => 0x1131,
            },
        )
    }
}

/// Every value of DdrSpeed is read back from its own number, and every number that is
/// read as a value is that value's number.
pub proof fn lemma_ddr_speed_roundtrip(x: DdrSpeed, value: u64)
    ensures
        DdrSpeed::spec_from_u64(x.spec_to_u64()) == Some(x),
        DdrSpeed::spec_from_u64(value) matches Some(y) ==> y.spec_to_u64() == value,
{
}

impl DdrSpeed {
    /// What the name of this value says: the data rate, in MT/s (0 for the values that do not name one).
    pub open spec fn spec_data_rate(self) -> int {
        match self {
            DdrSpeed::Ddr400 => 400,
            DdrSpeed::Ddr533 => 533,
            DdrSpeed::Ddr667 => 667,
            DdrSpeed::Ddr800 => 800,
            DdrSpeed::Ddr1066 => 1066,
            DdrSpeed::Ddr1333 => 1333,
            DdrSpeed::Ddr1600 => 1600,
            DdrSpeed::Ddr1866 => 1866,
            DdrSpeed::Ddr2100 => 2100,
            DdrSpeed::Ddr2133 => 2133,
            DdrSpeed::Ddr2400 => 2400,
            DdrSpeed::Ddr2667 => 2667,
            DdrSpeed::Ddr2733 => 2733,
            DdrSpeed::Ddr2800 => 2800,
            DdrSpeed::Ddr2867 => 2867,
            DdrSpeed::Ddr2933 => 2933,
            DdrSpeed::Ddr3000 => 3000,
            DdrSpeed::Ddr3067 => 3067,
            DdrSpeed::Ddr3133 => 3133,
            DdrSpeed::Ddr3200 => 3200,
            DdrSpeed::Ddr3267 => 3267,
            DdrSpeed::Ddr3333 => 3333,
            DdrSpeed::Ddr3400 => 3400,
            DdrSpeed::Ddr3467 => 3467,
            DdrSpeed::Ddr3533 => 3533,
            DdrSpeed::Ddr3600 => 3600,
            DdrSpeed::Ddr3667 => 3667,
            DdrSpeed::Ddr3733 => 3733,
            DdrSpeed::Ddr3800 => 3800,
            DdrSpeed::Ddr3867 => 3867,
            DdrSpeed::Ddr3933 => 3933,
            DdrSpeed::Ddr4000 => 4000,
            DdrSpeed::Ddr4066 => 4066,
            DdrSpeed::Ddr4134 => 4134,
            DdrSpeed::Ddr4200 => 4200,
            DdrSpeed::Ddr4266 => 4266,
            DdrSpeed::Ddr4334 => 4334,
            DdrSpeed::Ddr4400 => 4400,
            DdrSpeed::Ddr4466 => 4466,
            DdrSpeed::Ddr4534 => 4534,
            DdrSpeed::Ddr4600 => 4600,
            DdrSpeed::Ddr4666 => 4666,
            DdrSpeed::Ddr4734 => 4734,
            DdrSpeed::Ddr4800 => 4800,
            DdrSpeed::Ddr4866 => 4866,
            DdrSpeed::Ddr4934 => 4934,
            DdrSpeed::Ddr5000 => 5000,
            DdrSpeed::Ddr5100 => 5100,
            DdrSpeed::Ddr5200 => 5200,
            DdrSpeed::Ddr5300 => 5300,
            DdrSpeed::Ddr5400 => 5400,
            DdrSpeed::Ddr5500 => 5500,
            DdrSpeed::Ddr5600 => 5600,
            DdrSpeed::Ddr5700 => 5700,
            DdrSpeed::Ddr5800 => 5800,
            DdrSpeed::Ddr5900 => 5900,
            DdrSpeed::Ddr6000 => 6000,
            DdrSpeed::Ddr6100 => 6100,
            DdrSpeed::Ddr6200 => 6200,
            DdrSpeed::Ddr6300 => 6300,
            DdrSpeed::Ddr6400 => 6400,
            DdrSpeed::Ddr6500 => 6500,
            DdrSpeed::Ddr6600 => 6600,
            DdrSpeed::Ddr6700 => 6700,
            DdrSpeed::Ddr6800 => 6800,
            DdrSpeed::Ddr6900 => 6900,
            DdrSpeed::Ddr7000 => 7000,
            DdrSpeed::Ddr7100 => 7100,
            DdrSpeed::Ddr7200 => 7200,
            DdrSpeed::Ddr7300 => 7300,
            DdrSpeed::Ddr7400 => 7400,
            DdrSpeed::Ddr7500 => 7500,
            DdrSpeed::Ddr7600 => 7600,
            DdrSpeed::Ddr7700 => 7700,
            DdrSpeed::Ddr7800 => 7800,
            DdrSpeed::Ddr7900 => 7900,
            DdrSpeed::Ddr8000 => 8000,
            DdrSpeed::Ddr8100 => 8100,
            DdrSpeed::Ddr8200 => 8200,
            DdrSpeed::Ddr8300 => 8300,
            DdrSpeed::Ddr8400 => 8400,
            DdrSpeed::Ddr8500 => 8500,
            DdrSpeed::Ddr8600 => 8600,
            DdrSpeed::Ddr8700 => 8700,
            DdrSpeed::Ddr8800 => 8800,
            DdrSpeed::UnsupportedRome => 0,
            DdrSpeed::UnsupportedMilan => 0,
        }
    }
}

/// The number of each speed is its memory clock in MHz: half its data rate, rounded either
/// way by at most a half; each other value has a number of its own.
pub proof fn lemma_ddr_speed_numbers_follow_names(x: DdrSpeed)
    ensures
        (x != DdrSpeed::UnsupportedRome && x != DdrSpeed::UnsupportedMilan) ==> x.spec_data_rate() - 1 <= 2 * x.spec_to_u64() <= x.spec_data_rate() + 1,
        x == DdrSpeed::UnsupportedRome <==> x.spec_to_u64() == 2201,
        x == DdrSpeed::UnsupportedMilan <==> x.spec_to_u64() == 4401,
{
}

/// A frequency limit for a DIMM population (not for LRDIMMs).
#[allow(non_camel_case_types)]
#[derive(Debug, Clone, Copy)]
pub struct MaxFreqElement {
    pub(crate) dimm_slots_per_channel: u8,
    pub(crate) _reserved_: u8,
    pub(crate) conditions: [u16; 4],
    pub(crate) speeds: [u16; 3],
}

impl MaxFreqElement {
    pub closed spec fn spec_dimm_slots_per_channel(self) -> u8 {
        self.dimm_slots_per_channel
    }

    pub closed spec fn spec__reserved_(self) -> u8 {
        self._reserved_
    }

    pub closed spec fn spec_conditions(self) -> [u16; 4] {
        self.conditions
    }

    pub closed spec fn spec_speeds(self) -> [u16; 3] {
        self.speeds
    }

}

impl MaxFreqElement {
    /// The bytes that store this value on disk.
    pub closed spec fn spec_bytes(self) -> Seq<u8> {
        seq![self.dimm_slots_per_channel]
            + seq![self._reserved_]
            + spec_u16_to_le_bytes(self.conditions[0]) + spec_u16_to_le_bytes(self.conditions[1]) + spec_u16_to_le_bytes(self.conditions[2]) + spec_u16_to_le_bytes(self.conditions[3])
            + spec_u16_to_le_bytes(self.speeds[0]) + spec_u16_to_le_bytes(self.speeds[1]) + spec_u16_to_le_bytes(self.speeds[2])
    }
}

impl ByteLayout for MaxFreqElement {
    open spec fn spec_size() -> nat {
        16
    }

    open spec fn spec_to_bytes(self) -> Seq<u8> {
        self.spec_bytes()
    }

    fn size() -> (r: usize) {
        16
    }

    #[verifier::spinoff_prover]
    fn from_bytes(bytes: &[u8]) -> (r: Self) {
        let dimm_slots_per_channel: u8 = bytes[0];
        let _reserved_: u8 = bytes[1];
        let conditions: [u16; 4] = [u16_from_le_bytes(slice_subrange(bytes, 2, 4)), u16_from_le_bytes(slice_subrange(bytes, 4, 6)), u16_from_le_bytes(slice_subrange(bytes, 6, 8)), u16_from_le_bytes(slice_subrange(bytes, 8, 10))];
        let speeds: [u16; 3] = [u16_from_le_bytes(slice_subrange(bytes, 10, 12)), u16_from_le_bytes(slice_subrange(bytes, 12, 14)), u16_from_le_bytes(slice_subrange(bytes, 14, 16))];
        let r = MaxFreqElement { dimm_slots_per_channel, _reserved_, conditions, speeds };
        proof {
            lemma_auto_spec_u16_to_from_le_bytes();
            lemma_auto_spec_u32_to_from_le_bytes();
            lemma_auto_spec_u64_to_from_le_bytes();
            lemma_max_freq_element_bytes_pieces(r);
            assert(bytes@.subrange(2, 4) == spec_u16_to_le_bytes(conditions[0]));
            assert(bytes@.subrange(4, 6) == spec_u16_to_le_bytes(conditions[1]));
            assert(bytes@.subrange(6, 8) == spec_u16_to_le_bytes(conditions[2]));
            assert(bytes@.subrange(8, 10) == spec_u16_to_le_bytes(conditions[3]));
            assert(bytes@.subrange(10, 12) == spec_u16_to_le_bytes(speeds[0]));
            assert(bytes@.subrange(12, 14) == spec_u16_to_le_bytes(speeds[1]));
            assert(bytes@.subrange(14, 16) == spec_u16_to_le_bytes(speeds[2]));
            assert(bytes@.subrange(0, 2) =~= bytes@.subrange(0, 1) + bytes@.subrange(1, 2));
            assert(bytes@.subrange(0, 10) =~= bytes@.subrange(0, 2) + bytes@.subrange(2, 10));
            assert(bytes@.subrange(0, 16) =~= bytes@.subrange(0, 10) + bytes@.subrange(10, 16));
            assert(bytes@.subrange(0, 16) =~= bytes@);
            assert(bytes@ == r.spec_bytes());
        }
        r
    }

    #[verifier::spinoff_prover]
    fn to_bytes(&self) -> (r: Vec<u8>) {
        let mut out: Vec<u8> = Vec::new();
        out.push(self.dimm_slots_per_channel);
        out.push(self._reserved_);
        append_bytes(&mut out, &le_bytes_u16(self.conditions[0]));
        append_bytes(&mut out, &le_bytes_u16(self.conditions[1]));
        append_bytes(&mut out, &le_bytes_u16(self.conditions[2]));
        append_bytes(&mut out, &le_bytes_u16(self.conditions[3]));
        append_bytes(&mut out, &le_bytes_u16(self.speeds[0]));
        append_bytes(&mut out, &le_bytes_u16(self.speeds[1]));
        append_bytes(&mut out, &le_bytes_u16(self.speeds[2]));
        proof {
            lemma_max_freq_element_bytes_pieces(*self);
        }
        out
    }
}

/// How the bytes of a MaxFreqElement split up into its fields.
pub proof fn lemma_max_freq_element_bytes_pieces(x: MaxFreqElement)
    ensures
        x.spec_bytes().len() == 16,
        x.spec_bytes()[0] == x.spec_dimm_slots_per_channel(),
        x.spec_bytes()[1] == x.spec__reserved_(),
        x.spec_bytes().subrange(2, 10) == spec_u16_to_le_bytes(x.spec_conditions()[0]) + spec_u16_to_le_bytes(x.spec_conditions()[1]) + spec_u16_to_le_bytes(x.spec_conditions()[2]) + spec_u16_to_le_bytes(x.spec_conditions()[3]),
        x.spec_bytes().subrange(10, 16) == spec_u16_to_le_bytes(x.spec_speeds()[0]) + spec_u16_to_le_bytes(x.spec_speeds()[1]) + spec_u16_to_le_bytes(x.spec_speeds()[2]),
{
    lemma_auto_spec_u16_to_from_le_bytes();
    lemma_auto_spec_u32_to_from_le_bytes();
    lemma_auto_spec_u64_to_from_le_bytes();
    assert(x.spec_bytes().subrange(2, 10) == spec_u16_to_le_bytes(x.conditions[0]) + spec_u16_to_le_bytes(x.conditions[1]) + spec_u16_to_le_bytes(x.conditions[2]) + spec_u16_to_le_bytes(x.conditions[3]));
    assert(x.spec_bytes().subrange(10, 16) == spec_u16_to_le_bytes(x.speeds[0]) + spec_u16_to_le_bytes(x.speeds[1]) + spec_u16_to_le_bytes(x.speeds[2]));
}

/// Two values of MaxFreqElement with the same bytes are the same value.
#[verifier::spinoff_prover]
pub proof fn lemma_max_freq_element_bytes_injective(x: MaxFreqElement, y: MaxFreqElement)
    requires
        x.spec_bytes() == y.spec_bytes(),
    ensures
        x == y,
{
    lemma_max_freq_element_bytes_pieces(x);
    lemma_max_freq_element_bytes_pieces(y);
    lemma_auto_spec_u16_to_from_le_bytes();
    lemma_auto_spec_u32_to_from_le_bytes();
    lemma_auto_spec_u64_to_from_le_bytes();
    assert(x.dimm_slots_per_channel == y.dimm_slots_per_channel);
    assert(x._reserved_ == y._reserved_);
    assert(x.spec_bytes().subrange(2, 4) == spec_u16_to_le_bytes(x.conditions[0]));
    assert(y.spec_bytes().subrange(2, 4) == spec_u16_to_le_bytes(y.conditions[0]));
    assert(x.conditions[0] == y.conditions[0]);
    assert(x.spec_bytes().subrange(4, 6) == spec_u16_to_le_bytes(x.conditions[1]));
    assert(y.spec_bytes().subrange(4, 6) == spec_u16_to_le_bytes(y.conditions[1]));
    assert(x.conditions[1] == y.conditions[1]);
    assert(x.spec_bytes().subrange(6, 8) == spec_u16_to_le_bytes(x.conditions[2]));
    assert(y.spec_bytes().subrange(6, 8) == spec_u16_to_le_bytes(y.conditions[2]));
    assert(x.conditions[2] == y.conditions[2]);
    assert(x.spec_bytes().subrange(8, 10) == spec_u16_to_le_bytes(x.conditions[3]));
    assert(y.spec_bytes().subrange(8, 10) == spec_u16_to_le_bytes(y.conditions[3]));
    assert(x.conditions[3] == y.conditions[3]);
    assert(x.conditions =~= y.conditions);
    assert(x.spec_bytes().subrange(10, 12) == spec_u16_to_le_bytes(x.speeds[0]));
    assert(y.spec_bytes().subrange(10, 12) == spec_u16_to_le_bytes(y.speeds[0]));
    assert(x.speeds[0] == y.speeds[0]);
    assert(x.spec_bytes().subrange(12, 14) == spec_u16_to_le_bytes(x.speeds[1]));
    assert(y.spec_bytes().subrange(12, 14) == spec_u16_to_le_bytes(y.speeds[1]));
    assert(x.speeds[1] == y.speeds[1]);
    assert(x.spec_bytes().subrange(14, 16) == spec_u16_to_le_bytes(x.speeds[2]));
    assert(y.spec_bytes().subrange(14, 16) == spec_u16_to_le_bytes(y.speeds[2]));
    assert(x.speeds[2] == y.speeds[2]);
    assert(x.speeds =~= y.speeds);
}

impl Default for MaxFreqElement {
    fn default() -> (r: Self)
        ensures
            r.spec_dimm_slots_per_channel() == 1,
            r.spec__reserved_() == 0,
            r.spec_conditions() == [1u16, 1u16, 0u16, 0u16],
            r.spec_speeds() == [1600u16, 4401u16, 4401u16],
    {
        MaxFreqElement { dimm_slots_per_channel: 1, _reserved_: 0, conditions: [1, 1, 0, 0], speeds: [1600, 4401, 4401] }
    }
}

impl MaxFreqElement {
    /// The number of DIMM slots per channel that this limit applies to.
    pub fn dimm_slots_per_channel(&self) -> (r: Result<DimmsPerChannel>)
        ensures
            r == match DimmsPerChannel::spec_from_u64(self.spec_dimm_slots_per_channel() as u64) {
                Some(d) => Ok::<DimmsPerChannel, Error>(d),
                None => Err(Error::EntryTypeMismatch),
            },
    {
        match DimmsPerChannel::from_u64(self.dimm_slots_per_channel as u64) {
            Some(d) => Ok(d),
            None => Err(Error::EntryTypeMismatch),
        }
    }

    pub fn set_dimm_slots_per_channel(&mut self, value: DimmsPerChannel)
        requires
            value.spec_has_number(),
            value.spec_to_u64() <= 0xff,
        ensures
            final(self).spec_dimm_slots_per_channel() == value.spec_to_u64() as u8,
            final(self).spec__reserved_() == old(self).spec__reserved_(),
            final(self).spec_conditions() == old(self).spec_conditions(),
            final(self).spec_speeds() == old(self).spec_speeds(),
    {
        self.dimm_slots_per_channel = value.to_u64().unwrap() as u8;
    }

    /// The number of DIMMs on the channel.
    pub fn dimm_count(&self) -> (r: Result<u16>)
        ensures
            r == Ok::<u16, Error>(self.spec_conditions()[0]),
    {
        Ok(self.conditions[0])
    }

    pub fn set_dimm_count(&mut self, value: u16)
        ensures
            final(self).spec_conditions()@ == old(self).spec_conditions()@.update(0, value),
            final(self).spec_dimm_slots_per_channel() == old(self).spec_dimm_slots_per_channel(),
            final(self).spec__reserved_() == old(self).spec__reserved_(),
            final(self).spec_speeds() == old(self).spec_speeds(),
    {
        self.conditions[0] = value;
    }

    /// The number of single-rank DIMMs on the channel.
    pub fn single_rank_count(&self) -> (r: Result<u16>)
        ensures
            r == Ok::<u16, Error>(self.spec_conditions()[1]),
    {
        Ok(self.conditions[1])
    }

    pub fn set_single_rank_count(&mut self, value: u16)
        ensures
            final(self).spec_conditions()@ == old(self).spec_conditions()@.update(1, value),
            final(self).spec_dimm_slots_per_channel() == old(self).spec_dimm_slots_per_channel(),
            final(self).spec__reserved_() == old(self).spec__reserved_(),
            final(self).spec_speeds() == old(self).spec_speeds(),
    {
        self.conditions[1] = value;
    }

    /// The number of dual-rank DIMMs on the channel.
    pub fn dual_rank_count(&self) -> (r: Result<u16>)
        ensures
            r == Ok::<u16, Error>(self.spec_conditions()[2]),
    {
        Ok(self.conditions[2])
    }

    pub fn set_dual_rank_count(&mut self, value: u16)
        ensures
            final(self).spec_conditions()@ == old(self).spec_conditions()@.update(2, value),
            final(self).spec_dimm_slots_per_channel() == old(self).spec_dimm_slots_per_channel(),
            final(self).spec__reserved_() == old(self).spec__reserved_(),
            final(self).spec_speeds() == old(self).spec_speeds(),
    {
        self.conditions[2] = value;
    }

    /// The number of quad-rank DIMMs on the channel.
    pub fn quad_rank_count(&self) -> (r: Result<u16>)
        ensures
            r == Ok::<u16, Error>(self.spec_conditions()[3]),
    {
        Ok(self.conditions[3])
    }

    pub fn set_quad_rank_count(&mut self, value: u16)
        ensures
            final(self).spec_conditions()@ == old(self).spec_conditions()@.update(3, value),
            final(self).spec_dimm_slots_per_channel() == old(self).spec_dimm_slots_per_channel(),
            final(self).spec__reserved_() == old(self).spec__reserved_(),
            final(self).spec_speeds() == old(self).spec_speeds(),
    {
        self.conditions[3] = value;
    }

    /// The speed limit (the first of the three stored speeds).
    pub fn speed(&self) -> (r: Result<DdrSpeed>)
        ensures
            r == match DdrSpeed::spec_from_u64(self.spec_speeds()[0] as u64) {
                Some(s) => Ok::<DdrSpeed, Error>(s),
                None => Err(Error::EntryTypeMismatch),
            },
    {
        match DdrSpeed::from_u64(self.speeds[0] as u64) {
            Some(s) => Ok(s),
            None => Err(Error::EntryTypeMismatch),
        }
    }

    pub fn set_speed(&mut self, value: DdrSpeed)
        ensures
            final(self).spec_speeds()@ == old(self).spec_speeds()@.update(0, value.spec_to_u64() as u16),
            final(self).spec_dimm_slots_per_channel() == old(self).spec_dimm_slots_per_channel(),
            final(self).spec__reserved_() == old(self).spec__reserved_(),
            final(self).spec_conditions() == old(self).spec_conditions(),
    {
        self.speeds[0] = value.to_u64().unwrap() as u16;
    }

    /// A limit of SPEED_0 for the given population; the other two stored speeds get
    /// UNSUPPORTED_SPEED (which differs between processor generations).
    pub fn new(
        unsupported_speed: DdrSpeed,
        dimm_slots_per_channel: DimmsPerChannel,
        dimm_count: u16,
        single_rank_count: u16,
        dual_rank_count: u16,
        quad_rank_count: u16,
        speed_0: DdrSpeed,
    ) -> (r: Self)
        requires
            dimm_slots_per_channel.spec_has_number(),
            dimm_slots_per_channel.spec_to_u64() <= 0xff,
        ensures
            r.spec_dimm_slots_per_channel() == dimm_slots_per_channel.spec_to_u64() as u8,
            r.spec__reserved_() == 0,
            r.spec_conditions() == [dimm_count, single_rank_count, dual_rank_count, quad_rank_count],
            r.spec_speeds() == [
                speed_0.spec_to_u64() as u16,
                unsupported_speed.spec_to_u64() as u16,
                unsupported_speed.spec_to_u64() as u16,
            ],
    {
        let unsupported: u16 = unsupported_speed.to_u64().unwrap() as u16;
        let mut result = Self::default();
        result.dimm_slots_per_channel = dimm_slots_per_channel.to_u64().unwrap() as u8;
        result.conditions = [dimm_count, single_rank_count, dual_rank_count, quad_rank_count];
        result.speeds = [speed_0.to_u64().unwrap() as u16, unsupported, unsupported];
        result
    }
}

/// Stretch frequency elements have the layout of maximum frequency elements.
pub type StretchFreqElement = MaxFreqElement;

impl EntryCompatible for MaxFreqElement {
    fn is_entry_compatible(entry_id: EntryId, _prefix: &[u8]) -> (r: bool)
        ensures
            r == (entry_id == EntryId::Memory(MemoryEntryId::PsUdimmDdr4MaxFreq) || entry_id == EntryId::Memory(MemoryEntryId::PsRdimmDdr4MaxFreq) || entry_id == EntryId::Memory(MemoryEntryId::Ps3dsRdimmDdr4MaxFreq) || entry_id == EntryId::Memory(MemoryEntryId::PsRdimmDdr5MaxFreq) || entry_id == EntryId::Memory(MemoryEntryId::Ps3dsRdimmDdr5MaxFreq) || entry_id == EntryId::Memory(MemoryEntryId::PsLrdimmDdr5MaxFreq) || entry_id == EntryId::Memory(MemoryEntryId::PsRdimmDdr5MaxFreqC1) || entry_id == EntryId::Memory(MemoryEntryId::PsUdimmDdr4StretchFreq) || entry_id == EntryId::Memory(MemoryEntryId::PsRdimmDdr4StretchFreq) || entry_id == EntryId::Memory(MemoryEntryId::Ps3dsRdimmDdr4StretchFreq) || entry_id == EntryId::Memory(MemoryEntryId::PsRdimmDdr5StretchFreq) || entry_id == EntryId::Memory(MemoryEntryId::Ps3dsRdimmDdr5StretchFreq) || entry_id == EntryId::Memory(MemoryEntryId::PsLrdimmDdr5StretchFreq)),
    {
        matches!(entry_id, EntryId::Memory(MemoryEntryId::PsUdimmDdr4MaxFreq) | EntryId::Memory(MemoryEntryId::PsRdimmDdr4MaxFreq) | EntryId::Memory(MemoryEntryId::Ps3dsRdimmDdr4MaxFreq) | EntryId::Memory(MemoryEntryId::PsRdimmDdr5MaxFreq) | EntryId::Memory(MemoryEntryId::Ps3dsRdimmDdr5MaxFreq) | EntryId::Memory(MemoryEntryId::PsLrdimmDdr5MaxFreq) | EntryId::Memory(MemoryEntryId::PsRdimmDdr5MaxFreqC1) | EntryId::Memory(MemoryEntryId::PsUdimmDdr4StretchFreq) | EntryId::Memory(MemoryEntryId::PsRdimmDdr4StretchFreq) | EntryId::Memory(MemoryEntryId::Ps3dsRdimmDdr4StretchFreq) | EntryId::Memory(MemoryEntryId::PsRdimmDdr5StretchFreq) | EntryId::Memory(MemoryEntryId::Ps3dsRdimmDdr5StretchFreq) | EntryId::Memory(MemoryEntryId::PsLrdimmDdr5StretchFreq))
    }
}

/// A frequency limit for an LRDIMM population.
#[allow(non_camel_case_types)]
#[derive(Debug, Clone, Copy)]
pub struct LrMaxFreqElement {
    pub(crate) dimm_slots_per_channel: u8,
    pub(crate) _reserved_: u8,
    pub conditions: [u16; 4],
    pub speeds: [u16; 3],
}

impl LrMaxFreqElement {
    pub closed spec fn spec_dimm_slots_per_channel(self) -> u8 {
        self.dimm_slots_per_channel
    }

    pub closed spec fn spec__reserved_(self) -> u8 {
        self._reserved_
    }

    pub closed spec fn spec_conditions(self) -> [u16; 4] {
        self.conditions
    }

    pub closed spec fn spec_speeds(self) -> [u16; 3] {
        self.speeds
    }

    pub fn dimm_slots_per_channel(&self) -> (r: Result<u8>)
        ensures
            r == Ok::<u8, Error>(self.spec_dimm_slots_per_channel()),
    {
        Ok(self.dimm_slots_per_channel)
    }

    pub fn set_dimm_slots_per_channel(&mut self, value: u8)
        ensures
            final(self).spec_dimm_slots_per_channel() == value,
            final(self).spec__reserved_() == old(self).spec__reserved_(),
            final(self).spec_conditions() == old(self).spec_conditions(),
            final(self).spec_speeds() == old(self).spec_speeds(),
    {
        self.dimm_slots_per_channel = value;
    }

}

impl LrMaxFreqElement {
    /// The bytes that store this value on disk.
    pub closed spec fn spec_bytes(self) -> Seq<u8> {
        seq![self.dimm_slots_per_channel]
            + seq![self._reserved_]
            + spec_u16_to_le_bytes(self.conditions[0]) + spec_u16_to_le_bytes(self.conditions[1]) + spec_u16_to_le_bytes(self.conditions[2]) + spec_u16_to_le_bytes(self.conditions[3])
            + spec_u16_to_le_bytes(self.speeds[0]) + spec_u16_to_le_bytes(self.speeds[1]) + spec_u16_to_le_bytes(self.speeds[2])
    }
}

impl ByteLayout for LrMaxFreqElement {
    open spec fn spec_size() -> nat {
        16
    }

    open spec fn spec_to_bytes(self) -> Seq<u8> {
        self.spec_bytes()
    }

    fn size() -> (r: usize) {
        16
    }

    #[verifier::spinoff_prover]
    fn from_bytes(bytes: &[u8]) -> (r: Self) {
        let dimm_slots_per_channel: u8 = bytes[0];
        let _reserved_: u8 = bytes[1];
        let conditions: [u16; 4] = [u16_from_le_bytes(slice_subrange(bytes, 2, 4)), u16_from_le_bytes(slice_subrange(bytes, 4, 6)), u16_from_le_bytes(slice_subrange(bytes, 6, 8)), u16_from_le_bytes(slice_subrange(bytes, 8, 10))];
        let speeds: [u16; 3] = [u16_from_le_bytes(slice_subrange(bytes, 10, 12)), u16_from_le_bytes(slice_subrange(bytes, 12, 14)), u16_from_le_bytes(slice_subrange(bytes, 14, 16))];
        let r = LrMaxFreqElement { dimm_slots_per_channel, _reserved_, conditions, speeds };
        proof {
            lemma_auto_spec_u16_to_from_le_bytes();
            lemma_auto_spec_u32_to_from_le_bytes();
            lemma_auto_spec_u64_to_from_le_bytes();
            lemma_lr_max_freq_element_bytes_pieces(r);
            assert(bytes@.subrange(2, 4) == spec_u16_to_le_bytes(conditions[0]));
            assert(bytes@.subrange(4, 6) == spec_u16_to_le_bytes(conditions[1]));
            assert(bytes@.subrange(6, 8) == spec_u16_to_le_bytes(conditions[2]));
            assert(bytes@.subrange(8, 10) == spec_u16_to_le_bytes(conditions[3]));
            assert(bytes@.subrange(10, 12) == spec_u16_to_le_bytes(speeds[0]));
            assert(bytes@.subrange(12, 14) == spec_u16_to_le_bytes(speeds[1]));
            assert(bytes@.subrange(14, 16) == spec_u16_to_le_bytes(speeds[2]));
            assert(bytes@.subrange(0, 2) =~= bytes@.subrange(0, 1) + bytes@.subrange(1, 2));
            assert(bytes@.subrange(0, 10) =~= bytes@.subrange(0, 2) + bytes@.subrange(2, 10));
            assert(bytes@.subrange(0, 16) =~= bytes@.subrange(0, 10) + bytes@.subrange(10, 16));
            assert(bytes@.subrange(0, 16) =~= bytes@);
            assert(bytes@ == r.spec_bytes());
        }
        r
    }

    #[verifier::spinoff_prover]
    fn to_bytes(&self) -> (r: Vec<u8>) {
        let mut out: Vec<u8> = Vec::new();
        out.push(self.dimm_slots_per_channel);
        out.push(self._reserved_);
        append_bytes(&mut out, &le_bytes_u16(self.conditions[0]));
        append_bytes(&mut out, &le_bytes_u16(self.conditions[1]));
        append_bytes(&mut out, &le_bytes_u16(self.conditions[2]));
        append_bytes(&mut out, &le_bytes_u16(self.conditions[3]));
        append_bytes(&mut out, &le_bytes_u16(self.speeds[0]));
        append_bytes(&mut out, &le_bytes_u16(self.speeds[1]));
        append_bytes(&mut out, &le_bytes_u16(self.speeds[2]));
        proof {
            lemma_lr_max_freq_element_bytes_pieces(*self);
        }
        out
    }
}

/// How the bytes of a LrMaxFreqElement split up into its fields.
pub proof fn lemma_lr_max_freq_element_bytes_pieces(x: LrMaxFreqElement)
    ensures
        x.spec_bytes().len() == 16,
        x.spec_bytes()[0] == x.spec_dimm_slots_per_channel(),
        x.spec_bytes()[1] == x.spec__reserved_(),
        x.spec_bytes().subrange(2, 10) == spec_u16_to_le_bytes(x.spec_conditions()[0]) + spec_u16_to_le_bytes(x.spec_conditions()[1]) + spec_u16_to_le_bytes(x.spec_conditions()[2]) + spec_u16_to_le_bytes(x.spec_conditions()[3]),
        x.spec_bytes().subrange(10, 16) == spec_u16_to_le_bytes(x.spec_speeds()[0]) + spec_u16_to_le_bytes(x.spec_speeds()[1]) + spec_u16_to_le_bytes(x.spec_speeds()[2]),
{
    lemma_auto_spec_u16_to_from_le_bytes();
    lemma_auto_spec_u32_to_from_le_bytes();
    lemma_auto_spec_u64_to_from_le_bytes();
    assert(x.spec_bytes().subrange(2, 10) == spec_u16_to_le_bytes(x.conditions[0]) + spec_u16_to_le_bytes(x.conditions[1]) + spec_u16_to_le_bytes(x.conditions[2]) + spec_u16_to_le_bytes(x.conditions[3]));
    assert(x.spec_bytes().subrange(10, 16) == spec_u16_to_le_bytes(x.speeds[0]) + spec_u16_to_le_bytes(x.speeds[1]) + spec_u16_to_le_bytes(x.speeds[2]));
}

/// Two values of LrMaxFreqElement with the same bytes are the same value.
#[verifier::spinoff_prover]
pub proof fn lemma_lr_max_freq_element_bytes_injective(x: LrMaxFreqElement, y: LrMaxFreqElement)
    requires
        x.spec_bytes() == y.spec_bytes(),
    ensures
        x == y,
{
    lemma_lr_max_freq_element_bytes_pieces(x);
    lemma_lr_max_freq_element_bytes_pieces(y);
    lemma_auto_spec_u16_to_from_le_bytes();
    lemma_auto_spec_u32_to_from_le_bytes();
    lemma_auto_spec_u64_to_from_le_bytes();
    assert(x.dimm_slots_per_channel == y.dimm_slots_per_channel);
    assert(x._reserved_ == y._reserved_);
    assert(x.spec_bytes().subrange(2, 4) == spec_u16_to_le_bytes(x.conditions[0]));
    assert(y.spec_bytes().subrange(2, 4) == spec_u16_to_le_bytes(y.conditions[0]));
    assert(x.conditions[0] == y.conditions[0]);
    assert(x.spec_bytes().subrange(4, 6) == spec_u16_to_le_bytes(x.conditions[1]));
    assert(y.spec_bytes().subrange(4, 6) == spec_u16_to_le_bytes(y.conditions[1]));
    assert(x.conditions[1] == y.conditions[1]);
    assert(x.spec_bytes().subrange(6, 8) == spec_u16_to_le_bytes(x.conditions[2]));
    assert(y.spec_bytes().subrange(6, 8) == spec_u16_to_le_bytes(y.conditions[2]));
    assert(x.conditions[2] == y.conditions[2]);
    assert(x.spec_bytes().subrange(8, 10) == spec_u16_to_le_bytes(x.conditions[3]));
    assert(y.spec_bytes().subrange(8, 10) == spec_u16_to_le_bytes(y.conditions[3]));
    assert(x.conditions[3] == y.conditions[3]);
    assert(x.conditions =~= y.conditions);
    assert(x.spec_bytes().subrange(10, 12) == spec_u16_to_le_bytes(x.speeds[0]));
    assert(y.spec_bytes().subrange(10, 12) == spec_u16_to_le_bytes(y.speeds[0]));
    assert(x.speeds[0] == y.speeds[0]);
    assert(x.spec_bytes().subrange(12, 14) == spec_u16_to_le_bytes(x.speeds[1]));
    assert(y.spec_bytes().subrange(12, 14) == spec_u16_to_le_bytes(y.speeds[1]));
    assert(x.speeds[1] == y.speeds[1]);
    assert(x.spec_bytes().subrange(14, 16) == spec_u16_to_le_bytes(x.speeds[2]));
    assert(y.spec_bytes().subrange(14, 16) == spec_u16_to_le_bytes(y.speeds[2]));
    assert(x.speeds[2] == y.speeds[2]);
    assert(x.speeds =~= y.speeds);
}

impl Default for LrMaxFreqElement {
    fn default() -> (r: Self)
        ensures
            r.spec_dimm_slots_per_channel() == 1,
            r.spec__reserved_() == 0,
            r.spec_conditions() == [1u16, 0u16, 1u16, 0u16],
            r.spec_speeds() == [1600u16, 4401u16, 4401u16],
    {
        LrMaxFreqElement { dimm_slots_per_channel: 1, _reserved_: 0, conditions: [1, 0, 1, 0], speeds: [1600, 4401, 4401] }
    }
}

impl LrMaxFreqElement {
    /// A limit of SPEED_0 for the given LRDIMM population; the other two stored speeds get
    /// UNSUPPORTED_SPEED (which differs between processor generations).
    pub fn new(
        unsupported_speed: DdrSpeed,
        dimm_slots_per_channel: DimmsPerChannel,
        dimm_count: u16,
        v_1_5_count: u16,
        v_1_35_count: u16,
        v_1_25_count: u16,
        speed_0: DdrSpeed,
    ) -> (r: Self)
        requires
            dimm_slots_per_channel.spec_has_number(),
            dimm_slots_per_channel.spec_to_u64() <= 0xff,
        ensures
            r.spec_dimm_slots_per_channel() == dimm_slots_per_channel.spec_to_u64() as u8,
            r.spec__reserved_() == 0,
            r.spec_conditions() == [dimm_count, v_1_5_count, v_1_35_count, v_1_25_count],
            r.spec_speeds() == [
                speed_0.spec_to_u64() as u16,
                unsupported_speed.spec_to_u64() as u16,
                unsupported_speed.spec_to_u64() as u16,
            ],
    {
        let unsupported: u16 = unsupported_speed.to_u64().unwrap() as u16;
        let mut result = Self::default();
        result.dimm_slots_per_channel = dimm_slots_per_channel.to_u64().unwrap() as u8;
        result.conditions = [dimm_count, v_1_5_count, v_1_35_count, v_1_25_count];
        result.speeds = [speed_0.to_u64().unwrap() as u16, unsupported, unsupported];
        result
    }
}

impl EntryCompatible for LrMaxFreqElement {
    fn is_entry_compatible(entry_id: EntryId, _prefix: &[u8]) -> (r: bool)
        ensures
            r == (entry_id == EntryId::Memory(MemoryEntryId::PsLrdimmDdr4MaxFreq)),
    {
        matches!(entry_id, EntryId::Memory(MemoryEntryId::PsLrdimmDdr4MaxFreq))
    }
}

/// A GPIO pin of the FCH and how to configure it.
#[allow(non_camel_case_types)]
#[derive(Debug, Clone, Copy, PartialEq, Eq, Structural)]
pub struct Gpio {
    pub(crate) pin: u8,
    pub(crate) iomux_control: u8,
    pub(crate) bank_control: u8,
}

impl Gpio {
    pub closed spec fn spec_pin(self) -> u8 {
        self.pin
    }

    pub closed spec fn spec_iomux_control(self) -> u8 {
        self.iomux_control
    }

    pub closed spec fn spec_bank_control(self) -> u8 {
        self.bank_control
    }

    pub fn pin(&self) -> (r: Result<u8>)
        ensures
            r == Ok::<u8, Error>(self.spec_pin()),
    {
        Ok(self.pin)
    }

    pub fn set_pin(&mut self, value: u8)
        ensures
            final(self).spec_pin() == value,
            final(self).spec_iomux_control() == old(self).spec_iomux_control(),
            final(self).spec_bank_control() == old(self).spec_bank_control(),
    {
        self.pin = value;
    }

    pub fn iomux_control(&self) -> (r: Result<u8>)
        ensures
            r == Ok::<u8, Error>(self.spec_iomux_control()),
    {
        Ok(self.iomux_control)
    }

    pub fn set_iomux_control(&mut self, value: u8)
        ensures
            final(self).spec_iomux_control() == value,
            final(self).spec_pin() == old(self).spec_pin(),
            final(self).spec_bank_control() == old(self).spec_bank_control(),
    {
        self.iomux_control = value;
    }

    pub fn bank_control(&self) -> (r: Result<u8>)
        ensures
            r == Ok::<u8, Error>(self.spec_bank_control()),
    {
        Ok(self.bank_control)
    }

    pub fn set_bank_control(&mut self, value: u8)
        ensures
            final(self).spec_bank_control() == value,
            final(self).spec_pin() == old(self).spec_pin(),
            final(self).spec_iomux_control() == old(self).spec_iomux_control(),
    {
        self.bank_control = value;
    }

}

impl Gpio {
    /// The bytes that store this value on disk.
    pub closed spec fn spec_bytes(self) -> Seq<u8> {
        seq![self.pin]
            + seq![self.iomux_control]
            + seq![self.bank_control]
    }
}

impl ByteLayout for Gpio {
    open spec fn spec_size() -> nat {
        3
    }

    open spec fn spec_to_bytes(self) -> Seq<u8> {
        self.spec_bytes()
    }

    fn size() -> (r: usize) {
        3
    }

    #[verifier::spinoff_prover]
    fn from_bytes(bytes: &[u8]) -> (r: Self) {
        let pin: u8 = bytes[0];
        let iomux_control: u8 = bytes[1];
        let bank_control: u8 = bytes[2];
        let r = Gpio { pin, iomux_control, bank_control };
        proof {
            lemma_auto_spec_u16_to_from_le_bytes();
            lemma_auto_spec_u32_to_from_le_bytes();
            lemma_auto_spec_u64_to_from_le_bytes();
            lemma_gpio_bytes_pieces(r);
            assert(bytes@.subrange(0, 2) =~= bytes@.subrange(0, 1) + bytes@.subrange(1, 2));
            assert(bytes@.subrange(0, 3) =~= bytes@.subrange(0, 2) + bytes@.subrange(2, 3));
            assert(bytes@.subrange(0, 3) =~= bytes@);
            assert(bytes@ == r.spec_bytes());
        }
        r
    }

    #[verifier::spinoff_prover]
    fn to_bytes(&self) -> (r: Vec<u8>) {
        let mut out: Vec<u8> = Vec::new();
        out.push(self.pin);
        out.push(self.iomux_control);
        out.push(self.bank_control);
        proof {
            lemma_gpio_bytes_pieces(*self);
        }
        out
    }
}

/// How the bytes of a Gpio split up into its fields.
pub proof fn lemma_gpio_bytes_pieces(x: Gpio)
    ensures
        x.spec_bytes().len() == 3,
        x.spec_bytes()[0] == x.spec_pin(),
        x.spec_bytes()[1] == x.spec_iomux_control(),
        x.spec_bytes()[2] == x.spec_bank_control(),
{
    lemma_auto_spec_u16_to_from_le_bytes();
    lemma_auto_spec_u32_to_from_le_bytes();
    lemma_auto_spec_u64_to_from_le_bytes();
}

/// Two values of Gpio with the same bytes are the same value.
#[verifier::spinoff_prover]
pub proof fn lemma_gpio_bytes_injective(x: Gpio, y: Gpio)
    requires
        x.spec_bytes() == y.spec_bytes(),
    ensures
        x == y,
{
    lemma_gpio_bytes_pieces(x);
    lemma_gpio_bytes_pieces(y);
    lemma_auto_spec_u16_to_from_le_bytes();
    lemma_auto_spec_u32_to_from_le_bytes();
    lemma_auto_spec_u64_to_from_le_bytes();
    assert(x.pin == y.pin);
    assert(x.iomux_control == y.iomux_control);
    assert(x.bank_control == y.bank_control);
}

impl Default for Gpio {
    fn default() -> (r: Self)
        ensures
            r.spec_pin() == 0,
            r.spec_iomux_control() == 0,
            r.spec_bank_control() == 0,
    {
        Gpio { pin: 0, iomux_control: 0, bank_control: 0 }
    }
}

impl Gpio {
    /// The value with the given fields.
    pub closed spec fn spec_of_fields(pin: u8, iomux_control: u8, bank_control: u8) -> Gpio {
        Gpio { pin, iomux_control, bank_control }
    }

    pub fn new(pin: u8, iomux_control: u8, bank_control: u8) -> (r: Self)
        ensures
            r.spec_pin() == pin,
            r.spec_iomux_control() == iomux_control,
            r.spec_bank_control() == bank_control,
            r == Gpio::spec_of_fields(pin, iomux_control, bank_control),
    {
        Self { pin, iomux_control, bank_control }
    }
}

/// How a beep code sounds: the number of peaks, the pulse width (in units of 0.1 s) and
/// the repeat count.
#[derive(Debug, Clone, Copy, PartialEq, Eq, Structural)]
pub struct ErrorOutControlBeepCodePeakAttr(u32);

impl ErrorOutControlBeepCodePeakAttr {
    /// The packed bits.
    pub closed spec fn spec_raw(self) -> u32 {
        self.0
    }

    /// The value with the given packed bits.
    pub closed spec fn spec_from_raw(raw: u32) -> Self {
        ErrorOutControlBeepCodePeakAttr(raw)
    }

    /// The packed bits determine the value, and any packed bits make a value.
    pub proof fn lemma_raw(x: Self, raw: u32)
        ensures
            Self::spec_from_raw(raw).spec_raw() == raw,
            Self::spec_from_raw(x.spec_raw()) == x,
    {
    }

    pub open spec fn spec_peak_count(self) -> u32 {
        spec_field_u32(self.spec_raw(), 0, 5)
    }

    pub open spec fn spec_pulse_width(self) -> u32 {
        spec_field_u32(self.spec_raw(), 5, 3)
    }

    pub open spec fn spec_repeat_count(self) -> u32 {
        spec_field_u32(self.spec_raw(), 8, 4)
    }

    /// All bits clear.
    pub fn new() -> (r: Self)
        ensures
            r.spec_raw() == 0,
    {
        ErrorOutControlBeepCodePeakAttr(0)
    }

    /// The value with the given packed bits.
    pub fn from_raw(raw: u32) -> (r: Self)
        ensures
            r.spec_raw() == raw,
            r == Self::spec_from_raw(raw),
    {
        ErrorOutControlBeepCodePeakAttr(raw)
    }

    /// The packed bits.
    pub fn into_raw(self) -> (r: u32)
        ensures
            r == self.spec_raw(),
    {
        self.0
    }

    pub fn peak_count(&self) -> (r: u8)
        ensures
            r == self.spec_peak_count(),
            r < 0x20,
    {
        proof {
            lemma_shift_table_u32();
        }
        field_u32(self.0, 0, 5) as u8
    }

    pub fn set_peak_count(&mut self, value: u8)
        requires
            value < 0x20,
        ensures
            final(self).spec_raw() == spec_with_field_u32(old(self).spec_raw(), 0, 5, value as u32),
            final(self).spec_peak_count() == value as u32,
            final(self).spec_pulse_width() == old(self).spec_pulse_width(),
            final(self).spec_repeat_count() == old(self).spec_repeat_count(),
    {
        let x: u32 = value as u32;
        let ghost old_raw = self.0;
        proof {
            lemma_shift_table_u32();
            lemma_with_field_same_u32(old_raw, 0, 5, x);
            lemma_with_field_other_u32(old_raw, 0, 5, x, 5, 3);
            lemma_with_field_other_u32(old_raw, 0, 5, x, 8, 4);
        }
        self.0 = with_field_u32(self.0, 0, 5, x);
    }

    pub fn with_peak_count(self, value: u8) -> (r: Self)
        requires
            value < 0x20,
        ensures
            r.spec_raw() == spec_with_field_u32(self.spec_raw(), 0, 5, value as u32),
            r.spec_peak_count() == value as u32,
            r.spec_pulse_width() == self.spec_pulse_width(),
            r.spec_repeat_count() == self.spec_repeat_count(),
    {
        let mut r = self;
        r.set_peak_count(value);
        r
    }

    pub fn pulse_width(&self) -> (r: u8)
        ensures
            r == self.spec_pulse_width(),
            r < 0x8,
    {
        proof {
            lemma_shift_table_u32();
        }
        field_u32(self.0, 5, 3) as u8
    }

    pub fn set_pulse_width(&mut self, value: u8)
        requires
            value < 0x8,
        ensures
            final(self).spec_raw() == spec_with_field_u32(old(self).spec_raw(), 5, 3, value as u32),
            final(self).spec_pulse_width() == value as u32,
            final(self).spec_peak_count() == old(self).spec_peak_count(),
            final(self).spec_repeat_count() == old(self).spec_repeat_count(),
    {
        let x: u32 = value as u32;
        let ghost old_raw = self.0;
        proof {
            lemma_shift_table_u32();
            lemma_with_field_same_u32(old_raw, 5, 3, x);
            lemma_with_field_other_u32(old_raw, 5, 3, x, 0, 5);
            lemma_with_field_other_u32(old_raw, 5, 3, x, 8, 4);
        }
        self.0 = with_field_u32(self.0, 5, 3, x);
    }

    pub fn with_pulse_width(self, value: u8) -> (r: Self)
        requires
            value < 0x8,
        ensures
            r.spec_raw() == spec_with_field_u32(self.spec_raw(), 5, 3, value as u32),
            r.spec_pulse_width() == value as u32,
            r.spec_peak_count() == self.spec_peak_count(),
            r.spec_repeat_count() == self.spec_repeat_count(),
    {
        let mut r = self;
        r.set_pulse_width(value);
        r
    }

    pub fn repeat_count(&self) -> (r: u8)
        ensures
            r == self.spec_repeat_count(),
            r < 0x10,
    {
        proof {
            lemma_shift_table_u32();
        }
        field_u32(self.0, 8, 4) as u8
    }

    pub fn set_repeat_count(&mut self, value: u8)
        requires
            value < 0x10,
        ensures
            final(self).spec_raw() == spec_with_field_u32(old(self).spec_raw(), 8, 4, value as u32),
            final(self).spec_repeat_count() == value as u32,
            final(self).spec_peak_count() == old(self).spec_peak_count(),
            final(self).spec_pulse_width() == old(self).spec_pulse_width(),
    {
        let x: u32 = value as u32;
        let ghost old_raw = self.0;
        proof {
            lemma_shift_table_u32();
            lemma_with_field_same_u32(old_raw, 8, 4, x);
            lemma_with_field_other_u32(old_raw, 8, 4, x, 0, 5);
            lemma_with_field_other_u32(old_raw, 8, 4, x, 5, 3);
        }
        self.0 = with_field_u32(self.0, 8, 4, x);
    }

    pub fn with_repeat_count(self, value: u8) -> (r: Self)
        requires
            value < 0x10,
        ensures
            r.spec_raw() == spec_with_field_u32(self.spec_raw(), 8, 4, value as u32),
            r.spec_repeat_count() == value as u32,
            r.spec_peak_count() == self.spec_peak_count(),
            r.spec_pulse_width() == self.spec_pulse_width(),
    {
        let mut r = self;
        r.set_repeat_count(value);
        r
    }

    /// The bits that have a meaning; the others are reserved.
    pub const VALID_BITS: u64 = 0xfff;

    /// Whether VALUE leaves all reserved bits clear.
    pub fn all_reserved_bits_are_unused(value: u64) -> (r: bool)
        ensures
            r == (value & !0xfffu64 == 0),
    {
        value & !Self::VALID_BITS == 0
    }

    pub fn from_u64(value: u64) -> (r: Option<Self>)
        ensures
            r is Some <==> (value & !0xfffu64 == 0 && value <= 0xffffffff),
            r matches Some(x) ==> x.spec_raw() == value,
    {
        if Self::all_reserved_bits_are_unused(value) {
            if value <= 0xffffffff {
                Some(ErrorOutControlBeepCodePeakAttr(value as u32))
            } else {
                None
            }
        } else {
            None
        }
    }

    pub fn from_i64(value: i64) -> (r: Option<Self>)
        ensures
            r is Some <==> (value >= 0 && (value as u64) & !0xfffu64 == 0 && value <= 0xffffffff),
            r matches Some(x) ==> x.spec_raw() == value,
    {
        if value >= 0 {
            Self::from_u64(value as u64)
        } else {
            None
        }
    }

    pub fn to_u64(&self) -> (r: Option<u64>)
        ensures
            r == Some(self.spec_raw() as u64),
    {
        Some(self.0 as u64)
    }

    pub fn to_i64(&self) -> (r: Option<i64>)
        ensures
            r == Some(self.spec_raw() as i64),
    {
        Some(self.0 as i64)
    }

}

/// The kind of error that a beep code reports.
#[derive(Debug, PartialEq, Eq, Clone, Copy, Structural)]
pub enum ErrorOutControlBeepCodeErrorType {
    General,
    Memory,
    Df,
    Ccx,
    Gnb,
    Psp,
    Smu,
    Unknown,
}

impl ErrorOutControlBeepCodeErrorType {
    /// The number that stands for this value.
    pub open spec fn spec_to_u64(self) -> u64 {
        match self {
            ErrorOutControlBeepCodeErrorType::General => 0x3,
            ErrorOutControlBeepCodeErrorType::Memory => 0x4,
            ErrorOutControlBeepCodeErrorType::Df => 0x5,
            ErrorOutControlBeepCodeErrorType::Ccx => 0x6,
            ErrorOutControlBeepCodeErrorType::Gnb => 0x7,
            ErrorOutControlBeepCodeErrorType::Psp => 0x8,
            ErrorOutControlBeepCodeErrorType::Smu => 0x9,
            ErrorOutControlBeepCodeErrorType::Unknown => 0xf,
        }
    }

    /// The value that VALUE stands for, if any.
    pub open spec fn spec_from_u64(value: u64) -> Option<ErrorOutControlBeepCodeErrorType> {
        match value {
            0x3 => Some(ErrorOutControlBeepCodeErrorType::General),
            0x4 => Some(ErrorOutControlBeepCodeErrorType::Memory),
            0x5 => Some(ErrorOutControlBeepCodeErrorType::Df),
            0x6 => Some(ErrorOutControlBeepCodeErrorType::Ccx),
            0x7 => Some(ErrorOutControlBeepCodeErrorType::Gnb),
            0x8 => Some(ErrorOutControlBeepCodeErrorType::Psp),
            0x9 => Some(ErrorOutControlBeepCodeErrorType::Smu),
            0xf => Some(ErrorOutControlBeepCodeErrorType::Unknown),
            _ => None,
        }
    }

    pub fn from_u64(value: u64) -> (r: Option<ErrorOutControlBeepCodeErrorType>)
        ensures
            r == ErrorOutControlBeepCodeErrorType::spec_from_u64(value),
    {
        match value {
            0x3 => Some(ErrorOutControlBeepCodeErrorType::General),
            0x4 => Some(ErrorOutControlBeepCodeErrorType::Memory),
            0x5 => Some(ErrorOutControlBeepCodeErrorType::Df),
            0x6 => Some(ErrorOutControlBeepCodeErrorType::Ccx),
            0x7 => Some(ErrorOutControlBeepCodeErrorType::Gnb),
            0x8 => Some(ErrorOutControlBeepCodeErrorType::Psp),
            0x9 => Some(ErrorOutControlBeepCodeErrorType::Smu),
            0xf => Some(ErrorOutControlBeepCodeErrorType::Unknown),
            _ => None,
        }
    }

    pub fn to_u64(&self) -> (r: Option<u64>)
        ensures
            r == Some(self.spec_to_u64()),
    {
        Some(
            match self {
                ErrorOutControlBeepCodeErrorType::General => 0x3,
                ErrorOutControlBeepCodeErrorType::Memory => 0x4,
                ErrorOutControlBeepCodeErrorType::Df => 0x5,
                ErrorOutControlBeepCodeErrorType::Ccx => 0x6,
                ErrorOutControlBeepCodeErrorType::Gnb => 0x7,
                ErrorOutControlBeepCodeErrorType::Psp => 0x8,
                ErrorOutControlBeepCodeErrorType::Smu => 0x9,
                ErrorOutControlBeepCodeErrorType::Unknown => 0xf,
            },
        )
    }
}

/// Every value of ErrorOutControlBeepCodeErrorType is read back from its own number, and every number that is
/// read as a value is that value's number.
pub proof fn lemma_error_out_control_beep_code_error_type_roundtrip(x: ErrorOutControlBeepCodeErrorType, value: u64)
    ensures
        ErrorOutControlBeepCodeErrorType::spec_from_u64(x.spec_to_u64()) == Some(x),
        ErrorOutControlBeepCodeErrorType::spec_from_u64(value) matches Some(y) ==> y.spec_to_u64() == value,
{
}

/// One beep code: the error type (in the top four bits of the first field), which peaks
/// sound, and how.
#[allow(non_camel_case_types)]
#[derive(Debug, Clone, Copy, PartialEq, Eq, Structural)]
pub struct ErrorOutControlBeepCode {
    pub(crate) error_type: u16,
    pub(crate) peak_map: u16,
    pub(crate) peak_attr: u32,
}

impl ErrorOutControlBeepCode {
    pub closed spec fn spec_error_type(self) -> u16 {
        self.error_type
    }

    pub closed spec fn spec_peak_map(self) -> u16 {
        self.peak_map
    }

    pub closed spec fn spec_peak_attr(self) -> u32 {
        self.peak_attr
    }

    pub fn peak_map(&self) -> (r: Result<u16>)
        ensures
            r == Ok::<u16, Error>(self.spec_peak_map()),
    {
        Ok(self.peak_map)
    }

    pub fn set_peak_map(&mut self, value: u16)
        ensures
            final(self).spec_peak_map() == value,
            final(self).spec_error_type() == old(self).spec_error_type(),
            final(self).spec_peak_attr() == old(self).spec_peak_attr(),
    {
        self.peak_map = value;
    }

    pub fn peak_attr(&self) -> (r: Result<ErrorOutControlBeepCodePeakAttr>)
        ensures
            r is Ok <==> (self.spec_peak_attr() as u64) & !0xfffu64 == 0,
            r matches Ok(b) ==> b.spec_raw() == self.spec_peak_attr(),
    {
        proof {
            if (self.peak_attr as u64) & !0xfffu64 == 0 {
                lemma_masked_bound_u64(self.peak_attr as u64, 0xfffu64);
            }
        }
        match ErrorOutControlBeepCodePeakAttr::from_u64(self.peak_attr as u64) {
            Some(b) => Ok(b),
            None => Err(Error::EntryTypeMismatch),
        }
    }

    pub fn set_peak_attr(&mut self, value: ErrorOutControlBeepCodePeakAttr)
        ensures
            final(self).spec_peak_attr() == value.spec_raw() as u32,
            final(self).spec_error_type() == old(self).spec_error_type(),
            final(self).spec_peak_map() == old(self).spec_peak_map(),
    {
        self.peak_attr = value.into_raw() as u32;
    }

}

impl ErrorOutControlBeepCode {
    /// The bytes that store this value on disk.
    pub closed spec fn spec_bytes(self) -> Seq<u8> {
        spec_u16_to_le_bytes(self.error_type)
            + spec_u16_to_le_bytes(self.peak_map)
            + spec_u32_to_le_bytes(self.peak_attr)
    }
}

impl ByteLayout for ErrorOutControlBeepCode {
    open spec fn spec_size() -> nat {
        8
    }

    open spec fn spec_to_bytes(self) -> Seq<u8> {
        self.spec_bytes()
    }

    fn size() -> (r: usize) {
        8
    }

    #[verifier::spinoff_prover]
    fn from_bytes(bytes: &[u8]) -> (r: Self) {
        let error_type: u16 = u16_from_le_bytes(slice_subrange(bytes, 0, 2));
        let peak_map: u16 = u16_from_le_bytes(slice_subrange(bytes, 2, 4));
        let peak_attr: u32 = u32_from_le_bytes(slice_subrange(bytes, 4, 8));
        let r = ErrorOutControlBeepCode { error_type, peak_map, peak_attr };
        proof {
            lemma_auto_spec_u16_to_from_le_bytes();
            lemma_auto_spec_u32_to_from_le_bytes();
            lemma_auto_spec_u64_to_from_le_bytes();
            lemma_error_out_control_beep_code_bytes_pieces(r);
            assert(bytes@.subrange(0, 2) == spec_u16_to_le_bytes(error_type));
            assert(bytes@.subrange(2, 4) == spec_u16_to_le_bytes(peak_map));
            assert(bytes@.subrange(4, 8) == spec_u32_to_le_bytes(peak_attr));
            assert(bytes@.subrange(0, 4) =~= bytes@.subrange(0, 2) + bytes@.subrange(2, 4));
            assert(bytes@.subrange(0, 8) =~= bytes@.subrange(0, 4) + bytes@.subrange(4, 8));
            assert(bytes@.subrange(0, 8) =~= bytes@);
            assert(bytes@ == r.spec_bytes());
        }
        r
    }

    #[verifier::spinoff_prover]
    fn to_bytes(&self) -> (r: Vec<u8>) {
        let mut out: Vec<u8> = Vec::new();
        append_bytes(&mut out, &le_bytes_u16(self.error_type));
        append_bytes(&mut out, &le_bytes_u16(self.peak_map));
        append_bytes(&mut out, &le_bytes_u32(self.peak_attr));
        proof {
            lemma_error_out_control_beep_code_bytes_pieces(*self);
        }
        out
    }
}

/// How the bytes of a ErrorOutControlBeepCode split up into its fields.
pub proof fn lemma_error_out_control_beep_code_bytes_pieces(x: ErrorOutControlBeepCode)
    ensures
        x.spec_bytes().len() == 8,
        x.spec_bytes().subrange(0, 2) == spec_u16_to_le_bytes(x.spec_error_type()),
        x.spec_bytes().subrange(2, 4) == spec_u16_to_le_bytes(x.spec_peak_map()),
        x.spec_bytes().subrange(4, 8) == spec_u32_to_le_bytes(x.spec_peak_attr()),
{
    lemma_auto_spec_u16_to_from_le_bytes();
    lemma_auto_spec_u32_to_from_le_bytes();
    lemma_auto_spec_u64_to_from_le_bytes();
    assert(x.spec_bytes().subrange(0, 2) == spec_u16_to_le_bytes(x.error_type));
    assert(x.spec_bytes().subrange(2, 4) == spec_u16_to_le_bytes(x.peak_map));
    assert(x.spec_bytes().subrange(4, 8) == spec_u32_to_le_bytes(x.peak_attr));
}

/// Two values of ErrorOutControlBeepCode with the same bytes are the same value.
#[verifier::spinoff_prover]
pub proof fn lemma_error_out_control_beep_code_bytes_injective(x: ErrorOutControlBeepCode, y: ErrorOutControlBeepCode)
    requires
        x.spec_bytes() == y.spec_bytes(),
    ensures
        x == y,
{
    lemma_error_out_control_beep_code_bytes_pieces(x);
    lemma_error_out_control_beep_code_bytes_pieces(y);
    lemma_auto_spec_u16_to_from_le_bytes();
    lemma_auto_spec_u32_to_from_le_bytes();
    lemma_auto_spec_u64_to_from_le_bytes();
    assert(spec_u16_from_le_bytes(spec_u16_to_le_bytes(x.error_type)) == spec_u16_from_le_bytes(spec_u16_to_le_bytes(y.error_type)));
    assert(spec_u16_from_le_bytes(spec_u16_to_le_bytes(x.peak_map)) == spec_u16_from_le_bytes(spec_u16_to_le_bytes(y.peak_map)));
    assert(spec_u32_from_le_bytes(spec_u32_to_le_bytes(x.peak_attr)) == spec_u32_from_le_bytes(spec_u32_to_le_bytes(y.peak_attr)));
}

/// The error type that a stored first field stands for: its top four bits.
pub open spec fn spec_beep_error_type(raw: u16) -> Option<ErrorOutControlBeepCodeErrorType> {
    ErrorOutControlBeepCodeErrorType::spec_from_u64(spec_field_u16(raw, 12, 4) as u64)
}

impl ErrorOutControlBeepCode {
    /// The value with the given stored fields.
    pub closed spec fn spec_of_fields(error_type: u16, peak_map: u16, peak_attr: u32) -> ErrorOutControlBeepCode {
        ErrorOutControlBeepCode { error_type, peak_map, peak_attr }
    }

    /// The error type, from the top four bits of the first field.
    pub fn error_type(&self) -> (r: Result<ErrorOutControlBeepCodeErrorType>)
        ensures
            r == match spec_beep_error_type(self.spec_error_type()) {
                Some(e) => Ok::<ErrorOutControlBeepCodeErrorType, Error>(e),
                None => Err(Error::EntryTypeMismatch),
            },
    {
        proof {
            lemma_shift_table_u16();
        }
        match ErrorOutControlBeepCodeErrorType::from_u64(field_u16(self.error_type, 12, 4) as u64) {
            Some(e) => Ok(e),
            None => Err(Error::EntryTypeMismatch),
        }
    }

    /// Sets the top four bits of the first field to VALUE; the low twelve bits stay.
    pub fn set_error_type(&mut self, value: ErrorOutControlBeepCodeErrorType)
        ensures
            final(self).spec_error_type() == spec_with_field_u16(
                old(self).spec_error_type(),
                12,
                4,
                value.spec_to_u64() as u16,
            ),
            spec_beep_error_type(final(self).spec_error_type()) == Some(value),
            spec_field_u16(final(self).spec_error_type(), 0, 12) == spec_field_u16(old(self).spec_error_type(), 0, 12),
            final(self).spec_peak_map() == old(self).spec_peak_map(),
            final(self).spec_peak_attr() == old(self).spec_peak_attr(),
    {
        let x: u16 = value.to_u64().unwrap() as u16;
        proof {
            lemma_shift_table_u16();
            lemma_with_field_same_u16(self.error_type, 12, 4, x);
            lemma_with_field_other_u16(self.error_type, 12, 4, x, 0, 12);
            lemma_error_out_control_beep_code_error_type_roundtrip(value, 0);
        }
        self.error_type = with_field_u16(self.error_type, 12, 4, x);
    }

    /// Sets the error type (as set_error_type does) and hands the beep code back.
    pub fn with_error_type(&mut self, value: ErrorOutControlBeepCodeErrorType) -> (r: &mut Self)
        ensures
            r.spec_error_type() == spec_with_field_u16(old(self).spec_error_type(), 12, 4, value.spec_to_u64() as u16),
            spec_beep_error_type(r.spec_error_type()) == Some(value),
            r.spec_peak_map() == old(self).spec_peak_map(),
            r.spec_peak_attr() == old(self).spec_peak_attr(),
            *final(self) == *final(r),
    {
        self.set_error_type(value);
        self
    }

    /// A beep code for ERROR_TYPE; the low twelve bits of the first field are all set.
    pub fn new(
        error_type: ErrorOutControlBeepCodeErrorType,
        peak_map: u16,
        peak_attr: ErrorOutControlBeepCodePeakAttr,
    ) -> (r: Self)
        ensures
            r.spec_error_type() == spec_with_field_u16(0x0fff, 12, 4, error_type.spec_to_u64() as u16),
            spec_beep_error_type(r.spec_error_type()) == Some(error_type),
            spec_field_u16(r.spec_error_type(), 0, 12) == 0x0fff,
            r.spec_peak_map() == peak_map,
            r.spec_peak_attr() == peak_attr.spec_raw(),
    {
        let x: u16 = error_type.to_u64().unwrap() as u16;
        proof {
            lemma_shift_table_u16();
            lemma_with_field_same_u16(0x0fff, 12, 4, x);
            lemma_with_field_other_u16(0x0fff, 12, 4, x, 0, 12);
            lemma_error_out_control_beep_code_error_type_roundtrip(error_type, 0);
            assert(spec_field_u16(0x0fff, 0, 12) == 0x0fff) by (bit_vector);
        }
        Self { error_type: with_field_u16(0x0fff, 12, 4, x), peak_map, peak_attr: peak_attr.into_raw() }
    }
}

/// Setting the error type of a beep code, seen in its bytes: the error type then read is
/// the one set, the low twelve bits of the first (little-endian) field stay, and the other
/// six bytes stay. BEFORE is the beep code before the call and AFTER the one after it, related
/// as `set_error_type` states.
pub proof fn lemma_error_out_control_beep_code_set_error_type_bytes(
    before: ErrorOutControlBeepCode,
    after: ErrorOutControlBeepCode,
    t: ErrorOutControlBeepCodeErrorType,
)
    requires
        after.spec_error_type() == spec_with_field_u16(before.spec_error_type(), 12, 4, t.spec_to_u64() as u16),
        after.spec_peak_map() == before.spec_peak_map(),
        after.spec_peak_attr() == before.spec_peak_attr(),
    ensures
        spec_beep_error_type(after.spec_error_type()) == Some(t),
        spec_u16_from_le_bytes(after.spec_to_bytes().subrange(0, 2)) & 0x0fff
            == spec_u16_from_le_bytes(before.spec_to_bytes().subrange(0, 2)) & 0x0fff,
        after.spec_to_bytes().subrange(2, 8) == before.spec_to_bytes().subrange(2, 8),
{
    lemma_auto_spec_u16_to_from_le_bytes();
    lemma_error_out_control_beep_code_bytes_pieces(before);
    lemma_error_out_control_beep_code_bytes_pieces(after);
    lemma_error_out_control_beep_code_error_type_roundtrip(t, 0);
    lemma_shift_table_u16();
    let v = before.error_type;
    let x = t.spec_to_u64() as u16;
    assert(t.spec_to_u64() < 16);
    lemma_with_field_same_u16(v, 12, 4, x);
    assert(spec_with_field_u16(v, 12, 4, x) & 0x0fff == v & 0x0fff) by (bit_vector);
    assert(after.spec_bytes().subrange(2, 8) =~= after.spec_bytes().subrange(2, 4) + after.spec_bytes().subrange(4, 8));
    assert(before.spec_bytes().subrange(2, 8) =~= before.spec_bytes().subrange(2, 4) + before.spec_bytes().subrange(4, 8));
}

impl Default for ErrorOutControlBeepCode {
    fn default() -> (r: Self)
        ensures
            spec_beep_error_type(r.spec_error_type()) == Some(ErrorOutControlBeepCodeErrorType::General),
            spec_field_u16(r.spec_error_type(), 0, 12) == 0x0fff,
            r.spec_peak_map() == 0,
            r.spec_peak_attr() == 0,
    {
        Self::new(ErrorOutControlBeepCodeErrorType::General, 0, ErrorOutControlBeepCodePeakAttr::new())
    }
}

/// How the ABL reports errors (layout of 116 bytes).
#[allow(non_camel_case_types)]
#[derive(Debug, Clone, Copy)]
pub struct ErrorOutControl116 {
    pub(crate) enable_error_reporting: u8,
    pub(crate) enable_error_reporting_gpio: u8,
    pub(crate) enable_error_reporting_beep_codes: u8,
    pub(crate) enable_using_handshake: u8,
    pub(crate) input_port: u32,
    pub(crate) output_delay: u32,
    pub(crate) output_port: u32,
    pub(crate) stop_on_first_fatal_error: u8,
    pub(crate) _reserved_: [u8; 3],
    pub(crate) input_port_size: u32,
    pub(crate) output_port_size: u32,
    pub(crate) input_port_type: u32,
    pub(crate) output_port_type: u32,
    pub(crate) clear_acknowledgement: u8,
    pub(crate) _reserved_before_gpio: [u8; 3],
    pub error_reporting_gpio: Gpio,
    pub(crate) _reserved_after_gpio: [u8; 1],
    pub(crate) beep_code_table: [ErrorOutControlBeepCode; 8],
    pub(crate) enable_heart_beat: u8,
    pub(crate) enable_power_good_gpio: u8,
    pub power_good_gpio: Gpio,
    pub(crate) _reserved_end: [u8; 3],
}

impl ErrorOutControl116 {
    pub closed spec fn spec_enable_error_reporting(self) -> u8 {
        self.enable_error_reporting
    }

    pub closed spec fn spec_enable_error_reporting_gpio(self) -> u8 {
        self.enable_error_reporting_gpio
    }

    pub closed spec fn spec_enable_error_reporting_beep_codes(self) -> u8 {
        self.enable_error_reporting_beep_codes
    }

    pub closed spec fn spec_enable_using_handshake(self) -> u8 {
        self.enable_using_handshake
    }

    pub closed spec fn spec_input_port(self) -> u32 {
        self.input_port
    }

    pub closed spec fn spec_output_delay(self) -> u32 {
        self.output_delay
    }

    pub closed spec fn spec_output_port(self) -> u32 {
        self.output_port
    }

    pub closed spec fn spec_stop_on_first_fatal_error(self) -> u8 {
        self.stop_on_first_fatal_error
    }

    pub closed spec fn spec__reserved_(self) -> [u8; 3] {
        self._reserved_
    }

    pub closed spec fn spec_input_port_size(self) -> u32 {
        self.input_port_size
    }

    pub closed spec fn spec_output_port_size(self) -> u32 {
        self.output_port_size
    }

    pub closed spec fn spec_input_port_type(self) -> u32 {
        self.input_port_type
    }

    pub closed spec fn spec_output_port_type(self) -> u32 {
        self.output_port_type
    }

    pub closed spec fn spec_clear_acknowledgement(self) -> u8 {
        self.clear_acknowledgement
    }

    pub closed spec fn spec__reserved_before_gpio(self) -> [u8; 3] {
        self._reserved_before_gpio
    }

    pub closed spec fn spec_error_reporting_gpio(self) -> Gpio {
        self.error_reporting_gpio
    }

    pub closed spec fn spec__reserved_after_gpio(self) -> [u8; 1] {
        self._reserved_after_gpio
    }

    pub closed spec fn spec_beep_code_table(self) -> [ErrorOutControlBeepCode; 8] {
        self.beep_code_table
    }

    pub closed spec fn spec_enable_heart_beat(self) -> u8 {
        self.enable_heart_beat
    }

    pub closed spec fn spec_enable_power_good_gpio(self) -> u8 {
        self.enable_power_good_gpio
    }

    pub closed spec fn spec_power_good_gpio(self) -> Gpio {
        self.power_good_gpio
    }

    pub closed spec fn spec__reserved_end(self) -> [u8; 3] {
        self._reserved_end
    }

    pub fn enable_error_reporting(&self) -> (r: Result<bool>)
        ensures
            r == spec_bool_result_of_raw(self.spec_enable_error_reporting() as int),
    {
        match self.enable_error_reporting {
            0 => Ok(false),
            1 => Ok(true),
            _ => Err(Error::EntryTypeMismatch),
        }
    }

    pub fn set_enable_error_reporting(&mut self, value: bool)
        ensures
            final(self).spec_enable_error_reporting() == spec_raw_of_bool(value) as u8,
            final(self).spec_enable_error_reporting_gpio() == old(self).spec_enable_error_reporting_gpio(),
            final(self).spec_enable_error_reporting_beep_codes() == old(self).spec_enable_error_reporting_beep_codes(),
            final(self).spec_enable_using_handshake() == old(self).spec_enable_using_handshake(),
            final(self).spec_input_port() == old(self).spec_input_port(),
            final(self).spec_output_delay() == old(self).spec_output_delay(),
            final(self).spec_output_port() == old(self).spec_output_port(),
            final(self).spec_stop_on_first_fatal_error() == old(self).spec_stop_on_first_fatal_error(),
            final(self).spec__reserved_() == old(self).spec__reserved_(),
            final(self).spec_input_port_size() == old(self).spec_input_port_size(),
            final(self).spec_output_port_size() == old(self).spec_output_port_size(),
            final(self).spec_input_port_type() == old(self).spec_input_port_type(),
            final(self).spec_output_port_type() == old(self).spec_output_port_type(),
            final(self).spec_clear_acknowledgement() == old(self).spec_clear_acknowledgement(),
            final(self).spec__reserved_before_gpio() == old(self).spec__reserved_before_gpio(),
            final(self).spec_error_reporting_gpio() == old(self).spec_error_reporting_gpio(),
            final(self).spec__reserved_after_gpio() == old(self).spec__reserved_after_gpio(),
            final(self).spec_beep_code_table() == old(self).spec_beep_code_table(),
            final(self).spec_enable_heart_beat() == old(self).spec_enable_heart_beat(),
            final(self).spec_enable_power_good_gpio() == old(self).spec_enable_power_good_gpio(),
            final(self).spec_power_good_gpio() == old(self).spec_power_good_gpio(),
            final(self).spec__reserved_end() == old(self).spec__reserved_end(),
    {
        self.enable_error_reporting = if value { 1 } else { 0 };
    }

    pub fn enable_error_reporting_gpio(&self) -> (r: Result<bool>)
        ensures
            r == spec_bool_result_of_raw(self.spec_enable_error_reporting_gpio() as int),
    {
        match self.enable_error_reporting_gpio {
            0 => Ok(false),
            1 => Ok(true),
            _ => Err(Error::EntryTypeMismatch),
        }
    }

    pub fn set_enable_error_reporting_gpio(&mut self, value: bool)
        ensures
            final(self).spec_enable_error_reporting_gpio() == spec_raw_of_bool(value) as u8,
            final(self).spec_enable_error_reporting() == old(self).spec_enable_error_reporting(),
            final(self).spec_enable_error_reporting_beep_codes() == old(self).spec_enable_error_reporting_beep_codes(),
            final(self).spec_enable_using_handshake() == old(self).spec_enable_using_handshake(),
            final(self).spec_input_port() == old(self).spec_input_port(),
            final(self).spec_output_delay() == old(self).spec_output_delay(),
            final(self).spec_output_port() == old(self).spec_output_port(),
            final(self).spec_stop_on_first_fatal_error() == old(self).spec_stop_on_first_fatal_error(),
            final(self).spec__reserved_() == old(self).spec__reserved_(),
            final(self).spec_input_port_size() == old(self).spec_input_port_size(),
            final(self).spec_output_port_size() == old(self).spec_output_port_size(),
            final(self).spec_input_port_type() == old(self).spec_input_port_type(),
            final(self).spec_output_port_type() == old(self).spec_output_port_type(),
            final(self).spec_clear_acknowledgement() == old(self).spec_clear_acknowledgement(),
            final(self).spec__reserved_before_gpio() == old(self).spec__reserved_before_gpio(),
            final(self).spec_error_reporting_gpio() == old(self).spec_error_reporting_gpio(),
            final(self).spec__reserved_after_gpio() == old(self).spec__reserved_after_gpio(),
            final(self).spec_beep_code_table() == old(self).spec_beep_code_table(),
            final(self).spec_enable_heart_beat() == old(self).spec_enable_heart_beat(),
            final(self).spec_enable_power_good_gpio() == old(self).spec_enable_power_good_gpio(),
            final(self).spec_power_good_gpio() == old(self).spec_power_good_gpio(),
            final(self).spec__reserved_end() == old(self).spec__reserved_end(),
    {
        self.enable_error_reporting_gpio = if value { 1 } else { 0 };
    }

    pub fn enable_error_reporting_beep_codes(&self) -> (r: Result<bool>)
        ensures
            r == spec_bool_result_of_raw(self.spec_enable_error_reporting_beep_codes() as int),
    {
        match self.enable_error_reporting_beep_codes {
            0 => Ok(false),
            1 => Ok(true),
            _ => Err(Error::EntryTypeMismatch),
        }
    }

    pub fn set_enable_error_reporting_beep_codes(&mut self, value: bool)
        ensures
            final(self).spec_enable_error_reporting_beep_codes() == spec_raw_of_bool(value) as u8,
            final(self).spec_enable_error_reporting() == old(self).spec_enable_error_reporting(),
            final(self).spec_enable_error_reporting_gpio() == old(self).spec_enable_error_reporting_gpio(),
            final(self).spec_enable_using_handshake() == old(self).spec_enable_using_handshake(),
            final(self).spec_input_port() == old(self).spec_input_port(),
            final(self).spec_output_delay() == old(self).spec_output_delay(),
            final(self).spec_output_port() == old(self).spec_output_port(),
            final(self).spec_stop_on_first_fatal_error() == old(self).spec_stop_on_first_fatal_error(),
            final(self).spec__reserved_() == old(self).spec__reserved_(),
            final(self).spec_input_port_size() == old(self).spec_input_port_size(),
            final(self).spec_output_port_size() == old(self).spec_output_port_size(),
            final(self).spec_input_port_type() == old(self).spec_input_port_type(),
            final(self).spec_output_port_type() == old(self).spec_output_port_type(),
            final(self).spec_clear_acknowledgement() == old(self).spec_clear_acknowledgement(),
            final(self).spec__reserved_before_gpio() == old(self).spec__reserved_before_gpio(),
            final(self).spec_error_reporting_gpio() == old(self).spec_error_reporting_gpio(),
            final(self).spec__reserved_after_gpio() == old(self).spec__reserved_after_gpio(),
            final(self).spec_beep_code_table() == old(self).spec_beep_code_table(),
            final(self).spec_enable_heart_beat() == old(self).spec_enable_heart_beat(),
            final(self).spec_enable_power_good_gpio() == old(self).spec_enable_power_good_gpio(),
            final(self).spec_power_good_gpio() == old(self).spec_power_good_gpio(),
            final(self).spec__reserved_end() == old(self).spec__reserved_end(),
    {
        self.enable_error_reporting_beep_codes = if value { 1 } else { 0 };
    }

    pub fn enable_using_handshake(&self) -> (r: Result<bool>)
        ensures
            r == spec_bool_result_of_raw(self.spec_enable_using_handshake() as int),
    {
        match self.enable_using_handshake {
            0 => Ok(false),
            1 => Ok(true),
            _ => Err(Error::EntryTypeMismatch),
        }
    }

    pub fn set_enable_using_handshake(&mut self, value: bool)
        ensures
            final(self).spec_enable_using_handshake() == spec_raw_of_bool(value) as u8,
            final(self).spec_enable_error_reporting() == old(self).spec_enable_error_reporting(),
            final(self).spec_enable_error_reporting_gpio() == old(self).spec_enable_error_reporting_gpio(),
            final(self).spec_enable_error_reporting_beep_codes() == old(self).spec_enable_error_reporting_beep_codes(),
            final(self).spec_input_port() == old(self).spec_input_port(),
            final(self).spec_output_delay() == old(self).spec_output_delay(),
            final(self).spec_output_port() == old(self).spec_output_port(),
            final(self).spec_stop_on_first_fatal_error() == old(self).spec_stop_on_first_fatal_error(),
            final(self).spec__reserved_() == old(self).spec__reserved_(),
            final(self).spec_input_port_size() == old(self).spec_input_port_size(),
            final(self).spec_output_port_size() == old(self).spec_output_port_size(),
            final(self).spec_input_port_type() == old(self).spec_input_port_type(),
            final(self).spec_output_port_type() == old(self).spec_output_port_type(),
            final(self).spec_clear_acknowledgement() == old(self).spec_clear_acknowledgement(),
            final(self).spec__reserved_before_gpio() == old(self).spec__reserved_before_gpio(),
            final(self).spec_error_reporting_gpio() == old(self).spec_error_reporting_gpio(),
            final(self).spec__reserved_after_gpio() == old(self).spec__reserved_after_gpio(),
            final(self).spec_beep_code_table() == old(self).spec_beep_code_table(),
            final(self).spec_enable_heart_beat() == old(self).spec_enable_heart_beat(),
            final(self).spec_enable_power_good_gpio() == old(self).spec_enable_power_good_gpio(),
            final(self).spec_power_good_gpio() == old(self).spec_power_good_gpio(),
            final(self).spec__reserved_end() == old(self).spec__reserved_end(),
    {
        self.enable_using_handshake = if value { 1 } else { 0 };
    }

    pub fn input_port(&self) -> (r: Result<u32>)
        ensures
            r == Ok::<u32, Error>(self.spec_input_port()),
    {
        Ok(self.input_port)
    }

    pub fn set_input_port(&mut self, value: u32)
        ensures
            final(self).spec_input_port() == value,
            final(self).spec_enable_error_reporting() == old(self).spec_enable_error_reporting(),
            final(self).spec_enable_error_reporting_gpio() == old(self).spec_enable_error_reporting_gpio(),
            final(self).spec_enable_error_reporting_beep_codes() == old(self).spec_enable_error_reporting_beep_codes(),
            final(self).spec_enable_using_handshake() == old(self).spec_enable_using_handshake(),
            final(self).spec_output_delay() == old(self).spec_output_delay(),
            final(self).spec_output_port() == old(self).spec_output_port(),
            final(self).spec_stop_on_first_fatal_error() == old(self).spec_stop_on_first_fatal_error(),
            final(self).spec__reserved_() == old(self).spec__reserved_(),
            final(self).spec_input_port_size() == old(self).spec_input_port_size(),
            final(self).spec_output_port_size() == old(self).spec_output_port_size(),
            final(self).spec_input_port_type() == old(self).spec_input_port_type(),
            final(self).spec_output_port_type() == old(self).spec_output_port_type(),
            final(self).spec_clear_acknowledgement() == old(self).spec_clear_acknowledgement(),
            final(self).spec__reserved_before_gpio() == old(self).spec__reserved_before_gpio(),
            final(self).spec_error_reporting_gpio() == old(self).spec_error_reporting_gpio(),
            final(self).spec__reserved_after_gpio() == old(self).spec__reserved_after_gpio(),
            final(self).spec_beep_code_table() == old(self).spec_beep_code_table(),
            final(self).spec_enable_heart_beat() == old(self).spec_enable_heart_beat(),
            final(self).spec_enable_power_good_gpio() == old(self).spec_enable_power_good_gpio(),
            final(self).spec_power_good_gpio() == old(self).spec_power_good_gpio(),
            final(self).spec__reserved_end() == old(self).spec__reserved_end(),
    {
        self.input_port = value;
    }

    pub fn output_delay(&self) -> (r: Result<u32>)
        ensures
            r == Ok::<u32, Error>(self.spec_output_delay()),
    {
        Ok(self.output_delay)
    }

    pub fn set_output_delay(&mut self, value: u32)
        ensures
            final(self).spec_output_delay() == value,
            final(self).spec_enable_error_reporting() == old(self).spec_enable_error_reporting(),
            final(self).spec_enable_error_reporting_gpio() == old(self).spec_enable_error_reporting_gpio(),
            final(self).spec_enable_error_reporting_beep_codes() == old(self).spec_enable_error_reporting_beep_codes(),
            final(self).spec_enable_using_handshake() == old(self).spec_enable_using_handshake(),
            final(self).spec_input_port() == old(self).spec_input_port(),
            final(self).spec_output_port() == old(self).spec_output_port(),
            final(self).spec_stop_on_first_fatal_error() == old(self).spec_stop_on_first_fatal_error(),
            final(self).spec__reserved_() == old(self).spec__reserved_(),
            final(self).spec_input_port_size() == old(self).spec_input_port_size(),
            final(self).spec_output_port_size() == old(self).spec_output_port_size(),
            final(self).spec_input_port_type() == old(self).spec_input_port_type(),
            final(self).spec_output_port_type() == old(self).spec_output_port_type(),
            final(self).spec_clear_acknowledgement() == old(self).spec_clear_acknowledgement(),
            final(self).spec__reserved_before_gpio() == old(self).spec__reserved_before_gpio(),
            final(self).spec_error_reporting_gpio() == old(self).spec_error_reporting_gpio(),
            final(self).spec__reserved_after_gpio() == old(self).spec__reserved_after_gpio(),
            final(self).spec_beep_code_table() == old(self).spec_beep_code_table(),
            final(self).spec_enable_heart_beat() == old(self).spec_enable_heart_beat(),
            final(self).spec_enable_power_good_gpio() == old(self).spec_enable_power_good_gpio(),
            final(self).spec_power_good_gpio() == old(self).spec_power_good_gpio(),
            final(self).spec__reserved_end() == old(self).spec__reserved_end(),
    {
        self.output_delay = value;
    }

    pub fn output_port(&self) -> (r: Result<u32>)
        ensures
            r == Ok::<u32, Error>(self.spec_output_port()),
    {
        Ok(self.output_port)
    }

    pub fn set_output_port(&mut self, value: u32)
        ensures
            final(self).spec_output_port() == value,
            final(self).spec_enable_error_reporting() == old(self).spec_enable_error_reporting(),
            final(self).spec_enable_error_reporting_gpio() == old(self).spec_enable_error_reporting_gpio(),
            final(self).spec_enable_error_reporting_beep_codes() == old(self).spec_enable_error_reporting_beep_codes(),
            final(self).spec_enable_using_handshake() == old(self).spec_enable_using_handshake(),
            final(self).spec_input_port() == old(self).spec_input_port(),
            final(self).spec_output_delay() == old(self).spec_output_delay(),
            final(self).spec_stop_on_first_fatal_error() == old(self).spec_stop_on_first_fatal_error(),
            final(self).spec__reserved_() == old(self).spec__reserved_(),
            final(self).spec_input_port_size() == old(self).spec_input_port_size(),
            final(self).spec_output_port_size() == old(self).spec_output_port_size(),
            final(self).spec_input_port_type() == old(self).spec_input_port_type(),
            final(self).spec_output_port_type() == old(self).spec_output_port_type(),
            final(self).spec_clear_acknowledgement() == old(self).spec_clear_acknowledgement(),
            final(self).spec__reserved_before_gpio() == old(self).spec__reserved_before_gpio(),
            final(self).spec_error_reporting_gpio() == old(self).spec_error_reporting_gpio(),
            final(self).spec__reserved_after_gpio() == old(self).spec__reserved_after_gpio(),
            final(self).spec_beep_code_table() == old(self).spec_beep_code_table(),
            final(self).spec_enable_heart_beat() == old(self).spec_enable_heart_beat(),
            final(self).spec_enable_power_good_gpio() == old(self).spec_enable_power_good_gpio(),
            final(self).spec_power_good_gpio() == old(self).spec_power_good_gpio(),
            final(self).spec__reserved_end() == old(self).spec__reserved_end(),
    {
        self.output_port = value;
    }

    pub fn stop_on_first_fatal_error(&self) -> (r: Result<bool>)
        ensures
            r == spec_bool_result_of_raw(self.spec_stop_on_first_fatal_error() as int),
    {
        match self.stop_on_first_fatal_error {
            0 => Ok(false),
            1 => Ok(true),
            _ => Err(Error::EntryTypeMismatch),
        }
    }

    pub fn set_stop_on_first_fatal_error(&mut self, value: bool)
        ensures
            final(self).spec_stop_on_first_fatal_error() == spec_raw_of_bool(value) as u8,
            final(self).spec_enable_error_reporting() == old(self).spec_enable_error_reporting(),
            final(self).spec_enable_error_reporting_gpio() == old(self).spec_enable_error_reporting_gpio(),
            final(self).spec_enable_error_reporting_beep_codes() == old(self).spec_enable_error_reporting_beep_codes(),
            final(self).spec_enable_using_handshake() == old(self).spec_enable_using_handshake(),
            final(self).spec_input_port() == old(self).spec_input_port(),
            final(self).spec_output_delay() == old(self).spec_output_delay(),
            final(self).spec_output_port() == old(self).spec_output_port(),
            final(self).spec__reserved_() == old(self).spec__reserved_(),
            final(self).spec_input_port_size() == old(self).spec_input_port_size(),
            final(self).spec_output_port_size() == old(self).spec_output_port_size(),
            final(self).spec_input_port_type() == old(self).spec_input_port_type(),
            final(self).spec_output_port_type() == old(self).spec_output_port_type(),
            final(self).spec_clear_acknowledgement() == old(self).spec_clear_acknowledgement(),
            final(self).spec__reserved_before_gpio() == old(self).spec__reserved_before_gpio(),
            final(self).spec_error_reporting_gpio() == old(self).spec_error_reporting_gpio(),
            final(self).spec__reserved_after_gpio() == old(self).spec__reserved_after_gpio(),
            final(self).spec_beep_code_table() == old(self).spec_beep_code_table(),
            final(self).spec_enable_heart_beat() == old(self).spec_enable_heart_beat(),
            final(self).spec_enable_power_good_gpio() == old(self).spec_enable_power_good_gpio(),
            final(self).spec_power_good_gpio() == old(self).spec_power_good_gpio(),
            final(self).spec__reserved_end() == old(self).spec__reserved_end(),
    {
        self.stop_on_first_fatal_error = if value { 1 } else { 0 };
    }

    pub fn input_port_size(&self) -> (r: Result<PortSize>)
        ensures
            r == match PortSize::spec_from_u64(self.spec_input_port_size() as u64) {
                Some(e) => Ok::<PortSize, Error>(e),
                None => Err(Error::EntryTypeMismatch),
            },
    {
        match PortSize::from_u64(self.input_port_size as u64) {
            Some(e) => Ok(e),
            None => Err(Error::EntryTypeMismatch),
        }
    }

    pub fn set_input_port_size(&mut self, value: PortSize)
        ensures
            final(self).spec_input_port_size() == value.spec_to_u64() as u32,
            final(self).spec_enable_error_reporting() == old(self).spec_enable_error_reporting(),
            final(self).spec_enable_error_reporting_gpio() == old(self).spec_enable_error_reporting_gpio(),
            final(self).spec_enable_error_reporting_beep_codes() == old(self).spec_enable_error_reporting_beep_codes(),
            final(self).spec_enable_using_handshake() == old(self).spec_enable_using_handshake(),
            final(self).spec_input_port() == old(self).spec_input_port(),
            final(self).spec_output_delay() == old(self).spec_output_delay(),
            final(self).spec_output_port() == old(self).spec_output_port(),
            final(self).spec_stop_on_first_fatal_error() == old(self).spec_stop_on_first_fatal_error(),
            final(self).spec__reserved_() == old(self).spec__reserved_(),
            final(self).spec_output_port_size() == old(self).spec_output_port_size(),
            final(self).spec_input_port_type() == old(self).spec_input_port_type(),
            final(self).spec_output_port_type() == old(self).spec_output_port_type(),
            final(self).spec_clear_acknowledgement() == old(self).spec_clear_acknowledgement(),
            final(self).spec__reserved_before_gpio() == old(self).spec__reserved_before_gpio(),
            final(self).spec_error_reporting_gpio() == old(self).spec_error_reporting_gpio(),
            final(self).spec__reserved_after_gpio() == old(self).spec__reserved_after_gpio(),
            final(self).spec_beep_code_table() == old(self).spec_beep_code_table(),
            final(self).spec_enable_heart_beat() == old(self).spec_enable_heart_beat(),
            final(self).spec_enable_power_good_gpio() == old(self).spec_enable_power_good_gpio(),
            final(self).spec_power_good_gpio() == old(self).spec_power_good_gpio(),
            final(self).spec__reserved_end() == old(self).spec__reserved_end(),
    {
        self.input_port_size = value.to_u64().unwrap() as u32;
    }

    pub fn output_port_size(&self) -> (r: Result<PortSize>)
        ensures
            r == match PortSize::spec_from_u64(self.spec_output_port_size() as u64) {
                Some(e) => Ok::<PortSize, Error>(e),
                None => Err(Error::EntryTypeMismatch),
            },
    {
        match PortSize::from_u64(self.output_port_size as u64) {
            Some(e) => Ok(e),
            None => Err(Error::EntryTypeMismatch),
        }
    }

    pub fn set_output_port_size(&mut self, value: PortSize)
        ensures
            final(self).spec_output_port_size() == value.spec_to_u64() as u32,
            final(self).spec_enable_error_reporting() == old(self).spec_enable_error_reporting(),
            final(self).spec_enable_error_reporting_gpio() == old(self).spec_enable_error_reporting_gpio(),
            final(self).spec_enable_error_reporting_beep_codes() == old(self).spec_enable_error_reporting_beep_codes(),
            final(self).spec_enable_using_handshake() == old(self).spec_enable_using_handshake(),
            final(self).spec_input_port() == old(self).spec_input_port(),
            final(self).spec_output_delay() == old(self).spec_output_delay(),
            final(self).spec_output_port() == old(self).spec_output_port(),
            final(self).spec_stop_on_first_fatal_error() == old(self).spec_stop_on_first_fatal_error(),
            final(self).spec__reserved_() == old(self).spec__reserved_(),
            final(self).spec_input_port_size() == old(self).spec_input_port_size(),
            final(self).spec_input_port_type() == old(self).spec_input_port_type(),
            final(self).spec_output_port_type() == old(self).spec_output_port_type(),
            final(self).spec_clear_acknowledgement() == old(self).spec_clear_acknowledgement(),
            final(self).spec__reserved_before_gpio() == old(self).spec__reserved_before_gpio(),
            final(self).spec_error_reporting_gpio() == old(self).spec_error_reporting_gpio(),
            final(self).spec__reserved_after_gpio() == old(self).spec__reserved_after_gpio(),
            final(self).spec_beep_code_table() == old(self).spec_beep_code_table(),
            final(self).spec_enable_heart_beat() == old(self).spec_enable_heart_beat(),
            final(self).spec_enable_power_good_gpio() == old(self).spec_enable_power_good_gpio(),
            final(self).spec_power_good_gpio() == old(self).spec_power_good_gpio(),
            final(self).spec__reserved_end() == old(self).spec__reserved_end(),
    {
        self.output_port_size = value.to_u64().unwrap() as u32;
    }

    pub fn input_port_type(&self) -> (r: Result<PortType>)
        ensures
            r == match PortType::spec_from_u64(self.spec_input_port_type() as u64) {
                Some(e) => Ok::<PortType, Error>(e),
                None => Err(Error::EntryTypeMismatch),
            },
    {
        match PortType::from_u64(self.input_port_type as u64) {
            Some(e) => Ok(e),
            None => Err(Error::EntryTypeMismatch),
        }
    }

    pub fn set_input_port_type(&mut self, value: PortType)
        ensures
            final(self).spec_input_port_type() == value.spec_to_u64() as u32,
            final(self).spec_enable_error_reporting() == old(self).spec_enable_error_reporting(),
            final(self).spec_enable_error_reporting_gpio() == old(self).spec_enable_error_reporting_gpio(),
            final(self).spec_enable_error_reporting_beep_codes() == old(self).spec_enable_error_reporting_beep_codes(),
            final(self).spec_enable_using_handshake() == old(self).spec_enable_using_handshake(),
            final(self).spec_input_port() == old(self).spec_input_port(),
            final(self).spec_output_delay() == old(self).spec_output_delay(),
            final(self).spec_output_port() == old(self).spec_output_port(),
            final(self).spec_stop_on_first_fatal_error() == old(self).spec_stop_on_first_fatal_error(),
            final(self).spec__reserved_() == old(self).spec__reserved_(),
            final(self).spec_input_port_size() == old(self).spec_input_port_size(),
            final(self).spec_output_port_size() == old(self).spec_output_port_size(),
            final(self).spec_output_port_type() == old(self).spec_output_port_type(),
            final(self).spec_clear_acknowledgement() == old(self).spec_clear_acknowledgement(),
            final(self).spec__reserved_before_gpio() == old(self).spec__reserved_before_gpio(),
            final(self).spec_error_reporting_gpio() == old(self).spec_error_reporting_gpio(),
            final(self).spec__reserved_after_gpio() == old(self).spec__reserved_after_gpio(),
            final(self).spec_beep_code_table() == old(self).spec_beep_code_table(),
            final(self).spec_enable_heart_beat() == old(self).spec_enable_heart_beat(),
            final(self).spec_enable_power_good_gpio() == old(self).spec_enable_power_good_gpio(),
            final(self).spec_power_good_gpio() == old(self).spec_power_good_gpio(),
            final(self).spec__reserved_end() == old(self).spec__reserved_end(),
    {
        self.input_port_type = value.to_u64().unwrap() as u32;
    }

    pub fn output_port_type(&self) -> (r: Result<PortType>)
        ensures
            r == match PortType::spec_from_u64(self.spec_output_port_type() as u64) {
                Some(e) => Ok::<PortType, Error>(e),
                None => Err(Error::EntryTypeMismatch),
            },
    {
        match PortType::from_u64(self.output_port_type as u64) {
            Some(e) => Ok(e),
            None => Err(Error::EntryTypeMismatch),
        }
    }

    pub fn set_output_port_type(&mut self, value: PortType)
        ensures
            final(self).spec_output_port_type() == value.spec_to_u64() as u32,
            final(self).spec_enable_error_reporting() == old(self).spec_enable_error_reporting(),
            final(self).spec_enable_error_reporting_gpio() == old(self).spec_enable_error_reporting_gpio(),
            final(self).spec_enable_error_reporting_beep_codes() == old(self).spec_enable_error_reporting_beep_codes(),
            final(self).spec_enable_using_handshake() == old(self).spec_enable_using_handshake(),
            final(self).spec_input_port() == old(self).spec_input_port(),
            final(self).spec_output_delay() == old(self).spec_output_delay(),
            final(self).spec_output_port() == old(self).spec_output_port(),
            final(self).spec_stop_on_first_fatal_error() == old(self).spec_stop_on_first_fatal_error(),
            final(self).spec__reserved_() == old(self).spec__reserved_(),
            final(self).spec_input_port_size() == old(self).spec_input_port_size(),
            final(self).spec_output_port_size() == old(self).spec_output_port_size(),
            final(self).spec_input_port_type() == old(self).spec_input_port_type(),
            final(self).spec_clear_acknowledgement() == old(self).spec_clear_acknowledgement(),
            final(self).spec__reserved_before_gpio() == old(self).spec__reserved_before_gpio(),
            final(self).spec_error_reporting_gpio() == old(self).spec_error_reporting_gpio(),
            final(self).spec__reserved_after_gpio() == old(self).spec__reserved_after_gpio(),
            final(self).spec_beep_code_table() == old(self).spec_beep_code_table(),
            final(self).spec_enable_heart_beat() == old(self).spec_enable_heart_beat(),
            final(self).spec_enable_power_good_gpio() == old(self).spec_enable_power_good_gpio(),
            final(self).spec_power_good_gpio() == old(self).spec_power_good_gpio(),
            final(self).spec__reserved_end() == old(self).spec__reserved_end(),
    {
        self.output_port_type = value.to_u64().unwrap() as u32;
    }

    pub fn clear_acknowledgement(&self) -> (r: Result<bool>)
        ensures
            r == spec_bool_result_of_raw(self.spec_clear_acknowledgement() as int),
    {
        match self.clear_acknowledgement {
            0 => Ok(false),
            1 => Ok(true),
            _ => Err(Error::EntryTypeMismatch),
        }
    }

    pub fn set_clear_acknowledgement(&mut self, value: bool)
        ensures
            final(self).spec_clear_acknowledgement() == spec_raw_of_bool(value) as u8,
            final(self).spec_enable_error_reporting() == old(self).spec_enable_error_reporting(),
            final(self).spec_enable_error_reporting_gpio() == old(self).spec_enable_error_reporting_gpio(),
            final(self).spec_enable_error_reporting_beep_codes() == old(self).spec_enable_error_reporting_beep_codes(),
            final(self).spec_enable_using_handshake() == old(self).spec_enable_using_handshake(),
            final(self).spec_input_port() == old(self).spec_input_port(),
            final(self).spec_output_delay() == old(self).spec_output_delay(),
            final(self).spec_output_port() == old(self).spec_output_port(),
            final(self).spec_stop_on_first_fatal_error() == old(self).spec_stop_on_first_fatal_error(),
            final(self).spec__reserved_() == old(self).spec__reserved_(),
            final(self).spec_input_port_size() == old(self).spec_input_port_size(),
            final(self).spec_output_port_size() == old(self).spec_output_port_size(),
            final(self).spec_input_port_type() == old(self).spec_input_port_type(),
            final(self).spec_output_port_type() == old(self).spec_output_port_type(),
            final(self).spec__reserved_before_gpio() == old(self).spec__reserved_before_gpio(),
            final(self).spec_error_reporting_gpio() == old(self).spec_error_reporting_gpio(),
            final(self).spec__reserved_after_gpio() == old(self).spec__reserved_after_gpio(),
            final(self).spec_beep_code_table() == old(self).spec_beep_code_table(),
            final(self).spec_enable_heart_beat() == old(self).spec_enable_heart_beat(),
            final(self).spec_enable_power_good_gpio() == old(self).spec_enable_power_good_gpio(),
            final(self).spec_power_good_gpio() == old(self).spec_power_good_gpio(),
            final(self).spec__reserved_end() == old(self).spec__reserved_end(),
    {
        self.clear_acknowledgement = if value { 1 } else { 0 };
    }

    pub fn enable_heart_beat(&self) -> (r: Result<bool>)
        ensures
            r == spec_bool_result_of_raw(self.spec_enable_heart_beat() as int),
    {
        match self.enable_heart_beat {
            0 => Ok(false),
            1 => Ok(true),
            _ => Err(Error::EntryTypeMismatch),
        }
    }

    pub fn set_enable_heart_beat(&mut self, value: bool)
        ensures
            final(self).spec_enable_heart_beat() == spec_raw_of_bool(value) as u8,
            final(self).spec_enable_error_reporting() == old(self).spec_enable_error_reporting(),
            final(self).spec_enable_error_reporting_gpio() == old(self).spec_enable_error_reporting_gpio(),
            final(self).spec_enable_error_reporting_beep_codes() == old(self).spec_enable_error_reporting_beep_codes(),
            final(self).spec_enable_using_handshake() == old(self).spec_enable_using_handshake(),
            final(self).spec_input_port() == old(self).spec_input_port(),
            final(self).spec_output_delay() == old(self).spec_output_delay(),
            final(self).spec_output_port() == old(self).spec_output_port(),
            final(self).spec_stop_on_first_fatal_error() == old(self).spec_stop_on_first_fatal_error(),
            final(self).spec__reserved_() == old(self).spec__reserved_(),
            final(self).spec_input_port_size() == old(self).spec_input_port_size(),
            final(self).spec_output_port_size() == old(self).spec_output_port_size(),
            final(self).spec_input_port_type() == old(self).spec_input_port_type(),
            final(self).spec_output_port_type() == old(self).spec_output_port_type(),
            final(self).spec_clear_acknowledgement() == old(self).spec_clear_acknowledgement(),
            final(self).spec__reserved_before_gpio() == old(self).spec__reserved_before_gpio(),
            final(self).spec_error_reporting_gpio() == old(self).spec_error_reporting_gpio(),
            final(self).spec__reserved_after_gpio() == old(self).spec__reserved_after_gpio(),
            final(self).spec_beep_code_table() == old(self).spec_beep_code_table(),
            final(self).spec_enable_power_good_gpio() == old(self).spec_enable_power_good_gpio(),
            final(self).spec_power_good_gpio() == old(self).spec_power_good_gpio(),
            final(self).spec__reserved_end() == old(self).spec__reserved_end(),
    {
        self.enable_heart_beat = if value { 1 } else { 0 };
    }

    pub fn enable_power_good_gpio(&self) -> (r: Result<bool>)
        ensures
            r == spec_bool_result_of_raw(self.spec_enable_power_good_gpio() as int),
    {
        match self.enable_power_good_gpio {
            0 => Ok(false),
            1 => Ok(true),
            _ => Err(Error::EntryTypeMismatch),
        }
    }

    pub fn set_enable_power_good_gpio(&mut self, value: bool)
        ensures
            final(self).spec_enable_power_good_gpio() == spec_raw_of_bool(value) as u8,
            final(self).spec_enable_error_reporting() == old(self).spec_enable_error_reporting(),
            final(self).spec_enable_error_reporting_gpio() == old(self).spec_enable_error_reporting_gpio(),
            final(self).spec_enable_error_reporting_beep_codes() == old(self).spec_enable_error_reporting_beep_codes(),
            final(self).spec_enable_using_handshake() == old(self).spec_enable_using_handshake(),
            final(self).spec_input_port() == old(self).spec_input_port(),
            final(self).spec_output_delay() == old(self).spec_output_delay(),
            final(self).spec_output_port() == old(self).spec_output_port(),
            final(self).spec_stop_on_first_fatal_error() == old(self).spec_stop_on_first_fatal_error(),
            final(self).spec__reserved_() == old(self).spec__reserved_(),
            final(self).spec_input_port_size() == old(self).spec_input_port_size(),
            final(self).spec_output_port_size() == old(self).spec_output_port_size(),
            final(self).spec_input_port_type() == old(self).spec_input_port_type(),
            final(self).spec_output_port_type() == old(self).spec_output_port_type(),
            final(self).spec_clear_acknowledgement() == old(self).spec_clear_acknowledgement(),
            final(self).spec__reserved_before_gpio() == old(self).spec__reserved_before_gpio(),
            final(self).spec_error_reporting_gpio() == old(self).spec_error_reporting_gpio(),
            final(self).spec__reserved_after_gpio() == old(self).spec__reserved_after_gpio(),
            final(self).spec_beep_code_table() == old(self).spec_beep_code_table(),
            final(self).spec_enable_heart_beat() == old(self).spec_enable_heart_beat(),
            final(self).spec_power_good_gpio() == old(self).spec_power_good_gpio(),
            final(self).spec__reserved_end() == old(self).spec__reserved_end(),
    {
        self.enable_power_good_gpio = if value { 1 } else { 0 };
    }

}

impl ErrorOutControl116 {
    /// The bytes that store this value on disk.
    pub closed spec fn spec_bytes(self) -> Seq<u8> {
        seq![self.enable_error_reporting]
            + seq![self.enable_error_reporting_gpio]
            + seq![self.enable_error_reporting_beep_codes]
            + seq![self.enable_using_handshake]
            + spec_u32_to_le_bytes(self.input_port)
            + spec_u32_to_le_bytes(self.output_delay)
            + spec_u32_to_le_bytes(self.output_port)
            + seq![self.stop_on_first_fatal_error]
            + self._reserved_@
            + spec_u32_to_le_bytes(self.input_port_size)
            + spec_u32_to_le_bytes(self.output_port_size)
            + spec_u32_to_le_bytes(self.input_port_type)
            + spec_u32_to_le_bytes(self.output_port_type)
            + seq![self.clear_acknowledgement]
            + self._reserved_before_gpio@
            + self.error_reporting_gpio.spec_to_bytes()
            + self._reserved_after_gpio@
            + self.beep_code_table[0].spec_to_bytes() + self.beep_code_table[1].spec_to_bytes() + self.beep_code_table[2].spec_to_bytes() + self.beep_code_table[3].spec_to_bytes() + self.beep_code_table[4].spec_to_bytes() + self.beep_code_table[5].spec_to_bytes() + self.beep_code_table[6].spec_to_bytes() + self.beep_code_table[7].spec_to_bytes()
            + seq![self.enable_heart_beat]
            + seq![self.enable_power_good_gpio]
            + self.power_good_gpio.spec_to_bytes()
            + self._reserved_end@
    }
}

impl ByteLayout for ErrorOutControl116 {
    open spec fn spec_size() -> nat {
        116
    }

    open spec fn spec_to_bytes(self) -> Seq<u8> {
        self.spec_bytes()
    }

    fn size() -> (r: usize) {
        116
    }

    #[verifier::spinoff_prover]
    #[verifier::rlimit(60)]
    fn from_bytes(bytes: &[u8]) -> (r: Self) {
        let enable_error_reporting: u8 = bytes[0];
        let enable_error_reporting_gpio: u8 = bytes[1];
        let enable_error_reporting_beep_codes: u8 = bytes[2];
        let enable_using_handshake: u8 = bytes[3];
        let input_port: u32 = u32_from_le_bytes(slice_subrange(bytes, 4, 8));
        let output_delay: u32 = u32_from_le_bytes(slice_subrange(bytes, 8, 12));
        let output_port: u32 = u32_from_le_bytes(slice_subrange(bytes, 12, 16));
        let stop_on_first_fatal_error: u8 = bytes[16];
        let _reserved_: [u8; 3] = [bytes[17], bytes[18], bytes[19]];
        let input_port_size: u32 = u32_from_le_bytes(slice_subrange(bytes, 20, 24));
        let output_port_size: u32 = u32_from_le_bytes(slice_subrange(bytes, 24, 28));
        let input_port_type: u32 = u32_from_le_bytes(slice_subrange(bytes, 28, 32));
        let output_port_type: u32 = u32_from_le_bytes(slice_subrange(bytes, 32, 36));
        let clear_acknowledgement: u8 = bytes[36];
        let _reserved_before_gpio: [u8; 3] = [bytes[37], bytes[38], bytes[39]];
        let error_reporting_gpio: Gpio = Gpio::from_bytes(slice_subrange(bytes, 40, 43));
        let _reserved_after_gpio: [u8; 1] = [bytes[43]];
        let beep_code_table: [ErrorOutControlBeepCode; 8] = [ErrorOutControlBeepCode::from_bytes(slice_subrange(bytes, 44, 52)), ErrorOutControlBeepCode::from_bytes(slice_subrange(bytes, 52, 60)), ErrorOutControlBeepCode::from_bytes(slice_subrange(bytes, 60, 68)), ErrorOutControlBeepCode::from_bytes(slice_subrange(bytes, 68, 76)), ErrorOutControlBeepCode::from_bytes(slice_subrange(bytes, 76, 84)), ErrorOutControlBeepCode::from_bytes(slice_subrange(bytes, 84, 92)), ErrorOutControlBeepCode::from_bytes(slice_subrange(bytes, 92, 100)), ErrorOutControlBeepCode::from_bytes(slice_subrange(bytes, 100, 108))];
        let enable_heart_beat: u8 = bytes[108];
        let enable_power_good_gpio: u8 = bytes[109];
        let power_good_gpio: Gpio = Gpio::from_bytes(slice_subrange(bytes, 110, 113));
        let _reserved_end: [u8; 3] = [bytes[113], bytes[114], bytes[115]];
        let r = ErrorOutControl116 { enable_error_reporting, enable_error_reporting_gpio, enable_error_reporting_beep_codes, enable_using_handshake, input_port, output_delay, output_port, stop_on_first_fatal_error, _reserved_, input_port_size, output_port_size, input_port_type, output_port_type, clear_acknowledgement, _reserved_before_gpio, error_reporting_gpio, _reserved_after_gpio, beep_code_table, enable_heart_beat, enable_power_good_gpio, power_good_gpio, _reserved_end };
        proof {
            lemma_auto_spec_u16_to_from_le_bytes();
            lemma_auto_spec_u32_to_from_le_bytes();
            lemma_auto_spec_u64_to_from_le_bytes();
            lemma_error_out_control116_bytes_pieces(r);
            assert(bytes@.subrange(4, 8) == spec_u32_to_le_bytes(input_port));
            assert(bytes@.subrange(8, 12) == spec_u32_to_le_bytes(output_delay));
            assert(bytes@.subrange(12, 16) == spec_u32_to_le_bytes(output_port));
            assert(bytes@.subrange(17, 20) =~= _reserved_@);
            assert(bytes@.subrange(20, 24) == spec_u32_to_le_bytes(input_port_size));
            assert(bytes@.subrange(24, 28) == spec_u32_to_le_bytes(output_port_size));
            assert(bytes@.subrange(28, 32) == spec_u32_to_le_bytes(input_port_type));
            assert(bytes@.subrange(32, 36) == spec_u32_to_le_bytes(output_port_type));
            assert(bytes@.subrange(37, 40) =~= _reserved_before_gpio@);
            assert(bytes@.subrange(40, 43) == error_reporting_gpio.spec_to_bytes());
            assert(bytes@.subrange(43, 44) =~= _reserved_after_gpio@);
            assert(bytes@.subrange(44, 52) == beep_code_table[0].spec_to_bytes());
            assert(bytes@.subrange(52, 60) == beep_code_table[1].spec_to_bytes());
            assert(bytes@.subrange(60, 68) == beep_code_table[2].spec_to_bytes());
            assert(bytes@.subrange(68, 76) == beep_code_table[3].spec_to_bytes());
            assert(bytes@.subrange(76, 84) == beep_code_table[4].spec_to_bytes());
            assert(bytes@.subrange(84, 92) == beep_code_table[5].spec_to_bytes());
            assert(bytes@.subrange(92, 100) == beep_code_table[6].spec_to_bytes());
            assert(bytes@.subrange(100, 108) == beep_code_table[7].spec_to_bytes());
            assert(bytes@.subrange(110, 113) == power_good_gpio.spec_to_bytes());
            assert(bytes@.subrange(113, 116) =~= _reserved_end@);
            assert(bytes@.subrange(0, 2) =~= bytes@.subrange(0, 1) + bytes@.subrange(1, 2));
            assert(bytes@.subrange(0, 3) =~= bytes@.subrange(0, 2) + bytes@.subrange(2, 3));
            assert(bytes@.subrange(0, 4) =~= bytes@.subrange(0, 3) + bytes@.subrange(3, 4));
            assert(bytes@.subrange(0, 8) =~= bytes@.subrange(0, 4) + bytes@.subrange(4, 8));
            assert(bytes@.subrange(0, 12) =~= bytes@.subrange(0, 8) + bytes@.subrange(8, 12));
            assert(bytes@.subrange(0, 16) =~= bytes@.subrange(0, 12) + bytes@.subrange(12, 16));
            assert(bytes@.subrange(0, 17) =~= bytes@.subrange(0, 16) + bytes@.subrange(16, 17));
            assert(bytes@.subrange(0, 20) =~= bytes@.subrange(0, 17) + bytes@.subrange(17, 20));
            assert(bytes@.subrange(0, 24) =~= bytes@.subrange(0, 20) + bytes@.subrange(20, 24));
            assert(bytes@.subrange(0, 28) =~= bytes@.subrange(0, 24) + bytes@.subrange(24, 28));
            assert(bytes@.subrange(0, 32) =~= bytes@.subrange(0, 28) + bytes@.subrange(28, 32));
            assert(bytes@.subrange(0, 36) =~= bytes@.subrange(0, 32) + bytes@.subrange(32, 36));
            assert(bytes@.subrange(0, 37) =~= bytes@.subrange(0, 36) + bytes@.subrange(36, 37));
            assert(bytes@.subrange(0, 40) =~= bytes@.subrange(0, 37) + bytes@.subrange(37, 40));
            assert(bytes@.subrange(0, 43) =~= bytes@.subrange(0, 40) + bytes@.subrange(40, 43));
            assert(bytes@.subrange(0, 44) =~= bytes@.subrange(0, 43) + bytes@.subrange(43, 44));
            assert(bytes@.subrange(0, 108) =~= bytes@.subrange(0, 44) + bytes@.subrange(44, 108));
            assert(bytes@.subrange(0, 109) =~= bytes@.subrange(0, 108) + bytes@.subrange(108, 109));
            assert(bytes@.subrange(0, 110) =~= bytes@.subrange(0, 109) + bytes@.subrange(109, 110));
            assert(bytes@.subrange(0, 113) =~= bytes@.subrange(0, 110) + bytes@.subrange(110, 113));
            assert(bytes@.subrange(0, 116) =~= bytes@.subrange(0, 113) + bytes@.subrange(113, 116));
            assert(bytes@.subrange(0, 116) =~= bytes@);
            assert(bytes@ == r.spec_bytes());
        }
        r
    }

    #[verifier::spinoff_prover]
    #[verifier::rlimit(60)]
    fn to_bytes(&self) -> (r: Vec<u8>) {
        let mut out: Vec<u8> = Vec::new();
        out.push(self.enable_error_reporting);
        out.push(self.enable_error_reporting_gpio);
        out.push(self.enable_error_reporting_beep_codes);
        out.push(self.enable_using_handshake);
        append_bytes(&mut out, &le_bytes_u32(self.input_port));
        append_bytes(&mut out, &le_bytes_u32(self.output_delay));
        append_bytes(&mut out, &le_bytes_u32(self.output_port));
        out.push(self.stop_on_first_fatal_error);
        append_bytes(&mut out, &self._reserved_);
        append_bytes(&mut out, &le_bytes_u32(self.input_port_size));
        append_bytes(&mut out, &le_bytes_u32(self.output_port_size));
        append_bytes(&mut out, &le_bytes_u32(self.input_port_type));
        append_bytes(&mut out, &le_bytes_u32(self.output_port_type));
        out.push(self.clear_acknowledgement);
        append_bytes(&mut out, &self._reserved_before_gpio);
        let part = self.error_reporting_gpio.to_bytes();
        append_bytes(&mut out, part.as_slice());
        append_bytes(&mut out, &self._reserved_after_gpio);
        let part = self.beep_code_table[0].to_bytes();
        append_bytes(&mut out, part.as_slice());
        let part = self.beep_code_table[1].to_bytes();
        append_bytes(&mut out, part.as_slice());
        let part = self.beep_code_table[2].to_bytes();
        append_bytes(&mut out, part.as_slice());
        let part = self.beep_code_table[3].to_bytes();
        append_bytes(&mut out, part.as_slice());
        let part = self.beep_code_table[4].to_bytes();
        append_bytes(&mut out, part.as_slice());
        let part = self.beep_code_table[5].to_bytes();
        append_bytes(&mut out, part.as_slice());
        let part = self.beep_code_table[6].to_bytes();
        append_bytes(&mut out, part.as_slice());
        let part = self.beep_code_table[7].to_bytes();
        append_bytes(&mut out, part.as_slice());
        out.push(self.enable_heart_beat);
        out.push(self.enable_power_good_gpio);
        let part = self.power_good_gpio.to_bytes();
        append_bytes(&mut out, part.as_slice());
        append_bytes(&mut out, &self._reserved_end);
        proof {
            lemma_error_out_control116_bytes_pieces(*self);
        }
        out
    }
}

/// How the bytes of a ErrorOutControl116 split up into its fields.
pub proof fn lemma_error_out_control116_bytes_pieces(x: ErrorOutControl116)
    ensures
        x.spec_bytes().len() == 116,
        x.spec_bytes()[0] == x.spec_enable_error_reporting(),
        x.spec_bytes()[1] == x.spec_enable_error_reporting_gpio(),
        x.spec_bytes()[2] == x.spec_enable_error_reporting_beep_codes(),
        x.spec_bytes()[3] == x.spec_enable_using_handshake(),
        x.spec_bytes().subrange(4, 8) == spec_u32_to_le_bytes(x.spec_input_port()),
        x.spec_bytes().subrange(8, 12) == spec_u32_to_le_bytes(x.spec_output_delay()),
        x.spec_bytes().subrange(12, 16) == spec_u32_to_le_bytes(x.spec_output_port()),
        x.spec_bytes()[16] == x.spec_stop_on_first_fatal_error(),
        x.spec_bytes().subrange(17, 20) == x.spec__reserved_()@,
        x.spec_bytes().subrange(20, 24) == spec_u32_to_le_bytes(x.spec_input_port_size()),
        x.spec_bytes().subrange(24, 28) == spec_u32_to_le_bytes(x.spec_output_port_size()),
        x.spec_bytes().subrange(28, 32) == spec_u32_to_le_bytes(x.spec_input_port_type()),
        x.spec_bytes().subrange(32, 36) == spec_u32_to_le_bytes(x.spec_output_port_type()),
        x.spec_bytes()[36] == x.spec_clear_acknowledgement(),
        x.spec_bytes().subrange(37, 40) == x.spec__reserved_before_gpio()@,
        x.spec_bytes().subrange(40, 43) == x.spec_error_reporting_gpio().spec_to_bytes(),
        x.spec_bytes().subrange(43, 44) == x.spec__reserved_after_gpio()@,
        x.spec_bytes().subrange(44, 108) == x.spec_beep_code_table()[0].spec_to_bytes() + x.spec_beep_code_table()[1].spec_to_bytes() + x.spec_beep_code_table()[2].spec_to_bytes() + x.spec_beep_code_table()[3].spec_to_bytes() + x.spec_beep_code_table()[4].spec_to_bytes() + x.spec_beep_code_table()[5].spec_to_bytes() + x.spec_beep_code_table()[6].spec_to_bytes() + x.spec_beep_code_table()[7].spec_to_bytes(),
        x.spec_bytes()[108] == x.spec_enable_heart_beat(),
        x.spec_bytes()[109] == x.spec_enable_power_good_gpio(),
        x.spec_bytes().subrange(110, 113) == x.spec_power_good_gpio().spec_to_bytes(),
        x.spec_bytes().subrange(113, 116) == x.spec__reserved_end()@,
{
    lemma_auto_spec_u16_to_from_le_bytes();
    lemma_auto_spec_u32_to_from_le_bytes();
    lemma_auto_spec_u64_to_from_le_bytes();
    lemma_gpio_bytes_pieces(x.error_reporting_gpio);
    lemma_error_out_control_beep_code_bytes_pieces(x.beep_code_table[0]);
    lemma_error_out_control_beep_code_bytes_pieces(x.beep_code_table[1]);
    lemma_error_out_control_beep_code_bytes_pieces(x.beep_code_table[2]);
    lemma_error_out_control_beep_code_bytes_pieces(x.beep_code_table[3]);
    lemma_error_out_control_beep_code_bytes_pieces(x.beep_code_table[4]);
    lemma_error_out_control_beep_code_bytes_pieces(x.beep_code_table[5]);
    lemma_error_out_control_beep_code_bytes_pieces(x.beep_code_table[6]);
    lemma_error_out_control_beep_code_bytes_pieces(x.beep_code_table[7]);
    lemma_gpio_bytes_pieces(x.power_good_gpio);
    assert(x.spec_bytes().subrange(4, 8) == spec_u32_to_le_bytes(x.input_port));
    assert(x.spec_bytes().subrange(8, 12) == spec_u32_to_le_bytes(x.output_delay));
    assert(x.spec_bytes().subrange(12, 16) == spec_u32_to_le_bytes(x.output_port));
    assert(x.spec_bytes().subrange(17, 20) == x._reserved_@);
    assert(x.spec_bytes().subrange(20, 24) == spec_u32_to_le_bytes(x.input_port_size));
    assert(x.spec_bytes().subrange(24, 28) == spec_u32_to_le_bytes(x.output_port_size));
    assert(x.spec_bytes().subrange(28, 32) == spec_u32_to_le_bytes(x.input_port_type));
    assert(x.spec_bytes().subrange(32, 36) == spec_u32_to_le_bytes(x.output_port_type));
    assert(x.spec_bytes().subrange(37, 40) == x._reserved_before_gpio@);
    assert(x.spec_bytes().subrange(40, 43) == x.error_reporting_gpio.spec_to_bytes());
    assert(x.spec_bytes().subrange(43, 44) == x._reserved_after_gpio@);
    assert(x.spec_bytes().subrange(44, 108) == x.beep_code_table[0].spec_to_bytes() + x.beep_code_table[1].spec_to_bytes() + x.beep_code_table[2].spec_to_bytes() + x.beep_code_table[3].spec_to_bytes() + x.beep_code_table[4].spec_to_bytes() + x.beep_code_table[5].spec_to_bytes() + x.beep_code_table[6].spec_to_bytes() + x.beep_code_table[7].spec_to_bytes());
    assert(x.spec_bytes().subrange(110, 113) == x.power_good_gpio.spec_to_bytes());
    assert(x.spec_bytes().subrange(113, 116) == x._reserved_end@);
}

/// Two values of ErrorOutControl116 with the same bytes are the same value.
#[verifier::spinoff_prover]
#[verifier::rlimit(60)]
pub proof fn lemma_error_out_control116_bytes_injective(x: ErrorOutControl116, y: ErrorOutControl116)
    requires
        x.spec_bytes() == y.spec_bytes(),
    ensures
        x == y,
{
    lemma_error_out_control116_bytes_pieces(x);
    lemma_error_out_control116_bytes_pieces(y);
    lemma_auto_spec_u16_to_from_le_bytes();
    lemma_auto_spec_u32_to_from_le_bytes();
    lemma_auto_spec_u64_to_from_le_bytes();
    assert(x.enable_error_reporting == y.enable_error_reporting);
    assert(x.enable_error_reporting_gpio == y.enable_error_reporting_gpio);
    assert(x.enable_error_reporting_beep_codes == y.enable_error_reporting_beep_codes);
    assert(x.enable_using_handshake == y.enable_using_handshake);
    assert(spec_u32_from_le_bytes(spec_u32_to_le_bytes(x.input_port)) == spec_u32_from_le_bytes(spec_u32_to_le_bytes(y.input_port)));
    assert(spec_u32_from_le_bytes(spec_u32_to_le_bytes(x.output_delay)) == spec_u32_from_le_bytes(spec_u32_to_le_bytes(y.output_delay)));
    assert(spec_u32_from_le_bytes(spec_u32_to_le_bytes(x.output_port)) == spec_u32_from_le_bytes(spec_u32_to_le_bytes(y.output_port)));
    assert(x.stop_on_first_fatal_error == y.stop_on_first_fatal_error);
    assert(x._reserved_@ == x.spec_bytes().subrange(17, 20));
    assert(x._reserved_ =~= y._reserved_);
    assert(spec_u32_from_le_bytes(spec_u32_to_le_bytes(x.input_port_size)) == spec_u32_from_le_bytes(spec_u32_to_le_bytes(y.input_port_size)));
    assert(spec_u32_from_le_bytes(spec_u32_to_le_bytes(x.output_port_size)) == spec_u32_from_le_bytes(spec_u32_to_le_bytes(y.output_port_size)));
    assert(spec_u32_from_le_bytes(spec_u32_to_le_bytes(x.input_port_type)) == spec_u32_from_le_bytes(spec_u32_to_le_bytes(y.input_port_type)));
    assert(spec_u32_from_le_bytes(spec_u32_to_le_bytes(x.output_port_type)) == spec_u32_from_le_bytes(spec_u32_to_le_bytes(y.output_port_type)));
    assert(x.clear_acknowledgement == y.clear_acknowledgement);
    assert(x._reserved_before_gpio@ == x.spec_bytes().subrange(37, 40));
    assert(x._reserved_before_gpio =~= y._reserved_before_gpio);
    lemma_gpio_bytes_injective(x.error_reporting_gpio, y.error_reporting_gpio);
    assert(x._reserved_after_gpio@ == x.spec_bytes().subrange(43, 44));
    assert(x._reserved_after_gpio =~= y._reserved_after_gpio);
    lemma_error_out_control_beep_code_bytes_pieces(x.beep_code_table[0]);
    lemma_error_out_control_beep_code_bytes_pieces(y.beep_code_table[0]);
    assert(x.spec_bytes().subrange(44, 52) == x.beep_code_table[0].spec_to_bytes());
    assert(y.spec_bytes().subrange(44, 52) == y.beep_code_table[0].spec_to_bytes());
    lemma_error_out_control_beep_code_bytes_injective(x.beep_code_table[0], y.beep_code_table[0]);
    lemma_error_out_control_beep_code_bytes_pieces(x.beep_code_table[1]);
    lemma_error_out_control_beep_code_bytes_pieces(y.beep_code_table[1]);
    assert(x.spec_bytes().subrange(52, 60) == x.beep_code_table[1].spec_to_bytes());
    assert(y.spec_bytes().subrange(52, 60) == y.beep_code_table[1].spec_to_bytes());
    lemma_error_out_control_beep_code_bytes_injective(x.beep_code_table[1], y.beep_code_table[1]);
    lemma_error_out_control_beep_code_bytes_pieces(x.beep_code_table[2]);
    lemma_error_out_control_beep_code_bytes_pieces(y.beep_code_table[2]);
    assert(x.spec_bytes().subrange(60, 68) == x.beep_code_table[2].spec_to_bytes());
    assert(y.spec_bytes().subrange(60, 68) == y.beep_code_table[2].spec_to_bytes());
    lemma_error_out_control_beep_code_bytes_injective(x.beep_code_table[2], y.beep_code_table[2]);
    lemma_error_out_control_beep_code_bytes_pieces(x.beep_code_table[3]);
    lemma_error_out_control_beep_code_bytes_pieces(y.beep_code_table[3]);
    assert(x.spec_bytes().subrange(68, 76) == x.beep_code_table[3].spec_to_bytes());
    assert(y.spec_bytes().subrange(68, 76) == y.beep_code_table[3].spec_to_bytes());
    lemma_error_out_control_beep_code_bytes_injective(x.beep_code_table[3], y.beep_code_table[3]);
    lemma_error_out_control_beep_code_bytes_pieces(x.beep_code_table[4]);
    lemma_error_out_control_beep_code_bytes_pieces(y.beep_code_table[4]);
    assert(x.spec_bytes().subrange(76, 84) == x.beep_code_table[4].spec_to_bytes());
    assert(y.spec_bytes().subrange(76, 84) == y.beep_code_table[4].spec_to_bytes());
    lemma_error_out_control_beep_code_bytes_injective(x.beep_code_table[4], y.beep_code_table[4]);
    lemma_error_out_control_beep_code_bytes_pieces(x.beep_code_table[5]);
    lemma_error_out_control_beep_code_bytes_pieces(y.beep_code_table[5]);
    assert(x.spec_bytes().subrange(84, 92) == x.beep_code_table[5].spec_to_bytes());
    assert(y.spec_bytes().subrange(84, 92) == y.beep_code_table[5].spec_to_bytes());
    lemma_error_out_control_beep_code_bytes_injective(x.beep_code_table[5], y.beep_code_table[5]);
    lemma_error_out_control_beep_code_bytes_pieces(x.beep_code_table[6]);
    lemma_error_out_control_beep_code_bytes_pieces(y.beep_code_table[6]);
    assert(x.spec_bytes().subrange(92, 100) == x.beep_code_table[6].spec_to_bytes());
    assert(y.spec_bytes().subrange(92, 100) == y.beep_code_table[6].spec_to_bytes());
    lemma_error_out_control_beep_code_bytes_injective(x.beep_code_table[6], y.beep_code_table[6]);
    lemma_error_out_control_beep_code_bytes_pieces(x.beep_code_table[7]);
    lemma_error_out_control_beep_code_bytes_pieces(y.beep_code_table[7]);
    assert(x.spec_bytes().subrange(100, 108) == x.beep_code_table[7].spec_to_bytes());
    assert(y.spec_bytes().subrange(100, 108) == y.beep_code_table[7].spec_to_bytes());
    lemma_error_out_control_beep_code_bytes_injective(x.beep_code_table[7], y.beep_code_table[7]);
    assert(x.beep_code_table =~= y.beep_code_table);
    assert(x.enable_heart_beat == y.enable_heart_beat);
    assert(x.enable_power_good_gpio == y.enable_power_good_gpio);
    lemma_gpio_bytes_injective(x.power_good_gpio, y.power_good_gpio);
    assert(x._reserved_end@ == x.spec_bytes().subrange(113, 116));
    assert(x._reserved_end =~= y._reserved_end);
}

impl Default for ErrorOutControl116 {
    fn default() -> (r: Self)
        ensures
            r.spec_enable_error_reporting() == 0,
            r.spec_enable_error_reporting_gpio() == 0,
            r.spec_enable_error_reporting_beep_codes() == 0,
            r.spec_enable_using_handshake() == 0,
            r.spec_input_port() == 0,
            r.spec_output_delay() == 15000,
            r.spec_output_port() == 0x80,
            r.spec_stop_on_first_fatal_error() == 1,
            r.spec__reserved_() == [0u8, 0u8, 0u8],
            r.spec_input_port_size() == 1,
            r.spec_output_port_size() == 4,
            r.spec_input_port_type() == 6,
            r.spec_output_port_type() == 6,
            r.spec_clear_acknowledgement() == 1,
            r.spec__reserved_before_gpio() == [0u8, 0u8, 0u8],
            r.spec_error_reporting_gpio() == Gpio::spec_of_fields(0, 0, 0),
            r.spec__reserved_after_gpio() == [0u8],
            r.spec_beep_code_table() == [ErrorOutControlBeepCode::spec_of_fields(0x3fff, 1, 8), ErrorOutControlBeepCode::spec_of_fields(0x4fff, 2, 20), ErrorOutControlBeepCode::spec_of_fields(0x5fff, 3, 20), ErrorOutControlBeepCode::spec_of_fields(0x6fff, 4, 20), ErrorOutControlBeepCode::spec_of_fields(0x7fff, 5, 20), ErrorOutControlBeepCode::spec_of_fields(0x8fff, 6, 20), ErrorOutControlBeepCode::spec_of_fields(0x9fff, 7, 20), ErrorOutControlBeepCode::spec_of_fields(0xffff, 2, 4)],
            r.spec_enable_heart_beat() == 1,
            r.spec_enable_power_good_gpio() == 0,
            r.spec_power_good_gpio() == Gpio::spec_of_fields(0, 0, 0),
            r.spec__reserved_end() == [0u8, 0u8, 0u8],
    {
        ErrorOutControl116 { enable_error_reporting: 0, enable_error_reporting_gpio: 0, enable_error_reporting_beep_codes: 0, enable_using_handshake: 0, input_port: 0, output_delay: 15000, output_port: 0x80, stop_on_first_fatal_error: 1, _reserved_: [0, 0, 0], input_port_size: 1, output_port_size: 4, input_port_type: 6, output_port_type: 6, clear_acknowledgement: 1, _reserved_before_gpio: [0, 0, 0], error_reporting_gpio: Gpio { pin: 0, iomux_control: 0, bank_control: 0 }, _reserved_after_gpio: [0], beep_code_table: [ErrorOutControlBeepCode { error_type: 0x3fff, peak_map: 1, peak_attr: 8 }, ErrorOutControlBeepCode { error_type: 0x4fff, peak_map: 2, peak_attr: 20 }, ErrorOutControlBeepCode { error_type: 0x5fff, peak_map: 3, peak_attr: 20 }, ErrorOutControlBeepCode { error_type: 0x6fff, peak_map: 4, peak_attr: 20 }, ErrorOutControlBeepCode { error_type: 0x7fff, peak_map: 5, peak_attr: 20 }, ErrorOutControlBeepCode { error_type: 0x8fff, peak_map: 6, peak_attr: 20 }, ErrorOutControlBeepCode { error_type: 0x9fff, peak_map: 7, peak_attr: 20 }, ErrorOutControlBeepCode { error_type: 0xffff, peak_map: 2, peak_attr: 4 }], enable_heart_beat: 1, enable_power_good_gpio: 0, power_good_gpio: Gpio { pin: 0, iomux_control: 0, bank_control: 0 }, _reserved_end: [0, 0, 0] }
    }
}

impl ErrorOutControl116 {
    pub fn new() -> (r: Self)
        ensures
            r.spec_enable_error_reporting() == 0,
            r.spec_enable_error_reporting_gpio() == 0,
            r.spec_enable_error_reporting_beep_codes() == 0,
            r.spec_enable_using_handshake() == 0,
            r.spec_input_port() == 0,
            r.spec_output_delay() == 15000,
            r.spec_output_port() == 0x80,
            r.spec_stop_on_first_fatal_error() == 1,
            r.spec__reserved_() == [0u8, 0u8, 0u8],
            r.spec_input_port_size() == 1,
            r.spec_output_port_size() == 4,
            r.spec_input_port_type() == 6,
            r.spec_output_port_type() == 6,
            r.spec_clear_acknowledgement() == 1,
            r.spec__reserved_before_gpio() == [0u8, 0u8, 0u8],
            r.spec_error_reporting_gpio() == Gpio::spec_of_fields(0, 0, 0),
            r.spec__reserved_after_gpio() == [0u8],
            r.spec_beep_code_table() == [ErrorOutControlBeepCode::spec_of_fields(0x3fff, 1, 8), ErrorOutControlBeepCode::spec_of_fields(0x4fff, 2, 20), ErrorOutControlBeepCode::spec_of_fields(0x5fff, 3, 20), ErrorOutControlBeepCode::spec_of_fields(0x6fff, 4, 20), ErrorOutControlBeepCode::spec_of_fields(0x7fff, 5, 20), ErrorOutControlBeepCode::spec_of_fields(0x8fff, 6, 20), ErrorOutControlBeepCode::spec_of_fields(0x9fff, 7, 20), ErrorOutControlBeepCode::spec_of_fields(0xffff, 2, 4)],
            r.spec_enable_heart_beat() == 1,
            r.spec_enable_power_good_gpio() == 0,
            r.spec_power_good_gpio() == Gpio::spec_of_fields(0, 0, 0),
            r.spec__reserved_end() == [0u8, 0u8, 0u8],
    {
        Self::default()
    }
}

impl ErrorOutControl116 {
    /// The error reporting GPIO, if its use is enabled (the enabling byte must be 0 or 1).
    pub fn error_reporting_gpio(&self) -> (r: Result<Option<Gpio>>)
        ensures
            r == (if self.spec_enable_error_reporting_gpio() == 1 {
                Ok::<Option<Gpio>, Error>(Some(self.spec_error_reporting_gpio()))
            } else if self.spec_enable_error_reporting_gpio() == 0 {
                Ok::<Option<Gpio>, Error>(None)
            } else {
                Err(Error::EntryTypeMismatch)
            }),
    {
        match self.enable_error_reporting_gpio {
            1 => Ok(Some(self.error_reporting_gpio)),
            0 => Ok(None),
            _ => Err(Error::EntryTypeMismatch),
        }
    }

    /// Enables the error reporting GPIO with the given pin, or disables it (and clears the pin).
    pub fn set_error_reporting_gpio(&mut self, value: Option<Gpio>)
        ensures
            final(self).spec_enable_error_reporting_gpio() == (if value is Some { 1u8 } else { 0u8 }),
            final(self).spec_error_reporting_gpio() == (match value {
                Some(g) => g,
                None => Gpio::spec_of_fields(0, 0, 0),
            }),
            final(self).spec_enable_power_good_gpio() == old(self).spec_enable_power_good_gpio(),
            final(self).spec_power_good_gpio() == old(self).spec_power_good_gpio(),
            final(self).spec_beep_code_table() == old(self).spec_beep_code_table(),
            final(self).spec_enable_error_reporting() == old(self).spec_enable_error_reporting(),
            final(self).spec_enable_error_reporting_beep_codes() == old(self).spec_enable_error_reporting_beep_codes(),
            final(self).spec_enable_using_handshake() == old(self).spec_enable_using_handshake(),
            final(self).spec_input_port() == old(self).spec_input_port(),
            final(self).spec_output_delay() == old(self).spec_output_delay(),
            final(self).spec_output_port() == old(self).spec_output_port(),
            final(self).spec_stop_on_first_fatal_error() == old(self).spec_stop_on_first_fatal_error(),
            final(self).spec__reserved_() == old(self).spec__reserved_(),
            final(self).spec_input_port_size() == old(self).spec_input_port_size(),
            final(self).spec_output_port_size() == old(self).spec_output_port_size(),
            final(self).spec_input_port_type() == old(self).spec_input_port_type(),
            final(self).spec_output_port_type() == old(self).spec_output_port_type(),
            final(self).spec_clear_acknowledgement() == old(self).spec_clear_acknowledgement(),
            final(self).spec__reserved_before_gpio() == old(self).spec__reserved_before_gpio(),
            final(self).spec__reserved_after_gpio() == old(self).spec__reserved_after_gpio(),
            final(self).spec_enable_heart_beat() == old(self).spec_enable_heart_beat(),
            final(self).spec__reserved_end() == old(self).spec__reserved_end(),
    {
        match value {
            Some(value) => {
                self.enable_error_reporting_gpio = 1;
                self.error_reporting_gpio = value;
            },
            None => {
                self.enable_error_reporting_gpio = 0;
                self.error_reporting_gpio = Gpio::new(0, 0, 0);
            },
        }
    }

    /// The table of beep codes.
    pub fn beep_code_table(&self) -> (r: Result<[ErrorOutControlBeepCode; 8]>)
        ensures
            r == Ok::<[ErrorOutControlBeepCode; 8], Error>(self.spec_beep_code_table()),
    {
        Ok(self.beep_code_table)
    }

    pub fn set_beep_code_table(&mut self, value: [ErrorOutControlBeepCode; 8])
        ensures
            final(self).spec_beep_code_table() == value,
            final(self).spec_enable_error_reporting_gpio() == old(self).spec_enable_error_reporting_gpio(),
            final(self).spec_error_reporting_gpio() == old(self).spec_error_reporting_gpio(),
            final(self).spec_enable_power_good_gpio() == old(self).spec_enable_power_good_gpio(),
            final(self).spec_power_good_gpio() == old(self).spec_power_good_gpio(),
    {
        self.beep_code_table = value;
    }

    /// The power-good GPIO, if its use is enabled (the enabling byte must be 0 or 1).
    pub fn power_good_gpio(&self) -> (r: Result<Option<Gpio>>)
        ensures
            r == (if self.spec_enable_power_good_gpio() == 1 {
                Ok::<Option<Gpio>, Error>(Some(self.spec_power_good_gpio()))
            } else if self.spec_enable_power_good_gpio() == 0 {
                Ok::<Option<Gpio>, Error>(None)
            } else {
                Err(Error::EntryTypeMismatch)
            }),
    {
        match self.enable_power_good_gpio {
            1 => Ok(Some(self.power_good_gpio)),
            0 => Ok(None),
            _ => Err(Error::EntryTypeMismatch),
        }
    }

    /// Enables the power-good GPIO with the given pin, or disables it (and clears the pin).
    pub fn set_power_good_gpio(&mut self, value: Option<Gpio>)
        ensures
            final(self).spec_enable_power_good_gpio() == (if value is Some { 1u8 } else { 0u8 }),
            final(self).spec_power_good_gpio() == (match value {
                Some(g) => g,
                None => Gpio::spec_of_fields(0, 0, 0),
            }),
            final(self).spec_enable_error_reporting_gpio() == old(self).spec_enable_error_reporting_gpio(),
            final(self).spec_error_reporting_gpio() == old(self).spec_error_reporting_gpio(),
            final(self).spec_beep_code_table() == old(self).spec_beep_code_table(),
            final(self).spec_enable_error_reporting() == old(self).spec_enable_error_reporting(),
            final(self).spec_enable_error_reporting_beep_codes() == old(self).spec_enable_error_reporting_beep_codes(),
            final(self).spec_enable_using_handshake() == old(self).spec_enable_using_handshake(),
            final(self).spec_input_port() == old(self).spec_input_port(),
            final(self).spec_output_delay() == old(self).spec_output_delay(),
            final(self).spec_output_port() == old(self).spec_output_port(),
            final(self).spec_stop_on_first_fatal_error() == old(self).spec_stop_on_first_fatal_error(),
            final(self).spec__reserved_() == old(self).spec__reserved_(),
            final(self).spec_input_port_size() == old(self).spec_input_port_size(),
            final(self).spec_output_port_size() == old(self).spec_output_port_size(),
            final(self).spec_input_port_type() == old(self).spec_input_port_type(),
            final(self).spec_output_port_type() == old(self).spec_output_port_type(),
            final(self).spec_clear_acknowledgement() == old(self).spec_clear_acknowledgement(),
            final(self).spec__reserved_before_gpio() == old(self).spec__reserved_before_gpio(),
            final(self).spec__reserved_after_gpio() == old(self).spec__reserved_after_gpio(),
            final(self).spec_enable_heart_beat() == old(self).spec_enable_heart_beat(),
            final(self).spec__reserved_end() == old(self).spec__reserved_end(),
    {
        match value {
            Some(value) => {
                self.enable_power_good_gpio = 1;
                self.power_good_gpio = value;
            },
            None => {
                self.enable_power_good_gpio = 0;
                self.power_good_gpio = Gpio::new(0, 0, 0);
            },
        }
    }
}

impl EntryCompatible for ErrorOutControl116 {
    fn is_entry_compatible(entry_id: EntryId, _prefix: &[u8]) -> (r: bool)
        ensures
            r == (entry_id == EntryId::Memory(MemoryEntryId::ErrorOutControl)),
    {
        matches!(entry_id, EntryId::Memory(MemoryEntryId::ErrorOutControl))
    }
}

/// How the ABL reports errors (layout of 112 bytes).
#[allow(non_camel_case_types)]
#[derive(Debug, Clone, Copy)]
pub struct ErrorOutControl112 {
    pub(crate) enable_error_reporting: u8,
    pub(crate) enable_error_reporting_gpio: u8,
    pub(crate) enable_error_reporting_beep_codes: u8,
    pub(crate) enable_using_handshake: u8,
    pub(crate) input_port: u32,
    pub(crate) output_delay: u32,
    pub(crate) output_port: u32,
    pub(crate) stop_on_first_fatal_error: u8,
    pub(crate) _reserved_: [u8; 3],
    pub(crate) input_port_size: u32,
    pub(crate) output_port_size: u32,
    pub(crate) input_port_type: u32,
    pub(crate) output_port_type: u32,
    pub(crate) clear_acknowledgement: u8,
    pub error_reporting_gpio: Gpio,
    pub(crate) beep_code_table: [ErrorOutControlBeepCode; 8],
    pub(crate) enable_heart_beat: u8,
    pub(crate) enable_power_good_gpio: u8,
    pub power_good_gpio: Gpio,
    pub(crate) _reserved_end: [u8; 3],
}

impl ErrorOutControl112 {
    pub closed spec fn spec_enable_error_reporting(self) -> u8 {
        self.enable_error_reporting
    }

    pub closed spec fn spec_enable_error_reporting_gpio(self) -> u8 {
        self.enable_error_reporting_gpio
    }

    pub closed spec fn spec_enable_error_reporting_beep_codes(self) -> u8 {
        self.enable_error_reporting_beep_codes
    }

    pub closed spec fn spec_enable_using_handshake(self) -> u8 {
        self.enable_using_handshake
    }

    pub closed spec fn spec_input_port(self) -> u32 {
        self.input_port
    }

    pub closed spec fn spec_output_delay(self) -> u32 {
        self.output_delay
    }

    pub closed spec fn spec_output_port(self) -> u32 {
        self.output_port
    }

    pub closed spec fn spec_stop_on_first_fatal_error(self) -> u8 {
        self.stop_on_first_fatal_error
    }

    pub closed spec fn spec__reserved_(self) -> [u8; 3] {
        self._reserved_
    }

    pub closed spec fn spec_input_port_size(self) -> u32 {
        self.input_port_size
    }

    pub closed spec fn spec_output_port_size(self) -> u32 {
        self.output_port_size
    }

    pub closed spec fn spec_input_port_type(self) -> u32 {
        self.input_port_type
    }

    pub closed spec fn spec_output_port_type(self) -> u32 {
        self.output_port_type
    }

    pub closed spec fn spec_clear_acknowledgement(self) -> u8 {
        self.clear_acknowledgement
    }

    pub closed spec fn spec_error_reporting_gpio(self) -> Gpio {
        self.error_reporting_gpio
    }

    pub closed spec fn spec_beep_code_table(self) -> [ErrorOutControlBeepCode; 8] {
        self.beep_code_table
    }

    pub closed spec fn spec_enable_heart_beat(self) -> u8 {
        self.enable_heart_beat
    }

    pub closed spec fn spec_enable_power_good_gpio(self) -> u8 {
        self.enable_power_good_gpio
    }

    pub closed spec fn spec_power_good_gpio(self) -> Gpio {
        self.power_good_gpio
    }

    pub closed spec fn spec__reserved_end(self) -> [u8; 3] {
        self._reserved_end
    }

    pub fn enable_error_reporting(&self) -> (r: Result<bool>)
        ensures
            r == spec_bool_result_of_raw(self.spec_enable_error_reporting() as int),
    {
        match self.enable_error_reporting {
            0 => Ok(false),
            1 => Ok(true),
            _ => Err(Error::EntryTypeMismatch),
        }
    }

    pub fn set_enable_error_reporting(&mut self, value: bool)
        ensures
            final(self).spec_enable_error_reporting() == spec_raw_of_bool(value) as u8,
            final(self).spec_enable_error_reporting_gpio() == old(self).spec_enable_error_reporting_gpio(),
            final(self).spec_enable_error_reporting_beep_codes() == old(self).spec_enable_error_reporting_beep_codes(),
            final(self).spec_enable_using_handshake() == old(self).spec_enable_using_handshake(),
            final(self).spec_input_port() == old(self).spec_input_port(),
            final(self).spec_output_delay() == old(self).spec_output_delay(),
            final(self).spec_output_port() == old(self).spec_output_port(),
            final(self).spec_stop_on_first_fatal_error() == old(self).spec_stop_on_first_fatal_error(),
            final(self).spec__reserved_() == old(self).spec__reserved_(),
            final(self).spec_input_port_size() == old(self).spec_input_port_size(),
            final(self).spec_output_port_size() == old(self).spec_output_port_size(),
            final(self).spec_input_port_type() == old(self).spec_input_port_type(),
            final(self).spec_output_port_type() == old(self).spec_output_port_type(),
            final(self).spec_clear_acknowledgement() == old(self).spec_clear_acknowledgement(),
            final(self).spec_error_reporting_gpio() == old(self).spec_error_reporting_gpio(),
            final(self).spec_beep_code_table() == old(self).spec_beep_code_table(),
            final(self).spec_enable_heart_beat() == old(self).spec_enable_heart_beat(),
            final(self).spec_enable_power_good_gpio() == old(self).spec_enable_power_good_gpio(),
            final(self).spec_power_good_gpio() == old(self).spec_power_good_gpio(),
            final(self).spec__reserved_end() == old(self).spec__reserved_end(),
    {
        self.enable_error_reporting = if value { 1 } else { 0 };
    }

    pub fn enable_error_reporting_gpio(&self) -> (r: Result<bool>)
        ensures
            r == spec_bool_result_of_raw(self.spec_enable_error_reporting_gpio() as int),
    {
        match self.enable_error_reporting_gpio {
            0 => Ok(false),
            1 => Ok(true),
            _ => Err(Error::EntryTypeMismatch),
        }
    }

    pub fn set_enable_error_reporting_gpio(&mut self, value: bool)
        ensures
            final(self).spec_enable_error_reporting_gpio() == spec_raw_of_bool(value) as u8,
            final(self).spec_enable_error_reporting() == old(self).spec_enable_error_reporting(),
            final(self).spec_enable_error_reporting_beep_codes() == old(self).spec_enable_error_reporting_beep_codes(),
            final(self).spec_enable_using_handshake() == old(self).spec_enable_using_handshake(),
            final(self).spec_input_port() == old(self).spec_input_port(),
            final(self).spec_output_delay() == old(self).spec_output_delay(),
            final(self).spec_output_port() == old(self).spec_output_port(),
            final(self).spec_stop_on_first_fatal_error() == old(self).spec_stop_on_first_fatal_error(),
            final(self).spec__reserved_() == old(self).spec__reserved_(),
            final(self).spec_input_port_size() == old(self).spec_input_port_size(),
            final(self).spec_output_port_size() == old(self).spec_output_port_size(),
            final(self).spec_input_port_type() == old(self).spec_input_port_type(),
            final(self).spec_output_port_type() == old(self).spec_output_port_type(),
            final(self).spec_clear_acknowledgement() == old(self).spec_clear_acknowledgement(),
            final(self).spec_error_reporting_gpio() == old(self).spec_error_reporting_gpio(),
            final(self).spec_beep_code_table() == old(self).spec_beep_code_table(),
            final(self).spec_enable_heart_beat() == old(self).spec_enable_heart_beat(),
            final(self).spec_enable_power_good_gpio() == old(self).spec_enable_power_good_gpio(),
            final(self).spec_power_good_gpio() == old(self).spec_power_good_gpio(),
            final(self).spec__reserved_end() == old(self).spec__reserved_end(),
    {
        self.enable_error_reporting_gpio = if value { 1 } else { 0 };
    }

    pub fn enable_error_reporting_beep_codes(&self) -> (r: Result<bool>)
        ensures
            r == spec_bool_result_of_raw(self.spec_enable_error_reporting_beep_codes() as int),
    {
        match self.enable_error_reporting_beep_codes {
            0 => Ok(false),
            1 => Ok(true),
            _ => Err(Error::EntryTypeMismatch),
        }
    }

    pub fn set_enable_error_reporting_beep_codes(&mut self, value: bool)
        ensures
            final(self).spec_enable_error_reporting_beep_codes() == spec_raw_of_bool(value) as u8,
            final(self).spec_enable_error_reporting() == old(self).spec_enable_error_reporting(),
            final(self).spec_enable_error_reporting_gpio() == old(self).spec_enable_error_reporting_gpio(),
            final(self).spec_enable_using_handshake() == old(self).spec_enable_using_handshake(),
            final(self).spec_input_port() == old(self).spec_input_port(),
            final(self).spec_output_delay() == old(self).spec_output_delay(),
            final(self).spec_output_port() == old(self).spec_output_port(),
            final(self).spec_stop_on_first_fatal_error() == old(self).spec_stop_on_first_fatal_error(),
            final(self).spec__reserved_() == old(self).spec__reserved_(),
            final(self).spec_input_port_size() == old(self).spec_input_port_size(),
            final(self).spec_output_port_size() == old(self).spec_output_port_size(),
            final(self).spec_input_port_type() == old(self).spec_input_port_type(),
            final(self).spec_output_port_type() == old(self).spec_output_port_type(),
            final(self).spec_clear_acknowledgement() == old(self).spec_clear_acknowledgement(),
            final(self).spec_error_reporting_gpio() == old(self).spec_error_reporting_gpio(),
            final(self).spec_beep_code_table() == old(self).spec_beep_code_table(),
            final(self).spec_enable_heart_beat() == old(self).spec_enable_heart_beat(),
            final(self).spec_enable_power_good_gpio() == old(self).spec_enable_power_good_gpio(),
            final(self).spec_power_good_gpio() == old(self).spec_power_good_gpio(),
            final(self).spec__reserved_end() == old(self).spec__reserved_end(),
    {
        self.enable_error_reporting_beep_codes = if value { 1 } else { 0 };
    }

    pub fn enable_using_handshake(&self) -> (r: Result<bool>)
        ensures
            r == spec_bool_result_of_raw(self.spec_enable_using_handshake() as int),
    {
        match self.enable_using_handshake {
            0 => Ok(false),
            1 => Ok(true),
            _ => Err(Error::EntryTypeMismatch),
        }
    }

    pub fn set_enable_using_handshake(&mut self, value: bool)
        ensures
            final(self).spec_enable_using_handshake() == spec_raw_of_bool(value) as u8,
            final(self).spec_enable_error_reporting() == old(self).spec_enable_error_reporting(),
            final(self).spec_enable_error_reporting_gpio() == old(self).spec_enable_error_reporting_gpio(),
            final(self).spec_enable_error_reporting_beep_codes() == old(self).spec_enable_error_reporting_beep_codes(),
            final(self).spec_input_port() == old(self).spec_input_port(),
            final(self).spec_output_delay() == old(self).spec_output_delay(),
            final(self).spec_output_port() == old(self).spec_output_port(),
            final(self).spec_stop_on_first_fatal_error() == old(self).spec_stop_on_first_fatal_error(),
            final(self).spec__reserved_() == old(self).spec__reserved_(),
            final(self).spec_input_port_size() == old(self).spec_input_port_size(),
            final(self).spec_output_port_size() == old(self).spec_output_port_size(),
            final(self).spec_input_port_type() == old(self).spec_input_port_type(),
            final(self).spec_output_port_type() == old(self).spec_output_port_type(),
            final(self).spec_clear_acknowledgement() == old(self).spec_clear_acknowledgement(),
            final(self).spec_error_reporting_gpio() == old(self).spec_error_reporting_gpio(),
            final(self).spec_beep_code_table() == old(self).spec_beep_code_table(),
            final(self).spec_enable_heart_beat() == old(self).spec_enable_heart_beat(),
            final(self).spec_enable_power_good_gpio() == old(self).spec_enable_power_good_gpio(),
            final(self).spec_power_good_gpio() == old(self).spec_power_good_gpio(),
            final(self).spec__reserved_end() == old(self).spec__reserved_end(),
    {
        self.enable_using_handshake = if value { 1 } else { 0 };
    }

    pub fn input_port(&self) -> (r: Result<u32>)
        ensures
            r == Ok::<u32, Error>(self.spec_input_port()),
    {
        Ok(self.input_port)
    }

    pub fn set_input_port(&mut self, value: u32)
        ensures
            final(self).spec_input_port() == value,
            final(self).spec_enable_error_reporting() == old(self).spec_enable_error_reporting(),
            final(self).spec_enable_error_reporting_gpio() == old(self).spec_enable_error_reporting_gpio(),
            final(self).spec_enable_error_reporting_beep_codes() == old(self).spec_enable_error_reporting_beep_codes(),
            final(self).spec_enable_using_handshake() == old(self).spec_enable_using_handshake(),
            final(self).spec_output_delay() == old(self).spec_output_delay(),
            final(self).spec_output_port() == old(self).spec_output_port(),
            final(self).spec_stop_on_first_fatal_error() == old(self).spec_stop_on_first_fatal_error(),
            final(self).spec__reserved_() == old(self).spec__reserved_(),
            final(self).spec_input_port_size() == old(self).spec_input_port_size(),
            final(self).spec_output_port_size() == old(self).spec_output_port_size(),
            final(self).spec_input_port_type() == old(self).spec_input_port_type(),
            final(self).spec_output_port_type() == old(self).spec_output_port_type(),
            final(self).spec_clear_acknowledgement() == old(self).spec_clear_acknowledgement(),
            final(self).spec_error_reporting_gpio() == old(self).spec_error_reporting_gpio(),
            final(self).spec_beep_code_table() == old(self).spec_beep_code_table(),
            final(self).spec_enable_heart_beat() == old(self).spec_enable_heart_beat(),
            final(self).spec_enable_power_good_gpio() == old(self).spec_enable_power_good_gpio(),
            final(self).spec_power_good_gpio() == old(self).spec_power_good_gpio(),
            final(self).spec__reserved_end() == old(self).spec__reserved_end(),
    {
        self.input_port = value;
    }

    pub fn output_delay(&self) -> (r: Result<u32>)
        ensures
            r == Ok::<u32, Error>(self.spec_output_delay()),
    {
        Ok(self.output_delay)
    }

    pub fn set_output_delay(&mut self, value: u32)
        ensures
            final(self).spec_output_delay() == value,
            final(self).spec_enable_error_reporting() == old(self).spec_enable_error_reporting(),
            final(self).spec_enable_error_reporting_gpio() == old(self).spec_enable_error_reporting_gpio(),
            final(self).spec_enable_error_reporting_beep_codes() == old(self).spec_enable_error_reporting_beep_codes(),
            final(self).spec_enable_using_handshake() == old(self).spec_enable_using_handshake(),
            final(self).spec_input_port() == old(self).spec_input_port(),
            final(self).spec_output_port() == old(self).spec_output_port(),
            final(self).spec_stop_on_first_fatal_error() == old(self).spec_stop_on_first_fatal_error(),
            final(self).spec__reserved_() == old(self).spec__reserved_(),
            final(self).spec_input_port_size() == old(self).spec_input_port_size(),
            final(self).spec_output_port_size() == old(self).spec_output_port_size(),
            final(self).spec_input_port_type() == old(self).spec_input_port_type(),
            final(self).spec_output_port_type() == old(self).spec_output_port_type(),
            final(self).spec_clear_acknowledgement() == old(self).spec_clear_acknowledgement(),
            final(self).spec_error_reporting_gpio() == old(self).spec_error_reporting_gpio(),
            final(self).spec_beep_code_table() == old(self).spec_beep_code_table(),
            final(self).spec_enable_heart_beat() == old(self).spec_enable_heart_beat(),
            final(self).spec_enable_power_good_gpio() == old(self).spec_enable_power_good_gpio(),
            final(self).spec_power_good_gpio() == old(self).spec_power_good_gpio(),
            final(self).spec__reserved_end() == old(self).spec__reserved_end(),
    {
        self.output_delay = value;
    }

    pub fn output_port(&self) -> (r: Result<u32>)
        ensures
            r == Ok::<u32, Error>(self.spec_output_port()),
    {
        Ok(self.output_port)
    }

    pub fn set_output_port(&mut self, value: u32)
        ensures
            final(self).spec_output_port() == value,
            final(self).spec_enable_error_reporting() == old(self).spec_enable_error_reporting(),
            final(self).spec_enable_error_reporting_gpio() == old(self).spec_enable_error_reporting_gpio(),
            final(self).spec_enable_error_reporting_beep_codes() == old(self).spec_enable_error_reporting_beep_codes(),
            final(self).spec_enable_using_handshake() == old(self).spec_enable_using_handshake(),
            final(self).spec_input_port() == old(self).spec_input_port(),
            final(self).spec_output_delay() == old(self).spec_output_delay(),
            final(self).spec_stop_on_first_fatal_error() == old(self).spec_stop_on_first_fatal_error(),
            final(self).spec__reserved_() == old(self).spec__reserved_(),
            final(self).spec_input_port_size() == old(self).spec_input_port_size(),
            final(self).spec_output_port_size() == old(self).spec_output_port_size(),
            final(self).spec_input_port_type() == old(self).spec_input_port_type(),
            final(self).spec_output_port_type() == old(self).spec_output_port_type(),
            final(self).spec_clear_acknowledgement() == old(self).spec_clear_acknowledgement(),
            final(self).spec_error_reporting_gpio() == old(self).spec_error_reporting_gpio(),
            final(self).spec_beep_code_table() == old(self).spec_beep_code_table(),
            final(self).spec_enable_heart_beat() == old(self).spec_enable_heart_beat(),
            final(self).spec_enable_power_good_gpio() == old(self).spec_enable_power_good_gpio(),
            final(self).spec_power_good_gpio() == old(self).spec_power_good_gpio(),
            final(self).spec__reserved_end() == old(self).spec__reserved_end(),
    {
        self.output_port = value;
    }

    pub fn stop_on_first_fatal_error(&self) -> (r: Result<bool>)
        ensures
            r == spec_bool_result_of_raw(self.spec_stop_on_first_fatal_error() as int),
    {
        match self.stop_on_first_fatal_error {
            0 => Ok(false),
            1 => Ok(true),
            _ => Err(Error::EntryTypeMismatch),
        }
    }

    pub fn set_stop_on_first_fatal_error(&mut self, value: bool)
        ensures
            final(self).spec_stop_on_first_fatal_error() == spec_raw_of_bool(value) as u8,
            final(self).spec_enable_error_reporting() == old(self).spec_enable_error_reporting(),
            final(self).spec_enable_error_reporting_gpio() == old(self).spec_enable_error_reporting_gpio(),
            final(self).spec_enable_error_reporting_beep_codes() == old(self).spec_enable_error_reporting_beep_codes(),
            final(self).spec_enable_using_handshake() == old(self).spec_enable_using_handshake(),
            final(self).spec_input_port() == old(self).spec_input_port(),
            final(self).spec_output_delay() == old(self).spec_output_delay(),
            final(self).spec_output_port() == old(self).spec_output_port(),
            final(self).spec__reserved_() == old(self).spec__reserved_(),
            final(self).spec_input_port_size() == old(self).spec_input_port_size(),
            final(self).spec_output_port_size() == old(self).spec_output_port_size(),
            final(self).spec_input_port_type() == old(self).spec_input_port_type(),
            final(self).spec_output_port_type() == old(self).spec_output_port_type(),
            final(self).spec_clear_acknowledgement() == old(self).spec_clear_acknowledgement(),
            final(self).spec_error_reporting_gpio() == old(self).spec_error_reporting_gpio(),
            final(self).spec_beep_code_table() == old(self).spec_beep_code_table(),
            final(self).spec_enable_heart_beat() == old(self).spec_enable_heart_beat(),
            final(self).spec_enable_power_good_gpio() == old(self).spec_enable_power_good_gpio(),
            final(self).spec_power_good_gpio() == old(self).spec_power_good_gpio(),
            final(self).spec__reserved_end() == old(self).spec__reserved_end(),
    {
        self.stop_on_first_fatal_error = if value { 1 } else { 0 };
    }

    pub fn input_port_size(&self) -> (r: Result<PortSize>)
        ensures
            r == match PortSize::spec_from_u64(self.spec_input_port_size() as u64) {
                Some(e) => Ok::<PortSize, Error>(e),
                None => Err(Error::EntryTypeMismatch),
            },
    {
        match PortSize::from_u64(self.input_port_size as u64) {
            Some(e) => Ok(e),
            None => Err(Error::EntryTypeMismatch),
        }
    }

    pub fn set_input_port_size(&mut self, value: PortSize)
        ensures
            final(self).spec_input_port_size() == value.spec_to_u64() as u32,
            final(self).spec_enable_error_reporting() == old(self).spec_enable_error_reporting(),
            final(self).spec_enable_error_reporting_gpio() == old(self).spec_enable_error_reporting_gpio(),
            final(self).spec_enable_error_reporting_beep_codes() == old(self).spec_enable_error_reporting_beep_codes(),
            final(self).spec_enable_using_handshake() == old(self).spec_enable_using_handshake(),
            final(self).spec_input_port() == old(self).spec_input_port(),
            final(self).spec_output_delay() == old(self).spec_output_delay(),
            final(self).spec_output_port() == old(self).spec_output_port(),
            final(self).spec_stop_on_first_fatal_error() == old(self).spec_stop_on_first_fatal_error(),
            final(self).spec__reserved_() == old(self).spec__reserved_(),
            final(self).spec_output_port_size() == old(self).spec_output_port_size(),
            final(self).spec_input_port_type() == old(self).spec_input_port_type(),
            final(self).spec_output_port_type() == old(self).spec_output_port_type(),
            final(self).spec_clear_acknowledgement() == old(self).spec_clear_acknowledgement(),
            final(self).spec_error_reporting_gpio() == old(self).spec_error_reporting_gpio(),
            final(self).spec_beep_code_table() == old(self).spec_beep_code_table(),
            final(self).spec_enable_heart_beat() == old(self).spec_enable_heart_beat(),
            final(self).spec_enable_power_good_gpio() == old(self).spec_enable_power_good_gpio(),
            final(self).spec_power_good_gpio() == old(self).spec_power_good_gpio(),
            final(self).spec__reserved_end() == old(self).spec__reserved_end(),
    {
        self.input_port_size = value.to_u64().unwrap() as u32;
    }

    pub fn output_port_size(&self) -> (r: Result<PortSize>)
        ensures
            r == match PortSize::spec_from_u64(self.spec_output_port_size() as u64) {
                Some(e) => Ok::<PortSize, Error>(e),
                None => Err(Error::EntryTypeMismatch),
            },
    {
        match PortSize::from_u64(self.output_port_size as u64) {
            Some(e) => Ok(e),
            None => Err(Error::EntryTypeMismatch),
        }
    }

    pub fn set_output_port_size(&mut self, value: PortSize)
        ensures
            final(self).spec_output_port_size() == value.spec_to_u64() as u32,
            final(self).spec_enable_error_reporting() == old(self).spec_enable_error_reporting(),
            final(self).spec_enable_error_reporting_gpio() == old(self).spec_enable_error_reporting_gpio(),
            final(self).spec_enable_error_reporting_beep_codes() == old(self).spec_enable_error_reporting_beep_codes(),
            final(self).spec_enable_using_handshake() == old(self).spec_enable_using_handshake(),
            final(self).spec_input_port() == old(self).spec_input_port(),
            final(self).spec_output_delay() == old(self).spec_output_delay(),
            final(self).spec_output_port() == old(self).spec_output_port(),
            final(self).spec_stop_on_first_fatal_error() == old(self).spec_stop_on_first_fatal_error(),
            final(self).spec__reserved_() == old(self).spec__reserved_(),
            final(self).spec_input_port_size() == old(self).spec_input_port_size(),
            final(self).spec_input_port_type() == old(self).spec_input_port_type(),
            final(self).spec_output_port_type() == old(self).spec_output_port_type(),
            final(self).spec_clear_acknowledgement() == old(self).spec_clear_acknowledgement(),
            final(self).spec_error_reporting_gpio() == old(self).spec_error_reporting_gpio(),
            final(self).spec_beep_code_table() == old(self).spec_beep_code_table(),
            final(self).spec_enable_heart_beat() == old(self).spec_enable_heart_beat(),
            final(self).spec_enable_power_good_gpio() == old(self).spec_enable_power_good_gpio(),
            final(self).spec_power_good_gpio() == old(self).spec_power_good_gpio(),
            final(self).spec__reserved_end() == old(self).spec__reserved_end(),
    {
        self.output_port_size = value.to_u64().unwrap() as u32;
    }

    pub fn input_port_type(&self) -> (r: Result<PortType>)
        ensures
            r == match PortType::spec_from_u64(self.spec_input_port_type() as u64) {
                Some(e) => Ok::<PortType, Error>(e),
                None => Err(Error::EntryTypeMismatch),
            },
    {
        match PortType::from_u64(self.input_port_type as u64) {
            Some(e) => Ok(e),
            None => Err(Error::EntryTypeMismatch),
        }
    }

    pub fn set_input_port_type(&mut self, value: PortType)
        ensures
            final(self).spec_input_port_type() == value.spec_to_u64() as u32,
            final(self).spec_enable_error_reporting() == old(self).spec_enable_error_reporting(),
            final(self).spec_enable_error_reporting_gpio() == old(self).spec_enable_error_reporting_gpio(),
            final(self).spec_enable_error_reporting_beep_codes() == old(self).spec_enable_error_reporting_beep_codes(),
            final(self).spec_enable_using_handshake() == old(self).spec_enable_using_handshake(),
            final(self).spec_input_port() == old(self).spec_input_port(),
            final(self).spec_output_delay() == old(self).spec_output_delay(),
            final(self).spec_output_port() == old(self).spec_output_port(),
            final(self).spec_stop_on_first_fatal_error() == old(self).spec_stop_on_first_fatal_error(),
            final(self).spec__reserved_() == old(self).spec__reserved_(),
            final(self).spec_input_port_size() == old(self).spec_input_port_size(),
            final(self).spec_output_port_size() == old(self).spec_output_port_size(),
            final(self).spec_output_port_type() == old(self).spec_output_port_type(),
            final(self).spec_clear_acknowledgement() == old(self).spec_clear_acknowledgement(),
            final(self).spec_error_reporting_gpio() == old(self).spec_error_reporting_gpio(),
            final(self).spec_beep_code_table() == old(self).spec_beep_code_table(),
            final(self).spec_enable_heart_beat() == old(self).spec_enable_heart_beat(),
            final(self).spec_enable_power_good_gpio() == old(self).spec_enable_power_good_gpio(),
            final(self).spec_power_good_gpio() == old(self).spec_power_good_gpio(),
            final(self).spec__reserved_end() == old(self).spec__reserved_end(),
    {
        self.input_port_type = value.to_u64().unwrap() as u32;
    }

    pub fn output_port_type(&self) -> (r: Result<PortType>)
        ensures
            r == match PortType::spec_from_u64(self.spec_output_port_type() as u64) {
                Some(e) => Ok::<PortType, Error>(e),
                None => Err(Error::EntryTypeMismatch),
            },
    {
        match PortType::from_u64(self.output_port_type as u64) {
            Some(e) => Ok(e),
            None => Err(Error::EntryTypeMismatch),
        }
    }

    pub fn set_output_port_type(&mut self, value: PortType)
        ensures
            final(self).spec_output_port_type() == value.spec_to_u64() as u32,
            final(self).spec_enable_error_reporting() == old(self).spec_enable_error_reporting(),
            final(self).spec_enable_error_reporting_gpio() == old(self).spec_enable_error_reporting_gpio(),
            final(self).spec_enable_error_reporting_beep_codes() == old(self).spec_enable_error_reporting_beep_codes(),
            final(self).spec_enable_using_handshake() == old(self).spec_enable_using_handshake(),
            final(self).spec_input_port() == old(self).spec_input_port(),
            final(self).spec_output_delay() == old(self).spec_output_delay(),
            final(self).spec_output_port() == old(self).spec_output_port(),
            final(self).spec_stop_on_first_fatal_error() == old(self).spec_stop_on_first_fatal_error(),
            final(self).spec__reserved_() == old(self).spec__reserved_(),
            final(self).spec_input_port_size() == old(self).spec_input_port_size(),
            final(self).spec_output_port_size() == old(self).spec_output_port_size(),
            final(self).spec_input_port_type() == old(self).spec_input_port_type(),
            final(self).spec_clear_acknowledgement() == old(self).spec_clear_acknowledgement(),
            final(self).spec_error_reporting_gpio() == old(self).spec_error_reporting_gpio(),
            final(self).spec_beep_code_table() == old(self).spec_beep_code_table(),
            final(self).spec_enable_heart_beat() == old(self).spec_enable_heart_beat(),
            final(self).spec_enable_power_good_gpio() == old(self).spec_enable_power_good_gpio(),
            final(self).spec_power_good_gpio() == old(self).spec_power_good_gpio(),
            final(self).spec__reserved_end() == old(self).spec__reserved_end(),
    {
        self.output_port_type = value.to_u64().unwrap() as u32;
    }

    pub fn clear_acknowledgement(&self) -> (r: Result<bool>)
        ensures
            r == spec_bool_result_of_raw(self.spec_clear_acknowledgement() as int),
    {
        match self.clear_acknowledgement {
            0 => Ok(false),
            1 => Ok(true),
            _ => Err(Error::EntryTypeMismatch),
        }
    }

    pub fn set_clear_acknowledgement(&mut self, value: bool)
        ensures
            final(self).spec_clear_acknowledgement() == spec_raw_of_bool(value) as u8,
            final(self).spec_enable_error_reporting() == old(self).spec_enable_error_reporting(),
            final(self).spec_enable_error_reporting_gpio() == old(self).spec_enable_error_reporting_gpio(),
            final(self).spec_enable_error_reporting_beep_codes() == old(self).spec_enable_error_reporting_beep_codes(),
            final(self).spec_enable_using_handshake() == old(self).spec_enable_using_handshake(),
            final(self).spec_input_port() == old(self).spec_input_port(),
            final(self).spec_output_delay() == old(self).spec_output_delay(),
            final(self).spec_output_port() == old(self).spec_output_port(),
            final(self).spec_stop_on_first_fatal_error() == old(self).spec_stop_on_first_fatal_error(),
            final(self).spec__reserved_() == old(self).spec__reserved_(),
            final(self).spec_input_port_size() == old(self).spec_input_port_size(),
            final(self).spec_output_port_size() == old(self).spec_output_port_size(),
            final(self).spec_input_port_type() == old(self).spec_input_port_type(),
            final(self).spec_output_port_type() == old(self).spec_output_port_type(),
            final(self).spec_error_reporting_gpio() == old(self).spec_error_reporting_gpio(),
            final(self).spec_beep_code_table() == old(self).spec_beep_code_table(),
            final(self).spec_enable_heart_beat() == old(self).spec_enable_heart_beat(),
            final(self).spec_enable_power_good_gpio() == old(self).spec_enable_power_good_gpio(),
            final(self).spec_power_good_gpio() == old(self).spec_power_good_gpio(),
            final(self).spec__reserved_end() == old(self).spec__reserved_end(),
    {
        self.clear_acknowledgement = if value { 1 } else { 0 };
    }

    pub fn enable_heart_beat(&self) -> (r: Result<bool>)
        ensures
            r == spec_bool_result_of_raw(self.spec_enable_heart_beat() as int),
    {
        match self.enable_heart_beat {
            0 => Ok(false),
            1 => Ok(true),
            _ => Err(Error::EntryTypeMismatch),
        }
    }

    pub fn set_enable_heart_beat(&mut self, value: bool)
        ensures
            final(self).spec_enable_heart_beat() == spec_raw_of_bool(value) as u8,
            final(self).spec_enable_error_reporting() == old(self).spec_enable_error_reporting(),
            final(self).spec_enable_error_reporting_gpio() == old(self).spec_enable_error_reporting_gpio(),
            final(self).spec_enable_error_reporting_beep_codes() == old(self).spec_enable_error_reporting_beep_codes(),
            final(self).spec_enable_using_handshake() == old(self).spec_enable_using_handshake(),
            final(self).spec_input_port() == old(self).spec_input_port(),
            final(self).spec_output_delay() == old(self).spec_output_delay(),
            final(self).spec_output_port() == old(self).spec_output_port(),
            final(self).spec_stop_on_first_fatal_error() == old(self).spec_stop_on_first_fatal_error(),
            final(self).spec__reserved_() == old(self).spec__reserved_(),
            final(self).spec_input_port_size() == old(self).spec_input_port_size(),
            final(self).spec_output_port_size() == old(self).spec_output_port_size(),
            final(self).spec_input_port_type() == old(self).spec_input_port_type(),
            final(self).spec_output_port_type() == old(self).spec_output_port_type(),
            final(self).spec_clear_acknowledgement() == old(self).spec_clear_acknowledgement(),
            final(self).spec_error_reporting_gpio() == old(self).spec_error_reporting_gpio(),
            final(self).spec_beep_code_table() == old(self).spec_beep_code_table(),
            final(self).spec_enable_power_good_gpio() == old(self).spec_enable_power_good_gpio(),
            final(self).spec_power_good_gpio() == old(self).spec_power_good_gpio(),
            final(self).spec__reserved_end() == old(self).spec__reserved_end(),
    {
        self.enable_heart_beat = if value { 1 } else { 0 };
    }

    pub fn enable_power_good_gpio(&self) -> (r: Result<bool>)
        ensures
            r == spec_bool_result_of_raw(self.spec_enable_power_good_gpio() as int),
    {
        match self.enable_power_good_gpio {
            0 => Ok(false),
            1 => Ok(true),
            _ => Err(Error::EntryTypeMismatch),
        }
    }

    pub fn set_enable_power_good_gpio(&mut self, value: bool)
        ensures
            final(self).spec_enable_power_good_gpio() == spec_raw_of_bool(value) as u8,
            final(self).spec_enable_error_reporting() == old(self).spec_enable_error_reporting(),
            final(self).spec_enable_error_reporting_gpio() == old(self).spec_enable_error_reporting_gpio(),
            final(self).spec_enable_error_reporting_beep_codes() == old(self).spec_enable_error_reporting_beep_codes(),
            final(self).spec_enable_using_handshake() == old(self).spec_enable_using_handshake(),
            final(self).spec_input_port() == old(self).spec_input_port(),
            final(self).spec_output_delay() == old(self).spec_output_delay(),
            final(self).spec_output_port() == old(self).spec_output_port(),
            final(self).spec_stop_on_first_fatal_error() == old(self).spec_stop_on_first_fatal_error(),
            final(self).spec__reserved_() == old(self).spec__reserved_(),
            final(self).spec_input_port_size() == old(self).spec_input_port_size(),
            final(self).spec_output_port_size() == old(self).spec_output_port_size(),
            final(self).spec_input_port_type() == old(self).spec_input_port_type(),
            final(self).spec_output_port_type() == old(self).spec_output_port_type(),
            final(self).spec_clear_acknowledgement() == old(self).spec_clear_acknowledgement(),
            final(self).spec_error_reporting_gpio() == old(self).spec_error_reporting_gpio(),
            final(self).spec_beep_code_table() == old(self).spec_beep_code_table(),
            final(self).spec_enable_heart_beat() == old(self).spec_enable_heart_beat(),
            final(self).spec_power_good_gpio() == old(self).spec_power_good_gpio(),
            final(self).spec__reserved_end() == old(self).spec__reserved_end(),
    {
        self.enable_power_good_gpio = if value { 1 } else { 0 };
    }

}

impl ErrorOutControl112 {
    /// The bytes that store this value on disk.
    pub closed spec fn spec_bytes(self) -> Seq<u8> {
        seq![self.enable_error_reporting]
            + seq![self.enable_error_reporting_gpio]
            + seq![self.enable_error_reporting_beep_codes]
            + seq![self.enable_using_handshake]
            + spec_u32_to_le_bytes(self.input_port)
            + spec_u32_to_le_bytes(self.output_delay)
            + spec_u32_to_le_bytes(self.output_port)
            + seq![self.stop_on_first_fatal_error]
            + self._reserved_@
            + spec_u32_to_le_bytes(self.input_port_size)
            + spec_u32_to_le_bytes(self.output_port_size)
            + spec_u32_to_le_bytes(self.input_port_type)
            + spec_u32_to_le_bytes(self.output_port_type)
            + seq![self.clear_acknowledgement]
            + self.error_reporting_gpio.spec_to_bytes()
            + self.beep_code_table[0].spec_to_bytes() + self.beep_code_table[1].spec_to_bytes() + self.beep_code_table[2].spec_to_bytes() + self.beep_code_table[3].spec_to_bytes() + self.beep_code_table[4].spec_to_bytes() + self.beep_code_table[5].spec_to_bytes() + self.beep_code_table[6].spec_to_bytes() + self.beep_code_table[7].spec_to_bytes()
            + seq![self.enable_heart_beat]
            + seq![self.enable_power_good_gpio]
            + self.power_good_gpio.spec_to_bytes()
            + self._reserved_end@
    }
}

impl ByteLayout for ErrorOutControl112 {
    open spec fn spec_size() -> nat {
        112
    }

    open spec fn spec_to_bytes(self) -> Seq<u8> {
        self.spec_bytes()
    }

    fn size() -> (r: usize) {
        112
    }

    #[verifier::spinoff_prover]
    #[verifier::rlimit(60)]
    fn from_bytes(bytes: &[u8]) -> (r: Self) {
        let enable_error_reporting: u8 = bytes[0];
        let enable_error_reporting_gpio: u8 = bytes[1];
        let enable_error_reporting_beep_codes: u8 = bytes[2];
        let enable_using_handshake: u8 = bytes[3];
        let input_port: u32 = u32_from_le_bytes(slice_subrange(bytes, 4, 8));
        let output_delay: u32 = u32_from_le_bytes(slice_subrange(bytes, 8, 12));
        let output_port: u32 = u32_from_le_bytes(slice_subrange(bytes, 12, 16));
        let stop_on_first_fatal_error: u8 = bytes[16];
        let _reserved_: [u8; 3] = [bytes[17], bytes[18], bytes[19]];
        let input_port_size: u32 = u32_from_le_bytes(slice_subrange(bytes, 20, 24));
        let output_port_size: u32 = u32_from_le_bytes(slice_subrange(bytes, 24, 28));
        let input_port_type: u32 = u32_from_le_bytes(slice_subrange(bytes, 28, 32));
        let output_port_type: u32 = u32_from_le_bytes(slice_subrange(bytes, 32, 36));
        let clear_acknowledgement: u8 = bytes[36];
        let error_reporting_gpio: Gpio = Gpio::from_bytes(slice_subrange(bytes, 37, 40));
        let beep_code_table: [ErrorOutControlBeepCode; 8] = [ErrorOutControlBeepCode::from_bytes(slice_subrange(bytes, 40, 48)), ErrorOutControlBeepCode::from_bytes(slice_subrange(bytes, 48, 56)), ErrorOutControlBeepCode::from_bytes(slice_subrange(bytes, 56, 64)), ErrorOutControlBeepCode::from_bytes(slice_subrange(bytes, 64, 72)), ErrorOutControlBeepCode::from_bytes(slice_subrange(bytes, 72, 80)), ErrorOutControlBeepCode::from_bytes(slice_subrange(bytes, 80, 88)), ErrorOutControlBeepCode::from_bytes(slice_subrange(bytes, 88, 96)), ErrorOutControlBeepCode::from_bytes(slice_subrange(bytes, 96, 104))];
        let enable_heart_beat: u8 = bytes[104];
        let enable_power_good_gpio: u8 = bytes[105];
        let power_good_gpio: Gpio = Gpio::from_bytes(slice_subrange(bytes, 106, 109));
        let _reserved_end: [u8; 3] = [bytes[109], bytes[110], bytes[111]];
        let r = ErrorOutControl112 { enable_error_reporting, enable_error_reporting_gpio, enable_error_reporting_beep_codes, enable_using_handshake, input_port, output_delay, output_port, stop_on_first_fatal_error, _reserved_, input_port_size, output_port_size, input_port_type, output_port_type, clear_acknowledgement, error_reporting_gpio, beep_code_table, enable_heart_beat, enable_power_good_gpio, power_good_gpio, _reserved_end };
        proof {
            lemma_auto_spec_u16_to_from_le_bytes();
            lemma_auto_spec_u32_to_from_le_bytes();
            lemma_auto_spec_u64_to_from_le_bytes();
            lemma_error_out_control112_bytes_pieces(r);
            assert(bytes@.subrange(4, 8) == spec_u32_to_le_bytes(input_port));
            assert(bytes@.subrange(8, 12) == spec_u32_to_le_bytes(output_delay));
            assert(bytes@.subrange(12, 16) == spec_u32_to_le_bytes(output_port));
            assert(bytes@.subrange(17, 20) =~= _reserved_@);
            assert(bytes@.subrange(20, 24) == spec_u32_to_le_bytes(input_port_size));
            assert(bytes@.subrange(24, 28) == spec_u32_to_le_bytes(output_port_size));
            assert(bytes@.subrange(28, 32) == spec_u32_to_le_bytes(input_port_type));
            assert(bytes@.subrange(32, 36) == spec_u32_to_le_bytes(output_port_type));
            assert(bytes@.subrange(37, 40) == error_reporting_gpio.spec_to_bytes());
            assert(bytes@.subrange(40, 48) == beep_code_table[0].spec_to_bytes());
            assert(bytes@.subrange(48, 56) == beep_code_table[1].spec_to_bytes());
            assert(bytes@.subrange(56, 64) == beep_code_table[2].spec_to_bytes());
            assert(bytes@.subrange(64, 72) == beep_code_table[3].spec_to_bytes());
            assert(bytes@.subrange(72, 80) == beep_code_table[4].spec_to_bytes());
            assert(bytes@.subrange(80, 88) == beep_code_table[5].spec_to_bytes());
            assert(bytes@.subrange(88, 96) == beep_code_table[6].spec_to_bytes());
            assert(bytes@.subrange(96, 104) == beep_code_table[7].spec_to_bytes());
            assert(bytes@.subrange(106, 109) == power_good_gpio.spec_to_bytes());
            assert(bytes@.subrange(109, 112) =~= _reserved_end@);
            assert(bytes@.subrange(0, 2) =~= bytes@.subrange(0, 1) + bytes@.subrange(1, 2));
            assert(bytes@.subrange(0, 3) =~= bytes@.subrange(0, 2) + bytes@.subrange(2, 3));
            assert(bytes@.subrange(0, 4) =~= bytes@.subrange(0, 3) + bytes@.subrange(3, 4));
            assert(bytes@.subrange(0, 8) =~= bytes@.subrange(0, 4) + bytes@.subrange(4, 8));
            assert(bytes@.subrange(0, 12) =~= bytes@.subrange(0, 8) + bytes@.subrange(8, 12));
            assert(bytes@.subrange(0, 16) =~= bytes@.subrange(0, 12) + bytes@.subrange(12, 16));
            assert(bytes@.subrange(0, 17) =~= bytes@.subrange(0, 16) + bytes@.subrange(16, 17));
            assert(bytes@.subrange(0, 20) =~= bytes@.subrange(0, 17) + bytes@.subrange(17, 20));
            assert(bytes@.subrange(0, 24) =~= bytes@.subrange(0, 20) + bytes@.subrange(20, 24));
            assert(bytes@.subrange(0, 28) =~= bytes@.subrange(0, 24) + bytes@.subrange(24, 28));
            assert(bytes@.subrange(0, 32) =~= bytes@.subrange(0, 28) + bytes@.subrange(28, 32));
            assert(bytes@.subrange(0, 36) =~= bytes@.subrange(0, 32) + bytes@.subrange(32, 36));
            assert(bytes@.subrange(0, 37) =~= bytes@.subrange(0, 36) + bytes@.subrange(36, 37));
            assert(bytes@.subrange(0, 40) =~= bytes@.subrange(0, 37) + bytes@.subrange(37, 40));
            assert(bytes@.subrange(0, 104) =~= bytes@.subrange(0, 40) + bytes@.subrange(40, 104));
            assert(bytes@.subrange(0, 105) =~= bytes@.subrange(0, 104) + bytes@.subrange(104, 105));
            assert(bytes@.subrange(0, 106) =~= bytes@.subrange(0, 105) + bytes@.subrange(105, 106));
            assert(bytes@.subrange(0, 109) =~= bytes@.subrange(0, 106) + bytes@.subrange(106, 109));
            assert(bytes@.subrange(0, 112) =~= bytes@.subrange(0, 109) + bytes@.subrange(109, 112));
            assert(bytes@.subrange(0, 112) =~= bytes@);
            assert(bytes@ == r.spec_bytes());
        }
        r
    }

    #[verifier::spinoff_prover]
    #[verifier::rlimit(60)]
    fn to_bytes(&self) -> (r: Vec<u8>) {
        let mut out: Vec<u8> = Vec::new();
        out.push(self.enable_error_reporting);
        out.push(self.enable_error_reporting_gpio);
        out.push(self.enable_error_reporting_beep_codes);
        out.push(self.enable_using_handshake);
        append_bytes(&mut out, &le_bytes_u32(self.input_port));
        append_bytes(&mut out, &le_bytes_u32(self.output_delay));
        append_bytes(&mut out, &le_bytes_u32(self.output_port));
        out.push(self.stop_on_first_fatal_error);
        append_bytes(&mut out, &self._reserved_);
        append_bytes(&mut out, &le_bytes_u32(self.input_port_size));
        append_bytes(&mut out, &le_bytes_u32(self.output_port_size));
        append_bytes(&mut out, &le_bytes_u32(self.input_port_type));
        append_bytes(&mut out, &le_bytes_u32(self.output_port_type));
        out.push(self.clear_acknowledgement);
        let part = self.error_reporting_gpio.to_bytes();
        append_bytes(&mut out, part.as_slice());
        let part = self.beep_code_table[0].to_bytes();
        append_bytes(&mut out, part.as_slice());
        let part = self.beep_code_table[1].to_bytes();
        append_bytes(&mut out, part.as_slice());
        let part = self.beep_code_table[2].to_bytes();
        append_bytes(&mut out, part.as_slice());
        let part = self.beep_code_table[3].to_bytes();
        append_bytes(&mut out, part.as_slice());
        let part = self.beep_code_table[4].to_bytes();
        append_bytes(&mut out, part.as_slice());
        let part = self.beep_code_table[5].to_bytes();
        append_bytes(&mut out, part.as_slice());
        let part = self.beep_code_table[6].to_bytes();
        append_bytes(&mut out, part.as_slice());
        let part = self.beep_code_table[7].to_bytes();
        append_bytes(&mut out, part.as_slice());
        out.push(self.enable_heart_beat);
        out.push(self.enable_power_good_gpio);
        let part = self.power_good_gpio.to_bytes();
        append_bytes(&mut out, part.as_slice());
        append_bytes(&mut out, &self._reserved_end);
        proof {
            lemma_error_out_control112_bytes_pieces(*self);
        }
        out
    }
}

/// How the bytes of a ErrorOutControl112 split up into its fields.
pub proof fn lemma_error_out_control112_bytes_pieces(x: ErrorOutControl112)
    ensures
        x.spec_bytes().len() == 112,
        x.spec_bytes()[0] == x.spec_enable_error_reporting(),
        x.spec_bytes()[1] == x.spec_enable_error_reporting_gpio(),
        x.spec_bytes()[2] == x.spec_enable_error_reporting_beep_codes(),
        x.spec_bytes()[3] == x.spec_enable_using_handshake(),
        x.spec_bytes().subrange(4, 8) == spec_u32_to_le_bytes(x.spec_input_port()),
        x.spec_bytes().subrange(8, 12) == spec_u32_to_le_bytes(x.spec_output_delay()),
        x.spec_bytes().subrange(12, 16) == spec_u32_to_le_bytes(x.spec_output_port()),
        x.spec_bytes()[16] == x.spec_stop_on_first_fatal_error(),
        x.spec_bytes().subrange(17, 20) == x.spec__reserved_()@,
        x.spec_bytes().subrange(20, 24) == spec_u32_to_le_bytes(x.spec_input_port_size()),
        x.spec_bytes().subrange(24, 28) == spec_u32_to_le_bytes(x.spec_output_port_size()),
        x.spec_bytes().subrange(28, 32) == spec_u32_to_le_bytes(x.spec_input_port_type()),
        x.spec_bytes().subrange(32, 36) == spec_u32_to_le_bytes(x.spec_output_port_type()),
        x.spec_bytes()[36] == x.spec_clear_acknowledgement(),
        x.spec_bytes().subrange(37, 40) == x.spec_error_reporting_gpio().spec_to_bytes(),
        x.spec_bytes().subrange(40, 104) == x.spec_beep_code_table()[0].spec_to_bytes() + x.spec_beep_code_table()[1].spec_to_bytes() + x.spec_beep_code_table()[2].spec_to_bytes() + x.spec_beep_code_table()[3].spec_to_bytes() + x.spec_beep_code_table()[4].spec_to_bytes() + x.spec_beep_code_table()[5].spec_to_bytes() + x.spec_beep_code_table()[6].spec_to_bytes() + x.spec_beep_code_table()[7].spec_to_bytes(),
        x.spec_bytes()[104] == x.spec_enable_heart_beat(),
        x.spec_bytes()[105] == x.spec_enable_power_good_gpio(),
        x.spec_bytes().subrange(106, 109) == x.spec_power_good_gpio().spec_to_bytes(),
        x.spec_bytes().subrange(109, 112) == x.spec__reserved_end()@,
{
    lemma_auto_spec_u16_to_from_le_bytes();
    lemma_auto_spec_u32_to_from_le_bytes();
    lemma_auto_spec_u64_to_from_le_bytes();
    lemma_gpio_bytes_pieces(x.error_reporting_gpio);
    lemma_error_out_control_beep_code_bytes_pieces(x.beep_code_table[0]);
    lemma_error_out_control_beep_code_bytes_pieces(x.beep_code_table[1]);
    lemma_error_out_control_beep_code_bytes_pieces(x.beep_code_table[2]);
    lemma_error_out_control_beep_code_bytes_pieces(x.beep_code_table[3]);
    lemma_error_out_control_beep_code_bytes_pieces(x.beep_code_table[4]);
    lemma_error_out_control_beep_code_bytes_pieces(x.beep_code_table[5]);
    lemma_error_out_control_beep_code_bytes_pieces(x.beep_code_table[6]);
    lemma_error_out_control_beep_code_bytes_pieces(x.beep_code_table[7]);
    lemma_gpio_bytes_pieces(x.power_good_gpio);
    assert(x.spec_bytes().subrange(4, 8) == spec_u32_to_le_bytes(x.input_port));
    assert(x.spec_bytes().subrange(8, 12) == spec_u32_to_le_bytes(x.output_delay));
    assert(x.spec_bytes().subrange(12, 16) == spec_u32_to_le_bytes(x.output_port));
    assert(x.spec_bytes().subrange(17, 20) == x._reserved_@);
    assert(x.spec_bytes().subrange(20, 24) == spec_u32_to_le_bytes(x.input_port_size));
    assert(x.spec_bytes().subrange(24, 28) == spec_u32_to_le_bytes(x.output_port_size));
    assert(x.spec_bytes().subrange(28, 32) == spec_u32_to_le_bytes(x.input_port_type));
    assert(x.spec_bytes().subrange(32, 36) == spec_u32_to_le_bytes(x.output_port_type));
    assert(x.spec_bytes().subrange(37, 40) == x.error_reporting_gpio.spec_to_bytes());
    assert(x.spec_bytes().subrange(40, 104) == x.beep_code_table[0].spec_to_bytes() + x.beep_code_table[1].spec_to_bytes() + x.beep_code_table[2].spec_to_bytes() + x.beep_code_table[3].spec_to_bytes() + x.beep_code_table[4].spec_to_bytes() + x.beep_code_table[5].spec_to_bytes() + x.beep_code_table[6].spec_to_bytes() + x.beep_code_table[7].spec_to_bytes());
    assert(x.spec_bytes().subrange(106, 109) == x.power_good_gpio.spec_to_bytes());
    assert(x.spec_bytes().subrange(109, 112) == x._reserved_end@);
}

/// Two values of ErrorOutControl112 with the same bytes are the same value.
#[verifier::spinoff_prover]
#[verifier::rlimit(60)]
pub proof fn lemma_error_out_control112_bytes_injective(x: ErrorOutControl112, y: ErrorOutControl112)
    requires
        x.spec_bytes() == y.spec_bytes(),
    ensures
        x == y,
{
    lemma_error_out_control112_bytes_pieces(x);
    lemma_error_out_control112_bytes_pieces(y);
    lemma_auto_spec_u16_to_from_le_bytes();
    lemma_auto_spec_u32_to_from_le_bytes();
    lemma_auto_spec_u64_to_from_le_bytes();
    assert(x.enable_error_reporting == y.enable_error_reporting);
    assert(x.enable_error_reporting_gpio == y.enable_error_reporting_gpio);
    assert(x.enable_error_reporting_beep_codes == y.enable_error_reporting_beep_codes);
    assert(x.enable_using_handshake == y.enable_using_handshake);
    assert(spec_u32_from_le_bytes(spec_u32_to_le_bytes(x.input_port)) == spec_u32_from_le_bytes(spec_u32_to_le_bytes(y.input_port)));
    assert(spec_u32_from_le_bytes(spec_u32_to_le_bytes(x.output_delay)) == spec_u32_from_le_bytes(spec_u32_to_le_bytes(y.output_delay)));
    assert(spec_u32_from_le_bytes(spec_u32_to_le_bytes(x.output_port)) == spec_u32_from_le_bytes(spec_u32_to_le_bytes(y.output_port)));
    assert(x.stop_on_first_fatal_error == y.stop_on_first_fatal_error);
    assert(x._reserved_@ == x.spec_bytes().subrange(17, 20));
    assert(x._reserved_ =~= y._reserved_);
    assert(spec_u32_from_le_bytes(spec_u32_to_le_bytes(x.input_port_size)) == spec_u32_from_le_bytes(spec_u32_to_le_bytes(y.input_port_size)));
    assert(spec_u32_from_le_bytes(spec_u32_to_le_bytes(x.output_port_size)) == spec_u32_from_le_bytes(spec_u32_to_le_bytes(y.output_port_size)));
    assert(spec_u32_from_le_bytes(spec_u32_to_le_bytes(x.input_port_type)) == spec_u32_from_le_bytes(spec_u32_to_le_bytes(y.input_port_type)));
    assert(spec_u32_from_le_bytes(spec_u32_to_le_bytes(x.output_port_type)) == spec_u32_from_le_bytes(spec_u32_to_le_bytes(y.output_port_type)));
    assert(x.clear_acknowledgement == y.clear_acknowledgement);
    lemma_gpio_bytes_injective(x.error_reporting_gpio, y.error_reporting_gpio);
    lemma_error_out_control_beep_code_bytes_pieces(x.beep_code_table[0]);
    lemma_error_out_control_beep_code_bytes_pieces(y.beep_code_table[0]);
    assert(x.spec_bytes().subrange(40, 48) == x.beep_code_table[0].spec_to_bytes());
    assert(y.spec_bytes().subrange(40, 48) == y.beep_code_table[0].spec_to_bytes());
    lemma_error_out_control_beep_code_bytes_injective(x.beep_code_table[0], y.beep_code_table[0]);
    lemma_error_out_control_beep_code_bytes_pieces(x.beep_code_table[1]);
    lemma_error_out_control_beep_code_bytes_pieces(y.beep_code_table[1]);
    assert(x.spec_bytes().subrange(48, 56) == x.beep_code_table[1].spec_to_bytes());
    assert(y.spec_bytes().subrange(48, 56) == y.beep_code_table[1].spec_to_bytes());
    lemma_error_out_control_beep_code_bytes_injective(x.beep_code_table[1], y.beep_code_table[1]);
    lemma_error_out_control_beep_code_bytes_pieces(x.beep_code_table[2]);
    lemma_error_out_control_beep_code_bytes_pieces(y.beep_code_table[2]);
    assert(x.spec_bytes().subrange(56, 64) == x.beep_code_table[2].spec_to_bytes());
    assert(y.spec_bytes().subrange(56, 64) == y.beep_code_table[2].spec_to_bytes());
    lemma_error_out_control_beep_code_bytes_injective(x.beep_code_table[2], y.beep_code_table[2]);
    lemma_error_out_control_beep_code_bytes_pieces(x.beep_code_table[3]);
    lemma_error_out_control_beep_code_bytes_pieces(y.beep_code_table[3]);
    assert(x.spec_bytes().subrange(64, 72) == x.beep_code_table[3].spec_to_bytes());
    assert(y.spec_bytes().subrange(64, 72) == y.beep_code_table[3].spec_to_bytes());
    lemma_error_out_control_beep_code_bytes_injective(x.beep_code_table[3], y.beep_code_table[3]);
    lemma_error_out_control_beep_code_bytes_pieces(x.beep_code_table[4]);
    lemma_error_out_control_beep_code_bytes_pieces(y.beep_code_table[4]);
    assert(x.spec_bytes().subrange(72, 80) == x.beep_code_table[4].spec_to_bytes());
    assert(y.spec_bytes().subrange(72, 80) == y.beep_code_table[4].spec_to_bytes());
    lemma_error_out_control_beep_code_bytes_injective(x.beep_code_table[4], y.beep_code_table[4]);
    lemma_error_out_control_beep_code_bytes_pieces(x.beep_code_table[5]);
    lemma_error_out_control_beep_code_bytes_pieces(y.beep_code_table[5]);
    assert(x.spec_bytes().subrange(80, 88) == x.beep_code_table[5].spec_to_bytes());
    assert(y.spec_bytes().subrange(80, 88) == y.beep_code_table[5].spec_to_bytes());
    lemma_error_out_control_beep_code_bytes_injective(x.beep_code_table[5], y.beep_code_table[5]);
    lemma_error_out_control_beep_code_bytes_pieces(x.beep_code_table[6]);
    lemma_error_out_control_beep_code_bytes_pieces(y.beep_code_table[6]);
    assert(x.spec_bytes().subrange(88, 96) == x.beep_code_table[6].spec_to_bytes());
    assert(y.spec_bytes().subrange(88, 96) == y.beep_code_table[6].spec_to_bytes());
    lemma_error_out_control_beep_code_bytes_injective(x.beep_code_table[6], y.beep_code_table[6]);
    lemma_error_out_control_beep_code_bytes_pieces(x.beep_code_table[7]);
    lemma_error_out_control_beep_code_bytes_pieces(y.beep_code_table[7]);
    assert(x.spec_bytes().subrange(96, 104) == x.beep_code_table[7].spec_to_bytes());
    assert(y.spec_bytes().subrange(96, 104) == y.beep_code_table[7].spec_to_bytes());
    lemma_error_out_control_beep_code_bytes_injective(x.beep_code_table[7], y.beep_code_table[7]);
    assert(x.beep_code_table =~= y.beep_code_table);
    assert(x.enable_heart_beat == y.enable_heart_beat);
    assert(x.enable_power_good_gpio == y.enable_power_good_gpio);
    lemma_gpio_bytes_injective(x.power_good_gpio, y.power_good_gpio);
    assert(x._reserved_end@ == x.spec_bytes().subrange(109, 112));
    assert(x._reserved_end =~= y._reserved_end);
}

impl Default for ErrorOutControl112 {
    fn default() -> (r: Self)
        ensures
            r.spec_enable_error_reporting() == 0,
            r.spec_enable_error_reporting_gpio() == 0,
            r.spec_enable_error_reporting_beep_codes() == 0,
            r.spec_enable_using_handshake() == 0,
            r.spec_input_port() == 0,
            r.spec_output_delay() == 15000,
            r.spec_output_port() == 0x80,
            r.spec_stop_on_first_fatal_error() == 1,
            r.spec__reserved_() == [0u8, 0u8, 0u8],
            r.spec_input_port_size() == 1,
            r.spec_output_port_size() == 4,
            r.spec_input_port_type() == 6,
            r.spec_output_port_type() == 6,
            r.spec_clear_acknowledgement() == 1,
            r.spec_error_reporting_gpio() == Gpio::spec_of_fields(0, 0, 0),
            r.spec_beep_code_table() == [ErrorOutControlBeepCode::spec_of_fields(0x3fff, 1, 8), ErrorOutControlBeepCode::spec_of_fields(0x4fff, 2, 20), ErrorOutControlBeepCode::spec_of_fields(0x5fff, 3, 20), ErrorOutControlBeepCode::spec_of_fields(0x6fff, 4, 20), ErrorOutControlBeepCode::spec_of_fields(0x7fff, 5, 20), ErrorOutControlBeepCode::spec_of_fields(0x8fff, 6, 20), ErrorOutControlBeepCode::spec_of_fields(0x9fff, 7, 20), ErrorOutControlBeepCode::spec_of_fields(0xffff, 2, 4)],
            r.spec_enable_heart_beat() == 1,
            r.spec_enable_power_good_gpio() == 0,
            r.spec_power_good_gpio() == Gpio::spec_of_fields(0, 0, 0),
            r.spec__reserved_end() == [0u8, 0u8, 0u8],
    {
        ErrorOutControl112 { enable_error_reporting: 0, enable_error_reporting_gpio: 0, enable_error_reporting_beep_codes: 0, enable_using_handshake: 0, input_port: 0, output_delay: 15000, output_port: 0x80, stop_on_first_fatal_error: 1, _reserved_: [0, 0, 0], input_port_size: 1, output_port_size: 4, input_port_type: 6, output_port_type: 6, clear_acknowledgement: 1, error_reporting_gpio: Gpio { pin: 0, iomux_control: 0, bank_control: 0 }, beep_code_table: [ErrorOutControlBeepCode { error_type: 0x3fff, peak_map: 1, peak_attr: 8 }, ErrorOutControlBeepCode { error_type: 0x4fff, peak_map: 2, peak_attr: 20 }, ErrorOutControlBeepCode { error_type: 0x5fff, peak_map: 3, peak_attr: 20 }, ErrorOutControlBeepCode { error_type: 0x6fff, peak_map: 4, peak_attr: 20 }, ErrorOutControlBeepCode { error_type: 0x7fff, peak_map: 5, peak_attr: 20 }, ErrorOutControlBeepCode { error_type: 0x8fff, peak_map: 6, peak_attr: 20 }, ErrorOutControlBeepCode { error_type: 0x9fff, peak_map: 7, peak_attr: 20 }, ErrorOutControlBeepCode { error_type: 0xffff, peak_map: 2, peak_attr: 4 }], enable_heart_beat: 1, enable_power_good_gpio: 0, power_good_gpio: Gpio { pin: 0, iomux_control: 0, bank_control: 0 }, _reserved_end: [0, 0, 0] }
    }
}

impl ErrorOutControl112 {
    pub fn new() -> (r: Self)
        ensures
            r.spec_enable_error_reporting() == 0,
            r.spec_enable_error_reporting_gpio() == 0,
            r.spec_enable_error_reporting_beep_codes() == 0,
            r.spec_enable_using_handshake() == 0,
            r.spec_input_port() == 0,
            r.spec_output_delay() == 15000,
            r.spec_output_port() == 0x80,
            r.spec_stop_on_first_fatal_error() == 1,
            r.spec__reserved_() == [0u8, 0u8, 0u8],
            r.spec_input_port_size() == 1,
            r.spec_output_port_size() == 4,
            r.spec_input_port_type() == 6,
            r.spec_output_port_type() == 6,
            r.spec_clear_acknowledgement() == 1,
            r.spec_error_reporting_gpio() == Gpio::spec_of_fields(0, 0, 0),
            r.spec_beep_code_table() == [ErrorOutControlBeepCode::spec_of_fields(0x3fff, 1, 8), ErrorOutControlBeepCode::spec_of_fields(0x4fff, 2, 20), ErrorOutControlBeepCode::spec_of_fields(0x5fff, 3, 20), ErrorOutControlBeepCode::spec_of_fields(0x6fff, 4, 20), ErrorOutControlBeepCode::spec_of_fields(0x7fff, 5, 20), ErrorOutControlBeepCode::spec_of_fields(0x8fff, 6, 20), ErrorOutControlBeepCode::spec_of_fields(0x9fff, 7, 20), ErrorOutControlBeepCode::spec_of_fields(0xffff, 2, 4)],
            r.spec_enable_heart_beat() == 1,
            r.spec_enable_power_good_gpio() == 0,
            r.spec_power_good_gpio() == Gpio::spec_of_fields(0, 0, 0),
            r.spec__reserved_end() == [0u8, 0u8, 0u8],
    {
        Self::default()
    }
}

impl ErrorOutControl112 {
    /// The error reporting GPIO, if its use is enabled (the enabling byte must be 0 or 1).
    pub fn error_reporting_gpio(&self) -> (r: Result<Option<Gpio>>)
        ensures
            r == (if self.spec_enable_error_reporting_gpio() == 1 {
                Ok::<Option<Gpio>, Error>(Some(self.spec_error_reporting_gpio()))
            } else if self.spec_enable_error_reporting_gpio() == 0 {
                Ok::<Option<Gpio>, Error>(None)
            } else {
                Err(Error::EntryTypeMismatch)
            }),
    {
        match self.enable_error_reporting_gpio {
            1 => Ok(Some(self.error_reporting_gpio)),
            0 => Ok(None),
            _ => Err(Error::EntryTypeMismatch),
        }
    }

    /// Enables the error reporting GPIO with the given pin, or disables it (and clears the pin).
    pub fn set_error_reporting_gpio(&mut self, value: Option<Gpio>)
        ensures
            final(self).spec_enable_error_reporting_gpio() == (if value is Some { 1u8 } else { 0u8 }),
            final(self).spec_error_reporting_gpio() == (match value {
                Some(g) => g,
                None => Gpio::spec_of_fields(0, 0, 0),
            }),
            final(self).spec_enable_power_good_gpio() == old(self).spec_enable_power_good_gpio(),
            final(self).spec_power_good_gpio() == old(self).spec_power_good_gpio(),
            final(self).spec_beep_code_table() == old(self).spec_beep_code_table(),
            final(self).spec_enable_error_reporting() == old(self).spec_enable_error_reporting(),
            final(self).spec_enable_error_reporting_beep_codes() == old(self).spec_enable_error_reporting_beep_codes(),
            final(self).spec_enable_using_handshake() == old(self).spec_enable_using_handshake(),
            final(self).spec_input_port() == old(self).spec_input_port(),
            final(self).spec_output_delay() == old(self).spec_output_delay(),
            final(self).spec_output_port() == old(self).spec_output_port(),
            final(self).spec_stop_on_first_fatal_error() == old(self).spec_stop_on_first_fatal_error(),
            final(self).spec__reserved_() == old(self).spec__reserved_(),
            final(self).spec_input_port_size() == old(self).spec_input_port_size(),
            final(self).spec_output_port_size() == old(self).spec_output_port_size(),
            final(self).spec_input_port_type() == old(self).spec_input_port_type(),
            final(self).spec_output_port_type() == old(self).spec_output_port_type(),
            final(self).spec_clear_acknowledgement() == old(self).spec_clear_acknowledgement(),
            final(self).spec_enable_heart_beat() == old(self).spec_enable_heart_beat(),
            final(self).spec__reserved_end() == old(self).spec__reserved_end(),
    {
        match value {
            Some(value) => {
                self.enable_error_reporting_gpio = 1;
                self.error_reporting_gpio = value;
            },
            None => {
                self.enable_error_reporting_gpio = 0;
                self.error_reporting_gpio = Gpio::new(0, 0, 0);
            },
        }
    }

    /// The table of beep codes.
    pub fn beep_code_table(&self) -> (r: Result<[ErrorOutControlBeepCode; 8]>)
        ensures
            r == Ok::<[ErrorOutControlBeepCode; 8], Error>(self.spec_beep_code_table()),
    {
        Ok(self.beep_code_table)
    }

    pub fn set_beep_code_table(&mut self, value: [ErrorOutControlBeepCode; 8])
        ensures
            final(self).spec_beep_code_table() == value,
            final(self).spec_enable_error_reporting_gpio() == old(self).spec_enable_error_reporting_gpio(),
            final(self).spec_error_reporting_gpio() == old(self).spec_error_reporting_gpio(),
            final(self).spec_enable_power_good_gpio() == old(self).spec_enable_power_good_gpio(),
            final(self).spec_power_good_gpio() == old(self).spec_power_good_gpio(),
    {
        self.beep_code_table = value;
    }

    /// The power-good GPIO, if its use is enabled (the enabling byte must be 0 or 1).
    pub fn power_good_gpio(&self) -> (r: Result<Option<Gpio>>)
        ensures
            r == (if self.spec_enable_power_good_gpio() == 1 {
                Ok::<Option<Gpio>, Error>(Some(self.spec_power_good_gpio()))
            } else if self.spec_enable_power_good_gpio() == 0 {
                Ok::<Option<Gpio>, Error>(None)
            } else {
                Err(Error::EntryTypeMismatch)
            }),
    {
        match self.enable_power_good_gpio {
            1 => Ok(Some(self.power_good_gpio)),
            0 => Ok(None),
            _ => Err(Error::EntryTypeMismatch),
        }
    }

    /// Enables the power-good GPIO with the given pin, or disables it (and clears the pin).
    pub fn set_power_good_gpio(&mut self, value: Option<Gpio>)
        ensures
            final(self).spec_enable_power_good_gpio() == (if value is Some { 1u8 } else { 0u8 }),
            final(self).spec_power_good_gpio() == (match value {
                Some(g) => g,
                None => Gpio::spec_of_fields(0, 0, 0),
            }),
            final(self).spec_enable_error_reporting_gpio() == old(self).spec_enable_error_reporting_gpio(),
            final(self).spec_error_reporting_gpio() == old(self).spec_error_reporting_gpio(),
            final(self).spec_beep_code_table() == old(self).spec_beep_code_table(),
            final(self).spec_enable_error_reporting() == old(self).spec_enable_error_reporting(),
            final(self).spec_enable_error_reporting_beep_codes() == old(self).spec_enable_error_reporting_beep_codes(),
            final(self).spec_enable_using_handshake() == old(self).spec_enable_using_handshake(),
            final(self).spec_input_port() == old(self).spec_input_port(),
            final(self).spec_output_delay() == old(self).spec_output_delay(),
            final(self).spec_output_port() == old(self).spec_output_port(),
            final(self).spec_stop_on_first_fatal_error() == old(self).spec_stop_on_first_fatal_error(),
            final(self).spec__reserved_() == old(self).spec__reserved_(),
            final(self).spec_input_port_size() == old(self).spec_input_port_size(),
            final(self).spec_output_port_size() == old(self).spec_output_port_size(),
            final(self).spec_input_port_type() == old(self).spec_input_port_type(),
            final(self).spec_output_port_type() == old(self).spec_output_port_type(),
            final(self).spec_clear_acknowledgement() == old(self).spec_clear_acknowledgement(),
            final(self).spec_enable_heart_beat() == old(self).spec_enable_heart_beat(),
            final(self).spec__reserved_end() == old(self).spec__reserved_end(),
    {
        match value {
            Some(value) => {
                self.enable_power_good_gpio = 1;
                self.power_good_gpio = value;
            },
            None => {
                self.enable_power_good_gpio = 0;
                self.power_good_gpio = Gpio::new(0, 0, 0);
            },
        }
    }
}

impl EntryCompatible for ErrorOutControl112 {
    fn is_entry_compatible(entry_id: EntryId, _prefix: &[u8]) -> (r: bool)
        ensures
            r == (entry_id == EntryId::Memory(MemoryEntryId::ErrorOutControl)),
    {
        matches!(entry_id, EntryId::Memory(MemoryEntryId::ErrorOutControl))
    }
}

/// The ranks of up to three DIMMs that an ODT pattern applies to.
#[derive(Debug, Clone, Copy, PartialEq, Eq, Structural)]
pub struct Ddr4OdtPatDimmRankBitmaps(u32);

impl Ddr4OdtPatDimmRankBitmaps {
    /// The packed bits.
    pub closed spec fn spec_raw(self) -> u32 {
        self.0
    }

    /// The value with the given packed bits.
    pub closed spec fn spec_from_raw(raw: u32) -> Self {
        Ddr4OdtPatDimmRankBitmaps(raw)
    }

    /// The packed bits determine the value, and any packed bits make a value.
    pub proof fn lemma_raw(x: Self, raw: u32)
        ensures
            Self::spec_from_raw(raw).spec_raw() == raw,
            Self::spec_from_raw(x.spec_raw()) == x,
    {
    }

    pub open spec fn spec_dimm0(self) -> u32 {
        spec_field_u32(self.spec_raw(), 0, 4)
    }

    pub open spec fn spec_dimm1(self) -> u32 {
        spec_field_u32(self.spec_raw(), 4, 4)
    }

    pub open spec fn spec_dimm2(self) -> u32 {
        spec_field_u32(self.spec_raw(), 8, 4)
    }

    /// All bits clear.
    pub fn new() -> (r: Self)
        ensures
            r.spec_raw() == 0,
    {
        Ddr4OdtPatDimmRankBitmaps(0)
    }

    /// The value with the given packed bits.
    pub fn from_raw(raw: u32) -> (r: Self)
        ensures
            r.spec_raw() == raw,
            r == Self::spec_from_raw(raw),
    {
        Ddr4OdtPatDimmRankBitmaps(raw)
    }

    /// The packed bits.
    pub fn into_raw(self) -> (r: u32)
        ensures
            r == self.spec_raw(),
    {
        self.0
    }

    pub fn dimm0(&self) -> (r: Ddr4DimmRanks)
        ensures
            r.spec_raw() == self.spec_dimm0() as u8,
    {
        proof {
            lemma_shift_table_u32();
        }
        Ddr4DimmRanks::from_raw(field_u32(self.0, 0, 4) as u8)
    }

    pub fn set_dimm0(&mut self, value: Ddr4DimmRanks)
        requires
            value.spec_raw() < 0x10,
        ensures
            final(self).spec_raw() == spec_with_field_u32(old(self).spec_raw(), 0, 4, value.spec_raw() as u32),
            final(self).spec_dimm0() == value.spec_raw() as u32,
            final(self).spec_dimm1() == old(self).spec_dimm1(),
            final(self).spec_dimm2() == old(self).spec_dimm2(),
    {
        let x: u32 = value.into_raw() as u32;
        let ghost old_raw = self.0;
        proof {
            lemma_shift_table_u32();
            lemma_with_field_same_u32(old_raw, 0, 4, x);
            lemma_with_field_other_u32(old_raw, 0, 4, x, 4, 4);
            lemma_with_field_other_u32(old_raw, 0, 4, x, 8, 4);
        }
        self.0 = with_field_u32(self.0, 0, 4, x);
    }

    pub fn with_dimm0(self, value: Ddr4DimmRanks) -> (r: Self)
        requires
            value.spec_raw() < 0x10,
        ensures
            r.spec_raw() == spec_with_field_u32(self.spec_raw(), 0, 4, value.spec_raw() as u32),
            r.spec_dimm0() == value.spec_raw() as u32,
            r.spec_dimm1() == self.spec_dimm1(),
            r.spec_dimm2() == self.spec_dimm2(),
    {
        let mut r = self;
        r.set_dimm0(value);
        r
    }

    pub fn dimm1(&self) -> (r: Ddr4DimmRanks)
        ensures
            r.spec_raw() == self.spec_dimm1() as u8,
    {
        proof {
            lemma_shift_table_u32();
        }
        Ddr4DimmRanks::from_raw(field_u32(self.0, 4, 4) as u8)
    }

    pub fn set_dimm1(&mut self, value: Ddr4DimmRanks)
        requires
            value.spec_raw() < 0x10,
        ensures
            final(self).spec_raw() == spec_with_field_u32(old(self).spec_raw(), 4, 4, value.spec_raw() as u32),
            final(self).spec_dimm1() == value.spec_raw() as u32,
            final(self).spec_dimm0() == old(self).spec_dimm0(),
            final(self).spec_dimm2() == old(self).spec_dimm2(),
    {
        let x: u32 = value.into_raw() as u32;
        let ghost old_raw = self.0;
        proof {
            lemma_shift_table_u32();
            lemma_with_field_same_u32(old_raw, 4, 4, x);
            lemma_with_field_other_u32(old_raw, 4, 4, x, 0, 4);
            lemma_with_field_other_u32(old_raw, 4, 4, x, 8, 4);
        }
        self.0 = with_field_u32(self.0, 4, 4, x);
    }

    pub fn with_dimm1(self, value: Ddr4DimmRanks) -> (r: Self)
        requires
            value.spec_raw() < 0x10,
        ensures
            r.spec_raw() == spec_with_field_u32(self.spec_raw(), 4, 4, value.spec_raw() as u32),
            r.spec_dimm1() == value.spec_raw() as u32,
            r.spec_dimm0() == self.spec_dimm0(),
            r.spec_dimm2() == self.spec_dimm2(),
    {
        let mut r = self;
        r.set_dimm1(value);
        r
    }

    pub fn dimm2(&self) -> (r: Ddr4DimmRanks)
        ensures
            r.spec_raw() == self.spec_dimm2() as u8,
    {
        proof {
            lemma_shift_table_u32();
        }
        Ddr4DimmRanks::from_raw(field_u32(self.0, 8, 4) as u8)
    }

    pub fn set_dimm2(&mut self, value: Ddr4DimmRanks)
        requires
            value.spec_raw() < 0x10,
        ensures
            final(self).spec_raw() == spec_with_field_u32(old(self).spec_raw(), 8, 4, value.spec_raw() as u32),
            final(self).spec_dimm2() == value.spec_raw() as u32,
            final(self).spec_dimm0() == old(self).spec_dimm0(),
            final(self).spec_dimm1() == old(self).spec_dimm1(),
    {
        let x: u32 = value.into_raw() as u32;
        let ghost old_raw = self.0;
        proof {
            lemma_shift_table_u32();
            lemma_with_field_same_u32(old_raw, 8, 4, x);
            lemma_with_field_other_u32(old_raw, 8, 4, x, 0, 4);
            lemma_with_field_other_u32(old_raw, 8, 4, x, 4, 4);
        }
        self.0 = with_field_u32(self.0, 8, 4, x);
    }

    pub fn with_dimm2(self, value: Ddr4DimmRanks) -> (r: Self)
        requires
            value.spec_raw() < 0x10,
        ensures
            r.spec_raw() == spec_with_field_u32(self.spec_raw(), 8, 4, value.spec_raw() as u32),
            r.spec_dimm2() == value.spec_raw() as u32,
            r.spec_dimm0() == self.spec_dimm0(),
            r.spec_dimm1() == self.spec_dimm1(),
    {
        let mut r = self;
        r.set_dimm2(value);
        r
    }

    /// The bits that have a meaning; the others are reserved.
    pub const VALID_BITS: u64 = 0x777;

    /// Whether VALUE leaves all reserved bits clear.
    pub fn all_reserved_bits_are_unused(value: u64) -> (r: bool)
        ensures
            r == (value & !0x777u64 == 0),
    {
        value & !Self::VALID_BITS == 0
    }

    pub fn from_u64(value: u64) -> (r: Option<Self>)
        ensures
            r is Some <==> (value & !0x777u64 == 0 && value <= 0xffffffff),
            r matches Some(x) ==> x.spec_raw() == value,
    {
        if Self::all_reserved_bits_are_unused(value) {
            if value <= 0xffffffff {
                Some(Ddr4OdtPatDimmRankBitmaps(value as u32))
            } else {
                None
            }
        } else {
            None
        }
    }

    pub fn from_i64(value: i64) -> (r: Option<Self>)
        ensures
            r is Some <==> (value >= 0 && (value as u64) & !0x777u64 == 0 && value <= 0xffffffff),
            r matches Some(x) ==> x.spec_raw() == value,
    {
        if value >= 0 {
            Self::from_u64(value as u64)
        } else {
            None
        }
    }

    pub fn to_u64(&self) -> (r: Option<u64>)
        ensures
            r == Some(self.spec_raw() as u64),
    {
        Some(self.0 as u64)
    }

    pub fn to_i64(&self) -> (r: Option<i64>)
        ensures
            r == Some(self.spec_raw() as i64),
    {
        Some(self.0 as i64)
    }

}

impl Default for Ddr4OdtPatDimmRankBitmaps {
    fn default() -> (r: Self)
        ensures
            r.spec_raw() == 0,
    {
        Self::new()
    }
}

/// The ODT patterns used while reading and while writing.
#[derive(Debug, Clone, Copy, PartialEq, Eq, Structural)]
pub struct OdtPatPatterns(u32);

impl OdtPatPatterns {
    /// The packed bits.
    pub closed spec fn spec_raw(self) -> u32 {
        self.0
    }

    /// The value with the given packed bits.
    pub closed spec fn spec_from_raw(raw: u32) -> Self {
        OdtPatPatterns(raw)
    }

    /// The packed bits determine the value, and any packed bits make a value.
    pub proof fn lemma_raw(x: Self, raw: u32)
        ensures
            Self::spec_from_raw(raw).spec_raw() == raw,
            Self::spec_from_raw(x.spec_raw()) == x,
    {
    }

    pub open spec fn spec_reading_pattern(self) -> u32 {
        spec_field_u32(self.spec_raw(), 0, 4)
    }

    pub open spec fn spec_writing_pattern(self) -> u32 {
        spec_field_u32(self.spec_raw(), 8, 4)
    }

    /// All bits clear.
    pub fn new() -> (r: Self)
        ensures
            r.spec_raw() == 0,
    {
        OdtPatPatterns(0)
    }

    /// The value with the given packed bits.
    pub fn from_raw(raw: u32) -> (r: Self)
        ensures
            r.spec_raw() == raw,
            r == Self::spec_from_raw(raw),
    {
        OdtPatPatterns(raw)
    }

    /// The packed bits.
    pub fn into_raw(self) -> (r: u32)
        ensures
            r == self.spec_raw(),
    {
        self.0
    }

    pub fn reading_pattern(&self) -> (r: u8)
        ensures
            r == self.spec_reading_pattern(),
            r < 0x10,
    {
        proof {
            lemma_shift_table_u32();
        }
        field_u32(self.0, 0, 4) as u8
    }

    pub fn set_reading_pattern(&mut self, value: u8)
        requires
            value < 0x10,
        ensures
            final(self).spec_raw() == spec_with_field_u32(old(self).spec_raw(), 0, 4, value as u32),
            final(self).spec_reading_pattern() == value as u32,
            final(self).spec_writing_pattern() == old(self).spec_writing_pattern(),
    {
        let x: u32 = value as u32;
        let ghost old_raw = self.0;
        proof {
            lemma_shift_table_u32();
            lemma_with_field_same_u32(old_raw, 0, 4, x);
            lemma_with_field_other_u32(old_raw, 0, 4, x, 8, 4);
        }
        self.0 = with_field_u32(self.0, 0, 4, x);
    }

    pub fn with_reading_pattern(self, value: u8) -> (r: Self)
        requires
            value < 0x10,
        ensures
            r.spec_raw() == spec_with_field_u32(self.spec_raw(), 0, 4, value as u32),
            r.spec_reading_pattern() == value as u32,
            r.spec_writing_pattern() == self.spec_writing_pattern(),
    {
        let mut r = self;
        r.set_reading_pattern(value);
        r
    }

    pub fn writing_pattern(&self) -> (r: u8)
        ensures
            r == self.spec_writing_pattern(),
            r < 0x10,
    {
        proof {
            lemma_shift_table_u32();
        }
        field_u32(self.0, 8, 4) as u8
    }

    pub fn set_writing_pattern(&mut self, value: u8)
        requires
            value < 0x10,
        ensures
            final(self).spec_raw() == spec_with_field_u32(old(self).spec_raw(), 8, 4, value as u32),
            final(self).spec_writing_pattern() == value as u32,
            final(self).spec_reading_pattern() == old(self).spec_reading_pattern(),
    {
        let x: u32 = value as u32;
        let ghost old_raw = self.0;
        proof {
            lemma_shift_table_u32();
            lemma_with_field_same_u32(old_raw, 8, 4, x);
            lemma_with_field_other_u32(old_raw, 8, 4, x, 0, 4);
        }
        self.0 = with_field_u32(self.0, 8, 4, x);
    }

    pub fn with_writing_pattern(self, value: u8) -> (r: Self)
        requires
            value < 0x10,
        ensures
            r.spec_raw() == spec_with_field_u32(self.spec_raw(), 8, 4, value as u32),
            r.spec_writing_pattern() == value as u32,
            r.spec_reading_pattern() == self.spec_reading_pattern(),
    {
        let mut r = self;
        r.set_writing_pattern(value);
        r
    }

    /// The bits that have a meaning; the others are reserved.
    pub const VALID_BITS: u64 = 0xf0f;

    /// Whether VALUE leaves all reserved bits clear.
    pub fn all_reserved_bits_are_unused(value: u64) -> (r: bool)
        ensures
            r == (value & !0xf0fu64 == 0),
    {
        value & !Self::VALID_BITS == 0
    }

    pub fn from_u64(value: u64) -> (r: Option<Self>)
        ensures
            r is Some <==> (value & !0xf0fu64 == 0 && value <= 0xffffffff),
            r matches Some(x) ==> x.spec_raw() == value,
    {
        if Self::all_reserved_bits_are_unused(value) {
            if value <= 0xffffffff {
                Some(OdtPatPatterns(value as u32))
            } else {
                None
            }
        } else {
            None
        }
    }

    pub fn from_i64(value: i64) -> (r: Option<Self>)
        ensures
            r is Some <==> (value >= 0 && (value as u64) & !0xf0fu64 == 0 && value <= 0xffffffff),
            r matches Some(x) ==> x.spec_raw() == value,
    {
        if value >= 0 {
            Self::from_u64(value as u64)
        } else {
            None
        }
    }

    pub fn to_u64(&self) -> (r: Option<u64>)
        ensures
            r == Some(self.spec_raw() as u64),
    {
        Some(self.0 as u64)
    }

    pub fn to_i64(&self) -> (r: Option<i64>)
        ensures
            r == Some(self.spec_raw() as i64),
    {
        Some(self.0 as i64)
    }

}

/// The LRDIMM populations of up to three DIMMs that an ODT pattern applies to.
#[derive(Debug, Clone, Copy, PartialEq, Eq, Structural)]
pub struct LrdimmDdr4OdtPatDimmRankBitmaps(u32);

impl LrdimmDdr4OdtPatDimmRankBitmaps {
    /// The packed bits.
    pub closed spec fn spec_raw(self) -> u32 {
        self.0
    }

    /// The value with the given packed bits.
    pub closed spec fn spec_from_raw(raw: u32) -> Self {
        LrdimmDdr4OdtPatDimmRankBitmaps(raw)
    }

    /// The packed bits determine the value, and any packed bits make a value.
    pub proof fn lemma_raw(x: Self, raw: u32)
        ensures
            Self::spec_from_raw(raw).spec_raw() == raw,
            Self::spec_from_raw(x.spec_raw()) == x,
    {
    }

    pub open spec fn spec_dimm0(self) -> u32 {
        spec_field_u32(self.spec_raw(), 0, 4)
    }

    pub open spec fn spec_dimm1(self) -> u32 {
        spec_field_u32(self.spec_raw(), 4, 4)
    }

    pub open spec fn spec_dimm2(self) -> u32 {
        spec_field_u32(self.spec_raw(), 8, 4)
    }

    /// All bits clear.
    pub fn new() -> (r: Self)
        ensures
            r.spec_raw() == 0,
    {
        LrdimmDdr4OdtPatDimmRankBitmaps(0)
    }

    /// The value with the given packed bits.
    pub fn from_raw(raw: u32) -> (r: Self)
        ensures
            r.spec_raw() == raw,
            r == Self::spec_from_raw(raw),
    {
        LrdimmDdr4OdtPatDimmRankBitmaps(raw)
    }

    /// The packed bits.
    pub fn into_raw(self) -> (r: u32)
        ensures
            r == self.spec_raw(),
    {
        self.0
    }

    pub fn dimm0(&self) -> (r: LrdimmDdr4DimmRanks)
        ensures
            r.spec_raw() == self.spec_dimm0() as u8,
    {
        proof {
            lemma_shift_table_u32();
        }
        LrdimmDdr4DimmRanks::from_raw(field_u32(self.0, 0, 4) as u8)
    }

    pub fn set_dimm0(&mut self, value: LrdimmDdr4DimmRanks)
        requires
            value.spec_raw() < 0x10,
        ensures
            final(self).spec_raw() == spec_with_field_u32(old(self).spec_raw(), 0, 4, value.spec_raw() as u32),
            final(self).spec_dimm0() == value.spec_raw() as u32,
            final(self).spec_dimm1() == old(self).spec_dimm1(),
            final(self).spec_dimm2() == old(self).spec_dimm2(),
    {
        let x: u32 = value.into_raw() as u32;
        let ghost old_raw = self.0;
        proof {
            lemma_shift_table_u32();
            lemma_with_field_same_u32(old_raw, 0, 4, x);
            lemma_with_field_other_u32(old_raw, 0, 4, x, 4, 4);
            lemma_with_field_other_u32(old_raw, 0, 4, x, 8, 4);
        }
        self.0 = with_field_u32(self.0, 0, 4, x);
    }

    pub fn with_dimm0(self, value: LrdimmDdr4DimmRanks) -> (r: Self)
        requires
            value.spec_raw() < 0x10,
        ensures
            r.spec_raw() == spec_with_field_u32(self.spec_raw(), 0, 4, value.spec_raw() as u32),
            r.spec_dimm0() == value.spec_raw() as u32,
            r.spec_dimm1() == self.spec_dimm1(),
            r.spec_dimm2() == self.spec_dimm2(),
    {
        let mut r = self;
        r.set_dimm0(value);
        r
    }

    pub fn dimm1(&self) -> (r: LrdimmDdr4DimmRanks)
        ensures
            r.spec_raw() == self.spec_dimm1() as u8,
    {
        proof {
            lemma_shift_table_u32();
        }
        LrdimmDdr4DimmRanks::from_raw(field_u32(self.0, 4, 4) as u8)
    }

    pub fn set_dimm1(&mut self, value: LrdimmDdr4DimmRanks)
        requires
            value.spec_raw() < 0x10,
        ensures
            final(self).spec_raw() == spec_with_field_u32(old(self).spec_raw(), 4, 4, value.spec_raw() as u32),
            final(self).spec_dimm1() == value.spec_raw() as u32,
            final(self).spec_dimm0() == old(self).spec_dimm0(),
            final(self).spec_dimm2() == old(self).spec_dimm2(),
    {
        let x: u32 = value.into_raw() as u32;
        let ghost old_raw = self.0;
        proof {
            lemma_shift_table_u32();
            lemma_with_field_same_u32(old_raw, 4, 4, x);
            lemma_with_field_other_u32(old_raw, 4, 4, x, 0, 4);
            lemma_with_field_other_u32(old_raw, 4, 4, x, 8, 4);
        }
        self.0 = with_field_u32(self.0, 4, 4, x);
    }

    pub fn with_dimm1(self, value: LrdimmDdr4DimmRanks) -> (r: Self)
        requires
            value.spec_raw() < 0x10,
        ensures
            r.spec_raw() == spec_with_field_u32(self.spec_raw(), 4, 4, value.spec_raw() as u32),
            r.spec_dimm1() == value.spec_raw() as u32,
            r.spec_dimm0() == self.spec_dimm0(),
            r.spec_dimm2() == self.spec_dimm2(),
    {
        let mut r = self;
        r.set_dimm1(value);
        r
    }

    pub fn dimm2(&self) -> (r: LrdimmDdr4DimmRanks)
        ensures
            r.spec_raw() == self.spec_dimm2() as u8,
    {
        proof {
            lemma_shift_table_u32();
        }
        LrdimmDdr4DimmRanks::from_raw(field_u32(self.0, 8, 4) as u8)
    }

    pub fn set_dimm2(&mut self, value: LrdimmDdr4DimmRanks)
        requires
            value.spec_raw() < 0x10,
        ensures
            final(self).spec_raw() == spec_with_field_u32(old(self).spec_raw(), 8, 4, value.spec_raw() as u32),
            final(self).spec_dimm2() == value.spec_raw() as u32,
            final(self).spec_dimm0() == old(self).spec_dimm0(),
            final(self).spec_dimm1() == old(self).spec_dimm1(),
    {
        let x: u32 = value.into_raw() as u32;
        let ghost old_raw = self.0;
        proof {
            lemma_shift_table_u32();
            lemma_with_field_same_u32(old_raw, 8, 4, x);
            lemma_with_field_other_u32(old_raw, 8, 4, x, 0, 4);
            lemma_with_field_other_u32(old_raw, 8, 4, x, 4, 4);
        }
        self.0 = with_field_u32(self.0, 8, 4, x);
    }

    pub fn with_dimm2(self, value: LrdimmDdr4DimmRanks) -> (r: Self)
        requires
            value.spec_raw() < 0x10,
        ensures
            r.spec_raw() == spec_with_field_u32(self.spec_raw(), 8, 4, value.spec_raw() as u32),
            r.spec_dimm2() == value.spec_raw() as u32,
            r.spec_dimm0() == self.spec_dimm0(),
            r.spec_dimm1() == self.spec_dimm1(),
    {
        let mut r = self;
        r.set_dimm2(value);
        r
    }

    /// The bits that have a meaning; the others are reserved.
    pub const VALID_BITS: u64 = 0x333;

    /// Whether VALUE leaves all reserved bits clear.
    pub fn all_reserved_bits_are_unused(value: u64) -> (r: bool)
        ensures
            r == (value & !0x333u64 == 0),
    {
        value & !Self::VALID_BITS == 0
    }

    pub fn from_u64(value: u64) -> (r: Option<Self>)
        ensures
            r is Some <==> (value & !0x333u64 == 0 && value <= 0xffffffff),
            r matches Some(x) ==> x.spec_raw() == value,
    {
        if Self::all_reserved_bits_are_unused(value) {
            if value <= 0xffffffff {
                Some(LrdimmDdr4OdtPatDimmRankBitmaps(value as u32))
            } else {
                None
            }
        } else {
            None
        }
    }

    pub fn from_i64(value: i64) -> (r: Option<Self>)
        ensures
            r is Some <==> (value >= 0 && (value as u64) & !0x333u64 == 0 && value <= 0xffffffff),
            r matches Some(x) ==> x.spec_raw() == value,
    {
        if value >= 0 {
            Self::from_u64(value as u64)
        } else {
            None
        }
    }

    pub fn to_u64(&self) -> (r: Option<u64>)
        ensures
            r == Some(self.spec_raw() as u64),
    {
        Some(self.0 as u64)
    }

    pub fn to_i64(&self) -> (r: Option<i64>)
        ensures
            r == Some(self.spec_raw() as i64),
    {
        Some(self.0 as i64)
    }

}

/// The DRAM ODT pin control for a DIMM population.
#[allow(non_camel_case_types)]
#[derive(Debug, Clone, Copy, PartialEq, Eq, Structural)]
pub struct Ddr4OdtPatElement {
    pub(crate) dimm_rank_bitmaps: u32,
    pub(crate) cs0_odt_patterns: u32,
    pub(crate) cs1_odt_patterns: u32,
    pub(crate) cs2_odt_patterns: u32,
    pub(crate) cs3_odt_patterns: u32,
}

impl Ddr4OdtPatElement {
    pub closed spec fn spec_dimm_rank_bitmaps(self) -> u32 {
        self.dimm_rank_bitmaps
    }

    pub closed spec fn spec_cs0_odt_patterns(self) -> u32 {
        self.cs0_odt_patterns
    }

    pub closed spec fn spec_cs1_odt_patterns(self) -> u32 {
        self.cs1_odt_patterns
    }

    pub closed spec fn spec_cs2_odt_patterns(self) -> u32 {
        self.cs2_odt_patterns
    }

    pub closed spec fn spec_cs3_odt_patterns(self) -> u32 {
        self.cs3_odt_patterns
    }

    pub fn dimm_rank_bitmaps(&self) -> (r: Result<Ddr4OdtPatDimmRankBitmaps>)
        ensures
            r is Ok <==> (self.spec_dimm_rank_bitmaps() as u64) & !0x777u64 == 0,
            r matches Ok(b) ==> b.spec_raw() == self.spec_dimm_rank_bitmaps(),
    {
        proof {
            if (self.dimm_rank_bitmaps as u64) & !0x777u64 == 0 {
                lemma_masked_bound_u64(self.dimm_rank_bitmaps as u64, 0x777u64);
            }
        }
        match Ddr4OdtPatDimmRankBitmaps::from_u64(self.dimm_rank_bitmaps as u64) {
            Some(b) => Ok(b),
            None => Err(Error::EntryTypeMismatch),
        }
    }

    pub fn set_dimm_rank_bitmaps(&mut self, value: Ddr4OdtPatDimmRankBitmaps)
        ensures
            final(self).spec_dimm_rank_bitmaps() == value.spec_raw() as u32,
            final(self).spec_cs0_odt_patterns() == old(self).spec_cs0_odt_patterns(),
            final(self).spec_cs1_odt_patterns() == old(self).spec_cs1_odt_patterns(),
            final(self).spec_cs2_odt_patterns() == old(self).spec_cs2_odt_patterns(),
            final(self).spec_cs3_odt_patterns() == old(self).spec_cs3_odt_patterns(),
    {
        self.dimm_rank_bitmaps = value.into_raw() as u32;
    }

    pub fn cs0_odt_patterns(&self) -> (r: Result<OdtPatPatterns>)
        ensures
            r is Ok <==> (self.spec_cs0_odt_patterns() as u64) & !0xf0fu64 == 0,
            r matches Ok(b) ==> b.spec_raw() == self.spec_cs0_odt_patterns(),
    {
        proof {
            if (self.cs0_odt_patterns as u64) & !0xf0fu64 == 0 {
                lemma_masked_bound_u64(self.cs0_odt_patterns as u64, 0xf0fu64);
            }
        }
        match OdtPatPatterns::from_u64(self.cs0_odt_patterns as u64) {
            Some(b) => Ok(b),
            None => Err(Error::EntryTypeMismatch),
        }
    }

    pub fn set_cs0_odt_patterns(&mut self, value: OdtPatPatterns)
        ensures
            final(self).spec_cs0_odt_patterns() == value.spec_raw() as u32,
            final(self).spec_dimm_rank_bitmaps() == old(self).spec_dimm_rank_bitmaps(),
            final(self).spec_cs1_odt_patterns() == old(self).spec_cs1_odt_patterns(),
            final(self).spec_cs2_odt_patterns() == old(self).spec_cs2_odt_patterns(),
            final(self).spec_cs3_odt_patterns() == old(self).spec_cs3_odt_patterns(),
    {
        self.cs0_odt_patterns = value.into_raw() as u32;
    }

    pub fn cs1_odt_patterns(&self) -> (r: Result<OdtPatPatterns>)
        ensures
            r is Ok <==> (self.spec_cs1_odt_patterns() as u64) & !0xf0fu64 == 0,
            r matches Ok(b) ==> b.spec_raw() == self.spec_cs1_odt_patterns(),
    {
        proof {
            if (self.cs1_odt_patterns as u64) & !0xf0fu64 == 0 {
                lemma_masked_bound_u64(self.cs1_odt_patterns as u64, 0xf0fu64);
            }
        }
        match OdtPatPatterns::from_u64(self.cs1_odt_patterns as u64) {
            Some(b) => Ok(b),
            None => Err(Error::EntryTypeMismatch),
        }
    }

    pub fn set_cs1_odt_patterns(&mut self, value: OdtPatPatterns)
        ensures
            final(self).spec_cs1_odt_patterns() == value.spec_raw() as u32,
            final(self).spec_dimm_rank_bitmaps() == old(self).spec_dimm_rank_bitmaps(),
            final(self).spec_cs0_odt_patterns() == old(self).spec_cs0_odt_patterns(),
            final(self).spec_cs2_odt_patterns() == old(self).spec_cs2_odt_patterns(),
            final(self).spec_cs3_odt_patterns() == old(self).spec_cs3_odt_patterns(),
    {
        self.cs1_odt_patterns = value.into_raw() as u32;
    }

    pub fn cs2_odt_patterns(&self) -> (r: Result<OdtPatPatterns>)
        ensures
            r is Ok <==> (self.spec_cs2_odt_patterns() as u64) & !0xf0fu64 == 0,
            r matches Ok(b) ==> b.spec_raw() == self.spec_cs2_odt_patterns(),
    {
        proof {
            if (self.cs2_odt_patterns as u64) & !0xf0fu64 == 0 {
                lemma_masked_bound_u64(self.cs2_odt_patterns as u64, 0xf0fu64);
            }
        }
        match OdtPatPatterns::from_u64(self.cs2_odt_patterns as u64) {
            Some(b) => Ok(b),
            None => Err(Error::EntryTypeMismatch),
        }
    }

    pub fn set_cs2_odt_patterns(&mut self, value: OdtPatPatterns)
        ensures
            final(self).spec_cs2_odt_patterns() == value.spec_raw() as u32,
            final(self).spec_dimm_rank_bitmaps() == old(self).spec_dimm_rank_bitmaps(),
            final(self).spec_cs0_odt_patterns() == old(self).spec_cs0_odt_patterns(),
            final(self).spec_cs1_odt_patterns() == old(self).spec_cs1_odt_patterns(),
            final(self).spec_cs3_odt_patterns() == old(self).spec_cs3_odt_patterns(),
    {
        self.cs2_odt_patterns = value.into_raw() as u32;
    }

    pub fn cs3_odt_patterns(&self) -> (r: Result<OdtPatPatterns>)
        ensures
            r is Ok <==> (self.spec_cs3_odt_patterns() as u64) & !0xf0fu64 == 0,
            r matches Ok(b) ==> b.spec_raw() == self.spec_cs3_odt_patterns(),
    {
        proof {
            if (self.cs3_odt_patterns as u64) & !0xf0fu64 == 0 {
                lemma_masked_bound_u64(self.cs3_odt_patterns as u64, 0xf0fu64);
            }
        }
        match OdtPatPatterns::from_u64(self.cs3_odt_patterns as u64) {
            Some(b) => Ok(b),
            None => Err(Error::EntryTypeMismatch),
        }
    }

    pub fn set_cs3_odt_patterns(&mut self, value: OdtPatPatterns)
        ensures
            final(self).spec_cs3_odt_patterns() == value.spec_raw() as u32,
            final(self).spec_dimm_rank_bitmaps() == old(self).spec_dimm_rank_bitmaps(),
            final(self).spec_cs0_odt_patterns() == old(self).spec_cs0_odt_patterns(),
            final(self).spec_cs1_odt_patterns() == old(self).spec_cs1_odt_patterns(),
            final(self).spec_cs2_odt_patterns() == old(self).spec_cs2_odt_patterns(),
    {
        self.cs3_odt_patterns = value.into_raw() as u32;
    }

}

impl Ddr4OdtPatElement {
    /// The bytes that store this value on disk.
    pub closed spec fn spec_bytes(self) -> Seq<u8> {
        spec_u32_to_le_bytes(self.dimm_rank_bitmaps)
            + spec_u32_to_le_bytes(self.cs0_odt_patterns)
            + spec_u32_to_le_bytes(self.cs1_odt_patterns)
            + spec_u32_to_le_bytes(self.cs2_odt_patterns)
            + spec_u32_to_le_bytes(self.cs3_odt_patterns)
    }
}

impl ByteLayout for Ddr4OdtPatElement {
    open spec fn spec_size() -> nat {
        20
    }

    open spec fn spec_to_bytes(self) -> Seq<u8> {
        self.spec_bytes()
    }

    fn size() -> (r: usize) {
        20
    }

    #[verifier::spinoff_prover]
    fn from_bytes(bytes: &[u8]) -> (r: Self) {
        let dimm_rank_bitmaps: u32 = u32_from_le_bytes(slice_subrange(bytes, 0, 4));
        let cs0_odt_patterns: u32 = u32_from_le_bytes(slice_subrange(bytes, 4, 8));
        let cs1_odt_patterns: u32 = u32_from_le_bytes(slice_subrange(bytes, 8, 12));
        let cs2_odt_patterns: u32 = u32_from_le_bytes(slice_subrange(bytes, 12, 16));
        let cs3_odt_patterns: u32 = u32_from_le_bytes(slice_subrange(bytes, 16, 20));
        let r = Ddr4OdtPatElement { dimm_rank_bitmaps, cs0_odt_patterns, cs1_odt_patterns, cs2_odt_patterns, cs3_odt_patterns };
        proof {
            lemma_auto_spec_u16_to_from_le_bytes();
            lemma_auto_spec_u32_to_from_le_bytes();
            lemma_auto_spec_u64_to_from_le_bytes();
            lemma_ddr4_odt_pat_element_bytes_pieces(r);
            assert(bytes@.subrange(0, 4) == spec_u32_to_le_bytes(dimm_rank_bitmaps));
            assert(bytes@.subrange(4, 8) == spec_u32_to_le_bytes(cs0_odt_patterns));
            assert(bytes@.subrange(8, 12) == spec_u32_to_le_bytes(cs1_odt_patterns));
            assert(bytes@.subrange(12, 16) == spec_u32_to_le_bytes(cs2_odt_patterns));
            assert(bytes@.subrange(16, 20) == spec_u32_to_le_bytes(cs3_odt_patterns));
            assert(bytes@.subrange(0, 8) =~= bytes@.subrange(0, 4) + bytes@.subrange(4, 8));
            assert(bytes@.subrange(0, 12) =~= bytes@.subrange(0, 8) + bytes@.subrange(8, 12));
            assert(bytes@.subrange(0, 16) =~= bytes@.subrange(0, 12) + bytes@.subrange(12, 16));
            assert(bytes@.subrange(0, 20) =~= bytes@.subrange(0, 16) + bytes@.subrange(16, 20));
            assert(bytes@.subrange(0, 20) =~= bytes@);
            assert(bytes@ == r.spec_bytes());
        }
        r
    }

    #[verifier::spinoff_prover]
    fn to_bytes(&self) -> (r: Vec<u8>) {
        let mut out: Vec<u8> = Vec::new();
        append_bytes(&mut out, &le_bytes_u32(self.dimm_rank_bitmaps));
        append_bytes(&mut out, &le_bytes_u32(self.cs0_odt_patterns));
        append_bytes(&mut out, &le_bytes_u32(self.cs1_odt_patterns));
        append_bytes(&mut out, &le_bytes_u32(self.cs2_odt_patterns));
        append_bytes(&mut out, &le_bytes_u32(self.cs3_odt_patterns));
        proof {
            lemma_ddr4_odt_pat_element_bytes_pieces(*self);
        }
        out
    }
}

/// How the bytes of a Ddr4OdtPatElement split up into its fields.
pub proof fn lemma_ddr4_odt_pat_element_bytes_pieces(x: Ddr4OdtPatElement)
    ensures
        x.spec_bytes().len() == 20,
        x.spec_bytes().subrange(0, 4) == spec_u32_to_le_bytes(x.spec_dimm_rank_bitmaps()),
        x.spec_bytes().subrange(4, 8) == spec_u32_to_le_bytes(x.spec_cs0_odt_patterns()),
        x.spec_bytes().subrange(8, 12) == spec_u32_to_le_bytes(x.spec_cs1_odt_patterns()),
        x.spec_bytes().subrange(12, 16) == spec_u32_to_le_bytes(x.spec_cs2_odt_patterns()),
        x.spec_bytes().subrange(16, 20) == spec_u32_to_le_bytes(x.spec_cs3_odt_patterns()),
{
    lemma_auto_spec_u16_to_from_le_bytes();
    lemma_auto_spec_u32_to_from_le_bytes();
    lemma_auto_spec_u64_to_from_le_bytes();
    assert(x.spec_bytes().subrange(0, 4) == spec_u32_to_le_bytes(x.dimm_rank_bitmaps));
    assert(x.spec_bytes().subrange(4, 8) == spec_u32_to_le_bytes(x.cs0_odt_patterns));
    assert(x.spec_bytes().subrange(8, 12) == spec_u32_to_le_bytes(x.cs1_odt_patterns));
    assert(x.spec_bytes().subrange(12, 16) == spec_u32_to_le_bytes(x.cs2_odt_patterns));
    assert(x.spec_bytes().subrange(16, 20) == spec_u32_to_le_bytes(x.cs3_odt_patterns));
}

/// Two values of Ddr4OdtPatElement with the same bytes are the same value.
#[verifier::spinoff_prover]
pub proof fn lemma_ddr4_odt_pat_element_bytes_injective(x: Ddr4OdtPatElement, y: Ddr4OdtPatElement)
    requires
        x.spec_bytes() == y.spec_bytes(),
    ensures
        x == y,
{
    lemma_ddr4_odt_pat_element_bytes_pieces(x);
    lemma_ddr4_odt_pat_element_bytes_pieces(y);
    lemma_auto_spec_u16_to_from_le_bytes();
    lemma_auto_spec_u32_to_from_le_bytes();
    lemma_auto_spec_u64_to_from_le_bytes();
    assert(spec_u32_from_le_bytes(spec_u32_to_le_bytes(x.dimm_rank_bitmaps)) == spec_u32_from_le_bytes(spec_u32_to_le_bytes(y.dimm_rank_bitmaps)));
    assert(spec_u32_from_le_bytes(spec_u32_to_le_bytes(x.cs0_odt_patterns)) == spec_u32_from_le_bytes(spec_u32_to_le_bytes(y.cs0_odt_patterns)));
    assert(spec_u32_from_le_bytes(spec_u32_to_le_bytes(x.cs1_odt_patterns)) == spec_u32_from_le_bytes(spec_u32_to_le_bytes(y.cs1_odt_patterns)));
    assert(spec_u32_from_le_bytes(spec_u32_to_le_bytes(x.cs2_odt_patterns)) == spec_u32_from_le_bytes(spec_u32_to_le_bytes(y.cs2_odt_patterns)));
    assert(spec_u32_from_le_bytes(spec_u32_to_le_bytes(x.cs3_odt_patterns)) == spec_u32_from_le_bytes(spec_u32_to_le_bytes(y.cs3_odt_patterns)));
}

impl Default for Ddr4OdtPatElement {
    fn default() -> (r: Self)
        ensures
            r.spec_dimm_rank_bitmaps() == 0x21,
            r.spec_cs0_odt_patterns() == 0,
            r.spec_cs1_odt_patterns() == 0,
            r.spec_cs2_odt_patterns() == 0,
            r.spec_cs3_odt_patterns() == 0,
    {
        Ddr4OdtPatElement { dimm_rank_bitmaps: 0x21, cs0_odt_patterns: 0, cs1_odt_patterns: 0, cs2_odt_patterns: 0, cs3_odt_patterns: 0 }
    }
}

impl Ddr4OdtPatElement {
    pub fn new(
        dimm_rank_bitmaps: Ddr4OdtPatDimmRankBitmaps,
        cs0_odt_patterns: OdtPatPatterns,
        cs1_odt_patterns: OdtPatPatterns,
        cs2_odt_patterns: OdtPatPatterns,
        cs3_odt_patterns: OdtPatPatterns,
    ) -> (r: Self)
        ensures
            r.spec_dimm_rank_bitmaps() == dimm_rank_bitmaps.spec_raw(),
            r.spec_cs0_odt_patterns() == cs0_odt_patterns.spec_raw(),
            r.spec_cs1_odt_patterns() == cs1_odt_patterns.spec_raw(),
            r.spec_cs2_odt_patterns() == cs2_odt_patterns.spec_raw(),
            r.spec_cs3_odt_patterns() == cs3_odt_patterns.spec_raw(),
    {
        Self {
            dimm_rank_bitmaps: dimm_rank_bitmaps.into_raw(),
            cs0_odt_patterns: cs0_odt_patterns.into_raw(),
            cs1_odt_patterns: cs1_odt_patterns.into_raw(),
            cs2_odt_patterns: cs2_odt_patterns.into_raw(),
            cs3_odt_patterns: cs3_odt_patterns.into_raw(),
        }
    }
}

impl EntryCompatible for Ddr4OdtPatElement {
    fn is_entry_compatible(entry_id: EntryId, _prefix: &[u8]) -> (r: bool)
        ensures
            r == (entry_id == EntryId::Memory(MemoryEntryId::PsRdimmDdr4OdtPat) || entry_id == EntryId::Memory(MemoryEntryId::PsUdimmDdr4OdtPat)),
    {
        matches!(entry_id, EntryId::Memory(MemoryEntryId::PsRdimmDdr4OdtPat) | EntryId::Memory(MemoryEntryId::PsUdimmDdr4OdtPat))
    }
}

/// The DRAM ODT pin control for a DIMM population.
#[allow(non_camel_case_types)]
#[derive(Debug, Clone, Copy, PartialEq, Eq, Structural)]
pub struct LrdimmDdr4OdtPatElement {
    pub(crate) dimm_rank_bitmaps: u32,
    pub(crate) cs0_odt_patterns: u32,
    pub(crate) cs1_odt_patterns: u32,
    pub(crate) cs2_odt_patterns: u32,
    pub(crate) cs3_odt_patterns: u32,
}

impl LrdimmDdr4OdtPatElement {
    pub closed spec fn spec_dimm_rank_bitmaps(self) -> u32 {
        self.dimm_rank_bitmaps
    }

    pub closed spec fn spec_cs0_odt_patterns(self) -> u32 {
        self.cs0_odt_patterns
    }

    pub closed spec fn spec_cs1_odt_patterns(self) -> u32 {
        self.cs1_odt_patterns
    }

    pub closed spec fn spec_cs2_odt_patterns(self) -> u32 {
        self.cs2_odt_patterns
    }

    pub closed spec fn spec_cs3_odt_patterns(self) -> u32 {
        self.cs3_odt_patterns
    }

    pub fn dimm_rank_bitmaps(&self) -> (r: Result<LrdimmDdr4OdtPatDimmRankBitmaps>)
        ensures
            r is Ok <==> (self.spec_dimm_rank_bitmaps() as u64) & !0x333u64 == 0,
            r matches Ok(b) ==> b.spec_raw() == self.spec_dimm_rank_bitmaps(),
    {
        proof {
            if (self.dimm_rank_bitmaps as u64) & !0x333u64 == 0 {
                lemma_masked_bound_u64(self.dimm_rank_bitmaps as u64, 0x333u64);
            }
        }
        match LrdimmDdr4OdtPatDimmRankBitmaps::from_u64(self.dimm_rank_bitmaps as u64) {
            Some(b) => Ok(b),
            None => Err(Error::EntryTypeMismatch),
        }
    }

    pub fn set_dimm_rank_bitmaps(&mut self, value: LrdimmDdr4OdtPatDimmRankBitmaps)
        ensures
            final(self).spec_dimm_rank_bitmaps() == value.spec_raw() as u32,
            final(self).spec_cs0_odt_patterns() == old(self).spec_cs0_odt_patterns(),
            final(self).spec_cs1_odt_patterns() == old(self).spec_cs1_odt_patterns(),
            final(self).spec_cs2_odt_patterns() == old(self).spec_cs2_odt_patterns(),
            final(self).spec_cs3_odt_patterns() == old(self).spec_cs3_odt_patterns(),
    {
        self.dimm_rank_bitmaps = value.into_raw() as u32;
    }

    pub fn cs0_odt_patterns(&self) -> (r: Result<OdtPatPatterns>)
        ensures
            r is Ok <==> (self.spec_cs0_odt_patterns() as u64) & !0xf0fu64 == 0,
            r matches Ok(b) ==> b.spec_raw() == self.spec_cs0_odt_patterns(),
    {
        proof {
            if (self.cs0_odt_patterns as u64) & !0xf0fu64 == 0 {
                lemma_masked_bound_u64(self.cs0_odt_patterns as u64, 0xf0fu64);
            }
        }
        match OdtPatPatterns::from_u64(self.cs0_odt_patterns as u64) {
            Some(b) => Ok(b),
            None => Err(Error::EntryTypeMismatch),
        }
    }

    pub fn set_cs0_odt_patterns(&mut self, value: OdtPatPatterns)
        ensures
            final(self).spec_cs0_odt_patterns() == value.spec_raw() as u32,
            final(self).spec_dimm_rank_bitmaps() == old(self).spec_dimm_rank_bitmaps(),
            final(self).spec_cs1_odt_patterns() == old(self).spec_cs1_odt_patterns(),
            final(self).spec_cs2_odt_patterns() == old(self).spec_cs2_odt_patterns(),
            final(self).spec_cs3_odt_patterns() == old(self).spec_cs3_odt_patterns(),
    {
        self.cs0_odt_patterns = value.into_raw() as u32;
    }

    pub fn cs1_odt_patterns(&self) -> (r: Result<OdtPatPatterns>)
        ensures
            r is Ok <==> (self.spec_cs1_odt_patterns() as u64) & !0xf0fu64 == 0,
            r matches Ok(b) ==> b.spec_raw() == self.spec_cs1_odt_patterns(),
    {
        proof {
            if (self.cs1_odt_patterns as u64) & !0xf0fu64 == 0 {
                lemma_masked_bound_u64(self.cs1_odt_patterns as u64, 0xf0fu64);
            }
        }
        match OdtPatPatterns::from_u64(self.cs1_odt_patterns as u64) {
            Some(b) => Ok(b),
            None => Err(Error::EntryTypeMismatch),
        }
    }

    pub fn set_cs1_odt_patterns(&mut self, value: OdtPatPatterns)
        ensures
            final(self).spec_cs1_odt_patterns() == value.spec_raw() as u32,
            final(self).spec_dimm_rank_bitmaps() == old(self).spec_dimm_rank_bitmaps(),
            final(self).spec_cs0_odt_patterns() == old(self).spec_cs0_odt_patterns(),
            final(self).spec_cs2_odt_patterns() == old(self).spec_cs2_odt_patterns(),
            final(self).spec_cs3_odt_patterns() == old(self).spec_cs3_odt_patterns(),
    {
        self.cs1_odt_patterns = value.into_raw() as u32;
    }

    pub fn cs2_odt_patterns(&self) -> (r: Result<OdtPatPatterns>)
        ensures
            r is Ok <==> (self.spec_cs2_odt_patterns() as u64) & !0xf0fu64 == 0,
            r matches Ok(b) ==> b.spec_raw() == self.spec_cs2_odt_patterns(),
    {
        proof {
            if (self.cs2_odt_patterns as u64) & !0xf0fu64 == 0 {
                lemma_masked_bound_u64(self.cs2_odt_patterns as u64, 0xf0fu64);
            }
        }
        match OdtPatPatterns::from_u64(self.cs2_odt_patterns as u64) {
            Some(b) => Ok(b),
            None => Err(Error::EntryTypeMismatch),
        }
    }

    pub fn set_cs2_odt_patterns(&mut self, value: OdtPatPatterns)
        ensures
            final(self).spec_cs2_odt_patterns() == value.spec_raw() as u32,
            final(self).spec_dimm_rank_bitmaps() == old(self).spec_dimm_rank_bitmaps(),
            final(self).spec_cs0_odt_patterns() == old(self).spec_cs0_odt_patterns(),
            final(self).spec_cs1_odt_patterns() == old(self).spec_cs1_odt_patterns(),
            final(self).spec_cs3_odt_patterns() == old(self).spec_cs3_odt_patterns(),
    {
        self.cs2_odt_patterns = value.into_raw() as u32;
    }

    pub fn cs3_odt_patterns(&self) -> (r: Result<OdtPatPatterns>)
        ensures
            r is Ok <==> (self.spec_cs3_odt_patterns() as u64) & !0xf0fu64 == 0,
            r matches Ok(b) ==> b.spec_raw() == self.spec_cs3_odt_patterns(),
    {
        proof {
            if (self.cs3_odt_patterns as u64) & !0xf0fu64 == 0 {
                lemma_masked_bound_u64(self.cs3_odt_patterns as u64, 0xf0fu64);
            }
        }
        match OdtPatPatterns::from_u64(self.cs3_odt_patterns as u64) {
            Some(b) => Ok(b),
            None => Err(Error::EntryTypeMismatch),
        }
    }

    pub fn set_cs3_odt_patterns(&mut self, value: OdtPatPatterns)
        ensures
            final(self).spec_cs3_odt_patterns() == value.spec_raw() as u32,
            final(self).spec_dimm_rank_bitmaps() == old(self).spec_dimm_rank_bitmaps(),
            final(self).spec_cs0_odt_patterns() == old(self).spec_cs0_odt_patterns(),
            final(self).spec_cs1_odt_patterns() == old(self).spec_cs1_odt_patterns(),
            final(self).spec_cs2_odt_patterns() == old(self).spec_cs2_odt_patterns(),
    {
        self.cs3_odt_patterns = value.into_raw() as u32;
    }

}

impl LrdimmDdr4OdtPatElement {
    /// The bytes that store this value on disk.
    pub closed spec fn spec_bytes(self) -> Seq<u8> {
        spec_u32_to_le_bytes(self.dimm_rank_bitmaps)
            + spec_u32_to_le_bytes(self.cs0_odt_patterns)
            + spec_u32_to_le_bytes(self.cs1_odt_patterns)
            + spec_u32_to_le_bytes(self.cs2_odt_patterns)
            + spec_u32_to_le_bytes(self.cs3_odt_patterns)
    }
}

impl ByteLayout for LrdimmDdr4OdtPatElement {
    open spec fn spec_size() -> nat {
        20
    }

    open spec fn spec_to_bytes(self) -> Seq<u8> {
        self.spec_bytes()
    }

    fn size() -> (r: usize) {
        20
    }

    #[verifier::spinoff_prover]
    fn from_bytes(bytes: &[u8]) -> (r: Self) {
        let dimm_rank_bitmaps: u32 = u32_from_le_bytes(slice_subrange(bytes, 0, 4));
        let cs0_odt_patterns: u32 = u32_from_le_bytes(slice_subrange(bytes, 4, 8));
        let cs1_odt_patterns: u32 = u32_from_le_bytes(slice_subrange(bytes, 8, 12));
        let cs2_odt_patterns: u32 = u32_from_le_bytes(slice_subrange(bytes, 12, 16));
        let cs3_odt_patterns: u32 = u32_from_le_bytes(slice_subrange(bytes, 16, 20));
        let r = LrdimmDdr4OdtPatElement { dimm_rank_bitmaps, cs0_odt_patterns, cs1_odt_patterns, cs2_odt_patterns, cs3_odt_patterns };
        proof {
            lemma_auto_spec_u16_to_from_le_bytes();
            lemma_auto_spec_u32_to_from_le_bytes();
            lemma_auto_spec_u64_to_from_le_bytes();
            lemma_lrdimm_ddr4_odt_pat_element_bytes_pieces(r);
            assert(bytes@.subrange(0, 4) == spec_u32_to_le_bytes(dimm_rank_bitmaps));
            assert(bytes@.subrange(4, 8) == spec_u32_to_le_bytes(cs0_odt_patterns));
            assert(bytes@.subrange(8, 12) == spec_u32_to_le_bytes(cs1_odt_patterns));
            assert(bytes@.subrange(12, 16) == spec_u32_to_le_bytes(cs2_odt_patterns));
            assert(bytes@.subrange(16, 20) == spec_u32_to_le_bytes(cs3_odt_patterns));
            assert(bytes@.subrange(0, 8) =~= bytes@.subrange(0, 4) + bytes@.subrange(4, 8));
            assert(bytes@.subrange(0, 12) =~= bytes@.subrange(0, 8) + bytes@.subrange(8, 12));
            assert(bytes@.subrange(0, 16) =~= bytes@.subrange(0, 12) + bytes@.subrange(12, 16));
            assert(bytes@.subrange(0, 20) =~= bytes@.subrange(0, 16) + bytes@.subrange(16, 20));
            assert(bytes@.subrange(0, 20) =~= bytes@);
            assert(bytes@ == r.spec_bytes());
        }
        r
    }

    #[verifier::spinoff_prover]
    fn to_bytes(&self) -> (r: Vec<u8>) {
        let mut out: Vec<u8> = Vec::new();
        append_bytes(&mut out, &le_bytes_u32(self.dimm_rank_bitmaps));
        append_bytes(&mut out, &le_bytes_u32(self.cs0_odt_patterns));
        append_bytes(&mut out, &le_bytes_u32(self.cs1_odt_patterns));
        append_bytes(&mut out, &le_bytes_u32(self.cs2_odt_patterns));
        append_bytes(&mut out, &le_bytes_u32(self.cs3_odt_patterns));
        proof {
            lemma_lrdimm_ddr4_odt_pat_element_bytes_pieces(*self);
        }
        out
    }
}

/// How the bytes of a LrdimmDdr4OdtPatElement split up into its fields.
pub proof fn lemma_lrdimm_ddr4_odt_pat_element_bytes_pieces(x: LrdimmDdr4OdtPatElement)
    ensures
        x.spec_bytes().len() == 20,
        x.spec_bytes().subrange(0, 4) == spec_u32_to_le_bytes(x.spec_dimm_rank_bitmaps()),
        x.spec_bytes().subrange(4, 8) == spec_u32_to_le_bytes(x.spec_cs0_odt_patterns()),
        x.spec_bytes().subrange(8, 12) == spec_u32_to_le_bytes(x.spec_cs1_odt_patterns()),
        x.spec_bytes().subrange(12, 16) == spec_u32_to_le_bytes(x.spec_cs2_odt_patterns()),
        x.spec_bytes().subrange(16, 20) == spec_u32_to_le_bytes(x.spec_cs3_odt_patterns()),
{
    lemma_auto_spec_u16_to_from_le_bytes();
    lemma_auto_spec_u32_to_from_le_bytes();
    lemma_auto_spec_u64_to_from_le_bytes();
    assert(x.spec_bytes().subrange(0, 4) == spec_u32_to_le_bytes(x.dimm_rank_bitmaps));
    assert(x.spec_bytes().subrange(4, 8) == spec_u32_to_le_bytes(x.cs0_odt_patterns));
    assert(x.spec_bytes().subrange(8, 12) == spec_u32_to_le_bytes(x.cs1_odt_patterns));
    assert(x.spec_bytes().subrange(12, 16) == spec_u32_to_le_bytes(x.cs2_odt_patterns));
    assert(x.spec_bytes().subrange(16, 20) == spec_u32_to_le_bytes(x.cs3_odt_patterns));
}

/// Two values of LrdimmDdr4OdtPatElement with the same bytes are the same value.
#[verifier::spinoff_prover]
pub proof fn lemma_lrdimm_ddr4_odt_pat_element_bytes_injective(x: LrdimmDdr4OdtPatElement, y: LrdimmDdr4OdtPatElement)
    requires
        x.spec_bytes() == y.spec_bytes(),
    ensures
        x == y,
{
    lemma_lrdimm_ddr4_odt_pat_element_bytes_pieces(x);
    lemma_lrdimm_ddr4_odt_pat_element_bytes_pieces(y);
    lemma_auto_spec_u16_to_from_le_bytes();
    lemma_auto_spec_u32_to_from_le_bytes();
    lemma_auto_spec_u64_to_from_le_bytes();
    assert(spec_u32_from_le_bytes(spec_u32_to_le_bytes(x.dimm_rank_bitmaps)) == spec_u32_from_le_bytes(spec_u32_to_le_bytes(y.dimm_rank_bitmaps)));
    assert(spec_u32_from_le_bytes(spec_u32_to_le_bytes(x.cs0_odt_patterns)) == spec_u32_from_le_bytes(spec_u32_to_le_bytes(y.cs0_odt_patterns)));
    assert(spec_u32_from_le_bytes(spec_u32_to_le_bytes(x.cs1_odt_patterns)) == spec_u32_from_le_bytes(spec_u32_to_le_bytes(y.cs1_odt_patterns)));
    assert(spec_u32_from_le_bytes(spec_u32_to_le_bytes(x.cs2_odt_patterns)) == spec_u32_from_le_bytes(spec_u32_to_le_bytes(y.cs2_odt_patterns)));
    assert(spec_u32_from_le_bytes(spec_u32_to_le_bytes(x.cs3_odt_patterns)) == spec_u32_from_le_bytes(spec_u32_to_le_bytes(y.cs3_odt_patterns)));
}

impl Default for LrdimmDdr4OdtPatElement {
    fn default() -> (r: Self)
        ensures
            r.spec_dimm_rank_bitmaps() == 0x21,
            r.spec_cs0_odt_patterns() == 0,
            r.spec_cs1_odt_patterns() == 0,
            r.spec_cs2_odt_patterns() == 0,
            r.spec_cs3_odt_patterns() == 0,
    {
        LrdimmDdr4OdtPatElement { dimm_rank_bitmaps: 0x21, cs0_odt_patterns: 0, cs1_odt_patterns: 0, cs2_odt_patterns: 0, cs3_odt_patterns: 0 }
    }
}

impl LrdimmDdr4OdtPatElement {
    pub fn new(
        dimm_rank_bitmaps: LrdimmDdr4OdtPatDimmRankBitmaps,
        cs0_odt_patterns: OdtPatPatterns,
        cs1_odt_patterns: OdtPatPatterns,
        cs2_odt_patterns: OdtPatPatterns,
        cs3_odt_patterns: OdtPatPatterns,
    ) -> (r: Self)
        ensures
            r.spec_dimm_rank_bitmaps() == dimm_rank_bitmaps.spec_raw(),
            r.spec_cs0_odt_patterns() == cs0_odt_patterns.spec_raw(),
            r.spec_cs1_odt_patterns() == cs1_odt_patterns.spec_raw(),
            r.spec_cs2_odt_patterns() == cs2_odt_patterns.spec_raw(),
            r.spec_cs3_odt_patterns() == cs3_odt_patterns.spec_raw(),
    {
        Self {
            dimm_rank_bitmaps: dimm_rank_bitmaps.into_raw(),
            cs0_odt_patterns: cs0_odt_patterns.into_raw(),
            cs1_odt_patterns: cs1_odt_patterns.into_raw(),
            cs2_odt_patterns: cs2_odt_patterns.into_raw(),
            cs3_odt_patterns: cs3_odt_patterns.into_raw(),
        }
    }
}

impl EntryCompatible for LrdimmDdr4OdtPatElement {
    fn is_entry_compatible(entry_id: EntryId, _prefix: &[u8]) -> (r: bool)
        ensures
            r == (entry_id == EntryId::Memory(MemoryEntryId::PsLrdimmDdr4OdtPat)),
    {
        matches!(entry_id, EntryId::Memory(MemoryEntryId::PsLrdimmDdr4OdtPat))
    }
}

/// Where a DRAM post-package repair applies.
#[derive(Debug, Clone, Copy, PartialEq, Eq, Structural)]
pub struct DdrPostPackageRepairBody(u64);

impl DdrPostPackageRepairBody {
    /// The packed bits.
    pub closed spec fn spec_raw(self) -> u64 {
        self.0
    }

    /// The value with the given packed bits.
    pub closed spec fn spec_from_raw(raw: u64) -> Self {
        DdrPostPackageRepairBody(raw)
    }

    /// The packed bits determine the value, and any packed bits make a value.
    pub proof fn lemma_raw(x: Self, raw: u64)
        ensures
            Self::spec_from_raw(raw).spec_raw() == raw,
            Self::spec_from_raw(x.spec_raw()) == x,
    {
    }

    pub open spec fn spec_bank(self) -> u64 {
        spec_field_u64(self.spec_raw(), 0, 5)
    }

    pub open spec fn spec_rank_multiplier(self) -> u64 {
        spec_field_u64(self.spec_raw(), 5, 3)
    }

    pub open spec fn spec_xdevice_width(self) -> u64 {
        spec_field_u64(self.spec_raw(), 8, 5)
    }

    pub open spec fn spec_chip_select(self) -> u64 {
        spec_field_u64(self.spec_raw(), 13, 2)
    }

    pub open spec fn spec_column(self) -> u64 {
        spec_field_u64(self.spec_raw(), 15, 10)
    }

    pub open spec fn spec_hard_repair(self) -> bool {
        spec_field_u64(self.spec_raw(), 25, 1) == 1
    }

    pub open spec fn spec_valid(self) -> bool {
        spec_field_u64(self.spec_raw(), 26, 1) == 1
    }

    pub open spec fn spec_target_device(self) -> u64 {
        spec_field_u64(self.spec_raw(), 27, 5)
    }

    pub open spec fn spec_row(self) -> u64 {
        spec_field_u64(self.spec_raw(), 32, 18)
    }

    pub open spec fn spec_socket(self) -> u64 {
        spec_field_u64(self.spec_raw(), 50, 3)
    }

    pub open spec fn spec_channel(self) -> u64 {
        spec_field_u64(self.spec_raw(), 53, 3)
    }

    /// All bits clear.
    pub fn new() -> (r: Self)
        ensures
            r.spec_raw() == 0,
    {
        DdrPostPackageRepairBody(0)
    }

    /// The value with the given packed bits.
    pub fn from_raw(raw: u64) -> (r: Self)
        ensures
            r.spec_raw() == raw,
            r == Self::spec_from_raw(raw),
    {
        DdrPostPackageRepairBody(raw)
    }

    /// The packed bits.
    pub fn into_raw(self) -> (r: u64)
        ensures
            r == self.spec_raw(),
    {
        self.0
    }

    pub fn bank(&self) -> (r: u8)
        ensures
            r == self.spec_bank(),
            r < 0x20,
    {
        proof {
            lemma_shift_table_u64();
        }
        field_u64(self.0, 0, 5) as u8
    }

    pub fn set_bank(&mut self, value: u8)
        requires
            value < 0x20,
        ensures
            final(self).spec_raw() == spec_with_field_u64(old(self).spec_raw(), 0, 5, value as u64),
            final(self).spec_bank() == value as u64,
            final(self).spec_rank_multiplier() == old(self).spec_rank_multiplier(),
            final(self).spec_xdevice_width() == old(self).spec_xdevice_width(),
            final(self).spec_chip_select() == old(self).spec_chip_select(),
            final(self).spec_column() == old(self).spec_column(),
            final(self).spec_hard_repair() == old(self).spec_hard_repair(),
            final(self).spec_valid() == old(self).spec_valid(),
            final(self).spec_target_device() == old(self).spec_target_device(),
            final(self).spec_row() == old(self).spec_row(),
            final(self).spec_socket() == old(self).spec_socket(),
            final(self).spec_channel() == old(self).spec_channel(),
    {
        let x: u64 = value as u64;
        let ghost old_raw = self.0;
        proof {
            lemma_shift_table_u64();
            lemma_with_field_same_u64(old_raw, 0, 5, x);
            lemma_with_field_other_u64(old_raw, 0, 5, x, 5, 3);
            lemma_with_field_other_u64(old_raw, 0, 5, x, 8, 5);
            lemma_with_field_other_u64(old_raw, 0, 5, x, 13, 2);
            lemma_with_field_other_u64(old_raw, 0, 5, x, 15, 10);
            lemma_with_field_other_u64(old_raw, 0, 5, x, 25, 1);
            lemma_with_field_other_u64(old_raw, 0, 5, x, 26, 1);
            lemma_with_field_other_u64(old_raw, 0, 5, x, 27, 5);
            lemma_with_field_other_u64(old_raw, 0, 5, x, 32, 18);
            lemma_with_field_other_u64(old_raw, 0, 5, x, 50, 3);
            lemma_with_field_other_u64(old_raw, 0, 5, x, 53, 3);
        }
        self.0 = with_field_u64(self.0, 0, 5, x);
    }

    pub fn with_bank(self, value: u8) -> (r: Self)
        requires
            value < 0x20,
        ensures
            r.spec_raw() == spec_with_field_u64(self.spec_raw(), 0, 5, value as u64),
            r.spec_bank() == value as u64,
            r.spec_rank_multiplier() == self.spec_rank_multiplier(),
            r.spec_xdevice_width() == self.spec_xdevice_width(),
            r.spec_chip_select() == self.spec_chip_select(),
            r.spec_column() == self.spec_column(),
            r.spec_hard_repair() == self.spec_hard_repair(),
            r.spec_valid() == self.spec_valid(),
            r.spec_target_device() == self.spec_target_device(),
            r.spec_row() == self.spec_row(),
            r.spec_socket() == self.spec_socket(),
            r.spec_channel() == self.spec_channel(),
    {
        let mut r = self;
        r.set_bank(value);
        r
    }

    pub fn rank_multiplier(&self) -> (r: u8)
        ensures
            r == self.spec_rank_multiplier(),
            r < 0x8,
    {
        proof {
            lemma_shift_table_u64();
        }
        field_u64(self.0, 5, 3) as u8
    }

    pub fn set_rank_multiplier(&mut self, value: u8)
        requires
            value < 0x8,
        ensures
            final(self).spec_raw() == spec_with_field_u64(old(self).spec_raw(), 5, 3, value as u64),
            final(self).spec_rank_multiplier() == value as u64,
            final(self).spec_bank() == old(self).spec_bank(),
            final(self).spec_xdevice_width() == old(self).spec_xdevice_width(),
            final(self).spec_chip_select() == old(self).spec_chip_select(),
            final(self).spec_column() == old(self).spec_column(),
            final(self).spec_hard_repair() == old(self).spec_hard_repair(),
            final(self).spec_valid() == old(self).spec_valid(),
            final(self).spec_target_device() == old(self).spec_target_device(),
            final(self).spec_row() == old(self).spec_row(),
            final(self).spec_socket() == old(self).spec_socket(),
            final(self).spec_channel() == old(self).spec_channel(),
    {
        let x: u64 = value as u64;
        let ghost old_raw = self.0;
        proof {
            lemma_shift_table_u64();
            lemma_with_field_same_u64(old_raw, 5, 3, x);
            lemma_with_field_other_u64(old_raw, 5, 3, x, 0, 5);
            lemma_with_field_other_u64(old_raw, 5, 3, x, 8, 5);
            lemma_with_field_other_u64(old_raw, 5, 3, x, 13, 2);
            lemma_with_field_other_u64(old_raw, 5, 3, x, 15, 10);
            lemma_with_field_other_u64(old_raw, 5, 3, x, 25, 1);
            lemma_with_field_other_u64(old_raw, 5, 3, x, 26, 1);
            lemma_with_field_other_u64(old_raw, 5, 3, x, 27, 5);
            lemma_with_field_other_u64(old_raw, 5, 3, x, 32, 18);
            lemma_with_field_other_u64(old_raw, 5, 3, x, 50, 3);
            lemma_with_field_other_u64(old_raw, 5, 3, x, 53, 3);
        }
        self.0 = with_field_u64(self.0, 5, 3, x);
    }

    pub fn with_rank_multiplier(self, value: u8) -> (r: Self)
        requires
            value < 0x8,
        ensures
            r.spec_raw() == spec_with_field_u64(self.spec_raw(), 5, 3, value as u64),
            r.spec_rank_multiplier() == value as u64,
            r.spec_bank() == self.spec_bank(),
            r.spec_xdevice_width() == self.spec_xdevice_width(),
            r.spec_chip_select() == self.spec_chip_select(),
            r.spec_column() == self.spec_column(),
            r.spec_hard_repair() == self.spec_hard_repair(),
            r.spec_valid() == self.spec_valid(),
            r.spec_target_device() == self.spec_target_device(),
            r.spec_row() == self.spec_row(),
            r.spec_socket() == self.spec_socket(),
            r.spec_channel() == self.spec_channel(),
    {
        let mut r = self;
        r.set_rank_multiplier(value);
        r
    }

    pub fn xdevice_width(&self) -> (r: u8)
        ensures
            r == self.spec_xdevice_width(),
            r < 0x20,
    {
        proof {
            lemma_shift_table_u64();
        }
        field_u64(self.0, 8, 5) as u8
    }

    pub fn set_xdevice_width(&mut self, value: u8)
        requires
            value < 0x20,
        ensures
            final(self).spec_raw() == spec_with_field_u64(old(self).spec_raw(), 8, 5, value as u64),
            final(self).spec_xdevice_width() == value as u64,
            final(self).spec_bank() == old(self).spec_bank(),
            final(self).spec_rank_multiplier() == old(self).spec_rank_multiplier(),
            final(self).spec_chip_select() == old(self).spec_chip_select(),
            final(self).spec_column() == old(self).spec_column(),
            final(self).spec_hard_repair() == old(self).spec_hard_repair(),
            final(self).spec_valid() == old(self).spec_valid(),
            final(self).spec_target_device() == old(self).spec_target_device(),
            final(self).spec_row() == old(self).spec_row(),
            final(self).spec_socket() == old(self).spec_socket(),
            final(self).spec_channel() == old(self).spec_channel(),
    {
        let x: u64 = value as u64;
        let ghost old_raw = self.0;
        proof {
            lemma_shift_table_u64();
            lemma_with_field_same_u64(old_raw, 8, 5, x);
            lemma_with_field_other_u64(old_raw, 8, 5, x, 0, 5);
            lemma_with_field_other_u64(old_raw, 8, 5, x, 5, 3);
            lemma_with_field_other_u64(old_raw, 8, 5, x, 13, 2);
            lemma_with_field_other_u64(old_raw, 8, 5, x, 15, 10);
            lemma_with_field_other_u64(old_raw, 8, 5, x, 25, 1);
            lemma_with_field_other_u64(old_raw, 8, 5, x, 26, 1);
            lemma_with_field_other_u64(old_raw, 8, 5, x, 27, 5);
            lemma_with_field_other_u64(old_raw, 8, 5, x, 32, 18);
            lemma_with_field_other_u64(old_raw, 8, 5, x, 50, 3);
            lemma_with_field_other_u64(old_raw, 8, 5, x, 53, 3);
        }
        self.0 = with_field_u64(self.0, 8, 5, x);
    }

    pub fn with_xdevice_width(self, value: u8) -> (r: Self)
        requires
            value < 0x20,
        ensures
            r.spec_raw() == spec_with_field_u64(self.spec_raw(), 8, 5, value as u64),
            r.spec_xdevice_width() == value as u64,
            r.spec_bank() == self.spec_bank(),
            r.spec_rank_multiplier() == self.spec_rank_multiplier(),
            r.spec_chip_select() == self.spec_chip_select(),
            r.spec_column() == self.spec_column(),
            r.spec_hard_repair() == self.spec_hard_repair(),
            r.spec_valid() == self.spec_valid(),
            r.spec_target_device() == self.spec_target_device(),
            r.spec_row() == self.spec_row(),
            r.spec_socket() == self.spec_socket(),
            r.spec_channel() == self.spec_channel(),
    {
        let mut r = self;
        r.set_xdevice_width(value);
        r
    }

    pub fn chip_select(&self) -> (r: u8)
        ensures
            r == self.spec_chip_select(),
            r < 0x4,
    {
        proof {
            lemma_shift_table_u64();
        }
        field_u64(self.0, 13, 2) as u8
    }

    pub fn set_chip_select(&mut self, value: u8)
        requires
            value < 0x4,
        ensures
            final(self).spec_raw() == spec_with_field_u64(old(self).spec_raw(), 13, 2, value as u64),
            final(self).spec_chip_select() == value as u64,
            final(self).spec_bank() == old(self).spec_bank(),
            final(self).spec_rank_multiplier() == old(self).spec_rank_multiplier(),
            final(self).spec_xdevice_width() == old(self).spec_xdevice_width(),
            final(self).spec_column() == old(self).spec_column(),
            final(self).spec_hard_repair() == old(self).spec_hard_repair(),
            final(self).spec_valid() == old(self).spec_valid(),
            final(self).spec_target_device() == old(self).spec_target_device(),
            final(self).spec_row() == old(self).spec_row(),
            final(self).spec_socket() == old(self).spec_socket(),
            final(self).spec_channel() == old(self).spec_channel(),
    {
        let x: u64 = value as u64;
        let ghost old_raw = self.0;
        proof {
            lemma_shift_table_u64();
            lemma_with_field_same_u64(old_raw, 13, 2, x);
            lemma_with_field_other_u64(old_raw, 13, 2, x, 0, 5);
            lemma_with_field_other_u64(old_raw, 13, 2, x, 5, 3);
            lemma_with_field_other_u64(old_raw, 13, 2, x, 8, 5);
            lemma_with_field_other_u64(old_raw, 13, 2, x, 15, 10);
            lemma_with_field_other_u64(old_raw, 13, 2, x, 25, 1);
            lemma_with_field_other_u64(old_raw, 13, 2, x, 26, 1);
            lemma_with_field_other_u64(old_raw, 13, 2, x, 27, 5);
            lemma_with_field_other_u64(old_raw, 13, 2, x, 32, 18);
            lemma_with_field_other_u64(old_raw, 13, 2, x, 50, 3);
            lemma_with_field_other_u64(old_raw, 13, 2, x, 53, 3);
        }
        self.0 = with_field_u64(self.0, 13, 2, x);
    }

    pub fn with_chip_select(self, value: u8) -> (r: Self)
        requires
            value < 0x4,
        ensures
            r.spec_raw() == spec_with_field_u64(self.spec_raw(), 13, 2, value as u64),
            r.spec_chip_select() == value as u64,
            r.spec_bank() == self.spec_bank(),
            r.spec_rank_multiplier() == self.spec_rank_multiplier(),
            r.spec_xdevice_width() == self.spec_xdevice_width(),
            r.spec_column() == self.spec_column(),
            r.spec_hard_repair() == self.spec_hard_repair(),
            r.spec_valid() == self.spec_valid(),
            r.spec_target_device() == self.spec_target_device(),
            r.spec_row() == self.spec_row(),
            r.spec_socket() == self.spec_socket(),
            r.spec_channel() == self.spec_channel(),
    {
        let mut r = self;
        r.set_chip_select(value);
        r
    }

    pub fn column(&self) -> (r: u16)
        ensures
            r == self.spec_column(),
            r < 0x400,
    {
        proof {
            lemma_shift_table_u64();
        }
        field_u64(self.0, 15, 10) as u16
    }

    pub fn set_column(&mut self, value: u16)
        requires
            value < 0x400,
        ensures
            final(self).spec_raw() == spec_with_field_u64(old(self).spec_raw(), 15, 10, value as u64),
            final(self).spec_column() == value as u64,
            final(self).spec_bank() == old(self).spec_bank(),
            final(self).spec_rank_multiplier() == old(self).spec_rank_multiplier(),
            final(self).spec_xdevice_width() == old(self).spec_xdevice_width(),
            final(self).spec_chip_select() == old(self).spec_chip_select(),
            final(self).spec_hard_repair() == old(self).spec_hard_repair(),
            final(self).spec_valid() == old(self).spec_valid(),
            final(self).spec_target_device() == old(self).spec_target_device(),
            final(self).spec_row() == old(self).spec_row(),
            final(self).spec_socket() == old(self).spec_socket(),
            final(self).spec_channel() == old(self).spec_channel(),
    {
        let x: u64 = value as u64;
        let ghost old_raw = self.0;
        proof {
            lemma_shift_table_u64();
            lemma_with_field_same_u64(old_raw, 15, 10, x);
            lemma_with_field_other_u64(old_raw, 15, 10, x, 0, 5);
            lemma_with_field_other_u64(old_raw, 15, 10, x, 5, 3);
            lemma_with_field_other_u64(old_raw, 15, 10, x, 8, 5);
            lemma_with_field_other_u64(old_raw, 15, 10, x, 13, 2);
            lemma_with_field_other_u64(old_raw, 15, 10, x, 25, 1);
            lemma_with_field_other_u64(old_raw, 15, 10, x, 26, 1);
            lemma_with_field_other_u64(old_raw, 15, 10, x, 27, 5);
            lemma_with_field_other_u64(old_raw, 15, 10, x, 32, 18);
            lemma_with_field_other_u64(old_raw, 15, 10, x, 50, 3);
            lemma_with_field_other_u64(old_raw, 15, 10, x, 53, 3);
        }
        self.0 = with_field_u64(self.0, 15, 10, x);
    }

    pub fn with_column(self, value: u16) -> (r: Self)
        requires
            value < 0x400,
        ensures
            r.spec_raw() == spec_with_field_u64(self.spec_raw(), 15, 10, value as u64),
            r.spec_column() == value as u64,
            r.spec_bank() == self.spec_bank(),
            r.spec_rank_multiplier() == self.spec_rank_multiplier(),
            r.spec_xdevice_width() == self.spec_xdevice_width(),
            r.spec_chip_select() == self.spec_chip_select(),
            r.spec_hard_repair() == self.spec_hard_repair(),
            r.spec_valid() == self.spec_valid(),
            r.spec_target_device() == self.spec_target_device(),
            r.spec_row() == self.spec_row(),
            r.spec_socket() == self.spec_socket(),
            r.spec_channel() == self.spec_channel(),
    {
        let mut r = self;
        r.set_column(value);
        r
    }

    pub fn hard_repair(&self) -> (r: bool)
        ensures
            r == self.spec_hard_repair(),
    {
        field_u64(self.0, 25, 1) == 1
    }

    pub fn set_hard_repair(&mut self, value: bool)
        ensures
            final(self).spec_raw() == spec_with_field_u64(old(self).spec_raw(), 25, 1, (if value { 1u64 } else { 0u64 })),
            final(self).spec_hard_repair() == value,
            final(self).spec_bank() == old(self).spec_bank(),
            final(self).spec_rank_multiplier() == old(self).spec_rank_multiplier(),
            final(self).spec_xdevice_width() == old(self).spec_xdevice_width(),
            final(self).spec_chip_select() == old(self).spec_chip_select(),
            final(self).spec_column() == old(self).spec_column(),
            final(self).spec_valid() == old(self).spec_valid(),
            final(self).spec_target_device() == old(self).spec_target_device(),
            final(self).spec_row() == old(self).spec_row(),
            final(self).spec_socket() == old(self).spec_socket(),
            final(self).spec_channel() == old(self).spec_channel(),
    {
        let x: u64 = if value { 1 } else { 0 };
        let ghost old_raw = self.0;
        proof {
            lemma_shift_table_u64();
            lemma_with_field_same_u64(old_raw, 25, 1, x);
            lemma_with_field_other_u64(old_raw, 25, 1, x, 0, 5);
            lemma_with_field_other_u64(old_raw, 25, 1, x, 5, 3);
            lemma_with_field_other_u64(old_raw, 25, 1, x, 8, 5);
            lemma_with_field_other_u64(old_raw, 25, 1, x, 13, 2);
            lemma_with_field_other_u64(old_raw, 25, 1, x, 15, 10);
            lemma_with_field_other_u64(old_raw, 25, 1, x, 26, 1);
            lemma_with_field_other_u64(old_raw, 25, 1, x, 27, 5);
            lemma_with_field_other_u64(old_raw, 25, 1, x, 32, 18);
            lemma_with_field_other_u64(old_raw, 25, 1, x, 50, 3);
            lemma_with_field_other_u64(old_raw, 25, 1, x, 53, 3);
        }
        self.0 = with_field_u64(self.0, 25, 1, x);
    }

    pub fn with_hard_repair(self, value: bool) -> (r: Self)
        ensures
            r.spec_raw() == spec_with_field_u64(self.spec_raw(), 25, 1, (if value { 1u64 } else { 0u64 })),
            r.spec_hard_repair() == value,
            r.spec_bank() == self.spec_bank(),
            r.spec_rank_multiplier() == self.spec_rank_multiplier(),
            r.spec_xdevice_width() == self.spec_xdevice_width(),
            r.spec_chip_select() == self.spec_chip_select(),
            r.spec_column() == self.spec_column(),
            r.spec_valid() == self.spec_valid(),
            r.spec_target_device() == self.spec_target_device(),
            r.spec_row() == self.spec_row(),
            r.spec_socket() == self.spec_socket(),
            r.spec_channel() == self.spec_channel(),
    {
        let mut r = self;
        r.set_hard_repair(value);
        r
    }

    pub fn valid(&self) -> (r: bool)
        ensures
            r == self.spec_valid(),
    {
        field_u64(self.0, 26, 1) == 1
    }

    pub fn set_valid(&mut self, value: bool)
        ensures
            final(self).spec_raw() == spec_with_field_u64(old(self).spec_raw(), 26, 1, (if value { 1u64 } else { 0u64 })),
            final(self).spec_valid() == value,
            final(self).spec_bank() == old(self).spec_bank(),
            final(self).spec_rank_multiplier() == old(self).spec_rank_multiplier(),
            final(self).spec_xdevice_width() == old(self).spec_xdevice_width(),
            final(self).spec_chip_select() == old(self).spec_chip_select(),
            final(self).spec_column() == old(self).spec_column(),
            final(self).spec_hard_repair() == old(self).spec_hard_repair(),
            final(self).spec_target_device() == old(self).spec_target_device(),
            final(self).spec_row() == old(self).spec_row(),
            final(self).spec_socket() == old(self).spec_socket(),
            final(self).spec_channel() == old(self).spec_channel(),
    {
        let x: u64 = if value { 1 } else { 0 };
        let ghost old_raw = self.0;
        proof {
            lemma_shift_table_u64();
            lemma_with_field_same_u64(old_raw, 26, 1, x);
            lemma_with_field_other_u64(old_raw, 26, 1, x, 0, 5);
            lemma_with_field_other_u64(old_raw, 26, 1, x, 5, 3);
            lemma_with_field_other_u64(old_raw, 26, 1, x, 8, 5);
            lemma_with_field_other_u64(old_raw, 26, 1, x, 13, 2);
            lemma_with_field_other_u64(old_raw, 26, 1, x, 15, 10);
            lemma_with_field_other_u64(old_raw, 26, 1, x, 25, 1);
            lemma_with_field_other_u64(old_raw, 26, 1, x, 27, 5);
            lemma_with_field_other_u64(old_raw, 26, 1, x, 32, 18);
            lemma_with_field_other_u64(old_raw, 26, 1, x, 50, 3);
            lemma_with_field_other_u64(old_raw, 26, 1, x, 53, 3);
        }
        self.0 = with_field_u64(self.0, 26, 1, x);
    }

    pub fn with_valid(self, value: bool) -> (r: Self)
        ensures
            r.spec_raw() == spec_with_field_u64(self.spec_raw(), 26, 1, (if value { 1u64 } else { 0u64 })),
            r.spec_valid() == value,
            r.spec_bank() == self.spec_bank(),
            r.spec_rank_multiplier() == self.spec_rank_multiplier(),
            r.spec_xdevice_width() == self.spec_xdevice_width(),
            r.spec_chip_select() == self.spec_chip_select(),
            r.spec_column() == self.spec_column(),
            r.spec_hard_repair() == self.spec_hard_repair(),
            r.spec_target_device() == self.spec_target_device(),
            r.spec_row() == self.spec_row(),
            r.spec_socket() == self.spec_socket(),
            r.spec_channel() == self.spec_channel(),
    {
        let mut r = self;
        r.set_valid(value);
        r
    }

    pub fn target_device(&self) -> (r: u8)
        ensures
            r == self.spec_target_device(),
            r < 0x20,
    {
        proof {
            lemma_shift_table_u64();
        }
        field_u64(self.0, 27, 5) as u8
    }

    pub fn set_target_device(&mut self, value: u8)
        requires
            value < 0x20,
        ensures
            final(self).spec_raw() == spec_with_field_u64(old(self).spec_raw(), 27, 5, value as u64),
            final(self).spec_target_device() == value as u64,
            final(self).spec_bank() == old(self).spec_bank(),
            final(self).spec_rank_multiplier() == old(self).spec_rank_multiplier(),
            final(self).spec_xdevice_width() == old(self).spec_xdevice_width(),
            final(self).spec_chip_select() == old(self).spec_chip_select(),
            final(self).spec_column() == old(self).spec_column(),
            final(self).spec_hard_repair() == old(self).spec_hard_repair(),
            final(self).spec_valid() == old(self).spec_valid(),
            final(self).spec_row() == old(self).spec_row(),
            final(self).spec_socket() == old(self).spec_socket(),
            final(self).spec_channel() == old(self).spec_channel(),
    {
        let x: u64 = value as u64;
        let ghost old_raw = self.0;
        proof {
            lemma_shift_table_u64();
            lemma_with_field_same_u64(old_raw, 27, 5, x);
            lemma_with_field_other_u64(old_raw, 27, 5, x, 0, 5);
            lemma_with_field_other_u64(old_raw, 27, 5, x, 5, 3);
            lemma_with_field_other_u64(old_raw, 27, 5, x, 8, 5);
            lemma_with_field_other_u64(old_raw, 27, 5, x, 13, 2);
            lemma_with_field_other_u64(old_raw, 27, 5, x, 15, 10);
            lemma_with_field_other_u64(old_raw, 27, 5, x, 25, 1);
            lemma_with_field_other_u64(old_raw, 27, 5, x, 26, 1);
            lemma_with_field_other_u64(old_raw, 27, 5, x, 32, 18);
            lemma_with_field_other_u64(old_raw, 27, 5, x, 50, 3);
            lemma_with_field_other_u64(old_raw, 27, 5, x, 53, 3);
        }
        self.0 = with_field_u64(self.0, 27, 5, x);
    }

    pub fn with_target_device(self, value: u8) -> (r: Self)
        requires
            value < 0x20,
        ensures
            r.spec_raw() == spec_with_field_u64(self.spec_raw(), 27, 5, value as u64),
            r.spec_target_device() == value as u64,
            r.spec_bank() == self.spec_bank(),
            r.spec_rank_multiplier() == self.spec_rank_multiplier(),
            r.spec_xdevice_width() == self.spec_xdevice_width(),
            r.spec_chip_select() == self.spec_chip_select(),
            r.spec_column() == self.spec_column(),
            r.spec_hard_repair() == self.spec_hard_repair(),
            r.spec_valid() == self.spec_valid(),
            r.spec_row() == self.spec_row(),
            r.spec_socket() == self.spec_socket(),
            r.spec_channel() == self.spec_channel(),
    {
        let mut r = self;
        r.set_target_device(value);
        r
    }

    pub fn row(&self) -> (r: u32)
        ensures
            r == self.spec_row(),
            r < 0x40000,
    {
        proof {
            lemma_shift_table_u64();
        }
        field_u64(self.0, 32, 18) as u32
    }

    pub fn set_row(&mut self, value: u32)
        requires
            value < 0x40000,
        ensures
            final(self).spec_raw() == spec_with_field_u64(old(self).spec_raw(), 32, 18, value as u64),
            final(self).spec_row() == value as u64,
            final(self).spec_bank() == old(self).spec_bank(),
            final(self).spec_rank_multiplier() == old(self).spec_rank_multiplier(),
            final(self).spec_xdevice_width() == old(self).spec_xdevice_width(),
            final(self).spec_chip_select() == old(self).spec_chip_select(),
            final(self).spec_column() == old(self).spec_column(),
            final(self).spec_hard_repair() == old(self).spec_hard_repair(),
            final(self).spec_valid() == old(self).spec_valid(),
            final(self).spec_target_device() == old(self).spec_target_device(),
            final(self).spec_socket() == old(self).spec_socket(),
            final(self).spec_channel() == old(self).spec_channel(),
    {
        let x: u64 = value as u64;
        let ghost old_raw = self.0;
        proof {
            lemma_shift_table_u64();
            lemma_with_field_same_u64(old_raw, 32, 18, x);
            lemma_with_field_other_u64(old_raw, 32, 18, x, 0, 5);
            lemma_with_field_other_u64(old_raw, 32, 18, x, 5, 3);
            lemma_with_field_other_u64(old_raw, 32, 18, x, 8, 5);
            lemma_with_field_other_u64(old_raw, 32, 18, x, 13, 2);
            lemma_with_field_other_u64(old_raw, 32, 18, x, 15, 10);
            lemma_with_field_other_u64(old_raw, 32, 18, x, 25, 1);
            lemma_with_field_other_u64(old_raw, 32, 18, x, 26, 1);
            lemma_with_field_other_u64(old_raw, 32, 18, x, 27, 5);
            lemma_with_field_other_u64(old_raw, 32, 18, x, 50, 3);
            lemma_with_field_other_u64(old_raw, 32, 18, x, 53, 3);
        }
        self.0 = with_field_u64(self.0, 32, 18, x);
    }

    pub fn with_row(self, value: u32) -> (r: Self)
        requires
            value < 0x40000,
        ensures
            r.spec_raw() == spec_with_field_u64(self.spec_raw(), 32, 18, value as u64),
            r.spec_row() == value as u64,
            r.spec_bank() == self.spec_bank(),
            r.spec_rank_multiplier() == self.spec_rank_multiplier(),
            r.spec_xdevice_width() == self.spec_xdevice_width(),
            r.spec_chip_select() == self.spec_chip_select(),
            r.spec_column() == self.spec_column(),
            r.spec_hard_repair() == self.spec_hard_repair(),
            r.spec_valid() == self.spec_valid(),
            r.spec_target_device() == self.spec_target_device(),
            r.spec_socket() == self.spec_socket(),
            r.spec_channel() == self.spec_channel(),
    {
        let mut r = self;
        r.set_row(value);
        r
    }

    pub fn socket(&self) -> (r: u8)
        ensures
            r == self.spec_socket(),
            r < 0x8,
    {
        proof {
            lemma_shift_table_u64();
        }
        field_u64(self.0, 50, 3) as u8
    }

    pub fn set_socket(&mut self, value: u8)
        requires
            value < 0x8,
        ensures
            final(self).spec_raw() == spec_with_field_u64(old(self).spec_raw(), 50, 3, value as u64),
            final(self).spec_socket() == value as u64,
            final(self).spec_bank() == old(self).spec_bank(),
            final(self).spec_rank_multiplier() == old(self).spec_rank_multiplier(),
            final(self).spec_xdevice_width() == old(self).spec_xdevice_width(),
            final(self).spec_chip_select() == old(self).spec_chip_select(),
            final(self).spec_column() == old(self).spec_column(),
            final(self).spec_hard_repair() == old(self).spec_hard_repair(),
            final(self).spec_valid() == old(self).spec_valid(),
            final(self).spec_target_device() == old(self).spec_target_device(),
            final(self).spec_row() == old(self).spec_row(),
            final(self).spec_channel() == old(self).spec_channel(),
    {
        let x: u64 = value as u64;
        let ghost old_raw = self.0;
        proof {
            lemma_shift_table_u64();
            lemma_with_field_same_u64(old_raw, 50, 3, x);
            lemma_with_field_other_u64(old_raw, 50, 3, x, 0, 5);
            lemma_with_field_other_u64(old_raw, 50, 3, x, 5, 3);
            lemma_with_field_other_u64(old_raw, 50, 3, x, 8, 5);
            lemma_with_field_other_u64(old_raw, 50, 3, x, 13, 2);
            lemma_with_field_other_u64(old_raw, 50, 3, x, 15, 10);
            lemma_with_field_other_u64(old_raw, 50, 3, x, 25, 1);
            lemma_with_field_other_u64(old_raw, 50, 3, x, 26, 1);
            lemma_with_field_other_u64(old_raw, 50, 3, x, 27, 5);
            lemma_with_field_other_u64(old_raw, 50, 3, x, 32, 18);
            lemma_with_field_other_u64(old_raw, 50, 3, x, 53, 3);
        }
        self.0 = with_field_u64(self.0, 50, 3, x);
    }

    pub fn with_socket(self, value: u8) -> (r: Self)
        requires
            value < 0x8,
        ensures
            r.spec_raw() == spec_with_field_u64(self.spec_raw(), 50, 3, value as u64),
            r.spec_socket() == value as u64,
            r.spec_bank() == self.spec_bank(),
            r.spec_rank_multiplier() == self.spec_rank_multiplier(),
            r.spec_xdevice_width() == self.spec_xdevice_width(),
            r.spec_chip_select() == self.spec_chip_select(),
            r.spec_column() == self.spec_column(),
            r.spec_hard_repair() == self.spec_hard_repair(),
            r.spec_valid() == self.spec_valid(),
            r.spec_target_device() == self.spec_target_device(),
            r.spec_row() == self.spec_row(),
            r.spec_channel() == self.spec_channel(),
    {
        let mut r = self;
        r.set_socket(value);
        r
    }

    pub fn channel(&self) -> (r: u8)
        ensures
            r == self.spec_channel(),
            r < 0x8,
    {
        proof {
            lemma_shift_table_u64();
        }
        field_u64(self.0, 53, 3) as u8
    }

    pub fn set_channel(&mut self, value: u8)
        requires
            value < 0x8,
        ensures
            final(self).spec_raw() == spec_with_field_u64(old(self).spec_raw(), 53, 3, value as u64),
            final(self).spec_channel() == value as u64,
            final(self).spec_bank() == old(self).spec_bank(),
            final(self).spec_rank_multiplier() == old(self).spec_rank_multiplier(),
            final(self).spec_xdevice_width() == old(self).spec_xdevice_width(),
            final(self).spec_chip_select() == old(self).spec_chip_select(),
            final(self).spec_column() == old(self).spec_column(),
            final(self).spec_hard_repair() == old(self).spec_hard_repair(),
            final(self).spec_valid() == old(self).spec_valid(),
            final(self).spec_target_device() == old(self).spec_target_device(),
            final(self).spec_row() == old(self).spec_row(),
            final(self).spec_socket() == old(self).spec_socket(),
    {
        let x: u64 = value as u64;
        let ghost old_raw = self.0;
        proof {
            lemma_shift_table_u64();
            lemma_with_field_same_u64(old_raw, 53, 3, x);
            lemma_with_field_other_u64(old_raw, 53, 3, x, 0, 5);
            lemma_with_field_other_u64(old_raw, 53, 3, x, 5, 3);
            lemma_with_field_other_u64(old_raw, 53, 3, x, 8, 5);
            lemma_with_field_other_u64(old_raw, 53, 3, x, 13, 2);
            lemma_with_field_other_u64(old_raw, 53, 3, x, 15, 10);
            lemma_with_field_other_u64(old_raw, 53, 3, x, 25, 1);
            lemma_with_field_other_u64(old_raw, 53, 3, x, 26, 1);
            lemma_with_field_other_u64(old_raw, 53, 3, x, 27, 5);
            lemma_with_field_other_u64(old_raw, 53, 3, x, 32, 18);
            lemma_with_field_other_u64(old_raw, 53, 3, x, 50, 3);
        }
        self.0 = with_field_u64(self.0, 53, 3, x);
    }

    pub fn with_channel(self, value: u8) -> (r: Self)
        requires
            value < 0x8,
        ensures
            r.spec_raw() == spec_with_field_u64(self.spec_raw(), 53, 3, value as u64),
            r.spec_channel() == value as u64,
            r.spec_bank() == self.spec_bank(),
            r.spec_rank_multiplier() == self.spec_rank_multiplier(),
            r.spec_xdevice_width() == self.spec_xdevice_width(),
            r.spec_chip_select() == self.spec_chip_select(),
            r.spec_column() == self.spec_column(),
            r.spec_hard_repair() == self.spec_hard_repair(),
            r.spec_valid() == self.spec_valid(),
            r.spec_target_device() == self.spec_target_device(),
            r.spec_row() == self.spec_row(),
            r.spec_socket() == self.spec_socket(),
    {
        let mut r = self;
        r.set_channel(value);
        r
    }

    /// The bits that have a meaning; the others are reserved.
    pub const VALID_BITS: u64 = 0xffffffffffffffff;

    /// Whether VALUE leaves all reserved bits clear.
    pub fn all_reserved_bits_are_unused(value: u64) -> (r: bool)
        ensures
            r == (value & !0xffffffffffffffffu64 == 0),
    {
        value & !Self::VALID_BITS == 0
    }

    pub fn from_u64(value: u64) -> (r: Option<Self>)
        ensures
            r is Some <==> (value & !0xffffffffffffffffu64 == 0 && value <= 0xffffffffffffffff),
            r matches Some(x) ==> x.spec_raw() == value,
    {
        if Self::all_reserved_bits_are_unused(value) {
            if value <= 0xffffffffffffffff {
                Some(DdrPostPackageRepairBody(value as u64))
            } else {
                None
            }
        } else {
            None
        }
    }

    pub fn from_i64(value: i64) -> (r: Option<Self>)
        ensures
            r is Some <==> (value >= 0 && (value as u64) & !0xffffffffffffffffu64 == 0 && value <= 0xffffffffffffffff),
            r matches Some(x) ==> x.spec_raw() == value,
    {
        if value >= 0 {
            Self::from_u64(value as u64)
        } else {
            None
        }
    }

    pub fn to_u64(&self) -> (r: Option<u64>)
        ensures
            r == Some(self.spec_raw() as u64),
    {
        Some(self.0 as u64)
    }

    pub fn to_i64(&self) -> (r: Option<i64>)
        ensures
            r == Some(self.spec_raw() as i64),
    {
        Some(self.0 as i64)
    }

}

impl DdrPostPackageRepairBody {
    /// The device width of the DIMMs to repair, or `None` (stored as 0x1F) to heed
    /// target_device instead.
    pub fn device_width(&self) -> (r: Option<u8>)
        ensures
            r == (if self.spec_xdevice_width() == 0x1f { None } else { Some(self.spec_xdevice_width() as u8) }),
    {
        match self.xdevice_width() {
            0x1f => None,
            x => Some(x),
        }
    }

    pub fn set_device_width(&mut self, value: Option<u8>)
        requires
            value matches Some(x) ==> x < 0x20,
        ensures
            final(self).spec_xdevice_width() == (match value {
                Some(x) => x as u64,
                None => 0x1fu64,
            }),
            final(self).spec_bank() == old(self).spec_bank(),
            final(self).spec_rank_multiplier() == old(self).spec_rank_multiplier(),
            final(self).spec_chip_select() == old(self).spec_chip_select(),
            final(self).spec_column() == old(self).spec_column(),
            final(self).spec_hard_repair() == old(self).spec_hard_repair(),
            final(self).spec_valid() == old(self).spec_valid(),
            final(self).spec_target_device() == old(self).spec_target_device(),
            final(self).spec_row() == old(self).spec_row(),
            final(self).spec_socket() == old(self).spec_socket(),
            final(self).spec_channel() == old(self).spec_channel(),
    {
        let x: u8 = match value {
            Some(x) => x,
            None => 0x1f,
        };
        self.set_xdevice_width(x);
    }
}

impl DdrPostPackageRepairBody {
    /// Sets the device width (as set_device_width does) and hands the body back.
    pub fn with_device_width(&mut self, value: Option<u8>) -> (r: &mut Self)
        requires
            value matches Some(x) ==> x < 0x20,
        ensures
            r.spec_xdevice_width() == (match value {
                Some(x) => x as u64,
                None => 0x1fu64,
            }),
            r.spec_bank() == old(self).spec_bank(),
            r.spec_row() == old(self).spec_row(),
            r.spec_column() == old(self).spec_column(),
            r.spec_valid() == old(self).spec_valid(),
            *final(self) == *final(r),
    {
        self.set_device_width(value);
        self
    }
}

/// A DRAM post-package repair, as the eight bytes of its body.
#[derive(Debug, Clone, Copy)]
pub struct DdrPostPackageRepairElement {
    pub(crate) body: [u8; 8],
}

/// Whether stored body bytes are marked valid: bit 26 of the body, that is bit 2 of byte 3.
pub open spec fn spec_repair_body_is_valid(body: Seq<u8>) -> bool {
    body[3] & 4 != 0
}

impl DdrPostPackageRepairElement {
    /// The stored body bytes.
    pub closed spec fn spec_body(self) -> [u8; 8] {
        self.body
    }

    /// The repair, if its body is marked valid.
    /// The repair that the stored bytes describe, if they are marked valid.
    pub open spec fn spec_body_opt(self) -> Option<DdrPostPackageRepairBody> {
        if spec_repair_body_is_valid(self.spec_body()@) {
            Some(DdrPostPackageRepairBody::spec_from_raw(spec_u64_from_le_bytes(self.spec_body()@)))
        } else {
            None
        }
    }

    pub fn body(&self) -> (r: Option<DdrPostPackageRepairBody>)
        ensures
            r == self.spec_body_opt(),
            r matches Some(b) ==> b.spec_valid(),
    {
        if self.body[3] & 4 != 0 {
            let raw = u64_from_le_bytes(self.body.as_slice());
            let b = DdrPostPackageRepairBody::from_raw(raw);
            proof {
                lemma_auto_spec_u64_to_from_le_bytes();
                assert(spec_u64_to_le_bytes(raw) == self.body@);
                lemma_u64_le_bytes(raw);
                lemma_valid_bit_of_byte(raw, self.body@[3]);
            }
            Some(b)
        } else {
            None
        }
    }

    /// The element that stands for "no repair": all zero but for a last byte of 0xFF.
    pub fn invalid() -> (r: DdrPostPackageRepairElement)
        ensures
            r.spec_body() == [0u8, 0u8, 0u8, 0u8, 0u8, 0u8, 0u8, 0xffu8],
            !spec_repair_body_is_valid(r.spec_body()@),
    {
        let r = Self { body: [0, 0, 0, 0, 0, 0, 0, 0xff] };
        proof {
            assert(r.body@[3] == 0);
            assert(0u8 & 4u8 == 0) by (bit_vector);
        }
        r
    }

    /// Stores BODY, or the invalid element for `None`.
    pub fn set_body(&mut self, value: Option<DdrPostPackageRepairBody>)
        ensures
            final(self).spec_body()@ == (match value {
                Some(b) => spec_u64_to_le_bytes(b.spec_raw()),
                None => seq![0u8, 0u8, 0u8, 0u8, 0u8, 0u8, 0u8, 0xffu8],
            }),
    {
        match value {
            Some(body) => {
                self.body = le_bytes_u64(body.into_raw());
            },
            None => {
                self.body = Self::invalid().body;
            },
        }
    }
}

/// Storing a repair body and reading it back: a body marked valid is read back as itself,
/// one not marked valid reads as no repair; storing no repair leaves the bytes of the
/// invalid element, which read as no repair. E is the element after `set_body(value)`.
pub proof fn lemma_ddr_post_package_repair_set_then_get(e: DdrPostPackageRepairElement, value: Option<DdrPostPackageRepairBody>)
    requires
        e.spec_body()@ == (match value {
            Some(b) => spec_u64_to_le_bytes(b.spec_raw()),
            None => seq![0u8, 0u8, 0u8, 0u8, 0u8, 0u8, 0u8, 0xffu8],
        }),
    ensures
        value matches Some(b) ==> e.spec_body_opt() == (if b.spec_valid() { Some(b) } else { None::<DdrPostPackageRepairBody> }),
        value is None ==> e.spec_body_opt() is None && e.spec_to_bytes() == seq![0u8, 0u8, 0u8, 0u8, 0u8, 0u8, 0u8, 0xffu8],
{
    match value {
        Some(b) => {
            let raw = b.spec_raw();
            lemma_auto_spec_u64_to_from_le_bytes();
            lemma_u64_le_bytes(raw);
            DdrPostPackageRepairBody::lemma_raw(b, raw);
            assert(e.spec_body()@[3] == ((raw >> 24) & 0xff) as u8);
            assert((((raw >> 24) & 0xff) as u8 & 4 != 0) <==> ((raw >> 26) & (((1u64 << 1u64) - 1) as u64) == 1)) by (bit_vector);
        },
        None => {
            assert(e.spec_body()@[3] == 0);
            assert(0u8 & 4u8 == 0) by (bit_vector);
        },
    }
}

/// Bit 26 of a 64-bit value is bit 2 of its little-endian byte 3.
proof fn lemma_valid_bit_of_byte(raw: u64, byte3: u8)
    requires
        byte3 == ((raw >> 24) & 0xff) as u8,
        byte3 & 4 != 0,
    ensures
        spec_field_u64(raw, 26, 1) == 1,
{
    assert(((raw >> 24) & 0xff) as u8 & 4 != 0 ==> (raw >> 26) & (((1u64 << 1u64) - 1) as u64) == 1) by (bit_vector);
}

impl Default for DdrPostPackageRepairElement {
    fn default() -> (r: Self)
        ensures
            r.spec_body() == [0u8, 0u8, 0u8, 0u8, 0u8, 0u8, 0u8, 0xffu8],
    {
        Self::invalid()
    }
}

impl ByteLayout for DdrPostPackageRepairElement {
    open spec fn spec_size() -> nat {
        8
    }

    open spec fn spec_to_bytes(self) -> Seq<u8> {
        self.spec_body()@
    }

    fn size() -> (r: usize) {
        8
    }

    fn from_bytes(bytes: &[u8]) -> (r: Self) {
        let body: [u8; 8] = [bytes[0], bytes[1], bytes[2], bytes[3], bytes[4], bytes[5], bytes[6], bytes[7]];
        let r = Self { body };
        proof {
            assert(r.body@ =~= bytes@);
        }
        r
    }

    fn to_bytes(&self) -> (r: Vec<u8>) {
        let mut out: Vec<u8> = Vec::new();
        append_bytes(&mut out, &self.body);
        out
    }
}

impl EntryCompatible for DdrPostPackageRepairElement {
    fn is_entry_compatible(entry_id: EntryId, _prefix: &[u8]) -> (r: bool)
        ensures
            r == (entry_id == EntryId::Memory(MemoryEntryId::DdrPostPackageRepair)),
    {
        matches!(entry_id, EntryId::Memory(MemoryEntryId::DdrPostPackageRepair))
    }
}

/// The pins of the eight bits of one DQ lane.
#[allow(non_camel_case_types)]
#[derive(Debug, Clone, Copy)]
pub struct DdrDqPinMapElementLane {
    pub(crate) pins: [u8; 8],
}

impl DdrDqPinMapElementLane {
    pub closed spec fn spec_pins(self) -> [u8; 8] {
        self.pins
    }

}

impl DdrDqPinMapElementLane {
    /// The bytes that store this value on disk.
    pub closed spec fn spec_bytes(self) -> Seq<u8> {
        self.pins@
    }
}

impl ByteLayout for DdrDqPinMapElementLane {
    open spec fn spec_size() -> nat {
        8
    }

    open spec fn spec_to_bytes(self) -> Seq<u8> {
        self.spec_bytes()
    }

    fn size() -> (r: usize) {
        8
    }

    #[verifier::spinoff_prover]
    fn from_bytes(bytes: &[u8]) -> (r: Self) {
        let pins: [u8; 8] = [bytes[0], bytes[1], bytes[2], bytes[3], bytes[4], bytes[5], bytes[6], bytes[7]];
        let r = DdrDqPinMapElementLane { pins };
        proof {
            lemma_auto_spec_u16_to_from_le_bytes();
            lemma_auto_spec_u32_to_from_le_bytes();
            lemma_auto_spec_u64_to_from_le_bytes();
            lemma_ddr_dq_pin_map_element_lane_bytes_pieces(r);
            assert(bytes@.subrange(0, 8) =~= pins@);
            assert(bytes@.subrange(0, 8) =~= bytes@);
            assert(bytes@ == r.spec_bytes());
        }
        r
    }

    #[verifier::spinoff_prover]
    fn to_bytes(&self) -> (r: Vec<u8>) {
        let mut out: Vec<u8> = Vec::new();
        append_bytes(&mut out, &self.pins);
        proof {
            lemma_ddr_dq_pin_map_element_lane_bytes_pieces(*self);
        }
        out
    }
}

/// How the bytes of a DdrDqPinMapElementLane split up into its fields.
pub proof fn lemma_ddr_dq_pin_map_element_lane_bytes_pieces(x: DdrDqPinMapElementLane)
    ensures
        x.spec_bytes().len() == 8,
        x.spec_bytes().subrange(0, 8) == x.spec_pins()@,
{
    lemma_auto_spec_u16_to_from_le_bytes();
    lemma_auto_spec_u32_to_from_le_bytes();
    lemma_auto_spec_u64_to_from_le_bytes();
    assert(x.spec_bytes().subrange(0, 8) == x.pins@);
}

/// Two values of DdrDqPinMapElementLane with the same bytes are the same value.
#[verifier::spinoff_prover]
pub proof fn lemma_ddr_dq_pin_map_element_lane_bytes_injective(x: DdrDqPinMapElementLane, y: DdrDqPinMapElementLane)
    requires
        x.spec_bytes() == y.spec_bytes(),
    ensures
        x == y,
{
    lemma_ddr_dq_pin_map_element_lane_bytes_pieces(x);
    lemma_ddr_dq_pin_map_element_lane_bytes_pieces(y);
    lemma_auto_spec_u16_to_from_le_bytes();
    lemma_auto_spec_u32_to_from_le_bytes();
    lemma_auto_spec_u64_to_from_le_bytes();
    assert(x.pins@ == x.spec_bytes().subrange(0, 8));
    assert(x.pins =~= y.pins);
}

impl DdrDqPinMapElementLane {
    pub fn new(pins: [u8; 8]) -> (r: Self)
        ensures
            r.spec_pins() == pins,
    {
        Self { pins }
    }
}

impl Default for DdrDqPinMapElementLane {
    fn default() -> (r: Self)
        ensures
            r.spec_pins() == [0u8, 1u8, 2u8, 3u8, 4u8, 5u8, 6u8, 7u8],
    {
        Self { pins: [0, 1, 2, 3, 4, 5, 6, 7] }
    }
}

/// The DQ pin map: lanes[lane] holds the pin of each bit.
#[allow(non_camel_case_types)]
#[derive(Debug, Clone, Copy)]
pub struct DdrDqPinMapElement {
    pub lanes: [DdrDqPinMapElementLane; 8],
}

impl DdrDqPinMapElement {
    pub closed spec fn spec_lanes(self) -> [DdrDqPinMapElementLane; 8] {
        self.lanes
    }

}

impl DdrDqPinMapElement {
    /// The bytes that store this value on disk.
    pub closed spec fn spec_bytes(self) -> Seq<u8> {
        self.lanes[0].spec_to_bytes() + self.lanes[1].spec_to_bytes() + self.lanes[2].spec_to_bytes() + self.lanes[3].spec_to_bytes() + self.lanes[4].spec_to_bytes() + self.lanes[5].spec_to_bytes() + self.lanes[6].spec_to_bytes() + self.lanes[7].spec_to_bytes()
    }
}

impl ByteLayout for DdrDqPinMapElement {
    open spec fn spec_size() -> nat {
        64
    }

    open spec fn spec_to_bytes(self) -> Seq<u8> {
        self.spec_bytes()
    }

    fn size() -> (r: usize) {
        64
    }

    #[verifier::spinoff_prover]
    #[verifier::rlimit(60)]
    fn from_bytes(bytes: &[u8]) -> (r: Self) {
        let lanes: [DdrDqPinMapElementLane; 8] = [DdrDqPinMapElementLane::from_bytes(slice_subrange(bytes, 0, 8)), DdrDqPinMapElementLane::from_bytes(slice_subrange(bytes, 8, 16)), DdrDqPinMapElementLane::from_bytes(slice_subrange(bytes, 16, 24)), DdrDqPinMapElementLane::from_bytes(slice_subrange(bytes, 24, 32)), DdrDqPinMapElementLane::from_bytes(slice_subrange(bytes, 32, 40)), DdrDqPinMapElementLane::from_bytes(slice_subrange(bytes, 40, 48)), DdrDqPinMapElementLane::from_bytes(slice_subrange(bytes, 48, 56)), DdrDqPinMapElementLane::from_bytes(slice_subrange(bytes, 56, 64))];
        let r = DdrDqPinMapElement { lanes };
        proof {
            lemma_auto_spec_u16_to_from_le_bytes();
            lemma_auto_spec_u32_to_from_le_bytes();
            lemma_auto_spec_u64_to_from_le_bytes();
            lemma_ddr_dq_pin_map_element_bytes_pieces(r);
            assert(bytes@.subrange(0, 8) == lanes[0].spec_to_bytes());
            assert(bytes@.subrange(8, 16) == lanes[1].spec_to_bytes());
            assert(bytes@.subrange(16, 24) == lanes[2].spec_to_bytes());
            assert(bytes@.subrange(24, 32) == lanes[3].spec_to_bytes());
            assert(bytes@.subrange(32, 40) == lanes[4].spec_to_bytes());
            assert(bytes@.subrange(40, 48) == lanes[5].spec_to_bytes());
            assert(bytes@.subrange(48, 56) == lanes[6].spec_to_bytes());
            assert(bytes@.subrange(56, 64) == lanes[7].spec_to_bytes());
            assert(bytes@.subrange(0, 64) =~= bytes@);
            assert(bytes@ == r.spec_bytes());
        }
        r
    }

    #[verifier::spinoff_prover]
    #[verifier::rlimit(60)]
    fn to_bytes(&self) -> (r: Vec<u8>) {
        let mut out: Vec<u8> = Vec::new();
        let part = self.lanes[0].to_bytes();
        append_bytes(&mut out, part.as_slice());
        let part = self.lanes[1].to_bytes();
        append_bytes(&mut out, part.as_slice());
        let part = self.lanes[2].to_bytes();
        append_bytes(&mut out, part.as_slice());
        let part = self.lanes[3].to_bytes();
        append_bytes(&mut out, part.as_slice());
        let part = self.lanes[4].to_bytes();
        append_bytes(&mut out, part.as_slice());
        let part = self.lanes[5].to_bytes();
        append_bytes(&mut out, part.as_slice());
        let part = self.lanes[6].to_bytes();
        append_bytes(&mut out, part.as_slice());
        let part = self.lanes[7].to_bytes();
        append_bytes(&mut out, part.as_slice());
        proof {
            lemma_ddr_dq_pin_map_element_bytes_pieces(*self);
        }
        out
    }
}

/// How the bytes of a DdrDqPinMapElement split up into its fields.
pub proof fn lemma_ddr_dq_pin_map_element_bytes_pieces(x: DdrDqPinMapElement)
    ensures
        x.spec_bytes().len() == 64,
        x.spec_bytes().subrange(0, 64) == x.spec_lanes()[0].spec_to_bytes() + x.spec_lanes()[1].spec_to_bytes() + x.spec_lanes()[2].spec_to_bytes() + x.spec_lanes()[3].spec_to_bytes() + x.spec_lanes()[4].spec_to_bytes() + x.spec_lanes()[5].spec_to_bytes() + x.spec_lanes()[6].spec_to_bytes() + x.spec_lanes()[7].spec_to_bytes(),
{
    lemma_auto_spec_u16_to_from_le_bytes();
    lemma_auto_spec_u32_to_from_le_bytes();
    lemma_auto_spec_u64_to_from_le_bytes();
    lemma_ddr_dq_pin_map_element_lane_bytes_pieces(x.lanes[0]);
    lemma_ddr_dq_pin_map_element_lane_bytes_pieces(x.lanes[1]);
    lemma_ddr_dq_pin_map_element_lane_bytes_pieces(x.lanes[2]);
    lemma_ddr_dq_pin_map_element_lane_bytes_pieces(x.lanes[3]);
    lemma_ddr_dq_pin_map_element_lane_bytes_pieces(x.lanes[4]);
    lemma_ddr_dq_pin_map_element_lane_bytes_pieces(x.lanes[5]);
    lemma_ddr_dq_pin_map_element_lane_bytes_pieces(x.lanes[6]);
    lemma_ddr_dq_pin_map_element_lane_bytes_pieces(x.lanes[7]);
    assert(x.spec_bytes().subrange(0, 64) == x.lanes[0].spec_to_bytes() + x.lanes[1].spec_to_bytes() + x.lanes[2].spec_to_bytes() + x.lanes[3].spec_to_bytes() + x.lanes[4].spec_to_bytes() + x.lanes[5].spec_to_bytes() + x.lanes[6].spec_to_bytes() + x.lanes[7].spec_to_bytes());
}

/// Two values of DdrDqPinMapElement with the same bytes are the same value.
#[verifier::spinoff_prover]
#[verifier::rlimit(60)]
pub proof fn lemma_ddr_dq_pin_map_element_bytes_injective(x: DdrDqPinMapElement, y: DdrDqPinMapElement)
    requires
        x.spec_bytes() == y.spec_bytes(),
    ensures
        x == y,
{
    lemma_ddr_dq_pin_map_element_bytes_pieces(x);
    lemma_ddr_dq_pin_map_element_bytes_pieces(y);
    lemma_auto_spec_u16_to_from_le_bytes();
    lemma_auto_spec_u32_to_from_le_bytes();
    lemma_auto_spec_u64_to_from_le_bytes();
    lemma_ddr_dq_pin_map_element_lane_bytes_pieces(x.lanes[0]);
    lemma_ddr_dq_pin_map_element_lane_bytes_pieces(y.lanes[0]);
    assert(x.spec_bytes().subrange(0, 8) == x.lanes[0].spec_to_bytes());
    assert(y.spec_bytes().subrange(0, 8) == y.lanes[0].spec_to_bytes());
    lemma_ddr_dq_pin_map_element_lane_bytes_injective(x.lanes[0], y.lanes[0]);
    lemma_ddr_dq_pin_map_element_lane_bytes_pieces(x.lanes[1]);
    lemma_ddr_dq_pin_map_element_lane_bytes_pieces(y.lanes[1]);
    assert(x.spec_bytes().subrange(8, 16) == x.lanes[1].spec_to_bytes());
    assert(y.spec_bytes().subrange(8, 16) == y.lanes[1].spec_to_bytes());
    lemma_ddr_dq_pin_map_element_lane_bytes_injective(x.lanes[1], y.lanes[1]);
    lemma_ddr_dq_pin_map_element_lane_bytes_pieces(x.lanes[2]);
    lemma_ddr_dq_pin_map_element_lane_bytes_pieces(y.lanes[2]);
    assert(x.spec_bytes().subrange(16, 24) == x.lanes[2].spec_to_bytes());
    assert(y.spec_bytes().subrange(16, 24) == y.lanes[2].spec_to_bytes());
    lemma_ddr_dq_pin_map_element_lane_bytes_injective(x.lanes[2], y.lanes[2]);
    lemma_ddr_dq_pin_map_element_lane_bytes_pieces(x.lanes[3]);
    lemma_ddr_dq_pin_map_element_lane_bytes_pieces(y.lanes[3]);
    assert(x.spec_bytes().subrange(24, 32) == x.lanes[3].spec_to_bytes());
    assert(y.spec_bytes().subrange(24, 32) == y.lanes[3].spec_to_bytes());
    lemma_ddr_dq_pin_map_element_lane_bytes_injective(x.lanes[3], y.lanes[3]);
    lemma_ddr_dq_pin_map_element_lane_bytes_pieces(x.lanes[4]);
    lemma_ddr_dq_pin_map_element_lane_bytes_pieces(y.lanes[4]);
    assert(x.spec_bytes().subrange(32, 40) == x.lanes[4].spec_to_bytes());
    assert(y.spec_bytes().subrange(32, 40) == y.lanes[4].spec_to_bytes());
    lemma_ddr_dq_pin_map_element_lane_bytes_injective(x.lanes[4], y.lanes[4]);
    lemma_ddr_dq_pin_map_element_lane_bytes_pieces(x.lanes[5]);
    lemma_ddr_dq_pin_map_element_lane_bytes_pieces(y.lanes[5]);
    assert(x.spec_bytes().subrange(40, 48) == x.lanes[5].spec_to_bytes());
    assert(y.spec_bytes().subrange(40, 48) == y.lanes[5].spec_to_bytes());
    lemma_ddr_dq_pin_map_element_lane_bytes_injective(x.lanes[5], y.lanes[5]);
    lemma_ddr_dq_pin_map_element_lane_bytes_pieces(x.lanes[6]);
    lemma_ddr_dq_pin_map_element_lane_bytes_pieces(y.lanes[6]);
    assert(x.spec_bytes().subrange(48, 56) == x.lanes[6].spec_to_bytes());
    assert(y.spec_bytes().subrange(48, 56) == y.lanes[6].spec_to_bytes());
    lemma_ddr_dq_pin_map_element_lane_bytes_injective(x.lanes[6], y.lanes[6]);
    lemma_ddr_dq_pin_map_element_lane_bytes_pieces(x.lanes[7]);
    lemma_ddr_dq_pin_map_element_lane_bytes_pieces(y.lanes[7]);
    assert(x.spec_bytes().subrange(56, 64) == x.lanes[7].spec_to_bytes());
    assert(y.spec_bytes().subrange(56, 64) == y.lanes[7].spec_to_bytes());
    lemma_ddr_dq_pin_map_element_lane_bytes_injective(x.lanes[7], y.lanes[7]);
    assert(x.lanes =~= y.lanes);
}

impl Default for DdrDqPinMapElement {
    /// Lanes 0 to 3 map bits to pins 0 to 31 in order; lanes 4 to 7 repeat that.
    fn default() -> (r: Self)
        ensures
            r.spec_lanes()[0].spec_pins() == [0u8, 1u8, 2u8, 3u8, 4u8, 5u8, 6u8, 7u8],
            r.spec_lanes()[1].spec_pins() == [8u8, 9u8, 10u8, 11u8, 12u8, 13u8, 14u8, 15u8],
            r.spec_lanes()[2].spec_pins() == [16u8, 17u8, 18u8, 19u8, 20u8, 21u8, 22u8, 23u8],
            r.spec_lanes()[3].spec_pins() == [24u8, 25u8, 26u8, 27u8, 28u8, 29u8, 30u8, 31u8],
            r.spec_lanes()[4].spec_pins() == [0u8, 1u8, 2u8, 3u8, 4u8, 5u8, 6u8, 7u8],
            r.spec_lanes()[5].spec_pins() == [8u8, 9u8, 10u8, 11u8, 12u8, 13u8, 14u8, 15u8],
            r.spec_lanes()[6].spec_pins() == [16u8, 17u8, 18u8, 19u8, 20u8, 21u8, 22u8, 23u8],
            r.spec_lanes()[7].spec_pins() == [24u8, 25u8, 26u8, 27u8, 28u8, 29u8, 30u8, 31u8],
    {
        Self {
            lanes: [
                DdrDqPinMapElementLane::new([0, 1, 2, 3, 4, 5, 6, 7]),
                DdrDqPinMapElementLane::new([8, 9, 10, 11, 12, 13, 14, 15]),
                DdrDqPinMapElementLane::new([16, 17, 18, 19, 20, 21, 22, 23]),
                DdrDqPinMapElementLane::new([24, 25, 26, 27, 28, 29, 30, 31]),
                DdrDqPinMapElementLane::new([0, 1, 2, 3, 4, 5, 6, 7]),
                DdrDqPinMapElementLane::new([8, 9, 10, 11, 12, 13, 14, 15]),
                DdrDqPinMapElementLane::new([16, 17, 18, 19, 20, 21, 22, 23]),
                DdrDqPinMapElementLane::new([24, 25, 26, 27, 28, 29, 30, 31]),
            ],
        }
    }
}

impl EntryCompatible for DdrDqPinMapElement {
    fn is_entry_compatible(entry_id: EntryId, _prefix: &[u8]) -> (r: bool)
        ensures
            r == (entry_id == EntryId::Memory(MemoryEntryId::DdrDqPinMap)),
    {
        matches!(entry_id, EntryId::Memory(MemoryEntryId::DdrDqPinMap))
    }
}

/// The pins of the fourteen bits of one DDR5 command/address lane.
#[allow(non_camel_case_types)]
#[derive(Debug, Clone, Copy)]
pub struct Ddr5CaPinMapElementLane {
    pub pins: [u8; 14],
}

impl Ddr5CaPinMapElementLane {
    pub closed spec fn spec_pins(self) -> [u8; 14] {
        self.pins
    }

}

impl Ddr5CaPinMapElementLane {
    /// The bytes that store this value on disk.
    pub closed spec fn spec_bytes(self) -> Seq<u8> {
        self.pins@
    }
}

impl ByteLayout for Ddr5CaPinMapElementLane {
    open spec fn spec_size() -> nat {
        14
    }

    open spec fn spec_to_bytes(self) -> Seq<u8> {
        self.spec_bytes()
    }

    fn size() -> (r: usize) {
        14
    }

    #[verifier::spinoff_prover]
    fn from_bytes(bytes: &[u8]) -> (r: Self) {
        let pins: [u8; 14] = [bytes[0], bytes[1], bytes[2], bytes[3], bytes[4], bytes[5], bytes[6], bytes[7], bytes[8], bytes[9], bytes[10], bytes[11], bytes[12], bytes[13]];
        let r = Ddr5CaPinMapElementLane { pins };
        proof {
            lemma_auto_spec_u16_to_from_le_bytes();
            lemma_auto_spec_u32_to_from_le_bytes();
            lemma_auto_spec_u64_to_from_le_bytes();
            lemma_ddr5_ca_pin_map_element_lane_bytes_pieces(r);
            assert(bytes@.subrange(0, 14) =~= pins@);
            assert(bytes@.subrange(0, 14) =~= bytes@);
            assert(bytes@ == r.spec_bytes());
        }
        r
    }

    #[verifier::spinoff_prover]
    fn to_bytes(&self) -> (r: Vec<u8>) {
        let mut out: Vec<u8> = Vec::new();
        append_bytes(&mut out, &self.pins);
        proof {
            lemma_ddr5_ca_pin_map_element_lane_bytes_pieces(*self);
        }
        out
    }
}

/// How the bytes of a Ddr5CaPinMapElementLane split up into its fields.
pub proof fn lemma_ddr5_ca_pin_map_element_lane_bytes_pieces(x: Ddr5CaPinMapElementLane)
    ensures
        x.spec_bytes().len() == 14,
        x.spec_bytes().subrange(0, 14) == x.spec_pins()@,
{
    lemma_auto_spec_u16_to_from_le_bytes();
    lemma_auto_spec_u32_to_from_le_bytes();
    lemma_auto_spec_u64_to_from_le_bytes();
    assert(x.spec_bytes().subrange(0, 14) == x.pins@);
}

/// Two values of Ddr5CaPinMapElementLane with the same bytes are the same value.
#[verifier::spinoff_prover]
pub proof fn lemma_ddr5_ca_pin_map_element_lane_bytes_injective(x: Ddr5CaPinMapElementLane, y: Ddr5CaPinMapElementLane)
    requires
        x.spec_bytes() == y.spec_bytes(),
    ensures
        x == y,
{
    lemma_ddr5_ca_pin_map_element_lane_bytes_pieces(x);
    lemma_ddr5_ca_pin_map_element_lane_bytes_pieces(y);
    lemma_auto_spec_u16_to_from_le_bytes();
    lemma_auto_spec_u32_to_from_le_bytes();
    lemma_auto_spec_u64_to_from_le_bytes();
    assert(x.pins@ == x.spec_bytes().subrange(0, 14));
    assert(x.pins =~= y.pins);
}

impl Default for Ddr5CaPinMapElementLane {
    fn default() -> (r: Self)
        ensures
            r.spec_pins() == [0u8, 1u8, 2u8, 3u8, 4u8, 5u8, 6u8, 7u8, 8u8, 9u8, 10u8, 11u8, 12u8, 13u8],
    {
        Ddr5CaPinMapElementLane { pins: [0, 1, 2, 3, 4, 5, 6, 7, 8, 9, 10, 11, 12, 13] }
    }
}

/// The DDR5 command/address pin map: lanes[lane] holds the pin of each bit.
#[allow(non_camel_case_types)]
#[derive(Debug, Clone, Copy)]
pub struct Ddr5CaPinMapElement {
    pub lanes: [Ddr5CaPinMapElementLane; 2],
}

impl Ddr5CaPinMapElement {
    pub closed spec fn spec_lanes(self) -> [Ddr5CaPinMapElementLane; 2] {
        self.lanes
    }

}

impl Ddr5CaPinMapElement {
    /// The bytes that store this value on disk.
    pub closed spec fn spec_bytes(self) -> Seq<u8> {
        self.lanes[0].spec_to_bytes() + self.lanes[1].spec_to_bytes()
    }
}

impl ByteLayout for Ddr5CaPinMapElement {
    open spec fn spec_size() -> nat {
        28
    }

    open spec fn spec_to_bytes(self) -> Seq<u8> {
        self.spec_bytes()
    }

    fn size() -> (r: usize) {
        28
    }

    #[verifier::spinoff_prover]
    fn from_bytes(bytes: &[u8]) -> (r: Self) {
        let lanes: [Ddr5CaPinMapElementLane; 2] = [Ddr5CaPinMapElementLane::from_bytes(slice_subrange(bytes, 0, 14)), Ddr5CaPinMapElementLane::from_bytes(slice_subrange(bytes, 14, 28))];
        let r = Ddr5CaPinMapElement { lanes };
        proof {
            lemma_auto_spec_u16_to_from_le_bytes();
            lemma_auto_spec_u32_to_from_le_bytes();
            lemma_auto_spec_u64_to_from_le_bytes();
            lemma_ddr5_ca_pin_map_element_bytes_pieces(r);
            assert(bytes@.subrange(0, 14) == lanes[0].spec_to_bytes());
            assert(bytes@.subrange(14, 28) == lanes[1].spec_to_bytes());
            assert(bytes@.subrange(0, 28) =~= bytes@);
            assert(bytes@ == r.spec_bytes());
        }
        r
    }

    #[verifier::spinoff_prover]
    fn to_bytes(&self) -> (r: Vec<u8>) {
        let mut out: Vec<u8> = Vec::new();
        let part = self.lanes[0].to_bytes();
        append_bytes(&mut out, part.as_slice());
        let part = self.lanes[1].to_bytes();
        append_bytes(&mut out, part.as_slice());
        proof {
            lemma_ddr5_ca_pin_map_element_bytes_pieces(*self);
        }
        out
    }
}

/// How the bytes of a Ddr5CaPinMapElement split up into its fields.
pub proof fn lemma_ddr5_ca_pin_map_element_bytes_pieces(x: Ddr5CaPinMapElement)
    ensures
        x.spec_bytes().len() == 28,
        x.spec_bytes().subrange(0, 28) == x.spec_lanes()[0].spec_to_bytes() + x.spec_lanes()[1].spec_to_bytes(),
{
    lemma_auto_spec_u16_to_from_le_bytes();
    lemma_auto_spec_u32_to_from_le_bytes();
    lemma_auto_spec_u64_to_from_le_bytes();
    lemma_ddr5_ca_pin_map_element_lane_bytes_pieces(x.lanes[0]);
    lemma_ddr5_ca_pin_map_element_lane_bytes_pieces(x.lanes[1]);
    assert(x.spec_bytes().subrange(0, 28) == x.lanes[0].spec_to_bytes() + x.lanes[1].spec_to_bytes());
}

/// Two values of Ddr5CaPinMapElement with the same bytes are the same value.
#[verifier::spinoff_prover]
pub proof fn lemma_ddr5_ca_pin_map_element_bytes_injective(x: Ddr5CaPinMapElement, y: Ddr5CaPinMapElement)
    requires
        x.spec_bytes() == y.spec_bytes(),
    ensures
        x == y,
{
    lemma_ddr5_ca_pin_map_element_bytes_pieces(x);
    lemma_ddr5_ca_pin_map_element_bytes_pieces(y);
    lemma_auto_spec_u16_to_from_le_bytes();
    lemma_auto_spec_u32_to_from_le_bytes();
    lemma_auto_spec_u64_to_from_le_bytes();
    lemma_ddr5_ca_pin_map_element_lane_bytes_pieces(x.lanes[0]);
    lemma_ddr5_ca_pin_map_element_lane_bytes_pieces(y.lanes[0]);
    assert(x.spec_bytes().subrange(0, 14) == x.lanes[0].spec_to_bytes());
    assert(y.spec_bytes().subrange(0, 14) == y.lanes[0].spec_to_bytes());
    lemma_ddr5_ca_pin_map_element_lane_bytes_injective(x.lanes[0], y.lanes[0]);
    lemma_ddr5_ca_pin_map_element_lane_bytes_pieces(x.lanes[1]);
    lemma_ddr5_ca_pin_map_element_lane_bytes_pieces(y.lanes[1]);
    assert(x.spec_bytes().subrange(14, 28) == x.lanes[1].spec_to_bytes());
    assert(y.spec_bytes().subrange(14, 28) == y.lanes[1].spec_to_bytes());
    lemma_ddr5_ca_pin_map_element_lane_bytes_injective(x.lanes[1], y.lanes[1]);
    assert(x.lanes =~= y.lanes);
}

impl Default for Ddr5CaPinMapElement {
    fn default() -> (r: Self)
        ensures
            r.spec_lanes()[0].spec_pins() == [0u8, 1u8, 2u8, 3u8, 4u8, 5u8, 6u8, 7u8, 8u8, 9u8, 10u8, 11u8, 12u8, 13u8],
            r.spec_lanes()[1].spec_pins() == [0u8, 1u8, 2u8, 3u8, 4u8, 5u8, 6u8, 7u8, 8u8, 9u8, 10u8, 11u8, 12u8, 13u8],
    {
        Ddr5CaPinMapElement { lanes: [Ddr5CaPinMapElementLane::default(), Ddr5CaPinMapElementLane::default()] }
    }
}

impl EntryCompatible for Ddr5CaPinMapElement {
    fn is_entry_compatible(entry_id: EntryId, _prefix: &[u8]) -> (r: bool)
        ensures
            r == (entry_id == EntryId::Memory(MemoryEntryId::Ddr5CaPinMap)),
    {
        matches!(entry_id, EntryId::Memory(MemoryEntryId::Ddr5CaPinMap))
    }
}

/// The PMU built-in self test algorithms for the DRAM of one manufacturer (by JEDEC id).
#[allow(non_camel_case_types)]
#[derive(Debug, Clone, Copy, PartialEq, Eq, Structural)]
pub struct PmuBistVendorAlgorithmElement {
    pub(crate) dram_manufacturer_id: u16,
    pub(crate) algorithm_bit_mask: u16,
}

impl PmuBistVendorAlgorithmElement {
    pub closed spec fn spec_dram_manufacturer_id(self) -> u16 {
        self.dram_manufacturer_id
    }

    pub closed spec fn spec_algorithm_bit_mask(self) -> u16 {
        self.algorithm_bit_mask
    }

    pub fn dram_manufacturer_id(&self) -> (r: Result<u16>)
        ensures
            r == Ok::<u16, Error>(self.spec_dram_manufacturer_id()),
    {
        Ok(self.dram_manufacturer_id)
    }

    pub fn set_dram_manufacturer_id(&mut self, value: u16)
        ensures
            final(self).spec_dram_manufacturer_id() == value,
            final(self).spec_algorithm_bit_mask() == old(self).spec_algorithm_bit_mask(),
    {
        self.dram_manufacturer_id = value;
    }

    pub fn algorithm_bit_mask(&self) -> (r: Result<u16>)
        ensures
            r == Ok::<u16, Error>(self.spec_algorithm_bit_mask()),
    {
        Ok(self.algorithm_bit_mask)
    }

    pub fn set_algorithm_bit_mask(&mut self, value: u16)
        ensures
            final(self).spec_algorithm_bit_mask() == value,
            final(self).spec_dram_manufacturer_id() == old(self).spec_dram_manufacturer_id(),
    {
        self.algorithm_bit_mask = value;
    }

}

impl PmuBistVendorAlgorithmElement {
    /// The bytes that store this value on disk.
    pub closed spec fn spec_bytes(self) -> Seq<u8> {
        spec_u16_to_le_bytes(self.dram_manufacturer_id)
            + spec_u16_to_le_bytes(self.algorithm_bit_mask)
    }
}

impl ByteLayout for PmuBistVendorAlgorithmElement {
    open spec fn spec_size() -> nat {
        4
    }

    open spec fn spec_to_bytes(self) -> Seq<u8> {
        self.spec_bytes()
    }

    fn size() -> (r: usize) {
        4
    }

    #[verifier::spinoff_prover]
    fn from_bytes(bytes: &[u8]) -> (r: Self) {
        let dram_manufacturer_id: u16 = u16_from_le_bytes(slice_subrange(bytes, 0, 2));
        let algorithm_bit_mask: u16 = u16_from_le_bytes(slice_subrange(bytes, 2, 4));
        let r = PmuBistVendorAlgorithmElement { dram_manufacturer_id, algorithm_bit_mask };
        proof {
            lemma_auto_spec_u16_to_from_le_bytes();
            lemma_auto_spec_u32_to_from_le_bytes();
            lemma_auto_spec_u64_to_from_le_bytes();
            lemma_pmu_bist_vendor_algorithm_element_bytes_pieces(r);
            assert(bytes@.subrange(0, 2) == spec_u16_to_le_bytes(dram_manufacturer_id));
            assert(bytes@.subrange(2, 4) == spec_u16_to_le_bytes(algorithm_bit_mask));
            assert(bytes@.subrange(0, 4) =~= bytes@.subrange(0, 2) + bytes@.subrange(2, 4));
            assert(bytes@.subrange(0, 4) =~= bytes@);
            assert(bytes@ == r.spec_bytes());
        }
        r
    }

    #[verifier::spinoff_prover]
    fn to_bytes(&self) -> (r: Vec<u8>) {
        let mut out: Vec<u8> = Vec::new();
        append_bytes(&mut out, &le_bytes_u16(self.dram_manufacturer_id));
        append_bytes(&mut out, &le_bytes_u16(self.algorithm_bit_mask));
        proof {
            lemma_pmu_bist_vendor_algorithm_element_bytes_pieces(*self);
        }
        out
    }
}

/// How the bytes of a PmuBistVendorAlgorithmElement split up into its fields.
pub proof fn lemma_pmu_bist_vendor_algorithm_element_bytes_pieces(x: PmuBistVendorAlgorithmElement)
    ensures
        x.spec_bytes().len() == 4,
        x.spec_bytes().subrange(0, 2) == spec_u16_to_le_bytes(x.spec_dram_manufacturer_id()),
        x.spec_bytes().subrange(2, 4) == spec_u16_to_le_bytes(x.spec_algorithm_bit_mask()),
{
    lemma_auto_spec_u16_to_from_le_bytes();
    lemma_auto_spec_u32_to_from_le_bytes();
    lemma_auto_spec_u64_to_from_le_bytes();
    assert(x.spec_bytes().subrange(0, 2) == spec_u16_to_le_bytes(x.dram_manufacturer_id));
    assert(x.spec_bytes().subrange(2, 4) == spec_u16_to_le_bytes(x.algorithm_bit_mask));
}

/// Two values of PmuBistVendorAlgorithmElement with the same bytes are the same value.
#[verifier::spinoff_prover]
pub proof fn lemma_pmu_bist_vendor_algorithm_element_bytes_injective(x: PmuBistVendorAlgorithmElement, y: PmuBistVendorAlgorithmElement)
    requires
        x.spec_bytes() == y.spec_bytes(),
    ensures
        x == y,
{
    lemma_pmu_bist_vendor_algorithm_element_bytes_pieces(x);
    lemma_pmu_bist_vendor_algorithm_element_bytes_pieces(y);
    lemma_auto_spec_u16_to_from_le_bytes();
    lemma_auto_spec_u32_to_from_le_bytes();
    lemma_auto_spec_u64_to_from_le_bytes();
    assert(spec_u16_from_le_bytes(spec_u16_to_le_bytes(x.dram_manufacturer_id)) == spec_u16_from_le_bytes(spec_u16_to_le_bytes(y.dram_manufacturer_id)));
    assert(spec_u16_from_le_bytes(spec_u16_to_le_bytes(x.algorithm_bit_mask)) == spec_u16_from_le_bytes(spec_u16_to_le_bytes(y.algorithm_bit_mask)));
}

impl Default for PmuBistVendorAlgorithmElement {
    fn default() -> (r: Self)
        ensures
            r.spec_dram_manufacturer_id() == 0,
            r.spec_algorithm_bit_mask() == 0,
    {
        PmuBistVendorAlgorithmElement { dram_manufacturer_id: 0, algorithm_bit_mask: 0 }
    }
}

impl EntryCompatible for PmuBistVendorAlgorithmElement {
    fn is_entry_compatible(entry_id: EntryId, _prefix: &[u8]) -> (r: bool)
        ensures
            r == (entry_id == EntryId::Memory(MemoryEntryId::PmuBistVendorAlgorithm)),
    {
        matches!(entry_id, EntryId::Memory(MemoryEntryId::PmuBistVendorAlgorithm))
    }
}

/// The header of a DDR5 raw card configuration element: which DIMMs it applies to.
#[allow(non_camel_case_types)]
#[derive(Debug, Clone, Copy, PartialEq, Eq, Structural)]
pub struct Ddr5RawCardConfigElementHeader32 {
    pub(crate) total_size: u32,
    pub mem_clk: u32,
    pub dimm_type: u8,
    pub dev_width: u8,
    pub _reserved_1: u8,
    pub _reserved_2: u8,
    pub rcd_manufacturer_id: u32,
    pub rcd_generation: u8,
    pub _reserved_3: u8,
    pub _reserved_4: u8,
    pub _reserved_5: u8,
    pub raw_card_dev: u32,
    pub dram_die_stepping_revision: u32,
    pub dram_density: u8,
    pub _reserved_6: u8,
    pub _reserved_7: u8,
    pub _reserved_8: u8,
}

impl Ddr5RawCardConfigElementHeader32 {
    pub closed spec fn spec_total_size(self) -> u32 {
        self.total_size
    }

    pub closed spec fn spec_mem_clk(self) -> u32 {
        self.mem_clk
    }

    pub closed spec fn spec_dimm_type(self) -> u8 {
        self.dimm_type
    }

    pub closed spec fn spec_dev_width(self) -> u8 {
        self.dev_width
    }

    pub closed spec fn spec__reserved_1(self) -> u8 {
        self._reserved_1
    }

    pub closed spec fn spec__reserved_2(self) -> u8 {
        self._reserved_2
    }

    pub closed spec fn spec_rcd_manufacturer_id(self) -> u32 {
        self.rcd_manufacturer_id
    }

    pub closed spec fn spec_rcd_generation(self) -> u8 {
        self.rcd_generation
    }

    pub closed spec fn spec__reserved_3(self) -> u8 {
        self._reserved_3
    }

    pub closed spec fn spec__reserved_4(self) -> u8 {
        self._reserved_4
    }

    pub closed spec fn spec__reserved_5(self) -> u8 {
        self._reserved_5
    }

    pub closed spec fn spec_raw_card_dev(self) -> u32 {
        self.raw_card_dev
    }

    pub closed spec fn spec_dram_die_stepping_revision(self) -> u32 {
        self.dram_die_stepping_revision
    }

    pub closed spec fn spec_dram_density(self) -> u8 {
        self.dram_density
    }

    pub closed spec fn spec__reserved_6(self) -> u8 {
        self._reserved_6
    }

    pub closed spec fn spec__reserved_7(self) -> u8 {
        self._reserved_7
    }

    pub closed spec fn spec__reserved_8(self) -> u8 {
        self._reserved_8
    }

    pub fn mem_clk(&self) -> (r: Result<DdrSpeed>)
        ensures
            r == match DdrSpeed::spec_from_u64(self.spec_mem_clk() as u64) {
                Some(e) => Ok::<DdrSpeed, Error>(e),
                None => Err(Error::EntryTypeMismatch),
            },
    {
        match DdrSpeed::from_u64(self.mem_clk as u64) {
            Some(e) => Ok(e),
            None => Err(Error::EntryTypeMismatch),
        }
    }

    pub fn set_mem_clk(&mut self, value: DdrSpeed)
        ensures
            final(self).spec_mem_clk() == value.spec_to_u64() as u32,
            final(self).spec_total_size() == old(self).spec_total_size(),
            final(self).spec_dimm_type() == old(self).spec_dimm_type(),
            final(self).spec_dev_width() == old(self).spec_dev_width(),
            final(self).spec__reserved_1() == old(self).spec__reserved_1(),
            final(self).spec__reserved_2() == old(self).spec__reserved_2(),
            final(self).spec_rcd_manufacturer_id() == old(self).spec_rcd_manufacturer_id(),
            final(self).spec_rcd_generation() == old(self).spec_rcd_generation(),
            final(self).spec__reserved_3() == old(self).spec__reserved_3(),
            final(self).spec__reserved_4() == old(self).spec__reserved_4(),
            final(self).spec__reserved_5() == old(self).spec__reserved_5(),
            final(self).spec_raw_card_dev() == old(self).spec_raw_card_dev(),
            final(self).spec_dram_die_stepping_revision() == old(self).spec_dram_die_stepping_revision(),
            final(self).spec_dram_density() == old(self).spec_dram_density(),
            final(self).spec__reserved_6() == old(self).spec__reserved_6(),
            final(self).spec__reserved_7() == old(self).spec__reserved_7(),
            final(self).spec__reserved_8() == old(self).spec__reserved_8(),
    {
        self.mem_clk = value.to_u64().unwrap() as u32;
    }

}

impl Ddr5RawCardConfigElementHeader32 {
    /// The bytes that store this value on disk.
    pub closed spec fn spec_bytes(self) -> Seq<u8> {
        spec_u32_to_le_bytes(self.total_size)
            + spec_u32_to_le_bytes(self.mem_clk)
            + seq![self.dimm_type]
            + seq![self.dev_width]
            + seq![self._reserved_1]
            + seq![self._reserved_2]
            + spec_u32_to_le_bytes(self.rcd_manufacturer_id)
            + seq![self.rcd_generation]
            + seq![self._reserved_3]
            + seq![self._reserved_4]
            + seq![self._reserved_5]
            + spec_u32_to_le_bytes(self.raw_card_dev)
            + spec_u32_to_le_bytes(self.dram_die_stepping_revision)
            + seq![self.dram_density]
            + seq![self._reserved_6]
            + seq![self._reserved_7]
            + seq![self._reserved_8]
    }
}

impl ByteLayout for Ddr5RawCardConfigElementHeader32 {
    open spec fn spec_size() -> nat {
        32
    }

    open spec fn spec_to_bytes(self) -> Seq<u8> {
        self.spec_bytes()
    }

    fn size() -> (r: usize) {
        32
    }

    #[verifier::spinoff_prover]
    fn from_bytes(bytes: &[u8]) -> (r: Self) {
        let total_size: u32 = u32_from_le_bytes(slice_subrange(bytes, 0, 4));
        let mem_clk: u32 = u32_from_le_bytes(slice_subrange(bytes, 4, 8));
        let dimm_type: u8 = bytes[8];
        let dev_width: u8 = bytes[9];
        let _reserved_1: u8 = bytes[10];
        let _reserved_2: u8 = bytes[11];
        let rcd_manufacturer_id: u32 = u32_from_le_bytes(slice_subrange(bytes, 12, 16));
        let rcd_generation: u8 = bytes[16];
        let _reserved_3: u8 = bytes[17];
        let _reserved_4: u8 = bytes[18];
        let _reserved_5: u8 = bytes[19];
        let raw_card_dev: u32 = u32_from_le_bytes(slice_subrange(bytes, 20, 24));
        let dram_die_stepping_revision: u32 = u32_from_le_bytes(slice_subrange(bytes, 24, 28));
        let dram_density: u8 = bytes[28];
        let _reserved_6: u8 = bytes[29];
        let _reserved_7: u8 = bytes[30];
        let _reserved_8: u8 = bytes[31];
        let r = Ddr5RawCardConfigElementHeader32 { total_size, mem_clk, dimm_type, dev_width, _reserved_1, _reserved_2, rcd_manufacturer_id, rcd_generation, _reserved_3, _reserved_4, _reserved_5, raw_card_dev, dram_die_stepping_revision, dram_density, _reserved_6, _reserved_7, _reserved_8 };
        proof {
            lemma_auto_spec_u16_to_from_le_bytes();
            lemma_auto_spec_u32_to_from_le_bytes();
            lemma_auto_spec_u64_to_from_le_bytes();
            lemma_ddr5_raw_card_config_element_header32_bytes_pieces(r);
            assert(bytes@.subrange(0, 4) == spec_u32_to_le_bytes(total_size));
            assert(bytes@.subrange(4, 8) == spec_u32_to_le_bytes(mem_clk));
            assert(bytes@.subrange(12, 16) == spec_u32_to_le_bytes(rcd_manufacturer_id));
            assert(bytes@.subrange(20, 24) == spec_u32_to_le_bytes(raw_card_dev));
            assert(bytes@.subrange(24, 28) == spec_u32_to_le_bytes(dram_die_stepping_revision));
            assert(bytes@.subrange(0, 8) =~= bytes@.subrange(0, 4) + bytes@.subrange(4, 8));
            assert(bytes@.subrange(0, 9) =~= bytes@.subrange(0, 8) + bytes@.subrange(8, 9));
            assert(bytes@.subrange(0, 10) =~= bytes@.subrange(0, 9) + bytes@.subrange(9, 10));
            assert(bytes@.subrange(0, 11) =~= bytes@.subrange(0, 10) + bytes@.subrange(10, 11));
            assert(bytes@.subrange(0, 12) =~= bytes@.subrange(0, 11) + bytes@.subrange(11, 12));
            assert(bytes@.subrange(0, 16) =~= bytes@.subrange(0, 12) + bytes@.subrange(12, 16));
            assert(bytes@.subrange(0, 17) =~= bytes@.subrange(0, 16) + bytes@.subrange(16, 17));
            assert(bytes@.subrange(0, 18) =~= bytes@.subrange(0, 17) + bytes@.subrange(17, 18));
            assert(bytes@.subrange(0, 19) =~= bytes@.subrange(0, 18) + bytes@.subrange(18, 19));
            assert(bytes@.subrange(0, 20) =~= bytes@.subrange(0, 19) + bytes@.subrange(19, 20));
            assert(bytes@.subrange(0, 24) =~= bytes@.subrange(0, 20) + bytes@.subrange(20, 24));
            assert(bytes@.subrange(0, 28) =~= bytes@.subrange(0, 24) + bytes@.subrange(24, 28));
            assert(bytes@.subrange(0, 29) =~= bytes@.subrange(0, 28) + bytes@.subrange(28, 29));
            assert(bytes@.subrange(0, 30) =~= bytes@.subrange(0, 29) + bytes@.subrange(29, 30));
            assert(bytes@.subrange(0, 31) =~= bytes@.subrange(0, 30) + bytes@.subrange(30, 31));
            assert(bytes@.subrange(0, 32) =~= bytes@.subrange(0, 31) + bytes@.subrange(31, 32));
            assert(bytes@.subrange(0, 32) =~= bytes@);
            assert(bytes@ == r.spec_bytes());
        }
        r
    }

    #[verifier::spinoff_prover]
    fn to_bytes(&self) -> (r: Vec<u8>) {
        let mut out: Vec<u8> = Vec::new();
        append_bytes(&mut out, &le_bytes_u32(self.total_size));
        append_bytes(&mut out, &le_bytes_u32(self.mem_clk));
        out.push(self.dimm_type);
        out.push(self.dev_width);
        out.push(self._reserved_1);
        out.push(self._reserved_2);
        append_bytes(&mut out, &le_bytes_u32(self.rcd_manufacturer_id));
        out.push(self.rcd_generation);
        out.push(self._reserved_3);
        out.push(self._reserved_4);
        out.push(self._reserved_5);
        append_bytes(&mut out, &le_bytes_u32(self.raw_card_dev));
        append_bytes(&mut out, &le_bytes_u32(self.dram_die_stepping_revision));
        out.push(self.dram_density);
        out.push(self._reserved_6);
        out.push(self._reserved_7);
        out.push(self._reserved_8);
        proof {
            lemma_ddr5_raw_card_config_element_header32_bytes_pieces(*self);
        }
        out
    }
}

/// How the bytes of a Ddr5RawCardConfigElementHeader32 split up into its fields.
pub proof fn lemma_ddr5_raw_card_config_element_header32_bytes_pieces(x: Ddr5RawCardConfigElementHeader32)
    ensures
        x.spec_bytes().len() == 32,
        x.spec_bytes().subrange(0, 4) == spec_u32_to_le_bytes(x.spec_total_size()),
        x.spec_bytes().subrange(4, 8) == spec_u32_to_le_bytes(x.spec_mem_clk()),
        x.spec_bytes()[8] == x.spec_dimm_type(),
        x.spec_bytes()[9] == x.spec_dev_width(),
        x.spec_bytes()[10] == x.spec__reserved_1(),
        x.spec_bytes()[11] == x.spec__reserved_2(),
        x.spec_bytes().subrange(12, 16) == spec_u32_to_le_bytes(x.spec_rcd_manufacturer_id()),
        x.spec_bytes()[16] == x.spec_rcd_generation(),
        x.spec_bytes()[17] == x.spec__reserved_3(),
        x.spec_bytes()[18] == x.spec__reserved_4(),
        x.spec_bytes()[19] == x.spec__reserved_5(),
        x.spec_bytes().subrange(20, 24) == spec_u32_to_le_bytes(x.spec_raw_card_dev()),
        x.spec_bytes().subrange(24, 28) == spec_u32_to_le_bytes(x.spec_dram_die_stepping_revision()),
        x.spec_bytes()[28] == x.spec_dram_density(),
        x.spec_bytes()[29] == x.spec__reserved_6(),
        x.spec_bytes()[30] == x.spec__reserved_7(),
        x.spec_bytes()[31] == x.spec__reserved_8(),
{
    lemma_auto_spec_u16_to_from_le_bytes();
    lemma_auto_spec_u32_to_from_le_bytes();
    lemma_auto_spec_u64_to_from_le_bytes();
    assert(x.spec_bytes().subrange(0, 4) == spec_u32_to_le_bytes(x.total_size));
    assert(x.spec_bytes().subrange(4, 8) == spec_u32_to_le_bytes(x.mem_clk));
    assert(x.spec_bytes().subrange(12, 16) == spec_u32_to_le_bytes(x.rcd_manufacturer_id));
    assert(x.spec_bytes().subrange(20, 24) == spec_u32_to_le_bytes(x.raw_card_dev));
    assert(x.spec_bytes().subrange(24, 28) == spec_u32_to_le_bytes(x.dram_die_stepping_revision));
}

/// Two values of Ddr5RawCardConfigElementHeader32 with the same bytes are the same value.
#[verifier::spinoff_prover]
pub proof fn lemma_ddr5_raw_card_config_element_header32_bytes_injective(x: Ddr5RawCardConfigElementHeader32, y: Ddr5RawCardConfigElementHeader32)
    requires
        x.spec_bytes() == y.spec_bytes(),
    ensures
        x == y,
{
    lemma_ddr5_raw_card_config_element_header32_bytes_pieces(x);
    lemma_ddr5_raw_card_config_element_header32_bytes_pieces(y);
    lemma_auto_spec_u16_to_from_le_bytes();
    lemma_auto_spec_u32_to_from_le_bytes();
    lemma_auto_spec_u64_to_from_le_bytes();
    assert(spec_u32_from_le_bytes(spec_u32_to_le_bytes(x.total_size)) == spec_u32_from_le_bytes(spec_u32_to_le_bytes(y.total_size)));
    assert(spec_u32_from_le_bytes(spec_u32_to_le_bytes(x.mem_clk)) == spec_u32_from_le_bytes(spec_u32_to_le_bytes(y.mem_clk)));
    assert(x.dimm_type == y.dimm_type);
    assert(x.dev_width == y.dev_width);
    assert(x._reserved_1 == y._reserved_1);
    assert(x._reserved_2 == y._reserved_2);
    assert(spec_u32_from_le_bytes(spec_u32_to_le_bytes(x.rcd_manufacturer_id)) == spec_u32_from_le_bytes(spec_u32_to_le_bytes(y.rcd_manufacturer_id)));
    assert(x.rcd_generation == y.rcd_generation);
    assert(x._reserved_3 == y._reserved_3);
    assert(x._reserved_4 == y._reserved_4);
    assert(x._reserved_5 == y._reserved_5);
    assert(spec_u32_from_le_bytes(spec_u32_to_le_bytes(x.raw_card_dev)) == spec_u32_from_le_bytes(spec_u32_to_le_bytes(y.raw_card_dev)));
    assert(spec_u32_from_le_bytes(spec_u32_to_le_bytes(x.dram_die_stepping_revision)) == spec_u32_from_le_bytes(spec_u32_to_le_bytes(y.dram_die_stepping_revision)));
    assert(x.dram_density == y.dram_density);
    assert(x._reserved_6 == y._reserved_6);
    assert(x._reserved_7 == y._reserved_7);
    assert(x._reserved_8 == y._reserved_8);
}

impl Default for Ddr5RawCardConfigElementHeader32 {
    fn default() -> (r: Self)
        ensures
            r.spec_total_size() == 0,
            r.spec_mem_clk() == 0,
            r.spec_dimm_type() == 0,
            r.spec_dev_width() == 0,
            r.spec__reserved_1() == 0,
            r.spec__reserved_2() == 0,
            r.spec_rcd_manufacturer_id() == 0,
            r.spec_rcd_generation() == 0,
            r.spec__reserved_3() == 0,
            r.spec__reserved_4() == 0,
            r.spec__reserved_5() == 0,
            r.spec_raw_card_dev() == 0,
            r.spec_dram_die_stepping_revision() == 0,
            r.spec_dram_density() == 0,
            r.spec__reserved_6() == 0,
            r.spec__reserved_7() == 0,
            r.spec__reserved_8() == 0,
    {
        Ddr5RawCardConfigElementHeader32 { total_size: 0, mem_clk: 0, dimm_type: 0, dev_width: 0, _reserved_1: 0, _reserved_2: 0, rcd_manufacturer_id: 0, rcd_generation: 0, _reserved_3: 0, _reserved_4: 0, _reserved_5: 0, raw_card_dev: 0, dram_die_stepping_revision: 0, dram_density: 0, _reserved_6: 0, _reserved_7: 0, _reserved_8: 0 }
    }
}

/// An impedance of a DDR5 raw card signal.
#[derive(Debug, PartialEq, Eq, Clone, Copy, Structural)]
pub enum Ddr5RawCardImpedance {
    Off,
    _10Ohm,
    _14Ohm,
    _20Ohm,
    _25Ohm,
    _26Ohm,
    _27Ohm,
    _28Ohm,
    _30Ohm,
    _32Ohm,
    _34Ohm,
    _36Ohm,
    _40Ohm,
    _43Ohm,
    _48Ohm,
    _53Ohm,
    _60Ohm,
    _68Ohm,
    _80Ohm,
    _96Ohm,
    _120Ohm,
    _160Ohm,
    _240Ohm,
    _480Ohm,
}

impl Ddr5RawCardImpedance {
    /// The number that stands for this value.
    pub open spec fn spec_to_u64(self) -> u64 {
        match self {
            Ddr5RawCardImpedance::Off => 0x0,
            Ddr5RawCardImpedance::_10Ohm => 0xa,
            Ddr5RawCardImpedance::_14Ohm => 0xe,
            Ddr5RawCardImpedance::_20Ohm => 0x14,
            Ddr5RawCardImpedance::_25Ohm => 0x19,
            Ddr5RawCardImpedance::_26Ohm => 0x1a,
            Ddr5RawCardImpedance::_27Ohm => 0x1b,
            Ddr5RawCardImpedance::_28Ohm => 0x1c,
            Ddr5RawCardImpedance::_30Ohm => 0x1e,
            Ddr5RawCardImpedance::_32Ohm => 0x20,
            Ddr5RawCardImpedance::_34Ohm => 0x22,
            Ddr5RawCardImpedance::_36Ohm => 0x24,
            Ddr5RawCardImpedance::_40Ohm => 0x28,
            Ddr5RawCardImpedance::_43Ohm => 0x2b,
            Ddr5RawCardImpedance::_48Ohm => 0x30,
            Ddr5RawCardImpedance::_53Ohm => 0x35,
            Ddr5RawCardImpedance::_60Ohm => 0x3c,
            Ddr5RawCardImpedance::_68Ohm => 0x44,
            Ddr5RawCardImpedance::_80Ohm => 0x50,
            Ddr5RawCardImpedance::_96Ohm => 0x60,
            Ddr5RawCardImpedance::_120Ohm => 0x78,
            Ddr5RawCardImpedance::_160Ohm => 0xa0,
            Ddr5RawCardImpedance::_240Ohm => 0xf0,
            Ddr5RawCardImpedance::_480Ohm => 0x1e0,
        }
    }

    /// The value that VALUE stands for, if any.
    pub open spec fn spec_from_u64(value: u64) -> Option<Ddr5RawCardImpedance> {
        match value {
            0x0 => Some(Ddr5RawCardImpedance::Off),
            0xa => Some(Ddr5RawCardImpedance::_10Ohm),
            0xe => Some(Ddr5RawCardImpedance::_14Ohm),
            0x14 => Some(Ddr5RawCardImpedance::_20Ohm),
            0x19 => Some(Ddr5RawCardImpedance::_25Ohm),
            0x1a => Some(Ddr5RawCardImpedance::_26Ohm),
            0x1b => Some(Ddr5RawCardImpedance::_27Ohm),
            0x1c => Some(Ddr5RawCardImpedance::_28Ohm),
            0x1e => Some(Ddr5RawCardImpedance::_30Ohm),
            0x20 => Some(Ddr5RawCardImpedance::_32Ohm),
            0x22 => Some(Ddr5RawCardImpedance::_34Ohm),
            0x24 => Some(Ddr5RawCardImpedance::_36Ohm),
            0x28 => Some(Ddr5RawCardImpedance::_40Ohm),
            0x2b => Some(Ddr5RawCardImpedance::_43Ohm),
            0x30 => Some(Ddr5RawCardImpedance::_48Ohm),
            0x35 => Some(Ddr5RawCardImpedance::_53Ohm),
            0x3c => Some(Ddr5RawCardImpedance::_60Ohm),
            0x44 => Some(Ddr5RawCardImpedance::_68Ohm),
            0x50 => Some(Ddr5RawCardImpedance::_80Ohm),
            0x60 => Some(Ddr5RawCardImpedance::_96Ohm),
            0x78 => Some(Ddr5RawCardImpedance::_120Ohm),
            0xa0 => Some(Ddr5RawCardImpedance::_160Ohm),
            0xf0 => Some(Ddr5RawCardImpedance::_240Ohm),
            0x1e0 => Some(Ddr5RawCardImpedance::_480Ohm),
            _ => None,
        }
    }

    pub fn from_u64(value: u64) -> (r: Option<Ddr5RawCardImpedance>)
        ensures
            r == Ddr5RawCardImpedance::spec_from_u64(value),
    {
        match value {
            0x0 => Some(Ddr5RawCardImpedance::Off),
            0xa => Some(Ddr5RawCardImpedance::_10Ohm),
            0xe => Some(Ddr5RawCardImpedance::_14Ohm),
            0x14 => Some(Ddr5RawCardImpedance::_20Ohm),
            0x19 => Some(Ddr5RawCardImpedance::_25Ohm),
            0x1a => Some(Ddr5RawCardImpedance::_26Ohm),
            0x1b => Some(Ddr5RawCardImpedance::_27Ohm),
            0x1c => Some(Ddr5RawCardImpedance::_28Ohm),
            0x1e => Some(Ddr5RawCardImpedance::_30Ohm),
            0x20 => Some(Ddr5RawCardImpedance::_32Ohm),
            0x22 => Some(Ddr5RawCardImpedance::_34Ohm),
            0x24 => Some(Ddr5RawCardImpedance::_36Ohm),
            0x28 => Some(Ddr5RawCardImpedance::_40Ohm),
            0x2b => Some(Ddr5RawCardImpedance::_43Ohm),
            0x30 => Some(Ddr5RawCardImpedance::_48Ohm),
            0x35 => Some(Ddr5RawCardImpedance::_53Ohm),
            0x3c => Some(Ddr5RawCardImpedance::_60Ohm),
            0x44 => Some(Ddr5RawCardImpedance::_68Ohm),
            0x50 => Some(Ddr5RawCardImpedance::_80Ohm),
            0x60 => Some(Ddr5RawCardImpedance::_96Ohm),
            0x78 => Some(Ddr5RawCardImpedance::_120Ohm),
            0xa0 => Some(Ddr5RawCardImpedance::_160Ohm),
            0xf0 => Some(Ddr5RawCardImpedance::_240Ohm),
            0x1e0 => Some(Ddr5RawCardImpedance::_480Ohm),
            _ => None,
        }
    }

    pub fn to_u64(&self) -> (r: Option<u64>)
        ensures
            r == Some(self.spec_to_u64()),
    {
        Some(
            match self {
                Ddr5RawCardImpedance::Off => 0x0,
                Ddr5RawCardImpedance::_10Ohm => 0xa,
                Ddr5RawCardImpedance::_14Ohm => 0xe,
                Ddr5RawCardImpedance::_20Ohm => 0x14,
                Ddr5RawCardImpedance::_25Ohm => 0x19,
                Ddr5RawCardImpedance::_26Ohm => 0x1a,
                Ddr5RawCardImpedance::_27Ohm => 0x1b,
                Ddr5RawCardImpedance::_28Ohm => 0x1c,
                Ddr5RawCardImpedance::_30Ohm => 0x1e,
                Ddr5RawCardImpedance::_32Ohm => 0x20,
                Ddr5RawCardImpedance::_34Ohm => 0x22,
                Ddr5RawCardImpedance::_36Ohm => 0x24,
                Ddr5RawCardImpedance::_40Ohm => 0x28,
                Ddr5RawCardImpedance::_43Ohm => 0x2b,
                Ddr5RawCardImpedance::_48Ohm => 0x30,
                Ddr5RawCardImpedance::_53Ohm => 0x35,
                Ddr5RawCardImpedance::_60Ohm => 0x3c,
                Ddr5RawCardImpedance::_68Ohm => 0x44,
                Ddr5RawCardImpedance::_80Ohm => 0x50,
                Ddr5RawCardImpedance::_96Ohm => 0x60,
                Ddr5RawCardImpedance::_120Ohm => 0x78,
                Ddr5RawCardImpedance::_160Ohm => 0xa0,
                Ddr5RawCardImpedance::_240Ohm => 0xf0,
                Ddr5RawCardImpedance::_480Ohm => 0x1e0,
            },
        )
    }
}

/// Every value of Ddr5RawCardImpedance is read back from its own number, and every number that is
/// read as a value is that value's number.
pub proof fn lemma_ddr5_raw_card_impedance_roundtrip(x: Ddr5RawCardImpedance, value: u64)
    ensures
        Ddr5RawCardImpedance::spec_from_u64(x.spec_to_u64()) == Some(x),
        Ddr5RawCardImpedance::spec_from_u64(value) matches Some(y) ==> y.spec_to_u64() == value,
{
}

impl Ddr5RawCardImpedance {
    /// What the name of this value says: the impedance, in ohms (0 for the values that do not name one).
    pub open spec fn spec_ohms(self) -> int {
        match self {
            Ddr5RawCardImpedance::_10Ohm => 10,
            Ddr5RawCardImpedance::_14Ohm => 14,
            Ddr5RawCardImpedance::_20Ohm => 20,
            Ddr5RawCardImpedance::_25Ohm => 25,
            Ddr5RawCardImpedance::_26Ohm => 26,
            Ddr5RawCardImpedance::_27Ohm => 27,
            Ddr5RawCardImpedance::_28Ohm => 28,
            Ddr5RawCardImpedance::_30Ohm => 30,
            Ddr5RawCardImpedance::_32Ohm => 32,
            Ddr5RawCardImpedance::_34Ohm => 34,
            Ddr5RawCardImpedance::_36Ohm => 36,
            Ddr5RawCardImpedance::_40Ohm => 40,
            Ddr5RawCardImpedance::_43Ohm => 43,
            Ddr5RawCardImpedance::_48Ohm => 48,
            Ddr5RawCardImpedance::_53Ohm => 53,
            Ddr5RawCardImpedance::_60Ohm => 60,
            Ddr5RawCardImpedance::_68Ohm => 68,
            Ddr5RawCardImpedance::_80Ohm => 80,
            Ddr5RawCardImpedance::_96Ohm => 96,
            Ddr5RawCardImpedance::_120Ohm => 120,
            Ddr5RawCardImpedance::_160Ohm => 160,
            Ddr5RawCardImpedance::_240Ohm => 240,
            Ddr5RawCardImpedance::_480Ohm => 480,
            Ddr5RawCardImpedance::Off => 0,
        }
    }
}

/// The number of each value follows from what its name says: 1 times the number is
/// 1 times the named quantity plus 0 for the values that name one; each other value has a number of its own.
pub proof fn lemma_ddr5_raw_card_impedance_numbers_follow_names(x: Ddr5RawCardImpedance)
    ensures
        (x != Ddr5RawCardImpedance::Off) ==> x.spec_to_u64() == x.spec_ohms(),
        x == Ddr5RawCardImpedance::Off <==> x.spec_to_u64() == 0,
{
}

/// A drive strength of a DDR5 raw card signal.
#[derive(Debug, PartialEq, Eq, Clone, Copy, Structural)]
pub enum Ddr5RawCardDriveStrength {
    Light,
    Moderate,
    Strong,
}

impl Ddr5RawCardDriveStrength {
    /// The number that stands for this value.
    pub open spec fn spec_to_u64(self) -> u64 {
        match self {
            Ddr5RawCardDriveStrength::Light => 0x0,
            Ddr5RawCardDriveStrength::Moderate => 0x1,
            Ddr5RawCardDriveStrength::Strong => 0x2,
        }
    }

    /// The value that VALUE stands for, if any.
    pub open spec fn spec_from_u64(value: u64) -> Option<Ddr5RawCardDriveStrength> {
        match value {
            0x0 => Some(Ddr5RawCardDriveStrength::Light),
            0x1 => Some(Ddr5RawCardDriveStrength::Moderate),
            0x2 => Some(Ddr5RawCardDriveStrength::Strong),
            _ => None,
        }
    }

    pub fn from_u64(value: u64) -> (r: Option<Ddr5RawCardDriveStrength>)
        ensures
            r == Ddr5RawCardDriveStrength::spec_from_u64(value),
    {
        match value {
            0x0 => Some(Ddr5RawCardDriveStrength::Light),
            0x1 => Some(Ddr5RawCardDriveStrength::Moderate),
            0x2 => Some(Ddr5RawCardDriveStrength::Strong),
            _ => None,
        }
    }

    pub fn to_u64(&self) -> (r: Option<u64>)
        ensures
            r == Some(self.spec_to_u64()),
    {
        Some(
            match self {
                Ddr5RawCardDriveStrength::Light => 0x0,
                Ddr5RawCardDriveStrength::Moderate => 0x1,
                Ddr5RawCardDriveStrength::Strong => 0x2,
            },
        )
    }
}

/// Every value of Ddr5RawCardDriveStrength is read back from its own number, and every number that is
/// read as a value is that value's number.
pub proof fn lemma_ddr5_raw_card_drive_strength_roundtrip(x: Ddr5RawCardDriveStrength, value: u64)
    ensures
        Ddr5RawCardDriveStrength::spec_from_u64(x.spec_to_u64()) == Some(x),
        Ddr5RawCardDriveStrength::spec_from_u64(value) matches Some(y) ==> y.spec_to_u64() == value,
{
}

/// A slew rate of a DDR5 raw card signal.
#[derive(Debug, PartialEq, Eq, Clone, Copy, Structural)]
pub enum Ddr5RawCardSlew {
    Moderate,
    Fast,
    Slow,
    Default,
}

impl Ddr5RawCardSlew {
    /// The number that stands for this value.
    pub open spec fn spec_to_u64(self) -> u64 {
        match self {
            Ddr5RawCardSlew::Moderate => 0x0,
            Ddr5RawCardSlew::Fast => 0x1,
            Ddr5RawCardSlew::Slow => 0x2,
            Ddr5RawCardSlew::Default => 0xff,
        }
    }

    /// The value that VALUE stands for, if any.
    pub open spec fn spec_from_u64(value: u64) -> Option<Ddr5RawCardSlew> {
        match value {
            0x0 => Some(Ddr5RawCardSlew::Moderate),
            0x1 => Some(Ddr5RawCardSlew::Fast),
            0x2 => Some(Ddr5RawCardSlew::Slow),
            0xff => Some(Ddr5RawCardSlew::Default),
            _ => None,
        }
    }

    pub fn from_u64(value: u64) -> (r: Option<Ddr5RawCardSlew>)
        ensures
            r == Ddr5RawCardSlew::spec_from_u64(value),
    {
        match value {
            0x0 => Some(Ddr5RawCardSlew::Moderate),
            0x1 => Some(Ddr5RawCardSlew::Fast),
            0x2 => Some(Ddr5RawCardSlew::Slow),
            0xff => Some(Ddr5RawCardSlew::Default),
            _ => None,
        }
    }

    pub fn to_u64(&self) -> (r: Option<u64>)
        ensures
            r == Some(self.spec_to_u64()),
    {
        Some(
            match self {
                Ddr5RawCardSlew::Moderate => 0x0,
                Ddr5RawCardSlew::Fast => 0x1,
                Ddr5RawCardSlew::Slow => 0x2,
                Ddr5RawCardSlew::Default => 0xff,
            },
        )
    }
}

/// Every value of Ddr5RawCardSlew is read back from its own number, and every number that is
/// read as a value is that value's number.
pub proof fn lemma_ddr5_raw_card_slew_roundtrip(x: Ddr5RawCardSlew, value: u64)
    ensures
        Ddr5RawCardSlew::spec_from_u64(x.spec_to_u64()) == Some(x),
        Ddr5RawCardSlew::spec_from_u64(value) matches Some(y) ==> y.spec_to_u64() == value,
{
}

/// A reference voltage of a DDR5 raw card signal (encoded as (97.5 - percentage) / 0.5).
#[derive(Debug, PartialEq, Eq, Clone, Copy, Structural)]
pub enum Ddr5RawCardVref {
    _35_0P,
    _35_5P,
    _36_0P,
    _36_5P,
    _37_0P,
    _37_5P,
    _38_0P,
    _38_5P,
    _39_0P,
    _39_5P,
    _40_0P,
    _40_5P,
    _41_0P,
    _41_5P,
    _42_0P,
    _42_5P,
    _43_0P,
    _43_5P,
    _44_0P,
    _44_5P,
    _45_0P,
    _45_5P,
    _46_0P,
    _46_5P,
    _47_0P,
    _47_5P,
    _48_0P,
    _48_5P,
    _49_0P,
    _49_5P,
    _50_0P,
    _50_5P,
    _51_0P,
    _51_5P,
    _52_0P,
    _52_5P,
    _53_0P,
    _53_5P,
    _54_0P,
    _54_5P,
    _55_0P,
    _55_5P,
    _56_0P,
    _56_5P,
    _57_0P,
    _57_5P,
    _58_0P,
    _58_5P,
    _59_0P,
    _59_5P,
    _60_0P,
    _60_5P,
    _61_0P,
    _61_5P,
    _62_0P,
    _62_5P,
    _63_0P,
    _63_5P,
    _64_0P,
    _64_5P,
    _65_0P,
    _65_5P,
    _66_0P,
    _66_5P,
    _67_0P,
    _67_5P,
    _68_0P,
    _68_5P,
    _69_0P,
    _69_5P,
    _70_0P,
    _70_5P,
    _71_0P,
    _71_5P,
    _72_0P,
    _72_5P,
    _73_0P,
    _73_5P,
    _74_0P,
    _74_5P,
    _75_0P,
    _75_5P,
    _76_0P,
    _76_5P,
    _77_0P,
    _77_5P,
    _78_0P,
    _78_5P,
    _79_0P,
    _79_5P,
    _80_0P,
    _80_5P,
    _81_0P,
    _81_5P,
    _82_0P,
    _82_5P,
    _83_0P,
    _83_5P,
    _84_0P,
    _84_5P,
    _85_0P,
    _85_5P,
    _86_0P,
    _86_5P,
    _87_0P,
    _87_5P,
    _88_0P,
    _88_5P,
    _89_0P,
    _89_5P,
    _90_0P,
    _90_5P,
    _91_0P,
    _91_5P,
    _92_0P,
    _92_5P,
    _93_0P,
    _93_5P,
    _94_0P,
    _94_5P,
    _95_0P,
    _95_5P,
    _96_0P,
    _96_5P,
    _97_0P,
    _97_5P,
}

impl Ddr5RawCardVref {
    /// The number that stands for this value.
    pub open spec fn spec_to_u64(self) -> u64 {
        match self {
            Ddr5RawCardVref::_35_0P => 0x7d,
            Ddr5RawCardVref::_35_5P => 0x7c,
            Ddr5RawCardVref::_36_0P => 0x7b,
            Ddr5RawCardVref::_36_5P => 0x7a,
            Ddr5RawCardVref::_37_0P => 0x79,
            Ddr5RawCardVref::_37_5P => 0x78,
            Ddr5RawCardVref::_38_0P => 0x77,
            Ddr5RawCardVref::_38_5P => 0x76,
            Ddr5RawCardVref::_39_0P => 0x75,
            Ddr5RawCardVref::_39_5P => 0x74,
            Ddr5RawCardVref::_40_0P => 0x73,
            Ddr5RawCardVref::_40_5P => 0x72,
            Ddr5RawCardVref::_41_0P => 0x71,
            Ddr5RawCardVref::_41_5P => 0x70,
            Ddr5RawCardVref::_42_0P => 0x6f,
            Ddr5RawCardVref::_42_5P => 0x6e,
            Ddr5RawCardVref::_43_0P => 0x6d,
            Ddr5RawCardVref::_43_5P => 0x6c,
            Ddr5RawCardVref::_44_0P => 0x6b,
            Ddr5RawCardVref::_44_5P => 0x6a,
            Ddr5RawCardVref::_45_0P => 0x69,
            Ddr5RawCardVref::_45_5P => 0x68,
            Ddr5RawCardVref::_46_0P => 0x67,
            Ddr5RawCardVref::_46_5P => 0x66,
            Ddr5RawCardVref::_47_0P => 0x65,
            Ddr5RawCardVref::_47_5P => 0x64,
            Ddr5RawCardVref::_48_0P => 0x63,
            Ddr5RawCardVref::_48_5P => 0x62,
            Ddr5RawCardVref::_49_0P => 0x61,
            Ddr5RawCardVref::_49_5P => 0x60,
            Ddr5RawCardVref::_50_0P => 0x5f,
            Ddr5RawCardVref::_50_5P => 0x5e,
            Ddr5RawCardVref::_51_0P => 0x5d,
            Ddr5RawCardVref::_51_5P => 0x5c,
            Ddr5RawCardVref::_52_0P => 0x5b,
            Ddr5RawCardVref::_52_5P => 0x5a,
            Ddr5RawCardVref::_53_0P => 0x59,
            Ddr5RawCardVref::_53_5P => 0x58,
            Ddr5RawCardVref::_54_0P => 0x57,
            Ddr5RawCardVref::_54_5P => 0x56,
            Ddr5RawCardVref::_55_0P => 0x55,
            Ddr5RawCardVref::_55_5P => 0x54,
            Ddr5RawCardVref::_56_0P => 0x53,
            Ddr5RawCardVref::_56_5P => 0x52,
            Ddr5RawCardVref::_57_0P => 0x51,
            Ddr5RawCardVref::_57_5P => 0x50,
            Ddr5RawCardVref::_58_0P => 0x4f,
            Ddr5RawCardVref::_58_5P => 0x4e,
            Ddr5RawCardVref::_59_0P => 0x4d,
            Ddr5RawCardVref::_59_5P => 0x4c,
            Ddr5RawCardVref::_60_0P => 0x4b,
            Ddr5RawCardVref::_60_5P => 0x4a,
            Ddr5RawCardVref::_61_0P => 0x49,
            Ddr5RawCardVref::_61_5P => 0x48,
            Ddr5RawCardVref::_62_0P => 0x47,
            Ddr5RawCardVref::_62_5P => 0x46,
            Ddr5RawCardVref::_63_0P => 0x45,
            Ddr5RawCardVref::_63_5P => 0x44,
            Ddr5RawCardVref::_64_0P => 0x43,
            Ddr5RawCardVref::_64_5P => 0x42,
            Ddr5RawCardVref::_65_0P => 0x41,
            Ddr5RawCardVref::_65_5P => 0x40,
            Ddr5RawCardVref::_66_0P => 0x3f,
            Ddr5RawCardVref::_66_5P => 0x3e,
            Ddr5RawCardVref::_67_0P => 0x3d,
            Ddr5RawCardVref::_67_5P => 0x3c,
            Ddr5RawCardVref::_68_0P => 0x3b,
            Ddr5RawCardVref::_68_5P => 0x3a,
            Ddr5RawCardVref::_69_0P => 0x39,
            Ddr5RawCardVref::_69_5P => 0x38,
            Ddr5RawCardVref::_70_0P => 0x37,
            Ddr5RawCardVref::_70_5P => 0x36,
            Ddr5RawCardVref::_71_0P => 0x35,
            Ddr5RawCardVref::_71_5P => 0x34,
            Ddr5RawCardVref::_72_0P => 0x33,
            Ddr5RawCardVref::_72_5P => 0x32,
            Ddr5RawCardVref::_73_0P => 0x31,
            Ddr5RawCardVref::_73_5P => 0x30,
            Ddr5RawCardVref::_74_0P => 0x2f,
            Ddr5RawCardVref::_74_5P => 0x2e,
            Ddr5RawCardVref::_75_0P => 0x2d,
            Ddr5RawCardVref::_75_5P => 0x2c,
            Ddr5RawCardVref::_76_0P => 0x2b,
            Ddr5RawCardVref::_76_5P => 0x2a,
            Ddr5RawCardVref::_77_0P => 0x29,
            Ddr5RawCardVref::_77_5P => 0x28,
            Ddr5RawCardVref::_78_0P => 0x27,
            Ddr5RawCardVref::_78_5P => 0x26,
            Ddr5RawCardVref::_79_0P => 0x25,
            Ddr5RawCardVref::_79_5P => 0x24,
            Ddr5RawCardVref::_80_0P => 0x23,
            Ddr5RawCardVref::_80_5P => 0x22,
            Ddr5RawCardVref::_81_0P => 0x21,
            Ddr5RawCardVref::_81_5P => 0x20,
            Ddr5RawCardVref::_82_0P => 0x1f,
            Ddr5RawCardVref::_82_5P => 0x1e,
            Ddr5RawCardVref::_83_0P => 0x1d,
            Ddr5RawCardVref::_83_5P => 0x1c,
            Ddr5RawCardVref::_84_0P => 0x1b,
            Ddr5RawCardVref::_84_5P => 0x1a,
            Ddr5RawCardVref::_85_0P => 0x19,
            Ddr5RawCardVref::_85_5P => 0x18,
            Ddr5RawCardVref::_86_0P => 0x17,
            Ddr5RawCardVref::_86_5P => 0x16,
            Ddr5RawCardVref::_87_0P => 0x15,
            Ddr5RawCardVref::_87_5P => 0x14,
            Ddr5RawCardVref::_88_0P => 0x13,
            Ddr5RawCardVref::_88_5P => 0x12,
            Ddr5RawCardVref::_89_0P => 0x11,
            Ddr5RawCardVref::_89_5P => 0x10,
            Ddr5RawCardVref::_90_0P => 0xf,
            Ddr5RawCardVref::_90_5P => 0xe,
            Ddr5RawCardVref::_91_0P => 0xd,
            Ddr5RawCardVref::_91_5P => 0xc,
            Ddr5RawCardVref::_92_0P => 0xb,
            Ddr5RawCardVref::_92_5P => 0xa,
            Ddr5RawCardVref::_93_0P => 0x9,
            Ddr5RawCardVref::_93_5P => 0x8,
            Ddr5RawCardVref::_94_0P => 0x7,
            Ddr5RawCardVref::_94_5P => 0x6,
            Ddr5RawCardVref::_95_0P => 0x5,
            Ddr5RawCardVref::_95_5P => 0x4,
            Ddr5RawCardVref::_96_0P => 0x3,
            Ddr5RawCardVref::_96_5P => 0x2,
            Ddr5RawCardVref::_97_0P => 0x1,
            Ddr5RawCardVref::_97_5P => 0x0,
        }
    }

    /// The value that VALUE stands for, if any.
    pub open spec fn spec_from_u64(value: u64) -> Option<Ddr5RawCardVref> {
        match value {
            0x7d => Some(Ddr5RawCardVref::_35_0P),
            0x7c => Some(Ddr5RawCardVref::_35_5P),
            0x7b => Some(Ddr5RawCardVref::_36_0P),
            0x7a => Some(Ddr5RawCardVref::_36_5P),
            0x79 => Some(Ddr5RawCardVref::_37_0P),
            0x78 => Some(Ddr5RawCardVref::_37_5P),
            0x77 => Some(Ddr5RawCardVref::_38_0P),
            0x76 => Some(Ddr5RawCardVref::_38_5P),
            0x75 => Some(Ddr5RawCardVref::_39_0P),
            0x74 => Some(Ddr5RawCardVref::_39_5P),
            0x73 => Some(Ddr5RawCardVref::_40_0P),
            0x72 => Some(Ddr5RawCardVref::_40_5P),
            0x71 => Some(Ddr5RawCardVref::_41_0P),
            0x70 => Some(Ddr5RawCardVref::_41_5P),
            0x6f => Some(Ddr5RawCardVref::_42_0P),
            0x6e => Some(Ddr5RawCardVref::_42_5P),
            0x6d => Some(Ddr5RawCardVref::_43_0P),
            0x6c => Some(Ddr5RawCardVref::_43_5P),
            0x6b => Some(Ddr5RawCardVref::_44_0P),
            0x6a => Some(Ddr5RawCardVref::_44_5P),
            0x69 => Some(Ddr5RawCardVref::_45_0P),
            0x68 => Some(Ddr5RawCardVref::_45_5P),
            0x67 => Some(Ddr5RawCardVref::_46_0P),
            0x66 => Some(Ddr5RawCardVref::_46_5P),
            0x65 => Some(Ddr5RawCardVref::_47_0P),
            0x64 => Some(Ddr5RawCardVref::_47_5P),
            0x63 => Some(Ddr5RawCardVref::_48_0P),
            0x62 => Some(Ddr5RawCardVref::_48_5P),
            0x61 => Some(Ddr5RawCardVref::_49_0P),
            0x60 => Some(Ddr5RawCardVref::_49_5P),
            0x5f => Some(Ddr5RawCardVref::_50_0P),
            0x5e => Some(Ddr5RawCardVref::_50_5P),
            0x5d => Some(Ddr5RawCardVref::_51_0P),
            0x5c => Some(Ddr5RawCardVref::_51_5P),
            0x5b => Some(Ddr5RawCardVref::_52_0P),
            0x5a => Some(Ddr5RawCardVref::_52_5P),
            0x59 => Some(Ddr5RawCardVref::_53_0P),
            0x58 => Some(Ddr5RawCardVref::_53_5P),
            0x57 => Some(Ddr5RawCardVref::_54_0P),
            0x56 => Some(Ddr5RawCardVref::_54_5P),
            0x55 => Some(Ddr5RawCardVref::_55_0P),
            0x54 => Some(Ddr5RawCardVref::_55_5P),
            0x53 => Some(Ddr5RawCardVref::_56_0P),
            0x52 => Some(Ddr5RawCardVref::_56_5P),
            0x51 => Some(Ddr5RawCardVref::_57_0P),
            0x50 => Some(Ddr5RawCardVref::_57_5P),
            0x4f => Some(Ddr5RawCardVref::_58_0P),
            0x4e => Some(Ddr5RawCardVref::_58_5P),
            0x4d => Some(Ddr5RawCardVref::_59_0P),
            0x4c => Some(Ddr5RawCardVref::_59_5P),
            0x4b => Some(Ddr5RawCardVref::_60_0P),
            0x4a => Some(Ddr5RawCardVref::_60_5P),
            0x49 => Some(Ddr5RawCardVref::_61_0P),
            0x48 => Some(Ddr5RawCardVref::_61_5P),
            0x47 => Some(Ddr5RawCardVref::_62_0P),
            0x46 => Some(Ddr5RawCardVref::_62_5P),
            0x45 => Some(Ddr5RawCardVref::_63_0P),
            0x44 => Some(Ddr5RawCardVref::_63_5P),
            0x43 => Some(Ddr5RawCardVref::_64_0P),
            0x42 => Some(Ddr5RawCardVref::_64_5P),
            0x41 => Some(Ddr5RawCardVref::_65_0P),
            0x40 => Some(Ddr5RawCardVref::_65_5P),
            0x3f => Some(Ddr5RawCardVref::_66_0P),
            0x3e => Some(Ddr5RawCardVref::_66_5P),
            0x3d => Some(Ddr5RawCardVref::_67_0P),
            0x3c => Some(Ddr5RawCardVref::_67_5P),
            0x3b => Some(Ddr5RawCardVref::_68_0P),
            0x3a => Some(Ddr5RawCardVref::_68_5P),
            0x39 => Some(Ddr5RawCardVref::_69_0P),
            0x38 => Some(Ddr5RawCardVref::_69_5P),
            0x37 => Some(Ddr5RawCardVref::_70_0P),
            0x36 => Some(Ddr5RawCardVref::_70_5P),
            0x35 => Some(Ddr5RawCardVref::_71_0P),
            0x34 => Some(Ddr5RawCardVref::_71_5P),
            0x33 => Some(Ddr5RawCardVref::_72_0P),
            0x32 => Some(Ddr5RawCardVref::_72_5P),
            0x31 => Some(Ddr5RawCardVref::_73_0P),
            0x30 => Some(Ddr5RawCardVref::_73_5P),
            0x2f => Some(Ddr5RawCardVref::_74_0P),
            0x2e => Some(Ddr5RawCardVref::_74_5P),
            0x2d => Some(Ddr5RawCardVref::_75_0P),
            0x2c => Some(Ddr5RawCardVref::_75_5P),
            0x2b => Some(Ddr5RawCardVref::_76_0P),
            0x2a => Some(Ddr5RawCardVref::_76_5P),
            0x29 => Some(Ddr5RawCardVref::_77_0P),
            0x28 => Some(Ddr5RawCardVref::_77_5P),
            0x27 => Some(Ddr5RawCardVref::_78_0P),
            0x26 => Some(Ddr5RawCardVref::_78_5P),
            0x25 => Some(Ddr5RawCardVref::_79_0P),
            0x24 => Some(Ddr5RawCardVref::_79_5P),
            0x23 => Some(Ddr5RawCardVref::_80_0P),
            0x22 => Some(Ddr5RawCardVref::_80_5P),
            0x21 => Some(Ddr5RawCardVref::_81_0P),
            0x20 => Some(Ddr5RawCardVref::_81_5P),
            0x1f => Some(Ddr5RawCardVref::_82_0P),
            0x1e => Some(Ddr5RawCardVref::_82_5P),
            0x1d => Some(Ddr5RawCardVref::_83_0P),
            0x1c => Some(Ddr5RawCardVref::_83_5P),
            0x1b => Some(Ddr5RawCardVref::_84_0P),
            0x1a => Some(Ddr5RawCardVref::_84_5P),
            0x19 => Some(Ddr5RawCardVref::_85_0P),
            0x18 => Some(Ddr5RawCardVref::_85_5P),
            0x17 => Some(Ddr5RawCardVref::_86_0P),
            0x16 => Some(Ddr5RawCardVref::_86_5P),
            0x15 => Some(Ddr5RawCardVref::_87_0P),
            0x14 => Some(Ddr5RawCardVref::_87_5P),
            0x13 => Some(Ddr5RawCardVref::_88_0P),
            0x12 => Some(Ddr5RawCardVref::_88_5P),
            0x11 => Some(Ddr5RawCardVref::_89_0P),
            0x10 => Some(Ddr5RawCardVref::_89_5P),
            0xf => Some(Ddr5RawCardVref::_90_0P),
            0xe => Some(Ddr5RawCardVref::_90_5P),
            0xd => Some(Ddr5RawCardVref::_91_0P),
            0xc => Some(Ddr5RawCardVref::_91_5P),
            0xb => Some(Ddr5RawCardVref::_92_0P),
            0xa => Some(Ddr5RawCardVref::_92_5P),
            0x9 => Some(Ddr5RawCardVref::_93_0P),
            0x8 => Some(Ddr5RawCardVref::_93_5P),
            0x7 => Some(Ddr5RawCardVref::_94_0P),
            0x6 => Some(Ddr5RawCardVref::_94_5P),
            0x5 => Some(Ddr5RawCardVref::_95_0P),
            0x4 => Some(Ddr5RawCardVref::_95_5P),
            0x3 => Some(Ddr5RawCardVref::_96_0P),
            0x2 => Some(Ddr5RawCardVref::_96_5P),
            0x1 => Some(Ddr5RawCardVref::_97_0P),
            0x0 => Some(Ddr5RawCardVref::_97_5P),
            _ => None,
        }
    }

    pub fn from_u64(value: u64) -> (r: Option<Ddr5RawCardVref>)
        ensures
            r == Ddr5RawCardVref::spec_from_u64(value),
    {
        match value {
            0x7d => Some(Ddr5RawCardVref::_35_0P),
            0x7c => Some(Ddr5RawCardVref::_35_5P),
            0x7b => Some(Ddr5RawCardVref::_36_0P),
            0x7a => Some(Ddr5RawCardVref::_36_5P),
            0x79 => Some(Ddr5RawCardVref::_37_0P),
            0x78 => Some(Ddr5RawCardVref::_37_5P),
            0x77 => Some(Ddr5RawCardVref::_38_0P),
            0x76 => Some(Ddr5RawCardVref::_38_5P),
            0x75 => Some(Ddr5RawCardVref::_39_0P),
            0x74 => Some(Ddr5RawCardVref::_39_5P),
            0x73 => Some(Ddr5RawCardVref::_40_0P),
            0x72 => Some(Ddr5RawCardVref::_40_5P),
            0x71 => Some(Ddr5RawCardVref::_41_0P),
            0x70 => Some(Ddr5RawCardVref::_41_5P),
            0x6f => Some(Ddr5RawCardVref::_42_0P),
            0x6e => Some(Ddr5RawCardVref::_42_5P),
            0x6d => Some(Ddr5RawCardVref::_43_0P),
            0x6c => Some(Ddr5RawCardVref::_43_5P),
            0x6b => Some(Ddr5RawCardVref::_44_0P),
            0x6a => Some(Ddr5RawCardVref::_44_5P),
            0x69 => Some(Ddr5RawCardVref::_45_0P),
            0x68 => Some(Ddr5RawCardVref::_45_5P),
            0x67 => Some(Ddr5RawCardVref::_46_0P),
            0x66 => Some(Ddr5RawCardVref::_46_5P),
            0x65 => Some(Ddr5RawCardVref::_47_0P),
            0x64 => Some(Ddr5RawCardVref::_47_5P),
            0x63 => Some(Ddr5RawCardVref::_48_0P),
            0x62 => Some(Ddr5RawCardVref::_48_5P),
            0x61 => Some(Ddr5RawCardVref::_49_0P),
            0x60 => Some(Ddr5RawCardVref::_49_5P),
            0x5f => Some(Ddr5RawCardVref::_50_0P),
            0x5e => Some(Ddr5RawCardVref::_50_5P),
            0x5d => Some(Ddr5RawCardVref::_51_0P),
            0x5c => Some(Ddr5RawCardVref::_51_5P),
            0x5b => Some(Ddr5RawCardVref::_52_0P),
            0x5a => Some(Ddr5RawCardVref::_52_5P),
            0x59 => Some(Ddr5RawCardVref::_53_0P),
            0x58 => Some(Ddr5RawCardVref::_53_5P),
            0x57 => Some(Ddr5RawCardVref::_54_0P),
            0x56 => Some(Ddr5RawCardVref::_54_5P),
            0x55 => Some(Ddr5RawCardVref::_55_0P),
            0x54 => Some(Ddr5RawCardVref::_55_5P),
            0x53 => Some(Ddr5RawCardVref::_56_0P),
            0x52 => Some(Ddr5RawCardVref::_56_5P),
            0x51 => Some(Ddr5RawCardVref::_57_0P),
            0x50 => Some(Ddr5RawCardVref::_57_5P),
            0x4f => Some(Ddr5RawCardVref::_58_0P),
            0x4e => Some(Ddr5RawCardVref::_58_5P),
            0x4d => Some(Ddr5RawCardVref::_59_0P),
            0x4c => Some(Ddr5RawCardVref::_59_5P),
            0x4b => Some(Ddr5RawCardVref::_60_0P),
            0x4a => Some(Ddr5RawCardVref::_60_5P),
            0x49 => Some(Ddr5RawCardVref::_61_0P),
            0x48 => Some(Ddr5RawCardVref::_61_5P),
            0x47 => Some(Ddr5RawCardVref::_62_0P),
            0x46 => Some(Ddr5RawCardVref::_62_5P),
            0x45 => Some(Ddr5RawCardVref::_63_0P),
            0x44 => Some(Ddr5RawCardVref::_63_5P),
            0x43 => Some(Ddr5RawCardVref::_64_0P),
            0x42 => Some(Ddr5RawCardVref::_64_5P),
            0x41 => Some(Ddr5RawCardVref::_65_0P),
            0x40 => Some(Ddr5RawCardVref::_65_5P),
            0x3f => Some(Ddr5RawCardVref::_66_0P),
            0x3e => Some(Ddr5RawCardVref::_66_5P),
            0x3d => Some(Ddr5RawCardVref::_67_0P),
            0x3c => Some(Ddr5RawCardVref::_67_5P),
            0x3b => Some(Ddr5RawCardVref::_68_0P),
            0x3a => Some(Ddr5RawCardVref::_68_5P),
            0x39 => Some(Ddr5RawCardVref::_69_0P),
            0x38 => Some(Ddr5RawCardVref::_69_5P),
            0x37 => Some(Ddr5RawCardVref::_70_0P),
            0x36 => Some(Ddr5RawCardVref::_70_5P),
            0x35 => Some(Ddr5RawCardVref::_71_0P),
            0x34 => Some(Ddr5RawCardVref::_71_5P),
            0x33 => Some(Ddr5RawCardVref::_72_0P),
            0x32 => Some(Ddr5RawCardVref::_72_5P),
            0x31 => Some(Ddr5RawCardVref::_73_0P),
            0x30 => Some(Ddr5RawCardVref::_73_5P),
            0x2f => Some(Ddr5RawCardVref::_74_0P),
            0x2e => Some(Ddr5RawCardVref::_74_5P),
            0x2d => Some(Ddr5RawCardVref::_75_0P),
            0x2c => Some(Ddr5RawCardVref::_75_5P),
            0x2b => Some(Ddr5RawCardVref::_76_0P),
            0x2a => Some(Ddr5RawCardVref::_76_5P),
            0x29 => Some(Ddr5RawCardVref::_77_0P),
            0x28 => Some(Ddr5RawCardVref::_77_5P),
            0x27 => Some(Ddr5RawCardVref::_78_0P),
            0x26 => Some(Ddr5RawCardVref::_78_5P),
            0x25 => Some(Ddr5RawCardVref::_79_0P),
            0x24 => Some(Ddr5RawCardVref::_79_5P),
            0x23 => Some(Ddr5RawCardVref::_80_0P),
            0x22 => Some(Ddr5RawCardVref::_80_5P),
            0x21 => Some(Ddr5RawCardVref::_81_0P),
            0x20 => Some(Ddr5RawCardVref::_81_5P),
            0x1f => Some(Ddr5RawCardVref::_82_0P),
            0x1e => Some(Ddr5RawCardVref::_82_5P),
            0x1d => Some(Ddr5RawCardVref::_83_0P),
            0x1c => Some(Ddr5RawCardVref::_83_5P),
            0x1b => Some(Ddr5RawCardVref::_84_0P),
            0x1a => Some(Ddr5RawCardVref::_84_5P),
            0x19 => Some(Ddr5RawCardVref::_85_0P),
            0x18 => Some(Ddr5RawCardVref::_85_5P),
            0x17 => Some(Ddr5RawCardVref::_86_0P),
            0x16 => Some(Ddr5RawCardVref::_86_5P),
            0x15 => Some(Ddr5RawCardVref::_87_0P),
            0x14 => Some(Ddr5RawCardVref::_87_5P),
            0x13 => Some(Ddr5RawCardVref::_88_0P),
            0x12 => Some(Ddr5RawCardVref::_88_5P),
            0x11 => Some(Ddr5RawCardVref::_89_0P),
            0x10 => Some(Ddr5RawCardVref::_89_5P),
            0xf => Some(Ddr5RawCardVref::_90_0P),
            0xe => Some(Ddr5RawCardVref::_90_5P),
            0xd => Some(Ddr5RawCardVref::_91_0P),
            0xc => Some(Ddr5RawCardVref::_91_5P),
            0xb => Some(Ddr5RawCardVref::_92_0P),
            0xa => Some(Ddr5RawCardVref::_92_5P),
            0x9 => Some(Ddr5RawCardVref::_93_0P),
            0x8 => Some(Ddr5RawCardVref::_93_5P),
            0x7 => Some(Ddr5RawCardVref::_94_0P),
            0x6 => Some(Ddr5RawCardVref::_94_5P),
            0x5 => Some(Ddr5RawCardVref::_95_0P),
            0x4 => Some(Ddr5RawCardVref::_95_5P),
            0x3 => Some(Ddr5RawCardVref::_96_0P),
            0x2 => Some(Ddr5RawCardVref::_96_5P),
            0x1 => Some(Ddr5RawCardVref::_97_0P),
            0x0 => Some(Ddr5RawCardVref::_97_5P),
            _ => None,
        }
    }

    pub fn to_u64(&self) -> (r: Option<u64>)
        ensures
            r == Some(self.spec_to_u64()),
    {
        Some(
            match self {
                Ddr5RawCardVref::_35_0P => 0x7d,
                Ddr5RawCardVref::_35_5P => 0x7c,
                Ddr5RawCardVref::_36_0P => 0x7b,
                Ddr5RawCardVref::_36_5P => 0x7a,
                Ddr5RawCardVref::_37_0P => 0x79,
                Ddr5RawCardVref::_37_5P => 0x78,
                Ddr5RawCardVref::_38_0P => 0x77,
                Ddr5RawCardVref::_38_5P => 0x76,
                Ddr5RawCardVref::_39_0P => 0x75,
                Ddr5RawCardVref::_39_5P => 0x74,
                Ddr5RawCardVref::_40_0P => 0x73,
                Ddr5RawCardVref::_40_5P => 0x72,
                Ddr5RawCardVref::_41_0P => 0x71,
                Ddr5RawCardVref::_41_5P => 0x70,
                Ddr5RawCardVref::_42_0P => 0x6f,
                Ddr5RawCardVref::_42_5P => 0x6e,
                Ddr5RawCardVref::_43_0P => 0x6d,
                Ddr5RawCardVref::_43_5P => 0x6c,
                Ddr5RawCardVref::_44_0P => 0x6b,
                Ddr5RawCardVref::_44_5P => 0x6a,
                Ddr5RawCardVref::_45_0P => 0x69,
                Ddr5RawCardVref::_45_5P => 0x68,
                Ddr5RawCardVref::_46_0P => 0x67,
                Ddr5RawCardVref::_46_5P => 0x66,
                Ddr5RawCardVref::_47_0P => 0x65,
                Ddr5RawCardVref::_47_5P => 0x64,
                Ddr5RawCardVref::_48_0P => 0x63,
                Ddr5RawCardVref::_48_5P => 0x62,
                Ddr5RawCardVref::_49_0P => 0x61,
                Ddr5RawCardVref::_49_5P => 0x60,
                Ddr5RawCardVref::_50_0P => 0x5f,
                Ddr5RawCardVref::_50_5P => 0x5e,
                Ddr5RawCardVref::_51_0P => 0x5d,
                Ddr5RawCardVref::_51_5P => 0x5c,
                Ddr5RawCardVref::_52_0P => 0x5b,
                Ddr5RawCardVref::_52_5P => 0x5a,
                Ddr5RawCardVref::_53_0P => 0x59,
                Ddr5RawCardVref::_53_5P => 0x58,
                Ddr5RawCardVref::_54_0P => 0x57,
                Ddr5RawCardVref::_54_5P => 0x56,
                Ddr5RawCardVref::_55_0P => 0x55,
                Ddr5RawCardVref::_55_5P => 0x54,
                Ddr5RawCardVref::_56_0P => 0x53,
                Ddr5RawCardVref::_56_5P => 0x52,
                Ddr5RawCardVref::_57_0P => 0x51,
                Ddr5RawCardVref::_57_5P => 0x50,
                Ddr5RawCardVref::_58_0P => 0x4f,
                Ddr5RawCardVref::_58_5P => 0x4e,
                Ddr5RawCardVref::_59_0P => 0x4d,
                Ddr5RawCardVref::_59_5P => 0x4c,
                Ddr5RawCardVref::_60_0P => 0x4b,
                Ddr5RawCardVref::_60_5P => 0x4a,
                Ddr5RawCardVref::_61_0P => 0x49,
                Ddr5RawCardVref::_61_5P => 0x48,
                Ddr5RawCardVref::_62_0P => 0x47,
                Ddr5RawCardVref::_62_5P => 0x46,
                Ddr5RawCardVref::_63_0P => 0x45,
                Ddr5RawCardVref::_63_5P => 0x44,
                Ddr5RawCardVref::_64_0P => 0x43,
                Ddr5RawCardVref::_64_5P => 0x42,
                Ddr5RawCardVref::_65_0P => 0x41,
                Ddr5RawCardVref::_65_5P => 0x40,
                Ddr5RawCardVref::_66_0P => 0x3f,
                Ddr5RawCardVref::_66_5P => 0x3e,
                Ddr5RawCardVref::_67_0P => 0x3d,
                Ddr5RawCardVref::_67_5P => 0x3c,
                Ddr5RawCardVref::_68_0P => 0x3b,
                Ddr5RawCardVref::_68_5P => 0x3a,
                Ddr5RawCardVref::_69_0P => 0x39,
                Ddr5RawCardVref::_69_5P => 0x38,
                Ddr5RawCardVref::_70_0P => 0x37,
                Ddr5RawCardVref::_70_5P => 0x36,
                Ddr5RawCardVref::_71_0P => 0x35,
                Ddr5RawCardVref::_71_5P => 0x34,
                Ddr5RawCardVref::_72_0P => 0x33,
                Ddr5RawCardVref::_72_5P => 0x32,
                Ddr5RawCardVref::_73_0P => 0x31,
                Ddr5RawCardVref::_73_5P => 0x30,
                Ddr5RawCardVref::_74_0P => 0x2f,
                Ddr5RawCardVref::_74_5P => 0x2e,
                Ddr5RawCardVref::_75_0P => 0x2d,
                Ddr5RawCardVref::_75_5P => 0x2c,
                Ddr5RawCardVref::_76_0P => 0x2b,
                Ddr5RawCardVref::_76_5P => 0x2a,
                Ddr5RawCardVref::_77_0P => 0x29,
                Ddr5RawCardVref::_77_5P => 0x28,
                Ddr5RawCardVref::_78_0P => 0x27,
                Ddr5RawCardVref::_78_5P => 0x26,
                Ddr5RawCardVref::_79_0P => 0x25,
                Ddr5RawCardVref::_79_5P => 0x24,
                Ddr5RawCardVref::_80_0P => 0x23,
                Ddr5RawCardVref::_80_5P => 0x22,
                Ddr5RawCardVref::_81_0P => 0x21,
                Ddr5RawCardVref::_81_5P => 0x20,
                Ddr5RawCardVref::_82_0P => 0x1f,
                Ddr5RawCardVref::_82_5P => 0x1e,
                Ddr5RawCardVref::_83_0P => 0x1d,
                Ddr5RawCardVref::_83_5P => 0x1c,
                Ddr5RawCardVref::_84_0P => 0x1b,
                Ddr5RawCardVref::_84_5P => 0x1a,
                Ddr5RawCardVref::_85_0P => 0x19,
                Ddr5RawCardVref::_85_5P => 0x18,
                Ddr5RawCardVref::_86_0P => 0x17,
                Ddr5RawCardVref::_86_5P => 0x16,
                Ddr5RawCardVref::_87_0P => 0x15,
                Ddr5RawCardVref::_87_5P => 0x14,
                Ddr5RawCardVref::_88_0P => 0x13,
                Ddr5RawCardVref::_88_5P => 0x12,
                Ddr5RawCardVref::_89_0P => 0x11,
                Ddr5RawCardVref::_89_5P => 0x10,
                Ddr5RawCardVref::_90_0P => 0xf,
                Ddr5RawCardVref::_90_5P => 0xe,
                Ddr5RawCardVref::_91_0P => 0xd,
                Ddr5RawCardVref::_91_5P => 0xc,
                Ddr5RawCardVref::_92_0P => 0xb,
                Ddr5RawCardVref::_92_5P => 0xa,
                Ddr5RawCardVref::_93_0P => 0x9,
                Ddr5RawCardVref::_93_5P => 0x8,
                Ddr5RawCardVref::_94_0P => 0x7,
                Ddr5RawCardVref::_94_5P => 0x6,
                Ddr5RawCardVref::_95_0P => 0x5,
                Ddr5RawCardVref::_95_5P => 0x4,
                Ddr5RawCardVref::_96_0P => 0x3,
                Ddr5RawCardVref::_96_5P => 0x2,
                Ddr5RawCardVref::_97_0P => 0x1,
                Ddr5RawCardVref::_97_5P => 0x0,
            },
        )
    }
}

/// Every value of Ddr5RawCardVref is read back from its own number, and every number that is
/// read as a value is that value's number.
pub proof fn lemma_ddr5_raw_card_vref_roundtrip(x: Ddr5RawCardVref, value: u64)
    ensures
        Ddr5RawCardVref::spec_from_u64(x.spec_to_u64()) == Some(x),
        Ddr5RawCardVref::spec_from_u64(value) matches Some(y) ==> y.spec_to_u64() == value,
{
}

impl Ddr5RawCardVref {
    /// What the name of this value says: the level, in hundredths of a percent.
    pub open spec fn spec_percent_hundredths(self) -> int {
        match self {
            Ddr5RawCardVref::_35_0P => 3500,
            Ddr5RawCardVref::_35_5P => 3550,
            Ddr5RawCardVref::_36_0P => 3600,
            Ddr5RawCardVref::_36_5P => 3650,
            Ddr5RawCardVref::_37_0P => 3700,
            Ddr5RawCardVref::_37_5P => 3750,
            Ddr5RawCardVref::_38_0P => 3800,
            Ddr5RawCardVref::_38_5P => 3850,
            Ddr5RawCardVref::_39_0P => 3900,
            Ddr5RawCardVref::_39_5P => 3950,
            Ddr5RawCardVref::_40_0P => 4000,
            Ddr5RawCardVref::_40_5P => 4050,
            Ddr5RawCardVref::_41_0P => 4100,
            Ddr5RawCardVref::_41_5P => 4150,
            Ddr5RawCardVref::_42_0P => 4200,
            Ddr5RawCardVref::_42_5P => 4250,
            Ddr5RawCardVref::_43_0P => 4300,
            Ddr5RawCardVref::_43_5P => 4350,
            Ddr5RawCardVref::_44_0P => 4400,
            Ddr5RawCardVref::_44_5P => 4450,
            Ddr5RawCardVref::_45_0P => 4500,
            Ddr5RawCardVref::_45_5P => 4550,
            Ddr5RawCardVref::_46_0P => 4600,
            Ddr5RawCardVref::_46_5P => 4650,
            Ddr5RawCardVref::_47_0P => 4700,
            Ddr5RawCardVref::_47_5P => 4750,
            Ddr5RawCardVref::_48_0P => 4800,
            Ddr5RawCardVref::_48_5P => 4850,
            Ddr5RawCardVref::_49_0P => 4900,
            Ddr5RawCardVref::_49_5P => 4950,
            Ddr5RawCardVref::_50_0P => 5000,
            Ddr5RawCardVref::_50_5P => 5050,
            Ddr5RawCardVref::_51_0P => 5100,
            Ddr5RawCardVref::_51_5P => 5150,
            Ddr5RawCardVref::_52_0P => 5200,
            Ddr5RawCardVref::_52_5P => 5250,
            Ddr5RawCardVref::_53_0P => 5300,
            Ddr5RawCardVref::_53_5P => 5350,
            Ddr5RawCardVref::_54_0P => 5400,
            Ddr5RawCardVref::_54_5P => 5450,
            Ddr5RawCardVref::_55_0P => 5500,
            Ddr5RawCardVref::_55_5P => 5550,
            Ddr5RawCardVref::_56_0P => 5600,
            Ddr5RawCardVref::_56_5P => 5650,
            Ddr5RawCardVref::_57_0P => 5700,
            Ddr5RawCardVref::_57_5P => 5750,
            Ddr5RawCardVref::_58_0P => 5800,
            Ddr5RawCardVref::_58_5P => 5850,
            Ddr5RawCardVref::_59_0P => 5900,
            Ddr5RawCardVref::_59_5P => 5950,
            Ddr5RawCardVref::_60_0P => 6000,
            Ddr5RawCardVref::_60_5P => 6050,
            Ddr5RawCardVref::_61_0P => 6100,
            Ddr5RawCardVref::_61_5P => 6150,
            Ddr5RawCardVref::_62_0P => 6200,
            Ddr5RawCardVref::_62_5P => 6250,
            Ddr5RawCardVref::_63_0P => 6300,
            Ddr5RawCardVref::_63_5P => 6350,
            Ddr5RawCardVref::_64_0P => 6400,
            Ddr5RawCardVref::_64_5P => 6450,
            Ddr5RawCardVref::_65_0P => 6500,
            Ddr5RawCardVref::_65_5P => 6550,
            Ddr5RawCardVref::_66_0P => 6600,
            Ddr5RawCardVref::_66_5P => 6650,
            Ddr5RawCardVref::_67_0P => 6700,
            Ddr5RawCardVref::_67_5P => 6750,
            Ddr5RawCardVref::_68_0P => 6800,
            Ddr5RawCardVref::_68_5P => 6850,
            Ddr5RawCardVref::_69_0P => 6900,
            Ddr5RawCardVref::_69_5P => 6950,
            Ddr5RawCardVref::_70_0P => 7000,
            Ddr5RawCardVref::_70_5P => 7050,
            Ddr5RawCardVref::_71_0P => 7100,
            Ddr5RawCardVref::_71_5P => 7150,
            Ddr5RawCardVref::_72_0P => 7200,
            Ddr5RawCardVref::_72_5P => 7250,
            Ddr5RawCardVref::_73_0P => 7300,
            Ddr5RawCardVref::_73_5P => 7350,
            Ddr5RawCardVref::_74_0P => 7400,
            Ddr5RawCardVref::_74_5P => 7450,
            Ddr5RawCardVref::_75_0P => 7500,
            Ddr5RawCardVref::_75_5P => 7550,
            Ddr5RawCardVref::_76_0P => 7600,
            Ddr5RawCardVref::_76_5P => 7650,
            Ddr5RawCardVref::_77_0P => 7700,
            Ddr5RawCardVref::_77_5P => 7750,
            Ddr5RawCardVref::_78_0P => 7800,
            Ddr5RawCardVref::_78_5P => 7850,
            Ddr5RawCardVref::_79_0P => 7900,
            Ddr5RawCardVref::_79_5P => 7950,
            Ddr5RawCardVref::_80_0P => 8000,
            Ddr5RawCardVref::_80_5P => 8050,
            Ddr5RawCardVref::_81_0P => 8100,
            Ddr5RawCardVref::_81_5P => 8150,
            Ddr5RawCardVref::_82_0P => 8200,
            Ddr5RawCardVref::_82_5P => 8250,
            Ddr5RawCardVref::_83_0P => 8300,
            Ddr5RawCardVref::_83_5P => 8350,
            Ddr5RawCardVref::_84_0P => 8400,
            Ddr5RawCardVref::_84_5P => 8450,
            Ddr5RawCardVref::_85_0P => 8500,
            Ddr5RawCardVref::_85_5P => 8550,
            Ddr5RawCardVref::_86_0P => 8600,
            Ddr5RawCardVref::_86_5P => 8650,
            Ddr5RawCardVref::_87_0P => 8700,
            Ddr5RawCardVref::_87_5P => 8750,
            Ddr5RawCardVref::_88_0P => 8800,
            Ddr5RawCardVref::_88_5P => 8850,
            Ddr5RawCardVref::_89_0P => 8900,
            Ddr5RawCardVref::_89_5P => 8950,
            Ddr5RawCardVref::_90_0P => 9000,
            Ddr5RawCardVref::_90_5P => 9050,
            Ddr5RawCardVref::_91_0P => 9100,
            Ddr5RawCardVref::_91_5P => 9150,
            Ddr5RawCardVref::_92_0P => 9200,
            Ddr5RawCardVref::_92_5P => 9250,
            Ddr5RawCardVref::_93_0P => 9300,
            Ddr5RawCardVref::_93_5P => 9350,
            Ddr5RawCardVref::_94_0P => 9400,
            Ddr5RawCardVref::_94_5P => 9450,
            Ddr5RawCardVref::_95_0P => 9500,
            Ddr5RawCardVref::_95_5P => 9550,
            Ddr5RawCardVref::_96_0P => 9600,
            Ddr5RawCardVref::_96_5P => 9650,
            Ddr5RawCardVref::_97_0P => 9700,
            Ddr5RawCardVref::_97_5P => 9750,
        }
    }
}

/// The number of each value follows from what its name says: 50 times the number is
/// -1 times the named quantity plus 9750.
pub proof fn lemma_ddr5_raw_card_vref_numbers_follow_names(x: Ddr5RawCardVref)
    ensures
        50 * x.spec_to_u64() == -x.spec_percent_hundredths() + 9750,
{
}

/// The settings of a DDR5 raw card configuration element.
#[allow(non_camel_case_types)]
#[derive(Debug, Clone, Copy, PartialEq, Eq, Structural)]
pub struct Ddr5RawCardConfigElementPayload {
    pub total_size: u32,
    pub qck_dev0: u16,
    pub qck_dev1: u16,
    pub qck_dev2: u16,
    pub qck_dev3: u16,
    pub qck_dev4: u16,
    pub qck_dev5: u16,
    pub qck_dev6: u16,
    pub qck_dev7: u16,
    pub qck_dev8: u16,
    pub qck_dev9: u16,
    pub qck_drive_strength: u16,
    pub qck_slew: u16,
    pub qcs_dev0: u16,
    pub qcs_dev1: u16,
    pub qcs_dev2: u16,
    pub qcs_dev3: u16,
    pub qcs_dev4: u16,
    pub qcs_dev5: u16,
    pub qcs_dev6: u16,
    pub qcs_dev7: u16,
    pub qcs_dev8: u16,
    pub qcs_dev9: u16,
    pub qcs_drive_strength: u16,
    pub qcs_slew: u16,
    pub qcs_vref: u16,
    pub qca_dev0: u16,
    pub qca_dev1: u16,
    pub qca_dev2: u16,
    pub qca_dev3: u16,
    pub qca_dev4: u16,
    pub qca_dev5: u16,
    pub qca_dev6: u16,
    pub qca_dev7: u16,
    pub qca_dev8: u16,
    pub qca_dev9: u16,
    pub qca_drive_strength: u16,
    pub qca_slew: u16,
    pub qca_vref: u16,
}

impl Ddr5RawCardConfigElementPayload {
    pub closed spec fn spec_total_size(self) -> u32 {
        self.total_size
    }

    pub closed spec fn spec_qck_dev0(self) -> u16 {
        self.qck_dev0
    }

    pub closed spec fn spec_qck_dev1(self) -> u16 {
        self.qck_dev1
    }

    pub closed spec fn spec_qck_dev2(self) -> u16 {
        self.qck_dev2
    }

    pub closed spec fn spec_qck_dev3(self) -> u16 {
        self.qck_dev3
    }

    pub closed spec fn spec_qck_dev4(self) -> u16 {
        self.qck_dev4
    }

    pub closed spec fn spec_qck_dev5(self) -> u16 {
        self.qck_dev5
    }

    pub closed spec fn spec_qck_dev6(self) -> u16 {
        self.qck_dev6
    }

    pub closed spec fn spec_qck_dev7(self) -> u16 {
        self.qck_dev7
    }

    pub closed spec fn spec_qck_dev8(self) -> u16 {
        self.qck_dev8
    }

    pub closed spec fn spec_qck_dev9(self) -> u16 {
        self.qck_dev9
    }

    pub closed spec fn spec_qck_drive_strength(self) -> u16 {
        self.qck_drive_strength
    }

    pub closed spec fn spec_qck_slew(self) -> u16 {
        self.qck_slew
    }

    pub closed spec fn spec_qcs_dev0(self) -> u16 {
        self.qcs_dev0
    }

    pub closed spec fn spec_qcs_dev1(self) -> u16 {
        self.qcs_dev1
    }

    pub closed spec fn spec_qcs_dev2(self) -> u16 {
        self.qcs_dev2
    }

    pub closed spec fn spec_qcs_dev3(self) -> u16 {
        self.qcs_dev3
    }

    pub closed spec fn spec_qcs_dev4(self) -> u16 {
        self.qcs_dev4
    }

    pub closed spec fn spec_qcs_dev5(self) -> u16 {
        self.qcs_dev5
    }

    pub closed spec fn spec_qcs_dev6(self) -> u16 {
        self.qcs_dev6
    }

    pub closed spec fn spec_qcs_dev7(self) -> u16 {
        self.qcs_dev7
    }

    pub closed spec fn spec_qcs_dev8(self) -> u16 {
        self.qcs_dev8
    }

    pub closed spec fn spec_qcs_dev9(self) -> u16 {
        self.qcs_dev9
    }

    pub closed spec fn spec_qcs_drive_strength(self) -> u16 {
        self.qcs_drive_strength
    }

    pub closed spec fn spec_qcs_slew(self) -> u16 {
        self.qcs_slew
    }

    pub closed spec fn spec_qcs_vref(self) -> u16 {
        self.qcs_vref
    }

    pub closed spec fn spec_qca_dev0(self) -> u16 {
        self.qca_dev0
    }

    pub closed spec fn spec_qca_dev1(self) -> u16 {
        self.qca_dev1
    }

    pub closed spec fn spec_qca_dev2(self) -> u16 {
        self.qca_dev2
    }

    pub closed spec fn spec_qca_dev3(self) -> u16 {
        self.qca_dev3
    }

    pub closed spec fn spec_qca_dev4(self) -> u16 {
        self.qca_dev4
    }

    pub closed spec fn spec_qca_dev5(self) -> u16 {
        self.qca_dev5
    }

    pub closed spec fn spec_qca_dev6(self) -> u16 {
        self.qca_dev6
    }

    pub closed spec fn spec_qca_dev7(self) -> u16 {
        self.qca_dev7
    }

    pub closed spec fn spec_qca_dev8(self) -> u16 {
        self.qca_dev8
    }

    pub closed spec fn spec_qca_dev9(self) -> u16 {
        self.qca_dev9
    }

    pub closed spec fn spec_qca_drive_strength(self) -> u16 {
        self.qca_drive_strength
    }

    pub closed spec fn spec_qca_slew(self) -> u16 {
        self.qca_slew
    }

    pub closed spec fn spec_qca_vref(self) -> u16 {
        self.qca_vref
    }

    pub fn qck_dev0(&self) -> (r: Result<Ddr5RawCardImpedance>)
        ensures
            r == match Ddr5RawCardImpedance::spec_from_u64(self.spec_qck_dev0() as u64) {
                Some(e) => Ok::<Ddr5RawCardImpedance, Error>(e),
                None => Err(Error::EntryTypeMismatch),
            },
    {
        match Ddr5RawCardImpedance::from_u64(self.qck_dev0 as u64) {
            Some(e) => Ok(e),
            None => Err(Error::EntryTypeMismatch),
        }
    }

    pub fn set_qck_dev0(&mut self, value: Ddr5RawCardImpedance)
        ensures
            final(self).spec_qck_dev0() == value.spec_to_u64() as u16,
            final(self).spec_total_size() == old(self).spec_total_size(),
            final(self).spec_qck_dev1() == old(self).spec_qck_dev1(),
            final(self).spec_qck_dev2() == old(self).spec_qck_dev2(),
            final(self).spec_qck_dev3() == old(self).spec_qck_dev3(),
            final(self).spec_qck_dev4() == old(self).spec_qck_dev4(),
            final(self).spec_qck_dev5() == old(self).spec_qck_dev5(),
            final(self).spec_qck_dev6() == old(self).spec_qck_dev6(),
            final(self).spec_qck_dev7() == old(self).spec_qck_dev7(),
            final(self).spec_qck_dev8() == old(self).spec_qck_dev8(),
            final(self).spec_qck_dev9() == old(self).spec_qck_dev9(),
            final(self).spec_qck_drive_strength() == old(self).spec_qck_drive_strength(),
            final(self).spec_qck_slew() == old(self).spec_qck_slew(),
            final(self).spec_qcs_dev0() == old(self).spec_qcs_dev0(),
            final(self).spec_qcs_dev1() == old(self).spec_qcs_dev1(),
            final(self).spec_qcs_dev2() == old(self).spec_qcs_dev2(),
            final(self).spec_qcs_dev3() == old(self).spec_qcs_dev3(),
            final(self).spec_qcs_dev4() == old(self).spec_qcs_dev4(),
            final(self).spec_qcs_dev5() == old(self).spec_qcs_dev5(),
            final(self).spec_qcs_dev6() == old(self).spec_qcs_dev6(),
            final(self).spec_qcs_dev7() == old(self).spec_qcs_dev7(),
            final(self).spec_qcs_dev8() == old(self).spec_qcs_dev8(),
            final(self).spec_qcs_dev9() == old(self).spec_qcs_dev9(),
            final(self).spec_qcs_drive_strength() == old(self).spec_qcs_drive_strength(),
            final(self).spec_qcs_slew() == old(self).spec_qcs_slew(),
            final(self).spec_qcs_vref() == old(self).spec_qcs_vref(),
            final(self).spec_qca_dev0() == old(self).spec_qca_dev0(),
            final(self).spec_qca_dev1() == old(self).spec_qca_dev1(),
            final(self).spec_qca_dev2() == old(self).spec_qca_dev2(),
            final(self).spec_qca_dev3() == old(self).spec_qca_dev3(),
            final(self).spec_qca_dev4() == old(self).spec_qca_dev4(),
            final(self).spec_qca_dev5() == old(self).spec_qca_dev5(),
            final(self).spec_qca_dev6() == old(self).spec_qca_dev6(),
            final(self).spec_qca_dev7() == old(self).spec_qca_dev7(),
            final(self).spec_qca_dev8() == old(self).spec_qca_dev8(),
            final(self).spec_qca_dev9() == old(self).spec_qca_dev9(),
            final(self).spec_qca_drive_strength() == old(self).spec_qca_drive_strength(),
            final(self).spec_qca_slew() == old(self).spec_qca_slew(),
            final(self).spec_qca_vref() == old(self).spec_qca_vref(),
    {
        self.qck_dev0 = value.to_u64().unwrap() as u16;
    }

    pub fn qck_dev1(&self) -> (r: Result<Ddr5RawCardImpedance>)
        ensures
            r == match Ddr5RawCardImpedance::spec_from_u64(self.spec_qck_dev1() as u64) {
                Some(e) => Ok::<Ddr5RawCardImpedance, Error>(e),
                None => Err(Error::EntryTypeMismatch),
            },
    {
        match Ddr5RawCardImpedance::from_u64(self.qck_dev1 as u64) {
            Some(e) => Ok(e),
            None => Err(Error::EntryTypeMismatch),
        }
    }

    pub fn set_qck_dev1(&mut self, value: Ddr5RawCardImpedance)
        ensures
            final(self).spec_qck_dev1() == value.spec_to_u64() as u16,
            final(self).spec_total_size() == old(self).spec_total_size(),
            final(self).spec_qck_dev0() == old(self).spec_qck_dev0(),
            final(self).spec_qck_dev2() == old(self).spec_qck_dev2(),
            final(self).spec_qck_dev3() == old(self).spec_qck_dev3(),
            final(self).spec_qck_dev4() == old(self).spec_qck_dev4(),
            final(self).spec_qck_dev5() == old(self).spec_qck_dev5(),
            final(self).spec_qck_dev6() == old(self).spec_qck_dev6(),
            final(self).spec_qck_dev7() == old(self).spec_qck_dev7(),
            final(self).spec_qck_dev8() == old(self).spec_qck_dev8(),
            final(self).spec_qck_dev9() == old(self).spec_qck_dev9(),
            final(self).spec_qck_drive_strength() == old(self).spec_qck_drive_strength(),
            final(self).spec_qck_slew() == old(self).spec_qck_slew(),
            final(self).spec_qcs_dev0() == old(self).spec_qcs_dev0(),
            final(self).spec_qcs_dev1() == old(self).spec_qcs_dev1(),
            final(self).spec_qcs_dev2() == old(self).spec_qcs_dev2(),
            final(self).spec_qcs_dev3() == old(self).spec_qcs_dev3(),
            final(self).spec_qcs_dev4() == old(self).spec_qcs_dev4(),
            final(self).spec_qcs_dev5() == old(self).spec_qcs_dev5(),
            final(self).spec_qcs_dev6() == old(self).spec_qcs_dev6(),
            final(self).spec_qcs_dev7() == old(self).spec_qcs_dev7(),
            final(self).spec_qcs_dev8() == old(self).spec_qcs_dev8(),
            final(self).spec_qcs_dev9() == old(self).spec_qcs_dev9(),
            final(self).spec_qcs_drive_strength() == old(self).spec_qcs_drive_strength(),
            final(self).spec_qcs_slew() == old(self).spec_qcs_slew(),
            final(self).spec_qcs_vref() == old(self).spec_qcs_vref(),
            final(self).spec_qca_dev0() == old(self).spec_qca_dev0(),
            final(self).spec_qca_dev1() == old(self).spec_qca_dev1(),
            final(self).spec_qca_dev2() == old(self).spec_qca_dev2(),
            final(self).spec_qca_dev3() == old(self).spec_qca_dev3(),
            final(self).spec_qca_dev4() == old(self).spec_qca_dev4(),
            final(self).spec_qca_dev5() == old(self).spec_qca_dev5(),
            final(self).spec_qca_dev6() == old(self).spec_qca_dev6(),
            final(self).spec_qca_dev7() == old(self).spec_qca_dev7(),
            final(self).spec_qca_dev8() == old(self).spec_qca_dev8(),
            final(self).spec_qca_dev9() == old(self).spec_qca_dev9(),
            final(self).spec_qca_drive_strength() == old(self).spec_qca_drive_strength(),
            final(self).spec_qca_slew() == old(self).spec_qca_slew(),
            final(self).spec_qca_vref() == old(self).spec_qca_vref(),
    {
        self.qck_dev1 = value.to_u64().unwrap() as u16;
    }

    pub fn qck_dev2(&self) -> (r: Result<Ddr5RawCardImpedance>)
        ensures
            r == match Ddr5RawCardImpedance::spec_from_u64(self.spec_qck_dev2() as u64) {
                Some(e) => Ok::<Ddr5RawCardImpedance, Error>(e),
                None => Err(Error::EntryTypeMismatch),
            },
    {
        match Ddr5RawCardImpedance::from_u64(self.qck_dev2 as u64) {
            Some(e) => Ok(e),
            None => Err(Error::EntryTypeMismatch),
        }
    }

    pub fn set_qck_dev2(&mut self, value: Ddr5RawCardImpedance)
        ensures
            final(self).spec_qck_dev2() == value.spec_to_u64() as u16,
            final(self).spec_total_size() == old(self).spec_total_size(),
            final(self).spec_qck_dev0() == old(self).spec_qck_dev0(),
            final(self).spec_qck_dev1() == old(self).spec_qck_dev1(),
            final(self).spec_qck_dev3() == old(self).spec_qck_dev3(),
            final(self).spec_qck_dev4() == old(self).spec_qck_dev4(),
            final(self).spec_qck_dev5() == old(self).spec_qck_dev5(),
            final(self).spec_qck_dev6() == old(self).spec_qck_dev6(),
            final(self).spec_qck_dev7() == old(self).spec_qck_dev7(),
            final(self).spec_qck_dev8() == old(self).spec_qck_dev8(),
            final(self).spec_qck_dev9() == old(self).spec_qck_dev9(),
            final(self).spec_qck_drive_strength() == old(self).spec_qck_drive_strength(),
            final(self).spec_qck_slew() == old(self).spec_qck_slew(),
            final(self).spec_qcs_dev0() == old(self).spec_qcs_dev0(),
            final(self).spec_qcs_dev1() == old(self).spec_qcs_dev1(),
            final(self).spec_qcs_dev2() == old(self).spec_qcs_dev2(),
            final(self).spec_qcs_dev3() == old(self).spec_qcs_dev3(),
            final(self).spec_qcs_dev4() == old(self).spec_qcs_dev4(),
            final(self).spec_qcs_dev5() == old(self).spec_qcs_dev5(),
            final(self).spec_qcs_dev6() == old(self).spec_qcs_dev6(),
            final(self).spec_qcs_dev7() == old(self).spec_qcs_dev7(),
            final(self).spec_qcs_dev8() == old(self).spec_qcs_dev8(),
            final(self).spec_qcs_dev9() == old(self).spec_qcs_dev9(),
            final(self).spec_qcs_drive_strength() == old(self).spec_qcs_drive_strength(),
            final(self).spec_qcs_slew() == old(self).spec_qcs_slew(),
            final(self).spec_qcs_vref() == old(self).spec_qcs_vref(),
            final(self).spec_qca_dev0() == old(self).spec_qca_dev0(),
            final(self).spec_qca_dev1() == old(self).spec_qca_dev1(),
            final(self).spec_qca_dev2() == old(self).spec_qca_dev2(),
            final(self).spec_qca_dev3() == old(self).spec_qca_dev3(),
            final(self).spec_qca_dev4() == old(self).spec_qca_dev4(),
            final(self).spec_qca_dev5() == old(self).spec_qca_dev5(),
            final(self).spec_qca_dev6() == old(self).spec_qca_dev6(),
            final(self).spec_qca_dev7() == old(self).spec_qca_dev7(),
            final(self).spec_qca_dev8() == old(self).spec_qca_dev8(),
            final(self).spec_qca_dev9() == old(self).spec_qca_dev9(),
            final(self).spec_qca_drive_strength() == old(self).spec_qca_drive_strength(),
            final(self).spec_qca_slew() == old(self).spec_qca_slew(),
            final(self).spec_qca_vref() == old(self).spec_qca_vref(),
    {
        self.qck_dev2 = value.to_u64().unwrap() as u16;
    }

    pub fn qck_dev3(&self) -> (r: Result<Ddr5RawCardImpedance>)
        ensures
            r == match Ddr5RawCardImpedance::spec_from_u64(self.spec_qck_dev3() as u64) {
                Some(e) => Ok::<Ddr5RawCardImpedance, Error>(e),
                None => Err(Error::EntryTypeMismatch),
            },
    {
        match Ddr5RawCardImpedance::from_u64(self.qck_dev3 as u64) {
            Some(e) => Ok(e),
            None => Err(Error::EntryTypeMismatch),
        }
    }

    pub fn set_qck_dev3(&mut self, value: Ddr5RawCardImpedance)
        ensures
            final(self).spec_qck_dev3() == value.spec_to_u64() as u16,
            final(self).spec_total_size() == old(self).spec_total_size(),
            final(self).spec_qck_dev0() == old(self).spec_qck_dev0(),
            final(self).spec_qck_dev1() == old(self).spec_qck_dev1(),
            final(self).spec_qck_dev2() == old(self).spec_qck_dev2(),
            final(self).spec_qck_dev4() == old(self).spec_qck_dev4(),
            final(self).spec_qck_dev5() == old(self).spec_qck_dev5(),
            final(self).spec_qck_dev6() == old(self).spec_qck_dev6(),
            final(self).spec_qck_dev7() == old(self).spec_qck_dev7(),
            final(self).spec_qck_dev8() == old(self).spec_qck_dev8(),
            final(self).spec_qck_dev9() == old(self).spec_qck_dev9(),
            final(self).spec_qck_drive_strength() == old(self).spec_qck_drive_strength(),
            final(self).spec_qck_slew() == old(self).spec_qck_slew(),
            final(self).spec_qcs_dev0() == old(self).spec_qcs_dev0(),
            final(self).spec_qcs_dev1() == old(self).spec_qcs_dev1(),
            final(self).spec_qcs_dev2() == old(self).spec_qcs_dev2(),
            final(self).spec_qcs_dev3() == old(self).spec_qcs_dev3(),
            final(self).spec_qcs_dev4() == old(self).spec_qcs_dev4(),
            final(self).spec_qcs_dev5() == old(self).spec_qcs_dev5(),
            final(self).spec_qcs_dev6() == old(self).spec_qcs_dev6(),
            final(self).spec_qcs_dev7() == old(self).spec_qcs_dev7(),
            final(self).spec_qcs_dev8() == old(self).spec_qcs_dev8(),
            final(self).spec_qcs_dev9() == old(self).spec_qcs_dev9(),
            final(self).spec_qcs_drive_strength() == old(self).spec_qcs_drive_strength(),
            final(self).spec_qcs_slew() == old(self).spec_qcs_slew(),
            final(self).spec_qcs_vref() == old(self).spec_qcs_vref(),
            final(self).spec_qca_dev0() == old(self).spec_qca_dev0(),
            final(self).spec_qca_dev1() == old(self).spec_qca_dev1(),
            final(self).spec_qca_dev2() == old(self).spec_qca_dev2(),
            final(self).spec_qca_dev3() == old(self).spec_qca_dev3(),
            final(self).spec_qca_dev4() == old(self).spec_qca_dev4(),
            final(self).spec_qca_dev5() == old(self).spec_qca_dev5(),
            final(self).spec_qca_dev6() == old(self).spec_qca_dev6(),
            final(self).spec_qca_dev7() == old(self).spec_qca_dev7(),
            final(self).spec_qca_dev8() == old(self).spec_qca_dev8(),
            final(self).spec_qca_dev9() == old(self).spec_qca_dev9(),
            final(self).spec_qca_drive_strength() == old(self).spec_qca_drive_strength(),
            final(self).spec_qca_slew() == old(self).spec_qca_slew(),
            final(self).spec_qca_vref() == old(self).spec_qca_vref(),
    {
        self.qck_dev3 = value.to_u64().unwrap() as u16;
    }

    pub fn qck_dev4(&self) -> (r: Result<Ddr5RawCardImpedance>)
        ensures
            r == match Ddr5RawCardImpedance::spec_from_u64(self.spec_qck_dev4() as u64) {
                Some(e) => Ok::<Ddr5RawCardImpedance, Error>(e),
                None => Err(Error::EntryTypeMismatch),
            },
    {
        match Ddr5RawCardImpedance::from_u64(self.qck_dev4 as u64) {
            Some(e) => Ok(e),
            None => Err(Error::EntryTypeMismatch),
        }
    }

    pub fn set_qck_dev4(&mut self, value: Ddr5RawCardImpedance)
        ensures
            final(self).spec_qck_dev4() == value.spec_to_u64() as u16,
            final(self).spec_total_size() == old(self).spec_total_size(),
            final(self).spec_qck_dev0() == old(self).spec_qck_dev0(),
            final(self).spec_qck_dev1() == old(self).spec_qck_dev1(),
            final(self).spec_qck_dev2() == old(self).spec_qck_dev2(),
            final(self).spec_qck_dev3() == old(self).spec_qck_dev3(),
            final(self).spec_qck_dev5() == old(self).spec_qck_dev5(),
            final(self).spec_qck_dev6() == old(self).spec_qck_dev6(),
            final(self).spec_qck_dev7() == old(self).spec_qck_dev7(),
            final(self).spec_qck_dev8() == old(self).spec_qck_dev8(),
            final(self).spec_qck_dev9() == old(self).spec_qck_dev9(),
            final(self).spec_qck_drive_strength() == old(self).spec_qck_drive_strength(),
            final(self).spec_qck_slew() == old(self).spec_qck_slew(),
            final(self).spec_qcs_dev0() == old(self).spec_qcs_dev0(),
            final(self).spec_qcs_dev1() == old(self).spec_qcs_dev1(),
            final(self).spec_qcs_dev2() == old(self).spec_qcs_dev2(),
            final(self).spec_qcs_dev3() == old(self).spec_qcs_dev3(),
            final(self).spec_qcs_dev4() == old(self).spec_qcs_dev4(),
            final(self).spec_qcs_dev5() == old(self).spec_qcs_dev5(),
            final(self).spec_qcs_dev6() == old(self).spec_qcs_dev6(),
            final(self).spec_qcs_dev7() == old(self).spec_qcs_dev7(),
            final(self).spec_qcs_dev8() == old(self).spec_qcs_dev8(),
            final(self).spec_qcs_dev9() == old(self).spec_qcs_dev9(),
            final(self).spec_qcs_drive_strength() == old(self).spec_qcs_drive_strength(),
            final(self).spec_qcs_slew() == old(self).spec_qcs_slew(),
            final(self).spec_qcs_vref() == old(self).spec_qcs_vref(),
            final(self).spec_qca_dev0() == old(self).spec_qca_dev0(),
            final(self).spec_qca_dev1() == old(self).spec_qca_dev1(),
            final(self).spec_qca_dev2() == old(self).spec_qca_dev2(),
            final(self).spec_qca_dev3() == old(self).spec_qca_dev3(),
            final(self).spec_qca_dev4() == old(self).spec_qca_dev4(),
            final(self).spec_qca_dev5() == old(self).spec_qca_dev5(),
            final(self).spec_qca_dev6() == old(self).spec_qca_dev6(),
            final(self).spec_qca_dev7() == old(self).spec_qca_dev7(),
            final(self).spec_qca_dev8() == old(self).spec_qca_dev8(),
            final(self).spec_qca_dev9() == old(self).spec_qca_dev9(),
            final(self).spec_qca_drive_strength() == old(self).spec_qca_drive_strength(),
            final(self).spec_qca_slew() == old(self).spec_qca_slew(),
            final(self).spec_qca_vref() == old(self).spec_qca_vref(),
    {
        self.qck_dev4 = value.to_u64().unwrap() as u16;
    }

    pub fn qck_dev5(&self) -> (r: Result<Ddr5RawCardImpedance>)
        ensures
            r == match Ddr5RawCardImpedance::spec_from_u64(self.spec_qck_dev5() as u64) {
                Some(e) => Ok::<Ddr5RawCardImpedance, Error>(e),
                None => Err(Error::EntryTypeMismatch),
            },
    {
        match Ddr5RawCardImpedance::from_u64(self.qck_dev5 as u64) {
            Some(e) => Ok(e),
            None => Err(Error::EntryTypeMismatch),
        }
    }

    pub fn set_qck_dev5(&mut self, value: Ddr5RawCardImpedance)
        ensures
            final(self).spec_qck_dev5() == value.spec_to_u64() as u16,
            final(self).spec_total_size() == old(self).spec_total_size(),
            final(self).spec_qck_dev0() == old(self).spec_qck_dev0(),
            final(self).spec_qck_dev1() == old(self).spec_qck_dev1(),
            final(self).spec_qck_dev2() == old(self).spec_qck_dev2(),
            final(self).spec_qck_dev3() == old(self).spec_qck_dev3(),
            final(self).spec_qck_dev4() == old(self).spec_qck_dev4(),
            final(self).spec_qck_dev6() == old(self).spec_qck_dev6(),
            final(self).spec_qck_dev7() == old(self).spec_qck_dev7(),
            final(self).spec_qck_dev8() == old(self).spec_qck_dev8(),
            final(self).spec_qck_dev9() == old(self).spec_qck_dev9(),
            final(self).spec_qck_drive_strength() == old(self).spec_qck_drive_strength(),
            final(self).spec_qck_slew() == old(self).spec_qck_slew(),
            final(self).spec_qcs_dev0() == old(self).spec_qcs_dev0(),
            final(self).spec_qcs_dev1() == old(self).spec_qcs_dev1(),
            final(self).spec_qcs_dev2() == old(self).spec_qcs_dev2(),
            final(self).spec_qcs_dev3() == old(self).spec_qcs_dev3(),
            final(self).spec_qcs_dev4() == old(self).spec_qcs_dev4(),
            final(self).spec_qcs_dev5() == old(self).spec_qcs_dev5(),
            final(self).spec_qcs_dev6() == old(self).spec_qcs_dev6(),
            final(self).spec_qcs_dev7() == old(self).spec_qcs_dev7(),
            final(self).spec_qcs_dev8() == old(self).spec_qcs_dev8(),
            final(self).spec_qcs_dev9() == old(self).spec_qcs_dev9(),
            final(self).spec_qcs_drive_strength() == old(self).spec_qcs_drive_strength(),
            final(self).spec_qcs_slew() == old(self).spec_qcs_slew(),
            final(self).spec_qcs_vref() == old(self).spec_qcs_vref(),
            final(self).spec_qca_dev0() == old(self).spec_qca_dev0(),
            final(self).spec_qca_dev1() == old(self).spec_qca_dev1(),
            final(self).spec_qca_dev2() == old(self).spec_qca_dev2(),
            final(self).spec_qca_dev3() == old(self).spec_qca_dev3(),
            final(self).spec_qca_dev4() == old(self).spec_qca_dev4(),
            final(self).spec_qca_dev5() == old(self).spec_qca_dev5(),
            final(self).spec_qca_dev6() == old(self).spec_qca_dev6(),
            final(self).spec_qca_dev7() == old(self).spec_qca_dev7(),
            final(self).spec_qca_dev8() == old(self).spec_qca_dev8(),
            final(self).spec_qca_dev9() == old(self).spec_qca_dev9(),
            final(self).spec_qca_drive_strength() == old(self).spec_qca_drive_strength(),
            final(self).spec_qca_slew() == old(self).spec_qca_slew(),
            final(self).spec_qca_vref() == old(self).spec_qca_vref(),
    {
        self.qck_dev5 = value.to_u64().unwrap() as u16;
    }

    pub fn qck_dev6(&self) -> (r: Result<Ddr5RawCardImpedance>)
        ensures
            r == match Ddr5RawCardImpedance::spec_from_u64(self.spec_qck_dev6() as u64) {
                Some(e) => Ok::<Ddr5RawCardImpedance, Error>(e),
                None => Err(Error::EntryTypeMismatch),
            },
    {
        match Ddr5RawCardImpedance::from_u64(self.qck_dev6 as u64) {
            Some(e) => Ok(e),
            None => Err(Error::EntryTypeMismatch),
        }
    }

    pub fn set_qck_dev6(&mut self, value: Ddr5RawCardImpedance)
        ensures
            final(self).spec_qck_dev6() == value.spec_to_u64() as u16,
            final(self).spec_total_size() == old(self).spec_total_size(),
            final(self).spec_qck_dev0() == old(self).spec_qck_dev0(),
            final(self).spec_qck_dev1() == old(self).spec_qck_dev1(),
            final(self).spec_qck_dev2() == old(self).spec_qck_dev2(),
            final(self).spec_qck_dev3() == old(self).spec_qck_dev3(),
            final(self).spec_qck_dev4() == old(self).spec_qck_dev4(),
            final(self).spec_qck_dev5() == old(self).spec_qck_dev5(),
            final(self).spec_qck_dev7() == old(self).spec_qck_dev7(),
            final(self).spec_qck_dev8() == old(self).spec_qck_dev8(),
            final(self).spec_qck_dev9() == old(self).spec_qck_dev9(),
            final(self).spec_qck_drive_strength() == old(self).spec_qck_drive_strength(),
            final(self).spec_qck_slew() == old(self).spec_qck_slew(),
            final(self).spec_qcs_dev0() == old(self).spec_qcs_dev0(),
            final(self).spec_qcs_dev1() == old(self).spec_qcs_dev1(),
            final(self).spec_qcs_dev2() == old(self).spec_qcs_dev2(),
            final(self).spec_qcs_dev3() == old(self).spec_qcs_dev3(),
            final(self).spec_qcs_dev4() == old(self).spec_qcs_dev4(),
            final(self).spec_qcs_dev5() == old(self).spec_qcs_dev5(),
            final(self).spec_qcs_dev6() == old(self).spec_qcs_dev6(),
            final(self).spec_qcs_dev7() == old(self).spec_qcs_dev7(),
            final(self).spec_qcs_dev8() == old(self).spec_qcs_dev8(),
            final(self).spec_qcs_dev9() == old(self).spec_qcs_dev9(),
            final(self).spec_qcs_drive_strength() == old(self).spec_qcs_drive_strength(),
            final(self).spec_qcs_slew() == old(self).spec_qcs_slew(),
            final(self).spec_qcs_vref() == old(self).spec_qcs_vref(),
            final(self).spec_qca_dev0() == old(self).spec_qca_dev0(),
            final(self).spec_qca_dev1() == old(self).spec_qca_dev1(),
            final(self).spec_qca_dev2() == old(self).spec_qca_dev2(),
            final(self).spec_qca_dev3() == old(self).spec_qca_dev3(),
            final(self).spec_qca_dev4() == old(self).spec_qca_dev4(),
            final(self).spec_qca_dev5() == old(self).spec_qca_dev5(),
            final(self).spec_qca_dev6() == old(self).spec_qca_dev6(),
            final(self).spec_qca_dev7() == old(self).spec_qca_dev7(),
            final(self).spec_qca_dev8() == old(self).spec_qca_dev8(),
            final(self).spec_qca_dev9() == old(self).spec_qca_dev9(),
            final(self).spec_qca_drive_strength() == old(self).spec_qca_drive_strength(),
            final(self).spec_qca_slew() == old(self).spec_qca_slew(),
            final(self).spec_qca_vref() == old(self).spec_qca_vref(),
    {
        self.qck_dev6 = value.to_u64().unwrap() as u16;
    }

    pub fn qck_dev7(&self) -> (r: Result<Ddr5RawCardImpedance>)
        ensures
            r == match Ddr5RawCardImpedance::spec_from_u64(self.spec_qck_dev7() as u64) {
                Some(e) => Ok::<Ddr5RawCardImpedance, Error>(e),
                None => Err(Error::EntryTypeMismatch),
            },
    {
        match Ddr5RawCardImpedance::from_u64(self.qck_dev7 as u64) {
            Some(e) => Ok(e),
            None => Err(Error::EntryTypeMismatch),
        }
    }

    pub fn set_qck_dev7(&mut self, value: Ddr5RawCardImpedance)
        ensures
            final(self).spec_qck_dev7() == value.spec_to_u64() as u16,
            final(self).spec_total_size() == old(self).spec_total_size(),
            final(self).spec_qck_dev0() == old(self).spec_qck_dev0(),
            final(self).spec_qck_dev1() == old(self).spec_qck_dev1(),
            final(self).spec_qck_dev2() == old(self).spec_qck_dev2(),
            final(self).spec_qck_dev3() == old(self).spec_qck_dev3(),
            final(self).spec_qck_dev4() == old(self).spec_qck_dev4(),
            final(self).spec_qck_dev5() == old(self).spec_qck_dev5(),
            final(self).spec_qck_dev6() == old(self).spec_qck_dev6(),
            final(self).spec_qck_dev8() == old(self).spec_qck_dev8(),
            final(self).spec_qck_dev9() == old(self).spec_qck_dev9(),
            final(self).spec_qck_drive_strength() == old(self).spec_qck_drive_strength(),
            final(self).spec_qck_slew() == old(self).spec_qck_slew(),
            final(self).spec_qcs_dev0() == old(self).spec_qcs_dev0(),
            final(self).spec_qcs_dev1() == old(self).spec_qcs_dev1(),
            final(self).spec_qcs_dev2() == old(self).spec_qcs_dev2(),
            final(self).spec_qcs_dev3() == old(self).spec_qcs_dev3(),
            final(self).spec_qcs_dev4() == old(self).spec_qcs_dev4(),
            final(self).spec_qcs_dev5() == old(self).spec_qcs_dev5(),
            final(self).spec_qcs_dev6() == old(self).spec_qcs_dev6(),
            final(self).spec_qcs_dev7() == old(self).spec_qcs_dev7(),
            final(self).spec_qcs_dev8() == old(self).spec_qcs_dev8(),
            final(self).spec_qcs_dev9() == old(self).spec_qcs_dev9(),
            final(self).spec_qcs_drive_strength() == old(self).spec_qcs_drive_strength(),
            final(self).spec_qcs_slew() == old(self).spec_qcs_slew(),
            final(self).spec_qcs_vref() == old(self).spec_qcs_vref(),
            final(self).spec_qca_dev0() == old(self).spec_qca_dev0(),
            final(self).spec_qca_dev1() == old(self).spec_qca_dev1(),
            final(self).spec_qca_dev2() == old(self).spec_qca_dev2(),
            final(self).spec_qca_dev3() == old(self).spec_qca_dev3(),
            final(self).spec_qca_dev4() == old(self).spec_qca_dev4(),
            final(self).spec_qca_dev5() == old(self).spec_qca_dev5(),
            final(self).spec_qca_dev6() == old(self).spec_qca_dev6(),
            final(self).spec_qca_dev7() == old(self).spec_qca_dev7(),
            final(self).spec_qca_dev8() == old(self).spec_qca_dev8(),
            final(self).spec_qca_dev9() == old(self).spec_qca_dev9(),
            final(self).spec_qca_drive_strength() == old(self).spec_qca_drive_strength(),
            final(self).spec_qca_slew() == old(self).spec_qca_slew(),
            final(self).spec_qca_vref() == old(self).spec_qca_vref(),
    {
        self.qck_dev7 = value.to_u64().unwrap() as u16;
    }

    pub fn qck_dev8(&self) -> (r: Result<Ddr5RawCardImpedance>)
        ensures
            r == match Ddr5RawCardImpedance::spec_from_u64(self.spec_qck_dev8() as u64) {
                Some(e) => Ok::<Ddr5RawCardImpedance, Error>(e),
                None => Err(Error::EntryTypeMismatch),
            },
    {
        match Ddr5RawCardImpedance::from_u64(self.qck_dev8 as u64) {
            Some(e) => Ok(e),
            None => Err(Error::EntryTypeMismatch),
        }
    }

    pub fn set_qck_dev8(&mut self, value: Ddr5RawCardImpedance)
        ensures
            final(self).spec_qck_dev8() == value.spec_to_u64() as u16,
            final(self).spec_total_size() == old(self).spec_total_size(),
            final(self).spec_qck_dev0() == old(self).spec_qck_dev0(),
            final(self).spec_qck_dev1() == old(self).spec_qck_dev1(),
            final(self).spec_qck_dev2() == old(self).spec_qck_dev2(),
            final(self).spec_qck_dev3() == old(self).spec_qck_dev3(),
            final(self).spec_qck_dev4() == old(self).spec_qck_dev4(),
            final(self).spec_qck_dev5() == old(self).spec_qck_dev5(),
            final(self).spec_qck_dev6() == old(self).spec_qck_dev6(),
            final(self).spec_qck_dev7() == old(self).spec_qck_dev7(),
            final(self).spec_qck_dev9() == old(self).spec_qck_dev9(),
            final(self).spec_qck_drive_strength() == old(self).spec_qck_drive_strength(),
            final(self).spec_qck_slew() == old(self).spec_qck_slew(),
            final(self).spec_qcs_dev0() == old(self).spec_qcs_dev0(),
            final(self).spec_qcs_dev1() == old(self).spec_qcs_dev1(),
            final(self).spec_qcs_dev2() == old(self).spec_qcs_dev2(),
            final(self).spec_qcs_dev3() == old(self).spec_qcs_dev3(),
            final(self).spec_qcs_dev4() == old(self).spec_qcs_dev4(),
            final(self).spec_qcs_dev5() == old(self).spec_qcs_dev5(),
            final(self).spec_qcs_dev6() == old(self).spec_qcs_dev6(),
            final(self).spec_qcs_dev7() == old(self).spec_qcs_dev7(),
            final(self).spec_qcs_dev8() == old(self).spec_qcs_dev8(),
            final(self).spec_qcs_dev9() == old(self).spec_qcs_dev9(),
            final(self).spec_qcs_drive_strength() == old(self).spec_qcs_drive_strength(),
            final(self).spec_qcs_slew() == old(self).spec_qcs_slew(),
            final(self).spec_qcs_vref() == old(self).spec_qcs_vref(),
            final(self).spec_qca_dev0() == old(self).spec_qca_dev0(),
            final(self).spec_qca_dev1() == old(self).spec_qca_dev1(),
            final(self).spec_qca_dev2() == old(self).spec_qca_dev2(),
            final(self).spec_qca_dev3() == old(self).spec_qca_dev3(),
            final(self).spec_qca_dev4() == old(self).spec_qca_dev4(),
            final(self).spec_qca_dev5() == old(self).spec_qca_dev5(),
            final(self).spec_qca_dev6() == old(self).spec_qca_dev6(),
            final(self).spec_qca_dev7() == old(self).spec_qca_dev7(),
            final(self).spec_qca_dev8() == old(self).spec_qca_dev8(),
            final(self).spec_qca_dev9() == old(self).spec_qca_dev9(),
            final(self).spec_qca_drive_strength() == old(self).spec_qca_drive_strength(),
            final(self).spec_qca_slew() == old(self).spec_qca_slew(),
            final(self).spec_qca_vref() == old(self).spec_qca_vref(),
    {
        self.qck_dev8 = value.to_u64().unwrap() as u16;
    }

    pub fn qck_dev9(&self) -> (r: Result<Ddr5RawCardImpedance>)
        ensures
            r == match Ddr5RawCardImpedance::spec_from_u64(self.spec_qck_dev9() as u64) {
                Some(e) => Ok::<Ddr5RawCardImpedance, Error>(e),
                None => Err(Error::EntryTypeMismatch),
            },
    {
        match Ddr5RawCardImpedance::from_u64(self.qck_dev9 as u64) {
            Some(e) => Ok(e),
            None => Err(Error::EntryTypeMismatch),
        }
    }

    pub fn set_qck_dev9(&mut self, value: Ddr5RawCardImpedance)
        ensures
            final(self).spec_qck_dev9() == value.spec_to_u64() as u16,
            final(self).spec_total_size() == old(self).spec_total_size(),
            final(self).spec_qck_dev0() == old(self).spec_qck_dev0(),
            final(self).spec_qck_dev1() == old(self).spec_qck_dev1(),
            final(self).spec_qck_dev2() == old(self).spec_qck_dev2(),
            final(self).spec_qck_dev3() == old(self).spec_qck_dev3(),
            final(self).spec_qck_dev4() == old(self).spec_qck_dev4(),
            final(self).spec_qck_dev5() == old(self).spec_qck_dev5(),
            final(self).spec_qck_dev6() == old(self).spec_qck_dev6(),
            final(self).spec_qck_dev7() == old(self).spec_qck_dev7(),
            final(self).spec_qck_dev8() == old(self).spec_qck_dev8(),
            final(self).spec_qck_drive_strength() == old(self).spec_qck_drive_strength(),
            final(self).spec_qck_slew() == old(self).spec_qck_slew(),
            final(self).spec_qcs_dev0() == old(self).spec_qcs_dev0(),
            final(self).spec_qcs_dev1() == old(self).spec_qcs_dev1(),
            final(self).spec_qcs_dev2() == old(self).spec_qcs_dev2(),
            final(self).spec_qcs_dev3() == old(self).spec_qcs_dev3(),
            final(self).spec_qcs_dev4() == old(self).spec_qcs_dev4(),
            final(self).spec_qcs_dev5() == old(self).spec_qcs_dev5(),
            final(self).spec_qcs_dev6() == old(self).spec_qcs_dev6(),
            final(self).spec_qcs_dev7() == old(self).spec_qcs_dev7(),
            final(self).spec_qcs_dev8() == old(self).spec_qcs_dev8(),
            final(self).spec_qcs_dev9() == old(self).spec_qcs_dev9(),
            final(self).spec_qcs_drive_strength() == old(self).spec_qcs_drive_strength(),
            final(self).spec_qcs_slew() == old(self).spec_qcs_slew(),
            final(self).spec_qcs_vref() == old(self).spec_qcs_vref(),
            final(self).spec_qca_dev0() == old(self).spec_qca_dev0(),
            final(self).spec_qca_dev1() == old(self).spec_qca_dev1(),
            final(self).spec_qca_dev2() == old(self).spec_qca_dev2(),
            final(self).spec_qca_dev3() == old(self).spec_qca_dev3(),
            final(self).spec_qca_dev4() == old(self).spec_qca_dev4(),
            final(self).spec_qca_dev5() == old(self).spec_qca_dev5(),
            final(self).spec_qca_dev6() == old(self).spec_qca_dev6(),
            final(self).spec_qca_dev7() == old(self).spec_qca_dev7(),
            final(self).spec_qca_dev8() == old(self).spec_qca_dev8(),
            final(self).spec_qca_dev9() == old(self).spec_qca_dev9(),
            final(self).spec_qca_drive_strength() == old(self).spec_qca_drive_strength(),
            final(self).spec_qca_slew() == old(self).spec_qca_slew(),
            final(self).spec_qca_vref() == old(self).spec_qca_vref(),
    {
        self.qck_dev9 = value.to_u64().unwrap() as u16;
    }

    pub fn qcs_dev0(&self) -> (r: Result<Ddr5RawCardImpedance>)
        ensures
            r == match Ddr5RawCardImpedance::spec_from_u64(self.spec_qcs_dev0() as u64) {
                Some(e) => Ok::<Ddr5RawCardImpedance, Error>(e),
                None => Err(Error::EntryTypeMismatch),
            },
    {
        match Ddr5RawCardImpedance::from_u64(self.qcs_dev0 as u64) {
            Some(e) => Ok(e),
            None => Err(Error::EntryTypeMismatch),
        }
    }

    pub fn set_qcs_dev0(&mut self, value: Ddr5RawCardImpedance)
        ensures
            final(self).spec_qcs_dev0() == value.spec_to_u64() as u16,
            final(self).spec_total_size() == old(self).spec_total_size(),
            final(self).spec_qck_dev0() == old(self).spec_qck_dev0(),
            final(self).spec_qck_dev1() == old(self).spec_qck_dev1(),
            final(self).spec_qck_dev2() == old(self).spec_qck_dev2(),
            final(self).spec_qck_dev3() == old(self).spec_qck_dev3(),
            final(self).spec_qck_dev4() == old(self).spec_qck_dev4(),
            final(self).spec_qck_dev5() == old(self).spec_qck_dev5(),
            final(self).spec_qck_dev6() == old(self).spec_qck_dev6(),
            final(self).spec_qck_dev7() == old(self).spec_qck_dev7(),
            final(self).spec_qck_dev8() == old(self).spec_qck_dev8(),
            final(self).spec_qck_dev9() == old(self).spec_qck_dev9(),
            final(self).spec_qck_drive_strength() == old(self).spec_qck_drive_strength(),
            final(self).spec_qck_slew() == old(self).spec_qck_slew(),
            final(self).spec_qcs_dev1() == old(self).spec_qcs_dev1(),
            final(self).spec_qcs_dev2() == old(self).spec_qcs_dev2(),
            final(self).spec_qcs_dev3() == old(self).spec_qcs_dev3(),
            final(self).spec_qcs_dev4() == old(self).spec_qcs_dev4(),
            final(self).spec_qcs_dev5() == old(self).spec_qcs_dev5(),
            final(self).spec_qcs_dev6() == old(self).spec_qcs_dev6(),
            final(self).spec_qcs_dev7() == old(self).spec_qcs_dev7(),
            final(self).spec_qcs_dev8() == old(self).spec_qcs_dev8(),
            final(self).spec_qcs_dev9() == old(self).spec_qcs_dev9(),
            final(self).spec_qcs_drive_strength() == old(self).spec_qcs_drive_strength(),
            final(self).spec_qcs_slew() == old(self).spec_qcs_slew(),
            final(self).spec_qcs_vref() == old(self).spec_qcs_vref(),
            final(self).spec_qca_dev0() == old(self).spec_qca_dev0(),
            final(self).spec_qca_dev1() == old(self).spec_qca_dev1(),
            final(self).spec_qca_dev2() == old(self).spec_qca_dev2(),
            final(self).spec_qca_dev3() == old(self).spec_qca_dev3(),
            final(self).spec_qca_dev4() == old(self).spec_qca_dev4(),
            final(self).spec_qca_dev5() == old(self).spec_qca_dev5(),
            final(self).spec_qca_dev6() == old(self).spec_qca_dev6(),
            final(self).spec_qca_dev7() == old(self).spec_qca_dev7(),
            final(self).spec_qca_dev8() == old(self).spec_qca_dev8(),
            final(self).spec_qca_dev9() == old(self).spec_qca_dev9(),
            final(self).spec_qca_drive_strength() == old(self).spec_qca_drive_strength(),
            final(self).spec_qca_slew() == old(self).spec_qca_slew(),
            final(self).spec_qca_vref() == old(self).spec_qca_vref(),
    {
        self.qcs_dev0 = value.to_u64().unwrap() as u16;
    }

    pub fn qcs_dev1(&self) -> (r: Result<Ddr5RawCardImpedance>)
        ensures
            r == match Ddr5RawCardImpedance::spec_from_u64(self.spec_qcs_dev1() as u64) {
                Some(e) => Ok::<Ddr5RawCardImpedance, Error>(e),
                None => Err(Error::EntryTypeMismatch),
            },
    {
        match Ddr5RawCardImpedance::from_u64(self.qcs_dev1 as u64) {
            Some(e) => Ok(e),
            None => Err(Error::EntryTypeMismatch),
        }
    }

    pub fn set_qcs_dev1(&mut self, value: Ddr5RawCardImpedance)
        ensures
            final(self).spec_qcs_dev1() == value.spec_to_u64() as u16,
            final(self).spec_total_size() == old(self).spec_total_size(),
            final(self).spec_qck_dev0() == old(self).spec_qck_dev0(),
            final(self).spec_qck_dev1() == old(self).spec_qck_dev1(),
            final(self).spec_qck_dev2() == old(self).spec_qck_dev2(),
            final(self).spec_qck_dev3() == old(self).spec_qck_dev3(),
            final(self).spec_qck_dev4() == old(self).spec_qck_dev4(),
            final(self).spec_qck_dev5() == old(self).spec_qck_dev5(),
            final(self).spec_qck_dev6() == old(self).spec_qck_dev6(),
            final(self).spec_qck_dev7() == old(self).spec_qck_dev7(),
            final(self).spec_qck_dev8() == old(self).spec_qck_dev8(),
            final(self).spec_qck_dev9() == old(self).spec_qck_dev9(),
            final(self).spec_qck_drive_strength() == old(self).spec_qck_drive_strength(),
            final(self).spec_qck_slew() == old(self).spec_qck_slew(),
            final(self).spec_qcs_dev0() == old(self).spec_qcs_dev0(),
            final(self).spec_qcs_dev2() == old(self).spec_qcs_dev2(),
            final(self).spec_qcs_dev3() == old(self).spec_qcs_dev3(),
            final(self).spec_qcs_dev4() == old(self).spec_qcs_dev4(),
            final(self).spec_qcs_dev5() == old(self).spec_qcs_dev5(),
            final(self).spec_qcs_dev6() == old(self).spec_qcs_dev6(),
            final(self).spec_qcs_dev7() == old(self).spec_qcs_dev7(),
            final(self).spec_qcs_dev8() == old(self).spec_qcs_dev8(),
            final(self).spec_qcs_dev9() == old(self).spec_qcs_dev9(),
            final(self).spec_qcs_drive_strength() == old(self).spec_qcs_drive_strength(),
            final(self).spec_qcs_slew() == old(self).spec_qcs_slew(),
            final(self).spec_qcs_vref() == old(self).spec_qcs_vref(),
            final(self).spec_qca_dev0() == old(self).spec_qca_dev0(),
            final(self).spec_qca_dev1() == old(self).spec_qca_dev1(),
            final(self).spec_qca_dev2() == old(self).spec_qca_dev2(),
            final(self).spec_qca_dev3() == old(self).spec_qca_dev3(),
            final(self).spec_qca_dev4() == old(self).spec_qca_dev4(),
            final(self).spec_qca_dev5() == old(self).spec_qca_dev5(),
            final(self).spec_qca_dev6() == old(self).spec_qca_dev6(),
            final(self).spec_qca_dev7() == old(self).spec_qca_dev7(),
            final(self).spec_qca_dev8() == old(self).spec_qca_dev8(),
            final(self).spec_qca_dev9() == old(self).spec_qca_dev9(),
            final(self).spec_qca_drive_strength() == old(self).spec_qca_drive_strength(),
            final(self).spec_qca_slew() == old(self).spec_qca_slew(),
            final(self).spec_qca_vref() == old(self).spec_qca_vref(),
    {
        self.qcs_dev1 = value.to_u64().unwrap() as u16;
    }

    pub fn qcs_dev2(&self) -> (r: Result<Ddr5RawCardImpedance>)
        ensures
            r == match Ddr5RawCardImpedance::spec_from_u64(self.spec_qcs_dev2() as u64) {
                Some(e) => Ok::<Ddr5RawCardImpedance, Error>(e),
                None => Err(Error::EntryTypeMismatch),
            },
    {
        match Ddr5RawCardImpedance::from_u64(self.qcs_dev2 as u64) {
            Some(e) => Ok(e),
            None => Err(Error::EntryTypeMismatch),
        }
    }

    pub fn set_qcs_dev2(&mut self, value: Ddr5RawCardImpedance)
        ensures
            final(self).spec_qcs_dev2() == value.spec_to_u64() as u16,
            final(self).spec_total_size() == old(self).spec_total_size(),
            final(self).spec_qck_dev0() == old(self).spec_qck_dev0(),
            final(self).spec_qck_dev1() == old(self).spec_qck_dev1(),
            final(self).spec_qck_dev2() == old(self).spec_qck_dev2(),
            final(self).spec_qck_dev3() == old(self).spec_qck_dev3(),
            final(self).spec_qck_dev4() == old(self).spec_qck_dev4(),
            final(self).spec_qck_dev5() == old(self).spec_qck_dev5(),
            final(self).spec_qck_dev6() == old(self).spec_qck_dev6(),
            final(self).spec_qck_dev7() == old(self).spec_qck_dev7(),
            final(self).spec_qck_dev8() == old(self).spec_qck_dev8(),
            final(self).spec_qck_dev9() == old(self).spec_qck_dev9(),
            final(self).spec_qck_drive_strength() == old(self).spec_qck_drive_strength(),
            final(self).spec_qck_slew() == old(self).spec_qck_slew(),
            final(self).spec_qcs_dev0() == old(self).spec_qcs_dev0(),
            final(self).spec_qcs_dev1() == old(self).spec_qcs_dev1(),
            final(self).spec_qcs_dev3() == old(self).spec_qcs_dev3(),
            final(self).spec_qcs_dev4() == old(self).spec_qcs_dev4(),
            final(self).spec_qcs_dev5() == old(self).spec_qcs_dev5(),
            final(self).spec_qcs_dev6() == old(self).spec_qcs_dev6(),
            final(self).spec_qcs_dev7() == old(self).spec_qcs_dev7(),
            final(self).spec_qcs_dev8() == old(self).spec_qcs_dev8(),
            final(self).spec_qcs_dev9() == old(self).spec_qcs_dev9(),
            final(self).spec_qcs_drive_strength() == old(self).spec_qcs_drive_strength(),
            final(self).spec_qcs_slew() == old(self).spec_qcs_slew(),
            final(self).spec_qcs_vref() == old(self).spec_qcs_vref(),
            final(self).spec_qca_dev0() == old(self).spec_qca_dev0(),
            final(self).spec_qca_dev1() == old(self).spec_qca_dev1(),
            final(self).spec_qca_dev2() == old(self).spec_qca_dev2(),
            final(self).spec_qca_dev3() == old(self).spec_qca_dev3(),
            final(self).spec_qca_dev4() == old(self).spec_qca_dev4(),
            final(self).spec_qca_dev5() == old(self).spec_qca_dev5(),
            final(self).spec_qca_dev6() == old(self).spec_qca_dev6(),
            final(self).spec_qca_dev7() == old(self).spec_qca_dev7(),
            final(self).spec_qca_dev8() == old(self).spec_qca_dev8(),
            final(self).spec_qca_dev9() == old(self).spec_qca_dev9(),
            final(self).spec_qca_drive_strength() == old(self).spec_qca_drive_strength(),
            final(self).spec_qca_slew() == old(self).spec_qca_slew(),
            final(self).spec_qca_vref() == old(self).spec_qca_vref(),
    {
        self.qcs_dev2 = value.to_u64().unwrap() as u16;
    }

    pub fn qcs_dev3(&self) -> (r: Result<Ddr5RawCardImpedance>)
        ensures
            r == match Ddr5RawCardImpedance::spec_from_u64(self.spec_qcs_dev3() as u64) {
                Some(e) => Ok::<Ddr5RawCardImpedance, Error>(e),
                None => Err(Error::EntryTypeMismatch),
            },
    {
        match Ddr5RawCardImpedance::from_u64(self.qcs_dev3 as u64) {
            Some(e) => Ok(e),
            None => Err(Error::EntryTypeMismatch),
        }
    }

    pub fn set_qcs_dev3(&mut self, value: Ddr5RawCardImpedance)
        ensures
            final(self).spec_qcs_dev3() == value.spec_to_u64() as u16,
            final(self).spec_total_size() == old(self).spec_total_size(),
            final(self).spec_qck_dev0() == old(self).spec_qck_dev0(),
            final(self).spec_qck_dev1() == old(self).spec_qck_dev1(),
            final(self).spec_qck_dev2() == old(self).spec_qck_dev2(),
            final(self).spec_qck_dev3() == old(self).spec_qck_dev3(),
            final(self).spec_qck_dev4() == old(self).spec_qck_dev4(),
            final(self).spec_qck_dev5() == old(self).spec_qck_dev5(),
            final(self).spec_qck_dev6() == old(self).spec_qck_dev6(),
            final(self).spec_qck_dev7() == old(self).spec_qck_dev7(),
            final(self).spec_qck_dev8() == old(self).spec_qck_dev8(),
            final(self).spec_qck_dev9() == old(self).spec_qck_dev9(),
            final(self).spec_qck_drive_strength() == old(self).spec_qck_drive_strength(),
            final(self).spec_qck_slew() == old(self).spec_qck_slew(),
            final(self).spec_qcs_dev0() == old(self).spec_qcs_dev0(),
            final(self).spec_qcs_dev1() == old(self).spec_qcs_dev1(),
            final(self).spec_qcs_dev2() == old(self).spec_qcs_dev2(),
            final(self).spec_qcs_dev4() == old(self).spec_qcs_dev4(),
            final(self).spec_qcs_dev5() == old(self).spec_qcs_dev5(),
            final(self).spec_qcs_dev6() == old(self).spec_qcs_dev6(),
            final(self).spec_qcs_dev7() == old(self).spec_qcs_dev7(),
            final(self).spec_qcs_dev8() == old(self).spec_qcs_dev8(),
            final(self).spec_qcs_dev9() == old(self).spec_qcs_dev9(),
            final(self).spec_qcs_drive_strength() == old(self).spec_qcs_drive_strength(),
            final(self).spec_qcs_slew() == old(self).spec_qcs_slew(),
            final(self).spec_qcs_vref() == old(self).spec_qcs_vref(),
            final(self).spec_qca_dev0() == old(self).spec_qca_dev0(),
            final(self).spec_qca_dev1() == old(self).spec_qca_dev1(),
            final(self).spec_qca_dev2() == old(self).spec_qca_dev2(),
            final(self).spec_qca_dev3() == old(self).spec_qca_dev3(),
            final(self).spec_qca_dev4() == old(self).spec_qca_dev4(),
            final(self).spec_qca_dev5() == old(self).spec_qca_dev5(),
            final(self).spec_qca_dev6() == old(self).spec_qca_dev6(),
            final(self).spec_qca_dev7() == old(self).spec_qca_dev7(),
            final(self).spec_qca_dev8() == old(self).spec_qca_dev8(),
            final(self).spec_qca_dev9() == old(self).spec_qca_dev9(),
            final(self).spec_qca_drive_strength() == old(self).spec_qca_drive_strength(),
            final(self).spec_qca_slew() == old(self).spec_qca_slew(),
            final(self).spec_qca_vref() == old(self).spec_qca_vref(),
    {
        self.qcs_dev3 = value.to_u64().unwrap() as u16;
    }

    pub fn qcs_dev4(&self) -> (r: Result<Ddr5RawCardImpedance>)
        ensures
            r == match Ddr5RawCardImpedance::spec_from_u64(self.spec_qcs_dev4() as u64) {
                Some(e) => Ok::<Ddr5RawCardImpedance, Error>(e),
                None => Err(Error::EntryTypeMismatch),
            },
    {
        match Ddr5RawCardImpedance::from_u64(self.qcs_dev4 as u64) {
            Some(e) => Ok(e),
            None => Err(Error::EntryTypeMismatch),
        }
    }

    pub fn set_qcs_dev4(&mut self, value: Ddr5RawCardImpedance)
        ensures
            final(self).spec_qcs_dev4() == value.spec_to_u64() as u16,
            final(self).spec_total_size() == old(self).spec_total_size(),
            final(self).spec_qck_dev0() == old(self).spec_qck_dev0(),
            final(self).spec_qck_dev1() == old(self).spec_qck_dev1(),
            final(self).spec_qck_dev2() == old(self).spec_qck_dev2(),
            final(self).spec_qck_dev3() == old(self).spec_qck_dev3(),
            final(self).spec_qck_dev4() == old(self).spec_qck_dev4(),
            final(self).spec_qck_dev5() == old(self).spec_qck_dev5(),
            final(self).spec_qck_dev6() == old(self).spec_qck_dev6(),
            final(self).spec_qck_dev7() == old(self).spec_qck_dev7(),
            final(self).spec_qck_dev8() == old(self).spec_qck_dev8(),
            final(self).spec_qck_dev9() == old(self).spec_qck_dev9(),
            final(self).spec_qck_drive_strength() == old(self).spec_qck_drive_strength(),
            final(self).spec_qck_slew() == old(self).spec_qck_slew(),
            final(self).spec_qcs_dev0() == old(self).spec_qcs_dev0(),
            final(self).spec_qcs_dev1() == old(self).spec_qcs_dev1(),
            final(self).spec_qcs_dev2() == old(self).spec_qcs_dev2(),
            final(self).spec_qcs_dev3() == old(self).spec_qcs_dev3(),
            final(self).spec_qcs_dev5() == old(self).spec_qcs_dev5(),
            final(self).spec_qcs_dev6() == old(self).spec_qcs_dev6(),
            final(self).spec_qcs_dev7() == old(self).spec_qcs_dev7(),
            final(self).spec_qcs_dev8() == old(self).spec_qcs_dev8(),
            final(self).spec_qcs_dev9() == old(self).spec_qcs_dev9(),
            final(self).spec_qcs_drive_strength() == old(self).spec_qcs_drive_strength(),
            final(self).spec_qcs_slew() == old(self).spec_qcs_slew(),
            final(self).spec_qcs_vref() == old(self).spec_qcs_vref(),
            final(self).spec_qca_dev0() == old(self).spec_qca_dev0(),
            final(self).spec_qca_dev1() == old(self).spec_qca_dev1(),
            final(self).spec_qca_dev2() == old(self).spec_qca_dev2(),
            final(self).spec_qca_dev3() == old(self).spec_qca_dev3(),
            final(self).spec_qca_dev4() == old(self).spec_qca_dev4(),
            final(self).spec_qca_dev5() == old(self).spec_qca_dev5(),
            final(self).spec_qca_dev6() == old(self).spec_qca_dev6(),
            final(self).spec_qca_dev7() == old(self).spec_qca_dev7(),
            final(self).spec_qca_dev8() == old(self).spec_qca_dev8(),
            final(self).spec_qca_dev9() == old(self).spec_qca_dev9(),
            final(self).spec_qca_drive_strength() == old(self).spec_qca_drive_strength(),
            final(self).spec_qca_slew() == old(self).spec_qca_slew(),
            final(self).spec_qca_vref() == old(self).spec_qca_vref(),
    {
        self.qcs_dev4 = value.to_u64().unwrap() as u16;
    }

    pub fn qcs_dev5(&self) -> (r: Result<Ddr5RawCardImpedance>)
        ensures
            r == match Ddr5RawCardImpedance::spec_from_u64(self.spec_qcs_dev5() as u64) {
                Some(e) => Ok::<Ddr5RawCardImpedance, Error>(e),
                None => Err(Error::EntryTypeMismatch),
            },
    {
        match Ddr5RawCardImpedance::from_u64(self.qcs_dev5 as u64) {
            Some(e) => Ok(e),
            None => Err(Error::EntryTypeMismatch),
        }
    }

    pub fn set_qcs_dev5(&mut self, value: Ddr5RawCardImpedance)
        ensures
            final(self).spec_qcs_dev5() == value.spec_to_u64() as u16,
            final(self).spec_total_size() == old(self).spec_total_size(),
            final(self).spec_qck_dev0() == old(self).spec_qck_dev0(),
            final(self).spec_qck_dev1() == old(self).spec_qck_dev1(),
            final(self).spec_qck_dev2() == old(self).spec_qck_dev2(),
            final(self).spec_qck_dev3() == old(self).spec_qck_dev3(),
            final(self).spec_qck_dev4() == old(self).spec_qck_dev4(),
            final(self).spec_qck_dev5() == old(self).spec_qck_dev5(),
            final(self).spec_qck_dev6() == old(self).spec_qck_dev6(),
            final(self).spec_qck_dev7() == old(self).spec_qck_dev7(),
            final(self).spec_qck_dev8() == old(self).spec_qck_dev8(),
            final(self).spec_qck_dev9() == old(self).spec_qck_dev9(),
            final(self).spec_qck_drive_strength() == old(self).spec_qck_drive_strength(),
            final(self).spec_qck_slew() == old(self).spec_qck_slew(),
            final(self).spec_qcs_dev0() == old(self).spec_qcs_dev0(),
            final(self).spec_qcs_dev1() == old(self).spec_qcs_dev1(),
            final(self).spec_qcs_dev2() == old(self).spec_qcs_dev2(),
            final(self).spec_qcs_dev3() == old(self).spec_qcs_dev3(),
            final(self).spec_qcs_dev4() == old(self).spec_qcs_dev4(),
            final(self).spec_qcs_dev6() == old(self).spec_qcs_dev6(),
            final(self).spec_qcs_dev7() == old(self).spec_qcs_dev7(),
            final(self).spec_qcs_dev8() == old(self).spec_qcs_dev8(),
            final(self).spec_qcs_dev9() == old(self).spec_qcs_dev9(),
            final(self).spec_qcs_drive_strength() == old(self).spec_qcs_drive_strength(),
            final(self).spec_qcs_slew() == old(self).spec_qcs_slew(),
            final(self).spec_qcs_vref() == old(self).spec_qcs_vref(),
            final(self).spec_qca_dev0() == old(self).spec_qca_dev0(),
            final(self).spec_qca_dev1() == old(self).spec_qca_dev1(),
            final(self).spec_qca_dev2() == old(self).spec_qca_dev2(),
            final(self).spec_qca_dev3() == old(self).spec_qca_dev3(),
            final(self).spec_qca_dev4() == old(self).spec_qca_dev4(),
            final(self).spec_qca_dev5() == old(self).spec_qca_dev5(),
            final(self).spec_qca_dev6() == old(self).spec_qca_dev6(),
            final(self).spec_qca_dev7() == old(self).spec_qca_dev7(),
            final(self).spec_qca_dev8() == old(self).spec_qca_dev8(),
            final(self).spec_qca_dev9() == old(self).spec_qca_dev9(),
            final(self).spec_qca_drive_strength() == old(self).spec_qca_drive_strength(),
            final(self).spec_qca_slew() == old(self).spec_qca_slew(),
            final(self).spec_qca_vref() == old(self).spec_qca_vref(),
    {
        self.qcs_dev5 = value.to_u64().unwrap() as u16;
    }

    pub fn qcs_dev6(&self) -> (r: Result<Ddr5RawCardImpedance>)
        ensures
            r == match Ddr5RawCardImpedance::spec_from_u64(self.spec_qcs_dev6() as u64) {
                Some(e) => Ok::<Ddr5RawCardImpedance, Error>(e),
                None => Err(Error::EntryTypeMismatch),
            },
    {
        match Ddr5RawCardImpedance::from_u64(self.qcs_dev6 as u64) {
            Some(e) => Ok(e),
            None => Err(Error::EntryTypeMismatch),
        }
    }

    pub fn set_qcs_dev6(&mut self, value: Ddr5RawCardImpedance)
        ensures
            final(self).spec_qcs_dev6() == value.spec_to_u64() as u16,
            final(self).spec_total_size() == old(self).spec_total_size(),
            final(self).spec_qck_dev0() == old(self).spec_qck_dev0(),
            final(self).spec_qck_dev1() == old(self).spec_qck_dev1(),
            final(self).spec_qck_dev2() == old(self).spec_qck_dev2(),
            final(self).spec_qck_dev3() == old(self).spec_qck_dev3(),
            final(self).spec_qck_dev4() == old(self).spec_qck_dev4(),
            final(self).spec_qck_dev5() == old(self).spec_qck_dev5(),
            final(self).spec_qck_dev6() == old(self).spec_qck_dev6(),
            final(self).spec_qck_dev7() == old(self).spec_qck_dev7(),
            final(self).spec_qck_dev8() == old(self).spec_qck_dev8(),
            final(self).spec_qck_dev9() == old(self).spec_qck_dev9(),
            final(self).spec_qck_drive_strength() == old(self).spec_qck_drive_strength(),
            final(self).spec_qck_slew() == old(self).spec_qck_slew(),
            final(self).spec_qcs_dev0() == old(self).spec_qcs_dev0(),
            final(self).spec_qcs_dev1() == old(self).spec_qcs_dev1(),
            final(self).spec_qcs_dev2() == old(self).spec_qcs_dev2(),
            final(self).spec_qcs_dev3() == old(self).spec_qcs_dev3(),
            final(self).spec_qcs_dev4() == old(self).spec_qcs_dev4(),
            final(self).spec_qcs_dev5() == old(self).spec_qcs_dev5(),
            final(self).spec_qcs_dev7() == old(self).spec_qcs_dev7(),
            final(self).spec_qcs_dev8() == old(self).spec_qcs_dev8(),
            final(self).spec_qcs_dev9() == old(self).spec_qcs_dev9(),
            final(self).spec_qcs_drive_strength() == old(self).spec_qcs_drive_strength(),
            final(self).spec_qcs_slew() == old(self).spec_qcs_slew(),
            final(self).spec_qcs_vref() == old(self).spec_qcs_vref(),
            final(self).spec_qca_dev0() == old(self).spec_qca_dev0(),
            final(self).spec_qca_dev1() == old(self).spec_qca_dev1(),
            final(self).spec_qca_dev2() == old(self).spec_qca_dev2(),
            final(self).spec_qca_dev3() == old(self).spec_qca_dev3(),
            final(self).spec_qca_dev4() == old(self).spec_qca_dev4(),
            final(self).spec_qca_dev5() == old(self).spec_qca_dev5(),
            final(self).spec_qca_dev6() == old(self).spec_qca_dev6(),
            final(self).spec_qca_dev7() == old(self).spec_qca_dev7(),
            final(self).spec_qca_dev8() == old(self).spec_qca_dev8(),
            final(self).spec_qca_dev9() == old(self).spec_qca_dev9(),
            final(self).spec_qca_drive_strength() == old(self).spec_qca_drive_strength(),
            final(self).spec_qca_slew() == old(self).spec_qca_slew(),
            final(self).spec_qca_vref() == old(self).spec_qca_vref(),
    {
        self.qcs_dev6 = value.to_u64().unwrap() as u16;
    }

    pub fn qcs_dev7(&self) -> (r: Result<Ddr5RawCardImpedance>)
        ensures
            r == match Ddr5RawCardImpedance::spec_from_u64(self.spec_qcs_dev7() as u64) {
                Some(e) => Ok::<Ddr5RawCardImpedance, Error>(e),
                None => Err(Error::EntryTypeMismatch),
            },
    {
        match Ddr5RawCardImpedance::from_u64(self.qcs_dev7 as u64) {
            Some(e) => Ok(e),
            None => Err(Error::EntryTypeMismatch),
        }
    }

    pub fn set_qcs_dev7(&mut self, value: Ddr5RawCardImpedance)
        ensures
            final(self).spec_qcs_dev7() == value.spec_to_u64() as u16,
            final(self).spec_total_size() == old(self).spec_total_size(),
            final(self).spec_qck_dev0() == old(self).spec_qck_dev0(),
            final(self).spec_qck_dev1() == old(self).spec_qck_dev1(),
            final(self).spec_qck_dev2() == old(self).spec_qck_dev2(),
            final(self).spec_qck_dev3() == old(self).spec_qck_dev3(),
            final(self).spec_qck_dev4() == old(self).spec_qck_dev4(),
            final(self).spec_qck_dev5() == old(self).spec_qck_dev5(),
            final(self).spec_qck_dev6() == old(self).spec_qck_dev6(),
            final(self).spec_qck_dev7() == old(self).spec_qck_dev7(),
            final(self).spec_qck_dev8() == old(self).spec_qck_dev8(),
            final(self).spec_qck_dev9() == old(self).spec_qck_dev9(),
            final(self).spec_qck_drive_strength() == old(self).spec_qck_drive_strength(),
            final(self).spec_qck_slew() == old(self).spec_qck_slew(),
            final(self).spec_qcs_dev0() == old(self).spec_qcs_dev0(),
            final(self).spec_qcs_dev1() == old(self).spec_qcs_dev1(),
            final(self).spec_qcs_dev2() == old(self).spec_qcs_dev2(),
            final(self).spec_qcs_dev3() == old(self).spec_qcs_dev3(),
            final(self).spec_qcs_dev4() == old(self).spec_qcs_dev4(),
            final(self).spec_qcs_dev5() == old(self).spec_qcs_dev5(),
            final(self).spec_qcs_dev6() == old(self).spec_qcs_dev6(),
            final(self).spec_qcs_dev8() == old(self).spec_qcs_dev8(),
            final(self).spec_qcs_dev9() == old(self).spec_qcs_dev9(),
            final(self).spec_qcs_drive_strength() == old(self).spec_qcs_drive_strength(),
            final(self).spec_qcs_slew() == old(self).spec_qcs_slew(),
            final(self).spec_qcs_vref() == old(self).spec_qcs_vref(),
            final(self).spec_qca_dev0() == old(self).spec_qca_dev0(),
            final(self).spec_qca_dev1() == old(self).spec_qca_dev1(),
            final(self).spec_qca_dev2() == old(self).spec_qca_dev2(),
            final(self).spec_qca_dev3() == old(self).spec_qca_dev3(),
            final(self).spec_qca_dev4() == old(self).spec_qca_dev4(),
            final(self).spec_qca_dev5() == old(self).spec_qca_dev5(),
            final(self).spec_qca_dev6() == old(self).spec_qca_dev6(),
            final(self).spec_qca_dev7() == old(self).spec_qca_dev7(),
            final(self).spec_qca_dev8() == old(self).spec_qca_dev8(),
            final(self).spec_qca_dev9() == old(self).spec_qca_dev9(),
            final(self).spec_qca_drive_strength() == old(self).spec_qca_drive_strength(),
            final(self).spec_qca_slew() == old(self).spec_qca_slew(),
            final(self).spec_qca_vref() == old(self).spec_qca_vref(),
    {
        self.qcs_dev7 = value.to_u64().unwrap() as u16;
    }

    pub fn qcs_dev8(&self) -> (r: Result<Ddr5RawCardImpedance>)
        ensures
            r == match Ddr5RawCardImpedance::spec_from_u64(self.spec_qcs_dev8() as u64) {
                Some(e) => Ok::<Ddr5RawCardImpedance, Error>(e),
                None => Err(Error::EntryTypeMismatch),
            },
    {
        match Ddr5RawCardImpedance::from_u64(self.qcs_dev8 as u64) {
            Some(e) => Ok(e),
            None => Err(Error::EntryTypeMismatch),
        }
    }

    pub fn set_qcs_dev8(&mut self, value: Ddr5RawCardImpedance)
        ensures
            final(self).spec_qcs_dev8() == value.spec_to_u64() as u16,
            final(self).spec_total_size() == old(self).spec_total_size(),
            final(self).spec_qck_dev0() == old(self).spec_qck_dev0(),
            final(self).spec_qck_dev1() == old(self).spec_qck_dev1(),
            final(self).spec_qck_dev2() == old(self).spec_qck_dev2(),
            final(self).spec_qck_dev3() == old(self).spec_qck_dev3(),
            final(self).spec_qck_dev4() == old(self).spec_qck_dev4(),
            final(self).spec_qck_dev5() == old(self).spec_qck_dev5(),
            final(self).spec_qck_dev6() == old(self).spec_qck_dev6(),
            final(self).spec_qck_dev7() == old(self).spec_qck_dev7(),
            final(self).spec_qck_dev8() == old(self).spec_qck_dev8(),
            final(self).spec_qck_dev9() == old(self).spec_qck_dev9(),
            final(self).spec_qck_drive_strength() == old(self).spec_qck_drive_strength(),
            final(self).spec_qck_slew() == old(self).spec_qck_slew(),
            final(self).spec_qcs_dev0() == old(self).spec_qcs_dev0(),
            final(self).spec_qcs_dev1() == old(self).spec_qcs_dev1(),
            final(self).spec_qcs_dev2() == old(self).spec_qcs_dev2(),
            final(self).spec_qcs_dev3() == old(self).spec_qcs_dev3(),
            final(self).spec_qcs_dev4() == old(self).spec_qcs_dev4(),
            final(self).spec_qcs_dev5() == old(self).spec_qcs_dev5(),
            final(self).spec_qcs_dev6() == old(self).spec_qcs_dev6(),
            final(self).spec_qcs_dev7() == old(self).spec_qcs_dev7(),
            final(self).spec_qcs_dev9() == old(self).spec_qcs_dev9(),
            final(self).spec_qcs_drive_strength() == old(self).spec_qcs_drive_strength(),
            final(self).spec_qcs_slew() == old(self).spec_qcs_slew(),
            final(self).spec_qcs_vref() == old(self).spec_qcs_vref(),
            final(self).spec_qca_dev0() == old(self).spec_qca_dev0(),
            final(self).spec_qca_dev1() == old(self).spec_qca_dev1(),
            final(self).spec_qca_dev2() == old(self).spec_qca_dev2(),
            final(self).spec_qca_dev3() == old(self).spec_qca_dev3(),
            final(self).spec_qca_dev4() == old(self).spec_qca_dev4(),
            final(self).spec_qca_dev5() == old(self).spec_qca_dev5(),
            final(self).spec_qca_dev6() == old(self).spec_qca_dev6(),
            final(self).spec_qca_dev7() == old(self).spec_qca_dev7(),
            final(self).spec_qca_dev8() == old(self).spec_qca_dev8(),
            final(self).spec_qca_dev9() == old(self).spec_qca_dev9(),
            final(self).spec_qca_drive_strength() == old(self).spec_qca_drive_strength(),
            final(self).spec_qca_slew() == old(self).spec_qca_slew(),
            final(self).spec_qca_vref() == old(self).spec_qca_vref(),
    {
        self.qcs_dev8 = value.to_u64().unwrap() as u16;
    }

    pub fn qcs_dev9(&self) -> (r: Result<Ddr5RawCardImpedance>)
        ensures
            r == match Ddr5RawCardImpedance::spec_from_u64(self.spec_qcs_dev9() as u64) {
                Some(e) => Ok::<Ddr5RawCardImpedance, Error>(e),
                None => Err(Error::EntryTypeMismatch),
            },
    {
        match Ddr5RawCardImpedance::from_u64(self.qcs_dev9 as u64) {
            Some(e) => Ok(e),
            None => Err(Error::EntryTypeMismatch),
        }
    }

    pub fn set_qcs_dev9(&mut self, value: Ddr5RawCardImpedance)
        ensures
            final(self).spec_qcs_dev9() == value.spec_to_u64() as u16,
            final(self).spec_total_size() == old(self).spec_total_size(),
            final(self).spec_qck_dev0() == old(self).spec_qck_dev0(),
            final(self).spec_qck_dev1() == old(self).spec_qck_dev1(),
            final(self).spec_qck_dev2() == old(self).spec_qck_dev2(),
            final(self).spec_qck_dev3() == old(self).spec_qck_dev3(),
            final(self).spec_qck_dev4() == old(self).spec_qck_dev4(),
            final(self).spec_qck_dev5() == old(self).spec_qck_dev5(),
            final(self).spec_qck_dev6() == old(self).spec_qck_dev6(),
            final(self).spec_qck_dev7() == old(self).spec_qck_dev7(),
            final(self).spec_qck_dev8() == old(self).spec_qck_dev8(),
            final(self).spec_qck_dev9() == old(self).spec_qck_dev9(),
            final(self).spec_qck_drive_strength() == old(self).spec_qck_drive_strength(),
            final(self).spec_qck_slew() == old(self).spec_qck_slew(),
            final(self).spec_qcs_dev0() == old(self).spec_qcs_dev0(),
            final(self).spec_qcs_dev1() == old(self).spec_qcs_dev1(),
            final(self).spec_qcs_dev2() == old(self).spec_qcs_dev2(),
            final(self).spec_qcs_dev3() == old(self).spec_qcs_dev3(),
            final(self).spec_qcs_dev4() == old(self).spec_qcs_dev4(),
            final(self).spec_qcs_dev5() == old(self).spec_qcs_dev5(),
            final(self).spec_qcs_dev6() == old(self).spec_qcs_dev6(),
            final(self).spec_qcs_dev7() == old(self).spec_qcs_dev7(),
            final(self).spec_qcs_dev8() == old(self).spec_qcs_dev8(),
            final(self).spec_qcs_drive_strength() == old(self).spec_qcs_drive_strength(),
            final(self).spec_qcs_slew() == old(self).spec_qcs_slew(),
            final(self).spec_qcs_vref() == old(self).spec_qcs_vref(),
            final(self).spec_qca_dev0() == old(self).spec_qca_dev0(),
            final(self).spec_qca_dev1() == old(self).spec_qca_dev1(),
            final(self).spec_qca_dev2() == old(self).spec_qca_dev2(),
            final(self).spec_qca_dev3() == old(self).spec_qca_dev3(),
            final(self).spec_qca_dev4() == old(self).spec_qca_dev4(),
            final(self).spec_qca_dev5() == old(self).spec_qca_dev5(),
            final(self).spec_qca_dev6() == old(self).spec_qca_dev6(),
            final(self).spec_qca_dev7() == old(self).spec_qca_dev7(),
            final(self).spec_qca_dev8() == old(self).spec_qca_dev8(),
            final(self).spec_qca_dev9() == old(self).spec_qca_dev9(),
            final(self).spec_qca_drive_strength() == old(self).spec_qca_drive_strength(),
            final(self).spec_qca_slew() == old(self).spec_qca_slew(),
            final(self).spec_qca_vref() == old(self).spec_qca_vref(),
    {
        self.qcs_dev9 = value.to_u64().unwrap() as u16;
    }

    pub fn qcs_vref(&self) -> (r: Result<Ddr5RawCardVref>)
        ensures
            r == match Ddr5RawCardVref::spec_from_u64(self.spec_qcs_vref() as u64) {
                Some(e) => Ok::<Ddr5RawCardVref, Error>(e),
                None => Err(Error::EntryTypeMismatch),
            },
    {
        match Ddr5RawCardVref::from_u64(self.qcs_vref as u64) {
            Some(e) => Ok(e),
            None => Err(Error::EntryTypeMismatch),
        }
    }

    pub fn set_qcs_vref(&mut self, value: Ddr5RawCardVref)
        ensures
            final(self).spec_qcs_vref() == value.spec_to_u64() as u16,
            final(self).spec_total_size() == old(self).spec_total_size(),
            final(self).spec_qck_dev0() == old(self).spec_qck_dev0(),
            final(self).spec_qck_dev1() == old(self).spec_qck_dev1(),
            final(self).spec_qck_dev2() == old(self).spec_qck_dev2(),
            final(self).spec_qck_dev3() == old(self).spec_qck_dev3(),
            final(self).spec_qck_dev4() == old(self).spec_qck_dev4(),
            final(self).spec_qck_dev5() == old(self).spec_qck_dev5(),
            final(self).spec_qck_dev6() == old(self).spec_qck_dev6(),
            final(self).spec_qck_dev7() == old(self).spec_qck_dev7(),
            final(self).spec_qck_dev8() == old(self).spec_qck_dev8(),
            final(self).spec_qck_dev9() == old(self).spec_qck_dev9(),
            final(self).spec_qck_drive_strength() == old(self).spec_qck_drive_strength(),
            final(self).spec_qck_slew() == old(self).spec_qck_slew(),
            final(self).spec_qcs_dev0() == old(self).spec_qcs_dev0(),
            final(self).spec_qcs_dev1() == old(self).spec_qcs_dev1(),
            final(self).spec_qcs_dev2() == old(self).spec_qcs_dev2(),
            final(self).spec_qcs_dev3() == old(self).spec_qcs_dev3(),
            final(self).spec_qcs_dev4() == old(self).spec_qcs_dev4(),
            final(self).spec_qcs_dev5() == old(self).spec_qcs_dev5(),
            final(self).spec_qcs_dev6() == old(self).spec_qcs_dev6(),
            final(self).spec_qcs_dev7() == old(self).spec_qcs_dev7(),
            final(self).spec_qcs_dev8() == old(self).spec_qcs_dev8(),
            final(self).spec_qcs_dev9() == old(self).spec_qcs_dev9(),
            final(self).spec_qcs_drive_strength() == old(self).spec_qcs_drive_strength(),
            final(self).spec_qcs_slew() == old(self).spec_qcs_slew(),
            final(self).spec_qca_dev0() == old(self).spec_qca_dev0(),
            final(self).spec_qca_dev1() == old(self).spec_qca_dev1(),
            final(self).spec_qca_dev2() == old(self).spec_qca_dev2(),
            final(self).spec_qca_dev3() == old(self).spec_qca_dev3(),
            final(self).spec_qca_dev4() == old(self).spec_qca_dev4(),
            final(self).spec_qca_dev5() == old(self).spec_qca_dev5(),
            final(self).spec_qca_dev6() == old(self).spec_qca_dev6(),
            final(self).spec_qca_dev7() == old(self).spec_qca_dev7(),
            final(self).spec_qca_dev8() == old(self).spec_qca_dev8(),
            final(self).spec_qca_dev9() == old(self).spec_qca_dev9(),
            final(self).spec_qca_drive_strength() == old(self).spec_qca_drive_strength(),
            final(self).spec_qca_slew() == old(self).spec_qca_slew(),
            final(self).spec_qca_vref() == old(self).spec_qca_vref(),
    {
        self.qcs_vref = value.to_u64().unwrap() as u16;
    }

    pub fn qca_dev0(&self) -> (r: Result<Ddr5RawCardImpedance>)
        ensures
            r == match Ddr5RawCardImpedance::spec_from_u64(self.spec_qca_dev0() as u64) {
                Some(e) => Ok::<Ddr5RawCardImpedance, Error>(e),
                None => Err(Error::EntryTypeMismatch),
            },
    {
        match Ddr5RawCardImpedance::from_u64(self.qca_dev0 as u64) {
            Some(e) => Ok(e),
            None => Err(Error::EntryTypeMismatch),
        }
    }

    pub fn set_qca_dev0(&mut self, value: Ddr5RawCardImpedance)
        ensures
            final(self).spec_qca_dev0() == value.spec_to_u64() as u16,
            final(self).spec_total_size() == old(self).spec_total_size(),
            final(self).spec_qck_dev0() == old(self).spec_qck_dev0(),
            final(self).spec_qck_dev1() == old(self).spec_qck_dev1(),
            final(self).spec_qck_dev2() == old(self).spec_qck_dev2(),
            final(self).spec_qck_dev3() == old(self).spec_qck_dev3(),
            final(self).spec_qck_dev4() == old(self).spec_qck_dev4(),
            final(self).spec_qck_dev5() == old(self).spec_qck_dev5(),
            final(self).spec_qck_dev6() == old(self).spec_qck_dev6(),
            final(self).spec_qck_dev7() == old(self).spec_qck_dev7(),
            final(self).spec_qck_dev8() == old(self).spec_qck_dev8(),
            final(self).spec_qck_dev9() == old(self).spec_qck_dev9(),
            final(self).spec_qck_drive_strength() == old(self).spec_qck_drive_strength(),
            final(self).spec_qck_slew() == old(self).spec_qck_slew(),
            final(self).spec_qcs_dev0() == old(self).spec_qcs_dev0(),
            final(self).spec_qcs_dev1() == old(self).spec_qcs_dev1(),
            final(self).spec_qcs_dev2() == old(self).spec_qcs_dev2(),
            final(self).spec_qcs_dev3() == old(self).spec_qcs_dev3(),
            final(self).spec_qcs_dev4() == old(self).spec_qcs_dev4(),
            final(self).spec_qcs_dev5() == old(self).spec_qcs_dev5(),
            final(self).spec_qcs_dev6() == old(self).spec_qcs_dev6(),
            final(self).spec_qcs_dev7() == old(self).spec_qcs_dev7(),
            final(self).spec_qcs_dev8() == old(self).spec_qcs_dev8(),
            final(self).spec_qcs_dev9() == old(self).spec_qcs_dev9(),
            final(self).spec_qcs_drive_strength() == old(self).spec_qcs_drive_strength(),
            final(self).spec_qcs_slew() == old(self).spec_qcs_slew(),
            final(self).spec_qcs_vref() == old(self).spec_qcs_vref(),
            final(self).spec_qca_dev1() == old(self).spec_qca_dev1(),
            final(self).spec_qca_dev2() == old(self).spec_qca_dev2(),
            final(self).spec_qca_dev3() == old(self).spec_qca_dev3(),
            final(self).spec_qca_dev4() == old(self).spec_qca_dev4(),
            final(self).spec_qca_dev5() == old(self).spec_qca_dev5(),
            final(self).spec_qca_dev6() == old(self).spec_qca_dev6(),
            final(self).spec_qca_dev7() == old(self).spec_qca_dev7(),
            final(self).spec_qca_dev8() == old(self).spec_qca_dev8(),
            final(self).spec_qca_dev9() == old(self).spec_qca_dev9(),
            final(self).spec_qca_drive_strength() == old(self).spec_qca_drive_strength(),
            final(self).spec_qca_slew() == old(self).spec_qca_slew(),
            final(self).spec_qca_vref() == old(self).spec_qca_vref(),
    {
        self.qca_dev0 = value.to_u64().unwrap() as u16;
    }

    pub fn qca_dev1(&self) -> (r: Result<Ddr5RawCardImpedance>)
        ensures
            r == match Ddr5RawCardImpedance::spec_from_u64(self.spec_qca_dev1() as u64) {
                Some(e) => Ok::<Ddr5RawCardImpedance, Error>(e),
                None => Err(Error::EntryTypeMismatch),
            },
    {
        match Ddr5RawCardImpedance::from_u64(self.qca_dev1 as u64) {
            Some(e) => Ok(e),
            None => Err(Error::EntryTypeMismatch),
        }
    }

    pub fn set_qca_dev1(&mut self, value: Ddr5RawCardImpedance)
        ensures
            final(self).spec_qca_dev1() == value.spec_to_u64() as u16,
            final(self).spec_total_size() == old(self).spec_total_size(),
            final(self).spec_qck_dev0() == old(self).spec_qck_dev0(),
            final(self).spec_qck_dev1() == old(self).spec_qck_dev1(),
            final(self).spec_qck_dev2() == old(self).spec_qck_dev2(),
            final(self).spec_qck_dev3() == old(self).spec_qck_dev3(),
            final(self).spec_qck_dev4() == old(self).spec_qck_dev4(),
            final(self).spec_qck_dev5() == old(self).spec_qck_dev5(),
            final(self).spec_qck_dev6() == old(self).spec_qck_dev6(),
            final(self).spec_qck_dev7() == old(self).spec_qck_dev7(),
            final(self).spec_qck_dev8() == old(self).spec_qck_dev8(),
            final(self).spec_qck_dev9() == old(self).spec_qck_dev9(),
            final(self).spec_qck_drive_strength() == old(self).spec_qck_drive_strength(),
            final(self).spec_qck_slew() == old(self).spec_qck_slew(),
            final(self).spec_qcs_dev0() == old(self).spec_qcs_dev0(),
            final(self).spec_qcs_dev1() == old(self).spec_qcs_dev1(),
            final(self).spec_qcs_dev2() == old(self).spec_qcs_dev2(),
            final(self).spec_qcs_dev3() == old(self).spec_qcs_dev3(),
            final(self).spec_qcs_dev4() == old(self).spec_qcs_dev4(),
            final(self).spec_qcs_dev5() == old(self).spec_qcs_dev5(),
            final(self).spec_qcs_dev6() == old(self).spec_qcs_dev6(),
            final(self).spec_qcs_dev7() == old(self).spec_qcs_dev7(),
            final(self).spec_qcs_dev8() == old(self).spec_qcs_dev8(),
            final(self).spec_qcs_dev9() == old(self).spec_qcs_dev9(),
            final(self).spec_qcs_drive_strength() == old(self).spec_qcs_drive_strength(),
            final(self).spec_qcs_slew() == old(self).spec_qcs_slew(),
            final(self).spec_qcs_vref() == old(self).spec_qcs_vref(),
            final(self).spec_qca_dev0() == old(self).spec_qca_dev0(),
            final(self).spec_qca_dev2() == old(self).spec_qca_dev2(),
            final(self).spec_qca_dev3() == old(self).spec_qca_dev3(),
            final(self).spec_qca_dev4() == old(self).spec_qca_dev4(),
            final(self).spec_qca_dev5() == old(self).spec_qca_dev5(),
            final(self).spec_qca_dev6() == old(self).spec_qca_dev6(),
            final(self).spec_qca_dev7() == old(self).spec_qca_dev7(),
            final(self).spec_qca_dev8() == old(self).spec_qca_dev8(),
            final(self).spec_qca_dev9() == old(self).spec_qca_dev9(),
            final(self).spec_qca_drive_strength() == old(self).spec_qca_drive_strength(),
            final(self).spec_qca_slew() == old(self).spec_qca_slew(),
            final(self).spec_qca_vref() == old(self).spec_qca_vref(),
    {
        self.qca_dev1 = value.to_u64().unwrap() as u16;
    }

    pub fn qca_dev2(&self) -> (r: Result<Ddr5RawCardImpedance>)
        ensures
            r == match Ddr5RawCardImpedance::spec_from_u64(self.spec_qca_dev2() as u64) {
                Some(e) => Ok::<Ddr5RawCardImpedance, Error>(e),
                None => Err(Error::EntryTypeMismatch),
            },
    {
        match Ddr5RawCardImpedance::from_u64(self.qca_dev2 as u64) {
            Some(e) => Ok(e),
            None => Err(Error::EntryTypeMismatch),
        }
    }

    pub fn set_qca_dev2(&mut self, value: Ddr5RawCardImpedance)
        ensures
            final(self).spec_qca_dev2() == value.spec_to_u64() as u16,
            final(self).spec_total_size() == old(self).spec_total_size(),
            final(self).spec_qck_dev0() == old(self).spec_qck_dev0(),
            final(self).spec_qck_dev1() == old(self).spec_qck_dev1(),
            final(self).spec_qck_dev2() == old(self).spec_qck_dev2(),
            final(self).spec_qck_dev3() == old(self).spec_qck_dev3(),
            final(self).spec_qck_dev4() == old(self).spec_qck_dev4(),
            final(self).spec_qck_dev5() == old(self).spec_qck_dev5(),
            final(self).spec_qck_dev6() == old(self).spec_qck_dev6(),
            final(self).spec_qck_dev7() == old(self).spec_qck_dev7(),
            final(self).spec_qck_dev8() == old(self).spec_qck_dev8(),
            final(self).spec_qck_dev9() == old(self).spec_qck_dev9(),
            final(self).spec_qck_drive_strength() == old(self).spec_qck_drive_strength(),
            final(self).spec_qck_slew() == old(self).spec_qck_slew(),
            final(self).spec_qcs_dev0() == old(self).spec_qcs_dev0(),
            final(self).spec_qcs_dev1() == old(self).spec_qcs_dev1(),
            final(self).spec_qcs_dev2() == old(self).spec_qcs_dev2(),
            final(self).spec_qcs_dev3() == old(self).spec_qcs_dev3(),
            final(self).spec_qcs_dev4() == old(self).spec_qcs_dev4(),
            final(self).spec_qcs_dev5() == old(self).spec_qcs_dev5(),
            final(self).spec_qcs_dev6() == old(self).spec_qcs_dev6(),
            final(self).spec_qcs_dev7() == old(self).spec_qcs_dev7(),
            final(self).spec_qcs_dev8() == old(self).spec_qcs_dev8(),
            final(self).spec_qcs_dev9() == old(self).spec_qcs_dev9(),
            final(self).spec_qcs_drive_strength() == old(self).spec_qcs_drive_strength(),
            final(self).spec_qcs_slew() == old(self).spec_qcs_slew(),
            final(self).spec_qcs_vref() == old(self).spec_qcs_vref(),
            final(self).spec_qca_dev0() == old(self).spec_qca_dev0(),
            final(self).spec_qca_dev1() == old(self).spec_qca_dev1(),
            final(self).spec_qca_dev3() == old(self).spec_qca_dev3(),
            final(self).spec_qca_dev4() == old(self).spec_qca_dev4(),
            final(self).spec_qca_dev5() == old(self).spec_qca_dev5(),
            final(self).spec_qca_dev6() == old(self).spec_qca_dev6(),
            final(self).spec_qca_dev7() == old(self).spec_qca_dev7(),
            final(self).spec_qca_dev8() == old(self).spec_qca_dev8(),
            final(self).spec_qca_dev9() == old(self).spec_qca_dev9(),
            final(self).spec_qca_drive_strength() == old(self).spec_qca_drive_strength(),
            final(self).spec_qca_slew() == old(self).spec_qca_slew(),
            final(self).spec_qca_vref() == old(self).spec_qca_vref(),
    {
        self.qca_dev2 = value.to_u64().unwrap() as u16;
    }

    pub fn qca_dev3(&self) -> (r: Result<Ddr5RawCardImpedance>)
        ensures
            r == match Ddr5RawCardImpedance::spec_from_u64(self.spec_qca_dev3() as u64) {
                Some(e) => Ok::<Ddr5RawCardImpedance, Error>(e),
                None => Err(Error::EntryTypeMismatch),
            },
    {
        match Ddr5RawCardImpedance::from_u64(self.qca_dev3 as u64) {
            Some(e) => Ok(e),
            None => Err(Error::EntryTypeMismatch),
        }
    }

    pub fn set_qca_dev3(&mut self, value: Ddr5RawCardImpedance)
        ensures
            final(self).spec_qca_dev3() == value.spec_to_u64() as u16,
            final(self).spec_total_size() == old(self).spec_total_size(),
            final(self).spec_qck_dev0() == old(self).spec_qck_dev0(),
            final(self).spec_qck_dev1() == old(self).spec_qck_dev1(),
            final(self).spec_qck_dev2() == old(self).spec_qck_dev2(),
            final(self).spec_qck_dev3() == old(self).spec_qck_dev3(),
            final(self).spec_qck_dev4() == old(self).spec_qck_dev4(),
            final(self).spec_qck_dev5() == old(self).spec_qck_dev5(),
            final(self).spec_qck_dev6() == old(self).spec_qck_dev6(),
            final(self).spec_qck_dev7() == old(self).spec_qck_dev7(),
            final(self).spec_qck_dev8() == old(self).spec_qck_dev8(),
            final(self).spec_qck_dev9() == old(self).spec_qck_dev9(),
            final(self).spec_qck_drive_strength() == old(self).spec_qck_drive_strength(),
            final(self).spec_qck_slew() == old(self).spec_qck_slew(),
            final(self).spec_qcs_dev0() == old(self).spec_qcs_dev0(),
            final(self).spec_qcs_dev1() == old(self).spec_qcs_dev1(),
            final(self).spec_qcs_dev2() == old(self).spec_qcs_dev2(),
            final(self).spec_qcs_dev3() == old(self).spec_qcs_dev3(),
            final(self).spec_qcs_dev4() == old(self).spec_qcs_dev4(),
            final(self).spec_qcs_dev5() == old(self).spec_qcs_dev5(),
            final(self).spec_qcs_dev6() == old(self).spec_qcs_dev6(),
            final(self).spec_qcs_dev7() == old(self).spec_qcs_dev7(),
            final(self).spec_qcs_dev8() == old(self).spec_qcs_dev8(),
            final(self).spec_qcs_dev9() == old(self).spec_qcs_dev9(),
            final(self).spec_qcs_drive_strength() == old(self).spec_qcs_drive_strength(),
            final(self).spec_qcs_slew() == old(self).spec_qcs_slew(),
            final(self).spec_qcs_vref() == old(self).spec_qcs_vref(),
            final(self).spec_qca_dev0() == old(self).spec_qca_dev0(),
            final(self).spec_qca_dev1() == old(self).spec_qca_dev1(),
            final(self).spec_qca_dev2() == old(self).spec_qca_dev2(),
            final(self).spec_qca_dev4() == old(self).spec_qca_dev4(),
            final(self).spec_qca_dev5() == old(self).spec_qca_dev5(),
            final(self).spec_qca_dev6() == old(self).spec_qca_dev6(),
            final(self).spec_qca_dev7() == old(self).spec_qca_dev7(),
            final(self).spec_qca_dev8() == old(self).spec_qca_dev8(),
            final(self).spec_qca_dev9() == old(self).spec_qca_dev9(),
            final(self).spec_qca_drive_strength() == old(self).spec_qca_drive_strength(),
            final(self).spec_qca_slew() == old(self).spec_qca_slew(),
            final(self).spec_qca_vref() == old(self).spec_qca_vref(),
    {
        self.qca_dev3 = value.to_u64().unwrap() as u16;
    }

    pub fn qca_dev4(&self) -> (r: Result<Ddr5RawCardImpedance>)
        ensures
            r == match Ddr5RawCardImpedance::spec_from_u64(self.spec_qca_dev4() as u64) {
                Some(e) => Ok::<Ddr5RawCardImpedance, Error>(e),
                None => Err(Error::EntryTypeMismatch),
            },
    {
        match Ddr5RawCardImpedance::from_u64(self.qca_dev4 as u64) {
            Some(e) => Ok(e),
            None => Err(Error::EntryTypeMismatch),
        }
    }

    pub fn set_qca_dev4(&mut self, value: Ddr5RawCardImpedance)
        ensures
            final(self).spec_qca_dev4() == value.spec_to_u64() as u16,
            final(self).spec_total_size() == old(self).spec_total_size(),
            final(self).spec_qck_dev0() == old(self).spec_qck_dev0(),
            final(self).spec_qck_dev1() == old(self).spec_qck_dev1(),
            final(self).spec_qck_dev2() == old(self).spec_qck_dev2(),
            final(self).spec_qck_dev3() == old(self).spec_qck_dev3(),
            final(self).spec_qck_dev4() == old(self).spec_qck_dev4(),
            final(self).spec_qck_dev5() == old(self).spec_qck_dev5(),
            final(self).spec_qck_dev6() == old(self).spec_qck_dev6(),
            final(self).spec_qck_dev7() == old(self).spec_qck_dev7(),
            final(self).spec_qck_dev8() == old(self).spec_qck_dev8(),
            final(self).spec_qck_dev9() == old(self).spec_qck_dev9(),
            final(self).spec_qck_drive_strength() == old(self).spec_qck_drive_strength(),
            final(self).spec_qck_slew() == old(self).spec_qck_slew(),
            final(self).spec_qcs_dev0() == old(self).spec_qcs_dev0(),
            final(self).spec_qcs_dev1() == old(self).spec_qcs_dev1(),
            final(self).spec_qcs_dev2() == old(self).spec_qcs_dev2(),
            final(self).spec_qcs_dev3() == old(self).spec_qcs_dev3(),
            final(self).spec_qcs_dev4() == old(self).spec_qcs_dev4(),
            final(self).spec_qcs_dev5() == old(self).spec_qcs_dev5(),
            final(self).spec_qcs_dev6() == old(self).spec_qcs_dev6(),
            final(self).spec_qcs_dev7() == old(self).spec_qcs_dev7(),
            final(self).spec_qcs_dev8() == old(self).spec_qcs_dev8(),
            final(self).spec_qcs_dev9() == old(self).spec_qcs_dev9(),
            final(self).spec_qcs_drive_strength() == old(self).spec_qcs_drive_strength(),
            final(self).spec_qcs_slew() == old(self).spec_qcs_slew(),
            final(self).spec_qcs_vref() == old(self).spec_qcs_vref(),
            final(self).spec_qca_dev0() == old(self).spec_qca_dev0(),
            final(self).spec_qca_dev1() == old(self).spec_qca_dev1(),
            final(self).spec_qca_dev2() == old(self).spec_qca_dev2(),
            final(self).spec_qca_dev3() == old(self).spec_qca_dev3(),
            final(self).spec_qca_dev5() == old(self).spec_qca_dev5(),
            final(self).spec_qca_dev6() == old(self).spec_qca_dev6(),
            final(self).spec_qca_dev7() == old(self).spec_qca_dev7(),
            final(self).spec_qca_dev8() == old(self).spec_qca_dev8(),
            final(self).spec_qca_dev9() == old(self).spec_qca_dev9(),
            final(self).spec_qca_drive_strength() == old(self).spec_qca_drive_strength(),
            final(self).spec_qca_slew() == old(self).spec_qca_slew(),
            final(self).spec_qca_vref() == old(self).spec_qca_vref(),
    {
        self.qca_dev4 = value.to_u64().unwrap() as u16;
    }

    pub fn qca_dev5(&self) -> (r: Result<Ddr5RawCardImpedance>)
        ensures
            r == match Ddr5RawCardImpedance::spec_from_u64(self.spec_qca_dev5() as u64) {
                Some(e) => Ok::<Ddr5RawCardImpedance, Error>(e),
                None => Err(Error::EntryTypeMismatch),
            },
    {
        match Ddr5RawCardImpedance::from_u64(self.qca_dev5 as u64) {
            Some(e) => Ok(e),
            None => Err(Error::EntryTypeMismatch),
        }
    }

    pub fn set_qca_dev5(&mut self, value: Ddr5RawCardImpedance)
        ensures
            final(self).spec_qca_dev5() == value.spec_to_u64() as u16,
            final(self).spec_total_size() == old(self).spec_total_size(),
            final(self).spec_qck_dev0() == old(self).spec_qck_dev0(),
            final(self).spec_qck_dev1() == old(self).spec_qck_dev1(),
            final(self).spec_qck_dev2() == old(self).spec_qck_dev2(),
            final(self).spec_qck_dev3() == old(self).spec_qck_dev3(),
            final(self).spec_qck_dev4() == old(self).spec_qck_dev4(),
            final(self).spec_qck_dev5() == old(self).spec_qck_dev5(),
            final(self).spec_qck_dev6() == old(self).spec_qck_dev6(),
            final(self).spec_qck_dev7() == old(self).spec_qck_dev7(),
            final(self).spec_qck_dev8() == old(self).spec_qck_dev8(),
            final(self).spec_qck_dev9() == old(self).spec_qck_dev9(),
            final(self).spec_qck_drive_strength() == old(self).spec_qck_drive_strength(),
            final(self).spec_qck_slew() == old(self).spec_qck_slew(),
            final(self).spec_qcs_dev0() == old(self).spec_qcs_dev0(),
            final(self).spec_qcs_dev1() == old(self).spec_qcs_dev1(),
            final(self).spec_qcs_dev2() == old(self).spec_qcs_dev2(),
            final(self).spec_qcs_dev3() == old(self).spec_qcs_dev3(),
            final(self).spec_qcs_dev4() == old(self).spec_qcs_dev4(),
            final(self).spec_qcs_dev5() == old(self).spec_qcs_dev5(),
            final(self).spec_qcs_dev6() == old(self).spec_qcs_dev6(),
            final(self).spec_qcs_dev7() == old(self).spec_qcs_dev7(),
            final(self).spec_qcs_dev8() == old(self).spec_qcs_dev8(),
            final(self).spec_qcs_dev9() == old(self).spec_qcs_dev9(),
            final(self).spec_qcs_drive_strength() == old(self).spec_qcs_drive_strength(),
            final(self).spec_qcs_slew() == old(self).spec_qcs_slew(),
            final(self).spec_qcs_vref() == old(self).spec_qcs_vref(),
            final(self).spec_qca_dev0() == old(self).spec_qca_dev0(),
            final(self).spec_qca_dev1() == old(self).spec_qca_dev1(),
            final(self).spec_qca_dev2() == old(self).spec_qca_dev2(),
            final(self).spec_qca_dev3() == old(self).spec_qca_dev3(),
            final(self).spec_qca_dev4() == old(self).spec_qca_dev4(),
            final(self).spec_qca_dev6() == old(self).spec_qca_dev6(),
            final(self).spec_qca_dev7() == old(self).spec_qca_dev7(),
            final(self).spec_qca_dev8() == old(self).spec_qca_dev8(),
            final(self).spec_qca_dev9() == old(self).spec_qca_dev9(),
            final(self).spec_qca_drive_strength() == old(self).spec_qca_drive_strength(),
            final(self).spec_qca_slew() == old(self).spec_qca_slew(),
            final(self).spec_qca_vref() == old(self).spec_qca_vref(),
    {
        self.qca_dev5 = value.to_u64().unwrap() as u16;
    }

    pub fn qca_dev6(&self) -> (r: Result<Ddr5RawCardImpedance>)
        ensures
            r == match Ddr5RawCardImpedance::spec_from_u64(self.spec_qca_dev6() as u64) {
                Some(e) => Ok::<Ddr5RawCardImpedance, Error>(e),
                None => Err(Error::EntryTypeMismatch),
            },
    {
        match Ddr5RawCardImpedance::from_u64(self.qca_dev6 as u64) {
            Some(e) => Ok(e),
            None => Err(Error::EntryTypeMismatch),
        }
    }

    pub fn set_qca_dev6(&mut self, value: Ddr5RawCardImpedance)
        ensures
            final(self).spec_qca_dev6() == value.spec_to_u64() as u16,
            final(self).spec_total_size() == old(self).spec_total_size(),
            final(self).spec_qck_dev0() == old(self).spec_qck_dev0(),
            final(self).spec_qck_dev1() == old(self).spec_qck_dev1(),
            final(self).spec_qck_dev2() == old(self).spec_qck_dev2(),
            final(self).spec_qck_dev3() == old(self).spec_qck_dev3(),
            final(self).spec_qck_dev4() == old(self).spec_qck_dev4(),
            final(self).spec_qck_dev5() == old(self).spec_qck_dev5(),
            final(self).spec_qck_dev6() == old(self).spec_qck_dev6(),
            final(self).spec_qck_dev7() == old(self).spec_qck_dev7(),
            final(self).spec_qck_dev8() == old(self).spec_qck_dev8(),
            final(self).spec_qck_dev9() == old(self).spec_qck_dev9(),
            final(self).spec_qck_drive_strength() == old(self).spec_qck_drive_strength(),
            final(self).spec_qck_slew() == old(self).spec_qck_slew(),
            final(self).spec_qcs_dev0() == old(self).spec_qcs_dev0(),
            final(self).spec_qcs_dev1() == old(self).spec_qcs_dev1(),
            final(self).spec_qcs_dev2() == old(self).spec_qcs_dev2(),
            final(self).spec_qcs_dev3() == old(self).spec_qcs_dev3(),
            final(self).spec_qcs_dev4() == old(self).spec_qcs_dev4(),
            final(self).spec_qcs_dev5() == old(self).spec_qcs_dev5(),
            final(self).spec_qcs_dev6() == old(self).spec_qcs_dev6(),
            final(self).spec_qcs_dev7() == old(self).spec_qcs_dev7(),
            final(self).spec_qcs_dev8() == old(self).spec_qcs_dev8(),
            final(self).spec_qcs_dev9() == old(self).spec_qcs_dev9(),
            final(self).spec_qcs_drive_strength() == old(self).spec_qcs_drive_strength(),
            final(self).spec_qcs_slew() == old(self).spec_qcs_slew(),
            final(self).spec_qcs_vref() == old(self).spec_qcs_vref(),
            final(self).spec_qca_dev0() == old(self).spec_qca_dev0(),
            final(self).spec_qca_dev1() == old(self).spec_qca_dev1(),
            final(self).spec_qca_dev2() == old(self).spec_qca_dev2(),
            final(self).spec_qca_dev3() == old(self).spec_qca_dev3(),
            final(self).spec_qca_dev4() == old(self).spec_qca_dev4(),
            final(self).spec_qca_dev5() == old(self).spec_qca_dev5(),
            final(self).spec_qca_dev7() == old(self).spec_qca_dev7(),
            final(self).spec_qca_dev8() == old(self).spec_qca_dev8(),
            final(self).spec_qca_dev9() == old(self).spec_qca_dev9(),
            final(self).spec_qca_drive_strength() == old(self).spec_qca_drive_strength(),
            final(self).spec_qca_slew() == old(self).spec_qca_slew(),
            final(self).spec_qca_vref() == old(self).spec_qca_vref(),
    {
        self.qca_dev6 = value.to_u64().unwrap() as u16;
    }

    pub fn qca_dev7(&self) -> (r: Result<Ddr5RawCardImpedance>)
        ensures
            r == match Ddr5RawCardImpedance::spec_from_u64(self.spec_qca_dev7() as u64) {
                Some(e) => Ok::<Ddr5RawCardImpedance, Error>(e),
                None => Err(Error::EntryTypeMismatch),
            },
    {
        match Ddr5RawCardImpedance::from_u64(self.qca_dev7 as u64) {
            Some(e) => Ok(e),
            None => Err(Error::EntryTypeMismatch),
        }
    }

    pub fn set_qca_dev7(&mut self, value: Ddr5RawCardImpedance)
        ensures
            final(self).spec_qca_dev7() == value.spec_to_u64() as u16,
            final(self).spec_total_size() == old(self).spec_total_size(),
            final(self).spec_qck_dev0() == old(self).spec_qck_dev0(),
            final(self).spec_qck_dev1() == old(self).spec_qck_dev1(),
            final(self).spec_qck_dev2() == old(self).spec_qck_dev2(),
            final(self).spec_qck_dev3() == old(self).spec_qck_dev3(),
            final(self).spec_qck_dev4() == old(self).spec_qck_dev4(),
            final(self).spec_qck_dev5() == old(self).spec_qck_dev5(),
            final(self).spec_qck_dev6() == old(self).spec_qck_dev6(),
            final(self).spec_qck_dev7() == old(self).spec_qck_dev7(),
            final(self).spec_qck_dev8() == old(self).spec_qck_dev8(),
            final(self).spec_qck_dev9() == old(self).spec_qck_dev9(),
            final(self).spec_qck_drive_strength() == old(self).spec_qck_drive_strength(),
            final(self).spec_qck_slew() == old(self).spec_qck_slew(),
            final(self).spec_qcs_dev0() == old(self).spec_qcs_dev0(),
            final(self).spec_qcs_dev1() == old(self).spec_qcs_dev1(),
            final(self).spec_qcs_dev2() == old(self).spec_qcs_dev2(),
            final(self).spec_qcs_dev3() == old(self).spec_qcs_dev3(),
            final(self).spec_qcs_dev4() == old(self).spec_qcs_dev4(),
            final(self).spec_qcs_dev5() == old(self).spec_qcs_dev5(),
            final(self).spec_qcs_dev6() == old(self).spec_qcs_dev6(),
            final(self).spec_qcs_dev7() == old(self).spec_qcs_dev7(),
            final(self).spec_qcs_dev8() == old(self).spec_qcs_dev8(),
            final(self).spec_qcs_dev9() == old(self).spec_qcs_dev9(),
            final(self).spec_qcs_drive_strength() == old(self).spec_qcs_drive_strength(),
            final(self).spec_qcs_slew() == old(self).spec_qcs_slew(),
            final(self).spec_qcs_vref() == old(self).spec_qcs_vref(),
            final(self).spec_qca_dev0() == old(self).spec_qca_dev0(),
            final(self).spec_qca_dev1() == old(self).spec_qca_dev1(),
            final(self).spec_qca_dev2() == old(self).spec_qca_dev2(),
            final(self).spec_qca_dev3() == old(self).spec_qca_dev3(),
            final(self).spec_qca_dev4() == old(self).spec_qca_dev4(),
            final(self).spec_qca_dev5() == old(self).spec_qca_dev5(),
            final(self).spec_qca_dev6() == old(self).spec_qca_dev6(),
            final(self).spec_qca_dev8() == old(self).spec_qca_dev8(),
            final(self).spec_qca_dev9() == old(self).spec_qca_dev9(),
            final(self).spec_qca_drive_strength() == old(self).spec_qca_drive_strength(),
            final(self).spec_qca_slew() == old(self).spec_qca_slew(),
            final(self).spec_qca_vref() == old(self).spec_qca_vref(),
    {
        self.qca_dev7 = value.to_u64().unwrap() as u16;
    }

    pub fn qca_dev8(&self) -> (r: Result<Ddr5RawCardImpedance>)
        ensures
            r == match Ddr5RawCardImpedance::spec_from_u64(self.spec_qca_dev8() as u64) {
                Some(e) => Ok::<Ddr5RawCardImpedance, Error>(e),
                None => Err(Error::EntryTypeMismatch),
            },
    {
        match Ddr5RawCardImpedance::from_u64(self.qca_dev8 as u64) {
            Some(e) => Ok(e),
            None => Err(Error::EntryTypeMismatch),
        }
    }

    pub fn set_qca_dev8(&mut self, value: Ddr5RawCardImpedance)
        ensures
            final(self).spec_qca_dev8() == value.spec_to_u64() as u16,
            final(self).spec_total_size() == old(self).spec_total_size(),
            final(self).spec_qck_dev0() == old(self).spec_qck_dev0(),
            final(self).spec_qck_dev1() == old(self).spec_qck_dev1(),
            final(self).spec_qck_dev2() == old(self).spec_qck_dev2(),
            final(self).spec_qck_dev3() == old(self).spec_qck_dev3(),
            final(self).spec_qck_dev4() == old(self).spec_qck_dev4(),
            final(self).spec_qck_dev5() == old(self).spec_qck_dev5(),
            final(self).spec_qck_dev6() == old(self).spec_qck_dev6(),
            final(self).spec_qck_dev7() == old(self).spec_qck_dev7(),
            final(self).spec_qck_dev8() == old(self).spec_qck_dev8(),
            final(self).spec_qck_dev9() == old(self).spec_qck_dev9(),
            final(self).spec_qck_drive_strength() == old(self).spec_qck_drive_strength(),
            final(self).spec_qck_slew() == old(self).spec_qck_slew(),
            final(self).spec_qcs_dev0() == old(self).spec_qcs_dev0(),
            final(self).spec_qcs_dev1() == old(self).spec_qcs_dev1(),
            final(self).spec_qcs_dev2() == old(self).spec_qcs_dev2(),
            final(self).spec_qcs_dev3() == old(self).spec_qcs_dev3(),
            final(self).spec_qcs_dev4() == old(self).spec_qcs_dev4(),
            final(self).spec_qcs_dev5() == old(self).spec_qcs_dev5(),
            final(self).spec_qcs_dev6() == old(self).spec_qcs_dev6(),
            final(self).spec_qcs_dev7() == old(self).spec_qcs_dev7(),
            final(self).spec_qcs_dev8() == old(self).spec_qcs_dev8(),
            final(self).spec_qcs_dev9() == old(self).spec_qcs_dev9(),
            final(self).spec_qcs_drive_strength() == old(self).spec_qcs_drive_strength(),
            final(self).spec_qcs_slew() == old(self).spec_qcs_slew(),
            final(self).spec_qcs_vref() == old(self).spec_qcs_vref(),
            final(self).spec_qca_dev0() == old(self).spec_qca_dev0(),
            final(self).spec_qca_dev1() == old(self).spec_qca_dev1(),
            final(self).spec_qca_dev2() == old(self).spec_qca_dev2(),
            final(self).spec_qca_dev3() == old(self).spec_qca_dev3(),
            final(self).spec_qca_dev4() == old(self).spec_qca_dev4(),
            final(self).spec_qca_dev5() == old(self).spec_qca_dev5(),
            final(self).spec_qca_dev6() == old(self).spec_qca_dev6(),
            final(self).spec_qca_dev7() == old(self).spec_qca_dev7(),
            final(self).spec_qca_dev9() == old(self).spec_qca_dev9(),
            final(self).spec_qca_drive_strength() == old(self).spec_qca_drive_strength(),
            final(self).spec_qca_slew() == old(self).spec_qca_slew(),
            final(self).spec_qca_vref() == old(self).spec_qca_vref(),
    {
        self.qca_dev8 = value.to_u64().unwrap() as u16;
    }

    pub fn qca_dev9(&self) -> (r: Result<Ddr5RawCardImpedance>)
        ensures
            r == match Ddr5RawCardImpedance::spec_from_u64(self.spec_qca_dev9() as u64) {
                Some(e) => Ok::<Ddr5RawCardImpedance, Error>(e),
                None => Err(Error::EntryTypeMismatch),
            },
    {
        match Ddr5RawCardImpedance::from_u64(self.qca_dev9 as u64) {
            Some(e) => Ok(e),
            None => Err(Error::EntryTypeMismatch),
        }
    }

    pub fn set_qca_dev9(&mut self, value: Ddr5RawCardImpedance)
        ensures
            final(self).spec_qca_dev9() == value.spec_to_u64() as u16,
            final(self).spec_total_size() == old(self).spec_total_size(),
            final(self).spec_qck_dev0() == old(self).spec_qck_dev0(),
            final(self).spec_qck_dev1() == old(self).spec_qck_dev1(),
            final(self).spec_qck_dev2() == old(self).spec_qck_dev2(),
            final(self).spec_qck_dev3() == old(self).spec_qck_dev3(),
            final(self).spec_qck_dev4() == old(self).spec_qck_dev4(),
            final(self).spec_qck_dev5() == old(self).spec_qck_dev5(),
            final(self).spec_qck_dev6() == old(self).spec_qck_dev6(),
            final(self).spec_qck_dev7() == old(self).spec_qck_dev7(),
            final(self).spec_qck_dev8() == old(self).spec_qck_dev8(),
            final(self).spec_qck_dev9() == old(self).spec_qck_dev9(),
            final(self).spec_qck_drive_strength() == old(self).spec_qck_drive_strength(),
            final(self).spec_qck_slew() == old(self).spec_qck_slew(),
            final(self).spec_qcs_dev0() == old(self).spec_qcs_dev0(),
            final(self).spec_qcs_dev1() == old(self).spec_qcs_dev1(),
            final(self).spec_qcs_dev2() == old(self).spec_qcs_dev2(),
            final(self).spec_qcs_dev3() == old(self).spec_qcs_dev3(),
            final(self).spec_qcs_dev4() == old(self).spec_qcs_dev4(),
            final(self).spec_qcs_dev5() == old(self).spec_qcs_dev5(),
            final(self).spec_qcs_dev6() == old(self).spec_qcs_dev6(),
            final(self).spec_qcs_dev7() == old(self).spec_qcs_dev7(),
            final(self).spec_qcs_dev8() == old(self).spec_qcs_dev8(),
            final(self).spec_qcs_dev9() == old(self).spec_qcs_dev9(),
            final(self).spec_qcs_drive_strength() == old(self).spec_qcs_drive_strength(),
            final(self).spec_qcs_slew() == old(self).spec_qcs_slew(),
            final(self).spec_qcs_vref() == old(self).spec_qcs_vref(),
            final(self).spec_qca_dev0() == old(self).spec_qca_dev0(),
            final(self).spec_qca_dev1() == old(self).spec_qca_dev1(),
            final(self).spec_qca_dev2() == old(self).spec_qca_dev2(),
            final(self).spec_qca_dev3() == old(self).spec_qca_dev3(),
            final(self).spec_qca_dev4() == old(self).spec_qca_dev4(),
            final(self).spec_qca_dev5() == old(self).spec_qca_dev5(),
            final(self).spec_qca_dev6() == old(self).spec_qca_dev6(),
            final(self).spec_qca_dev7() == old(self).spec_qca_dev7(),
            final(self).spec_qca_dev8() == old(self).spec_qca_dev8(),
            final(self).spec_qca_drive_strength() == old(self).spec_qca_drive_strength(),
            final(self).spec_qca_slew() == old(self).spec_qca_slew(),
            final(self).spec_qca_vref() == old(self).spec_qca_vref(),
    {
        self.qca_dev9 = value.to_u64().unwrap() as u16;
    }

    pub fn qca_vref(&self) -> (r: Result<Ddr5RawCardVref>)
        ensures
            r == match Ddr5RawCardVref::spec_from_u64(self.spec_qca_vref() as u64) {
                Some(e) => Ok::<Ddr5RawCardVref, Error>(e),
                None => Err(Error::EntryTypeMismatch),
            },
    {
        match Ddr5RawCardVref::from_u64(self.qca_vref as u64) {
            Some(e) => Ok(e),
            None => Err(Error::EntryTypeMismatch),
        }
    }

    pub fn set_qca_vref(&mut self, value: Ddr5RawCardVref)
        ensures
            final(self).spec_qca_vref() == value.spec_to_u64() as u16,
            final(self).spec_total_size() == old(self).spec_total_size(),
            final(self).spec_qck_dev0() == old(self).spec_qck_dev0(),
            final(self).spec_qck_dev1() == old(self).spec_qck_dev1(),
            final(self).spec_qck_dev2() == old(self).spec_qck_dev2(),
            final(self).spec_qck_dev3() == old(self).spec_qck_dev3(),
            final(self).spec_qck_dev4() == old(self).spec_qck_dev4(),
            final(self).spec_qck_dev5() == old(self).spec_qck_dev5(),
            final(self).spec_qck_dev6() == old(self).spec_qck_dev6(),
            final(self).spec_qck_dev7() == old(self).spec_qck_dev7(),
            final(self).spec_qck_dev8() == old(self).spec_qck_dev8(),
            final(self).spec_qck_dev9() == old(self).spec_qck_dev9(),
            final(self).spec_qck_drive_strength() == old(self).spec_qck_drive_strength(),
            final(self).spec_qck_slew() == old(self).spec_qck_slew(),
            final(self).spec_qcs_dev0() == old(self).spec_qcs_dev0(),
            final(self).spec_qcs_dev1() == old(self).spec_qcs_dev1(),
            final(self).spec_qcs_dev2() == old(self).spec_qcs_dev2(),
            final(self).spec_qcs_dev3() == old(self).spec_qcs_dev3(),
            final(self).spec_qcs_dev4() == old(self).spec_qcs_dev4(),
            final(self).spec_qcs_dev5() == old(self).spec_qcs_dev5(),
            final(self).spec_qcs_dev6() == old(self).spec_qcs_dev6(),
            final(self).spec_qcs_dev7() == old(self).spec_qcs_dev7(),
            final(self).spec_qcs_dev8() == old(self).spec_qcs_dev8(),
            final(self).spec_qcs_dev9() == old(self).spec_qcs_dev9(),
            final(self).spec_qcs_drive_strength() == old(self).spec_qcs_drive_strength(),
            final(self).spec_qcs_slew() == old(self).spec_qcs_slew(),
            final(self).spec_qcs_vref() == old(self).spec_qcs_vref(),
            final(self).spec_qca_dev0() == old(self).spec_qca_dev0(),
            final(self).spec_qca_dev1() == old(self).spec_qca_dev1(),
            final(self).spec_qca_dev2() == old(self).spec_qca_dev2(),
            final(self).spec_qca_dev3() == old(self).spec_qca_dev3(),
            final(self).spec_qca_dev4() == old(self).spec_qca_dev4(),
            final(self).spec_qca_dev5() == old(self).spec_qca_dev5(),
            final(self).spec_qca_dev6() == old(self).spec_qca_dev6(),
            final(self).spec_qca_dev7() == old(self).spec_qca_dev7(),
            final(self).spec_qca_dev8() == old(self).spec_qca_dev8(),
            final(self).spec_qca_dev9() == old(self).spec_qca_dev9(),
            final(self).spec_qca_drive_strength() == old(self).spec_qca_drive_strength(),
            final(self).spec_qca_slew() == old(self).spec_qca_slew(),
    {
        self.qca_vref = value.to_u64().unwrap() as u16;
    }

}

impl Ddr5RawCardConfigElementPayload {
    /// The bytes that store this value on disk.
    pub closed spec fn spec_bytes(self) -> Seq<u8> {
        spec_u32_to_le_bytes(self.total_size)
            + spec_u16_to_le_bytes(self.qck_dev0)
            + spec_u16_to_le_bytes(self.qck_dev1)
            + spec_u16_to_le_bytes(self.qck_dev2)
            + spec_u16_to_le_bytes(self.qck_dev3)
            + spec_u16_to_le_bytes(self.qck_dev4)
            + spec_u16_to_le_bytes(self.qck_dev5)
            + spec_u16_to_le_bytes(self.qck_dev6)
            + spec_u16_to_le_bytes(self.qck_dev7)
            + spec_u16_to_le_bytes(self.qck_dev8)
            + spec_u16_to_le_bytes(self.qck_dev9)
            + spec_u16_to_le_bytes(self.qck_drive_strength)
            + spec_u16_to_le_bytes(self.qck_slew)
            + spec_u16_to_le_bytes(self.qcs_dev0)
            + spec_u16_to_le_bytes(self.qcs_dev1)
            + spec_u16_to_le_bytes(self.qcs_dev2)
            + spec_u16_to_le_bytes(self.qcs_dev3)
            + spec_u16_to_le_bytes(self.qcs_dev4)
            + spec_u16_to_le_bytes(self.qcs_dev5)
            + spec_u16_to_le_bytes(self.qcs_dev6)
            + spec_u16_to_le_bytes(self.qcs_dev7)
            + spec_u16_to_le_bytes(self.qcs_dev8)
            + spec_u16_to_le_bytes(self.qcs_dev9)
            + spec_u16_to_le_bytes(self.qcs_drive_strength)
            + spec_u16_to_le_bytes(self.qcs_slew)
            + spec_u16_to_le_bytes(self.qcs_vref)
            + spec_u16_to_le_bytes(self.qca_dev0)
            + spec_u16_to_le_bytes(self.qca_dev1)
            + spec_u16_to_le_bytes(self.qca_dev2)
            + spec_u16_to_le_bytes(self.qca_dev3)
            + spec_u16_to_le_bytes(self.qca_dev4)
            + spec_u16_to_le_bytes(self.qca_dev5)
            + spec_u16_to_le_bytes(self.qca_dev6)
            + spec_u16_to_le_bytes(self.qca_dev7)
            + spec_u16_to_le_bytes(self.qca_dev8)
            + spec_u16_to_le_bytes(self.qca_dev9)
            + spec_u16_to_le_bytes(self.qca_drive_strength)
            + spec_u16_to_le_bytes(self.qca_slew)
            + spec_u16_to_le_bytes(self.qca_vref)
    }
}

impl ByteLayout for Ddr5RawCardConfigElementPayload {
    open spec fn spec_size() -> nat {
        80
    }

    open spec fn spec_to_bytes(self) -> Seq<u8> {
        self.spec_bytes()
    }

    fn size() -> (r: usize) {
        80
    }

    #[verifier::spinoff_prover]
    #[verifier::rlimit(60)]
    fn from_bytes(bytes: &[u8]) -> (r: Self) {
        let total_size: u32 = u32_from_le_bytes(slice_subrange(bytes, 0, 4));
        let qck_dev0: u16 = u16_from_le_bytes(slice_subrange(bytes, 4, 6));
        let qck_dev1: u16 = u16_from_le_bytes(slice_subrange(bytes, 6, 8));
        let qck_dev2: u16 = u16_from_le_bytes(slice_subrange(bytes, 8, 10));
        let qck_dev3: u16 = u16_from_le_bytes(slice_subrange(bytes, 10, 12));
        let qck_dev4: u16 = u16_from_le_bytes(slice_subrange(bytes, 12, 14));
        let qck_dev5: u16 = u16_from_le_bytes(slice_subrange(bytes, 14, 16));
        let qck_dev6: u16 = u16_from_le_bytes(slice_subrange(bytes, 16, 18));
        let qck_dev7: u16 = u16_from_le_bytes(slice_subrange(bytes, 18, 20));
        let qck_dev8: u16 = u16_from_le_bytes(slice_subrange(bytes, 20, 22));
        let qck_dev9: u16 = u16_from_le_bytes(slice_subrange(bytes, 22, 24));
        let qck_drive_strength: u16 = u16_from_le_bytes(slice_subrange(bytes, 24, 26));
        let qck_slew: u16 = u16_from_le_bytes(slice_subrange(bytes, 26, 28));
        let qcs_dev0: u16 = u16_from_le_bytes(slice_subrange(bytes, 28, 30));
        let qcs_dev1: u16 = u16_from_le_bytes(slice_subrange(bytes, 30, 32));
        let qcs_dev2: u16 = u16_from_le_bytes(slice_subrange(bytes, 32, 34));
        let qcs_dev3: u16 = u16_from_le_bytes(slice_subrange(bytes, 34, 36));
        let qcs_dev4: u16 = u16_from_le_bytes(slice_subrange(bytes, 36, 38));
        let qcs_dev5: u16 = u16_from_le_bytes(slice_subrange(bytes, 38, 40));
        let qcs_dev6: u16 = u16_from_le_bytes(slice_subrange(bytes, 40, 42));
        let qcs_dev7: u16 = u16_from_le_bytes(slice_subrange(bytes, 42, 44));
        let qcs_dev8: u16 = u16_from_le_bytes(slice_subrange(bytes, 44, 46));
        let qcs_dev9: u16 = u16_from_le_bytes(slice_subrange(bytes, 46, 48));
        let qcs_drive_strength: u16 = u16_from_le_bytes(slice_subrange(bytes, 48, 50));
        let qcs_slew: u16 = u16_from_le_bytes(slice_subrange(bytes, 50, 52));
        let qcs_vref: u16 = u16_from_le_bytes(slice_subrange(bytes, 52, 54));
        let qca_dev0: u16 = u16_from_le_bytes(slice_subrange(bytes, 54, 56));
        let qca_dev1: u16 = u16_from_le_bytes(slice_subrange(bytes, 56, 58));
        let qca_dev2: u16 = u16_from_le_bytes(slice_subrange(bytes, 58, 60));
        let qca_dev3: u16 = u16_from_le_bytes(slice_subrange(bytes, 60, 62));
        let qca_dev4: u16 = u16_from_le_bytes(slice_subrange(bytes, 62, 64));
        let qca_dev5: u16 = u16_from_le_bytes(slice_subrange(bytes, 64, 66));
        let qca_dev6: u16 = u16_from_le_bytes(slice_subrange(bytes, 66, 68));
        let qca_dev7: u16 = u16_from_le_bytes(slice_subrange(bytes, 68, 70));
        let qca_dev8: u16 = u16_from_le_bytes(slice_subrange(bytes, 70, 72));
        let qca_dev9: u16 = u16_from_le_bytes(slice_subrange(bytes, 72, 74));
        let qca_drive_strength: u16 = u16_from_le_bytes(slice_subrange(bytes, 74, 76));
        let qca_slew: u16 = u16_from_le_bytes(slice_subrange(bytes, 76, 78));
        let qca_vref: u16 = u16_from_le_bytes(slice_subrange(bytes, 78, 80));
        let r = Ddr5RawCardConfigElementPayload { total_size, qck_dev0, qck_dev1, qck_dev2, qck_dev3, qck_dev4, qck_dev5, qck_dev6, qck_dev7, qck_dev8, qck_dev9, qck_drive_strength, qck_slew, qcs_dev0, qcs_dev1, qcs_dev2, qcs_dev3, qcs_dev4, qcs_dev5, qcs_dev6, qcs_dev7, qcs_dev8, qcs_dev9, qcs_drive_strength, qcs_slew, qcs_vref, qca_dev0, qca_dev1, qca_dev2, qca_dev3, qca_dev4, qca_dev5, qca_dev6, qca_dev7, qca_dev8, qca_dev9, qca_drive_strength, qca_slew, qca_vref };
        proof {
            lemma_auto_spec_u16_to_from_le_bytes();
            lemma_auto_spec_u32_to_from_le_bytes();
            lemma_auto_spec_u64_to_from_le_bytes();
            lemma_ddr5_raw_card_config_element_payload_bytes_pieces(r);
            assert(bytes@.subrange(0, 4) == spec_u32_to_le_bytes(total_size));
            assert(bytes@.subrange(4, 6) == spec_u16_to_le_bytes(qck_dev0));
            assert(bytes@.subrange(6, 8) == spec_u16_to_le_bytes(qck_dev1));
            assert(bytes@.subrange(8, 10) == spec_u16_to_le_bytes(qck_dev2));
            assert(bytes@.subrange(10, 12) == spec_u16_to_le_bytes(qck_dev3));
            assert(bytes@.subrange(12, 14) == spec_u16_to_le_bytes(qck_dev4));
            assert(bytes@.subrange(14, 16) == spec_u16_to_le_bytes(qck_dev5));
            assert(bytes@.subrange(16, 18) == spec_u16_to_le_bytes(qck_dev6));
            assert(bytes@.subrange(18, 20) == spec_u16_to_le_bytes(qck_dev7));
            assert(bytes@.subrange(20, 22) == spec_u16_to_le_bytes(qck_dev8));
            assert(bytes@.subrange(22, 24) == spec_u16_to_le_bytes(qck_dev9));
            assert(bytes@.subrange(24, 26) == spec_u16_to_le_bytes(qck_drive_strength));
            assert(bytes@.subrange(26, 28) == spec_u16_to_le_bytes(qck_slew));
            assert(bytes@.subrange(28, 30) == spec_u16_to_le_bytes(qcs_dev0));
            assert(bytes@.subrange(30, 32) == spec_u16_to_le_bytes(qcs_dev1));
            assert(bytes@.subrange(32, 34) == spec_u16_to_le_bytes(qcs_dev2));
            assert(bytes@.subrange(34, 36) == spec_u16_to_le_bytes(qcs_dev3));
            assert(bytes@.subrange(36, 38) == spec_u16_to_le_bytes(qcs_dev4));
            assert(bytes@.subrange(38, 40) == spec_u16_to_le_bytes(qcs_dev5));
            assert(bytes@.subrange(40, 42) == spec_u16_to_le_bytes(qcs_dev6));
            assert(bytes@.subrange(42, 44) == spec_u16_to_le_bytes(qcs_dev7));
            assert(bytes@.subrange(44, 46) == spec_u16_to_le_bytes(qcs_dev8));
            assert(bytes@.subrange(46, 48) == spec_u16_to_le_bytes(qcs_dev9));
            assert(bytes@.subrange(48, 50) == spec_u16_to_le_bytes(qcs_drive_strength));
            assert(bytes@.subrange(50, 52) == spec_u16_to_le_bytes(qcs_slew));
            assert(bytes@.subrange(52, 54) == spec_u16_to_le_bytes(qcs_vref));
            assert(bytes@.subrange(54, 56) == spec_u16_to_le_bytes(qca_dev0));
            assert(bytes@.subrange(56, 58) == spec_u16_to_le_bytes(qca_dev1));
            assert(bytes@.subrange(58, 60) == spec_u16_to_le_bytes(qca_dev2));
            assert(bytes@.subrange(60, 62) == spec_u16_to_le_bytes(qca_dev3));
            assert(bytes@.subrange(62, 64) == spec_u16_to_le_bytes(qca_dev4));
            assert(bytes@.subrange(64, 66) == spec_u16_to_le_bytes(qca_dev5));
            assert(bytes@.subrange(66, 68) == spec_u16_to_le_bytes(qca_dev6));
            assert(bytes@.subrange(68, 70) == spec_u16_to_le_bytes(qca_dev7));
            assert(bytes@.subrange(70, 72) == spec_u16_to_le_bytes(qca_dev8));
            assert(bytes@.subrange(72, 74) == spec_u16_to_le_bytes(qca_dev9));
            assert(bytes@.subrange(74, 76) == spec_u16_to_le_bytes(qca_drive_strength));
            assert(bytes@.subrange(76, 78) == spec_u16_to_le_bytes(qca_slew));
            assert(bytes@.subrange(78, 80) == spec_u16_to_le_bytes(qca_vref));
            assert(bytes@.subrange(0, 6) =~= bytes@.subrange(0, 4) + bytes@.subrange(4, 6));
            assert(bytes@.subrange(0, 8) =~= bytes@.subrange(0, 6) + bytes@.subrange(6, 8));
            assert(bytes@.subrange(0, 10) =~= bytes@.subrange(0, 8) + bytes@.subrange(8, 10));
            assert(bytes@.subrange(0, 12) =~= bytes@.subrange(0, 10) + bytes@.subrange(10, 12));
            assert(bytes@.subrange(0, 14) =~= bytes@.subrange(0, 12) + bytes@.subrange(12, 14));
            assert(bytes@.subrange(0, 16) =~= bytes@.subrange(0, 14) + bytes@.subrange(14, 16));
            assert(bytes@.subrange(0, 18) =~= bytes@.subrange(0, 16) + bytes@.subrange(16, 18));
            assert(bytes@.subrange(0, 20) =~= bytes@.subrange(0, 18) + bytes@.subrange(18, 20));
            assert(bytes@.subrange(0, 22) =~= bytes@.subrange(0, 20) + bytes@.subrange(20, 22));
            assert(bytes@.subrange(0, 24) =~= bytes@.subrange(0, 22) + bytes@.subrange(22, 24));
            assert(bytes@.subrange(0, 26) =~= bytes@.subrange(0, 24) + bytes@.subrange(24, 26));
            assert(bytes@.subrange(0, 28) =~= bytes@.subrange(0, 26) + bytes@.subrange(26, 28));
            assert(bytes@.subrange(0, 30) =~= bytes@.subrange(0, 28) + bytes@.subrange(28, 30));
            assert(bytes@.subrange(0, 32) =~= bytes@.subrange(0, 30) + bytes@.subrange(30, 32));
            assert(bytes@.subrange(0, 34) =~= bytes@.subrange(0, 32) + bytes@.subrange(32, 34));
            assert(bytes@.subrange(0, 36) =~= bytes@.subrange(0, 34) + bytes@.subrange(34, 36));
            assert(bytes@.subrange(0, 38) =~= bytes@.subrange(0, 36) + bytes@.subrange(36, 38));
            assert(bytes@.subrange(0, 40) =~= bytes@.subrange(0, 38) + bytes@.subrange(38, 40));
            assert(bytes@.subrange(0, 42) =~= bytes@.subrange(0, 40) + bytes@.subrange(40, 42));
            assert(bytes@.subrange(0, 44) =~= bytes@.subrange(0, 42) + bytes@.subrange(42, 44));
            assert(bytes@.subrange(0, 46) =~= bytes@.subrange(0, 44) + bytes@.subrange(44, 46));
            assert(bytes@.subrange(0, 48) =~= bytes@.subrange(0, 46) + bytes@.subrange(46, 48));
            assert(bytes@.subrange(0, 50) =~= bytes@.subrange(0, 48) + bytes@.subrange(48, 50));
            assert(bytes@.subrange(0, 52) =~= bytes@.subrange(0, 50) + bytes@.subrange(50, 52));
            assert(bytes@.subrange(0, 54) =~= bytes@.subrange(0, 52) + bytes@.subrange(52, 54));
            assert(bytes@.subrange(0, 56) =~= bytes@.subrange(0, 54) + bytes@.subrange(54, 56));
            assert(bytes@.subrange(0, 58) =~= bytes@.subrange(0, 56) + bytes@.subrange(56, 58));
            assert(bytes@.subrange(0, 60) =~= bytes@.subrange(0, 58) + bytes@.subrange(58, 60));
            assert(bytes@.subrange(0, 62) =~= bytes@.subrange(0, 60) + bytes@.subrange(60, 62));
            assert(bytes@.subrange(0, 64) =~= bytes@.subrange(0, 62) + bytes@.subrange(62, 64));
            assert(bytes@.subrange(0, 66) =~= bytes@.subrange(0, 64) + bytes@.subrange(64, 66));
            assert(bytes@.subrange(0, 68) =~= bytes@.subrange(0, 66) + bytes@.subrange(66, 68));
            assert(bytes@.subrange(0, 70) =~= bytes@.subrange(0, 68) + bytes@.subrange(68, 70));
            assert(bytes@.subrange(0, 72) =~= bytes@.subrange(0, 70) + bytes@.subrange(70, 72));
            assert(bytes@.subrange(0, 74) =~= bytes@.subrange(0, 72) + bytes@.subrange(72, 74));
            assert(bytes@.subrange(0, 76) =~= bytes@.subrange(0, 74) + bytes@.subrange(74, 76));
            assert(bytes@.subrange(0, 78) =~= bytes@.subrange(0, 76) + bytes@.subrange(76, 78));
            assert(bytes@.subrange(0, 80) =~= bytes@.subrange(0, 78) + bytes@.subrange(78, 80));
            assert(bytes@.subrange(0, 80) =~= bytes@);
            assert(bytes@ == r.spec_bytes());
        }
        r
    }

    #[verifier::spinoff_prover]
    #[verifier::rlimit(60)]
    fn to_bytes(&self) -> (r: Vec<u8>) {
        let mut out: Vec<u8> = Vec::new();
        append_bytes(&mut out, &le_bytes_u32(self.total_size));
        append_bytes(&mut out, &le_bytes_u16(self.qck_dev0));
        append_bytes(&mut out, &le_bytes_u16(self.qck_dev1));
        append_bytes(&mut out, &le_bytes_u16(self.qck_dev2));
        append_bytes(&mut out, &le_bytes_u16(self.qck_dev3));
        append_bytes(&mut out, &le_bytes_u16(self.qck_dev4));
        append_bytes(&mut out, &le_bytes_u16(self.qck_dev5));
        append_bytes(&mut out, &le_bytes_u16(self.qck_dev6));
        append_bytes(&mut out, &le_bytes_u16(self.qck_dev7));
        append_bytes(&mut out, &le_bytes_u16(self.qck_dev8));
        append_bytes(&mut out, &le_bytes_u16(self.qck_dev9));
        append_bytes(&mut out, &le_bytes_u16(self.qck_drive_strength));
        append_bytes(&mut out, &le_bytes_u16(self.qck_slew));
        append_bytes(&mut out, &le_bytes_u16(self.qcs_dev0));
        append_bytes(&mut out, &le_bytes_u16(self.qcs_dev1));
        append_bytes(&mut out, &le_bytes_u16(self.qcs_dev2));
        append_bytes(&mut out, &le_bytes_u16(self.qcs_dev3));
        append_bytes(&mut out, &le_bytes_u16(self.qcs_dev4));
        append_bytes(&mut out, &le_bytes_u16(self.qcs_dev5));
        append_bytes(&mut out, &le_bytes_u16(self.qcs_dev6));
        append_bytes(&mut out, &le_bytes_u16(self.qcs_dev7));
        append_bytes(&mut out, &le_bytes_u16(self.qcs_dev8));
        append_bytes(&mut out, &le_bytes_u16(self.qcs_dev9));
        append_bytes(&mut out, &le_bytes_u16(self.qcs_drive_strength));
        append_bytes(&mut out, &le_bytes_u16(self.qcs_slew));
        append_bytes(&mut out, &le_bytes_u16(self.qcs_vref));
        append_bytes(&mut out, &le_bytes_u16(self.qca_dev0));
        append_bytes(&mut out, &le_bytes_u16(self.qca_dev1));
        append_bytes(&mut out, &le_bytes_u16(self.qca_dev2));
        append_bytes(&mut out, &le_bytes_u16(self.qca_dev3));
        append_bytes(&mut out, &le_bytes_u16(self.qca_dev4));
        append_bytes(&mut out, &le_bytes_u16(self.qca_dev5));
        append_bytes(&mut out, &le_bytes_u16(self.qca_dev6));
        append_bytes(&mut out, &le_bytes_u16(self.qca_dev7));
        append_bytes(&mut out, &le_bytes_u16(self.qca_dev8));
        append_bytes(&mut out, &le_bytes_u16(self.qca_dev9));
        append_bytes(&mut out, &le_bytes_u16(self.qca_drive_strength));
        append_bytes(&mut out, &le_bytes_u16(self.qca_slew));
        append_bytes(&mut out, &le_bytes_u16(self.qca_vref));
        proof {
            lemma_ddr5_raw_card_config_element_payload_bytes_pieces(*self);
        }
        out
    }
}

/// How the bytes of a Ddr5RawCardConfigElementPayload split up into its fields.
pub proof fn lemma_ddr5_raw_card_config_element_payload_bytes_pieces(x: Ddr5RawCardConfigElementPayload)
    ensures
        x.spec_bytes().len() == 80,
        x.spec_bytes().subrange(0, 4) == spec_u32_to_le_bytes(x.spec_total_size()),
        x.spec_bytes().subrange(4, 6) == spec_u16_to_le_bytes(x.spec_qck_dev0()),
        x.spec_bytes().subrange(6, 8) == spec_u16_to_le_bytes(x.spec_qck_dev1()),
        x.spec_bytes().subrange(8, 10) == spec_u16_to_le_bytes(x.spec_qck_dev2()),
        x.spec_bytes().subrange(10, 12) == spec_u16_to_le_bytes(x.spec_qck_dev3()),
        x.spec_bytes().subrange(12, 14) == spec_u16_to_le_bytes(x.spec_qck_dev4()),
        x.spec_bytes().subrange(14, 16) == spec_u16_to_le_bytes(x.spec_qck_dev5()),
        x.spec_bytes().subrange(16, 18) == spec_u16_to_le_bytes(x.spec_qck_dev6()),
        x.spec_bytes().subrange(18, 20) == spec_u16_to_le_bytes(x.spec_qck_dev7()),
        x.spec_bytes().subrange(20, 22) == spec_u16_to_le_bytes(x.spec_qck_dev8()),
        x.spec_bytes().subrange(22, 24) == spec_u16_to_le_bytes(x.spec_qck_dev9()),
        x.spec_bytes().subrange(24, 26) == spec_u16_to_le_bytes(x.spec_qck_drive_strength()),
        x.spec_bytes().subrange(26, 28) == spec_u16_to_le_bytes(x.spec_qck_slew()),
        x.spec_bytes().subrange(28, 30) == spec_u16_to_le_bytes(x.spec_qcs_dev0()),
        x.spec_bytes().subrange(30, 32) == spec_u16_to_le_bytes(x.spec_qcs_dev1()),
        x.spec_bytes().subrange(32, 34) == spec_u16_to_le_bytes(x.spec_qcs_dev2()),
        x.spec_bytes().subrange(34, 36) == spec_u16_to_le_bytes(x.spec_qcs_dev3()),
        x.spec_bytes().subrange(36, 38) == spec_u16_to_le_bytes(x.spec_qcs_dev4()),
        x.spec_bytes().subrange(38, 40) == spec_u16_to_le_bytes(x.spec_qcs_dev5()),
        x.spec_bytes().subrange(40, 42) == spec_u16_to_le_bytes(x.spec_qcs_dev6()),
        x.spec_bytes().subrange(42, 44) == spec_u16_to_le_bytes(x.spec_qcs_dev7()),
        x.spec_bytes().subrange(44, 46) == spec_u16_to_le_bytes(x.spec_qcs_dev8()),
        x.spec_bytes().subrange(46, 48) == spec_u16_to_le_bytes(x.spec_qcs_dev9()),
        x.spec_bytes().subrange(48, 50) == spec_u16_to_le_bytes(x.spec_qcs_drive_strength()),
        x.spec_bytes().subrange(50, 52) == spec_u16_to_le_bytes(x.spec_qcs_slew()),
        x.spec_bytes().subrange(52, 54) == spec_u16_to_le_bytes(x.spec_qcs_vref()),
        x.spec_bytes().subrange(54, 56) == spec_u16_to_le_bytes(x.spec_qca_dev0()),
        x.spec_bytes().subrange(56, 58) == spec_u16_to_le_bytes(x.spec_qca_dev1()),
        x.spec_bytes().subrange(58, 60) == spec_u16_to_le_bytes(x.spec_qca_dev2()),
        x.spec_bytes().subrange(60, 62) == spec_u16_to_le_bytes(x.spec_qca_dev3()),
        x.spec_bytes().subrange(62, 64) == spec_u16_to_le_bytes(x.spec_qca_dev4()),
        x.spec_bytes().subrange(64, 66) == spec_u16_to_le_bytes(x.spec_qca_dev5()),
        x.spec_bytes().subrange(66, 68) == spec_u16_to_le_bytes(x.spec_qca_dev6()),
        x.spec_bytes().subrange(68, 70) == spec_u16_to_le_bytes(x.spec_qca_dev7()),
        x.spec_bytes().subrange(70, 72) == spec_u16_to_le_bytes(x.spec_qca_dev8()),
        x.spec_bytes().subrange(72, 74) == spec_u16_to_le_bytes(x.spec_qca_dev9()),
        x.spec_bytes().subrange(74, 76) == spec_u16_to_le_bytes(x.spec_qca_drive_strength()),
        x.spec_bytes().subrange(76, 78) == spec_u16_to_le_bytes(x.spec_qca_slew()),
        x.spec_bytes().subrange(78, 80) == spec_u16_to_le_bytes(x.spec_qca_vref()),
{
    lemma_auto_spec_u16_to_from_le_bytes();
    lemma_auto_spec_u32_to_from_le_bytes();
    lemma_auto_spec_u64_to_from_le_bytes();
    assert(x.spec_bytes().subrange(0, 4) == spec_u32_to_le_bytes(x.total_size));
    assert(x.spec_bytes().subrange(4, 6) == spec_u16_to_le_bytes(x.qck_dev0));
    assert(x.spec_bytes().subrange(6, 8) == spec_u16_to_le_bytes(x.qck_dev1));
    assert(x.spec_bytes().subrange(8, 10) == spec_u16_to_le_bytes(x.qck_dev2));
    assert(x.spec_bytes().subrange(10, 12) == spec_u16_to_le_bytes(x.qck_dev3));
    assert(x.spec_bytes().subrange(12, 14) == spec_u16_to_le_bytes(x.qck_dev4));
    assert(x.spec_bytes().subrange(14, 16) == spec_u16_to_le_bytes(x.qck_dev5));
    assert(x.spec_bytes().subrange(16, 18) == spec_u16_to_le_bytes(x.qck_dev6));
    assert(x.spec_bytes().subrange(18, 20) == spec_u16_to_le_bytes(x.qck_dev7));
    assert(x.spec_bytes().subrange(20, 22) == spec_u16_to_le_bytes(x.qck_dev8));
    assert(x.spec_bytes().subrange(22, 24) == spec_u16_to_le_bytes(x.qck_dev9));
    assert(x.spec_bytes().subrange(24, 26) == spec_u16_to_le_bytes(x.qck_drive_strength));
    assert(x.spec_bytes().subrange(26, 28) == spec_u16_to_le_bytes(x.qck_slew));
    assert(x.spec_bytes().subrange(28, 30) == spec_u16_to_le_bytes(x.qcs_dev0));
    assert(x.spec_bytes().subrange(30, 32) == spec_u16_to_le_bytes(x.qcs_dev1));
    assert(x.spec_bytes().subrange(32, 34) == spec_u16_to_le_bytes(x.qcs_dev2));
    assert(x.spec_bytes().subrange(34, 36) == spec_u16_to_le_bytes(x.qcs_dev3));
    assert(x.spec_bytes().subrange(36, 38) == spec_u16_to_le_bytes(x.qcs_dev4));
    assert(x.spec_bytes().subrange(38, 40) == spec_u16_to_le_bytes(x.qcs_dev5));
    assert(x.spec_bytes().subrange(40, 42) == spec_u16_to_le_bytes(x.qcs_dev6));
    assert(x.spec_bytes().subrange(42, 44) == spec_u16_to_le_bytes(x.qcs_dev7));
    assert(x.spec_bytes().subrange(44, 46) == spec_u16_to_le_bytes(x.qcs_dev8));
    assert(x.spec_bytes().subrange(46, 48) == spec_u16_to_le_bytes(x.qcs_dev9));
    assert(x.spec_bytes().subrange(48, 50) == spec_u16_to_le_bytes(x.qcs_drive_strength));
    assert(x.spec_bytes().subrange(50, 52) == spec_u16_to_le_bytes(x.qcs_slew));
    assert(x.spec_bytes().subrange(52, 54) == spec_u16_to_le_bytes(x.qcs_vref));
    assert(x.spec_bytes().subrange(54, 56) == spec_u16_to_le_bytes(x.qca_dev0));
    assert(x.spec_bytes().subrange(56, 58) == spec_u16_to_le_bytes(x.qca_dev1));
    assert(x.spec_bytes().subrange(58, 60) == spec_u16_to_le_bytes(x.qca_dev2));
    assert(x.spec_bytes().subrange(60, 62) == spec_u16_to_le_bytes(x.qca_dev3));
    assert(x.spec_bytes().subrange(62, 64) == spec_u16_to_le_bytes(x.qca_dev4));
    assert(x.spec_bytes().subrange(64, 66) == spec_u16_to_le_bytes(x.qca_dev5));
    assert(x.spec_bytes().subrange(66, 68) == spec_u16_to_le_bytes(x.qca_dev6));
    assert(x.spec_bytes().subrange(68, 70) == spec_u16_to_le_bytes(x.qca_dev7));
    assert(x.spec_bytes().subrange(70, 72) == spec_u16_to_le_bytes(x.qca_dev8));
    assert(x.spec_bytes().subrange(72, 74) == spec_u16_to_le_bytes(x.qca_dev9));
    assert(x.spec_bytes().subrange(74, 76) == spec_u16_to_le_bytes(x.qca_drive_strength));
    assert(x.spec_bytes().subrange(76, 78) == spec_u16_to_le_bytes(x.qca_slew));
    assert(x.spec_bytes().subrange(78, 80) == spec_u16_to_le_bytes(x.qca_vref));
}

/// Two values of Ddr5RawCardConfigElementPayload with the same bytes are the same value.
#[verifier::spinoff_prover]
#[verifier::rlimit(60)]
pub proof fn lemma_ddr5_raw_card_config_element_payload_bytes_injective(x: Ddr5RawCardConfigElementPayload, y: Ddr5RawCardConfigElementPayload)
    requires
        x.spec_bytes() == y.spec_bytes(),
    ensures
        x == y,
{
    lemma_ddr5_raw_card_config_element_payload_bytes_pieces(x);
    lemma_ddr5_raw_card_config_element_payload_bytes_pieces(y);
    lemma_auto_spec_u16_to_from_le_bytes();
    lemma_auto_spec_u32_to_from_le_bytes();
    lemma_auto_spec_u64_to_from_le_bytes();
    assert(spec_u32_from_le_bytes(spec_u32_to_le_bytes(x.total_size)) == spec_u32_from_le_bytes(spec_u32_to_le_bytes(y.total_size)));
    assert(spec_u16_from_le_bytes(spec_u16_to_le_bytes(x.qck_dev0)) == spec_u16_from_le_bytes(spec_u16_to_le_bytes(y.qck_dev0)));
    assert(spec_u16_from_le_bytes(spec_u16_to_le_bytes(x.qck_dev1)) == spec_u16_from_le_bytes(spec_u16_to_le_bytes(y.qck_dev1)));
    assert(spec_u16_from_le_bytes(spec_u16_to_le_bytes(x.qck_dev2)) == spec_u16_from_le_bytes(spec_u16_to_le_bytes(y.qck_dev2)));
    assert(spec_u16_from_le_bytes(spec_u16_to_le_bytes(x.qck_dev3)) == spec_u16_from_le_bytes(spec_u16_to_le_bytes(y.qck_dev3)));
    assert(spec_u16_from_le_bytes(spec_u16_to_le_bytes(x.qck_dev4)) == spec_u16_from_le_bytes(spec_u16_to_le_bytes(y.qck_dev4)));
    assert(spec_u16_from_le_bytes(spec_u16_to_le_bytes(x.qck_dev5)) == spec_u16_from_le_bytes(spec_u16_to_le_bytes(y.qck_dev5)));
    assert(spec_u16_from_le_bytes(spec_u16_to_le_bytes(x.qck_dev6)) == spec_u16_from_le_bytes(spec_u16_to_le_bytes(y.qck_dev6)));
    assert(spec_u16_from_le_bytes(spec_u16_to_le_bytes(x.qck_dev7)) == spec_u16_from_le_bytes(spec_u16_to_le_bytes(y.qck_dev7)));
    assert(spec_u16_from_le_bytes(spec_u16_to_le_bytes(x.qck_dev8)) == spec_u16_from_le_bytes(spec_u16_to_le_bytes(y.qck_dev8)));
    assert(spec_u16_from_le_bytes(spec_u16_to_le_bytes(x.qck_dev9)) == spec_u16_from_le_bytes(spec_u16_to_le_bytes(y.qck_dev9)));
    assert(spec_u16_from_le_bytes(spec_u16_to_le_bytes(x.qck_drive_strength)) == spec_u16_from_le_bytes(spec_u16_to_le_bytes(y.qck_drive_strength)));
    assert(spec_u16_from_le_bytes(spec_u16_to_le_bytes(x.qck_slew)) == spec_u16_from_le_bytes(spec_u16_to_le_bytes(y.qck_slew)));
    assert(spec_u16_from_le_bytes(spec_u16_to_le_bytes(x.qcs_dev0)) == spec_u16_from_le_bytes(spec_u16_to_le_bytes(y.qcs_dev0)));
    assert(spec_u16_from_le_bytes(spec_u16_to_le_bytes(x.qcs_dev1)) == spec_u16_from_le_bytes(spec_u16_to_le_bytes(y.qcs_dev1)));
    assert(spec_u16_from_le_bytes(spec_u16_to_le_bytes(x.qcs_dev2)) == spec_u16_from_le_bytes(spec_u16_to_le_bytes(y.qcs_dev2)));
    assert(spec_u16_from_le_bytes(spec_u16_to_le_bytes(x.qcs_dev3)) == spec_u16_from_le_bytes(spec_u16_to_le_bytes(y.qcs_dev3)));
    assert(spec_u16_from_le_bytes(spec_u16_to_le_bytes(x.qcs_dev4)) == spec_u16_from_le_bytes(spec_u16_to_le_bytes(y.qcs_dev4)));
    assert(spec_u16_from_le_bytes(spec_u16_to_le_bytes(x.qcs_dev5)) == spec_u16_from_le_bytes(spec_u16_to_le_bytes(y.qcs_dev5)));
    assert(spec_u16_from_le_bytes(spec_u16_to_le_bytes(x.qcs_dev6)) == spec_u16_from_le_bytes(spec_u16_to_le_bytes(y.qcs_dev6)));
    assert(spec_u16_from_le_bytes(spec_u16_to_le_bytes(x.qcs_dev7)) == spec_u16_from_le_bytes(spec_u16_to_le_bytes(y.qcs_dev7)));
    assert(spec_u16_from_le_bytes(spec_u16_to_le_bytes(x.qcs_dev8)) == spec_u16_from_le_bytes(spec_u16_to_le_bytes(y.qcs_dev8)));
    assert(spec_u16_from_le_bytes(spec_u16_to_le_bytes(x.qcs_dev9)) == spec_u16_from_le_bytes(spec_u16_to_le_bytes(y.qcs_dev9)));
    assert(spec_u16_from_le_bytes(spec_u16_to_le_bytes(x.qcs_drive_strength)) == spec_u16_from_le_bytes(spec_u16_to_le_bytes(y.qcs_drive_strength)));
    assert(spec_u16_from_le_bytes(spec_u16_to_le_bytes(x.qcs_slew)) == spec_u16_from_le_bytes(spec_u16_to_le_bytes(y.qcs_slew)));
    assert(spec_u16_from_le_bytes(spec_u16_to_le_bytes(x.qcs_vref)) == spec_u16_from_le_bytes(spec_u16_to_le_bytes(y.qcs_vref)));
    assert(spec_u16_from_le_bytes(spec_u16_to_le_bytes(x.qca_dev0)) == spec_u16_from_le_bytes(spec_u16_to_le_bytes(y.qca_dev0)));
    assert(spec_u16_from_le_bytes(spec_u16_to_le_bytes(x.qca_dev1)) == spec_u16_from_le_bytes(spec_u16_to_le_bytes(y.qca_dev1)));
    assert(spec_u16_from_le_bytes(spec_u16_to_le_bytes(x.qca_dev2)) == spec_u16_from_le_bytes(spec_u16_to_le_bytes(y.qca_dev2)));
    assert(spec_u16_from_le_bytes(spec_u16_to_le_bytes(x.qca_dev3)) == spec_u16_from_le_bytes(spec_u16_to_le_bytes(y.qca_dev3)));
    assert(spec_u16_from_le_bytes(spec_u16_to_le_bytes(x.qca_dev4)) == spec_u16_from_le_bytes(spec_u16_to_le_bytes(y.qca_dev4)));
    assert(spec_u16_from_le_bytes(spec_u16_to_le_bytes(x.qca_dev5)) == spec_u16_from_le_bytes(spec_u16_to_le_bytes(y.qca_dev5)));
    assert(spec_u16_from_le_bytes(spec_u16_to_le_bytes(x.qca_dev6)) == spec_u16_from_le_bytes(spec_u16_to_le_bytes(y.qca_dev6)));
    assert(spec_u16_from_le_bytes(spec_u16_to_le_bytes(x.qca_dev7)) == spec_u16_from_le_bytes(spec_u16_to_le_bytes(y.qca_dev7)));
    assert(spec_u16_from_le_bytes(spec_u16_to_le_bytes(x.qca_dev8)) == spec_u16_from_le_bytes(spec_u16_to_le_bytes(y.qca_dev8)));
    assert(spec_u16_from_le_bytes(spec_u16_to_le_bytes(x.qca_dev9)) == spec_u16_from_le_bytes(spec_u16_to_le_bytes(y.qca_dev9)));
    assert(spec_u16_from_le_bytes(spec_u16_to_le_bytes(x.qca_drive_strength)) == spec_u16_from_le_bytes(spec_u16_to_le_bytes(y.qca_drive_strength)));
    assert(spec_u16_from_le_bytes(spec_u16_to_le_bytes(x.qca_slew)) == spec_u16_from_le_bytes(spec_u16_to_le_bytes(y.qca_slew)));
    assert(spec_u16_from_le_bytes(spec_u16_to_le_bytes(x.qca_vref)) == spec_u16_from_le_bytes(spec_u16_to_le_bytes(y.qca_vref)));
}

impl Default for Ddr5RawCardConfigElementPayload {
    fn default() -> (r: Self)
        ensures
            r.spec_total_size() == 0,
            r.spec_qck_dev0() == 0,
            r.spec_qck_dev1() == 0,
            r.spec_qck_dev2() == 0,
            r.spec_qck_dev3() == 0,
            r.spec_qck_dev4() == 0,
            r.spec_qck_dev5() == 0,
            r.spec_qck_dev6() == 0,
            r.spec_qck_dev7() == 0,
            r.spec_qck_dev8() == 0,
            r.spec_qck_dev9() == 0,
            r.spec_qck_drive_strength() == 0,
            r.spec_qck_slew() == 0,
            r.spec_qcs_dev0() == 0,
            r.spec_qcs_dev1() == 0,
            r.spec_qcs_dev2() == 0,
            r.spec_qcs_dev3() == 0,
            r.spec_qcs_dev4() == 0,
            r.spec_qcs_dev5() == 0,
            r.spec_qcs_dev6() == 0,
            r.spec_qcs_dev7() == 0,
            r.spec_qcs_dev8() == 0,
            r.spec_qcs_dev9() == 0,
            r.spec_qcs_drive_strength() == 0,
            r.spec_qcs_slew() == 0,
            r.spec_qcs_vref() == 0,
            r.spec_qca_dev0() == 0,
            r.spec_qca_dev1() == 0,
            r.spec_qca_dev2() == 0,
            r.spec_qca_dev3() == 0,
            r.spec_qca_dev4() == 0,
            r.spec_qca_dev5() == 0,
            r.spec_qca_dev6() == 0,
            r.spec_qca_dev7() == 0,
            r.spec_qca_dev8() == 0,
            r.spec_qca_dev9() == 0,
            r.spec_qca_drive_strength() == 0,
            r.spec_qca_slew() == 0,
            r.spec_qca_vref() == 0,
    {
        Ddr5RawCardConfigElementPayload { total_size: 0, qck_dev0: 0, qck_dev1: 0, qck_dev2: 0, qck_dev3: 0, qck_dev4: 0, qck_dev5: 0, qck_dev6: 0, qck_dev7: 0, qck_dev8: 0, qck_dev9: 0, qck_drive_strength: 0, qck_slew: 0, qcs_dev0: 0, qcs_dev1: 0, qcs_dev2: 0, qcs_dev3: 0, qcs_dev4: 0, qcs_dev5: 0, qcs_dev6: 0, qcs_dev7: 0, qcs_dev8: 0, qcs_dev9: 0, qcs_drive_strength: 0, qcs_slew: 0, qcs_vref: 0, qca_dev0: 0, qca_dev1: 0, qca_dev2: 0, qca_dev3: 0, qca_dev4: 0, qca_dev5: 0, qca_dev6: 0, qca_dev7: 0, qca_dev8: 0, qca_dev9: 0, qca_drive_strength: 0, qca_slew: 0, qca_vref: 0 }
    }
}

impl Ddr5RawCardConfigElementPayload {
    /// The stored setting, or `None` where 0xFF is stored.
    pub fn qck_drive_strength(&self) -> (r: Result<Option<Ddr5RawCardDriveStrength>>)
        ensures
            r == (if self.spec_qck_drive_strength() == 0xff {
                Ok::<Option<Ddr5RawCardDriveStrength>, Error>(None)
            } else {
                match Ddr5RawCardDriveStrength::spec_from_u64(self.spec_qck_drive_strength() as u64) {
                    Some(x) => Ok::<Option<Ddr5RawCardDriveStrength>, Error>(Some(x)),
                    None => Err(Error::EntryTypeMismatch),
                }
            }),
    {
        match self.qck_drive_strength {
            0xff => Ok(None),
            x => match Ddr5RawCardDriveStrength::from_u64(x as u64) {
                Some(v) => Ok(Some(v)),
                None => Err(Error::EntryTypeMismatch),
            },
        }
    }

    /// Stores the setting, or 0xFF for `None`.
    pub fn set_qck_drive_strength(&mut self, value: Option<Ddr5RawCardDriveStrength>)
        ensures
            final(self).spec_qck_drive_strength() == (match value {
                None => 0xffu16,
                Some(x) => x.spec_to_u64() as u16,
            }),
            final(self).spec_total_size() == old(self).spec_total_size(),
            final(self).spec_qck_dev0() == old(self).spec_qck_dev0(),
            final(self).spec_qck_dev1() == old(self).spec_qck_dev1(),
            final(self).spec_qck_dev2() == old(self).spec_qck_dev2(),
            final(self).spec_qck_dev3() == old(self).spec_qck_dev3(),
            final(self).spec_qck_dev4() == old(self).spec_qck_dev4(),
            final(self).spec_qck_dev5() == old(self).spec_qck_dev5(),
            final(self).spec_qck_dev6() == old(self).spec_qck_dev6(),
            final(self).spec_qck_dev7() == old(self).spec_qck_dev7(),
            final(self).spec_qck_dev8() == old(self).spec_qck_dev8(),
            final(self).spec_qck_dev9() == old(self).spec_qck_dev9(),
            final(self).spec_qck_slew() == old(self).spec_qck_slew(),
            final(self).spec_qcs_dev0() == old(self).spec_qcs_dev0(),
            final(self).spec_qcs_dev1() == old(self).spec_qcs_dev1(),
            final(self).spec_qcs_dev2() == old(self).spec_qcs_dev2(),
            final(self).spec_qcs_dev3() == old(self).spec_qcs_dev3(),
            final(self).spec_qcs_dev4() == old(self).spec_qcs_dev4(),
            final(self).spec_qcs_dev5() == old(self).spec_qcs_dev5(),
            final(self).spec_qcs_dev6() == old(self).spec_qcs_dev6(),
            final(self).spec_qcs_dev7() == old(self).spec_qcs_dev7(),
            final(self).spec_qcs_dev8() == old(self).spec_qcs_dev8(),
            final(self).spec_qcs_dev9() == old(self).spec_qcs_dev9(),
            final(self).spec_qcs_drive_strength() == old(self).spec_qcs_drive_strength(),
            final(self).spec_qcs_slew() == old(self).spec_qcs_slew(),
            final(self).spec_qcs_vref() == old(self).spec_qcs_vref(),
            final(self).spec_qca_dev0() == old(self).spec_qca_dev0(),
            final(self).spec_qca_dev1() == old(self).spec_qca_dev1(),
            final(self).spec_qca_dev2() == old(self).spec_qca_dev2(),
            final(self).spec_qca_dev3() == old(self).spec_qca_dev3(),
            final(self).spec_qca_dev4() == old(self).spec_qca_dev4(),
            final(self).spec_qca_dev5() == old(self).spec_qca_dev5(),
            final(self).spec_qca_dev6() == old(self).spec_qca_dev6(),
            final(self).spec_qca_dev7() == old(self).spec_qca_dev7(),
            final(self).spec_qca_dev8() == old(self).spec_qca_dev8(),
            final(self).spec_qca_dev9() == old(self).spec_qca_dev9(),
            final(self).spec_qca_drive_strength() == old(self).spec_qca_drive_strength(),
            final(self).spec_qca_slew() == old(self).spec_qca_slew(),
            final(self).spec_qca_vref() == old(self).spec_qca_vref(),
    {
        self.qck_drive_strength = match value {
            None => 0xff,
            Some(x) => x.to_u64().unwrap() as u16,
        };
    }

    /// The stored setting, or `None` where 0xFF is stored.
    pub fn qck_slew(&self) -> (r: Result<Option<Ddr5RawCardSlew>>)
        ensures
            r == (if self.spec_qck_slew() == 0xff {
                Ok::<Option<Ddr5RawCardSlew>, Error>(None)
            } else {
                match Ddr5RawCardSlew::spec_from_u64(self.spec_qck_slew() as u64) {
                    Some(x) => Ok::<Option<Ddr5RawCardSlew>, Error>(Some(x)),
                    None => Err(Error::EntryTypeMismatch),
                }
            }),
    {
        match self.qck_slew {
            0xff => Ok(None),
            x => match Ddr5RawCardSlew::from_u64(x as u64) {
                Some(v) => Ok(Some(v)),
                None => Err(Error::EntryTypeMismatch),
            },
        }
    }

    /// Stores the setting, or 0xFF for `None`.
    pub fn set_qck_slew(&mut self, value: Option<Ddr5RawCardSlew>)
        ensures
            final(self).spec_qck_slew() == (match value {
                None => 0xffu16,
                Some(x) => x.spec_to_u64() as u16,
            }),
            final(self).spec_total_size() == old(self).spec_total_size(),
            final(self).spec_qck_dev0() == old(self).spec_qck_dev0(),
            final(self).spec_qck_dev1() == old(self).spec_qck_dev1(),
            final(self).spec_qck_dev2() == old(self).spec_qck_dev2(),
            final(self).spec_qck_dev3() == old(self).spec_qck_dev3(),
            final(self).spec_qck_dev4() == old(self).spec_qck_dev4(),
            final(self).spec_qck_dev5() == old(self).spec_qck_dev5(),
            final(self).spec_qck_dev6() == old(self).spec_qck_dev6(),
            final(self).spec_qck_dev7() == old(self).spec_qck_dev7(),
            final(self).spec_qck_dev8() == old(self).spec_qck_dev8(),
            final(self).spec_qck_dev9() == old(self).spec_qck_dev9(),
            final(self).spec_qck_drive_strength() == old(self).spec_qck_drive_strength(),
            final(self).spec_qcs_dev0() == old(self).spec_qcs_dev0(),
            final(self).spec_qcs_dev1() == old(self).spec_qcs_dev1(),
            final(self).spec_qcs_dev2() == old(self).spec_qcs_dev2(),
            final(self).spec_qcs_dev3() == old(self).spec_qcs_dev3(),
            final(self).spec_qcs_dev4() == old(self).spec_qcs_dev4(),
            final(self).spec_qcs_dev5() == old(self).spec_qcs_dev5(),
            final(self).spec_qcs_dev6() == old(self).spec_qcs_dev6(),
            final(self).spec_qcs_dev7() == old(self).spec_qcs_dev7(),
            final(self).spec_qcs_dev8() == old(self).spec_qcs_dev8(),
            final(self).spec_qcs_dev9() == old(self).spec_qcs_dev9(),
            final(self).spec_qcs_drive_strength() == old(self).spec_qcs_drive_strength(),
            final(self).spec_qcs_slew() == old(self).spec_qcs_slew(),
            final(self).spec_qcs_vref() == old(self).spec_qcs_vref(),
            final(self).spec_qca_dev0() == old(self).spec_qca_dev0(),
            final(self).spec_qca_dev1() == old(self).spec_qca_dev1(),
            final(self).spec_qca_dev2() == old(self).spec_qca_dev2(),
            final(self).spec_qca_dev3() == old(self).spec_qca_dev3(),
            final(self).spec_qca_dev4() == old(self).spec_qca_dev4(),
            final(self).spec_qca_dev5() == old(self).spec_qca_dev5(),
            final(self).spec_qca_dev6() == old(self).spec_qca_dev6(),
            final(self).spec_qca_dev7() == old(self).spec_qca_dev7(),
            final(self).spec_qca_dev8() == old(self).spec_qca_dev8(),
            final(self).spec_qca_dev9() == old(self).spec_qca_dev9(),
            final(self).spec_qca_drive_strength() == old(self).spec_qca_drive_strength(),
            final(self).spec_qca_slew() == old(self).spec_qca_slew(),
            final(self).spec_qca_vref() == old(self).spec_qca_vref(),
    {
        self.qck_slew = match value {
            None => 0xff,
            Some(x) => x.to_u64().unwrap() as u16,
        };
    }

    /// The stored setting, or `None` where 0xFF is stored.
    pub fn qcs_drive_strength(&self) -> (r: Result<Option<Ddr5RawCardDriveStrength>>)
        ensures
            r == (if self.spec_qcs_drive_strength() == 0xff {
                Ok::<Option<Ddr5RawCardDriveStrength>, Error>(None)
            } else {
                match Ddr5RawCardDriveStrength::spec_from_u64(self.spec_qcs_drive_strength() as u64) {
                    Some(x) => Ok::<Option<Ddr5RawCardDriveStrength>, Error>(Some(x)),
                    None => Err(Error::EntryTypeMismatch),
                }
            }),
    {
        match self.qcs_drive_strength {
            0xff => Ok(None),
            x => match Ddr5RawCardDriveStrength::from_u64(x as u64) {
                Some(v) => Ok(Some(v)),
                None => Err(Error::EntryTypeMismatch),
            },
        }
    }

    /// Stores the setting, or 0xFF for `None`.
    pub fn set_qcs_drive_strength(&mut self, value: Option<Ddr5RawCardDriveStrength>)
        ensures
            final(self).spec_qcs_drive_strength() == (match value {
                None => 0xffu16,
                Some(x) => x.spec_to_u64() as u16,
            }),
            final(self).spec_total_size() == old(self).spec_total_size(),
            final(self).spec_qck_dev0() == old(self).spec_qck_dev0(),
            final(self).spec_qck_dev1() == old(self).spec_qck_dev1(),
            final(self).spec_qck_dev2() == old(self).spec_qck_dev2(),
            final(self).spec_qck_dev3() == old(self).spec_qck_dev3(),
            final(self).spec_qck_dev4() == old(self).spec_qck_dev4(),
            final(self).spec_qck_dev5() == old(self).spec_qck_dev5(),
            final(self).spec_qck_dev6() == old(self).spec_qck_dev6(),
            final(self).spec_qck_dev7() == old(self).spec_qck_dev7(),
            final(self).spec_qck_dev8() == old(self).spec_qck_dev8(),
            final(self).spec_qck_dev9() == old(self).spec_qck_dev9(),
            final(self).spec_qck_drive_strength() == old(self).spec_qck_drive_strength(),
            final(self).spec_qck_slew() == old(self).spec_qck_slew(),
            final(self).spec_qcs_dev0() == old(self).spec_qcs_dev0(),
            final(self).spec_qcs_dev1() == old(self).spec_qcs_dev1(),
            final(self).spec_qcs_dev2() == old(self).spec_qcs_dev2(),
            final(self).spec_qcs_dev3() == old(self).spec_qcs_dev3(),
            final(self).spec_qcs_dev4() == old(self).spec_qcs_dev4(),
            final(self).spec_qcs_dev5() == old(self).spec_qcs_dev5(),
            final(self).spec_qcs_dev6() == old(self).spec_qcs_dev6(),
            final(self).spec_qcs_dev7() == old(self).spec_qcs_dev7(),
            final(self).spec_qcs_dev8() == old(self).spec_qcs_dev8(),
            final(self).spec_qcs_dev9() == old(self).spec_qcs_dev9(),
            final(self).spec_qcs_slew() == old(self).spec_qcs_slew(),
            final(self).spec_qcs_vref() == old(self).spec_qcs_vref(),
            final(self).spec_qca_dev0() == old(self).spec_qca_dev0(),
            final(self).spec_qca_dev1() == old(self).spec_qca_dev1(),
            final(self).spec_qca_dev2() == old(self).spec_qca_dev2(),
            final(self).spec_qca_dev3() == old(self).spec_qca_dev3(),
            final(self).spec_qca_dev4() == old(self).spec_qca_dev4(),
            final(self).spec_qca_dev5() == old(self).spec_qca_dev5(),
            final(self).spec_qca_dev6() == old(self).spec_qca_dev6(),
            final(self).spec_qca_dev7() == old(self).spec_qca_dev7(),
            final(self).spec_qca_dev8() == old(self).spec_qca_dev8(),
            final(self).spec_qca_dev9() == old(self).spec_qca_dev9(),
            final(self).spec_qca_drive_strength() == old(self).spec_qca_drive_strength(),
            final(self).spec_qca_slew() == old(self).spec_qca_slew(),
            final(self).spec_qca_vref() == old(self).spec_qca_vref(),
    {
        self.qcs_drive_strength = match value {
            None => 0xff,
            Some(x) => x.to_u64().unwrap() as u16,
        };
    }

    /// The stored setting, or `None` where 0xFF is stored.
    pub fn qcs_slew(&self) -> (r: Result<Option<Ddr5RawCardSlew>>)
        ensures
            r == (if self.spec_qcs_slew() == 0xff {
                Ok::<Option<Ddr5RawCardSlew>, Error>(None)
            } else {
                match Ddr5RawCardSlew::spec_from_u64(self.spec_qcs_slew() as u64) {
                    Some(x) => Ok::<Option<Ddr5RawCardSlew>, Error>(Some(x)),
                    None => Err(Error::EntryTypeMismatch),
                }
            }),
    {
        match self.qcs_slew {
            0xff => Ok(None),
            x => match Ddr5RawCardSlew::from_u64(x as u64) {
                Some(v) => Ok(Some(v)),
                None => Err(Error::EntryTypeMismatch),
            },
        }
    }

    /// Stores the setting, or 0xFF for `None`.
    pub fn set_qcs_slew(&mut self, value: Option<Ddr5RawCardSlew>)
        ensures
            final(self).spec_qcs_slew() == (match value {
                None => 0xffu16,
                Some(x) => x.spec_to_u64() as u16,
            }),
            final(self).spec_total_size() == old(self).spec_total_size(),
            final(self).spec_qck_dev0() == old(self).spec_qck_dev0(),
            final(self).spec_qck_dev1() == old(self).spec_qck_dev1(),
            final(self).spec_qck_dev2() == old(self).spec_qck_dev2(),
            final(self).spec_qck_dev3() == old(self).spec_qck_dev3(),
            final(self).spec_qck_dev4() == old(self).spec_qck_dev4(),
            final(self).spec_qck_dev5() == old(self).spec_qck_dev5(),
            final(self).spec_qck_dev6() == old(self).spec_qck_dev6(),
            final(self).spec_qck_dev7() == old(self).spec_qck_dev7(),
            final(self).spec_qck_dev8() == old(self).spec_qck_dev8(),
            final(self).spec_qck_dev9() == old(self).spec_qck_dev9(),
            final(self).spec_qck_drive_strength() == old(self).spec_qck_drive_strength(),
            final(self).spec_qck_slew() == old(self).spec_qck_slew(),
            final(self).spec_qcs_dev0() == old(self).spec_qcs_dev0(),
            final(self).spec_qcs_dev1() == old(self).spec_qcs_dev1(),
            final(self).spec_qcs_dev2() == old(self).spec_qcs_dev2(),
            final(self).spec_qcs_dev3() == old(self).spec_qcs_dev3(),
            final(self).spec_qcs_dev4() == old(self).spec_qcs_dev4(),
            final(self).spec_qcs_dev5() == old(self).spec_qcs_dev5(),
            final(self).spec_qcs_dev6() == old(self).spec_qcs_dev6(),
            final(self).spec_qcs_dev7() == old(self).spec_qcs_dev7(),
            final(self).spec_qcs_dev8() == old(self).spec_qcs_dev8(),
            final(self).spec_qcs_dev9() == old(self).spec_qcs_dev9(),
            final(self).spec_qcs_drive_strength() == old(self).spec_qcs_drive_strength(),
            final(self).spec_qcs_vref() == old(self).spec_qcs_vref(),
            final(self).spec_qca_dev0() == old(self).spec_qca_dev0(),
            final(self).spec_qca_dev1() == old(self).spec_qca_dev1(),
            final(self).spec_qca_dev2() == old(self).spec_qca_dev2(),
            final(self).spec_qca_dev3() == old(self).spec_qca_dev3(),
            final(self).spec_qca_dev4() == old(self).spec_qca_dev4(),
            final(self).spec_qca_dev5() == old(self).spec_qca_dev5(),
            final(self).spec_qca_dev6() == old(self).spec_qca_dev6(),
            final(self).spec_qca_dev7() == old(self).spec_qca_dev7(),
            final(self).spec_qca_dev8() == old(self).spec_qca_dev8(),
            final(self).spec_qca_dev9() == old(self).spec_qca_dev9(),
            final(self).spec_qca_drive_strength() == old(self).spec_qca_drive_strength(),
            final(self).spec_qca_slew() == old(self).spec_qca_slew(),
            final(self).spec_qca_vref() == old(self).spec_qca_vref(),
    {
        self.qcs_slew = match value {
            None => 0xff,
            Some(x) => x.to_u64().unwrap() as u16,
        };
    }

    /// The stored setting, or `None` where 0xFF is stored.
    pub fn qca_drive_strength(&self) -> (r: Result<Option<Ddr5RawCardDriveStrength>>)
        ensures
            r == (if self.spec_qca_drive_strength() == 0xff {
                Ok::<Option<Ddr5RawCardDriveStrength>, Error>(None)
            } else {
                match Ddr5RawCardDriveStrength::spec_from_u64(self.spec_qca_drive_strength() as u64) {
                    Some(x) => Ok::<Option<Ddr5RawCardDriveStrength>, Error>(Some(x)),
                    None => Err(Error::EntryTypeMismatch),
                }
            }),
    {
        match self.qca_drive_strength {
            0xff => Ok(None),
            x => match Ddr5RawCardDriveStrength::from_u64(x as u64) {
                Some(v) => Ok(Some(v)),
                None => Err(Error::EntryTypeMismatch),
            },
        }
    }

    /// Stores the setting, or 0xFF for `None`.
    pub fn set_qca_drive_strength(&mut self, value: Option<Ddr5RawCardDriveStrength>)
        ensures
            final(self).spec_qca_drive_strength() == (match value {
                None => 0xffu16,
                Some(x) => x.spec_to_u64() as u16,
            }),
            final(self).spec_total_size() == old(self).spec_total_size(),
            final(self).spec_qck_dev0() == old(self).spec_qck_dev0(),
            final(self).spec_qck_dev1() == old(self).spec_qck_dev1(),
            final(self).spec_qck_dev2() == old(self).spec_qck_dev2(),
            final(self).spec_qck_dev3() == old(self).spec_qck_dev3(),
            final(self).spec_qck_dev4() == old(self).spec_qck_dev4(),
            final(self).spec_qck_dev5() == old(self).spec_qck_dev5(),
            final(self).spec_qck_dev6() == old(self).spec_qck_dev6(),
            final(self).spec_qck_dev7() == old(self).spec_qck_dev7(),
            final(self).spec_qck_dev8() == old(self).spec_qck_dev8(),
            final(self).spec_qck_dev9() == old(self).spec_qck_dev9(),
            final(self).spec_qck_drive_strength() == old(self).spec_qck_drive_strength(),
            final(self).spec_qck_slew() == old(self).spec_qck_slew(),
            final(self).spec_qcs_dev0() == old(self).spec_qcs_dev0(),
            final(self).spec_qcs_dev1() == old(self).spec_qcs_dev1(),
            final(self).spec_qcs_dev2() == old(self).spec_qcs_dev2(),
            final(self).spec_qcs_dev3() == old(self).spec_qcs_dev3(),
            final(self).spec_qcs_dev4() == old(self).spec_qcs_dev4(),
            final(self).spec_qcs_dev5() == old(self).spec_qcs_dev5(),
            final(self).spec_qcs_dev6() == old(self).spec_qcs_dev6(),
            final(self).spec_qcs_dev7() == old(self).spec_qcs_dev7(),
            final(self).spec_qcs_dev8() == old(self).spec_qcs_dev8(),
            final(self).spec_qcs_dev9() == old(self).spec_qcs_dev9(),
            final(self).spec_qcs_drive_strength() == old(self).spec_qcs_drive_strength(),
            final(self).spec_qcs_slew() == old(self).spec_qcs_slew(),
            final(self).spec_qcs_vref() == old(self).spec_qcs_vref(),
            final(self).spec_qca_dev0() == old(self).spec_qca_dev0(),
            final(self).spec_qca_dev1() == old(self).spec_qca_dev1(),
            final(self).spec_qca_dev2() == old(self).spec_qca_dev2(),
            final(self).spec_qca_dev3() == old(self).spec_qca_dev3(),
            final(self).spec_qca_dev4() == old(self).spec_qca_dev4(),
            final(self).spec_qca_dev5() == old(self).spec_qca_dev5(),
            final(self).spec_qca_dev6() == old(self).spec_qca_dev6(),
            final(self).spec_qca_dev7() == old(self).spec_qca_dev7(),
            final(self).spec_qca_dev8() == old(self).spec_qca_dev8(),
            final(self).spec_qca_dev9() == old(self).spec_qca_dev9(),
            final(self).spec_qca_slew() == old(self).spec_qca_slew(),
            final(self).spec_qca_vref() == old(self).spec_qca_vref(),
    {
        self.qca_drive_strength = match value {
            None => 0xff,
            Some(x) => x.to_u64().unwrap() as u16,
        };
    }

    /// The stored setting, or `None` where 0xFF is stored.
    pub fn qca_slew(&self) -> (r: Result<Option<Ddr5RawCardSlew>>)
        ensures
            r == (if self.spec_qca_slew() == 0xff {
                Ok::<Option<Ddr5RawCardSlew>, Error>(None)
            } else {
                match Ddr5RawCardSlew::spec_from_u64(self.spec_qca_slew() as u64) {
                    Some(x) => Ok::<Option<Ddr5RawCardSlew>, Error>(Some(x)),
                    None => Err(Error::EntryTypeMismatch),
                }
            }),
    {
        match self.qca_slew {
            0xff => Ok(None),
            x => match Ddr5RawCardSlew::from_u64(x as u64) {
                Some(v) => Ok(Some(v)),
                None => Err(Error::EntryTypeMismatch),
            },
        }
    }

    /// Stores the setting, or 0xFF for `None`.
    pub fn set_qca_slew(&mut self, value: Option<Ddr5RawCardSlew>)
        ensures
            final(self).spec_qca_slew() == (match value {
                None => 0xffu16,
                Some(x) => x.spec_to_u64() as u16,
            }),
            final(self).spec_total_size() == old(self).spec_total_size(),
            final(self).spec_qck_dev0() == old(self).spec_qck_dev0(),
            final(self).spec_qck_dev1() == old(self).spec_qck_dev1(),
            final(self).spec_qck_dev2() == old(self).spec_qck_dev2(),
            final(self).spec_qck_dev3() == old(self).spec_qck_dev3(),
            final(self).spec_qck_dev4() == old(self).spec_qck_dev4(),
            final(self).spec_qck_dev5() == old(self).spec_qck_dev5(),
            final(self).spec_qck_dev6() == old(self).spec_qck_dev6(),
            final(self).spec_qck_dev7() == old(self).spec_qck_dev7(),
            final(self).spec_qck_dev8() == old(self).spec_qck_dev8(),
            final(self).spec_qck_dev9() == old(self).spec_qck_dev9(),
            final(self).spec_qck_drive_strength() == old(self).spec_qck_drive_strength(),
            final(self).spec_qck_slew() == old(self).spec_qck_slew(),
            final(self).spec_qcs_dev0() == old(self).spec_qcs_dev0(),
            final(self).spec_qcs_dev1() == old(self).spec_qcs_dev1(),
            final(self).spec_qcs_dev2() == old(self).spec_qcs_dev2(),
            final(self).spec_qcs_dev3() == old(self).spec_qcs_dev3(),
            final(self).spec_qcs_dev4() == old(self).spec_qcs_dev4(),
            final(self).spec_qcs_dev5() == old(self).spec_qcs_dev5(),
            final(self).spec_qcs_dev6() == old(self).spec_qcs_dev6(),
            final(self).spec_qcs_dev7() == old(self).spec_qcs_dev7(),
            final(self).spec_qcs_dev8() == old(self).spec_qcs_dev8(),
            final(self).spec_qcs_dev9() == old(self).spec_qcs_dev9(),
            final(self).spec_qcs_drive_strength() == old(self).spec_qcs_drive_strength(),
            final(self).spec_qcs_slew() == old(self).spec_qcs_slew(),
            final(self).spec_qcs_vref() == old(self).spec_qcs_vref(),
            final(self).spec_qca_dev0() == old(self).spec_qca_dev0(),
            final(self).spec_qca_dev1() == old(self).spec_qca_dev1(),
            final(self).spec_qca_dev2() == old(self).spec_qca_dev2(),
            final(self).spec_qca_dev3() == old(self).spec_qca_dev3(),
            final(self).spec_qca_dev4() == old(self).spec_qca_dev4(),
            final(self).spec_qca_dev5() == old(self).spec_qca_dev5(),
            final(self).spec_qca_dev6() == old(self).spec_qca_dev6(),
            final(self).spec_qca_dev7() == old(self).spec_qca_dev7(),
            final(self).spec_qca_dev8() == old(self).spec_qca_dev8(),
            final(self).spec_qca_dev9() == old(self).spec_qca_dev9(),
            final(self).spec_qca_drive_strength() == old(self).spec_qca_drive_strength(),
            final(self).spec_qca_vref() == old(self).spec_qca_vref(),
    {
        self.qca_slew = match value {
            None => 0xff,
            Some(x) => x.to_u64().unwrap() as u16,
        };
    }

}

/// A DDR5 raw card configuration element: header and settings.
#[allow(non_camel_case_types)]
#[derive(Debug, Clone, Copy)]
pub struct Ddr5RawCardConfigElement {
    pub(crate) header: Ddr5RawCardConfigElementHeader32,
    pub(crate) payload: Ddr5RawCardConfigElementPayload,
}

impl Ddr5RawCardConfigElement {
    pub closed spec fn spec_header(self) -> Ddr5RawCardConfigElementHeader32 {
        self.header
    }

    pub closed spec fn spec_payload(self) -> Ddr5RawCardConfigElementPayload {
        self.payload
    }

}

impl Ddr5RawCardConfigElement {
    /// The bytes that store this value on disk.
    pub closed spec fn spec_bytes(self) -> Seq<u8> {
        self.header.spec_to_bytes()
            + self.payload.spec_to_bytes()
    }
}

impl ByteLayout for Ddr5RawCardConfigElement {
    open spec fn spec_size() -> nat {
        112
    }

    open spec fn spec_to_bytes(self) -> Seq<u8> {
        self.spec_bytes()
    }

    fn size() -> (r: usize) {
        112
    }

    #[verifier::spinoff_prover]
    #[verifier::rlimit(60)]
    fn from_bytes(bytes: &[u8]) -> (r: Self) {
        let header: Ddr5RawCardConfigElementHeader32 = Ddr5RawCardConfigElementHeader32::from_bytes(slice_subrange(bytes, 0, 32));
        let payload: Ddr5RawCardConfigElementPayload = Ddr5RawCardConfigElementPayload::from_bytes(slice_subrange(bytes, 32, 112));
        let r = Ddr5RawCardConfigElement { header, payload };
        proof {
            lemma_auto_spec_u16_to_from_le_bytes();
            lemma_auto_spec_u32_to_from_le_bytes();
            lemma_auto_spec_u64_to_from_le_bytes();
            lemma_ddr5_raw_card_config_element_bytes_pieces(r);
            assert(bytes@.subrange(0, 32) == header.spec_to_bytes());
            assert(bytes@.subrange(32, 112) == payload.spec_to_bytes());
            assert(bytes@.subrange(0, 112) =~= bytes@.subrange(0, 32) + bytes@.subrange(32, 112));
            assert(bytes@.subrange(0, 112) =~= bytes@);
            assert(bytes@ == r.spec_bytes());
        }
        r
    }

    #[verifier::spinoff_prover]
    #[verifier::rlimit(60)]
    fn to_bytes(&self) -> (r: Vec<u8>) {
        let mut out: Vec<u8> = Vec::new();
        let part = self.header.to_bytes();
        append_bytes(&mut out, part.as_slice());
        let part = self.payload.to_bytes();
        append_bytes(&mut out, part.as_slice());
        proof {
            lemma_ddr5_raw_card_config_element_bytes_pieces(*self);
        }
        out
    }
}

/// How the bytes of a Ddr5RawCardConfigElement split up into its fields.
pub proof fn lemma_ddr5_raw_card_config_element_bytes_pieces(x: Ddr5RawCardConfigElement)
    ensures
        x.spec_bytes().len() == 112,
        x.spec_bytes().subrange(0, 32) == x.spec_header().spec_to_bytes(),
        x.spec_bytes().subrange(32, 112) == x.spec_payload().spec_to_bytes(),
{
    lemma_auto_spec_u16_to_from_le_bytes();
    lemma_auto_spec_u32_to_from_le_bytes();
    lemma_auto_spec_u64_to_from_le_bytes();
    lemma_ddr5_raw_card_config_element_header32_bytes_pieces(x.header);
    lemma_ddr5_raw_card_config_element_payload_bytes_pieces(x.payload);
    assert(x.spec_bytes().subrange(0, 32) == x.header.spec_to_bytes());
    assert(x.spec_bytes().subrange(32, 112) == x.payload.spec_to_bytes());
}

/// Two values of Ddr5RawCardConfigElement with the same bytes are the same value.
#[verifier::spinoff_prover]
#[verifier::rlimit(60)]
pub proof fn lemma_ddr5_raw_card_config_element_bytes_injective(x: Ddr5RawCardConfigElement, y: Ddr5RawCardConfigElement)
    requires
        x.spec_bytes() == y.spec_bytes(),
    ensures
        x == y,
{
    lemma_ddr5_raw_card_config_element_bytes_pieces(x);
    lemma_ddr5_raw_card_config_element_bytes_pieces(y);
    lemma_auto_spec_u16_to_from_le_bytes();
    lemma_auto_spec_u32_to_from_le_bytes();
    lemma_auto_spec_u64_to_from_le_bytes();
    lemma_ddr5_raw_card_config_element_header32_bytes_injective(x.header, y.header);
    lemma_ddr5_raw_card_config_element_payload_bytes_injective(x.payload, y.payload);
}

impl Default for Ddr5RawCardConfigElement {
    fn default() -> (r: Self)
        ensures
            r.spec_header().spec_mem_clk() == 0,
            r.spec_payload().spec_total_size() == 0,
    {
        Ddr5RawCardConfigElement { header: Ddr5RawCardConfigElementHeader32::default(), payload: Ddr5RawCardConfigElementPayload::default() }
    }
}

impl EntryCompatible for Ddr5RawCardConfigElement {
    fn is_entry_compatible(entry_id: EntryId, _prefix: &[u8]) -> (r: bool)
        ensures
            r == (entry_id == EntryId::Memory(MemoryEntryId::Ddr5RawCardConfig)),
    {
        matches!(entry_id, EntryId::Memory(MemoryEntryId::Ddr5RawCardConfig))
    }
}

/// The channels that a training override applies to (one bit each, twelve bits).
#[derive(Debug, Clone, Copy, PartialEq, Eq, Structural)]
pub struct Ddr5TrainingOverrideEntryHeaderChannelSelectorMask(u16);

impl Ddr5TrainingOverrideEntryHeaderChannelSelectorMask {
    /// The packed bits.
    pub closed spec fn spec_raw(self) -> u16 {
        self.0
    }

    /// The value with the given packed bits.
    pub closed spec fn spec_from_raw(raw: u16) -> Self {
        Ddr5TrainingOverrideEntryHeaderChannelSelectorMask(raw)
    }

    /// The packed bits determine the value, and any packed bits make a value.
    pub proof fn lemma_raw(x: Self, raw: u16)
        ensures
            Self::spec_from_raw(raw).spec_raw() == raw,
            Self::spec_from_raw(x.spec_raw()) == x,
    {
    }

    pub open spec fn spec_c_0(self) -> bool {
        spec_field_u16(self.spec_raw(), 0, 1) == 1
    }

    pub open spec fn spec_c_1(self) -> bool {
        spec_field_u16(self.spec_raw(), 1, 1) == 1
    }

    pub open spec fn spec_c_2(self) -> bool {
        spec_field_u16(self.spec_raw(), 2, 1) == 1
    }

    pub open spec fn spec_c_3(self) -> bool {
        spec_field_u16(self.spec_raw(), 3, 1) == 1
    }

    pub open spec fn spec_c_4(self) -> bool {
        spec_field_u16(self.spec_raw(), 4, 1) == 1
    }

    pub open spec fn spec_c_5(self) -> bool {
        spec_field_u16(self.spec_raw(), 5, 1) == 1
    }

    pub open spec fn spec_c_6(self) -> bool {
        spec_field_u16(self.spec_raw(), 6, 1) == 1
    }

    pub open spec fn spec_c_7(self) -> bool {
        spec_field_u16(self.spec_raw(), 7, 1) == 1
    }

    pub open spec fn spec_c_8(self) -> bool {
        spec_field_u16(self.spec_raw(), 8, 1) == 1
    }

    pub open spec fn spec_c_9(self) -> bool {
        spec_field_u16(self.spec_raw(), 9, 1) == 1
    }

    pub open spec fn spec_c_10(self) -> bool {
        spec_field_u16(self.spec_raw(), 10, 1) == 1
    }

    pub open spec fn spec_c_11(self) -> bool {
        spec_field_u16(self.spec_raw(), 11, 1) == 1
    }

    /// All bits clear.
    pub fn new() -> (r: Self)
        ensures
            r.spec_raw() == 0,
    {
        Ddr5TrainingOverrideEntryHeaderChannelSelectorMask(0)
    }

    /// The value to start building from: all bits clear.
    pub fn builder() -> (r: Self)
        ensures
            r.spec_raw() == 0,
    {
        Self::new()
    }

    /// The value as built.
    pub fn build(&self) -> (r: Self)
        ensures
            r == *self,
    {
        *self
    }

    /// The value with the given packed bits.
    pub fn from_raw(raw: u16) -> (r: Self)
        ensures
            r.spec_raw() == raw,
            r == Self::spec_from_raw(raw),
    {
        Ddr5TrainingOverrideEntryHeaderChannelSelectorMask(raw)
    }

    /// The packed bits.
    pub fn into_raw(self) -> (r: u16)
        ensures
            r == self.spec_raw(),
    {
        self.0
    }

    pub fn c_0(&self) -> (r: bool)
        ensures
            r == self.spec_c_0(),
    {
        field_u16(self.0, 0, 1) == 1
    }

    pub fn set_c_0(&mut self, value: bool)
        ensures
            final(self).spec_raw() == spec_with_field_u16(old(self).spec_raw(), 0, 1, (if value { 1u16 } else { 0u16 })),
            final(self).spec_c_0() == value,
            final(self).spec_c_1() == old(self).spec_c_1(),
            final(self).spec_c_2() == old(self).spec_c_2(),
            final(self).spec_c_3() == old(self).spec_c_3(),
            final(self).spec_c_4() == old(self).spec_c_4(),
            final(self).spec_c_5() == old(self).spec_c_5(),
            final(self).spec_c_6() == old(self).spec_c_6(),
            final(self).spec_c_7() == old(self).spec_c_7(),
            final(self).spec_c_8() == old(self).spec_c_8(),
            final(self).spec_c_9() == old(self).spec_c_9(),
            final(self).spec_c_10() == old(self).spec_c_10(),
            final(self).spec_c_11() == old(self).spec_c_11(),
    {
        let x: u16 = if value { 1 } else { 0 };
        let ghost old_raw = self.0;
        proof {
            lemma_shift_table_u16();
            lemma_with_field_same_u16(old_raw, 0, 1, x);
            lemma_with_field_other_u16(old_raw, 0, 1, x, 1, 1);
            lemma_with_field_other_u16(old_raw, 0, 1, x, 2, 1);
            lemma_with_field_other_u16(old_raw, 0, 1, x, 3, 1);
            lemma_with_field_other_u16(old_raw, 0, 1, x, 4, 1);
            lemma_with_field_other_u16(old_raw, 0, 1, x, 5, 1);
            lemma_with_field_other_u16(old_raw, 0, 1, x, 6, 1);
            lemma_with_field_other_u16(old_raw, 0, 1, x, 7, 1);
            lemma_with_field_other_u16(old_raw, 0, 1, x, 8, 1);
            lemma_with_field_other_u16(old_raw, 0, 1, x, 9, 1);
            lemma_with_field_other_u16(old_raw, 0, 1, x, 10, 1);
            lemma_with_field_other_u16(old_raw, 0, 1, x, 11, 1);
        }
        self.0 = with_field_u16(self.0, 0, 1, x);
    }

    pub fn with_c_0(self, value: bool) -> (r: Self)
        ensures
            r.spec_raw() == spec_with_field_u16(self.spec_raw(), 0, 1, (if value { 1u16 } else { 0u16 })),
            r.spec_c_0() == value,
            r.spec_c_1() == self.spec_c_1(),
            r.spec_c_2() == self.spec_c_2(),
            r.spec_c_3() == self.spec_c_3(),
            r.spec_c_4() == self.spec_c_4(),
            r.spec_c_5() == self.spec_c_5(),
            r.spec_c_6() == self.spec_c_6(),
            r.spec_c_7() == self.spec_c_7(),
            r.spec_c_8() == self.spec_c_8(),
            r.spec_c_9() == self.spec_c_9(),
            r.spec_c_10() == self.spec_c_10(),
            r.spec_c_11() == self.spec_c_11(),
    {
        let mut r = self;
        r.set_c_0(value);
        r
    }

    pub fn c_1(&self) -> (r: bool)
        ensures
            r == self.spec_c_1(),
    {
        field_u16(self.0, 1, 1) == 1
    }

    pub fn set_c_1(&mut self, value: bool)
        ensures
            final(self).spec_raw() == spec_with_field_u16(old(self).spec_raw(), 1, 1, (if value { 1u16 } else { 0u16 })),
            final(self).spec_c_1() == value,
            final(self).spec_c_0() == old(self).spec_c_0(),
            final(self).spec_c_2() == old(self).spec_c_2(),
            final(self).spec_c_3() == old(self).spec_c_3(),
            final(self).spec_c_4() == old(self).spec_c_4(),
            final(self).spec_c_5() == old(self).spec_c_5(),
            final(self).spec_c_6() == old(self).spec_c_6(),
            final(self).spec_c_7() == old(self).spec_c_7(),
            final(self).spec_c_8() == old(self).spec_c_8(),
            final(self).spec_c_9() == old(self).spec_c_9(),
            final(self).spec_c_10() == old(self).spec_c_10(),
            final(self).spec_c_11() == old(self).spec_c_11(),
    {
        let x: u16 = if value { 1 } else { 0 };
        let ghost old_raw = self.0;
        proof {
            lemma_shift_table_u16();
            lemma_with_field_same_u16(old_raw, 1, 1, x);
            lemma_with_field_other_u16(old_raw, 1, 1, x, 0, 1);
            lemma_with_field_other_u16(old_raw, 1, 1, x, 2, 1);
            lemma_with_field_other_u16(old_raw, 1, 1, x, 3, 1);
            lemma_with_field_other_u16(old_raw, 1, 1, x, 4, 1);
            lemma_with_field_other_u16(old_raw, 1, 1, x, 5, 1);
            lemma_with_field_other_u16(old_raw, 1, 1, x, 6, 1);
            lemma_with_field_other_u16(old_raw, 1, 1, x, 7, 1);
            lemma_with_field_other_u16(old_raw, 1, 1, x, 8, 1);
            lemma_with_field_other_u16(old_raw, 1, 1, x, 9, 1);
            lemma_with_field_other_u16(old_raw, 1, 1, x, 10, 1);
            lemma_with_field_other_u16(old_raw, 1, 1, x, 11, 1);
        }
        self.0 = with_field_u16(self.0, 1, 1, x);
    }

    pub fn with_c_1(self, value: bool) -> (r: Self)
        ensures
            r.spec_raw() == spec_with_field_u16(self.spec_raw(), 1, 1, (if value { 1u16 } else { 0u16 })),
            r.spec_c_1() == value,
            r.spec_c_0() == self.spec_c_0(),
            r.spec_c_2() == self.spec_c_2(),
            r.spec_c_3() == self.spec_c_3(),
            r.spec_c_4() == self.spec_c_4(),
            r.spec_c_5() == self.spec_c_5(),
            r.spec_c_6() == self.spec_c_6(),
            r.spec_c_7() == self.spec_c_7(),
            r.spec_c_8() == self.spec_c_8(),
            r.spec_c_9() == self.spec_c_9(),
            r.spec_c_10() == self.spec_c_10(),
            r.spec_c_11() == self.spec_c_11(),
    {
        let mut r = self;
        r.set_c_1(value);
        r
    }

    pub fn c_2(&self) -> (r: bool)
        ensures
            r == self.spec_c_2(),
    {
        field_u16(self.0, 2, 1) == 1
    }

    pub fn set_c_2(&mut self, value: bool)
        ensures
            final(self).spec_raw() == spec_with_field_u16(old(self).spec_raw(), 2, 1, (if value { 1u16 } else { 0u16 })),
            final(self).spec_c_2() == value,
            final(self).spec_c_0() == old(self).spec_c_0(),
            final(self).spec_c_1() == old(self).spec_c_1(),
            final(self).spec_c_3() == old(self).spec_c_3(),
            final(self).spec_c_4() == old(self).spec_c_4(),
            final(self).spec_c_5() == old(self).spec_c_5(),
            final(self).spec_c_6() == old(self).spec_c_6(),
            final(self).spec_c_7() == old(self).spec_c_7(),
            final(self).spec_c_8() == old(self).spec_c_8(),
            final(self).spec_c_9() == old(self).spec_c_9(),
            final(self).spec_c_10() == old(self).spec_c_10(),
            final(self).spec_c_11() == old(self).spec_c_11(),
    {
        let x: u16 = if value { 1 } else { 0 };
        let ghost old_raw = self.0;
        proof {
            lemma_shift_table_u16();
            lemma_with_field_same_u16(old_raw, 2, 1, x);
            lemma_with_field_other_u16(old_raw, 2, 1, x, 0, 1);
            lemma_with_field_other_u16(old_raw, 2, 1, x, 1, 1);
            lemma_with_field_other_u16(old_raw, 2, 1, x, 3, 1);
            lemma_with_field_other_u16(old_raw, 2, 1, x, 4, 1);
            lemma_with_field_other_u16(old_raw, 2, 1, x, 5, 1);
            lemma_with_field_other_u16(old_raw, 2, 1, x, 6, 1);
            lemma_with_field_other_u16(old_raw, 2, 1, x, 7, 1);
            lemma_with_field_other_u16(old_raw, 2, 1, x, 8, 1);
            lemma_with_field_other_u16(old_raw, 2, 1, x, 9, 1);
            lemma_with_field_other_u16(old_raw, 2, 1, x, 10, 1);
            lemma_with_field_other_u16(old_raw, 2, 1, x, 11, 1);
        }
        self.0 = with_field_u16(self.0, 2, 1, x);
    }

    pub fn with_c_2(self, value: bool) -> (r: Self)
        ensures
            r.spec_raw() == spec_with_field_u16(self.spec_raw(), 2, 1, (if value { 1u16 } else { 0u16 })),
            r.spec_c_2() == value,
            r.spec_c_0() == self.spec_c_0(),
            r.spec_c_1() == self.spec_c_1(),
            r.spec_c_3() == self.spec_c_3(),
            r.spec_c_4() == self.spec_c_4(),
            r.spec_c_5() == self.spec_c_5(),
            r.spec_c_6() == self.spec_c_6(),
            r.spec_c_7() == self.spec_c_7(),
            r.spec_c_8() == self.spec_c_8(),
            r.spec_c_9() == self.spec_c_9(),
            r.spec_c_10() == self.spec_c_10(),
            r.spec_c_11() == self.spec_c_11(),
    {
        let mut r = self;
        r.set_c_2(value);
        r
    }

    pub fn c_3(&self) -> (r: bool)
        ensures
            r == self.spec_c_3(),
    {
        field_u16(self.0, 3, 1) == 1
    }

    pub fn set_c_3(&mut self, value: bool)
        ensures
            final(self).spec_raw() == spec_with_field_u16(old(self).spec_raw(), 3, 1, (if value { 1u16 } else { 0u16 })),
            final(self).spec_c_3() == value,
            final(self).spec_c_0() == old(self).spec_c_0(),
            final(self).spec_c_1() == old(self).spec_c_1(),
            final(self).spec_c_2() == old(self).spec_c_2(),
            final(self).spec_c_4() == old(self).spec_c_4(),
            final(self).spec_c_5() == old(self).spec_c_5(),
            final(self).spec_c_6() == old(self).spec_c_6(),
            final(self).spec_c_7() == old(self).spec_c_7(),
            final(self).spec_c_8() == old(self).spec_c_8(),
            final(self).spec_c_9() == old(self).spec_c_9(),
            final(self).spec_c_10() == old(self).spec_c_10(),
            final(self).spec_c_11() == old(self).spec_c_11(),
    {
        let x: u16 = if value { 1 } else { 0 };
        let ghost old_raw = self.0;
        proof {
            lemma_shift_table_u16();
            lemma_with_field_same_u16(old_raw, 3, 1, x);
            lemma_with_field_other_u16(old_raw, 3, 1, x, 0, 1);
            lemma_with_field_other_u16(old_raw, 3, 1, x, 1, 1);
            lemma_with_field_other_u16(old_raw, 3, 1, x, 2, 1);
            lemma_with_field_other_u16(old_raw, 3, 1, x, 4, 1);
            lemma_with_field_other_u16(old_raw, 3, 1, x, 5, 1);
            lemma_with_field_other_u16(old_raw, 3, 1, x, 6, 1);
            lemma_with_field_other_u16(old_raw, 3, 1, x, 7, 1);
            lemma_with_field_other_u16(old_raw, 3, 1, x, 8, 1);
            lemma_with_field_other_u16(old_raw, 3, 1, x, 9, 1);
            lemma_with_field_other_u16(old_raw, 3, 1, x, 10, 1);
            lemma_with_field_other_u16(old_raw, 3, 1, x, 11, 1);
        }
        self.0 = with_field_u16(self.0, 3, 1, x);
    }

    pub fn with_c_3(self, value: bool) -> (r: Self)
        ensures
            r.spec_raw() == spec_with_field_u16(self.spec_raw(), 3, 1, (if value { 1u16 } else { 0u16 })),
            r.spec_c_3() == value,
            r.spec_c_0() == self.spec_c_0(),
            r.spec_c_1() == self.spec_c_1(),
            r.spec_c_2() == self.spec_c_2(),
            r.spec_c_4() == self.spec_c_4(),
            r.spec_c_5() == self.spec_c_5(),
            r.spec_c_6() == self.spec_c_6(),
            r.spec_c_7() == self.spec_c_7(),
            r.spec_c_8() == self.spec_c_8(),
            r.spec_c_9() == self.spec_c_9(),
            r.spec_c_10() == self.spec_c_10(),
            r.spec_c_11() == self.spec_c_11(),
    {
        let mut r = self;
        r.set_c_3(value);
        r
    }

    pub fn c_4(&self) -> (r: bool)
        ensures
            r == self.spec_c_4(),
    {
        field_u16(self.0, 4, 1) == 1
    }

    pub fn set_c_4(&mut self, value: bool)
        ensures
            final(self).spec_raw() == spec_with_field_u16(old(self).spec_raw(), 4, 1, (if value { 1u16 } else { 0u16 })),
            final(self).spec_c_4() == value,
            final(self).spec_c_0() == old(self).spec_c_0(),
            final(self).spec_c_1() == old(self).spec_c_1(),
            final(self).spec_c_2() == old(self).spec_c_2(),
            final(self).spec_c_3() == old(self).spec_c_3(),
            final(self).spec_c_5() == old(self).spec_c_5(),
            final(self).spec_c_6() == old(self).spec_c_6(),
            final(self).spec_c_7() == old(self).spec_c_7(),
            final(self).spec_c_8() == old(self).spec_c_8(),
            final(self).spec_c_9() == old(self).spec_c_9(),
            final(self).spec_c_10() == old(self).spec_c_10(),
            final(self).spec_c_11() == old(self).spec_c_11(),
    {
        let x: u16 = if value { 1 } else { 0 };
        let ghost old_raw = self.0;
        proof {
            lemma_shift_table_u16();
            lemma_with_field_same_u16(old_raw, 4, 1, x);
            lemma_with_field_other_u16(old_raw, 4, 1, x, 0, 1);
            lemma_with_field_other_u16(old_raw, 4, 1, x, 1, 1);
            lemma_with_field_other_u16(old_raw, 4, 1, x, 2, 1);
            lemma_with_field_other_u16(old_raw, 4, 1, x, 3, 1);
            lemma_with_field_other_u16(old_raw, 4, 1, x, 5, 1);
            lemma_with_field_other_u16(old_raw, 4, 1, x, 6, 1);
            lemma_with_field_other_u16(old_raw, 4, 1, x, 7, 1);
            lemma_with_field_other_u16(old_raw, 4, 1, x, 8, 1);
            lemma_with_field_other_u16(old_raw, 4, 1, x, 9, 1);
            lemma_with_field_other_u16(old_raw, 4, 1, x, 10, 1);
            lemma_with_field_other_u16(old_raw, 4, 1, x, 11, 1);
        }
        self.0 = with_field_u16(self.0, 4, 1, x);
    }

    pub fn with_c_4(self, value: bool) -> (r: Self)
        ensures
            r.spec_raw() == spec_with_field_u16(self.spec_raw(), 4, 1, (if value { 1u16 } else { 0u16 })),
            r.spec_c_4() == value,
            r.spec_c_0() == self.spec_c_0(),
            r.spec_c_1() == self.spec_c_1(),
            r.spec_c_2() == self.spec_c_2(),
            r.spec_c_3() == self.spec_c_3(),
            r.spec_c_5() == self.spec_c_5(),
            r.spec_c_6() == self.spec_c_6(),
            r.spec_c_7() == self.spec_c_7(),
            r.spec_c_8() == self.spec_c_8(),
            r.spec_c_9() == self.spec_c_9(),
            r.spec_c_10() == self.spec_c_10(),
            r.spec_c_11() == self.spec_c_11(),
    {
        let mut r = self;
        r.set_c_4(value);
        r
    }

    pub fn c_5(&self) -> (r: bool)
        ensures
            r == self.spec_c_5(),
    {
        field_u16(self.0, 5, 1) == 1
    }

    pub fn set_c_5(&mut self, value: bool)
        ensures
            final(self).spec_raw() == spec_with_field_u16(old(self).spec_raw(), 5, 1, (if value { 1u16 } else { 0u16 })),
            final(self).spec_c_5() == value,
            final(self).spec_c_0() == old(self).spec_c_0(),
            final(self).spec_c_1() == old(self).spec_c_1(),
            final(self).spec_c_2() == old(self).spec_c_2(),
            final(self).spec_c_3() == old(self).spec_c_3(),
            final(self).spec_c_4() == old(self).spec_c_4(),
            final(self).spec_c_6() == old(self).spec_c_6(),
            final(self).spec_c_7() == old(self).spec_c_7(),
            final(self).spec_c_8() == old(self).spec_c_8(),
            final(self).spec_c_9() == old(self).spec_c_9(),
            final(self).spec_c_10() == old(self).spec_c_10(),
            final(self).spec_c_11() == old(self).spec_c_11(),
    {
        let x: u16 = if value { 1 } else { 0 };
        let ghost old_raw = self.0;
        proof {
            lemma_shift_table_u16();
            lemma_with_field_same_u16(old_raw, 5, 1, x);
            lemma_with_field_other_u16(old_raw, 5, 1, x, 0, 1);
            lemma_with_field_other_u16(old_raw, 5, 1, x, 1, 1);
            lemma_with_field_other_u16(old_raw, 5, 1, x, 2, 1);
            lemma_with_field_other_u16(old_raw, 5, 1, x, 3, 1);
            lemma_with_field_other_u16(old_raw, 5, 1, x, 4, 1);
            lemma_with_field_other_u16(old_raw, 5, 1, x, 6, 1);
            lemma_with_field_other_u16(old_raw, 5, 1, x, 7, 1);
            lemma_with_field_other_u16(old_raw, 5, 1, x, 8, 1);
            lemma_with_field_other_u16(old_raw, 5, 1, x, 9, 1);
            lemma_with_field_other_u16(old_raw, 5, 1, x, 10, 1);
            lemma_with_field_other_u16(old_raw, 5, 1, x, 11, 1);
        }
        self.0 = with_field_u16(self.0, 5, 1, x);
    }

    pub fn with_c_5(self, value: bool) -> (r: Self)
        ensures
            r.spec_raw() == spec_with_field_u16(self.spec_raw(), 5, 1, (if value { 1u16 } else { 0u16 })),
            r.spec_c_5() == value,
            r.spec_c_0() == self.spec_c_0(),
            r.spec_c_1() == self.spec_c_1(),
            r.spec_c_2() == self.spec_c_2(),
            r.spec_c_3() == self.spec_c_3(),
            r.spec_c_4() == self.spec_c_4(),
            r.spec_c_6() == self.spec_c_6(),
            r.spec_c_7() == self.spec_c_7(),
            r.spec_c_8() == self.spec_c_8(),
            r.spec_c_9() == self.spec_c_9(),
            r.spec_c_10() == self.spec_c_10(),
            r.spec_c_11() == self.spec_c_11(),
    {
        let mut r = self;
        r.set_c_5(value);
        r
    }

    pub fn c_6(&self) -> (r: bool)
        ensures
            r == self.spec_c_6(),
    {
        field_u16(self.0, 6, 1) == 1
    }

    pub fn set_c_6(&mut self, value: bool)
        ensures
            final(self).spec_raw() == spec_with_field_u16(old(self).spec_raw(), 6, 1, (if value { 1u16 } else { 0u16 })),
            final(self).spec_c_6() == value,
            final(self).spec_c_0() == old(self).spec_c_0(),
            final(self).spec_c_1() == old(self).spec_c_1(),
            final(self).spec_c_2() == old(self).spec_c_2(),
            final(self).spec_c_3() == old(self).spec_c_3(),
            final(self).spec_c_4() == old(self).spec_c_4(),
            final(self).spec_c_5() == old(self).spec_c_5(),
            final(self).spec_c_7() == old(self).spec_c_7(),
            final(self).spec_c_8() == old(self).spec_c_8(),
            final(self).spec_c_9() == old(self).spec_c_9(),
            final(self).spec_c_10() == old(self).spec_c_10(),
            final(self).spec_c_11() == old(self).spec_c_11(),
    {
        let x: u16 = if value { 1 } else { 0 };
        let ghost old_raw = self.0;
        proof {
            lemma_shift_table_u16();
            lemma_with_field_same_u16(old_raw, 6, 1, x);
            lemma_with_field_other_u16(old_raw, 6, 1, x, 0, 1);
            lemma_with_field_other_u16(old_raw, 6, 1, x, 1, 1);
            lemma_with_field_other_u16(old_raw, 6, 1, x, 2, 1);
            lemma_with_field_other_u16(old_raw, 6, 1, x, 3, 1);
            lemma_with_field_other_u16(old_raw, 6, 1, x, 4, 1);
            lemma_with_field_other_u16(old_raw, 6, 1, x, 5, 1);
            lemma_with_field_other_u16(old_raw, 6, 1, x, 7, 1);
            lemma_with_field_other_u16(old_raw, 6, 1, x, 8, 1);
            lemma_with_field_other_u16(old_raw, 6, 1, x, 9, 1);
            lemma_with_field_other_u16(old_raw, 6, 1, x, 10, 1);
            lemma_with_field_other_u16(old_raw, 6, 1, x, 11, 1);
        }
        self.0 = with_field_u16(self.0, 6, 1, x);
    }

    pub fn with_c_6(self, value: bool) -> (r: Self)
        ensures
            r.spec_raw() == spec_with_field_u16(self.spec_raw(), 6, 1, (if value { 1u16 } else { 0u16 })),
            r.spec_c_6() == value,
            r.spec_c_0() == self.spec_c_0(),
            r.spec_c_1() == self.spec_c_1(),
            r.spec_c_2() == self.spec_c_2(),
            r.spec_c_3() == self.spec_c_3(),
            r.spec_c_4() == self.spec_c_4(),
            r.spec_c_5() == self.spec_c_5(),
            r.spec_c_7() == self.spec_c_7(),
            r.spec_c_8() == self.spec_c_8(),
            r.spec_c_9() == self.spec_c_9(),
            r.spec_c_10() == self.spec_c_10(),
            r.spec_c_11() == self.spec_c_11(),
    {
        let mut r = self;
        r.set_c_6(value);
        r
    }

    pub fn c_7(&self) -> (r: bool)
        ensures
            r == self.spec_c_7(),
    {
        field_u16(self.0, 7, 1) == 1
    }

    pub fn set_c_7(&mut self, value: bool)
        ensures
            final(self).spec_raw() == spec_with_field_u16(old(self).spec_raw(), 7, 1, (if value { 1u16 } else { 0u16 })),
            final(self).spec_c_7() == value,
            final(self).spec_c_0() == old(self).spec_c_0(),
            final(self).spec_c_1() == old(self).spec_c_1(),
            final(self).spec_c_2() == old(self).spec_c_2(),
            final(self).spec_c_3() == old(self).spec_c_3(),
            final(self).spec_c_4() == old(self).spec_c_4(),
            final(self).spec_c_5() == old(self).spec_c_5(),
            final(self).spec_c_6() == old(self).spec_c_6(),
            final(self).spec_c_8() == old(self).spec_c_8(),
            final(self).spec_c_9() == old(self).spec_c_9(),
            final(self).spec_c_10() == old(self).spec_c_10(),
            final(self).spec_c_11() == old(self).spec_c_11(),
    {
        let x: u16 = if value { 1 } else { 0 };
        let ghost old_raw = self.0;
        proof {
            lemma_shift_table_u16();
            lemma_with_field_same_u16(old_raw, 7, 1, x);
            lemma_with_field_other_u16(old_raw, 7, 1, x, 0, 1);
            lemma_with_field_other_u16(old_raw, 7, 1, x, 1, 1);
            lemma_with_field_other_u16(old_raw, 7, 1, x, 2, 1);
            lemma_with_field_other_u16(old_raw, 7, 1, x, 3, 1);
            lemma_with_field_other_u16(old_raw, 7, 1, x, 4, 1);
            lemma_with_field_other_u16(old_raw, 7, 1, x, 5, 1);
            lemma_with_field_other_u16(old_raw, 7, 1, x, 6, 1);
            lemma_with_field_other_u16(old_raw, 7, 1, x, 8, 1);
            lemma_with_field_other_u16(old_raw, 7, 1, x, 9, 1);
            lemma_with_field_other_u16(old_raw, 7, 1, x, 10, 1);
            lemma_with_field_other_u16(old_raw, 7, 1, x, 11, 1);
        }
        self.0 = with_field_u16(self.0, 7, 1, x);
    }

    pub fn with_c_7(self, value: bool) -> (r: Self)
        ensures
            r.spec_raw() == spec_with_field_u16(self.spec_raw(), 7, 1, (if value { 1u16 } else { 0u16 })),
            r.spec_c_7() == value,
            r.spec_c_0() == self.spec_c_0(),
            r.spec_c_1() == self.spec_c_1(),
            r.spec_c_2() == self.spec_c_2(),
            r.spec_c_3() == self.spec_c_3(),
            r.spec_c_4() == self.spec_c_4(),
            r.spec_c_5() == self.spec_c_5(),
            r.spec_c_6() == self.spec_c_6(),
            r.spec_c_8() == self.spec_c_8(),
            r.spec_c_9() == self.spec_c_9(),
            r.spec_c_10() == self.spec_c_10(),
            r.spec_c_11() == self.spec_c_11(),
    {
        let mut r = self;
        r.set_c_7(value);
        r
    }

    pub fn c_8(&self) -> (r: bool)
        ensures
            r == self.spec_c_8(),
    {
        field_u16(self.0, 8, 1) == 1
    }

    pub fn set_c_8(&mut self, value: bool)
        ensures
            final(self).spec_raw() == spec_with_field_u16(old(self).spec_raw(), 8, 1, (if value { 1u16 } else { 0u16 })),
            final(self).spec_c_8() == value,
            final(self).spec_c_0() == old(self).spec_c_0(),
            final(self).spec_c_1() == old(self).spec_c_1(),
            final(self).spec_c_2() == old(self).spec_c_2(),
            final(self).spec_c_3() == old(self).spec_c_3(),
            final(self).spec_c_4() == old(self).spec_c_4(),
            final(self).spec_c_5() == old(self).spec_c_5(),
            final(self).spec_c_6() == old(self).spec_c_6(),
            final(self).spec_c_7() == old(self).spec_c_7(),
            final(self).spec_c_9() == old(self).spec_c_9(),
            final(self).spec_c_10() == old(self).spec_c_10(),
            final(self).spec_c_11() == old(self).spec_c_11(),
    {
        let x: u16 = if value { 1 } else { 0 };
        let ghost old_raw = self.0;
        proof {
            lemma_shift_table_u16();
            lemma_with_field_same_u16(old_raw, 8, 1, x);
            lemma_with_field_other_u16(old_raw, 8, 1, x, 0, 1);
            lemma_with_field_other_u16(old_raw, 8, 1, x, 1, 1);
            lemma_with_field_other_u16(old_raw, 8, 1, x, 2, 1);
            lemma_with_field_other_u16(old_raw, 8, 1, x, 3, 1);
            lemma_with_field_other_u16(old_raw, 8, 1, x, 4, 1);
            lemma_with_field_other_u16(old_raw, 8, 1, x, 5, 1);
            lemma_with_field_other_u16(old_raw, 8, 1, x, 6, 1);
            lemma_with_field_other_u16(old_raw, 8, 1, x, 7, 1);
            lemma_with_field_other_u16(old_raw, 8, 1, x, 9, 1);
            lemma_with_field_other_u16(old_raw, 8, 1, x, 10, 1);
            lemma_with_field_other_u16(old_raw, 8, 1, x, 11, 1);
        }
        self.0 = with_field_u16(self.0, 8, 1, x);
    }

    pub fn with_c_8(self, value: bool) -> (r: Self)
        ensures
            r.spec_raw() == spec_with_field_u16(self.spec_raw(), 8, 1, (if value { 1u16 } else { 0u16 })),
            r.spec_c_8() == value,
            r.spec_c_0() == self.spec_c_0(),
            r.spec_c_1() == self.spec_c_1(),
            r.spec_c_2() == self.spec_c_2(),
            r.spec_c_3() == self.spec_c_3(),
            r.spec_c_4() == self.spec_c_4(),
            r.spec_c_5() == self.spec_c_5(),
            r.spec_c_6() == self.spec_c_6(),
            r.spec_c_7() == self.spec_c_7(),
            r.spec_c_9() == self.spec_c_9(),
            r.spec_c_10() == self.spec_c_10(),
            r.spec_c_11() == self.spec_c_11(),
    {
        let mut r = self;
        r.set_c_8(value);
        r
    }

    pub fn c_9(&self) -> (r: bool)
        ensures
            r == self.spec_c_9(),
    {
        field_u16(self.0, 9, 1) == 1
    }

    pub fn set_c_9(&mut self, value: bool)
        ensures
            final(self).spec_raw() == spec_with_field_u16(old(self).spec_raw(), 9, 1, (if value { 1u16 } else { 0u16 })),
            final(self).spec_c_9() == value,
            final(self).spec_c_0() == old(self).spec_c_0(),
            final(self).spec_c_1() == old(self).spec_c_1(),
            final(self).spec_c_2() == old(self).spec_c_2(),
            final(self).spec_c_3() == old(self).spec_c_3(),
            final(self).spec_c_4() == old(self).spec_c_4(),
            final(self).spec_c_5() == old(self).spec_c_5(),
            final(self).spec_c_6() == old(self).spec_c_6(),
            final(self).spec_c_7() == old(self).spec_c_7(),
            final(self).spec_c_8() == old(self).spec_c_8(),
            final(self).spec_c_10() == old(self).spec_c_10(),
            final(self).spec_c_11() == old(self).spec_c_11(),
    {
        let x: u16 = if value { 1 } else { 0 };
        let ghost old_raw = self.0;
        proof {
            lemma_shift_table_u16();
            lemma_with_field_same_u16(old_raw, 9, 1, x);
            lemma_with_field_other_u16(old_raw, 9, 1, x, 0, 1);
            lemma_with_field_other_u16(old_raw, 9, 1, x, 1, 1);
            lemma_with_field_other_u16(old_raw, 9, 1, x, 2, 1);
            lemma_with_field_other_u16(old_raw, 9, 1, x, 3, 1);
            lemma_with_field_other_u16(old_raw, 9, 1, x, 4, 1);
            lemma_with_field_other_u16(old_raw, 9, 1, x, 5, 1);
            lemma_with_field_other_u16(old_raw, 9, 1, x, 6, 1);
            lemma_with_field_other_u16(old_raw, 9, 1, x, 7, 1);
            lemma_with_field_other_u16(old_raw, 9, 1, x, 8, 1);
            lemma_with_field_other_u16(old_raw, 9, 1, x, 10, 1);
            lemma_with_field_other_u16(old_raw, 9, 1, x, 11, 1);
        }
        self.0 = with_field_u16(self.0, 9, 1, x);
    }

    pub fn with_c_9(self, value: bool) -> (r: Self)
        ensures
            r.spec_raw() == spec_with_field_u16(self.spec_raw(), 9, 1, (if value { 1u16 } else { 0u16 })),
            r.spec_c_9() == value,
            r.spec_c_0() == self.spec_c_0(),
            r.spec_c_1() == self.spec_c_1(),
            r.spec_c_2() == self.spec_c_2(),
            r.spec_c_3() == self.spec_c_3(),
            r.spec_c_4() == self.spec_c_4(),
            r.spec_c_5() == self.spec_c_5(),
            r.spec_c_6() == self.spec_c_6(),
            r.spec_c_7() == self.spec_c_7(),
            r.spec_c_8() == self.spec_c_8(),
            r.spec_c_10() == self.spec_c_10(),
            r.spec_c_11() == self.spec_c_11(),
    {
        let mut r = self;
        r.set_c_9(value);
        r
    }

    pub fn c_10(&self) -> (r: bool)
        ensures
            r == self.spec_c_10(),
    {
        field_u16(self.0, 10, 1) == 1
    }

    pub fn set_c_10(&mut self, value: bool)
        ensures
            final(self).spec_raw() == spec_with_field_u16(old(self).spec_raw(), 10, 1, (if value { 1u16 } else { 0u16 })),
            final(self).spec_c_10() == value,
            final(self).spec_c_0() == old(self).spec_c_0(),
            final(self).spec_c_1() == old(self).spec_c_1(),
            final(self).spec_c_2() == old(self).spec_c_2(),
            final(self).spec_c_3() == old(self).spec_c_3(),
            final(self).spec_c_4() == old(self).spec_c_4(),
            final(self).spec_c_5() == old(self).spec_c_5(),
            final(self).spec_c_6() == old(self).spec_c_6(),
            final(self).spec_c_7() == old(self).spec_c_7(),
            final(self).spec_c_8() == old(self).spec_c_8(),
            final(self).spec_c_9() == old(self).spec_c_9(),
            final(self).spec_c_11() == old(self).spec_c_11(),
    {
        let x: u16 = if value { 1 } else { 0 };
        let ghost old_raw = self.0;
        proof {
            lemma_shift_table_u16();
            lemma_with_field_same_u16(old_raw, 10, 1, x);
            lemma_with_field_other_u16(old_raw, 10, 1, x, 0, 1);
            lemma_with_field_other_u16(old_raw, 10, 1, x, 1, 1);
            lemma_with_field_other_u16(old_raw, 10, 1, x, 2, 1);
            lemma_with_field_other_u16(old_raw, 10, 1, x, 3, 1);
            lemma_with_field_other_u16(old_raw, 10, 1, x, 4, 1);
            lemma_with_field_other_u16(old_raw, 10, 1, x, 5, 1);
            lemma_with_field_other_u16(old_raw, 10, 1, x, 6, 1);
            lemma_with_field_other_u16(old_raw, 10, 1, x, 7, 1);
            lemma_with_field_other_u16(old_raw, 10, 1, x, 8, 1);
            lemma_with_field_other_u16(old_raw, 10, 1, x, 9, 1);
            lemma_with_field_other_u16(old_raw, 10, 1, x, 11, 1);
        }
        self.0 = with_field_u16(self.0, 10, 1, x);
    }

    pub fn with_c_10(self, value: bool) -> (r: Self)
        ensures
            r.spec_raw() == spec_with_field_u16(self.spec_raw(), 10, 1, (if value { 1u16 } else { 0u16 })),
            r.spec_c_10() == value,
            r.spec_c_0() == self.spec_c_0(),
            r.spec_c_1() == self.spec_c_1(),
            r.spec_c_2() == self.spec_c_2(),
            r.spec_c_3() == self.spec_c_3(),
            r.spec_c_4() == self.spec_c_4(),
            r.spec_c_5() == self.spec_c_5(),
            r.spec_c_6() == self.spec_c_6(),
            r.spec_c_7() == self.spec_c_7(),
            r.spec_c_8() == self.spec_c_8(),
            r.spec_c_9() == self.spec_c_9(),
            r.spec_c_11() == self.spec_c_11(),
    {
        let mut r = self;
        r.set_c_10(value);
        r
    }

    pub fn c_11(&self) -> (r: bool)
        ensures
            r == self.spec_c_11(),
    {
        field_u16(self.0, 11, 1) == 1
    }

    pub fn set_c_11(&mut self, value: bool)
        ensures
            final(self).spec_raw() == spec_with_field_u16(old(self).spec_raw(), 11, 1, (if value { 1u16 } else { 0u16 })),
            final(self).spec_c_11() == value,
            final(self).spec_c_0() == old(self).spec_c_0(),
            final(self).spec_c_1() == old(self).spec_c_1(),
            final(self).spec_c_2() == old(self).spec_c_2(),
            final(self).spec_c_3() == old(self).spec_c_3(),
            final(self).spec_c_4() == old(self).spec_c_4(),
            final(self).spec_c_5() == old(self).spec_c_5(),
            final(self).spec_c_6() == old(self).spec_c_6(),
            final(self).spec_c_7() == old(self).spec_c_7(),
            final(self).spec_c_8() == old(self).spec_c_8(),
            final(self).spec_c_9() == old(self).spec_c_9(),
            final(self).spec_c_10() == old(self).spec_c_10(),
    {
        let x: u16 = if value { 1 } else { 0 };
        let ghost old_raw = self.0;
        proof {
            lemma_shift_table_u16();
            lemma_with_field_same_u16(old_raw, 11, 1, x);
            lemma_with_field_other_u16(old_raw, 11, 1, x, 0, 1);
            lemma_with_field_other_u16(old_raw, 11, 1, x, 1, 1);
            lemma_with_field_other_u16(old_raw, 11, 1, x, 2, 1);
            lemma_with_field_other_u16(old_raw, 11, 1, x, 3, 1);
            lemma_with_field_other_u16(old_raw, 11, 1, x, 4, 1);
            lemma_with_field_other_u16(old_raw, 11, 1, x, 5, 1);
            lemma_with_field_other_u16(old_raw, 11, 1, x, 6, 1);
            lemma_with_field_other_u16(old_raw, 11, 1, x, 7, 1);
            lemma_with_field_other_u16(old_raw, 11, 1, x, 8, 1);
            lemma_with_field_other_u16(old_raw, 11, 1, x, 9, 1);
            lemma_with_field_other_u16(old_raw, 11, 1, x, 10, 1);
        }
        self.0 = with_field_u16(self.0, 11, 1, x);
    }

    pub fn with_c_11(self, value: bool) -> (r: Self)
        ensures
            r.spec_raw() == spec_with_field_u16(self.spec_raw(), 11, 1, (if value { 1u16 } else { 0u16 })),
            r.spec_c_11() == value,
            r.spec_c_0() == self.spec_c_0(),
            r.spec_c_1() == self.spec_c_1(),
            r.spec_c_2() == self.spec_c_2(),
            r.spec_c_3() == self.spec_c_3(),
            r.spec_c_4() == self.spec_c_4(),
            r.spec_c_5() == self.spec_c_5(),
            r.spec_c_6() == self.spec_c_6(),
            r.spec_c_7() == self.spec_c_7(),
            r.spec_c_8() == self.spec_c_8(),
            r.spec_c_9() == self.spec_c_9(),
            r.spec_c_10() == self.spec_c_10(),
    {
        let mut r = self;
        r.set_c_11(value);
        r
    }

}

impl Default for Ddr5TrainingOverrideEntryHeaderChannelSelectorMask {
    fn default() -> (r: Self)
        ensures
            r.spec_raw() == 0,
    {
        Self::new()
    }
}

/// The memory clocks that a training override applies to (one bit each, four bits).
#[derive(Debug, Clone, Copy, PartialEq, Eq, Structural)]
pub struct Ddr5TrainingOverrideEntryHeaderFlagsMemClkMask(u8);

impl Ddr5TrainingOverrideEntryHeaderFlagsMemClkMask {
    /// The packed bits.
    pub closed spec fn spec_raw(self) -> u8 {
        self.0
    }

    /// The value with the given packed bits.
    pub closed spec fn spec_from_raw(raw: u8) -> Self {
        Ddr5TrainingOverrideEntryHeaderFlagsMemClkMask(raw)
    }

    /// The packed bits determine the value, and any packed bits make a value.
    pub proof fn lemma_raw(x: Self, raw: u8)
        ensures
            Self::spec_from_raw(raw).spec_raw() == raw,
            Self::spec_from_raw(x.spec_raw()) == x,
    {
    }

    pub open spec fn spec_ddr4800(self) -> bool {
        spec_field_u8(self.spec_raw(), 0, 1) == 1
    }

    pub open spec fn spec_ddr5600(self) -> bool {
        spec_field_u8(self.spec_raw(), 1, 1) == 1
    }

    pub open spec fn spec_ddr6000(self) -> bool {
        spec_field_u8(self.spec_raw(), 2, 1) == 1
    }

    pub open spec fn spec_ddr6400(self) -> bool {
        spec_field_u8(self.spec_raw(), 3, 1) == 1
    }

    /// All bits clear.
    pub fn new() -> (r: Self)
        ensures
            r.spec_raw() == 0,
    {
        Ddr5TrainingOverrideEntryHeaderFlagsMemClkMask(0)
    }

    /// The value to start building from: all bits clear.
    pub fn builder() -> (r: Self)
        ensures
            r.spec_raw() == 0,
    {
        Self::new()
    }

    /// The value as built.
    pub fn build(&self) -> (r: Self)
        ensures
            r == *self,
    {
        *self
    }

    /// The value with the given packed bits.
    pub fn from_raw(raw: u8) -> (r: Self)
        ensures
            r.spec_raw() == raw,
            r == Self::spec_from_raw(raw),
    {
        Ddr5TrainingOverrideEntryHeaderFlagsMemClkMask(raw)
    }

    /// The packed bits.
    pub fn into_raw(self) -> (r: u8)
        ensures
            r == self.spec_raw(),
    {
        self.0
    }

    pub fn ddr4800(&self) -> (r: bool)
        ensures
            r == self.spec_ddr4800(),
    {
        field_u8(self.0, 0, 1) == 1
    }

    pub fn set_ddr4800(&mut self, value: bool)
        ensures
            final(self).spec_raw() == spec_with_field_u8(old(self).spec_raw(), 0, 1, (if value { 1u8 } else { 0u8 })),
            final(self).spec_ddr4800() == value,
            final(self).spec_ddr5600() == old(self).spec_ddr5600(),
            final(self).spec_ddr6000() == old(self).spec_ddr6000(),
            final(self).spec_ddr6400() == old(self).spec_ddr6400(),
    {
        let x: u8 = if value { 1 } else { 0 };
        let ghost old_raw = self.0;
        proof {
            lemma_shift_table_u8();
            lemma_with_field_same_u8(old_raw, 0, 1, x);
            lemma_with_field_other_u8(old_raw, 0, 1, x, 1, 1);
            lemma_with_field_other_u8(old_raw, 0, 1, x, 2, 1);
            lemma_with_field_other_u8(old_raw, 0, 1, x, 3, 1);
        }
        self.0 = with_field_u8(self.0, 0, 1, x);
    }

    pub fn with_ddr4800(self, value: bool) -> (r: Self)
        ensures
            r.spec_raw() == spec_with_field_u8(self.spec_raw(), 0, 1, (if value { 1u8 } else { 0u8 })),
            r.spec_ddr4800() == value,
            r.spec_ddr5600() == self.spec_ddr5600(),
            r.spec_ddr6000() == self.spec_ddr6000(),
            r.spec_ddr6400() == self.spec_ddr6400(),
    {
        let mut r = self;
        r.set_ddr4800(value);
        r
    }

    pub fn ddr5600(&self) -> (r: bool)
        ensures
            r == self.spec_ddr5600(),
    {
        field_u8(self.0, 1, 1) == 1
    }

    pub fn set_ddr5600(&mut self, value: bool)
        ensures
            final(self).spec_raw() == spec_with_field_u8(old(self).spec_raw(), 1, 1, (if value { 1u8 } else { 0u8 })),
            final(self).spec_ddr5600() == value,
            final(self).spec_ddr4800() == old(self).spec_ddr4800(),
            final(self).spec_ddr6000() == old(self).spec_ddr6000(),
            final(self).spec_ddr6400() == old(self).spec_ddr6400(),
    {
        let x: u8 = if value { 1 } else { 0 };
        let ghost old_raw = self.0;
        proof {
            lemma_shift_table_u8();
            lemma_with_field_same_u8(old_raw, 1, 1, x);
            lemma_with_field_other_u8(old_raw, 1, 1, x, 0, 1);
            lemma_with_field_other_u8(old_raw, 1, 1, x, 2, 1);
            lemma_with_field_other_u8(old_raw, 1, 1, x, 3, 1);
        }
        self.0 = with_field_u8(self.0, 1, 1, x);
    }

    pub fn with_ddr5600(self, value: bool) -> (r: Self)
        ensures
            r.spec_raw() == spec_with_field_u8(self.spec_raw(), 1, 1, (if value { 1u8 } else { 0u8 })),
            r.spec_ddr5600() == value,
            r.spec_ddr4800() == self.spec_ddr4800(),
            r.spec_ddr6000() == self.spec_ddr6000(),
            r.spec_ddr6400() == self.spec_ddr6400(),
    {
        let mut r = self;
        r.set_ddr5600(value);
        r
    }

    pub fn ddr6000(&self) -> (r: bool)
        ensures
            r == self.spec_ddr6000(),
    {
        field_u8(self.0, 2, 1) == 1
    }

    pub fn set_ddr6000(&mut self, value: bool)
        ensures
            final(self).spec_raw() == spec_with_field_u8(old(self).spec_raw(), 2, 1, (if value { 1u8 } else { 0u8 })),
            final(self).spec_ddr6000() == value,
            final(self).spec_ddr4800() == old(self).spec_ddr4800(),
            final(self).spec_ddr5600() == old(self).spec_ddr5600(),
            final(self).spec_ddr6400() == old(self).spec_ddr6400(),
    {
        let x: u8 = if value { 1 } else { 0 };
        let ghost old_raw = self.0;
        proof {
            lemma_shift_table_u8();
            lemma_with_field_same_u8(old_raw, 2, 1, x);
            lemma_with_field_other_u8(old_raw, 2, 1, x, 0, 1);
            lemma_with_field_other_u8(old_raw, 2, 1, x, 1, 1);
            lemma_with_field_other_u8(old_raw, 2, 1, x, 3, 1);
        }
        self.0 = with_field_u8(self.0, 2, 1, x);
    }

    pub fn with_ddr6000(self, value: bool) -> (r: Self)
        ensures
            r.spec_raw() == spec_with_field_u8(self.spec_raw(), 2, 1, (if value { 1u8 } else { 0u8 })),
            r.spec_ddr6000() == value,
            r.spec_ddr4800() == self.spec_ddr4800(),
            r.spec_ddr5600() == self.spec_ddr5600(),
            r.spec_ddr6400() == self.spec_ddr6400(),
    {
        let mut r = self;
        r.set_ddr6000(value);
        r
    }

    pub fn ddr6400(&self) -> (r: bool)
        ensures
            r == self.spec_ddr6400(),
    {
        field_u8(self.0, 3, 1) == 1
    }

    pub fn set_ddr6400(&mut self, value: bool)
        ensures
            final(self).spec_raw() == spec_with_field_u8(old(self).spec_raw(), 3, 1, (if value { 1u8 } else { 0u8 })),
            final(self).spec_ddr6400() == value,
            final(self).spec_ddr4800() == old(self).spec_ddr4800(),
            final(self).spec_ddr5600() == old(self).spec_ddr5600(),
            final(self).spec_ddr6000() == old(self).spec_ddr6000(),
    {
        let x: u8 = if value { 1 } else { 0 };
        let ghost old_raw = self.0;
        proof {
            lemma_shift_table_u8();
            lemma_with_field_same_u8(old_raw, 3, 1, x);
            lemma_with_field_other_u8(old_raw, 3, 1, x, 0, 1);
            lemma_with_field_other_u8(old_raw, 3, 1, x, 1, 1);
            lemma_with_field_other_u8(old_raw, 3, 1, x, 2, 1);
        }
        self.0 = with_field_u8(self.0, 3, 1, x);
    }

    pub fn with_ddr6400(self, value: bool) -> (r: Self)
        ensures
            r.spec_raw() == spec_with_field_u8(self.spec_raw(), 3, 1, (if value { 1u8 } else { 0u8 })),
            r.spec_ddr6400() == value,
            r.spec_ddr4800() == self.spec_ddr4800(),
            r.spec_ddr5600() == self.spec_ddr5600(),
            r.spec_ddr6000() == self.spec_ddr6000(),
    {
        let mut r = self;
        r.set_ddr6400(value);
        r
    }

}

impl Default for Ddr5TrainingOverrideEntryHeaderFlagsMemClkMask {
    fn default() -> (r: Self)
        ensures
            r.spec_raw() == 0,
    {
        Self::new()
    }
}

/// What a training override applies to, and the four offsets it makes (each a four-bit
/// two's complement number).
#[derive(Debug, Clone, Copy, PartialEq, Eq, Structural)]
pub struct Ddr5TrainingOverrideEntryHeaderFlags(u32);

impl Ddr5TrainingOverrideEntryHeaderFlags {
    /// The packed bits.
    pub closed spec fn spec_raw(self) -> u32 {
        self.0
    }

    /// The value with the given packed bits.
    pub closed spec fn spec_from_raw(raw: u32) -> Self {
        Ddr5TrainingOverrideEntryHeaderFlags(raw)
    }

    /// The packed bits determine the value, and any packed bits make a value.
    pub proof fn lemma_raw(x: Self, raw: u32)
        ensures
            Self::spec_from_raw(raw).spec_raw() == raw,
            Self::spec_from_raw(x.spec_raw()) == x,
    {
    }

    pub open spec fn spec_selected_mem_clks(self) -> u32 {
        spec_field_u32(self.spec_raw(), 0, 4)
    }

    pub open spec fn spec_selected_channels(self) -> u32 {
        spec_field_u32(self.spec_raw(), 4, 12)
    }

    pub open spec fn spec_read_dq_delay_offset(self) -> u32 {
        spec_field_u32(self.spec_raw(), 16, 4)
    }

    pub open spec fn spec_read_dq_vref_offset(self) -> u32 {
        spec_field_u32(self.spec_raw(), 20, 4)
    }

    pub open spec fn spec_write_dq_delay_offset(self) -> u32 {
        spec_field_u32(self.spec_raw(), 24, 4)
    }

    pub open spec fn spec_write_dq_vref_offset(self) -> u32 {
        spec_field_u32(self.spec_raw(), 28, 4)
    }

    /// All bits clear.
    pub fn new() -> (r: Self)
        ensures
            r.spec_raw() == 0,
    {
        Ddr5TrainingOverrideEntryHeaderFlags(0)
    }

    /// The value with the given packed bits.
    pub fn from_raw(raw: u32) -> (r: Self)
        ensures
            r.spec_raw() == raw,
            r == Self::spec_from_raw(raw),
    {
        Ddr5TrainingOverrideEntryHeaderFlags(raw)
    }

    /// The packed bits.
    pub fn into_raw(self) -> (r: u32)
        ensures
            r == self.spec_raw(),
    {
        self.0
    }

    pub fn selected_mem_clks(&self) -> (r: Ddr5TrainingOverrideEntryHeaderFlagsMemClkMask)
        ensures
            r.spec_raw() == self.spec_selected_mem_clks() as u8,
    {
        proof {
            lemma_shift_table_u32();
        }
        Ddr5TrainingOverrideEntryHeaderFlagsMemClkMask::from_raw(field_u32(self.0, 0, 4) as u8)
    }

    pub fn set_selected_mem_clks(&mut self, value: Ddr5TrainingOverrideEntryHeaderFlagsMemClkMask)
        requires
            value.spec_raw() < 0x10,
        ensures
            final(self).spec_raw() == spec_with_field_u32(old(self).spec_raw(), 0, 4, value.spec_raw() as u32),
            final(self).spec_selected_mem_clks() == value.spec_raw() as u32,
            final(self).spec_selected_channels() == old(self).spec_selected_channels(),
            final(self).spec_read_dq_delay_offset() == old(self).spec_read_dq_delay_offset(),
            final(self).spec_read_dq_vref_offset() == old(self).spec_read_dq_vref_offset(),
            final(self).spec_write_dq_delay_offset() == old(self).spec_write_dq_delay_offset(),
            final(self).spec_write_dq_vref_offset() == old(self).spec_write_dq_vref_offset(),
    {
        let x: u32 = value.into_raw() as u32;
        let ghost old_raw = self.0;
        proof {
            lemma_shift_table_u32();
            lemma_with_field_same_u32(old_raw, 0, 4, x);
            lemma_with_field_other_u32(old_raw, 0, 4, x, 4, 12);
            lemma_with_field_other_u32(old_raw, 0, 4, x, 16, 4);
            lemma_with_field_other_u32(old_raw, 0, 4, x, 20, 4);
            lemma_with_field_other_u32(old_raw, 0, 4, x, 24, 4);
            lemma_with_field_other_u32(old_raw, 0, 4, x, 28, 4);
        }
        self.0 = with_field_u32(self.0, 0, 4, x);
    }

    pub fn with_selected_mem_clks(self, value: Ddr5TrainingOverrideEntryHeaderFlagsMemClkMask) -> (r: Self)
        requires
            value.spec_raw() < 0x10,
        ensures
            r.spec_raw() == spec_with_field_u32(self.spec_raw(), 0, 4, value.spec_raw() as u32),
            r.spec_selected_mem_clks() == value.spec_raw() as u32,
            r.spec_selected_channels() == self.spec_selected_channels(),
            r.spec_read_dq_delay_offset() == self.spec_read_dq_delay_offset(),
            r.spec_read_dq_vref_offset() == self.spec_read_dq_vref_offset(),
            r.spec_write_dq_delay_offset() == self.spec_write_dq_delay_offset(),
            r.spec_write_dq_vref_offset() == self.spec_write_dq_vref_offset(),
    {
        let mut r = self;
        r.set_selected_mem_clks(value);
        r
    }

    pub fn selected_channels(&self) -> (r: Ddr5TrainingOverrideEntryHeaderChannelSelectorMask)
        ensures
            r.spec_raw() == self.spec_selected_channels() as u16,
    {
        proof {
            lemma_shift_table_u32();
        }
        Ddr5TrainingOverrideEntryHeaderChannelSelectorMask::from_raw(field_u32(self.0, 4, 12) as u16)
    }

    pub fn set_selected_channels(&mut self, value: Ddr5TrainingOverrideEntryHeaderChannelSelectorMask)
        requires
            value.spec_raw() < 0x1000,
        ensures
            final(self).spec_raw() == spec_with_field_u32(old(self).spec_raw(), 4, 12, value.spec_raw() as u32),
            final(self).spec_selected_channels() == value.spec_raw() as u32,
            final(self).spec_selected_mem_clks() == old(self).spec_selected_mem_clks(),
            final(self).spec_read_dq_delay_offset() == old(self).spec_read_dq_delay_offset(),
            final(self).spec_read_dq_vref_offset() == old(self).spec_read_dq_vref_offset(),
            final(self).spec_write_dq_delay_offset() == old(self).spec_write_dq_delay_offset(),
            final(self).spec_write_dq_vref_offset() == old(self).spec_write_dq_vref_offset(),
    {
        let x: u32 = value.into_raw() as u32;
        let ghost old_raw = self.0;
        proof {
            lemma_shift_table_u32();
            lemma_with_field_same_u32(old_raw, 4, 12, x);
            lemma_with_field_other_u32(old_raw, 4, 12, x, 0, 4);
            lemma_with_field_other_u32(old_raw, 4, 12, x, 16, 4);
            lemma_with_field_other_u32(old_raw, 4, 12, x, 20, 4);
            lemma_with_field_other_u32(old_raw, 4, 12, x, 24, 4);
            lemma_with_field_other_u32(old_raw, 4, 12, x, 28, 4);
        }
        self.0 = with_field_u32(self.0, 4, 12, x);
    }

    pub fn with_selected_channels(self, value: Ddr5TrainingOverrideEntryHeaderChannelSelectorMask) -> (r: Self)
        requires
            value.spec_raw() < 0x1000,
        ensures
            r.spec_raw() == spec_with_field_u32(self.spec_raw(), 4, 12, value.spec_raw() as u32),
            r.spec_selected_channels() == value.spec_raw() as u32,
            r.spec_selected_mem_clks() == self.spec_selected_mem_clks(),
            r.spec_read_dq_delay_offset() == self.spec_read_dq_delay_offset(),
            r.spec_read_dq_vref_offset() == self.spec_read_dq_vref_offset(),
            r.spec_write_dq_delay_offset() == self.spec_write_dq_delay_offset(),
            r.spec_write_dq_vref_offset() == self.spec_write_dq_vref_offset(),
    {
        let mut r = self;
        r.set_selected_channels(value);
        r
    }

    pub fn read_dq_delay_offset(&self) -> (r: u8)
        ensures
            r == self.spec_read_dq_delay_offset(),
            r < 0x10,
    {
        proof {
            lemma_shift_table_u32();
        }
        field_u32(self.0, 16, 4) as u8
    }

    pub fn set_read_dq_delay_offset(&mut self, value: u8)
        requires
            value < 0x10,
        ensures
            final(self).spec_raw() == spec_with_field_u32(old(self).spec_raw(), 16, 4, value as u32),
            final(self).spec_read_dq_delay_offset() == value as u32,
            final(self).spec_selected_mem_clks() == old(self).spec_selected_mem_clks(),
            final(self).spec_selected_channels() == old(self).spec_selected_channels(),
            final(self).spec_read_dq_vref_offset() == old(self).spec_read_dq_vref_offset(),
            final(self).spec_write_dq_delay_offset() == old(self).spec_write_dq_delay_offset(),
            final(self).spec_write_dq_vref_offset() == old(self).spec_write_dq_vref_offset(),
    {
        let x: u32 = value as u32;
        let ghost old_raw = self.0;
        proof {
            lemma_shift_table_u32();
            lemma_with_field_same_u32(old_raw, 16, 4, x);
            lemma_with_field_other_u32(old_raw, 16, 4, x, 0, 4);
            lemma_with_field_other_u32(old_raw, 16, 4, x, 4, 12);
            lemma_with_field_other_u32(old_raw, 16, 4, x, 20, 4);
            lemma_with_field_other_u32(old_raw, 16, 4, x, 24, 4);
            lemma_with_field_other_u32(old_raw, 16, 4, x, 28, 4);
        }
        self.0 = with_field_u32(self.0, 16, 4, x);
    }

    pub fn with_read_dq_delay_offset(self, value: u8) -> (r: Self)
        requires
            value < 0x10,
        ensures
            r.spec_raw() == spec_with_field_u32(self.spec_raw(), 16, 4, value as u32),
            r.spec_read_dq_delay_offset() == value as u32,
            r.spec_selected_mem_clks() == self.spec_selected_mem_clks(),
            r.spec_selected_channels() == self.spec_selected_channels(),
            r.spec_read_dq_vref_offset() == self.spec_read_dq_vref_offset(),
            r.spec_write_dq_delay_offset() == self.spec_write_dq_delay_offset(),
            r.spec_write_dq_vref_offset() == self.spec_write_dq_vref_offset(),
    {
        let mut r = self;
        r.set_read_dq_delay_offset(value);
        r
    }

    pub fn read_dq_vref_offset(&self) -> (r: u8)
        ensures
            r == self.spec_read_dq_vref_offset(),
            r < 0x10,
    {
        proof {
            lemma_shift_table_u32();
        }
        field_u32(self.0, 20, 4) as u8
    }

    pub fn set_read_dq_vref_offset(&mut self, value: u8)
        requires
            value < 0x10,
        ensures
            final(self).spec_raw() == spec_with_field_u32(old(self).spec_raw(), 20, 4, value as u32),
            final(self).spec_read_dq_vref_offset() == value as u32,
            final(self).spec_selected_mem_clks() == old(self).spec_selected_mem_clks(),
            final(self).spec_selected_channels() == old(self).spec_selected_channels(),
            final(self).spec_read_dq_delay_offset() == old(self).spec_read_dq_delay_offset(),
            final(self).spec_write_dq_delay_offset() == old(self).spec_write_dq_delay_offset(),
            final(self).spec_write_dq_vref_offset() == old(self).spec_write_dq_vref_offset(),
    {
        let x: u32 = value as u32;
        let ghost old_raw = self.0;
        proof {
            lemma_shift_table_u32();
            lemma_with_field_same_u32(old_raw, 20, 4, x);
            lemma_with_field_other_u32(old_raw, 20, 4, x, 0, 4);
            lemma_with_field_other_u32(old_raw, 20, 4, x, 4, 12);
            lemma_with_field_other_u32(old_raw, 20, 4, x, 16, 4);
            lemma_with_field_other_u32(old_raw, 20, 4, x, 24, 4);
            lemma_with_field_other_u32(old_raw, 20, 4, x, 28, 4);
        }
        self.0 = with_field_u32(self.0, 20, 4, x);
    }

    pub fn with_read_dq_vref_offset(self, value: u8) -> (r: Self)
        requires
            value < 0x10,
        ensures
            r.spec_raw() == spec_with_field_u32(self.spec_raw(), 20, 4, value as u32),
            r.spec_read_dq_vref_offset() == value as u32,
            r.spec_selected_mem_clks() == self.spec_selected_mem_clks(),
            r.spec_selected_channels() == self.spec_selected_channels(),
            r.spec_read_dq_delay_offset() == self.spec_read_dq_delay_offset(),
            r.spec_write_dq_delay_offset() == self.spec_write_dq_delay_offset(),
            r.spec_write_dq_vref_offset() == self.spec_write_dq_vref_offset(),
    {
        let mut r = self;
        r.set_read_dq_vref_offset(value);
        r
    }

    pub fn write_dq_delay_offset(&self) -> (r: u8)
        ensures
            r == self.spec_write_dq_delay_offset(),
            r < 0x10,
    {
        proof {
            lemma_shift_table_u32();
        }
        field_u32(self.0, 24, 4) as u8
    }

    pub fn set_write_dq_delay_offset(&mut self, value: u8)
        requires
            value < 0x10,
        ensures
            final(self).spec_raw() == spec_with_field_u32(old(self).spec_raw(), 24, 4, value as u32),
            final(self).spec_write_dq_delay_offset() == value as u32,
            final(self).spec_selected_mem_clks() == old(self).spec_selected_mem_clks(),
            final(self).spec_selected_channels() == old(self).spec_selected_channels(),
            final(self).spec_read_dq_delay_offset() == old(self).spec_read_dq_delay_offset(),
            final(self).spec_read_dq_vref_offset() == old(self).spec_read_dq_vref_offset(),
            final(self).spec_write_dq_vref_offset() == old(self).spec_write_dq_vref_offset(),
    {
        let x: u32 = value as u32;
        let ghost old_raw = self.0;
        proof {
            lemma_shift_table_u32();
            lemma_with_field_same_u32(old_raw, 24, 4, x);
            lemma_with_field_other_u32(old_raw, 24, 4, x, 0, 4);
            lemma_with_field_other_u32(old_raw, 24, 4, x, 4, 12);
            lemma_with_field_other_u32(old_raw, 24, 4, x, 16, 4);
            lemma_with_field_other_u32(old_raw, 24, 4, x, 20, 4);
            lemma_with_field_other_u32(old_raw, 24, 4, x, 28, 4);
        }
        self.0 = with_field_u32(self.0, 24, 4, x);
    }

    pub fn with_write_dq_delay_offset(self, value: u8) -> (r: Self)
        requires
            value < 0x10,
        ensures
            r.spec_raw() == spec_with_field_u32(self.spec_raw(), 24, 4, value as u32),
            r.spec_write_dq_delay_offset() == value as u32,
            r.spec_selected_mem_clks() == self.spec_selected_mem_clks(),
            r.spec_selected_channels() == self.spec_selected_channels(),
            r.spec_read_dq_delay_offset() == self.spec_read_dq_delay_offset(),
            r.spec_read_dq_vref_offset() == self.spec_read_dq_vref_offset(),
            r.spec_write_dq_vref_offset() == self.spec_write_dq_vref_offset(),
    {
        let mut r = self;
        r.set_write_dq_delay_offset(value);
        r
    }

    pub fn write_dq_vref_offset(&self) -> (r: u8)
        ensures
            r == self.spec_write_dq_vref_offset(),
            r < 0x10,
    {
        proof {
            lemma_shift_table_u32();
        }
        field_u32(self.0, 28, 4) as u8
    }

    pub fn set_write_dq_vref_offset(&mut self, value: u8)
        requires
            value < 0x10,
        ensures
            final(self).spec_raw() == spec_with_field_u32(old(self).spec_raw(), 28, 4, value as u32),
            final(self).spec_write_dq_vref_offset() == value as u32,
            final(self).spec_selected_mem_clks() == old(self).spec_selected_mem_clks(),
            final(self).spec_selected_channels() == old(self).spec_selected_channels(),
            final(self).spec_read_dq_delay_offset() == old(self).spec_read_dq_delay_offset(),
            final(self).spec_read_dq_vref_offset() == old(self).spec_read_dq_vref_offset(),
            final(self).spec_write_dq_delay_offset() == old(self).spec_write_dq_delay_offset(),
    {
        let x: u32 = value as u32;
        let ghost old_raw = self.0;
        proof {
            lemma_shift_table_u32();
            lemma_with_field_same_u32(old_raw, 28, 4, x);
            lemma_with_field_other_u32(old_raw, 28, 4, x, 0, 4);
            lemma_with_field_other_u32(old_raw, 28, 4, x, 4, 12);
            lemma_with_field_other_u32(old_raw, 28, 4, x, 16, 4);
            lemma_with_field_other_u32(old_raw, 28, 4, x, 20, 4);
            lemma_with_field_other_u32(old_raw, 28, 4, x, 24, 4);
        }
        self.0 = with_field_u32(self.0, 28, 4, x);
    }

    pub fn with_write_dq_vref_offset(self, value: u8) -> (r: Self)
        requires
            value < 0x10,
        ensures
            r.spec_raw() == spec_with_field_u32(self.spec_raw(), 28, 4, value as u32),
            r.spec_write_dq_vref_offset() == value as u32,
            r.spec_selected_mem_clks() == self.spec_selected_mem_clks(),
            r.spec_selected_channels() == self.spec_selected_channels(),
            r.spec_read_dq_delay_offset() == self.spec_read_dq_delay_offset(),
            r.spec_read_dq_vref_offset() == self.spec_read_dq_vref_offset(),
            r.spec_write_dq_delay_offset() == self.spec_write_dq_delay_offset(),
    {
        let mut r = self;
        r.set_write_dq_vref_offset(value);
        r
    }

    /// The bits that have a meaning; the others are reserved.
    pub const VALID_BITS: u64 = 0xffffffff;

    /// Whether VALUE leaves all reserved bits clear.
    pub fn all_reserved_bits_are_unused(value: u64) -> (r: bool)
        ensures
            r == (value & !0xffffffffu64 == 0),
    {
        value & !Self::VALID_BITS == 0
    }

    pub fn from_u64(value: u64) -> (r: Option<Self>)
        ensures
            r is Some <==> (value & !0xffffffffu64 == 0 && value <= 0xffffffff),
            r matches Some(x) ==> x.spec_raw() == value,
    {
        if Self::all_reserved_bits_are_unused(value) {
            if value <= 0xffffffff {
                Some(Ddr5TrainingOverrideEntryHeaderFlags(value as u32))
            } else {
                None
            }
        } else {
            None
        }
    }

    pub fn from_i64(value: i64) -> (r: Option<Self>)
        ensures
            r is Some <==> (value >= 0 && (value as u64) & !0xffffffffu64 == 0 && value <= 0xffffffff),
            r matches Some(x) ==> x.spec_raw() == value,
    {
        if value >= 0 {
            Self::from_u64(value as u64)
        } else {
            None
        }
    }

    pub fn to_u64(&self) -> (r: Option<u64>)
        ensures
            r == Some(self.spec_raw() as u64),
    {
        Some(self.0 as u64)
    }

    pub fn to_i64(&self) -> (r: Option<i64>)
        ensures
            r == Some(self.spec_raw() as i64),
    {
        Some(self.0 as i64)
    }

}

/// The signed value of the four-bit two's complement number in the low four bits of X
/// (the upper bits of X are replaced by the sign).
pub open spec fn spec_sign_extend_i4(x: u8) -> i8 {
    if x & 8 == 0 {
        x as i8
    } else {
        (x | 0xf0) as i8
    }
}

/// The four-bit two's complement form of VALUE (its low four bits).
pub open spec fn spec_i8_to_i4(value: i8) -> u8 {
    (value as u8) & 0xf
}

/// Reads a four-bit two's complement number.
pub fn sign_extend_i4_to_i8(x: u8) -> (r: i8)
    ensures
        r == spec_sign_extend_i4(x),
        x < 16 ==> r == (if x < 8 { x as int } else { x - 16 }),
{
    proof {
        lemma_sign_extend_i4(x);
    }
    let sign_mask = x & 0b1000;
    if sign_mask == 0 {
        x as i8
    } else {
        (x | 0xF0) as i8
    }
}

/// Makes the four-bit two's complement form of VALUE.
pub fn i8_to_i4(value: i8) -> (r: u8)
    ensures
        r == spec_i8_to_i4(value),
        r < 16,
        -8 <= value <= 7 ==> r == (if value >= 0 { value as int } else { value + 16 }),
{
    proof {
        lemma_i8_to_i4(value);
    }
    (value as u8) & 0b1111
}

proof fn lemma_sign_extend_i4(x: u8)
    by (bit_vector)
    ensures
        x & 8 == 0 ==> (x < 16 ==> x < 8),
        x & 8 != 0 ==> (x < 16 ==> x >= 8 && ((x | 0xf0) as i8) == x - 16),
        x < 8 ==> x & 8 == 0,
        (x as i8) == x || x >= 0x80,
{
}

proof fn lemma_i8_to_i4(value: i8)
    by (bit_vector)
    ensures
        (value as u8) & 0xf < 16,
        0 <= value <= 7 ==> (value as u8) & 0xf == value,
        -8 <= value < 0 ==> (value as u8) & 0xf == value + 16,
{
}

/// A four-bit two's complement number is read back as the value it was made from, for
/// every value from -8 to 7; and reading then making gives back the four bits.
pub proof fn lemma_i4_roundtrip(value: i8, x: u8)
    ensures
        -8 <= value <= 7 ==> spec_sign_extend_i4(spec_i8_to_i4(value)) == value,
        x < 16 ==> spec_i8_to_i4(spec_sign_extend_i4(x)) == x,
{
    lemma_i8_to_i4(value);
    lemma_sign_extend_i4(spec_i8_to_i4(value));
    lemma_sign_extend_i4(x);
    assert(x < 16 ==> ((((x | 0xf0) as i8) as u8) & 0xf == x && ((x as i8) as u8) & 0xf == x)) by (bit_vector);
}

impl Ddr5TrainingOverrideEntryHeaderFlags {
    /// The flags to start from: all clear.
    pub fn builder() -> (r: Self)
        ensures
            r.spec_raw() == 0,
    {
        Self::new()
    }

    /// The flags as built.
    pub fn build(&self) -> (r: Self)
        ensures
            r == *self,
    {
        *self
    }
}

/// A DDR5 training override for the DIMMs with a given module part number (SPD bytes 521 to 550).
#[allow(non_camel_case_types)]
#[derive(Debug, Clone, Copy)]
pub struct Ddr5TrainingOverride40Element {
    pub length: u32,
    pub dimm_module_part_number: [u8; 31],
    pub _reserved_1: u8,
    pub(crate) flags: u32,
}

impl Ddr5TrainingOverride40Element {
    pub closed spec fn spec_length(self) -> u32 {
        self.length
    }

    pub closed spec fn spec_dimm_module_part_number(self) -> [u8; 31] {
        self.dimm_module_part_number
    }

    pub closed spec fn spec__reserved_1(self) -> u8 {
        self._reserved_1
    }

    pub closed spec fn spec_flags(self) -> u32 {
        self.flags
    }

}

impl Ddr5TrainingOverride40Element {
    /// The bytes that store this value on disk.
    pub closed spec fn spec_bytes(self) -> Seq<u8> {
        spec_u32_to_le_bytes(self.length)
            + self.dimm_module_part_number@
            + seq![self._reserved_1]
            + spec_u32_to_le_bytes(self.flags)
    }
}

impl ByteLayout for Ddr5TrainingOverride40Element {
    open spec fn spec_size() -> nat {
        40
    }

    open spec fn spec_to_bytes(self) -> Seq<u8> {
        self.spec_bytes()
    }

    fn size() -> (r: usize) {
        40
    }

    #[verifier::spinoff_prover]
    #[verifier::rlimit(60)]
    fn from_bytes(bytes: &[u8]) -> (r: Self) {
        let length: u32 = u32_from_le_bytes(slice_subrange(bytes, 0, 4));
        let dimm_module_part_number: [u8; 31] = [bytes[4], bytes[5], bytes[6], bytes[7], bytes[8], bytes[9], bytes[10], bytes[11], bytes[12], bytes[13], bytes[14], bytes[15], bytes[16], bytes[17], bytes[18], bytes[19], bytes[20], bytes[21], bytes[22], bytes[23], bytes[24], bytes[25], bytes[26], bytes[27], bytes[28], bytes[29], bytes[30], bytes[31], bytes[32], bytes[33], bytes[34]];
        let _reserved_1: u8 = bytes[35];
        let flags: u32 = u32_from_le_bytes(slice_subrange(bytes, 36, 40));
        let r = Ddr5TrainingOverride40Element { length, dimm_module_part_number, _reserved_1, flags };
        proof {
            lemma_auto_spec_u16_to_from_le_bytes();
            lemma_auto_spec_u32_to_from_le_bytes();
            lemma_auto_spec_u64_to_from_le_bytes();
            lemma_ddr5_training_override40_element_bytes_pieces(r);
            assert(bytes@.subrange(0, 4) == spec_u32_to_le_bytes(length));
            assert(bytes@.subrange(4, 35) =~= dimm_module_part_number@);
            assert(bytes@.subrange(36, 40) == spec_u32_to_le_bytes(flags));
            assert(bytes@.subrange(0, 35) =~= bytes@.subrange(0, 4) + bytes@.subrange(4, 35));
            assert(bytes@.subrange(0, 36) =~= bytes@.subrange(0, 35) + bytes@.subrange(35, 36));
            assert(bytes@.subrange(0, 40) =~= bytes@.subrange(0, 36) + bytes@.subrange(36, 40));
            assert(bytes@.subrange(0, 40) =~= bytes@);
            assert(bytes@ == r.spec_bytes());
        }
        r
    }

    #[verifier::spinoff_prover]
    #[verifier::rlimit(60)]
    fn to_bytes(&self) -> (r: Vec<u8>) {
        let mut out: Vec<u8> = Vec::new();
        append_bytes(&mut out, &le_bytes_u32(self.length));
        append_bytes(&mut out, &self.dimm_module_part_number);
        out.push(self._reserved_1);
        append_bytes(&mut out, &le_bytes_u32(self.flags));
        proof {
            lemma_ddr5_training_override40_element_bytes_pieces(*self);
        }
        out
    }
}

/// How the bytes of a Ddr5TrainingOverride40Element split up into its fields.
pub proof fn lemma_ddr5_training_override40_element_bytes_pieces(x: Ddr5TrainingOverride40Element)
    ensures
        x.spec_bytes().len() == 40,
        x.spec_bytes().subrange(0, 4) == spec_u32_to_le_bytes(x.spec_length()),
        x.spec_bytes().subrange(4, 35) == x.spec_dimm_module_part_number()@,
        x.spec_bytes()[35] == x.spec__reserved_1(),
        x.spec_bytes().subrange(36, 40) == spec_u32_to_le_bytes(x.spec_flags()),
{
    lemma_auto_spec_u16_to_from_le_bytes();
    lemma_auto_spec_u32_to_from_le_bytes();
    lemma_auto_spec_u64_to_from_le_bytes();
    assert(x.spec_bytes().subrange(0, 4) == spec_u32_to_le_bytes(x.length));
    assert(x.spec_bytes().subrange(4, 35) == x.dimm_module_part_number@);
    assert(x.spec_bytes().subrange(36, 40) == spec_u32_to_le_bytes(x.flags));
}

/// Two values of Ddr5TrainingOverride40Element with the same bytes are the same value.
#[verifier::spinoff_prover]
#[verifier::rlimit(60)]
pub proof fn lemma_ddr5_training_override40_element_bytes_injective(x: Ddr5TrainingOverride40Element, y: Ddr5TrainingOverride40Element)
    requires
        x.spec_bytes() == y.spec_bytes(),
    ensures
        x == y,
{
    lemma_ddr5_training_override40_element_bytes_pieces(x);
    lemma_ddr5_training_override40_element_bytes_pieces(y);
    lemma_auto_spec_u16_to_from_le_bytes();
    lemma_auto_spec_u32_to_from_le_bytes();
    lemma_auto_spec_u64_to_from_le_bytes();
    assert(spec_u32_from_le_bytes(spec_u32_to_le_bytes(x.length)) == spec_u32_from_le_bytes(spec_u32_to_le_bytes(y.length)));
    assert(x.dimm_module_part_number@ == x.spec_bytes().subrange(4, 35));
    assert(x.dimm_module_part_number =~= y.dimm_module_part_number);
    assert(x._reserved_1 == y._reserved_1);
    assert(spec_u32_from_le_bytes(spec_u32_to_le_bytes(x.flags)) == spec_u32_from_le_bytes(spec_u32_to_le_bytes(y.flags)));
}

impl Default for Ddr5TrainingOverride40Element {
    fn default() -> (r: Self)
        ensures
            r.spec_length() == 0,
            r.spec_dimm_module_part_number() == [0u8, 0u8, 0u8, 0u8, 0u8, 0u8, 0u8, 0u8, 0u8, 0u8, 0u8, 0u8, 0u8, 0u8, 0u8, 0u8, 0u8, 0u8, 0u8, 0u8, 0u8, 0u8, 0u8, 0u8, 0u8, 0u8, 0u8, 0u8, 0u8, 0u8, 0u8],
            r.spec__reserved_1() == 0,
            r.spec_flags() == 0,
    {
        Ddr5TrainingOverride40Element { length: 0, dimm_module_part_number: [0; 31], _reserved_1: 0, flags: 0 }
    }
}

impl Ddr5TrainingOverride40Element {
    /// The part number of the DIMM modules that the override applies to.
    pub fn dimm_module_part_number(&self) -> (r: Result<[u8; 31]>)
        ensures
            r == Ok::<[u8; 31], Error>(self.spec_dimm_module_part_number()),
    {
        Ok(self.dimm_module_part_number)
    }

    pub fn set_dimm_module_part_number(&mut self, value: [u8; 31])
        ensures
            final(self).spec_dimm_module_part_number() == value,
            final(self).spec_length() == old(self).spec_length(),
            final(self).spec__reserved_1() == old(self).spec__reserved_1(),
            final(self).spec_flags() == old(self).spec_flags(),
    {
        self.dimm_module_part_number = value;
    }

    /// The flags, read from their stored bits.
    pub(crate) fn flags(&self) -> (r: Result<Ddr5TrainingOverrideEntryHeaderFlags>)
        ensures
            r matches Ok(f) && f.spec_raw() == self.spec_flags(),
    {
        Ok(Ddr5TrainingOverrideEntryHeaderFlags::from_raw(self.flags))
    }

    /// The memory clocks that the override applies to.
    pub fn selected_mem_clks(&self) -> (r: Result<Ddr5TrainingOverrideEntryHeaderFlagsMemClkMask>)
        ensures
            r matches Ok(m) && m.spec_raw() == spec_field_u32(self.spec_flags(), 0, 4) as u8,
    {
        let flags = Ddr5TrainingOverrideEntryHeaderFlags::from_raw(self.flags);
        Ok(flags.selected_mem_clks())
    }

    pub fn set_selected_mem_clks(&mut self, value: Ddr5TrainingOverrideEntryHeaderFlagsMemClkMask)
        requires
            value.spec_raw() < 16,
        ensures
            final(self).spec_flags() == spec_with_field_u32(old(self).spec_flags(), 0, 4, value.spec_raw() as u32),
            spec_field_u32(final(self).spec_flags(), 0, 4) == value.spec_raw(),
            final(self).spec_length() == old(self).spec_length(),
            final(self).spec_dimm_module_part_number() == old(self).spec_dimm_module_part_number(),
            final(self).spec__reserved_1() == old(self).spec__reserved_1(),
    {
        let mut flags = Ddr5TrainingOverrideEntryHeaderFlags::from_raw(self.flags);
        flags.set_selected_mem_clks(value);
        self.flags = flags.into_raw();
    }

    /// The channels that the override applies to.
    pub fn selected_channels(&self) -> (r: Result<Ddr5TrainingOverrideEntryHeaderChannelSelectorMask>)
        ensures
            r matches Ok(m) && m.spec_raw() == spec_field_u32(self.spec_flags(), 4, 12) as u16,
    {
        let flags = Ddr5TrainingOverrideEntryHeaderFlags::from_raw(self.flags);
        Ok(flags.selected_channels())
    }

    pub fn set_selected_channels(&mut self, value: Ddr5TrainingOverrideEntryHeaderChannelSelectorMask)
        requires
            value.spec_raw() < 0x1000,
        ensures
            final(self).spec_flags() == spec_with_field_u32(old(self).spec_flags(), 4, 12, value.spec_raw() as u32),
            spec_field_u32(final(self).spec_flags(), 4, 12) == value.spec_raw(),
            final(self).spec_length() == old(self).spec_length(),
            final(self).spec_dimm_module_part_number() == old(self).spec_dimm_module_part_number(),
            final(self).spec__reserved_1() == old(self).spec__reserved_1(),
    {
        let mut flags = Ddr5TrainingOverrideEntryHeaderFlags::from_raw(self.flags);
        flags.set_selected_channels(value);
        self.flags = flags.into_raw();
    }

    /// The read dq delay offset, a number from -8 to 7 (stored in four bits of the flags).
    pub fn read_dq_delay_offset(&self) -> (r: Result<i8>)
        ensures
            r == Ok::<i8, Error>(spec_sign_extend_i4(spec_field_u32(self.spec_flags(), 16, 4) as u8)),
    {
        let flags = Ddr5TrainingOverrideEntryHeaderFlags::from_raw(self.flags);
        let raw_value: u8 = flags.read_dq_delay_offset();
        Ok(sign_extend_i4_to_i8(raw_value))
    }

    /// Stores the low four bits of VALUE; a value from -8 to 7 is read back as itself.
    pub fn set_read_dq_delay_offset(&mut self, value: i8)
        ensures
            final(self).spec_flags() == spec_with_field_u32(old(self).spec_flags(), 16, 4, spec_i8_to_i4(value) as u32),
            -8 <= value <= 7 ==> spec_sign_extend_i4(spec_field_u32(final(self).spec_flags(), 16, 4) as u8) == value,
            final(self).spec_length() == old(self).spec_length(),
            final(self).spec_dimm_module_part_number() == old(self).spec_dimm_module_part_number(),
            final(self).spec__reserved_1() == old(self).spec__reserved_1(),
    {
        let mut flags = Ddr5TrainingOverrideEntryHeaderFlags::from_raw(self.flags);
        flags.set_read_dq_delay_offset(i8_to_i4(value));
        self.flags = flags.into_raw();
        proof {
            lemma_i4_roundtrip(value, 0);
        }
    }

    /// The read dq vref offset, a number from -8 to 7 (stored in four bits of the flags).
    pub fn read_dq_vref_offset(&self) -> (r: Result<i8>)
        ensures
            r == Ok::<i8, Error>(spec_sign_extend_i4(spec_field_u32(self.spec_flags(), 20, 4) as u8)),
    {
        let flags = Ddr5TrainingOverrideEntryHeaderFlags::from_raw(self.flags);
        let raw_value: u8 = flags.read_dq_vref_offset();
        Ok(sign_extend_i4_to_i8(raw_value))
    }

    /// Stores the low four bits of VALUE; a value from -8 to 7 is read back as itself.
    pub fn set_read_dq_vref_offset(&mut self, value: i8)
        ensures
            final(self).spec_flags() == spec_with_field_u32(old(self).spec_flags(), 20, 4, spec_i8_to_i4(value) as u32),
            -8 <= value <= 7 ==> spec_sign_extend_i4(spec_field_u32(final(self).spec_flags(), 20, 4) as u8) == value,
            final(self).spec_length() == old(self).spec_length(),
            final(self).spec_dimm_module_part_number() == old(self).spec_dimm_module_part_number(),
            final(self).spec__reserved_1() == old(self).spec__reserved_1(),
    {
        let mut flags = Ddr5TrainingOverrideEntryHeaderFlags::from_raw(self.flags);
        flags.set_read_dq_vref_offset(i8_to_i4(value));
        self.flags = flags.into_raw();
        proof {
            lemma_i4_roundtrip(value, 0);
        }
    }

    /// The write dq delay offset, a number from -8 to 7 (stored in four bits of the flags).
    pub fn write_dq_delay_offset(&self) -> (r: Result<i8>)
        ensures
            r == Ok::<i8, Error>(spec_sign_extend_i4(spec_field_u32(self.spec_flags(), 24, 4) as u8)),
    {
        let flags = Ddr5TrainingOverrideEntryHeaderFlags::from_raw(self.flags);
        let raw_value: u8 = flags.write_dq_delay_offset();
        Ok(sign_extend_i4_to_i8(raw_value))
    }

    /// Stores the low four bits of VALUE; a value from -8 to 7 is read back as itself.
    pub fn set_write_dq_delay_offset(&mut self, value: i8)
        ensures
            final(self).spec_flags() == spec_with_field_u32(old(self).spec_flags(), 24, 4, spec_i8_to_i4(value) as u32),
            -8 <= value <= 7 ==> spec_sign_extend_i4(spec_field_u32(final(self).spec_flags(), 24, 4) as u8) == value,
            final(self).spec_length() == old(self).spec_length(),
            final(self).spec_dimm_module_part_number() == old(self).spec_dimm_module_part_number(),
            final(self).spec__reserved_1() == old(self).spec__reserved_1(),
    {
        let mut flags = Ddr5TrainingOverrideEntryHeaderFlags::from_raw(self.flags);
        flags.set_write_dq_delay_offset(i8_to_i4(value));
        self.flags = flags.into_raw();
        proof {
            lemma_i4_roundtrip(value, 0);
        }
    }

    /// The write dq vref offset, a number from -8 to 7 (stored in four bits of the flags).
    pub fn write_dq_vref_offset(&self) -> (r: Result<i8>)
        ensures
            r == Ok::<i8, Error>(spec_sign_extend_i4(spec_field_u32(self.spec_flags(), 28, 4) as u8)),
    {
        let flags = Ddr5TrainingOverrideEntryHeaderFlags::from_raw(self.flags);
        let raw_value: u8 = flags.write_dq_vref_offset();
        Ok(sign_extend_i4_to_i8(raw_value))
    }

    /// Stores the low four bits of VALUE; a value from -8 to 7 is read back as itself.
    pub fn set_write_dq_vref_offset(&mut self, value: i8)
        ensures
            final(self).spec_flags() == spec_with_field_u32(old(self).spec_flags(), 28, 4, spec_i8_to_i4(value) as u32),
            -8 <= value <= 7 ==> spec_sign_extend_i4(spec_field_u32(final(self).spec_flags(), 28, 4) as u8) == value,
            final(self).spec_length() == old(self).spec_length(),
            final(self).spec_dimm_module_part_number() == old(self).spec_dimm_module_part_number(),
            final(self).spec__reserved_1() == old(self).spec__reserved_1(),
    {
        let mut flags = Ddr5TrainingOverrideEntryHeaderFlags::from_raw(self.flags);
        flags.set_write_dq_vref_offset(i8_to_i4(value));
        self.flags = flags.into_raw();
        proof {
            lemma_i4_roundtrip(value, 0);
        }
    }

    /// The element to start building from: all zero.
    pub fn builder() -> (r: Self)
        ensures
            r.spec_length() == 0,
            r.spec_dimm_module_part_number() == [0u8, 0u8, 0u8, 0u8, 0u8, 0u8, 0u8, 0u8, 0u8, 0u8, 0u8, 0u8, 0u8, 0u8, 0u8, 0u8, 0u8, 0u8, 0u8, 0u8, 0u8, 0u8, 0u8, 0u8, 0u8, 0u8, 0u8, 0u8, 0u8, 0u8, 0u8],
            r.spec__reserved_1() == 0,
            r.spec_flags() == 0,
    {
        Self::default()
    }

    /// The element as built.
    pub fn build(&self) -> (r: Self)
        ensures
            r.spec_length() == self.spec_length(),
            r.spec_dimm_module_part_number() == self.spec_dimm_module_part_number(),
            r.spec__reserved_1() == self.spec__reserved_1(),
            r.spec_flags() == self.spec_flags(),
    {
        *self
    }

    /// Sets the part number (as set_dimm_module_part_number does) and hands the element back.
    pub fn with_dimm_module_part_number(&mut self, value: [u8; 31]) -> (r: &mut Self)
        ensures
            r.spec_dimm_module_part_number() == value,
            r.spec_length() == old(self).spec_length(),
            r.spec__reserved_1() == old(self).spec__reserved_1(),
            r.spec_flags() == old(self).spec_flags(),
            *final(self) == *final(r),
    {
        self.set_dimm_module_part_number(value);
        self
    }

    /// Sets the memory clocks (as set_selected_mem_clks does) and hands the element back.
    pub fn with_selected_mem_clks(&mut self, value: Ddr5TrainingOverrideEntryHeaderFlagsMemClkMask) -> (r: &mut Self)
        requires
            value.spec_raw() < 16,
        ensures
            r.spec_flags() == spec_with_field_u32(old(self).spec_flags(), 0, 4, value.spec_raw() as u32),
            spec_field_u32(r.spec_flags(), 0, 4) == value.spec_raw(),
            r.spec_length() == old(self).spec_length(),
            r.spec_dimm_module_part_number() == old(self).spec_dimm_module_part_number(),
            r.spec__reserved_1() == old(self).spec__reserved_1(),
            *final(self) == *final(r),
    {
        self.set_selected_mem_clks(value);
        self
    }

    /// Sets the channels (as set_selected_channels does) and hands the element back.
    pub fn with_selected_channels(&mut self, value: Ddr5TrainingOverrideEntryHeaderChannelSelectorMask) -> (r: &mut Self)
        requires
            value.spec_raw() < 0x1000,
        ensures
            r.spec_flags() == spec_with_field_u32(old(self).spec_flags(), 4, 12, value.spec_raw() as u32),
            spec_field_u32(r.spec_flags(), 4, 12) == value.spec_raw(),
            r.spec_length() == old(self).spec_length(),
            r.spec_dimm_module_part_number() == old(self).spec_dimm_module_part_number(),
            r.spec__reserved_1() == old(self).spec__reserved_1(),
            *final(self) == *final(r),
    {
        self.set_selected_channels(value);
        self
    }

    /// Sets the read dq delay offset (as set_read_dq_delay_offset does) and hands the element back.
    pub fn with_read_dq_delay_offset(&mut self, value: i8) -> (r: &mut Self)
        ensures
            r.spec_flags() == spec_with_field_u32(old(self).spec_flags(), 16, 4, spec_i8_to_i4(value) as u32),
            -8 <= value <= 7 ==> spec_sign_extend_i4(spec_field_u32(r.spec_flags(), 16, 4) as u8) == value,
            r.spec_length() == old(self).spec_length(),
            r.spec_dimm_module_part_number() == old(self).spec_dimm_module_part_number(),
            r.spec__reserved_1() == old(self).spec__reserved_1(),
            *final(self) == *final(r),
    {
        self.set_read_dq_delay_offset(value);
        self
    }

    /// Sets the read dq vref offset (as set_read_dq_vref_offset does) and hands the element back.
    pub fn with_read_dq_vref_offset(&mut self, value: i8) -> (r: &mut Self)
        ensures
            r.spec_flags() == spec_with_field_u32(old(self).spec_flags(), 20, 4, spec_i8_to_i4(value) as u32),
            -8 <= value <= 7 ==> spec_sign_extend_i4(spec_field_u32(r.spec_flags(), 20, 4) as u8) == value,
            r.spec_length() == old(self).spec_length(),
            r.spec_dimm_module_part_number() == old(self).spec_dimm_module_part_number(),
            r.spec__reserved_1() == old(self).spec__reserved_1(),
            *final(self) == *final(r),
    {
        self.set_read_dq_vref_offset(value);
        self
    }

    /// Sets the write dq delay offset (as set_write_dq_delay_offset does) and hands the element back.
    pub fn with_write_dq_delay_offset(&mut self, value: i8) -> (r: &mut Self)
        ensures
            r.spec_flags() == spec_with_field_u32(old(self).spec_flags(), 24, 4, spec_i8_to_i4(value) as u32),
            -8 <= value <= 7 ==> spec_sign_extend_i4(spec_field_u32(r.spec_flags(), 24, 4) as u8) == value,
            r.spec_length() == old(self).spec_length(),
            r.spec_dimm_module_part_number() == old(self).spec_dimm_module_part_number(),
            r.spec__reserved_1() == old(self).spec__reserved_1(),
            *final(self) == *final(r),
    {
        self.set_write_dq_delay_offset(value);
        self
    }

    /// Sets the write dq vref offset (as set_write_dq_vref_offset does) and hands the element back.
    pub fn with_write_dq_vref_offset(&mut self, value: i8) -> (r: &mut Self)
        ensures
            r.spec_flags() == spec_with_field_u32(old(self).spec_flags(), 28, 4, spec_i8_to_i4(value) as u32),
            -8 <= value <= 7 ==> spec_sign_extend_i4(spec_field_u32(r.spec_flags(), 28, 4) as u8) == value,
            r.spec_length() == old(self).spec_length(),
            r.spec_dimm_module_part_number() == old(self).spec_dimm_module_part_number(),
            r.spec__reserved_1() == old(self).spec__reserved_1(),
            *final(self) == *final(r),
    {
        self.set_write_dq_vref_offset(value);
        self
    }

}

/// Changing one of the four offsets of a DDR5 training override (the four-bit fields at
/// bits 16, 20, 24 and 28 of the flags) sets that field and leaves the other three offsets,
/// the memory clocks (bits 0 to 4) and the channels (bits 4 to 16) as they were. BEFORE
/// and AFTER are the element before and after the setter, related as its contract states.
pub proof fn lemma_ddr5_training_override_offset_frame(
    before: Ddr5TrainingOverride40Element,
    after: Ddr5TrainingOverride40Element,
    offset: u32,
    x: u32,
)
    requires
        offset == 16 || offset == 20 || offset == 24 || offset == 28,
        x < 16,
        after.spec_flags() == spec_with_field_u32(before.spec_flags(), offset, 4, x),
    ensures
        spec_field_u32(after.spec_flags(), offset, 4) == x,
        forall|o: u32|
            (o == 16 || o == 20 || o == 24 || o == 28) && o != offset ==> #[trigger] spec_field_u32(after.spec_flags(), o, 4)
                == spec_field_u32(before.spec_flags(), o, 4),
        spec_field_u32(after.spec_flags(), 0, 4) == spec_field_u32(before.spec_flags(), 0, 4),
        spec_field_u32(after.spec_flags(), 4, 12) == spec_field_u32(before.spec_flags(), 4, 12),
{
    let v = before.spec_flags();
    lemma_shift_table_u32();
    lemma_with_field_same_u32(v, offset, 4, x);
    lemma_with_field_other_u32(v, offset, 4, x, 0, 4);
    lemma_with_field_other_u32(v, offset, 4, x, 4, 12);
    assert forall|o: u32| (o == 16 || o == 20 || o == 24 || o == 28) && o != offset implies #[trigger] spec_field_u32(
        after.spec_flags(),
        o,
        4,
    ) == spec_field_u32(v, o, 4) by {
        lemma_with_field_other_u32(v, offset, 4, x, o, 4);
    }
}

impl EntryCompatible for Ddr5TrainingOverride40Element {
    fn is_entry_compatible(entry_id: EntryId, _prefix: &[u8]) -> (r: bool)
        ensures
            r == (entry_id == EntryId::Memory(MemoryEntryId::Ddr5TrainingOverride)),
    {
        matches!(entry_id, EntryId::Memory(MemoryEntryId::Ddr5TrainingOverride))
    }
}

impl HeaderWithTail for ConsoleOutControl {
    type TailArrayItemType<'de> = ();
}

impl HeaderWithTail for NaplesConsoleOutControl {
    type TailArrayItemType<'de> = ();
}

impl HeaderWithTail for ExtVoltageControl {
    type TailArrayItemType<'de> = ();
}

impl HeaderWithTail for ErrorOutControl116 {
    type TailArrayItemType<'de> = ();
}

impl HeaderWithTail for ErrorOutControl112 {
    type TailArrayItemType<'de> = ();
}

impl HeaderWithTail for PmuBistVendorAlgorithmElement {
    type TailArrayItemType<'de> = ();
}

impl HeaderWithTail for Ddr5TrainingOverride40Element {
    type TailArrayItemType<'de> = ();
}

} // verus!
