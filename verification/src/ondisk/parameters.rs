use crate::ondisk::collection::{take_body_from_collection, take_header_from_collection, HeaderWithTail};
use crate::ondisk::compat::EntryCompatible;
use crate::ondisk::ids::{CbsEntryId, CcxEntryId, DfEntryId, EntryId, FchEntryId, GnbEntryId, MemoryEntryId, PspEntryId};
use crate::le::{append_bytes, le_bytes_u16, le_bytes_u32, le_bytes_u64, lemma_auto_spec_u16_to_from_le_bytes, lemma_auto_spec_u32_to_from_le_bytes, lemma_auto_spec_u64_to_from_le_bytes, spec_u16_from_le_bytes, spec_u16_to_le_bytes, spec_u32_from_le_bytes, spec_u32_to_le_bytes, spec_u64_from_le_bytes, spec_u64_to_le_bytes, u16_from_le_bytes, u32_from_le_bytes, u64_from_le_bytes};
use crate::types::{Error, Result};
use vstd::prelude::*;

verus! {

/// The time point of the attributes that terminate a parameter list.
pub const PARAMETER_TIME_POINT_NEVER: u8 = 0;

/// The token of the attributes that terminate a parameter list.
pub const PARAMETER_TOKEN_LIMIT: u16 = 0x1FFF;

/// The 32-bit word that packs the four fields of parameter attributes: the time point
/// in bits 0..8, the token in bits 8..21, the size minus one in bits 21..24 and a
/// reserved byte in bits 24..32.
pub open spec fn spec_pack_attributes(time_point: u8, token: u16, size_minus_one: u8, reserved: u8) -> int {
    time_point + token * 0x100 + size_minus_one * 0x20_0000 + reserved * 0x100_0000
}

/// For Naples: the attributes of one parameter (the value is stored elsewhere).
#[derive(Debug, Clone, Copy)]
pub struct ParameterAttributes {
    time_point: u8,
    token: u16,
    size_minus_one: u8,
    _reserved_0: u8,
}

impl ParameterAttributes {
    #[verifier::type_invariant]
    spec fn inv(self) -> bool {
        &&& self.token < 0x2000
        &&& self.size_minus_one < 8
    }

    pub closed spec fn spec_time_point(self) -> u8 {
        self.time_point
    }

    pub closed spec fn spec_token(self) -> u16 {
        self.token
    }

    pub closed spec fn spec_size_minus_one(self) -> u8 {
        self.size_minus_one
    }

    pub closed spec fn spec_reserved_0(self) -> u8 {
        self._reserved_0
    }

    /// The packed 32-bit representation.
    pub open spec fn spec_to_u32(self) -> int {
        spec_pack_attributes(self.spec_time_point(), self.spec_token(), self.spec_size_minus_one(), self.spec_reserved_0())
    }

    /// Attributes with all fields zero.
    pub fn new() -> (r: Self)
        ensures
            r.spec_time_point() == 0,
            r.spec_token() == 0,
            r.spec_size_minus_one() == 0,
            r.spec_reserved_0() == 0,
    {
        ParameterAttributes { time_point: 0, token: 0, size_minus_one: 0, _reserved_0: 0 }
    }

    pub fn time_point(&self) -> (r: u8)
        ensures
            r == self.spec_time_point(),
    {
        self.time_point
    }

    pub fn token(&self) -> (r: u16)
        ensures
            r == self.spec_token(),
            r < 0x2000,
    {
        proof {
            use_type_invariant(self);
        }
        self.token
    }

    pub fn size_minus_one(&self) -> (r: u8)
        ensures
            r == self.spec_size_minus_one(),
            r < 8,
    {
        proof {
            use_type_invariant(self);
        }
        self.size_minus_one
    }

    pub fn _reserved_0(&self) -> (r: u8)
        ensures
            r == self.spec_reserved_0(),
    {
        self._reserved_0
    }

    pub fn with_time_point(self, value: u8) -> (r: Self)
        ensures
            r.spec_time_point() == value,
            r.spec_token() == self.spec_token(),
            r.spec_size_minus_one() == self.spec_size_minus_one(),
            r.spec_reserved_0() == self.spec_reserved_0(),
    {
        proof {
            use_type_invariant(&self);
        }
        ParameterAttributes { time_point: value, ..self }
    }

    pub fn with_token(self, value: u16) -> (r: Self)
        requires
            value < 0x2000,
        ensures
            r.spec_time_point() == self.spec_time_point(),
            r.spec_token() == value,
            r.spec_size_minus_one() == self.spec_size_minus_one(),
            r.spec_reserved_0() == self.spec_reserved_0(),
    {
        proof {
            use_type_invariant(&self);
        }
        ParameterAttributes { token: value, ..self }
    }

    pub fn with_size_minus_one(self, value: u8) -> (r: Self)
        requires
            value < 8,
        ensures
            r.spec_time_point() == self.spec_time_point(),
            r.spec_token() == self.spec_token(),
            r.spec_size_minus_one() == value,
            r.spec_reserved_0() == self.spec_reserved_0(),
    {
        proof {
            use_type_invariant(&self);
        }
        ParameterAttributes { size_minus_one: value, ..self }
    }

    pub fn with__reserved_0(self, value: u8) -> (r: Self)
        ensures
            r.spec_time_point() == self.spec_time_point(),
            r.spec_token() == self.spec_token(),
            r.spec_size_minus_one() == self.spec_size_minus_one(),
            r.spec_reserved_0() == value,
    {
        proof {
            use_type_invariant(&self);
        }
        ParameterAttributes { _reserved_0: value, ..self }
    }

    /// The size of the value in bytes.
    pub fn size(&self) -> (r: u16)
        ensures
            r == self.spec_size_minus_one() + 1,
            1 <= r <= 8,
    {
        (self.size_minus_one() as u16) + 1
    }

    /// The attributes that terminate a parameter list.
    pub fn terminator() -> (r: Self)
        ensures
            r.spec_time_point() == PARAMETER_TIME_POINT_NEVER,
            r.spec_token() == PARAMETER_TOKEN_LIMIT,
            r.spec_size_minus_one() == 0,
            r.spec_reserved_0() == 0,
    {
        Self::new().with_time_point(PARAMETER_TIME_POINT_NEVER).with_token(PARAMETER_TOKEN_LIMIT).with_size_minus_one(0)
    }

    /// Whether VALUE uses only the bits that are not reserved.
    pub fn all_reserved_bits_are_unused(value: u64) -> (r: bool)
        ensures
            r == (value < 0x100_0000),
    {
        value < 0x100_0000
    }

    pub fn from_u64(value: u64) -> (r: Option<Self>)
        ensures
            r is Some <==> value < 0x100_0000,
            r matches Some(a) ==> {
                &&& a.spec_time_point() == value % 0x100
                &&& a.spec_token() == (value / 0x100) % 0x2000
                &&& a.spec_size_minus_one() == value / 0x20_0000
                &&& a.spec_reserved_0() == 0
                &&& a.spec_to_u32() == value
            },
    {
        if Self::all_reserved_bits_are_unused(value) {
            let time_point: u8 = (value % 0x100) as u8;
            let token: u16 = ((value / 0x100) % 0x2000) as u16;
            let size_minus_one: u8 = (value / 0x20_0000) as u8;
            proof {
                assert(value == time_point + token * 0x100 + size_minus_one * 0x20_0000) by (nonlinear_arith)
                    requires
                        value < 0x100_0000,
                        time_point == value % 0x100,
                        token == (value / 0x100) % 0x2000,
                        size_minus_one == value / 0x20_0000,
                ;
            }
            Some(ParameterAttributes { time_point, token, size_minus_one, _reserved_0: 0 })
        } else {
            None
        }
    }

    pub fn from_u32(value: u32) -> (r: Option<Self>)
        ensures
            r is Some <==> value < 0x100_0000,
            r matches Some(a) ==> {
                &&& a.spec_time_point() == value % 0x100
                &&& a.spec_token() == (value / 0x100) % 0x2000
                &&& a.spec_size_minus_one() == value / 0x20_0000
                &&& a.spec_reserved_0() == 0
                &&& a.spec_to_u32() == value
            },
    {
        Self::from_u64(value as u64)
    }

    pub fn to_u32(&self) -> (r: u32)
        ensures
            r == self.spec_to_u32(),
    {
        proof {
            use_type_invariant(self);
        }
        (self.time_point as u32) + (self.token as u32) * 0x100 + (self.size_minus_one as u32) * 0x20_0000
            + (self._reserved_0 as u32) * 0x100_0000
    }

    pub fn to_u64(&self) -> (r: Option<u64>)
        ensures
            r == Some(self.spec_to_u32() as u64),
    {
        Some(self.to_u32() as u64)
    }
}

/// The 32-bit attributes word at the start of BYTES (little-endian).
pub open spec fn spec_word_at(bytes: Seq<u8>) -> u32 {
    spec_u32_from_le_bytes(bytes.subrange(0, 4))
}

/// The token field of a packed attributes word.
pub open spec fn spec_token_of_word(word: u32) -> int {
    ((word / 0x100) % 0x2000) as int
}

/// The value size (in bytes) that a packed attributes word gives.
pub open spec fn spec_size_of_word(word: u32) -> int {
    ((word / 0x20_0000) % 8) as int + 1
}

/// Where the attribute list at the start of KEYS ends: the number of bytes up to and
/// including the terminating attributes, or `None` if the list is cut short or holds
/// a word with reserved bits set before its terminator.
pub open spec fn spec_attributes_end(keys: Seq<u8>) -> Option<int>
    decreases keys.len(),
{
    if keys.len() < 4 {
        None
    } else {
        let word = spec_word_at(keys);
        if word >= 0x100_0000 {
            None
        } else if spec_token_of_word(word) == PARAMETER_TOKEN_LIMIT {
            Some(4)
        } else {
            match spec_attributes_end(keys.subrange(4, keys.len() as int)) {
                Some(n) => Some(n + 4),
                None => None,
            }
        }
    }
}

/// The unsigned little-endian number that BYTES (1, 2, 4 or 8 of them) stand for.
pub open spec fn spec_le_value(bytes: Seq<u8>) -> u64 {
    if bytes.len() == 1 {
        bytes[0] as u64
    } else if bytes.len() == 2 {
        spec_u16_from_le_bytes(bytes) as u64
    } else if bytes.len() == 4 {
        spec_u32_from_le_bytes(bytes) as u64
    } else {
        spec_u64_from_le_bytes(bytes)
    }
}

/// The bytes that store VALUE in a value area slot of SIZE bytes (1, 2, 4 or 8).
pub open spec fn spec_value_bytes(size: u16, value: u64) -> Seq<u8> {
    if size == 1 {
        seq![value as u8]
    } else if size == 2 {
        spec_u16_to_le_bytes(value as u16)
    } else if size == 4 {
        spec_u32_to_le_bytes(value as u32)
    } else {
        spec_u64_to_le_bytes(value)
    }
}

/// Whether a value of SIZE bytes can be stored in a value area.
pub open spec fn spec_is_value_size(size: u16) -> bool {
    size == 1 || size == 2 || size == 4 || size == 8
}

/// This is actually just a helper struct and is not on disk (at least not exactly).
/// It's needed because the value area is not adjacent to the attribute.
#[derive(Debug, Clone, Copy)]
pub struct Parameter {
    time_point: u8,
    token: u16,
    value_size: u16,
    value: u64,
    _reserved_0: u8,
}

impl Parameter {
    #[verifier::type_invariant]
    spec fn inv(self) -> bool {
        self.token < 0x2000
    }

    pub closed spec fn spec_time_point(self) -> u8 {
        self.time_point
    }

    pub closed spec fn spec_token(self) -> u16 {
        self.token
    }

    pub closed spec fn spec_value_size(self) -> u16 {
        self.value_size
    }

    pub closed spec fn spec_value(self) -> u64 {
        self.value
    }

    pub closed spec fn spec_reserved_0(self) -> u8 {
        self._reserved_0
    }

    /// The packed attributes word of this parameter (meaningful for value sizes 1 to 8).
    pub open spec fn spec_attributes_word(self) -> int {
        spec_pack_attributes(
            self.spec_time_point(),
            self.spec_token(),
            (self.spec_value_size() - 1) as u8,
            self.spec_reserved_0(),
        )
    }

    pub fn time_point(&self) -> (r: Result<u8>)
        ensures
            r == Ok::<u8, Error>(self.spec_time_point()),
    {
        Ok(self.time_point)
    }

    pub fn set_time_point(&mut self, value: u8)
        ensures
            final(self).spec_time_point() == value,
            final(self).spec_token() == old(self).spec_token(),
            final(self).spec_value_size() == old(self).spec_value_size(),
            final(self).spec_value() == old(self).spec_value(),
            final(self).spec_reserved_0() == old(self).spec_reserved_0(),
    {
        proof {
            use_type_invariant(&*self);
        }
        self.time_point = value;
    }

    pub fn token(&self) -> (r: Result<u16>)
        ensures
            r == Ok::<u16, Error>(self.spec_token()),
            self.spec_token() < 0x2000,
    {
        proof {
            use_type_invariant(self);
        }
        Ok(self.token)
    }

    pub fn set_token(&mut self, value: u16)
        requires
            value < 0x2000,
        ensures
            final(self).spec_time_point() == old(self).spec_time_point(),
            final(self).spec_token() == value,
            final(self).spec_value_size() == old(self).spec_value_size(),
            final(self).spec_value() == old(self).spec_value(),
            final(self).spec_reserved_0() == old(self).spec_reserved_0(),
    {
        self.token = value;
    }

    pub fn value_size(&self) -> (r: Result<u16>)
        ensures
            r == Ok::<u16, Error>(self.spec_value_size()),
    {
        Ok(self.value_size)
    }

    pub fn set_value_size(&mut self, value: u16)
        ensures
            final(self).spec_time_point() == old(self).spec_time_point(),
            final(self).spec_token() == old(self).spec_token(),
            final(self).spec_value_size() == value,
            final(self).spec_value() == old(self).spec_value(),
            final(self).spec_reserved_0() == old(self).spec_reserved_0(),
    {
        proof {
            use_type_invariant(&*self);
        }
        self.value_size = value;
    }

    pub fn value(&self) -> (r: Result<u64>)
        ensures
            r == Ok::<u64, Error>(self.spec_value()),
    {
        Ok(self.value)
    }

    pub fn set_value(&mut self, value: u64)
        ensures
            final(self).spec_time_point() == old(self).spec_time_point(),
            final(self).spec_token() == old(self).spec_token(),
            final(self).spec_value_size() == old(self).spec_value_size(),
            final(self).spec_value() == value,
            final(self).spec_reserved_0() == old(self).spec_reserved_0(),
    {
        proof {
            use_type_invariant(&*self);
        }
        self.value = value;
    }

    pub fn _reserved_0(&self) -> (r: Result<u8>)
        ensures
            r == Ok::<u8, Error>(self.spec_reserved_0()),
    {
        Ok(self._reserved_0)
    }

    pub fn set__reserved_0(&mut self, value: u8)
        ensures
            final(self).spec_time_point() == old(self).spec_time_point(),
            final(self).spec_token() == old(self).spec_token(),
            final(self).spec_value_size() == old(self).spec_value_size(),
            final(self).spec_value() == old(self).spec_value(),
            final(self).spec_reserved_0() == value,
    {
        proof {
            use_type_invariant(&*self);
        }
        self._reserved_0 = value;
    }

    // Note: VALUE is in an extra area
    pub fn attributes(&self) -> (r: Result<ParameterAttributes>)
        requires
            !(9 <= self.spec_value_size() <= 256),
        ensures
            (self.spec_value_size() == 0 || self.spec_value_size() > 256) ==> r == Err::<ParameterAttributes, Error>(Error::EntryTypeMismatch),
            1 <= self.spec_value_size() <= 8 ==> (r matches Ok(a) && {
                &&& a.spec_time_point() == self.spec_time_point()
                &&& a.spec_token() == self.spec_token()
                &&& a.spec_size_minus_one() == self.spec_value_size() - 1
                &&& a.spec_reserved_0() == self.spec_reserved_0()
            }),
    {
        proof {
            use_type_invariant(self);
        }
        let value_size = self.value_size;
        if value_size == 0 || value_size > 256 {
            return Err(Error::EntryTypeMismatch);
        }
        let size_minus_one: u8 = (value_size - 1) as u8;
        Ok(
            ParameterAttributes::new().with_time_point(self.time_point).with_token(self.token).with_size_minus_one(
                size_minus_one,
            ).with__reserved_0(self._reserved_0),
        )
    }

    pub fn new(attributes: &ParameterAttributes, value: u64) -> (r: Result<Self>)
        ensures
            r matches Ok(p) && {
                &&& p.spec_time_point() == attributes.spec_time_point()
                &&& p.spec_token() == attributes.spec_token()
                &&& p.spec_value_size() == attributes.spec_size_minus_one() + 1
                &&& p.spec_value() == value
                &&& p.spec_reserved_0() == attributes.spec_reserved_0()
            },
    {
        Ok(
            Self {
                time_point: attributes.time_point(),
                token: attributes.token(),
                value_size: attributes.size(),
                _reserved_0: attributes._reserved_0(),
                value,
            },
        )
    }
}

impl Default for Parameter {
    fn default() -> (r: Self)
        ensures
            r.spec_time_point() == 0,
            r.spec_token() == 0,
            r.spec_value_size() == 1,
            r.spec_value() == 0,
            r.spec_reserved_0() == 0,
    {
        Self::new(&ParameterAttributes::new(), 0).unwrap()
    }
}

/// Whether the next read of a parameter list succeeds, given the attributes area KEYS and the
/// value area VALUES that are left: a word of attributes that is in range, is not the
/// terminator, and has a value size of 1, 2, 4 or 8 bytes that the value area still holds.
pub open spec fn spec_next_readable(keys: Seq<u8>, values: Seq<u8>) -> bool {
    let word = spec_word_at(keys);
    let size = spec_size_of_word(word);
    &&& keys.len() >= 4
    &&& word < 0x100_0000
    &&& spec_token_of_word(word) != PARAMETER_TOKEN_LIMIT
    &&& spec_is_value_size(size as u16)
    &&& values.len() >= size
}

/// What the next read of a parameter list gives, as (time point, token, value size, value),
/// or `None` where it gives nothing.
pub open spec fn spec_next_fields(keys: Seq<u8>, values: Seq<u8>) -> Option<(int, int, int, u64)> {
    if spec_next_readable(keys, values) {
        let word = spec_word_at(keys);
        let size = spec_size_of_word(word);
        Some(((word % 0x100) as int, spec_token_of_word(word), size, spec_le_value(values.subrange(0, size))))
    } else {
        None
    }
}

/// The attributes area that is left after the next read.
pub open spec fn spec_next_keys(keys: Seq<u8>) -> Seq<u8> {
    if keys.len() >= 4 {
        keys.subrange(4, keys.len() as int)
    } else {
        keys
    }
}

/// The value area that is left after the next read.
pub open spec fn spec_next_values(keys: Seq<u8>, values: Seq<u8>) -> Seq<u8> {
    if spec_next_readable(keys, values) {
        values.subrange(spec_size_of_word(spec_word_at(keys)), values.len() as int)
    } else {
        values
    }
}

/// The attributes and value areas that are left after K reads.
pub open spec fn spec_areas_after(keys: Seq<u8>, values: Seq<u8>, k: nat) -> (Seq<u8>, Seq<u8>)
    decreases k,
{
    if k == 0 {
        (keys, values)
    } else {
        let (ks, vs) = spec_areas_after(keys, values, (k - 1) as nat);
        (spec_next_keys(ks), spec_next_values(ks, vs))
    }
}

/// For Naples.
pub struct ParametersIter<'a> {
    keys: &'a [u8],
    values: &'a [u8],
}

impl<'a> ParametersIter<'a> {
    /// The attributes area that is still to be read.
    pub closed spec fn spec_keys(self) -> Seq<u8> {
        self.keys@
    }

    /// The value area that is still to be read.
    pub closed spec fn spec_values(self) -> Seq<u8> {
        self.values@
    }

    pub(crate) fn next_attributes(buf: &mut &[u8]) -> (r: Result<ParameterAttributes>)
        ensures
            old(buf)@.len() >= 4 ==> {
                let word = spec_word_at(old(buf)@);
                &&& final(buf)@ == old(buf)@.subrange(4, old(buf)@.len() as int)
                &&& (r is Ok <==> word < 0x100_0000)
                &&& (r matches Ok(a) ==> a.spec_to_u32() == word && a.spec_token() == spec_token_of_word(word)
                    && a.spec_time_point() == word % 0x100 && a.spec_size_minus_one() + 1 == spec_size_of_word(word)
                    && a.spec_reserved_0() == 0)
                &&& (r is Err ==> r == Err::<ParameterAttributes, Error>(Error::ParameterRange))
            },
            old(buf)@.len() < 4 ==> r == Err::<ParameterAttributes, Error>(Error::ParameterRange) && final(buf)@ == old(buf)@,
    {
        proof {
            lemma_auto_spec_u32_to_from_le_bytes();
        }
        match take_header_from_collection::<u32>(buf) {
            Some(attributes) => {
                proof {
                    assert(spec_u32_to_le_bytes(attributes).len() == 4);
                    assert(attributes == spec_u32_from_le_bytes(spec_u32_to_le_bytes(attributes)));
                }
                match ParameterAttributes::from_u32(attributes) {
                    Some(a) => Ok(a),
                    None => Err(Error::ParameterRange),
                }
            },
            None => Err(Error::ParameterRange),
        }
    }

    pub fn new(buf: &'a [u8]) -> (r: Result<Self>)
        ensures
            r is Ok <==> spec_attributes_end(buf@) is Some,
            r matches Ok(it) ==> it.spec_keys() == buf@ && it.spec_values() == buf@.subrange(
                spec_attributes_end(buf@)->0,
                buf@.len() as int,
            ),
            r is Err ==> r == Err::<Self, Error>(Error::ParameterRange),
    {
        let beginning: &'a [u8] = buf;
        let mut cur: &'a [u8] = buf;
        let ghost mut consumed: int = 0;
        loop
            invariant
                0 <= consumed <= beginning@.len(),
                beginning@ == buf@,
                cur@ == beginning@.subrange(consumed, beginning@.len() as int),
                spec_attributes_end(beginning@) == match spec_attributes_end(cur@) {
                    Some(n) => Some(n + consumed),
                    None => None::<int>,
                },
            decreases cur@.len(),
        {
            let ghost before = cur@;
            match Self::next_attributes(&mut cur) {
                Err(e) => {
                    return Err(e);
                },
                Ok(attributes) => {
                    if attributes.token() == PARAMETER_TOKEN_LIMIT {
                        proof {
                            assert(cur@ == beginning@.subrange(consumed + 4, beginning@.len() as int));
                        }
                        return Ok(Self { keys: beginning, values: cur });
                    }
                },
            }
            proof {
                assert(spec_attributes_end(before) == match spec_attributes_end(cur@) {
                    Some(n) => Some(n + 4),
                    None => None::<int>,
                });
                consumed = consumed + 4;
            }
        }
    }

    fn read_u8(raw_value: &[u8]) -> (r: Option<u8>)
        ensures
            r == (if raw_value@.len() == 1 { Some(raw_value@[0]) } else { None }),
    {
        if raw_value.len() == 1 {
            Some(raw_value[0])
        } else {
            None
        }
    }

    fn read_u16le(raw_value: &[u8]) -> (r: Option<u16>)
        ensures
            r == (if raw_value@.len() == 2 { Some(spec_u16_from_le_bytes(raw_value@)) } else { None }),
    {
        if raw_value.len() == 2 {
            Some(u16_from_le_bytes(raw_value))
        } else {
            None
        }
    }

    fn read_u32le(raw_value: &[u8]) -> (r: Option<u32>)
        ensures
            r == (if raw_value@.len() == 4 { Some(spec_u32_from_le_bytes(raw_value@)) } else { None }),
    {
        if raw_value.len() == 4 {
            Some(u32_from_le_bytes(raw_value))
        } else {
            None
        }
    }

    fn read_u64le(raw_value: &[u8]) -> (r: Option<u64>)
        ensures
            r == (if raw_value@.len() == 8 { Some(spec_u64_from_le_bytes(raw_value@)) } else { None }),
    {
        if raw_value.len() == 8 {
            Some(u64_from_le_bytes(raw_value))
        } else {
            None
        }
    }

    /// Reads the next parameter: its attributes from the attributes area and its value
    /// from the value area. Returns `None` at the terminator, or when either area cannot
    /// be read.
    pub fn next(&mut self) -> (r: Option<Parameter>)
        ensures
            old(self).spec_keys().len() < 4 ==> r is None && final(self).spec_keys() == old(self).spec_keys()
                && final(self).spec_values() == old(self).spec_values(),
            old(self).spec_keys().len() >= 4 ==> {
                let keys = old(self).spec_keys();
                let values = old(self).spec_values();
                let word = spec_word_at(keys);
                let size = spec_size_of_word(word);
                let readable = word < 0x100_0000 && spec_token_of_word(word) != PARAMETER_TOKEN_LIMIT
                    && spec_is_value_size(size as u16) && values.len() >= size;
                &&& final(self).spec_keys() == keys.subrange(4, keys.len() as int)
                &&& (r is Some <==> readable)
                &&& (!readable ==> final(self).spec_values() == values)
                &&& (r matches Some(p) ==> {
                    &&& p.spec_time_point() == word % 0x100
                    &&& p.spec_token() == spec_token_of_word(word)
                    &&& p.spec_value_size() == size
                    &&& p.spec_reserved_0() == 0
                    &&& p.spec_value() == spec_le_value(values.subrange(0, size))
                    &&& final(self).spec_values() == values.subrange(size, values.len() as int)
                })
            },
            final(self).spec_keys() == spec_next_keys(old(self).spec_keys()),
            final(self).spec_values() == spec_next_values(old(self).spec_keys(), old(self).spec_values()),
            r is Some <==> spec_next_fields(old(self).spec_keys(), old(self).spec_values()) is Some,
            r matches Some(p) ==> spec_next_fields(old(self).spec_keys(), old(self).spec_values()) == Some(
                (p.spec_time_point() as int, p.spec_token() as int, p.spec_value_size() as int, p.spec_value()),
            ),
    {
        let attributes = match Self::next_attributes(&mut self.keys) {
            Ok(a) => a,
            Err(_) => {
                return None;
            },
        };
        if attributes.token() == PARAMETER_TOKEN_LIMIT {
            return None;
        }
        let size: usize = attributes.size() as usize;
        if size == 1 || size == 2 || size == 4 || size == 8 {
            let raw_value = match take_body_from_collection(&mut self.values, size, 1) {
                Some(v) => v,
                None => {
                    return None;
                },
            };
            proof {
                assert(raw_value@.len() == size);
            }
            if raw_value.len() == 1 {
                let v = Self::read_u8(raw_value).unwrap();
                Some(Parameter::new(&attributes, v as u64).unwrap())
            } else if raw_value.len() == 2 {
                let v = Self::read_u16le(raw_value).unwrap();
                Some(Parameter::new(&attributes, v as u64).unwrap())
            } else if raw_value.len() == 4 {
                let v = Self::read_u32le(raw_value).unwrap();
                Some(Parameter::new(&attributes, v as u64).unwrap())
            } else {
                let v = Self::read_u64le(raw_value).unwrap();
                Some(Parameter::new(&attributes, v).unwrap())
            }
        } else {
            None
        }
    }
}

/// For Naples.
#[derive(Debug, PartialEq, Eq, Structural)]
pub struct Parameters {}

/// Whether ENTRY_ID is one of the (default) parameter entries of any group.
pub open spec fn spec_is_parameters_entry(entry_id: EntryId) -> bool {
    match entry_id {
        EntryId::Psp(PspEntryId::DefaultParameters) | EntryId::Psp(PspEntryId::Parameters)
        | EntryId::Ccx(CcxEntryId::DefaultParameters) | EntryId::Ccx(CcxEntryId::Parameters)
        | EntryId::Df(DfEntryId::DefaultParameters) | EntryId::Df(DfEntryId::Parameters)
        | EntryId::Memory(MemoryEntryId::DefaultParameters) | EntryId::Memory(MemoryEntryId::Parameters)
        | EntryId::Gnb(GnbEntryId::DefaultParameters) | EntryId::Gnb(GnbEntryId::Parameters)
        | EntryId::Fch(FchEntryId::DefaultParameters) | EntryId::Fch(FchEntryId::Parameters)
        | EntryId::Cbs(CbsEntryId::DefaultParameters) | EntryId::Cbs(CbsEntryId::Parameters) => true,
        _ => false,
    }
}

/// The raw group identifiers follow the (default) parameter entries: the group with the
/// K-th pair of parameter entries (entry types 2K - 1 and 2K, for K from 1 to 7) has the
/// raw identifier 0x1700 + K. So decoding a pair of raw identifiers gives a parameter entry
/// only for a type from 1 to 14 in the group 0x1700 + (type + 1) / 2.
pub proof fn lemma_group_ids_follow_parameter_entries(entry_id: EntryId, group: u16, type_id: u16)
    ensures
        spec_is_parameters_entry(entry_id) ==> {
            &&& 1 <= entry_id.spec_type_id() <= 14
            &&& entry_id.spec_group_id().spec_raw() == 0x1700 + (entry_id.spec_type_id() + 1) / 2
        },
        spec_is_parameters_entry(EntryId::spec_decode(group, type_id)) ==> 1 <= type_id <= 14 && group == 0x1700
            + (type_id + 1) / 2,
{
}

impl EntryCompatible for Parameters {
    fn is_entry_compatible(entry_id: EntryId, _prefix: &[u8]) -> (r: bool)
        ensures
            r == spec_is_parameters_entry(entry_id),
    {
        matches!(
            entry_id,
            EntryId::Psp(PspEntryId::DefaultParameters)
                | EntryId::Psp(PspEntryId::Parameters)
                | EntryId::Ccx(CcxEntryId::DefaultParameters)
                | EntryId::Ccx(CcxEntryId::Parameters)
                | EntryId::Df(DfEntryId::DefaultParameters)
                | EntryId::Df(DfEntryId::Parameters)
                | EntryId::Memory(MemoryEntryId::DefaultParameters)
                | EntryId::Memory(MemoryEntryId::Parameters)
                | EntryId::Gnb(GnbEntryId::DefaultParameters)
                | EntryId::Gnb(GnbEntryId::Parameters)
                | EntryId::Fch(FchEntryId::DefaultParameters)
                | EntryId::Fch(FchEntryId::Parameters)
                | EntryId::Cbs(CbsEntryId::DefaultParameters)
                | EntryId::Cbs(CbsEntryId::Parameters)
        )
    }
}

impl HeaderWithTail for Parameters {
    type TailArrayItemType<'de> = u8;
}

/// The attributes area of a parameter list: the attributes words of SOURCE, in order.
pub open spec fn spec_tail_attributes(source: Seq<Parameter>) -> Seq<u8>
    decreases source.len(),
{
    if source.len() == 0 {
        Seq::empty()
    } else {
        spec_tail_attributes(source.drop_last()) + spec_u32_to_le_bytes(source.last().spec_attributes_word() as u32)
    }
}

/// The value area of a parameter list: the values of SOURCE, in order, each in as many
/// bytes as its value size says.
pub open spec fn spec_tail_values(source: Seq<Parameter>) -> Seq<u8>
    decreases source.len(),
{
    if source.len() == 0 {
        Seq::empty()
    } else {
        spec_tail_values(source.drop_last()) + spec_value_bytes(source.last().spec_value_size(), source.last().spec_value())
    }
}

impl Parameters {
    /// Create a new Parameters Tail with the items from SOURCE.
    /// Note that the last entry in SOURCE must be
    /// Parameter::new(&ParameterAttributes::terminator(), 0xff).
    pub fn new_tail_from_vec(source: Vec<Parameter>) -> (r: Result<Vec<u8>>)
        requires
            forall|i: int| 0 <= i < source@.len() ==> !(9 <= #[trigger] source@[i].spec_value_size() <= 256),
        ensures
            r is Ok <==> forall|i: int| 0 <= i < source@.len() ==> spec_is_value_size(#[trigger] source@[i].spec_value_size()),
            r matches Ok(bytes) ==> bytes@ == spec_tail_attributes(source@) + spec_tail_values(source@),
            r is Err ==> r == Err::<Vec<u8>, Error>(Error::EntryTypeMismatch),
    {
        let mut result: Vec<u8> = Vec::new();
        let mut i: usize = 0;
        while i < source.len()
            invariant
                i <= source@.len(),
                forall|j: int| 0 <= j < source@.len() ==> !(9 <= #[trigger] source@[j].spec_value_size() <= 256),
                forall|j: int| 0 <= j < i ==> 1 <= #[trigger] source@[j].spec_value_size() <= 8,
                result@ == spec_tail_attributes(source@.subrange(0, i as int)),
            decreases source@.len() - i,
        {
            let parameter = &source[i];
            let attributes = match parameter.attributes() {
                Ok(a) => a,
                Err(e) => {
                    proof {
                        assert(!spec_is_value_size(source@[i as int].spec_value_size()));
                    }
                    return Err(e);
                },
            };
            let raw_attributes: u32 = attributes.to_u32();
            let bytes = le_bytes_u32(raw_attributes);
            append_bytes(&mut result, &bytes);
            proof {
                assert(source@.subrange(0, i + 1 as int).drop_last() == source@.subrange(0, i as int));
            }
            i = i + 1;
        }
        proof {
            assert(source@.subrange(0, source@.len() as int) == source@);
        }
        let ghost attributes_area = result@;
        let mut i: usize = 0;
        while i < source.len()
            invariant
                i <= source@.len(),
                forall|j: int| 0 <= j < source@.len() ==> 1 <= #[trigger] source@[j].spec_value_size() <= 8,
                forall|j: int| 0 <= j < i ==> spec_is_value_size(#[trigger] source@[j].spec_value_size()),
                attributes_area == spec_tail_attributes(source@),
                result@ == attributes_area + spec_tail_values(source@.subrange(0, i as int)),
            decreases source@.len() - i,
        {
            let parameter = &source[i];
            let value = parameter.value().unwrap();
            let size = parameter.value_size().unwrap();
            if size == 1 {
                result.push(value as u8);
            } else if size == 2 {
                let bytes = le_bytes_u16(value as u16);
                append_bytes(&mut result, &bytes);
            } else if size == 4 {
                let bytes = le_bytes_u32(value as u32);
                append_bytes(&mut result, &bytes);
            } else if size == 8 {
                let bytes = le_bytes_u64(value);
                append_bytes(&mut result, &bytes);
            } else {
                proof {
                    assert(!spec_is_value_size(source@[i as int].spec_value_size()));
                }
                return Err(Error::EntryTypeMismatch);
            }
            proof {
                assert(source@.subrange(0, i + 1 as int).drop_last() == source@.subrange(0, i as int));
                assert(spec_tail_values(source@.subrange(0, i + 1 as int)) == spec_tail_values(source@.subrange(0, i as int))
                    + spec_value_bytes(size, value));
            }
            i = i + 1;
        }
        proof {
            assert(source@.subrange(0, source@.len() as int) == source@);
        }
        Ok(result)
    }
}

/// The bytes of a parameter list as it is written: the attributes area, then the value area.
pub open spec fn spec_tail(source: Seq<Parameter>) -> Seq<u8> {
    spec_tail_attributes(source) + spec_tail_values(source)
}

/// The first value that does not fit in SIZE bytes.
pub open spec fn spec_value_limit(size: u16) -> int {
    if size == 1 {
        0x100
    } else if size == 2 {
        0x1_0000
    } else if size == 4 {
        0x1_0000_0000
    } else {
        0x1_0000_0000_0000_0000
    }
}

/// Whether SOURCE is a parameter list that can be written and read back: every value size
/// is 1, 2, 4 or 8 bytes and its value fits in it, every reserved byte is 0, every token has
/// 13 bits, and exactly the last parameter has the terminating token.
pub open spec fn spec_is_readable_list(source: Seq<Parameter>) -> bool {
    &&& source.len() > 0
    &&& forall|i: int| 0 <= i < source.len() ==> spec_is_value_size(#[trigger] source[i].spec_value_size())
    &&& forall|i: int| 0 <= i < source.len() ==> #[trigger] source[i].spec_value() < spec_value_limit(source[i].spec_value_size())
    &&& forall|i: int| 0 <= i < source.len() ==> #[trigger] source[i].spec_reserved_0() == 0
    &&& forall|i: int| 0 <= i < source.len() ==> #[trigger] source[i].spec_token() < 0x2000
    &&& forall|i: int| 0 <= i < source.len() - 1 ==> #[trigger] source[i].spec_token() != PARAMETER_TOKEN_LIMIT
    &&& source.last().spec_token() == PARAMETER_TOKEN_LIMIT
}

proof fn lemma_tail_attributes_len(s: Seq<Parameter>)
    ensures
        spec_tail_attributes(s).len() == 4 * s.len(),
    decreases s.len(),
{
    lemma_auto_spec_u32_to_from_le_bytes();
    if s.len() > 0 {
        lemma_tail_attributes_len(s.drop_last());
    }
}

proof fn lemma_tail_attributes_word(s: Seq<Parameter>, k: int)
    requires
        0 <= k < s.len(),
    ensures
        spec_tail_attributes(s).subrange(4 * k, 4 * k + 4) == spec_u32_to_le_bytes(s[k].spec_attributes_word() as u32),
    decreases s.len(),
{
    lemma_auto_spec_u32_to_from_le_bytes();
    lemma_tail_attributes_len(s.drop_last());
    let a = spec_tail_attributes(s.drop_last());
    let w = spec_u32_to_le_bytes(s.last().spec_attributes_word() as u32);
    assert(spec_tail_attributes(s) == a + w);
    if k == s.len() - 1 {
        assert((a + w).subrange(4 * k, 4 * k + 4) =~= w);
    } else {
        lemma_tail_attributes_word(s.drop_last(), k);
        assert((a + w).subrange(4 * k, 4 * k + 4) =~= a.subrange(4 * k, 4 * k + 4));
    }
}

proof fn lemma_tail_attributes_suffix(s: Seq<Parameter>, k: int)
    requires
        0 <= k <= s.len(),
    ensures
        spec_tail_attributes(s).subrange(4 * k, 4 * s.len() as int) == spec_tail_attributes(s.subrange(k, s.len() as int)),
    decreases s.len(),
{
    lemma_auto_spec_u32_to_from_le_bytes();
    lemma_tail_attributes_len(s);
    if k == s.len() {
        assert(s.subrange(k, s.len() as int) =~= Seq::<Parameter>::empty());
        assert(spec_tail_attributes(s).subrange(4 * k, 4 * s.len() as int) =~= Seq::<u8>::empty());
    } else {
        let dl = s.drop_last();
        lemma_tail_attributes_len(dl);
        lemma_tail_attributes_suffix(dl, k);
        let a = spec_tail_attributes(dl);
        let w = spec_u32_to_le_bytes(s.last().spec_attributes_word() as u32);
        assert((a + w).subrange(4 * k, 4 * s.len() as int) =~= a.subrange(4 * k, 4 * dl.len() as int) + w);
        let t = s.subrange(k, s.len() as int);
        assert(t.drop_last() =~= dl.subrange(k, dl.len() as int));
        assert(t.last() == s.last());
    }
}

proof fn lemma_tail_values_first(s: Seq<Parameter>)
    requires
        s.len() > 0,
    ensures
        spec_tail_values(s) == spec_value_bytes(s[0].spec_value_size(), s[0].spec_value()) + spec_tail_values(
            s.subrange(1, s.len() as int),
        ),
    decreases s.len(),
{
    let dl = s.drop_last();
    if s.len() == 1 {
        assert(dl =~= Seq::<Parameter>::empty());
        assert(s.subrange(1, 1) =~= Seq::<Parameter>::empty());
        assert(spec_tail_values(dl) == Seq::<u8>::empty());
        assert(spec_tail_values(s.subrange(1, 1)) == Seq::<u8>::empty());
        assert(s.last() == s[0]);
        assert(spec_tail_values(s) =~= spec_value_bytes(s[0].spec_value_size(), s[0].spec_value()));
    } else {
        lemma_tail_values_first(dl);
        let t = s.subrange(1, s.len() as int);
        assert(t.drop_last() =~= dl.subrange(1, dl.len() as int));
        assert(t.last() == s.last());
        assert(dl[0] == s[0]);
        let first = spec_value_bytes(s[0].spec_value_size(), s[0].spec_value());
        let last = spec_value_bytes(s.last().spec_value_size(), s.last().spec_value());
        assert(spec_tail_values(s) =~= first + (spec_tail_values(dl.subrange(1, dl.len() as int)) + last));
    }
}

proof fn lemma_value_bytes(size: u16, value: u64)
    requires
        spec_is_value_size(size),
        value < spec_value_limit(size),
    ensures
        spec_value_bytes(size, value).len() == size,
        spec_le_value(spec_value_bytes(size, value)) == value,
{
    lemma_auto_spec_u16_to_from_le_bytes();
    lemma_auto_spec_u32_to_from_le_bytes();
    lemma_auto_spec_u64_to_from_le_bytes();
    if size == 1 {
        assert(seq![value as u8][0] as u64 == value);
    } else if size == 2 {
        assert((value as u16) as u64 == value);
    } else if size == 4 {
        assert((value as u32) as u64 == value);
    }
}

proof fn lemma_word_fields(time_point: u8, token: u16, size: u16)
    requires
        token < 0x2000,
        1 <= size <= 8,
    ensures
        ({
            let w = spec_pack_attributes(time_point, token, (size - 1) as u8, 0);
            &&& 0 <= w < 0x100_0000
            &&& spec_token_of_word(w as u32) == token
            &&& (w as u32) % 0x100 == time_point
            &&& spec_size_of_word(w as u32) == size
        }),
{
    let w = spec_pack_attributes(time_point, token, (size - 1) as u8, 0);
    let m = (size - 1) as int;
    assert(w == time_point + token * 0x100 + m * 0x20_0000);
    assert(0 <= w < 0x100_0000) by (nonlinear_arith)
        requires
            w == time_point + token * 0x100 + m * 0x20_0000,
            0 <= time_point < 0x100,
            0 <= token < 0x2000,
            0 <= m < 8,
    ;
    assert((w / 0x100) % 0x2000 == token && w % 0x100 == time_point && (w / 0x20_0000) % 8 == m) by (nonlinear_arith)
        requires
            w == time_point + token * 0x100 + m * 0x20_0000,
            0 <= time_point < 0x100,
            0 <= token < 0x2000,
            0 <= m < 8,
    ;
}

proof fn lemma_attributes_end_suffix(s: Seq<Parameter>, k: int)
    requires
        spec_is_readable_list(s),
        0 <= k < s.len(),
    ensures
        spec_attributes_end(spec_tail_attributes(s.subrange(k, s.len() as int)) + spec_tail_values(s)) == Some(
            4 * (s.len() - k),
        ),
    decreases s.len() - k,
{
    lemma_auto_spec_u32_to_from_le_bytes();
    let n = s.len() as int;
    let t = s.subrange(k, n);
    let keys = spec_tail_attributes(t) + spec_tail_values(s);
    lemma_tail_attributes_len(t);
    lemma_tail_attributes_word(t, 0);
    assert(t[0] == s[k]);
    assert(keys.subrange(0, 4) =~= spec_tail_attributes(t).subrange(0, 4));
    let w = s[k].spec_attributes_word();
    assert(s[k].spec_reserved_0() == 0);
    assert(spec_is_value_size(s[k].spec_value_size()));
    assert(s[k].spec_token() < 0x2000);
    lemma_word_fields(s[k].spec_time_point(), s[k].spec_token(), s[k].spec_value_size());
    assert(spec_word_at(keys) == w);
    if k == n - 1 {
        assert(s[k] == s.last());
    } else {
        assert(s[k].spec_token() != PARAMETER_TOKEN_LIMIT);
        lemma_tail_attributes_suffix(t, 1);
        assert(t.subrange(1, t.len() as int) =~= s.subrange(k + 1, n));
        assert(keys.subrange(4, keys.len() as int) =~= spec_tail_attributes(s.subrange(k + 1, n)) + spec_tail_values(s));
        lemma_attributes_end_suffix(s, k + 1);
    }
}

/// Writing a parameter list and reading it back gives the same parameters: for a list that
/// can be read back (see spec_is_readable_list), the attributes area of the written bytes
/// ends after 4 bytes per parameter, so that the value area starts right after it; and the
/// K-th read finds, in the attributes and value areas that are left after K reads, the
/// attributes and the value of the K-th parameter (the last one being the terminator), and
/// leaves the areas that the next read needs.
pub proof fn lemma_parameters_tail_roundtrip(source: Seq<Parameter>, k: int)
    requires
        spec_is_readable_list(source),
        0 <= k < source.len(),
    ensures
        spec_attributes_end(spec_tail(source)) == Some(4 * source.len() as int),
        spec_tail(source).subrange(4 * source.len() as int, spec_tail(source).len() as int) == spec_tail_values(source),
        ({
            let total = spec_tail(source).len() as int;
            let keys = spec_tail(source).subrange(4 * k, total);
            let values = spec_tail_values(source.subrange(k, source.len() as int));
            let word = spec_word_at(keys);
            let size = source[k].spec_value_size();
            &&& keys.len() >= 4
            &&& word < 0x100_0000
            &&& spec_token_of_word(word) == source[k].spec_token()
            &&& word % 0x100 == source[k].spec_time_point()
            &&& spec_size_of_word(word) == size
            &&& values.len() >= size
            &&& spec_le_value(values.subrange(0, size as int)) == source[k].spec_value()
            &&& keys.subrange(4, keys.len() as int) == spec_tail(source).subrange(4 * k + 4, total)
            &&& values.subrange(size as int, values.len() as int) == spec_tail_values(source.subrange(k + 1, source.len() as int))
        }),
{
    lemma_auto_spec_u32_to_from_le_bytes();
    let n = source.len() as int;
    let a = spec_tail_attributes(source);
    let v = spec_tail_values(source);
    lemma_tail_attributes_len(source);
    assert(source.subrange(0, n) =~= source);
    lemma_attributes_end_suffix(source, 0);
    assert((a + v).subrange(4 * n, (a + v).len() as int) =~= v);
    let total = (a + v).len() as int;
    let keys = (a + v).subrange(4 * k, total);
    lemma_tail_attributes_suffix(source, k);
    assert(keys =~= spec_tail_attributes(source.subrange(k, n)) + v);
    let t = source.subrange(k, n);
    lemma_tail_attributes_len(t);
    lemma_tail_attributes_word(t, 0);
    assert(keys.subrange(0, 4) =~= spec_tail_attributes(t).subrange(0, 4));
    assert(t[0] == source[k]);
    assert(source[k].spec_reserved_0() == 0);
    assert(spec_is_value_size(source[k].spec_value_size()));
    assert(source[k].spec_token() < 0x2000);
    assert(source[k].spec_value() < spec_value_limit(source[k].spec_value_size()));
    lemma_word_fields(source[k].spec_time_point(), source[k].spec_token(), source[k].spec_value_size());
    let size = source[k].spec_value_size();
    lemma_tail_values_first(t);
    lemma_value_bytes(size, source[k].spec_value());
    let first = spec_value_bytes(size, source[k].spec_value());
    assert(t.subrange(1, t.len() as int) =~= source.subrange(k + 1, n));
    let rest = spec_tail_values(source.subrange(k + 1, n));
    assert((first + rest).subrange(0, size as int) =~= first);
    assert((first + rest).subrange(size as int, (first + rest).len() as int) =~= rest);
    assert(keys.subrange(4, keys.len() as int) =~= (a + v).subrange(4 * k + 4, total));
}


/// The K-th read of a written parameter list finds the attributes and value areas that are
/// left after the first K parameters.
proof fn lemma_areas_after_reads(source: Seq<Parameter>, k: int)
    requires
        spec_is_readable_list(source),
        0 <= k < source.len(),
    ensures
        ({
            let b = spec_tail(source);
            let n = source.len() as int;
            spec_areas_after(b, b.subrange(4 * n, b.len() as int), k as nat) == (
                b.subrange(4 * k, b.len() as int),
                spec_tail_values(source.subrange(k, n)),
            )
        }),
    decreases k,
{
    let b = spec_tail(source);
    let n = source.len() as int;
    lemma_parameters_tail_roundtrip(source, 0);
    if k == 0 {
        assert(b.subrange(0, b.len() as int) =~= b);
        assert(source.subrange(0, n) =~= source);
    } else {
        lemma_areas_after_reads(source, k - 1);
        lemma_parameters_tail_roundtrip(source, k - 1);
        assert(source[k - 1].spec_token() != PARAMETER_TOKEN_LIMIT);
        assert(spec_is_value_size(source[k - 1].spec_value_size()));
    }
}

/// Writing a parameter list and reading it back one parameter at a time: for a list that can
/// be read back (see spec_is_readable_list), an iterator over the written bytes starts with
/// the whole bytes as its attributes area and the bytes after 4 bytes per parameter as its
/// value area; its K-th read, for every parameter K but the terminator, gives the time
/// point, token, value size and value of that parameter, and the read after them gives
/// nothing.
pub proof fn lemma_parameters_read_back(source: Seq<Parameter>)
    requires
        spec_is_readable_list(source),
    ensures
        spec_attributes_end(spec_tail(source)) == Some(4 * source.len() as int),
        ({
            let b = spec_tail(source);
            let n = source.len() as int;
            let values = b.subrange(4 * n, b.len() as int);
            &&& forall|k: int| 0 <= k < n - 1 ==> {
                let (ks, vs) = #[trigger] spec_areas_after(b, values, k as nat);
                spec_next_fields(ks, vs) == Some(
                    (
                        source[k].spec_time_point() as int,
                        source[k].spec_token() as int,
                        source[k].spec_value_size() as int,
                        source[k].spec_value(),
                    ),
                )
            }
            &&& ({
                let (ks, vs) = spec_areas_after(b, values, (n - 1) as nat);
                spec_next_fields(ks, vs) is None
            })
        }),
{
    let b = spec_tail(source);
    let n = source.len() as int;
    let values = b.subrange(4 * n, b.len() as int);
    lemma_parameters_tail_roundtrip(source, 0);
    assert forall|k: int| 0 <= k < n - 1 implies {
        let (ks, vs) = #[trigger] spec_areas_after(b, values, k as nat);
        spec_next_fields(ks, vs) == Some(
            (
                source[k].spec_time_point() as int,
                source[k].spec_token() as int,
                source[k].spec_value_size() as int,
                source[k].spec_value(),
            ),
        )
    } by {
        lemma_areas_after_reads(source, k);
        lemma_parameters_tail_roundtrip(source, k);
        assert(source[k].spec_token() != PARAMETER_TOKEN_LIMIT);
        assert(spec_is_value_size(source[k].spec_value_size()));
    }
    lemma_areas_after_reads(source, n - 1);
    lemma_parameters_tail_roundtrip(source, n - 1);
}

} // verus!
