//! Fixed layout codec: big-endian, bit-packed structures with a
//! standard-mandated byte order, packed most-significant-bit first.

use vstd::prelude::*;

verus! {

/// Value of a 16-bit field stored big-endian in two bytes.
pub open spec fn be16(b0: u8, b1: u8) -> u16 {
    ((b0 as u16) << 8u16) | (b1 as u16)
}

/// High byte of a 16-bit field stored big-endian.
pub open spec fn be16_hi(v: u16) -> u8 {
    (v >> 8u16) as u8
}

/// Low byte of a 16-bit field stored big-endian.
pub open spec fn be16_lo(v: u16) -> u8 {
    (v & 0xffu16) as u8
}

/// Value of a 32-bit field stored big-endian in four bytes.
pub open spec fn be32(b0: u8, b1: u8, b2: u8, b3: u8) -> u32 {
    ((b0 as u32) << 24u32) | ((b1 as u32) << 16u32) | ((b2 as u32) << 8u32) | (b3 as u32)
}

/// Byte `i` (0 = most significant) of a 32-bit field stored big-endian.
pub open spec fn be32_byte(v: u32, i: int) -> u8 {
    if i == 0 {
        (v >> 24u32) as u8
    } else if i == 1 {
        ((v >> 16u32) & 0xffu32) as u8
    } else if i == 2 {
        ((v >> 8u32) & 0xffu32) as u8
    } else {
        (v & 0xffu32) as u8
    }
}

/// Storing a 16-bit value big-endian and reading it back is the identity.
pub proof fn lemma_be16_round_trip(v: u16)
    ensures
        be16(be16_hi(v), be16_lo(v)) == v,
{
    assert(((((v >> 8u16) as u8) as u16) << 8u16) | (((v & 0xffu16) as u8) as u16) == v)
        by (bit_vector);
}

/// Storing a 32-bit value big-endian and reading it back is the identity.
pub proof fn lemma_be32_round_trip(v: u32)
    ensures
        be32(be32_byte(v, 0), be32_byte(v, 1), be32_byte(v, 2), be32_byte(v, 3)) == v,
{
    assert((((v >> 24u32) as u8 as u32) << 24u32) | ((((v >> 16u32) & 0xffu32) as u8 as u32)
        << 16u32) | ((((v >> 8u32) & 0xffu32) as u8 as u32) << 8u32) | ((v & 0xffu32) as u8 as u32)
        == v) by (bit_vector);
}

/// The named fields of the request descriptor, as plain values. The
/// reserved regions of the layout carry no field: they are always zero.
pub struct RequestFields {
    pub operation_code: u8,
    pub service_action: u8,
    pub starting_stream_identifier: u16,
    pub allocation_length: u32,
    pub control: u8,
}

impl RequestFields {
    /// Every field value fits the bit width of its slot; only the
    /// service action is narrower than a whole number of bytes (5 bits).
    pub open spec fn valid(self) -> bool {
        self.service_action < 32
    }
}

/// The 16-byte wire image of a request descriptor holding the given fields:
/// [op:8][reserved:3][service action:5][reserved:16][starting index:16]
/// [reserved:32][allocation length:32][reserved:8][control:8],
/// multi-byte fields big-endian, every reserved bit zero.
pub open spec fn request_bytes(f: RequestFields) -> Seq<u8> {
    seq![
        f.operation_code,
        f.service_action,
        0u8,
        0u8,
        be16_hi(f.starting_stream_identifier),
        be16_lo(f.starting_stream_identifier),
        0u8,
        0u8,
        0u8,
        0u8,
        be32_byte(f.allocation_length, 0),
        be32_byte(f.allocation_length, 1),
        be32_byte(f.allocation_length, 2),
        be32_byte(f.allocation_length, 3),
        0u8,
        f.control,
    ]
}

/// The fields read back out of a 16-byte request descriptor image.
pub open spec fn request_fields_of(s: Seq<u8>) -> RequestFields {
    RequestFields {
        operation_code: s[0],
        service_action: s[1] & 0x1fu8,
        starting_stream_identifier: be16(s[4], s[5]),
        allocation_length: be32(s[10], s[11], s[12], s[13]),
        control: s[15],
    }
}

/// Decoding an encoded request descriptor returns the original field
/// values, for every input that respects the declared field widths.
pub proof fn lemma_request_round_trip(f: RequestFields)
    requires
        f.valid(),
    ensures
        request_fields_of(request_bytes(f)) == f,
{
    let s = request_bytes(f);
    let b1: u8 = s[1];
    assert(b1 & 0x1fu8 == b1) by (bit_vector)
        requires
            b1 < 32,
    ;
    lemma_be16_round_trip(f.starting_stream_identifier);
    lemma_be32_round_trip(f.allocation_length);
    assert(request_fields_of(s) == f);
}

/// The fixed-size outbound command block: a 16-byte, bit-packed,
/// big-endian request descriptor held in place, with typed accessors.
#[derive(Clone, Copy, Debug)]
pub struct CommandBuffer {
    bytes: [u8; 16],
}

impl View for CommandBuffer {
    type V = Seq<u8>;

    closed spec fn view(&self) -> Seq<u8> {
        self.bytes@
    }
}

impl CommandBuffer {
    /// The named fields this descriptor currently encodes.
    pub open spec fn fields(self) -> RequestFields {
        request_fields_of(self@)
    }

    /// The descriptor is canonical: it is exactly the encoding of its own
    /// fields, so in particular every reserved bit is zero.
    pub open spec fn wf(self) -> bool {
        self@ == request_bytes(self.fields())
    }

    /// A descriptor with every bit zero.
    pub fn new() -> (r: Self)
        ensures
            r.wf(),
            r.fields() == (RequestFields {
                operation_code: 0,
                service_action: 0,
                starting_stream_identifier: 0,
                allocation_length: 0,
                control: 0,
            }),
    {
        let r = CommandBuffer { bytes: [0u8; 16] };
        proof {
            assert(0u8 & 0x1fu8 == 0u8) by (bit_vector);
            assert(be16(0, 0) == 0 && be16_hi(0) == 0 && be16_lo(0) == 0) by (bit_vector);
            assert(be32(0, 0, 0, 0) == 0) by (bit_vector);
            assert(be32_byte(0, 0) == 0 && be32_byte(0, 1) == 0 && be32_byte(0, 2) == 0
                && be32_byte(0, 3) == 0) by (bit_vector);
            assert(r@ =~= request_bytes(r.fields()));
        }
        r
    }

    /// The descriptor with the operation code field replaced.
    pub fn with_operation_code(self, value: u8) -> (r: Self)
        ensures
            r@ == self@.update(0, value),
            r.fields() == (RequestFields { operation_code: value, ..self.fields() }),
            self.wf() ==> r.wf(),
    {
        let mut r = self;
        r.bytes[0] = value;
        proof {
            assert(r@ =~= self@.update(0, value));
            if self.wf() {
                assert(r@ =~= request_bytes(r.fields()));
            }
        }
        r
    }

    /// The descriptor with the 5-bit service action field replaced. A value
    /// wider than the field is rejected up front, never silently truncated.
    pub fn with_service_action(self, value: u8) -> (r: Self)
        requires
            value < 32,
        ensures
            r@ == self@.update(1, value),
            r.fields() == (RequestFields { service_action: value, ..self.fields() }),
            self.wf() ==> r.wf(),
    {
        let mut r = self;
        r.bytes[1] = value;
        proof {
            assert(value & 0x1fu8 == value) by (bit_vector)
                requires
                    value < 32,
            ;
            assert(r@ =~= self@.update(1, value));
            if self.wf() {
                assert(r@ =~= request_bytes(r.fields()));
            }
        }
        r
    }

    /// The descriptor with the 16-bit starting stream identifier replaced.
    pub fn with_starting_stream_identifier(self, value: u16) -> (r: Self)
        ensures
            r@ == self@.update(4, be16_hi(value)).update(5, be16_lo(value)),
            r.fields() == (RequestFields { starting_stream_identifier: value, ..self.fields() }),
            self.wf() ==> r.wf(),
    {
        let mut r = self;
        r.bytes[4] = (value >> 8u16) as u8;
        r.bytes[5] = (value & 0xffu16) as u8;
        proof {
            lemma_be16_round_trip(value);
            assert(r@ =~= self@.update(4, be16_hi(value)).update(5, be16_lo(value)));
            if self.wf() {
                assert(r@ =~= request_bytes(r.fields()));
            }
        }
        r
    }

    /// Replaces the 16-bit starting stream identifier in place.
    pub fn set_starting_stream_identifier(&mut self, value: u16)
        ensures
            final(self)@ == old(self)@.update(4, be16_hi(value)).update(5, be16_lo(value)),
            final(self).fields() == (RequestFields {
                starting_stream_identifier: value,
                ..old(self).fields()
            }),
            old(self).wf() ==> final(self).wf(),
    {
        *self = self.with_starting_stream_identifier(value);
    }

    /// The descriptor with the 32-bit allocation length field replaced.
    pub fn with_allocation_length(self, value: u32) -> (r: Self)
        ensures
            r@ == self@.update(10, be32_byte(value, 0)).update(11, be32_byte(value, 1)).update(
                12,
                be32_byte(value, 2),
            ).update(13, be32_byte(value, 3)),
            r.fields() == (RequestFields { allocation_length: value, ..self.fields() }),
            self.wf() ==> r.wf(),
    {
        let mut r = self;
        r.bytes[10] = (value >> 24u32) as u8;
        r.bytes[11] = ((value >> 16u32) & 0xffu32) as u8;
        r.bytes[12] = ((value >> 8u32) & 0xffu32) as u8;
        r.bytes[13] = (value & 0xffu32) as u8;
        proof {
            lemma_be32_round_trip(value);
            assert(r@ =~= self@.update(10, be32_byte(value, 0)).update(11, be32_byte(value, 1))
                .update(12, be32_byte(value, 2)).update(13, be32_byte(value, 3)));
            if self.wf() {
                assert(r@ =~= request_bytes(r.fields()));
            }
        }
        r
    }

    /// Replaces the 8-bit control byte in place.
    pub fn set_control(&mut self, value: u8)
        ensures
            final(self)@ == old(self)@.update(15, value),
            final(self).fields() == (RequestFields { control: value, ..old(self).fields() }),
            old(self).wf() ==> final(self).wf(),
    {
        self.bytes[15] = value;
        proof {
            assert(final(self)@ =~= old(self)@.update(15, value));
            if old(self).wf() {
                assert(final(self)@ =~= request_bytes(final(self).fields()));
            }
        }
    }

    /// Reads the operation code field.
    pub fn operation_code(&self) -> (r: u8)
        ensures
            r == self.fields().operation_code,
    {
        self.bytes[0]
    }

    /// Reads the 5-bit service action field.
    pub fn service_action(&self) -> (r: u8)
        ensures
            r == self.fields().service_action,
    {
        self.bytes[1] & 0x1f
    }

    /// Reads the 16-bit starting stream identifier field.
    pub fn starting_stream_identifier(&self) -> (r: u16)
        ensures
            r == self.fields().starting_stream_identifier,
    {
        ((self.bytes[4] as u16) << 8u16) | (self.bytes[5] as u16)
    }

    /// Reads the 32-bit allocation length field.
    pub fn allocation_length(&self) -> (r: u32)
        ensures
            r == self.fields().allocation_length,
    {
        ((self.bytes[10] as u32) << 24u32) | ((self.bytes[11] as u32) << 16u32) | ((self.bytes[12]
            as u32) << 8u32) | (self.bytes[13] as u32)
    }

    /// Reads the control byte.
    pub fn control(&self) -> (r: u8)
        ensures
            r == self.fields().control,
    {
        self.bytes[15]
    }

    /// The serialized form: exactly the 16 bytes of the descriptor.
    pub fn to_bytes(&self) -> (r: [u8; 16])
        ensures
            r@ == self@,
    {
        self.bytes
    }

    /// The descriptor whose wire image is the given 16 bytes.
    pub fn from_bytes(bytes: [u8; 16]) -> (r: Self)
        ensures
            r@ == bytes@,
    {
        CommandBuffer { bytes }
    }
}

/// A canonical request descriptor's wire image decodes back to exactly
/// its own fields, is exactly 16 bytes, and carries zero in every
/// reserved bit: the two reserved bytes after the service action, the
/// four before the allocation length, the one before the control byte,
/// and the three high bits of the service action byte.
pub proof fn lemma_canonical_request_decodes(cb: CommandBuffer)
    requires
        cb.wf(),
    ensures
        request_fields_of(cb@) == cb.fields(),
        cb@.len() == 16,
        cb@[2] == 0 && cb@[3] == 0,
        cb@[6] == 0 && cb@[7] == 0 && cb@[8] == 0 && cb@[9] == 0,
        cb@[14] == 0,
        cb@[1] < 32,
{
    let b1: u8 = cb@[1];
    assert(b1 & 0x1fu8 < 32) by (bit_vector);
}

/// The fixed 8-byte prefix of every reply buffer:
/// [total parameter length:32][reserved:16][open count:16], big-endian.
/// It is always present, even when zero elements follow.
#[derive(Clone, Copy, Debug)]
pub struct ParameterHeader {
    bytes: [u8; 8],
}

impl View for ParameterHeader {
    type V = Seq<u8>;

    closed spec fn view(&self) -> Seq<u8> {
        self.bytes@
    }
}

/// The 32-bit total parameter length read out of a reply header image.
pub open spec fn header_parameter_data_length(s: Seq<u8>) -> u32 {
    be32(s[0], s[1], s[2], s[3])
}

/// The 16-bit open count read out of a reply header image.
pub open spec fn header_number_of_open_streams(s: Seq<u8>) -> u16 {
    be16(s[6], s[7])
}

impl ParameterHeader {
    /// A header with every bit zero.
    pub fn new() -> (r: Self)
        ensures
            r@ == Seq::new(8, |i: int| 0u8),
    {
        let r = ParameterHeader { bytes: [0u8; 8] };
        proof {
            assert(r@ =~= Seq::new(8, |i: int| 0u8));
        }
        r
    }

    /// The header with the 32-bit total parameter length field replaced.
    pub fn with_parameter_data_length(self, value: u32) -> (r: Self)
        ensures
            r@ == self@.update(0, be32_byte(value, 0)).update(1, be32_byte(value, 1)).update(
                2,
                be32_byte(value, 2),
            ).update(3, be32_byte(value, 3)),
            header_parameter_data_length(r@) == value,
            header_number_of_open_streams(r@) == header_number_of_open_streams(self@),
    {
        let mut r = self;
        r.bytes[0] = (value >> 24u32) as u8;
        r.bytes[1] = ((value >> 16u32) & 0xffu32) as u8;
        r.bytes[2] = ((value >> 8u32) & 0xffu32) as u8;
        r.bytes[3] = (value & 0xffu32) as u8;
        proof {
            lemma_be32_round_trip(value);
            assert(r@ =~= self@.update(0, be32_byte(value, 0)).update(1, be32_byte(value, 1))
                .update(2, be32_byte(value, 2)).update(3, be32_byte(value, 3)));
        }
        r
    }

    /// The header with the 16-bit open count field replaced.
    pub fn with_number_of_open_streams(self, value: u16) -> (r: Self)
        ensures
            r@ == self@.update(6, be16_hi(value)).update(7, be16_lo(value)),
            header_number_of_open_streams(r@) == value,
            header_parameter_data_length(r@) == header_parameter_data_length(self@),
    {
        let mut r = self;
        r.bytes[6] = (value >> 8u16) as u8;
        r.bytes[7] = (value & 0xffu16) as u8;
        proof {
            lemma_be16_round_trip(value);
            assert(r@ =~= self@.update(6, be16_hi(value)).update(7, be16_lo(value)));
        }
        r
    }

    /// Reads the 32-bit total parameter length field.
    pub fn parameter_data_length(&self) -> (r: u32)
        ensures
            r == header_parameter_data_length(self@),
    {
        ((self.bytes[0] as u32) << 24u32) | ((self.bytes[1] as u32) << 16u32) | ((self.bytes[2]
            as u32) << 8u32) | (self.bytes[3] as u32)
    }

    /// Reads the 16-bit open count field.
    pub fn number_of_open_streams(&self) -> (r: u16)
        ensures
            r == header_number_of_open_streams(self@),
    {
        ((self.bytes[6] as u16) << 8u16) | (self.bytes[7] as u16)
    }

    /// The serialized form: exactly the 8 bytes of the header.
    pub fn to_bytes(&self) -> (r: [u8; 8])
        ensures
            r@ == self@,
    {
        self.bytes
    }

    /// The header whose wire image is the given 8 bytes.
    pub fn from_bytes(bytes: [u8; 8]) -> (r: Self)
        ensures
            r@ == bytes@,
    {
        ParameterHeader { bytes }
    }
}

/// One fixed-size record of the reply's variable tail:
/// [reserved:16][stream identifier:16][reserved:32], big-endian.
#[derive(Clone, Copy, Debug)]
pub struct Descriptor {
    bytes: [u8; 8],
}

impl View for Descriptor {
    type V = Seq<u8>;

    closed spec fn view(&self) -> Seq<u8> {
        self.bytes@
    }
}

/// The 16-bit stream identifier read out of a reply element image.
pub open spec fn descriptor_stream_identifier(s: Seq<u8>) -> u16 {
    be16(s[2], s[3])
}

impl Descriptor {
    /// An element with every bit zero.
    pub fn new() -> (r: Self)
        ensures
            r@ == Seq::new(8, |i: int| 0u8),
    {
        let r = Descriptor { bytes: [0u8; 8] };
        proof {
            assert(r@ =~= Seq::new(8, |i: int| 0u8));
        }
        r
    }

    /// The element with the 16-bit stream identifier field replaced.
    pub fn with_stream_identifier(self, value: u16) -> (r: Self)
        ensures
            r@ == self@.update(2, be16_hi(value)).update(3, be16_lo(value)),
            descriptor_stream_identifier(r@) == value,
    {
        let mut r = self;
        r.bytes[2] = (value >> 8u16) as u8;
        r.bytes[3] = (value & 0xffu16) as u8;
        proof {
            lemma_be16_round_trip(value);
            assert(r@ =~= self@.update(2, be16_hi(value)).update(3, be16_lo(value)));
        }
        r
    }

    /// Reads the 16-bit stream identifier field.
    pub fn stream_identifier(&self) -> (r: u16)
        ensures
            r == descriptor_stream_identifier(self@),
    {
        ((self.bytes[2] as u16) << 8u16) | (self.bytes[3] as u16)
    }

    /// The serialized form: exactly the 8 bytes of the element.
    pub fn to_bytes(&self) -> (r: [u8; 8])
        ensures
            r@ == self@,
    {
        self.bytes
    }

    /// The element whose wire image is the given 8 bytes.
    pub fn from_bytes(bytes: [u8; 8]) -> (r: Self)
        ensures
            r@ == bytes@,
    {
        Descriptor { bytes }
    }
}

/// Layout sizes are exact for every value of these types: the request
/// descriptor serializes to 16 bytes, the reply header and each reply
/// element to 8 bytes.
pub proof fn lemma_layout_sizes()
    ensures
        forall|c: CommandBuffer| (#[trigger] c@).len() == 16,
        forall|h: ParameterHeader| (#[trigger] h@).len() == 8,
        forall|d: Descriptor| (#[trigger] d@).len() == 8,
{
}

} // verus!
