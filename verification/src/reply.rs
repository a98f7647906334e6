//! Flexible reply buffer: one fixed-size header followed by a
//! runtime-determined number of fixed-size elements, held in one owned,
//! contiguous, zero-initialized byte region. Every typed read is bounds
//! checked against the allocated capacity, so a device that claims more
//! data than was allocated can never cause an out-of-bounds read.

use vstd::prelude::*;

use crate::layout::{
    be16, be32, descriptor_stream_identifier, header_number_of_open_streams,
    header_parameter_data_length, Descriptor, ParameterHeader,
};

verus! {

/// Size in bytes of the fixed reply header.
pub const HEADER_SIZE: usize = 8;

/// Size in bytes of one reply element.
pub const ELEMENT_SIZE: usize = 8;

/// The largest element capacity a reply buffer may be created with: the
/// allocation length field of the request descriptor is 32 bits wide, so
/// the header plus the elements must together fit in a 32-bit byte count.
pub const MAX_ELEMENT_COUNT: usize = (0xffff_ffff - 8) / 8;

/// A typed view over one contiguous byte region shaped as a fixed header
/// followed by trailing fixed-size elements. The element capacity is fixed
/// at creation; the count a device later reports may differ and is always
/// clamped to the capacity before any element is read.
#[derive(Debug)]
pub struct FlexibleStruct {
    bytes: Vec<u8>,
}

impl View for FlexibleStruct {
    type V = Seq<u8>;

    closed spec fn view(&self) -> Seq<u8> {
        self.bytes@
    }
}

/// Byte `i` of a buffer image, reading past the end as zero.
pub open spec fn padded_byte(s: Seq<u8>, i: int) -> u8 {
    if 0 <= i < s.len() {
        s[i]
    } else {
        0u8
    }
}

/// The element capacity of a buffer image: how many whole elements fit
/// after the header in the allocated region.
pub open spec fn spec_capacity_of(s: Seq<u8>) -> int {
    if s.len() >= HEADER_SIZE {
        (s.len() - HEADER_SIZE) / (ELEMENT_SIZE as int)
    } else {
        0
    }
}

impl FlexibleStruct {
    /// The element capacity of this buffer.
    pub open spec fn spec_capacity(self) -> int {
        spec_capacity_of(self@)
    }

    /// The total parameter length field of the header region.
    pub open spec fn spec_parameter_data_length(self) -> u32 {
        be32(padded_byte(self@, 0), padded_byte(self@, 1), padded_byte(self@, 2), padded_byte(self@, 3))
    }

    /// The open count field of the header region.
    pub open spec fn spec_number_of_open_streams(self) -> u16 {
        be16(padded_byte(self@, 6), padded_byte(self@, 7))
    }

    /// The stream identifier field of element `i` of a buffer image.
    pub open spec fn spec_element_identifier(self, i: int) -> u16 {
        be16(self@[HEADER_SIZE + ELEMENT_SIZE * i + 2], self@[HEADER_SIZE + ELEMENT_SIZE * i + 3])
    }

    /// The first `n` element stream identifiers of a buffer image, in their
    /// on-wire order.
    pub open spec fn spec_identifiers(self, n: int) -> Seq<u16> {
        Seq::new(n as nat, |i: int| self.spec_element_identifier(i))
    }

    /// Allocates a buffer of the given element capacity: header plus
    /// capacity times element size bytes, zero-initialized.
    pub fn with_length(length: usize) -> (r: Self)
        requires
            length <= MAX_ELEMENT_COUNT,
        ensures
            r@.len() == HEADER_SIZE + ELEMENT_SIZE * length,
            r@ == Seq::new((HEADER_SIZE + ELEMENT_SIZE * length) as nat, |i: int| 0u8),
            r.spec_capacity() == length,
    {
        let total: usize = HEADER_SIZE + ELEMENT_SIZE * length;
        let mut bytes: Vec<u8> = Vec::new();
        let mut i: usize = 0;
        while i < total
            invariant
                i <= total,
                bytes@.len() == i,
                bytes@ =~= Seq::new(i as nat, |j: int| 0u8),
            decreases total - i,
        {
            bytes.push(0u8);
            proof {
                assert(bytes@ =~= Seq::new((i + 1) as nat, |j: int| 0u8));
            }
            i = i + 1;
        }
        let r = FlexibleStruct { bytes };
        proof {
            assert(r@ =~= Seq::new((HEADER_SIZE + ELEMENT_SIZE * length) as nat, |i: int| 0u8));
            assert(r.spec_capacity() == length) by {
                vstd::arithmetic::div_mod::lemma_div_multiples_vanish(
                    length as int,
                    ELEMENT_SIZE as int,
                );
            }
        }
        r
    }

    /// The total allocated size in bytes: what the transport is told to
    /// provide or accept.
    pub fn byte_length(&self) -> (r: usize)
        ensures
            r == self@.len(),
    {
        self.bytes.len()
    }

    /// The element capacity this buffer was allocated with.
    pub fn capacity(&self) -> (r: usize)
        ensures
            r == self.spec_capacity(),
    {
        if self.bytes.len() >= HEADER_SIZE {
            (self.bytes.len() - HEADER_SIZE) / ELEMENT_SIZE
        } else {
            0
        }
    }

    /// Byte `i` of the region, reading past the end as zero.
    fn padded(&self, i: usize) -> (r: u8)
        ensures
            r == padded_byte(self@, i as int),
    {
        if i < self.bytes.len() {
            self.bytes[i]
        } else {
            0
        }
    }

    /// The first header-size bytes of the region, viewed as the header
    /// type. A region shorter than the header (which `with_length` can
    /// never produce) reads as zero-filled.
    pub fn header(&self) -> (h: ParameterHeader)
        ensures
            h@ == Seq::new(HEADER_SIZE as nat, |i: int| padded_byte(self@, i)),
            header_parameter_data_length(h@) == self.spec_parameter_data_length(),
            header_number_of_open_streams(h@) == self.spec_number_of_open_streams(),
    {
        let h = ParameterHeader::from_bytes(
            [
                self.padded(0),
                self.padded(1),
                self.padded(2),
                self.padded(3),
                self.padded(4),
                self.padded(5),
                self.padded(6),
                self.padded(7),
            ],
        );
        proof {
            assert(h@ =~= Seq::new(HEADER_SIZE as nat, |i: int| padded_byte(self@, i)));
        }
        h
    }

    /// Element `i` of the trailing region, viewed as the element type.
    /// Only indexes below the allocated capacity can be read.
    pub fn element(&self, index: usize) -> (d: Descriptor)
        requires
            index < self.spec_capacity(),
        ensures
            d@ == self@.subrange(
                HEADER_SIZE + ELEMENT_SIZE * index,
                HEADER_SIZE + ELEMENT_SIZE * index + ELEMENT_SIZE,
            ),
            descriptor_stream_identifier(d@) == self.spec_element_identifier(index as int),
    {
        let len = self.bytes.len();
        proof {
            lemma_element_in_bounds(len as int, index as int);
        }
        let base: usize = HEADER_SIZE + ELEMENT_SIZE * index;
        let d = Descriptor::from_bytes(
            [
                self.bytes[base],
                self.bytes[base + 1],
                self.bytes[base + 2],
                self.bytes[base + 3],
                self.bytes[base + 4],
                self.bytes[base + 5],
                self.bytes[base + 6],
                self.bytes[base + 7],
            ],
        );
        proof {
            assert(d@ =~= self@.subrange(
                HEADER_SIZE + ELEMENT_SIZE * index,
                HEADER_SIZE + ELEMENT_SIZE * index + ELEMENT_SIZE,
            ));
        }
        d
    }

    /// Overwrites the header region with the given header value.
    pub fn write_header(&mut self, h: &ParameterHeader)
        requires
            old(self)@.len() >= HEADER_SIZE,
        ensures
            final(self)@.len() == old(self)@.len(),
            final(self)@ == h@ + old(self)@.skip(HEADER_SIZE as int),
    {
        let src = h.to_bytes();
        let mut i: usize = 0;
        while i < HEADER_SIZE
            invariant
                i <= HEADER_SIZE,
                self@.len() == old(self)@.len() >= HEADER_SIZE,
                forall|j: int| 0 <= j < i ==> self@[j] == h@[j],
                forall|j: int| i <= j < self@.len() ==> self@[j] == old(self)@[j],
                src@ == h@,
            decreases HEADER_SIZE - i,
        {
            self.bytes[i] = src[i];
            i = i + 1;
        }
        proof {
            assert(final(self)@ =~= h@ + old(self)@.skip(HEADER_SIZE as int));
        }
    }

    /// Overwrites element `index` of the trailing region with the given
    /// element value.
    pub fn write_element(&mut self, index: usize, d: &Descriptor)
        requires
            index < old(self).spec_capacity(),
        ensures
            final(self)@.len() == old(self)@.len(),
            final(self).spec_capacity() == old(self).spec_capacity(),
            forall|j: int|
                0 <= j < old(self)@.len() && !(HEADER_SIZE + ELEMENT_SIZE * index <= j
                    < HEADER_SIZE + ELEMENT_SIZE * index + ELEMENT_SIZE) ==> final(self)@[j]
                    == old(self)@[j],
            forall|j: int|
                0 <= j < ELEMENT_SIZE ==> final(self)@[HEADER_SIZE + ELEMENT_SIZE * index + j]
                    == d@[j],
    {
        let len = self.bytes.len();
        proof {
            lemma_element_in_bounds(len as int, index as int);
        }
        let src = d.to_bytes();
        let base: usize = HEADER_SIZE + ELEMENT_SIZE * index;
        let mut i: usize = 0;
        while i < ELEMENT_SIZE
            invariant
                i <= ELEMENT_SIZE,
                self@.len() == old(self)@.len(),
                base == HEADER_SIZE + ELEMENT_SIZE * index,
                base + ELEMENT_SIZE <= self@.len(),
                forall|j: int| 0 <= j < i ==> self@[base + j] == d@[j],
                forall|j: int|
                    0 <= j < self@.len() && !(base <= j < base + i) ==> self@[j] == old(self)@[j],
                src@ == d@,
            decreases ELEMENT_SIZE - i,
        {
            self.bytes[base + i] = src[i];
            i = i + 1;
        }
    }
}

/// Element `index` lies wholly inside a region of `len` bytes whenever
/// `index` is below the region's capacity.
proof fn lemma_element_in_bounds(len: int, index: int)
    requires
        0 <= index,
        len >= HEADER_SIZE,
        index < (len - HEADER_SIZE) / (ELEMENT_SIZE as int),
    ensures
        HEADER_SIZE + ELEMENT_SIZE * index + ELEMENT_SIZE <= len,
{
    assert(index + 1 <= (len - HEADER_SIZE) / (ELEMENT_SIZE as int));
    assert(ELEMENT_SIZE * (index + 1) <= ELEMENT_SIZE * ((len - HEADER_SIZE) / (
    ELEMENT_SIZE as int))) by (nonlinear_arith)
        requires
            index + 1 <= (len - HEADER_SIZE) / (ELEMENT_SIZE as int),
    ;
    vstd::arithmetic::div_mod::lemma_fundamental_div_mod(len - HEADER_SIZE, ELEMENT_SIZE as int);
    vstd::arithmetic::div_mod::lemma_mod_bound(len - HEADER_SIZE, ELEMENT_SIZE as int);
}

} // verus!
