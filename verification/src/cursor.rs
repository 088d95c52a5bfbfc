//! A bit-precise cursor over a byte buffer.
//!
//! Tag payloads pack their fields most-significant bit first, without regard
//! for byte boundaries. [`BitCursor`] reads such fields one after another.
//! The bits are fetched by the `bitreader` crate; what a read returns is
//! stated here over [`bits_value`].

use crate::error::ParseError;
use bitreader::BitReader;
use bitreader::BitReaderError;
use vstd::arithmetic::power2::{
    lemma2_to64, lemma_pow2_strictly_increases, lemma_pow2_unfold, pow2,
};
use vstd::prelude::*;
use vstd::slice::slice_subrange;

verus! {

/// The largest buffer, in bytes, that a cursor can be made for: its length in
/// bits, and any position up to 64 bits behind it, must fit in a `u64`.
pub const MAX_BYTES: u64 = 0x0FFF_FFFF_FFFF_FFFF;

/// Bit `index` of `data`, where bit 0 is the most significant bit of byte 0.
pub open spec fn bit_at(data: Seq<u8>, index: int) -> nat
    recommends
        0 <= index < 8 * data.len(),
{
    ((data[index / 8] >> ((7 - index % 8) as u8)) & 1) as nat
}

/// The unsigned integer that the `count` bits of `data` from bit `start` on
/// spell, most significant bit first.
pub open spec fn bits_value(data: Seq<u8>, start: int, count: nat) -> nat
    recommends
        0 <= start,
        start + count <= 8 * data.len(),
    decreases count,
{
    if count == 0 {
        0
    } else {
        2 * bits_value(data, start, (count - 1) as nat) + bit_at(data, start + count - 1)
    }
}

/// A bit is 0 or 1.
pub proof fn lemma_bit_at_bound(data: Seq<u8>, index: int)
    requires
        0 <= index,
    ensures
        bit_at(data, index) <= 1,
{
    let byte = data[index / 8];
    let shift = (7 - index % 8) as u8;
    assert((byte >> shift) & 1 <= 1) by (bit_vector);
}

/// `count` bits spell a number below 2 to the power `count`.
pub proof fn lemma_bits_value_bound(data: Seq<u8>, start: int, count: nat)
    requires
        0 <= start,
    ensures
        bits_value(data, start, count) < pow2(count),
    decreases count,
{
    if count == 0 {
        lemma2_to64();
    } else {
        lemma_bits_value_bound(data, start, (count - 1) as nat);
        lemma_bit_at_bound(data, start + count - 1);
        lemma_pow2_unfold(count);
    }
}

/// `bitreader::BitReader`, the reader that fetches the bits. Nothing is known
/// of what is inside one but what [`reader_bytes`] and [`reader_position`]
/// name.
#[verifier::external_type_specification]
#[verifier::external_body]
pub struct ExBitReader<'a>(BitReader<'a>);

/// `bitreader::BitReaderError`, the error that a read of the reader returns.
/// It is mapped to [`ParseError`] and not looked into.
#[verifier::external_type_specification]
#[verifier::external_body]
pub struct ExBitReaderError(BitReaderError);

/// The bytes that a reader walks over. This crate makes its readers with
/// `BitReader::new` only, so that a reader's bytes are the whole slice it was
/// made for.
pub uninterp spec fn reader_bytes(reader: BitReader) -> Seq<u8>;

/// The number of bits that a reader has consumed, counted from the start of
/// its bytes.
pub uninterp spec fn reader_position(reader: BitReader) -> nat;

/// `BitReader::new`: the reader walks over `bytes` and has consumed nothing.
/// The crate computes the length in bits as a `u64`, hence the limit.
#[verifier::external_body]
fn reader_new<'a>(bytes: &'a [u8]) -> (reader: BitReader<'a>)
    requires
        bytes@.len() <= MAX_BYTES,
    ensures
        reader_bytes(reader) == bytes@,
        reader_position(reader) == 0,
{
    BitReader::new(bytes)
}

/// `BitReader::remaining`: the number of bits not yet consumed.
#[verifier::external_body]
fn reader_remaining(reader: &BitReader) -> (left: u64)
    requires
        reader_bytes(*reader).len() <= MAX_BYTES,
        reader_position(*reader) <= 8 * reader_bytes(*reader).len(),
    ensures
        left == 8 * reader_bytes(*reader).len() - reader_position(*reader),
{
    reader.remaining()
}

/// `BitReader::read_u64`: where `bit_count` is at most 64 and that many bits
/// are left, the call consumes them and returns the number they spell, most
/// significant bit first (0 for a count of 0). Otherwise it fails and
/// consumes nothing. The bytes stay the same either way. Within the limit on
/// the buffer's length the call does not panic.
#[verifier::external_body]
fn reader_read_u64(reader: &mut BitReader, bit_count: u8) -> (res: Result<u64, BitReaderError>)
    requires
        reader_bytes(*old(reader)).len() <= MAX_BYTES,
        reader_position(*old(reader)) <= 8 * reader_bytes(*old(reader)).len(),
    ensures
        reader_bytes(*final(reader)) == reader_bytes(*old(reader)),
        res is Ok <==> bit_count <= 64 && reader_position(*old(reader)) + bit_count <= 8
            * reader_bytes(*old(reader)).len(),
        res matches Ok(value) ==> value == bits_value(
            reader_bytes(*old(reader)),
            reader_position(*old(reader)) as int,
            bit_count as nat,
        ) && reader_position(*final(reader)) == reader_position(*old(reader)) + bit_count,
        res is Err ==> reader_position(*final(reader)) == reader_position(*old(reader)),
    no_unwind
{
    reader.read_u64(bit_count)
}

/// A larger exponent gives no smaller power of two.
pub proof fn lemma_pow2_increases(low: nat, high: nat)
    requires
        low <= high,
    ensures
        pow2(low) <= pow2(high),
{
    if low < high {
        lemma_pow2_strictly_increases(low, high);
    }
}

/// The first `count` bytes of `data`, or all of `data` where it has no more.
pub open spec fn front_spec(data: Seq<u8>, count: nat) -> Seq<u8> {
    if data.len() <= count {
        data
    } else {
        data.take(count as int)
    }
}

/// Bits that lie within the first `count` bytes are the same in the whole
/// buffer and in its front.
pub proof fn lemma_bits_value_of_front(data: Seq<u8>, count: nat, start: int, bits: nat)
    requires
        0 <= start,
        start + bits <= 8 * count,
    ensures
        bits_value(front_spec(data, count), start, bits) == bits_value(data, start, bits),
    decreases bits,
{
    if bits > 0 {
        lemma_bits_value_of_front(data, count, start, (bits - 1) as nat);
        let index = start + bits - 1;
        assert(0 <= index / 8 < count);
        assert(front_spec(data, count)[index / 8] == data[index / 8]);
    }
}

/// The first `count` bytes of `data`, or all of `data` where it has no more.
pub fn front(data: &[u8], count: usize) -> (head: &[u8])
    ensures
        head@ == front_spec(data@, count as nat),
{
    if data.len() <= count {
        data
    } else {
        slice_subrange(data, 0, count)
    }
}

/// A cursor that reads unsigned integers and single bits from a byte buffer,
/// front to back.
pub struct BitCursor<'a> {
    reader: BitReader<'a>,
}

impl<'a> BitCursor<'a> {
    /// The buffer that the cursor reads from.
    pub closed spec fn data(&self) -> Seq<u8> {
        reader_bytes(self.reader)
    }

    /// The number of bits read so far.
    pub closed spec fn position(&self) -> nat {
        reader_position(self.reader)
    }

    /// The number of bits not yet read.
    pub open spec fn bits_left(&self) -> int {
        8 * self.data().len() - self.position()
    }

    /// The cursor stands inside its buffer, and the buffer is not too large.
    #[verifier::type_invariant]
    pub closed spec fn inv(&self) -> bool {
        &&& self.data().len() <= MAX_BYTES
        &&& self.position() <= 8 * self.data().len()
    }

    /// A cursor at the first bit of `data`.
    pub fn new(data: &'a [u8]) -> (cursor: Self)
        requires
            data@.len() <= MAX_BYTES,
        ensures
            cursor.data() == data@,
            cursor.position() == 0,
    {
        BitCursor { reader: reader_new(data) }
    }

    /// The number of bits not yet read.
    pub fn remaining(&self) -> (left: u64)
        ensures
            left == self.bits_left(),
    {
        proof {
            use_type_invariant(self);
        }
        reader_remaining(&self.reader)
    }

    /// Reads the next `count` bits as an unsigned integer, most significant
    /// bit first. Fails, without moving, where `count` is above 64 or more
    /// than the bits that are left.
    pub fn read_uint(&mut self, count: u8) -> (res: Result<u64, ParseError>)
        ensures
            final(self).data() == old(self).data(),
            res is Ok <==> count <= 64 && count <= old(self).bits_left(),
            res matches Ok(value) ==> value == bits_value(
                old(self).data(),
                old(self).position() as int,
                count as nat,
            ) && final(self).position() == old(self).position() + count,
            res is Err ==> final(self).position() == old(self).position(),
    {
        proof {
            use_type_invariant(&*self);
        }
        match reader_read_u64(&mut self.reader, count) {
            Ok(value) => Ok(value),
            Err(_) => Err(ParseError()),
        }
    }

    /// Reads the next `count` bits, at most 8 of them, as a `u8`.
    pub fn read_u8(&mut self, count: u8) -> (res: Result<u8, ParseError>)
        ensures
            final(self).data() == old(self).data(),
            res is Ok <==> count <= 8 && count <= old(self).bits_left(),
            res matches Ok(value) ==> value == bits_value(
                old(self).data(),
                old(self).position() as int,
                count as nat,
            ) && final(self).position() == old(self).position() + count,
            res is Err ==> final(self).position() == old(self).position(),
    {
        if count > 8 {
            return Err(ParseError());
        }
        proof {
            lemma_bits_value_bound(self.data(), self.position() as int, count as nat);
            lemma_pow2_increases(count as nat, 8);
            lemma2_to64();
        }
        let value = self.read_uint(count)?;
        Ok(value as u8)
    }

    /// Reads the next `count` bits, at most 16 of them, as a `u16`.
    pub fn read_u16(&mut self, count: u8) -> (res: Result<u16, ParseError>)
        ensures
            final(self).data() == old(self).data(),
            res is Ok <==> count <= 16 && count <= old(self).bits_left(),
            res matches Ok(value) ==> value == bits_value(
                old(self).data(),
                old(self).position() as int,
                count as nat,
            ) && final(self).position() == old(self).position() + count,
            res is Err ==> final(self).position() == old(self).position(),
    {
        if count > 16 {
            return Err(ParseError());
        }
        proof {
            lemma_bits_value_bound(self.data(), self.position() as int, count as nat);
            lemma_pow2_increases(count as nat, 16);
            lemma2_to64();
        }
        let value = self.read_uint(count)?;
        Ok(value as u16)
    }

    /// Reads the next `count` bits, at most 32 of them, as a `u32`.
    pub fn read_u32(&mut self, count: u8) -> (res: Result<u32, ParseError>)
        ensures
            final(self).data() == old(self).data(),
            res is Ok <==> count <= 32 && count <= old(self).bits_left(),
            res matches Ok(value) ==> value == bits_value(
                old(self).data(),
                old(self).position() as int,
                count as nat,
            ) && final(self).position() == old(self).position() + count,
            res is Err ==> final(self).position() == old(self).position(),
    {
        if count > 32 {
            return Err(ParseError());
        }
        proof {
            lemma_bits_value_bound(self.data(), self.position() as int, count as nat);
            lemma_pow2_increases(count as nat, 32);
            lemma2_to64();
        }
        let value = self.read_uint(count)?;
        Ok(value as u32)
    }

    /// Reads the next bit: `true` where it is set.
    pub fn read_bool(&mut self) -> (res: Result<bool, ParseError>)
        ensures
            final(self).data() == old(self).data(),
            res is Ok <==> 1 <= old(self).bits_left(),
            res matches Ok(bit) ==> bit == (bits_value(
                old(self).data(),
                old(self).position() as int,
                1,
            ) != 0) && final(self).position() == old(self).position() + 1,
            res is Err ==> final(self).position() == old(self).position(),
    {
        let value = self.read_uint(1)?;
        Ok(value != 0)
    }
}

} // verus!
