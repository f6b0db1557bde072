//! Typed reads. Every read is total: where the memory cannot be read, the value is
//! the type's zero.

use crate::memory::{
    advance, advance_spec, bytes_at, lemma_advance_zero, readable, MemorySource,
};
use crate::text::{display_form, push_char, to_display_form};
use vstd::prelude::*;

verus! {

/// The longest text that is read from memory, in bytes.
pub const MAX_STRING_LENGTH: usize = 256;

/// The `len` bytes of the field at `offset` from `address`, if all can be read.
pub open spec fn field(
    memory: Map<int, u8>,
    address: u64,
    offset: u64,
    len: int,
) -> Option<Seq<u8>> {
    let at = advance_spec(address, offset as int);
    if readable(memory, at as int, len) {
        Some(bytes_at(memory, at as int, len))
    } else {
        None
    }
}

/// The number that four bytes spell, lowest byte first.
pub open spec fn le32(bytes: Seq<u8>) -> int {
    bytes[0] + 0x100 * bytes[1] + 0x1_0000 * bytes[2] + 0x100_0000 * bytes[3]
}

/// The number that eight bytes spell, lowest byte first.
pub open spec fn le64(bytes: Seq<u8>) -> int {
    le32(bytes.subrange(0, 4)) + 0x1_0000_0000 * le32(bytes.subrange(4, 8))
}

/// A 32-bit pattern read as a number in two's complement.
pub open spec fn signed32(pattern: int) -> int {
    if pattern < 0x8000_0000 {
        pattern
    } else {
        pattern - 0x1_0000_0000
    }
}

/// The byte at `offset` from `address`, or 0.
pub open spec fn byte_at(memory: Map<int, u8>, address: u64, offset: u64) -> u8 {
    match field(memory, address, offset, 1) {
        Some(bytes) => bytes[0],
        None => 0,
    }
}

/// The 32-bit pattern at `offset` from `address`, or 0. This is how a
/// single-precision number is read: as the bits that stand for it.
pub open spec fn word_at(memory: Map<int, u8>, address: u64, offset: u64) -> u32 {
    match field(memory, address, offset, 4) {
        Some(bytes) => le32(bytes) as u32,
        None => 0,
    }
}

/// The signed 32-bit number at `offset` from `address`, or 0.
pub open spec fn int_at(memory: Map<int, u8>, address: u64, offset: u64) -> i32 {
    signed32(word_at(memory, address, offset) as int) as i32
}

/// The pointer-sized word at `offset` from `address`, or 0.
pub open spec fn pointer_at(memory: Map<int, u8>, address: u64, offset: u64) -> u64 {
    match field(memory, address, offset, 8) {
        Some(bytes) => le64(bytes) as u64,
        None => 0,
    }
}

/// The bytes of the text that starts at `start`: those before the first byte that is
/// zero or cannot be read, and no more than `limit` of them.
pub open spec fn text_bytes(memory: Map<int, u8>, start: u64, limit: nat) -> Seq<u8>
    decreases limit,
{
    if limit == 0 || byte_at(memory, start, 0) == 0 {
        Seq::empty()
    } else {
        seq![byte_at(memory, start, 0)] + text_bytes(
            memory,
            advance_spec(start, 1),
            (limit - 1) as nat,
        )
    }
}

/// The text that starts at `start`, each byte taken as the character of that number.
pub open spec fn text_at(memory: Map<int, u8>, start: u64) -> Seq<char> {
    text_bytes(memory, start, MAX_STRING_LENGTH as nat).map_values(|b: u8| b as char)
}

/// The `len` bytes of the field at `offset` from `address`, or nothing unless all
/// of them can be read.
pub fn read_mem<M: MemorySource>(
    memory: &M,
    address: u64,
    offset: u64,
    len: usize,
) -> (data: Option<Vec<u8>>)
    ensures
        data is Some <==> field(memory.bytes(), address, offset, len as int) is Some,
        data is Some ==> data->0@ == field(memory.bytes(), address, offset, len as int)->0,
{
    memory.read_bytes(advance(address, offset), len)
}

fn decode32(bytes: &Vec<u8>) -> (pattern: u32)
    requires
        bytes@.len() == 4,
    ensures
        pattern == le32(bytes@),
{
    let b0: u32 = bytes[0] as u32;
    let b1: u32 = bytes[1] as u32;
    let b2: u32 = bytes[2] as u32;
    let b3: u32 = bytes[3] as u32;
    b0 + 0x100 * b1 + 0x1_0000 * b2 + 0x100_0000 * b3
}

fn decode64(bytes: &Vec<u8>) -> (word: u64)
    requires
        bytes@.len() == 8,
    ensures
        word == le64(bytes@),
{
    let b0: u64 = bytes[0] as u64;
    let b1: u64 = bytes[1] as u64;
    let b2: u64 = bytes[2] as u64;
    let b3: u64 = bytes[3] as u64;
    let b4: u64 = bytes[4] as u64;
    let b5: u64 = bytes[5] as u64;
    let b6: u64 = bytes[6] as u64;
    let b7: u64 = bytes[7] as u64;
    let low: u64 = b0 + 0x100 * b1 + 0x1_0000 * b2 + 0x100_0000 * b3;
    let high: u64 = b4 + 0x100 * b5 + 0x1_0000 * b6 + 0x100_0000 * b7;
    low + 0x1_0000_0000 * high
}

fn to_signed(pattern: u32) -> (value: i32)
    ensures
        value == signed32(pattern as int),
{
    if pattern < 0x8000_0000 {
        pattern as i32
    } else {
        let low: u32 = pattern - 0x8000_0000;
        (low as i32) - 0x4000_0000 - 0x4000_0000
    }
}

/// Reads a byte; 0 where it cannot be read.
pub fn read_byte<M: MemorySource>(memory: &M, address: u64, offset: u64) -> (value: u8)
    ensures
        value == byte_at(memory.bytes(), address, offset),
        field(memory.bytes(), address, offset, 1) is None ==> value == 0,
{
    match read_mem(memory, address, offset, 1) {
        Some(bytes) => bytes[0],
        None => 0,
    }
}

/// Reads a single-precision number as its bit pattern; the pattern of 0.0 where it
/// cannot be read.
pub fn read_float<M: MemorySource>(memory: &M, address: u64, offset: u64) -> (value: u32)
    ensures
        value == word_at(memory.bytes(), address, offset),
        field(memory.bytes(), address, offset, 4) is None ==> value == 0,
{
    match read_mem(memory, address, offset, 4) {
        Some(bytes) => decode32(&bytes),
        None => 0,
    }
}

/// Reads a signed 32-bit number; 0 where it cannot be read.
pub fn read_int<M: MemorySource>(memory: &M, address: u64, offset: u64) -> (value: i32)
    ensures
        value == int_at(memory.bytes(), address, offset),
        field(memory.bytes(), address, offset, 4) is None ==> value == 0,
{
    to_signed(read_float(memory, address, offset))
}

/// Reads a pointer-sized word; 0 where it cannot be read.
pub fn read_usize<M: MemorySource>(memory: &M, address: u64, offset: u64) -> (value: u64)
    ensures
        value == pointer_at(memory.bytes(), address, offset),
        field(memory.bytes(), address, offset, 8) is None ==> value == 0,
{
    match read_mem(memory, address, offset, 8) {
        Some(bytes) => decode64(&bytes),
        None => 0,
    }
}

/// Reads the text at `offset` from `address`, byte by byte, up to the first byte that
/// is zero or cannot be read. With `format`, the text is put in its display form;
/// without, it is returned as it stands in memory.
pub fn read_string<M: MemorySource>(
    memory: &M,
    address: u64,
    offset: u64,
    format: bool,
) -> (text: String)
    ensures
        !format ==> text@ == text_at(memory.bytes(), advance_spec(address, offset as int)),
        !format && field(memory.bytes(), address, offset, 1) is None ==> text@ == Seq::<char>::empty(),
        format ==> text@ == display_form(
            text_at(memory.bytes(), advance_spec(address, offset as int)),
        ),
{
    let start = advance(address, offset);
    let mut result = String::new();
    let mut at = start;
    let mut count: usize = 0;
    let ghost mut collected: Seq<u8> = Seq::empty();
    loop
        invariant
            count <= MAX_STRING_LENGTH,
            result@ == collected.map_values(|b: u8| b as char),
            text_bytes(memory.bytes(), start, MAX_STRING_LENGTH as nat) == collected + text_bytes(
                memory.bytes(),
                at,
                (MAX_STRING_LENGTH - count) as nat,
            ),
        ensures
            result@ == text_at(memory.bytes(), start),
        decreases MAX_STRING_LENGTH - count,
    {
        if count == MAX_STRING_LENGTH {
            break ;
        }
        let byte = read_byte(memory, at, 0);
        if byte == 0 {
            break ;
        }
        push_char(&mut result, byte as char);
        proof {
            let rest = text_bytes(
                memory.bytes(),
                advance_spec(at, 1),
                (MAX_STRING_LENGTH - count - 1) as nat,
            );
            collected = collected.push(byte);
        }
        at = advance(at, 1);
        count += 1;
    }
    proof {
        lemma_advance_zero(start);
        if field(memory.bytes(), address, offset, 1) is None {
            assert(text_at(memory.bytes(), start) =~= Seq::<char>::empty());
        }
    }
    if format {
        to_display_form(&result)
    } else {
        result
    }
}

/// An address that is moved along a chain of pointers.
#[derive(Debug)]
pub struct Pointer {
    pub base_address: u64,
}

impl Pointer {
    /// A pointer that stands at `base_address`.
    pub fn new(base_address: u64) -> (pointer: Pointer)
        ensures
            pointer.base_address == base_address,
    {
        Pointer { base_address }
    }

    /// Goes to where the pointer at `offset` from here points: to 0 where it cannot be read.
    pub fn add<M: MemorySource>(self, memory: &M, offset: u64) -> (next: Pointer)
        ensures
            next.base_address == pointer_at(memory.bytes(), self.base_address, offset),
    {
        Pointer { base_address: read_usize(memory, self.base_address, offset) }
    }

    /// Where the pointer stands.
    pub fn address(self) -> (address: u64)
        ensures
            address == self.base_address,
    {
        self.base_address
    }
}

/// The address reached from `base` by taking, for each offset in turn, the pointer
/// that stands at that offset from the current address.
pub open spec fn follow(memory: Map<int, u8>, base: u64, offsets: Seq<u64>) -> u64
    decreases offsets.len(),
{
    if offsets.len() == 0 {
        base
    } else {
        pointer_at(memory, follow(memory, base, offsets.drop_last()), offsets.last())
    }
}

/// Resolves a chain of pointers: follows `offsets` from `base`, then moves on by
/// `residual` bytes without reading. A link that cannot be read leads to address 0.
pub fn resolve_chain<M: MemorySource>(
    memory: &M,
    base: u64,
    offsets: &Vec<u64>,
    residual: u64,
) -> (address: u64)
    ensures
        address == advance_spec(follow(memory.bytes(), base, offsets@), residual as int),
{
    let mut pointer = Pointer::new(base);
    let mut i: usize = 0;
    while i < offsets.len()
        invariant
            i <= offsets.len(),
            pointer.base_address == follow(memory.bytes(), base, offsets@.take(i as int)),
        decreases offsets.len() - i,
    {
        assert(offsets@.take(i + 1).drop_last() =~= offsets@.take(i as int));
        pointer = pointer.add(memory, offsets[i]);
        i += 1;
    }
    assert(offsets@.take(i as int) =~= offsets@);
    advance(pointer.address(), residual)
}

} // verus!
