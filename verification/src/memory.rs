//! The memory of the observed process: what can be read from it, and an image of it
//! held in the library's own storage.

use vstd::prelude::*;

verus! {

/// One more than the highest address.
pub open spec fn address_space() -> int {
    0x1_0000_0000_0000_0000
}

/// Whether all `len` bytes from `address` on can be read from `memory`. A range that
/// runs past the end of the address space cannot.
pub open spec fn readable(memory: Map<int, u8>, address: int, len: int) -> bool {
    &&& 0 <= address
    &&& address + len <= address_space()
    &&& forall|k: int| address <= k < address + len ==> #[trigger] memory.contains_key(k)
}

/// The `len` bytes that `memory` holds from `address` on.
pub open spec fn bytes_at(memory: Map<int, u8>, address: int, len: int) -> Seq<u8> {
    Seq::new(len as nat, |k: int| memory[address + k])
}

/// The address `distance` bytes after `address`, going round at the end of the
/// address space as the machine does.
#[verifier::opaque]
pub open spec fn advance_spec(address: u64, distance: int) -> u64 {
    ((address + distance) % address_space()) as u64
}

/// Moving on twice is moving on by the sum.
pub proof fn lemma_advance_twice(address: u64, first: int, second: int)
    ensures
        advance_spec(advance_spec(address, first), second) == advance_spec(address, first + second),
{
    reveal(advance_spec);
    vstd::arithmetic::div_mod::lemma_add_mod_noop_right(second, address + first, address_space());
    vstd::arithmetic::div_mod::lemma_mod_bound(address + first, address_space());
    vstd::arithmetic::div_mod::lemma_mod_bound(address + first + second, address_space());
}

/// Moving on by nothing stays in place.
pub proof fn lemma_advance_zero(address: u64)
    ensures
        advance_spec(address, 0) == address,
{
    reveal(advance_spec);
}

/// The address `distance` bytes after `address`.
pub fn advance(address: u64, distance: u64) -> (target: u64)
    ensures
        target == advance_spec(address, distance as int),
{
    reveal(advance_spec);
    match address.checked_add(distance) {
        Some(target) => target,
        None => address - (u64::MAX - distance) - 1,
    }
}

/// The address `distance` bytes after `address`, or before it for a negative distance.
pub fn displace(address: u64, distance: i32) -> (target: u64)
    ensures
        target == advance_spec(address, distance as int),
{
    reveal(advance_spec);
    if distance >= 0 {
        advance(address, distance as u64)
    } else {
        let back: u64 = (-(distance as i64)) as u64;
        if address >= back {
            address - back
        } else {
            u64::MAX - (back - address) + 1
        }
    }
}

/// A place from which the bytes of the observed process can be read.
///
/// A read never fails loudly: where any byte of the range is missing, it yields nothing.
pub trait MemorySource {
    /// The bytes that can be read, by address.
    spec fn bytes(&self) -> Map<int, u8>;

    /// The `len` bytes from `address` on, or nothing unless all of them can be read.
    fn read_bytes(&self, address: u64, len: usize) -> (data: Option<Vec<u8>>)
        ensures
            data is Some <==> readable(self.bytes(), address as int, len as int),
            data is Some ==> data->0@ == bytes_at(self.bytes(), address as int, len as int),
    ;
}

/// A run of bytes captured at a known address.
#[derive(Debug)]
pub struct Segment {
    pub base: u64,
    pub data: Vec<u8>,
}

impl Segment {
    /// Whether the segment holds the byte at address `k`.
    pub open spec fn covers(self, k: int) -> bool {
        self.base <= k < self.base + self.data@.len() && k < address_space()
    }

    fn byte(&self, address: u64) -> (found: Option<u8>)
        ensures
            found is Some <==> self.covers(address as int),
            found is Some ==> found->0 == self.data@[address - self.base],
    {
        if address >= self.base {
            let index: u64 = address - self.base;
            if index < self.data.len() as u64 {
                return Some(self.data[index as usize]);
            }
        }
        None
    }
}

/// The byte that a list of segments holds at address `k`: that of the last segment
/// that covers it.
pub open spec fn lookup(segments: Seq<Segment>, k: int) -> Option<u8>
    decreases segments.len(),
{
    if segments.len() == 0 {
        None
    } else if segments.last().covers(k) {
        Some(segments.last().data@[k - segments.last().base])
    } else {
        lookup(segments.drop_last(), k)
    }
}

/// An image of part of a process's memory: the segments that were captured, a later
/// one taking precedence where two overlap.
#[derive(Debug)]
pub struct MemoryImage {
    pub segments: Vec<Segment>,
}

impl MemoryImage {
    /// An image that holds no byte.
    pub fn new() -> (image: MemoryImage)
        ensures
            image.segments@.len() == 0,
            image.bytes() == Map::<int, u8>::empty(),
    {
        let image = MemoryImage { segments: Vec::new() };
        image
    }

    /// Adds the bytes `data` at `base`. They take precedence over what the image held there.
    pub fn capture(&mut self, base: u64, data: Vec<u8>)
        ensures
            final(self).segments@ == old(self).segments@.push(Segment { base, data }),
            forall|k: int|
                (Segment { base, data }).covers(k) ==> #[trigger] final(self).bytes().contains_key(k)
                    && final(self).bytes()[k] == data@[k - base],
            forall|k: int|
                !(Segment { base, data }).covers(k) ==> (#[trigger] final(self).bytes().contains_key(k)
                    <==> old(self).bytes().contains_key(k)) && (old(self).bytes().contains_key(k)
                    ==> final(self).bytes()[k] == old(self).bytes()[k]),
    {
        let ghost before = self.segments@;
        self.segments.push(Segment { base, data });
        assert(self.segments@.drop_last() =~= before);
    }

    /// The byte at `address`, if the image holds it.
    pub fn byte_at(&self, address: u64) -> (found: Option<u8>)
        ensures
            found == lookup(self.segments@, address as int),
    {
        let mut i: usize = self.segments.len();
        assert(self.segments@.take(i as int) =~= self.segments@);
        while i > 0
            invariant
                i <= self.segments.len(),
                lookup(self.segments@, address as int) == lookup(
                    self.segments@.take(i as int),
                    address as int,
                ),
            decreases i,
        {
            let ghost head = self.segments@.take(i as int);
            assert(head.drop_last() =~= self.segments@.take(i - 1));
            match self.segments[i - 1].byte(address) {
                Some(b) => {
                    return Some(b);
                },
                None => {},
            }
            i -= 1;
        }
        None
    }
}

impl MemorySource for MemoryImage {
    open spec fn bytes(&self) -> Map<int, u8> {
        Map::new(
            |k: int| lookup(self.segments@, k) is Some,
            |k: int| lookup(self.segments@, k)->0,
        )
    }

    fn read_bytes(&self, address: u64, len: usize) -> (data: Option<Vec<u8>>) {
        let mut data: Vec<u8> = Vec::new();
        let mut i: usize = 0;
        while i < len
            invariant
                i <= len,
                address + i <= address_space(),
                data@.len() == i,
                forall|k: int| address <= k < address + i ==> #[trigger] self.bytes().contains_key(k),
                forall|j: int| 0 <= j < i ==> #[trigger] data@[j] == self.bytes()[address + j],
            decreases len - i,
        {
            if i as u64 > u64::MAX - address {
                return None;
            }
            let at: u64 = address + i as u64;
            match self.byte_at(at) {
                Some(b) => {
                    data.push(b);
                },
                None => {
                    assert(!self.bytes().contains_key(at as int));
                    return None;
                },
            }
            i += 1;
        }
        Some(data)
    }
}

} // verus!
