//! A source of memory that asks a function for every byte.

use crate::memory::{address_space, MemorySource};
use vstd::prelude::*;

verus! {

/// Whether `read` can stand for the memory at one moment: it can be asked for any
/// byte, and gives one answer only for each.
pub open spec fn steady<F: Fn(u64) -> Option<u8>>(read: F) -> bool {
    &&& forall|address: u64| call_requires(read, (address,))
    &&& forall|address: u64, first: Option<u8>, second: Option<u8>|
        call_ensures(read, (address,), first) && call_ensures(read, (address,), second) ==> first
            == second
}

/// Memory that is read through a function from an address to the byte that stands
/// there, or to nothing where no byte can be read.
pub struct Probe<F: Fn(u64) -> Option<u8>> {
    read: F,
}

impl<F: Fn(u64) -> Option<u8>> Probe<F> {
    #[verifier::type_invariant]
    spec fn wf(self) -> bool {
        steady(self.read)
    }

    /// The function that is asked.
    pub closed spec fn function(self) -> F {
        self.read
    }

    /// Memory that is read through `read`, which must be steady.
    pub fn new(read: F) -> (probe: Probe<F>)
        requires
            steady(read),
        ensures
            probe.function() == read,
    {
        Probe { read }
    }
}

impl<F: Fn(u64) -> Option<u8>> MemorySource for Probe<F> {
    closed spec fn bytes(&self) -> Map<int, u8> {
        Map::new(
            |k: int|
                0 <= k < address_space() && exists|b: u8|
                    call_ensures(self.read, (k as u64,), Some(b)),
            |k: int| choose|b: u8| call_ensures(self.read, (k as u64,), Some(b)),
        )
    }

    fn read_bytes(&self, address: u64, len: usize) -> (data: Option<Vec<u8>>) {
        proof {
            use_type_invariant(self);
        }
        let mut data: Vec<u8> = Vec::new();
        let mut i: usize = 0;
        while i < len
            invariant
                i <= len,
                steady(self.read),
                address + i <= address_space(),
                data@.len() == i,
                forall|k: int| address <= k < address + i ==> #[trigger] self.bytes().contains_key(k),
                forall|j: int| 0 <= j < i ==> #[trigger] data@[j] == self.bytes()[address + j],
            decreases len - i,
        {
            if i as u64 > u64::MAX - address {
                return None;
            }
            let at: u64 = address + i as u64;
            match (self.read)(at) {
                Some(b) => {
                    data.push(b);
                },
                None => {
                    assert(!self.bytes().contains_key(at as int));
                    return None;
                },
            }
            i += 1;
        }
        Some(data)
    }
}

} // verus!
