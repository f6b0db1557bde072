use std::collections::HashMap;
use trophy_lodge::fur::get_fur_name;
use trophy_lodge::memory::MemorySource;
use trophy_lodge::probe::Probe;
use trophy_lodge::reader::{read_int, read_string, read_usize};

#[test]
fn bytes_are_asked_of_the_function() {
    let counting = Probe::new(|address: u64| Some(address as u8));
    assert_eq!(counting.read_bytes(0x10, 4), Some(vec![0x10, 0x11, 0x12, 0x13]));
    assert_eq!(counting.read_bytes(0x10, 0), Some(vec![]));
    assert_eq!(read_int(&counting, 0x100, 0x4), 0x07060504);
    assert_eq!(read_usize(&counting, 0, 0), 0x0706050403020100);
    assert_eq!(read_string(&counting, 0x1FD, 0, false), "\u{fd}\u{fe}\u{ff}");
}

#[test]
fn byte_that_the_function_does_not_give_cannot_be_read() {
    let below = Probe::new(|address: u64| if address < 0x102 { Some(7) } else { None });
    assert_eq!(below.read_bytes(0x100, 2), Some(vec![7, 7]));
    assert_eq!(below.read_bytes(0x100, 3), None);
    assert_eq!(read_int(&below, 0x100, 0), 0);
    assert_eq!(read_string(&below, 0x100, 0, false), "\u{7}\u{7}");
    let nothing = Probe::new(|_address: u64| None);
    assert_eq!(read_int(&nothing, 0x100, 0), 0);
    assert_eq!(get_fur_name(&nothing, 0x1_4000_0000, 5), "Unknown");
}

#[test]
fn range_past_the_last_address_cannot_be_read() {
    let everything = Probe::new(|_address: u64| Some(1));
    assert_eq!(everything.read_bytes(u64::MAX, 1), Some(vec![1]));
    assert_eq!(everything.read_bytes(u64::MAX, 2), None);
    assert_eq!(read_int(&everything, u64::MAX - 2, 0), 0);
    assert_eq!(read_int(&everything, u64::MAX - 3, 0), 0x01010101);
}

#[test]
fn function_may_answer_from_a_table() {
    let mut table: HashMap<u64, u8> = HashMap::new();
    for (i, b) in b"Moose\0".iter().enumerate() {
        table.insert(0x500 + i as u64, *b);
    }
    let probe = Probe::new(move |address: u64| table.get(&address).copied());
    assert_eq!(read_string(&probe, 0x500, 0, false), "Moose");
    assert_eq!(read_string(&probe, 0x500, 0, true), "Moose");
    assert_eq!(read_string(&probe, 0x4FF, 0, false), "");
}
