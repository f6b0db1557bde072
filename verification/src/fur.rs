//! Fur names. The game keeps them in two tables of fixed-size records, each a key and
//! the offset of a name in a pool of texts. A key is looked up by scanning the first
//! table, then the second.

use crate::memory::{
    advance, advance_spec, displace, lemma_advance_twice, lemma_advance_zero, MemorySource,
};
use crate::offsets::{
    chain_target, fur_table_links, second_fur_table_links, Chain, FUR_NAME_OFFSET,
    FUR_RECORD_SIZE, FUR_TABLE_RECORDS, FUR_TABLE_RESIDUAL, FUR_TABLE_START,
    SECOND_FUR_TABLE_RECORDS, SECOND_FUR_TABLE_START,
};
use crate::reader::{int_at, pointer_at, read_int, read_string, read_usize, text_at};
use crate::text::display_form;
use vstd::prelude::*;
use vstd::string::StringExecFns;

verus! {

/// The address of record `i` of the table whose records start at `start`.
pub open spec fn record_address(start: u64, i: int) -> u64 {
    advance_spec(start, FUR_RECORD_SIZE * i)
}

/// Whether record `i` of the table carries `key`.
pub open spec fn record_matches(memory: Map<int, u8>, start: u64, i: int, key: i32) -> bool {
    int_at(memory, record_address(start, i), 0) == key
}

/// The first of the records `from .. count` that carries `key`, if there is one.
pub open spec fn first_match(
    memory: Map<int, u8>,
    start: u64,
    from: int,
    count: int,
    key: i32,
) -> Option<int>
    decreases count - from,
{
    if from >= count {
        None
    } else if record_matches(memory, start, from, key) {
        Some(from)
    } else {
        first_match(memory, start, from + 1, count, key)
    }
}

/// The name to which the record at `record` refers: the text in the pool of the
/// table at `fur_lookup`, at the record's offset, in display form.
pub open spec fn record_name(memory: Map<int, u8>, fur_lookup: u64, record: u64) -> Seq<char> {
    let pool = pointer_at(memory, fur_lookup, 0);
    let offset = int_at(memory, record, FUR_NAME_OFFSET);
    display_form(text_at(memory, advance_spec(pool, offset as int)))
}

/// The name under which a table knows `key`: that of the first record that carries the
/// key, among the first `count` records from `first` bytes after `fur_lookup`.
pub open spec fn table_name(
    memory: Map<int, u8>,
    fur_lookup: u64,
    first: u64,
    count: u64,
    key: i32,
) -> Option<Seq<char>> {
    let start = advance_spec(fur_lookup, first as int);
    match first_match(memory, start, 0, count as int, key) {
        Some(i) => Some(record_name(memory, fur_lookup, record_address(start, i))),
        None => None,
    }
}

proof fn lemma_first_match_skips(memory: Map<int, u8>, start: u64, from: int, upto: int, count: int, key: i32)
    requires
        0 <= from <= upto <= count,
        forall|i: int| from <= i < upto ==> !record_matches(memory, start, i, key),
    ensures
        first_match(memory, start, from, count, key) == first_match(memory, start, upto, count, key),
    decreases upto - from,
{
    if from < upto {
        lemma_first_match_skips(memory, start, from + 1, upto, count, key);
    }
}

/// Scans a table for `fur_name_key` and reads the name that the first matching record
/// refers to. Nothing is found if none of the `max_fur_count` records carries the key.
pub fn find_fur<M: MemorySource>(
    memory: &M,
    fur_lookup: u64,
    fur_lookup_offset: u64,
    max_fur_count: u64,
    fur_name_key: i32,
) -> (found: Option<String>)
    ensures
        found is Some <==> table_name(
            memory.bytes(),
            fur_lookup,
            fur_lookup_offset,
            max_fur_count,
            fur_name_key,
        ) is Some,
        found is Some ==> found->0@ == table_name(
            memory.bytes(),
            fur_lookup,
            fur_lookup_offset,
            max_fur_count,
            fur_name_key,
        )->0,
{
    let start = advance(fur_lookup, fur_lookup_offset);
    let mut current_offset = start;
    proof {
        lemma_advance_zero(start);
    }
    let mut scanned: u64 = 0;
    while scanned < max_fur_count
        invariant
            scanned <= max_fur_count,
            start == advance_spec(fur_lookup, fur_lookup_offset as int),
            current_offset == record_address(start, scanned as int),
            forall|i: int| 0 <= i < scanned ==> !record_matches(memory.bytes(), start, i, fur_name_key),
        decreases max_fur_count - scanned,
    {
        let current_fur_key = read_int(memory, current_offset, 0);
        if fur_name_key == current_fur_key {
            proof {
                lemma_first_match_skips(
                    memory.bytes(),
                    start,
                    0,
                    scanned as int,
                    max_fur_count as int,
                    fur_name_key,
                );
            }
            let fur_lookup_address = read_usize(memory, fur_lookup, 0);
            let fur_name_offset = read_int(memory, current_offset, FUR_NAME_OFFSET);
            let fur_name_address = displace(fur_lookup_address, fur_name_offset);
            proof {
                lemma_advance_zero(fur_name_address);
            }
            return Some(read_string(memory, fur_name_address, 0, true));
        }
        proof {
            lemma_advance_twice(start, FUR_RECORD_SIZE * scanned, FUR_RECORD_SIZE as int);
        }
        current_offset = advance(current_offset, FUR_RECORD_SIZE);
        scanned += 1;
    }
    proof {
        lemma_first_match_skips(
            memory.bytes(),
            start,
            0,
            max_fur_count as int,
            max_fur_count as int,
            fur_name_key,
        );
    }
    None
}

/// The name under which the first table knows `key`.
pub open spec fn first_table_name(
    memory: Map<int, u8>,
    base_address: u64,
    key: i32,
) -> Option<Seq<char>> {
    table_name(
        memory,
        chain_target(memory, base_address, fur_table_links(), FUR_TABLE_RESIDUAL),
        FUR_TABLE_START,
        FUR_TABLE_RECORDS,
        key,
    )
}

/// The name under which the second table knows `key`.
pub open spec fn second_table_name(
    memory: Map<int, u8>,
    base_address: u64,
    key: i32,
) -> Option<Seq<char>> {
    table_name(
        memory,
        chain_target(memory, base_address, second_fur_table_links(), FUR_TABLE_RESIDUAL),
        SECOND_FUR_TABLE_START,
        SECOND_FUR_TABLE_RECORDS,
        key,
    )
}

/// The name of the fur with key `key`: what the first table says, else what the second
/// says, else "Unknown".
pub open spec fn fur_name(memory: Map<int, u8>, base_address: u64, key: i32) -> Seq<char> {
    match first_table_name(memory, base_address, key) {
        Some(name) => name,
        None => match second_table_name(memory, base_address, key) {
            Some(name) => name,
            None => "Unknown"@,
        },
    }
}

/// Looks `fur_name_key` up in the first table.
pub fn get_fur<M: MemorySource>(
    memory: &M,
    base_address: u64,
    fur_name_key: i32,
) -> (found: Option<String>)
    ensures
        found is Some <==> first_table_name(memory.bytes(), base_address, fur_name_key) is Some,
        found is Some ==> found->0@ == first_table_name(memory.bytes(), base_address, fur_name_key)->0,
{
    let chain = Chain::fur_table();
    let fur_lookup = chain.resolve(memory, base_address);
    find_fur(memory, fur_lookup, FUR_TABLE_START, FUR_TABLE_RECORDS, fur_name_key)
}

/// Looks `fur_name_key` up in the second table.
pub fn get_fur2<M: MemorySource>(
    memory: &M,
    base_address: u64,
    fur_name_key: i32,
) -> (found: Option<String>)
    ensures
        found is Some <==> second_table_name(memory.bytes(), base_address, fur_name_key) is Some,
        found is Some ==> found->0@ == second_table_name(memory.bytes(), base_address, fur_name_key)->0,
{
    let chain = Chain::second_fur_table();
    let fur_lookup = chain.resolve(memory, base_address);
    find_fur(memory, fur_lookup, SECOND_FUR_TABLE_START, SECOND_FUR_TABLE_RECORDS, fur_name_key)
}

/// The name of a fur. A key that the first table knows is answered from the first
/// table alone; a key that neither table knows gets the name "Unknown".
pub fn get_fur_name<M: MemorySource>(
    memory: &M,
    base_address: u64,
    fur_name_key: i32,
) -> (name: String)
    ensures
        name@ == fur_name(memory.bytes(), base_address, fur_name_key),
        first_table_name(memory.bytes(), base_address, fur_name_key) is Some ==> name@
            == first_table_name(memory.bytes(), base_address, fur_name_key)->0,
        first_table_name(memory.bytes(), base_address, fur_name_key) is None && second_table_name(
            memory.bytes(),
            base_address,
            fur_name_key,
        ) is None ==> name@ == "Unknown"@,
{
    if let Some(fur_name) = get_fur(memory, base_address, fur_name_key) {
        fur_name
    } else if let Some(fur_name) = get_fur2(memory, base_address, fur_name_key) {
        fur_name
    } else {
        String::from_str("Unknown")
    }
}

/// A key that the first table knows is answered from the first table alone: two
/// memories in which the first table gives the same name give the same answer, whatever
/// their second tables hold. A key that neither table knows is answered with "Unknown".
pub proof fn law_first_table_answers_alone(
    memory: Map<int, u8>,
    other: Map<int, u8>,
    base_address: u64,
    key: i32,
)
    ensures
        first_table_name(memory, base_address, key) is Some && first_table_name(
            other,
            base_address,
            key,
        ) == first_table_name(memory, base_address, key) ==> fur_name(memory, base_address, key)
            == fur_name(other, base_address, key) && fur_name(memory, base_address, key)
            == first_table_name(memory, base_address, key)->0,
        first_table_name(memory, base_address, key) is None && second_table_name(
            memory,
            base_address,
            key,
        ) is None ==> fur_name(memory, base_address, key) == "Unknown"@,
{
}

} // verus!
