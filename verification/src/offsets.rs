//! Where things stand in the game's memory: the offsets of the fields inside its
//! records, the pointer chains that lead to the records, and the shape of the fur
//! tables. These are constants of one version of the game; nothing else in the crate
//! holds such a number.

use crate::memory::{advance_spec, MemorySource};
use crate::reader::{follow, resolve_chain};
use vstd::prelude::*;

verus! {

/// The session score that is reported while no session is running.
pub const NO_SESSION: i32 = -1;

/// A resolved harvest record below this address is not a record: the game has not
/// finished loading.
pub const LOWEST_PLAUSIBLE_ADDRESS: u64 = 1000;

/// Offsets of the fields. Those of a harvest are counted from the harvest record,
/// except `tracking`, which is counted from the module's base; the last three are
/// counted from the shot record.
#[derive(Debug)]
pub struct Offsets {
    pub species: u64,
    pub gender: u64,
    pub weight: u64,
    pub tracking: u64,
    pub xp: u64,
    pub cash: u64,
    pub score: u64,
    pub rating: u64,
    pub integrity: u64,
    pub fur_offset: u64,
    pub session_score: u64,
    pub reserve: u64,
    pub weapon_score: u64,
    pub shot_distance: u64,
    pub shot_damage: u64,
}

impl Offsets {
    /// The layout that the crate was written for.
    pub open spec fn known() -> Offsets {
        Offsets {
            species: 0x0,
            gender: 0x20,
            weight: 0x24,
            tracking: 0x28,
            xp: 0x34,
            cash: 0x38,
            score: 0x3C,
            rating: 0xAC,
            integrity: 0x4C,
            fur_offset: 0x50,
            session_score: 0xB0,
            reserve: 0x60,
            weapon_score: 0x18,
            shot_distance: 0x1C,
            shot_damage: 0x20,
        }
    }

    /// The layout that the crate was written for.
    pub fn new() -> (offsets: Offsets)
        ensures
            offsets == Offsets::known(),
    {
        Offsets {
            species: 0x0,
            gender: 0x20,
            weight: 0x24,
            tracking: 0x28,
            xp: 0x34,
            cash: 0x38,
            score: 0x3C,
            rating: 0xAC,
            integrity: 0x4C,
            fur_offset: 0x50,
            session_score: 0xB0,
            reserve: 0x60,
            weapon_score: 0x18,
            shot_distance: 0x1C,
            shot_damage: 0x20,
        }
    }
}

/// The links from the module's base to the record of the latest harvest.
pub open spec fn harvest_links() -> Seq<u64> {
    seq![0x023D1EF0u64]
}

/// Distance from the end of the harvest chain to the harvest record.
pub const HARVEST_RESIDUAL: u64 = 0x280;

/// The links from the module's base to the record of the latest shot.
pub open spec fn shot_links() -> Seq<u64> {
    seq![0x023C9B78u64, 0x30u64, 0xD8u64, 0x260u64]
}

/// The links from the module's base to the name of the player.
pub open spec fn username_links() -> Seq<u64> {
    seq![0x023A5580u64]
}

/// Distance from the end of the username chain to the name.
pub const USERNAME_RESIDUAL: u64 = 0x390;

/// The links from the module's base to the first table of fur names.
pub open spec fn fur_table_links() -> Seq<u64> {
    seq![0x0227B640u64, 0x0u64, 0x10u64]
}

/// The links from the module's base to the second table of fur names.
pub open spec fn second_fur_table_links() -> Seq<u64> {
    seq![0x0227B640u64, 0x0u64, 0x0u64]
}

/// Distance from the end of either fur chain to the table.
pub const FUR_TABLE_RESIDUAL: u64 = 0x10;

/// The address to which a chain leads from `base`: that reached by following the
/// links, moved on by the residual distance.
pub open spec fn chain_target(
    memory: Map<int, u8>,
    base: u64,
    links: Seq<u64>,
    residual: u64,
) -> u64 {
    advance_spec(follow(memory, base, links), residual as int)
}

/// A pointer chain: the offsets at which a pointer is read, in turn, and the distance
/// that is added at the end without reading.
#[derive(Debug)]
pub struct Chain {
    pub offsets: Vec<u64>,
    pub residual: u64,
}

impl Chain {
    /// Follows the chain from `base`.
    pub fn resolve<M: MemorySource>(&self, memory: &M, base: u64) -> (address: u64)
        ensures
            address == chain_target(memory.bytes(), base, self.offsets@, self.residual),
    {
        resolve_chain(memory, base, &self.offsets, self.residual)
    }

    /// From the module's base to the record of the latest harvest.
    pub fn harvest() -> (chain: Chain)
        ensures
            chain.offsets@ == harvest_links(),
            chain.residual == HARVEST_RESIDUAL,
    {
        Chain { offsets: vec![0x023D1EF0], residual: HARVEST_RESIDUAL }
    }

    /// From the module's base to the record of the latest shot.
    pub fn shot() -> (chain: Chain)
        ensures
            chain.offsets@ == shot_links(),
            chain.residual == 0,
    {
        Chain { offsets: vec![0x023C9B78, 0x30, 0xD8, 0x260], residual: 0 }
    }

    /// From the module's base to the name of the player.
    pub fn username() -> (chain: Chain)
        ensures
            chain.offsets@ == username_links(),
            chain.residual == USERNAME_RESIDUAL,
    {
        Chain { offsets: vec![0x023A5580], residual: USERNAME_RESIDUAL }
    }

    /// From the module's base to the first table of fur names.
    pub fn fur_table() -> (chain: Chain)
        ensures
            chain.offsets@ == fur_table_links(),
            chain.residual == FUR_TABLE_RESIDUAL,
    {
        Chain { offsets: vec![0x0227B640, 0x0, 0x10], residual: FUR_TABLE_RESIDUAL }
    }

    /// From the module's base to the second table of fur names.
    pub fn second_fur_table() -> (chain: Chain)
        ensures
            chain.offsets@ == second_fur_table_links(),
            chain.residual == FUR_TABLE_RESIDUAL,
    {
        Chain { offsets: vec![0x0227B640, 0x0, 0x0], residual: FUR_TABLE_RESIDUAL }
    }
}

/// Offset of the first record of the first fur table.
pub const FUR_TABLE_START: u64 = 0x160;

/// Number of records that the first fur table can hold.
pub const FUR_TABLE_RECORDS: u64 = 0x030000;

/// Offset of the first record of the second fur table.
pub const SECOND_FUR_TABLE_START: u64 = 0x150;

/// Number of records that the second fur table can hold.
pub const SECOND_FUR_TABLE_RECORDS: u64 = 0x2B2;

/// Size of a fur record: a key of four bytes, then the offset of the name, four bytes.
pub const FUR_RECORD_SIZE: u64 = 0x08;

/// Offset, inside a fur record, of the offset of the name.
pub const FUR_NAME_OFFSET: u64 = 0x04;

/// Whether a resolved harvest-record address can be a real record.
pub open spec fn plausible_address(address: u64) -> bool {
    address > LOWEST_PLAUSIBLE_ADDRESS
}

/// Whether a resolved harvest-record address can be a real record: it lies above 1000.
pub fn is_plausible_address(address: u64) -> (plausible: bool)
    ensures
        plausible == plausible_address(address),
{
    address > LOWEST_PLAUSIBLE_ADDRESS
}

} // verus!
