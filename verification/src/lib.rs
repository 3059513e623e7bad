//! Storage accounting and token settlement for the ArtSpot contracts.

pub mod balances;
pub mod base32;
pub mod ctx;
pub mod error;
pub mod events;
pub mod id;
pub mod ledger;
pub mod metadata;
pub mod settlement;
pub mod storage;
pub mod storage_tracker;
pub mod text;
pub mod token;
pub mod user;
pub mod version;
pub mod yocto_near;

use vstd::hash_map::StringHashMap;
use vstd::prelude::*;

verus! {

/// A map of two sample entries: `dead` at 0 and `second` at 1.
pub fn dead() -> (r: StringHashMap<u8>)
    ensures
        r@ == Map::<Seq<char>, u8>::empty().insert("dead"@, 0u8).insert("second"@, 1u8),
{
    let mut map: StringHashMap<u8> = StringHashMap::new();
    map.insert("dead".to_owned(), 0);
    map.insert("second".to_owned(), 1);
    map
}

} // verus!
