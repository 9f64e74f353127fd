//! The messages exchanged with the remote key-value service, as plain values.
use vstd::prelude::*;

verus! {

/// A write of one key. Only `key` and `value` are ever set by this library:
/// no lease, no previous value returned, nothing ignored.
#[derive(Debug, Clone, PartialEq, Eq)]
pub struct PutRequest {
    pub key: Vec<u8>,
    pub value: Vec<u8>,
    pub lease: i64,
    pub prev_kv: bool,
    pub ignore_value: bool,
    pub ignore_lease: bool,
}

/// A read of the keys in `[key, range_end)`. Only `key` and `range_end` are
/// ever set by this library: no limit, no revision, no sorting, and a
/// linearizable read.
#[derive(Debug, Clone, PartialEq, Eq)]
pub struct RangeRequest {
    pub key: Vec<u8>,
    pub range_end: Vec<u8>,
    pub limit: i64,
    pub revision: i64,
    pub sort_order: i32,
    pub sort_target: i32,
    pub serializable: bool,
    pub keys_only: bool,
    pub count_only: bool,
    pub min_mod_revision: i64,
    pub max_mod_revision: i64,
    pub min_create_revision: i64,
    pub max_create_revision: i64,
}

/// Credentials for the remote store.
#[derive(Debug, Clone, PartialEq, Eq)]
pub struct AuthenticateRequest {
    pub name: String,
    pub password: String,
}

/// One stored pair, as a read returns it.
#[derive(Debug, Clone, PartialEq, Eq)]
pub struct KeyValue {
    pub key: Vec<u8>,
    pub value: Vec<u8>,
}

/// `r` writes `value` under `key` and sets nothing else.
pub open spec fn is_plain_put(r: PutRequest, key: Seq<u8>, value: Seq<u8>) -> bool {
    &&& r.key@ == key
    &&& r.value@ == value
    &&& r.lease == 0
    &&& !r.prev_kv
    &&& !r.ignore_value
    &&& !r.ignore_lease
}

/// `r` reads `[key, range_end)` and sets nothing else.
pub open spec fn is_plain_range(r: RangeRequest, key: Seq<u8>, range_end: Seq<u8>) -> bool {
    &&& r.key@ == key
    &&& r.range_end@ == range_end
    &&& r.limit == 0
    &&& r.revision == 0
    &&& r.sort_order == 0
    &&& r.sort_target == 0
    &&& !r.serializable
    &&& !r.keys_only
    &&& !r.count_only
    &&& r.min_mod_revision == 0
    &&& r.max_mod_revision == 0
    &&& r.min_create_revision == 0
    &&& r.max_create_revision == 0
}

/// The full overwrite of `key` with `value`.
pub fn plain_put(key: Vec<u8>, value: Vec<u8>) -> (r: PutRequest)
    ensures
        is_plain_put(r, key@, value@),
{
    PutRequest { key, value, lease: 0, prev_kv: false, ignore_value: false, ignore_lease: false }
}

/// The read of `[key, range_end)`.
pub fn plain_range(key: Vec<u8>, range_end: Vec<u8>) -> (r: RangeRequest)
    ensures
        is_plain_range(r, key@, range_end@),
{
    RangeRequest {
        key,
        range_end,
        limit: 0,
        revision: 0,
        sort_order: 0,
        sort_target: 0,
        serializable: false,
        keys_only: false,
        count_only: false,
        min_mod_revision: 0,
        max_mod_revision: 0,
        min_create_revision: 0,
        max_create_revision: 0,
    }
}

} // verus!
