//! Per-call options and per-call result metadata, for the read and write
//! paths. Durations are carried as whole milliseconds.
use vstd::prelude::*;

verus! {

/// Per-call options for the read path.
#[derive(Clone, Debug, Default)]
pub struct QueryOptions {
    /// Scopes this call to a datacenter, overriding the client's default.
    pub datacenter: Option<String>,
    /// The last-seen change index; supplying one makes the read a blocking
    /// query.
    pub wait_index: Option<u64>,
    /// How long the server may hold a blocking query open, in milliseconds.
    pub wait_time: Option<u64>,
}

/// Metadata of a completed read.
#[derive(Clone, Copy, Debug, PartialEq, Eq)]
pub struct QueryMeta {
    /// The change index the server reported, if it reported one; absence
    /// means "unknown", not zero.
    pub last_index: Option<u64>,
    /// Wall-clock time of the call, in milliseconds.
    pub request_time: u64,
}

/// Per-call options for the write path.
#[derive(Clone, Debug, Default)]
pub struct WriteOptions {
    /// Scopes this call to a datacenter, overriding the client's default.
    pub datacenter: Option<String>,
}

/// Metadata of a completed write.
#[derive(Clone, Copy, Debug, PartialEq, Eq)]
pub struct WriteMeta {
    /// Wall-clock time of the call, in milliseconds.
    pub request_time: u64,
}

/// The character sequence of an optional string.
pub open spec fn opt_string_view(o: Option<String>) -> Option<Seq<char>> {
    match o {
        Some(s) => Some(s@),
        None => None,
    }
}

} // verus!
