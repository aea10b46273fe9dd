//! The request kinds the actor serves, the lane each one travels on, and the
//! actor's configuration.
use vstd::prelude::*;

verus! {

/// The kinds of request that the actor serves.
#[derive(Clone, Copy, Debug, PartialEq, Eq, Structural)]
pub enum MsgKind {
    CreateIndex,
    Update,
    Search,
    Settings,
    Documents,
    Document,
    Delete,
    GetMeta,
}

/// The two message lanes: reads fan out, writes run one at a time.
#[derive(Clone, Copy, Debug, PartialEq, Eq, Structural)]
pub enum Lane {
    Read,
    Write,
}

/// Whether a request kind changes the store.
pub open spec fn is_mutation(kind: MsgKind) -> bool {
    kind == MsgKind::CreateIndex || kind == MsgKind::Update || kind == MsgKind::Delete
}

/// The lane of a request: mutations are serialised on the write lane, the
/// rest fan out on the read lane.
pub fn lane_of(kind: MsgKind) -> (r: Lane)
    ensures
        r == Lane::Write <==> is_mutation(kind),
        r == Lane::Read <==> !is_mutation(kind),
{
    match kind {
        MsgKind::CreateIndex | MsgKind::Update | MsgKind::Delete => Lane::Write,
        _ => Lane::Read,
    }
}

/// Map size of the meta environment: 1 GiB.
pub const META_MAP_SIZE: usize = 1073741824;

/// Map size of each index environment: 4096 pages of 100000 bytes.
pub const INDEX_MAP_SIZE: usize = 409600000;

/// Messages handled at once on the read lane.
pub const READ_CONCURRENCY: usize = 10;

/// Messages handled at once on the write lane.
pub const WRITE_CONCURRENCY: usize = 1;

/// Capacity of each lane's channel.
pub const CHANNEL_CAPACITY: usize = 100;

/// The actor's configuration.
#[derive(Clone, Copy, Debug, PartialEq, Eq, Structural)]
pub struct ActorConfig {
    pub meta_map_size: usize,
    pub index_map_size: usize,
    pub read_concurrency: usize,
    pub write_concurrency: usize,
    pub channel_capacity: usize,
}

impl ActorConfig {
    /// The defaults: a 1 GiB meta map, about 400 MB per index, ten reads at a
    /// time, writes one at a time, and room for a hundred messages per lane.
    pub fn standard() -> (r: ActorConfig)
        ensures
            r.meta_map_size == META_MAP_SIZE,
            r.index_map_size == INDEX_MAP_SIZE,
            r.read_concurrency == READ_CONCURRENCY,
            r.write_concurrency == WRITE_CONCURRENCY,
            r.channel_capacity == CHANNEL_CAPACITY,
    {
        ActorConfig {
            meta_map_size: META_MAP_SIZE,
            index_map_size: INDEX_MAP_SIZE,
            read_concurrency: READ_CONCURRENCY,
            write_concurrency: WRITE_CONCURRENCY,
            channel_capacity: CHANNEL_CAPACITY,
        }
    }

    /// The number of messages of a lane that are handled at once.
    pub fn concurrency(&self, lane: Lane) -> (r: usize)
        ensures
            lane == Lane::Read ==> r == self.read_concurrency,
            lane == Lane::Write ==> r == self.write_concurrency,
    {
        match lane {
            Lane::Read => self.read_concurrency,
            Lane::Write => self.write_concurrency,
        }
    }
}

} // verus!
