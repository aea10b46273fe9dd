use std::collections::HashMap;
use vstd::prelude::*;

use crate::meta::{
    fresh_record, now_micros, opt_str_view, touched_record, IndexError, IndexMeta, MetaView,
    Micros,
};

verus! {

broadcast use vstd::std_specs::hash::group_hash_axioms;

/// How a request for an index is resolved.
#[derive(Clone, Copy, Debug, PartialEq, Eq, Structural)]
pub enum Lookup {
    /// The index is in the live cache.
    Cached,
    /// The index is on disk but not open: open it and install it.
    Open,
    /// No such index.
    Absent,
}

/// How a request for an index is resolved, from whether the cache holds it and
/// whether its directory exists.
pub open spec fn lookup_spec(cached: bool, dir_exists: bool) -> Lookup {
    if cached {
        Lookup::Cached
    } else if dir_exists {
        Lookup::Open
    } else {
        Lookup::Absent
    }
}

pub fn lookup_decision(cached: bool, dir_exists: bool) -> (r: Lookup)
    ensures
        r == lookup_spec(cached, dir_exists),
{
    if cached {
        Lookup::Cached
    } else if dir_exists {
        Lookup::Open
    } else {
        Lookup::Absent
    }
}

/// An index that a request needs, or `UnexistingIndex` when there is none.
pub fn require_index<H>(found: Option<H>) -> (r: Result<H, IndexError>)
    ensures
        found is Some <==> r is Ok,
        found is Some ==> r->Ok_0 == found->0,
        found is None ==> r matches Err(IndexError::UnexistingIndex),
{
    match found {
        Some(h) => Ok(h),
        None => Err(IndexError::UnexistingIndex),
    }
}

/// A result with its record taken to its view.
pub open spec fn result_view(r: Result<IndexMeta, IndexError>) -> Result<MetaView, IndexError> {
    match r {
        Ok(m) => Ok(m@),
        Err(e) => Err(e),
    }
}

/// What creating index `uuid` returns, given whether its directory already
/// exists and the time `now`.
pub open spec fn create_outcome(
    dir_exists: bool,
    uuid: u128,
    primary_key: Option<Seq<char>>,
    now: int,
) -> Result<MetaView, IndexError> {
    if dir_exists {
        Err(IndexError::IndexAlreadyExists)
    } else {
        Ok(fresh_record(uuid, primary_key, now))
    }
}

/// What creating index `uuid` stores and returns, given whether its directory
/// already exists and the time `now`.
pub fn create_decision_at(
    dir_exists: bool,
    uuid: u128,
    primary_key: Option<String>,
    now: Micros,
) -> (r: Result<IndexMeta, IndexError>)
    ensures
        dir_exists ==> r matches Err(IndexError::IndexAlreadyExists),
        !dir_exists ==> r is Ok && r->Ok_0@ == fresh_record(
            uuid,
            opt_str_view(primary_key),
            now as int,
        ),
        result_view(r) == create_outcome(dir_exists, uuid, opt_str_view(primary_key), now as int),
{
    if dir_exists {
        Err(IndexError::IndexAlreadyExists)
    } else {
        Ok(IndexMeta::new(uuid, primary_key, now))
    }
}

/// What creating index `uuid` stores and returns, at the current time.
pub fn create_decision(dir_exists: bool, uuid: u128, primary_key: Option<String>) -> (r: Result<
    IndexMeta,
    IndexError,
>)
    ensures
        dir_exists ==> r matches Err(IndexError::IndexAlreadyExists),
        !dir_exists ==> r is Ok && r->Ok_0.uuid == uuid && r->Ok_0.created_at
            == r->Ok_0.updated_at && opt_str_view(r->Ok_0.primary_key) == opt_str_view(
            primary_key,
        ),
{
    let now = now_micros();
    create_decision_at(dir_exists, uuid, primary_key, now)
}

/// The record to commit after an update of the index at `now`, from the record
/// read in the same transaction. A missing record breaks the store's invariant.
pub fn update_decision_at(stored: Option<IndexMeta>, now: Micros) -> (r: Result<
    IndexMeta,
    IndexError,
>)
    ensures
        stored is None ==> r matches Err(IndexError::Error(_)),
        stored is Some ==> r is Ok && r->Ok_0@ == touched_record(stored->0@, now as int),
{
    match stored {
        Some(m) => Ok(m.touched(now)),
        None => Err(IndexError::Error(String::from_str("unexisting index"))),
    }
}

/// The record to commit after an update of the index, at the current time.
pub fn update_decision(stored: Option<IndexMeta>) -> (r: Result<IndexMeta, IndexError>)
    ensures
        stored is None ==> r matches Err(IndexError::Error(_)),
        stored is Some ==> r is Ok && r->Ok_0@ == touched_record(stored->0@, r->Ok_0.updated_at as int),
{
    let now = now_micros();
    update_decision_at(stored, now)
}

/// The first pause, in microseconds, while waiting to become the sole owner
/// of an evicted index.
pub const FIRST_PAUSE_MICROS: u64 = 100;

/// The longest pause, in microseconds, while waiting to become the sole owner
/// of an evicted index.
pub const LONGEST_PAUSE_MICROS: u64 = 100000;

/// The pause after one of `delay` microseconds: doubled, within
/// `FIRST_PAUSE_MICROS ..= LONGEST_PAUSE_MICROS`.
pub open spec fn next_pause(delay: u64) -> u64 {
    if delay < FIRST_PAUSE_MICROS {
        FIRST_PAUSE_MICROS
    } else if delay >= LONGEST_PAUSE_MICROS / 2 {
        LONGEST_PAUSE_MICROS
    } else {
        (2 * delay) as u64
    }
}

/// The next move of the closer of an evicted index.
#[derive(Clone, Copy, Debug, PartialEq, Eq, Structural)]
pub enum CloseStep {
    /// The closer is the sole owner: prepare the index for closing.
    Close,
    /// Other owners remain: pause this many microseconds, then look again.
    Pause(u64),
}

/// Decides, from the number of owners of an evicted index (the closer's own
/// reference included) and the previous pause, whether to close it now or to pause.
pub fn close_step(owners: usize, delay: u64) -> (r: CloseStep)
    ensures
        owners <= 1 ==> r == CloseStep::Close,
        owners > 1 ==> r == CloseStep::Pause(next_pause(delay)),
        r matches CloseStep::Pause(d) ==> FIRST_PAUSE_MICROS <= d <= LONGEST_PAUSE_MICROS && d
            >= delay || delay > LONGEST_PAUSE_MICROS,
{
    if owners <= 1 {
        CloseStep::Close
    } else if delay < FIRST_PAUSE_MICROS {
        CloseStep::Pause(FIRST_PAUSE_MICROS)
    } else if delay >= LONGEST_PAUSE_MICROS / 2 {
        CloseStep::Pause(LONGEST_PAUSE_MICROS)
    } else {
        CloseStep::Pause(2 * delay)
    }
}

/// The live-index cache: at most one opened index per identifier.
pub struct IndexCache<H> {
    map: HashMap<u128, H>,
}

impl<H> View for IndexCache<H> {
    type V = Map<u128, H>;

    closed spec fn view(&self) -> Map<u128, H> {
        self.map@
    }
}

impl<H> IndexCache<H> {
    pub fn new() -> (r: IndexCache<H>)
        ensures
            r@ == Map::<u128, H>::empty(),
    {
        IndexCache { map: HashMap::new() }
    }

    pub fn get(&self, id: u128) -> (r: Option<&H>)
        ensures
            match r {
                Some(h) => self@.contains_key(id) && *h == self@[id],
                None => !self@.contains_key(id),
            },
    {
        self.map.get(&id)
    }

    pub fn contains(&self, id: u128) -> (r: bool)
        ensures
            r == self@.contains_key(id),
    {
        self.map.contains_key(&id)
    }

    /// Installs `h` as the index for `id` unless one is there already, in
    /// which case the cache keeps the one it has. Returns whether `h` went in.
    pub fn install(&mut self, id: u128, h: H) -> (r: bool)
        ensures
            r == !old(self)@.contains_key(id),
            r ==> final(self)@ == old(self)@.insert(id, h),
            !r ==> final(self)@ == old(self)@,
    {
        if self.map.contains_key(&id) {
            false
        } else {
            self.map.insert(id, h);
            true
        }
    }

    /// Removes the index for `id` and hands it back, if there was one.
    pub fn evict(&mut self, id: u128) -> (r: Option<H>)
        ensures
            final(self)@ == old(self)@.remove(id),
            match r {
                Some(h) => old(self)@.contains_key(id) && h == old(self)@[id],
                None => !old(self)@.contains_key(id),
            },
    {
        self.map.remove(&id)
    }
}

} // verus!
