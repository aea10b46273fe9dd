//! The index store as mathematical values, the effect of each operation on
//! it, and the laws that the operations obey together.
use vstd::prelude::*;

use crate::meta::{fresh_record, touched_record, IndexError, MetaView};
use crate::store::{create_outcome, lookup_spec, Lookup};

verus! {

/// The store: the meta database, the index directories on disk, and the
/// identifiers in the live cache.
pub struct StoreModel {
    pub meta: Map<u128, MetaView>,
    pub dirs: Set<u128>,
    pub cache: Set<u128>,
}

/// Every record has a directory and every directory a record; the cache holds
/// only indexes on disk; each record names its own key.
pub open spec fn store_wf(s: StoreModel) -> bool {
    &&& s.meta.dom() == s.dirs
    &&& s.cache.subset_of(s.dirs)
    &&& forall|id: u128| #[trigger] s.meta.contains_key(id) ==> s.meta[id].uuid == id
}

/// What `create_index` returns.
pub open spec fn create_result(s: StoreModel, id: u128, pk: Option<Seq<char>>, now: int) -> Result<
    MetaView,
    IndexError,
> {
    create_outcome(s.dirs.contains(id), id, pk, now)
}

/// The store after `create_index`.
pub open spec fn after_create(s: StoreModel, id: u128, pk: Option<Seq<char>>, now: int) -> StoreModel {
    if s.dirs.contains(id) {
        s
    } else {
        StoreModel {
            meta: s.meta.insert(id, fresh_record(id, pk, now)),
            dirs: s.dirs.insert(id),
            cache: s.cache.insert(id),
        }
    }
}

/// The store after `delete`: record, directory and cache entry are gone.
pub open spec fn after_delete(s: StoreModel, id: u128) -> StoreModel {
    StoreModel { meta: s.meta.remove(id), dirs: s.dirs.remove(id), cache: s.cache.remove(id) }
}

/// The store after a successful update of a cached index committed at `now`.
pub open spec fn after_update(s: StoreModel, id: u128, now: int) -> StoreModel {
    if s.meta.contains_key(id) {
        StoreModel { meta: s.meta.insert(id, touched_record(s.meta[id], now)), ..s }
    } else {
        s
    }
}

/// The store after a restart of the process: nothing is open.
pub open spec fn after_restart(s: StoreModel) -> StoreModel {
    StoreModel { cache: Set::empty(), ..s }
}

/// The store after a lookup that opened index `id`.
pub open spec fn after_lookup(s: StoreModel, id: u128) -> StoreModel {
    if lookup_spec(s.cache.contains(id), s.dirs.contains(id)) == Lookup::Open {
        StoreModel { cache: s.cache.insert(id), ..s }
    } else {
        s
    }
}

/// What `get_meta` returns.
pub open spec fn meta_of(s: StoreModel, id: u128) -> Option<MetaView> {
    if s.meta.contains_key(id) {
        Some(s.meta[id])
    } else {
        None
    }
}

/// What `get` returns: whether an index is handed out.
pub open spec fn index_found(s: StoreModel, id: u128) -> bool {
    lookup_spec(s.cache.contains(id), s.dirs.contains(id)) != Lookup::Absent
}

/// Every operation keeps the store well formed.
pub proof fn law_operations_keep_wf(s: StoreModel, id: u128, pk: Option<Seq<char>>, now: int)
    requires
        store_wf(s),
    ensures
        store_wf(after_create(s, id, pk, now)),
        store_wf(after_delete(s, id)),
        store_wf(after_update(s, id, now)),
        store_wf(after_restart(s)),
        store_wf(after_lookup(s, id)),
{
    let c = after_create(s, id, pk, now);
    assert(c.meta.dom() =~= c.dirs);
    let d = after_delete(s, id);
    assert(d.meta.dom() =~= d.dirs);
    let u = after_update(s, id, now);
    assert(u.meta.dom() =~= u.dirs);
}

/// A successful creation is read back by `get_meta` exactly as it was stored:
/// the given identifier and primary key, created and updated at the same
/// instant, the creation's clock reading.
pub proof fn law_create_then_get_meta(s: StoreModel, id: u128, pk: Option<Seq<char>>, now: int)
    requires
        create_result(s, id, pk, now) is Ok,
    ensures
        meta_of(after_create(s, id, pk, now), id) == Some(create_result(s, id, pk, now)->Ok_0),
        create_result(s, id, pk, now)->Ok_0 == fresh_record(id, pk, now),
        fresh_record(id, pk, now).created_at == fresh_record(id, pk, now).updated_at,
        index_found(after_create(s, id, pk, now), id),
{
}

/// Creating an index whose directory exists fails with `IndexAlreadyExists`
/// and changes nothing, the meta database included.
pub proof fn law_create_existing_fails(s: StoreModel, id: u128, pk: Option<Seq<char>>, now: int)
    requires
        store_wf(s),
        s.meta.contains_key(id),
    ensures
        create_result(s, id, pk, now) == Err::<MetaView, IndexError>(
            IndexError::IndexAlreadyExists,
        ),
        after_create(s, id, pk, now) == s,
        meta_of(after_create(s, id, pk, now), id) == meta_of(s, id),
{
}

/// After a delete, `get_meta` finds nothing and no index is handed out, so
/// search, settings and document requests fail with `UnexistingIndex`.
pub proof fn law_delete_then_absent(s: StoreModel, id: u128)
    ensures
        meta_of(after_delete(s, id), id) is None,
        !index_found(after_delete(s, id), id),
        lookup_spec(after_delete(s, id).cache.contains(id), after_delete(s, id).dirs.contains(id))
            == Lookup::Absent,
{
}

/// Deleting an unknown index changes nothing.
pub proof fn law_delete_unknown_is_noop(s: StoreModel, id: u128)
    requires
        store_wf(s),
        !s.dirs.contains(id),
    ensures
        after_delete(s, id) == s,
{
    assert(!s.meta.contains_key(id));
    assert(!s.cache.contains(id));
    assert(s.meta.remove(id) =~= s.meta);
    assert(s.dirs.remove(id) =~= s.dirs);
    assert(s.cache.remove(id) =~= s.cache);
}

/// Create, delete, then create the same identifier again: the second
/// creation succeeds and carries the second clock reading.
pub proof fn law_recreate_after_delete(
    s: StoreModel,
    id: u128,
    pk1: Option<Seq<char>>,
    pk2: Option<Seq<char>>,
    t1: int,
    t2: int,
)
    requires
        create_result(s, id, pk1, t1) is Ok,
    ensures
        create_result(after_delete(after_create(s, id, pk1, t1), id), id, pk2, t2) == Ok::<
            MetaView,
            IndexError,
        >(fresh_record(id, pk2, t2)),
        meta_of(after_create(after_delete(after_create(s, id, pk1, t1), id), id, pk2, t2), id)
            == Some(fresh_record(id, pk2, t2)),
{
}

/// An update sets `updated_at` to its clock reading and keeps the rest of the
/// record; so when the clock does not go back, `updated_at` never decreases,
/// and it strictly increases when the clock moves forward.
pub proof fn law_update_monotone(s: StoreModel, id: u128, now: int)
    requires
        s.meta.contains_key(id),
    ensures
        meta_of(after_update(s, id, now), id) == Some(touched_record(s.meta[id], now)),
        now >= s.meta[id].updated_at ==> after_update(s, id, now).meta[id].updated_at
            >= s.meta[id].updated_at,
        now > s.meta[id].updated_at ==> after_update(s, id, now).meta[id].updated_at
            > s.meta[id].updated_at,
        after_update(s, id, now).meta[id].created_at == s.meta[id].created_at,
        after_update(s, id, now).meta[id].primary_key == s.meta[id].primary_key,
{
}

/// A restart keeps every record, and an index that existed before is found
/// again by a lookup that reopens it.
pub proof fn law_restart_keeps_records(s: StoreModel, id: u128)
    requires
        store_wf(s),
        s.meta.contains_key(id),
    ensures
        meta_of(after_restart(s), id) == meta_of(s, id),
        lookup_spec(
            after_restart(s).cache.contains(id),
            after_restart(s).dirs.contains(id),
        ) == Lookup::Open,
        after_lookup(after_restart(s), id).cache.contains(id),
        index_found(after_restart(s), id),
{
}

} // verus!
