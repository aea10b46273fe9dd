use index_actor::actor::{lane_of, ActorConfig, Lane, MsgKind};
use index_actor::meta::IndexError;
use index_actor::store::{close_step, lookup_decision, require_index, CloseStep, IndexCache, Lookup};

#[test]
fn lookup_resolution() {
    assert_eq!(lookup_decision(true, true), Lookup::Cached);
    assert_eq!(lookup_decision(false, true), Lookup::Open);
    assert_eq!(lookup_decision(false, false), Lookup::Absent);
}

#[test]
fn missing_index_is_unexisting() {
    let r: Result<u8, IndexError> = require_index(None);
    assert!(matches!(r, Err(IndexError::UnexistingIndex)));
    assert_eq!(require_index(Some(3u8)).unwrap(), 3);
}

#[test]
fn cache_keeps_first_install() {
    let mut cache: IndexCache<&str> = IndexCache::new();
    assert!(cache.install(1, "first"));
    assert!(!cache.install(1, "second"));
    assert_eq!(cache.get(1), Some(&"first"));
    assert!(cache.contains(1));
    assert!(!cache.contains(2));
}

#[test]
fn delete_evicts_and_unknown_delete_is_noop() {
    let mut cache: IndexCache<u32> = IndexCache::new();
    cache.install(1, 10);
    assert_eq!(cache.evict(1), Some(10));
    assert_eq!(cache.get(1), None);
    assert_eq!(cache.evict(1), None);
    assert_eq!(cache.evict(7), None);
    assert_eq!(lookup_decision(cache.contains(1), false), Lookup::Absent);
}

#[test]
fn restart_reopens_lazily() {
    let cache: IndexCache<u32> = IndexCache::new();
    assert_eq!(lookup_decision(cache.contains(1), true), Lookup::Open);
}

#[test]
fn mutations_go_to_write_lane() {
    assert_eq!(lane_of(MsgKind::CreateIndex), Lane::Write);
    assert_eq!(lane_of(MsgKind::Update), Lane::Write);
    assert_eq!(lane_of(MsgKind::Delete), Lane::Write);
    assert_eq!(lane_of(MsgKind::Search), Lane::Read);
    assert_eq!(lane_of(MsgKind::Settings), Lane::Read);
    assert_eq!(lane_of(MsgKind::Documents), Lane::Read);
    assert_eq!(lane_of(MsgKind::Document), Lane::Read);
    assert_eq!(lane_of(MsgKind::GetMeta), Lane::Read);
}

#[test]
fn standard_config() {
    let c = ActorConfig::standard();
    assert_eq!(c.meta_map_size, 1 << 30);
    assert_eq!(c.index_map_size, 4096 * 100_000);
    assert_eq!(c.concurrency(Lane::Read), 10);
    assert_eq!(c.concurrency(Lane::Write), 1);
    assert_eq!(c.channel_capacity, 100);
}

#[test]
fn close_waits_for_sole_owner_with_backoff() {
    assert_eq!(close_step(1, 0), CloseStep::Close);
    assert_eq!(close_step(2, 0), CloseStep::Pause(100));
    assert_eq!(close_step(3, 100), CloseStep::Pause(200));
    assert_eq!(close_step(2, 60_000), CloseStep::Pause(100_000));
    assert_eq!(close_step(2, 100_000), CloseStep::Pause(100_000));
}
