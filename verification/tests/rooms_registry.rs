use videoroom::engine::RouterOutcome;
use videoroom::ids::{HandlerId, RoomId, RouterId};
use videoroom::room::{RoomRef, WeakRoom};
use videoroom::rooms_registry::{Admission, RoomsRegistry};

fn created(router: u128) -> RouterOutcome {
    RouterOutcome::Created(RouterId(router))
}

#[test]
fn unknown_room_has_to_be_built() {
    let mut registry = RoomsRegistry::new();
    assert!(registry.admissible(RoomId(1)));
    assert_eq!(registry.get_or_create_room(RoomId(1)), Admission::Construct);
    assert_eq!(registry.get(RoomId(1)), None);
}

#[test]
fn second_request_joins_the_same_room() {
    let mut registry = RoomsRegistry::new();
    assert_eq!(registry.get_or_create_room(RoomId(1)), Admission::Construct);
    let room = registry.construct_room(RoomId(1), &created(77)).unwrap();
    assert_eq!(room.id(), RoomId(1));
    assert_eq!(room.router(), RouterId(77));
    assert_eq!(
        registry.get_or_create_room(RoomId(1)),
        Admission::Join(RoomRef { id: RoomId(1), router: RouterId(77) })
    );
    assert_eq!(
        registry.get(RoomId(1)),
        Some(WeakRoom { id: RoomId(1), router: RouterId(77), strong: 2 })
    );
}

#[test]
fn failed_construction_leaves_no_entry() {
    let mut registry = RoomsRegistry::new();
    let failed = registry.construct_room(RoomId(1), &RouterOutcome::WorkerFailed("w".to_string()));
    assert_eq!(failed.err(), Some("Failed to create worker: w".to_string()));
    assert_eq!(registry.get(RoomId(1)), None);
    let failed = registry.create_room(&RouterOutcome::RouterFailed("r".to_string()));
    assert_eq!(failed.err(), Some("Failed to create router: r".to_string()));
    assert_eq!(registry.get_or_create_room(RoomId(1)), Admission::Construct);
}

#[test]
fn create_room_records_a_fresh_id() {
    let mut registry = RoomsRegistry::new();
    let a = registry.create_room(&created(1)).unwrap();
    let b = registry.create_room(&created(2)).unwrap();
    assert_ne!(a.id(), b.id());
    assert_eq!(
        registry.get(a.id()),
        Some(WeakRoom { id: a.id(), router: RouterId(1), strong: 1 })
    );
    assert_eq!(
        registry.get(b.id()),
        Some(WeakRoom { id: b.id(), router: RouterId(2), strong: 1 })
    );
}

#[test]
fn room_closes_with_its_last_handle_only() {
    let mut registry = RoomsRegistry::new();
    let room = registry.construct_room(RoomId(1), &created(77)).unwrap();
    let handle = RoomRef { id: room.id(), router: room.router() };
    assert_eq!(registry.get_or_create_room(RoomId(1)), Admission::Join(handle));
    assert!(!registry.release(handle));
    assert!(registry.release(handle));
    assert!(!registry.release(handle));
    assert_eq!(
        registry.get(RoomId(1)),
        Some(WeakRoom { id: RoomId(1), router: RouterId(77), strong: 0 })
    );
}

#[test]
fn refetch_after_close_builds_a_new_room() {
    let mut registry = RoomsRegistry::new();
    let old = registry.construct_room(RoomId(1), &created(77)).unwrap();
    let old_handle = RoomRef { id: old.id(), router: old.router() };
    assert!(registry.release(old_handle));
    assert_eq!(registry.get_or_create_room(RoomId(1)), Admission::Construct);
    let new = registry.construct_room(RoomId(1), &created(78)).unwrap();
    assert_eq!(new.router(), RouterId(78));
    assert_eq!(
        registry.get_or_create_room(RoomId(1)),
        Admission::Join(RoomRef { id: RoomId(1), router: RouterId(78) })
    );
}

#[test]
fn forget_removes_only_its_own_expired_entry() {
    let mut registry = RoomsRegistry::new();
    let old = registry.construct_room(RoomId(1), &created(77)).unwrap();
    let old_handle = RoomRef { id: old.id(), router: old.router() };
    registry.forget(old_handle);
    assert!(registry.get(RoomId(1)).is_some());
    assert!(registry.release(old_handle));
    let new = registry.construct_room(RoomId(1), &created(78)).unwrap();
    registry.forget(old_handle);
    assert_eq!(
        registry.get(RoomId(1)),
        Some(WeakRoom { id: RoomId(1), router: new.router(), strong: 1 })
    );
    let new_handle = RoomRef { id: RoomId(1), router: RouterId(78) };
    assert!(registry.release(new_handle));
    registry.forget(new_handle);
    assert_eq!(registry.get(RoomId(1)), None);
}

#[test]
fn stale_handle_releases_nothing() {
    let mut registry = RoomsRegistry::new();
    registry.construct_room(RoomId(1), &created(77)).unwrap();
    assert!(!registry.release(RoomRef { id: RoomId(1), router: RouterId(1) }));
    assert!(!registry.release(RoomRef { id: RoomId(2), router: RouterId(77) }));
    assert_eq!(
        registry.get(RoomId(1)),
        Some(WeakRoom { id: RoomId(1), router: RouterId(77), strong: 1 })
    );
}

#[test]
fn rooms_are_kept_apart() {
    let mut registry = RoomsRegistry::new();
    registry.construct_room(RoomId(1), &created(10)).unwrap();
    registry.construct_room(RoomId(2), &created(20)).unwrap();
    assert!(registry.release(RoomRef { id: RoomId(1), router: RouterId(10) }));
    assert_eq!(
        registry.get_or_create_room(RoomId(2)),
        Admission::Join(RoomRef { id: RoomId(2), router: RouterId(20) })
    );
    assert_eq!(registry.get_or_create_room(RoomId(1)), Admission::Construct);
}

#[test]
fn built_room_tells_the_directory_of_its_closing() {
    let mut registry = RoomsRegistry::default();
    let mut room = registry.construct_room(RoomId(1), &created(10)).unwrap();
    assert_eq!(room.close_listeners(), vec![HandlerId(0)]);
    assert!(room.get_all_producers().is_empty());
    let later = room.on_close();
    assert_eq!(room.close().listeners, vec![HandlerId(0), later]);
    let mut other = registry.create_room(&created(11)).unwrap();
    assert_eq!(other.close().listeners, vec![HandlerId(0)]);
}

#[test]
fn last_leaver_closes_the_room() {
    let mut registry = RoomsRegistry::new();
    let mut room = registry.construct_room(RoomId(1), &created(10)).unwrap();
    let watcher = room.on_close();
    assert!(matches!(registry.get_or_create_room(RoomId(1)), Admission::Join(_)));
    assert!(registry.leave(&mut room).is_none());
    assert!(!room.is_closed());
    let closing = registry.leave(&mut room).unwrap();
    assert_eq!(closing.listeners, vec![HandlerId(0), watcher]);
    assert!(closing.stop.is_none());
    assert!(room.is_closed());
    assert!(registry.leave(&mut room).is_none());
    assert_eq!(registry.get_or_create_room(RoomId(1)), Admission::Construct);
}

#[test]
fn liveness_follows_the_handles() {
    let mut registry = RoomsRegistry::new();
    assert!(!registry.is_live(RoomId(1)));
    let room = registry.construct_room(RoomId(1), &created(10)).unwrap();
    assert!(registry.is_live(RoomId(1)));
    assert!(!registry.is_live(RoomId(2)));
    assert!(registry.release(RoomRef { id: room.id(), router: room.router() }));
    assert!(!registry.is_live(RoomId(1)));
    assert!(registry.get(RoomId(1)).is_some());
}

#[test]
fn created_rooms_carry_random_identifiers() {
    let mut registry = RoomsRegistry::new();
    let room = registry.create_room(&created(10)).unwrap();
    assert_eq!((room.id().0 / 0x1000_0000_0000_0000_0000) % 16, 4);
    assert_eq!((room.id().0 / 0x4000_0000_0000_0000) % 4, 2);
}
