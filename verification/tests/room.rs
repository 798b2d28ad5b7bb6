use videoroom::engine::RouterOutcome;
use videoroom::ids::{HandlerId, ParticipantId, ProducerId, RoomId, RouterId};
use videoroom::room::{MediaKind, Producer, Room, RoomRef, WeakRoom};

fn room(id: u128) -> Room {
    Room::new_with_id(&RouterOutcome::Created(RouterId(900)), RoomId(id)).unwrap()
}

fn audio(id: u128) -> Producer {
    Producer { id: ProducerId(id), kind: MediaKind::Audio }
}

fn video(id: u128) -> Producer {
    Producer { id: ProducerId(id), kind: MediaKind::Video }
}

#[test]
fn new_room_is_empty() {
    let r = room(1);
    assert_eq!(r.id(), RoomId(1));
    assert_eq!(r.router(), RouterId(900));
    assert!(r.get_all_producers().is_empty());
    assert!(r.producer_add_listeners().is_empty());
    assert!(r.producer_remove_listeners().is_empty());
    assert!(r.close_listeners().is_empty());
    assert!(!r.is_closed());
    assert!(r.recorder().is_none());
}

#[test]
fn room_with_random_id_keeps_router() {
    let r = Room::new(&RouterOutcome::Created(RouterId(5))).unwrap();
    assert_eq!(r.router(), RouterId(5));
    let other = Room::new(&RouterOutcome::Created(RouterId(5))).unwrap();
    assert_ne!(r.id(), other.id());
    assert_eq!((r.id().0 / 0x1000_0000_0000_0000_0000) % 16, 4);
    assert_eq!((r.id().0 / 0x4000_0000_0000_0000) % 4, 2);
}

#[test]
fn room_is_not_built_when_worker_fails() {
    let built = Room::new_with_id(&RouterOutcome::WorkerFailed("no worker".to_string()), RoomId(1));
    assert_eq!(built.err(), Some("Failed to create worker: no worker".to_string()));
}

#[test]
fn room_is_not_built_when_router_fails() {
    let built = Room::new_with_id(&RouterOutcome::RouterFailed("no router".to_string()), RoomId(1));
    assert_eq!(built.err(), Some("Failed to create router: no router".to_string()));
    let built = Room::new(&RouterOutcome::RouterFailed("x".to_string()));
    assert_eq!(built.err(), Some("Failed to create router: x".to_string()));
}

#[test]
fn set_participant_name_creates_and_updates() {
    let mut r = room(1);
    let a = ParticipantId(10);
    assert!(!r.has_participant(a));
    r.set_participant_name(a, "alice".to_string());
    assert!(r.has_participant(a));
    r.add_producer(a, audio(100));
    r.set_participant_name(a, "alicia".to_string());
    assert_eq!(r.get_all_producers(), vec![(a, "alicia".to_string(), ProducerId(100))]);
}

#[test]
fn add_producer_creates_entry_with_empty_name() {
    let mut r = room(1);
    let a = ParticipantId(10);
    let event = r.add_producer(a, audio(100));
    assert_eq!(event.participant_id, a);
    assert_eq!(event.name, "");
    assert_eq!(event.producer, audio(100));
    assert!(event.listeners.is_empty());
    assert_eq!(r.get_all_producers(), vec![(a, String::new(), ProducerId(100))]);
}

#[test]
fn add_producer_reports_name_at_time_of_call() {
    let mut r = room(1);
    let a = ParticipantId(10);
    r.set_participant_name(a, "alice".to_string());
    let event = r.add_producer(a, video(7));
    assert_eq!(event.name, "alice");
    r.set_participant_name(a, "bob".to_string());
    let event = r.add_producer(a, video(8));
    assert_eq!(event.name, "bob");
}

#[test]
fn subscriber_added_before_sees_event_and_later_one_does_not() {
    let mut r = room(1);
    let early = r.on_producer_add();
    let event = r.add_producer(ParticipantId(10), audio(100));
    assert_eq!(event.listeners, vec![early]);
    let late = r.on_producer_add();
    assert_ne!(early, late);
    let event = r.add_producer(ParticipantId(10), audio(101));
    assert_eq!(event.listeners, vec![early, late]);
}

#[test]
fn listing_is_in_joining_and_creation_order() {
    let mut r = room(1);
    let a = ParticipantId(10);
    let b = ParticipantId(20);
    r.set_participant_name(a, "a".to_string());
    r.add_producer(b, audio(200));
    r.add_producer(a, audio(100));
    r.add_producer(b, video(201));
    r.add_producer(a, video(101));
    assert_eq!(
        r.get_all_producers(),
        vec![
            (a, "a".to_string(), ProducerId(100)),
            (a, "a".to_string(), ProducerId(101)),
            (b, String::new(), ProducerId(200)),
            (b, String::new(), ProducerId(201)),
        ]
    );
}

#[test]
fn listing_is_added_minus_removed() {
    let mut r = room(1);
    let a = ParticipantId(10);
    let b = ParticipantId(20);
    let c = ParticipantId(30);
    r.add_producer(a, audio(1));
    r.add_producer(b, audio(2));
    r.add_producer(a, video(3));
    r.remove_participant(&a);
    r.add_producer(c, audio(4));
    r.add_producer(a, audio(5));
    r.add_producer(b, audio(2));
    r.remove_participant(&c);
    let mut all: Vec<(u128, u128)> =
        r.get_all_producers().into_iter().map(|(p, _, id)| (p.0, id.0)).collect();
    all.sort();
    assert_eq!(all, vec![(10, 5), (20, 2), (20, 2)]);
}

#[test]
fn remove_participant_emits_one_event_per_producer() {
    let mut r = room(1);
    let a = ParticipantId(10);
    let listener = r.on_producer_remove();
    r.add_producer(a, audio(1));
    r.add_producer(a, video(2));
    r.add_producer(a, video(3));
    r.add_producer(ParticipantId(11), video(9));
    let removed = r.remove_participant(&a);
    assert_eq!(
        removed.events,
        vec![(a, ProducerId(1)), (a, ProducerId(2)), (a, ProducerId(3))]
    );
    assert_eq!(removed.listeners, vec![listener]);
    assert!(!r.has_participant(a));
    assert_eq!(r.get_all_producers(), vec![(ParticipantId(11), String::new(), ProducerId(9))]);
}

#[test]
fn remove_unknown_participant_is_a_no_op() {
    let mut r = room(1);
    r.add_producer(ParticipantId(10), audio(1));
    let removed = r.remove_participant(&ParticipantId(99));
    assert!(removed.events.is_empty());
    assert_eq!(r.get_all_producers().len(), 1);
}

#[test]
fn double_removal_emits_nothing_the_second_time() {
    let mut r = room(1);
    let a = ParticipantId(10);
    r.add_producer(a, audio(1));
    assert_eq!(r.remove_participant(&a).events.len(), 1);
    assert!(r.remove_participant(&a).events.is_empty());
    assert!(r.get_all_producers().is_empty());
}

#[test]
fn subscriptions_are_numbered_in_order() {
    let mut r = room(1);
    assert!(r.can_subscribe(3));
    assert_eq!(r.on_producer_add(), HandlerId(0));
    assert_eq!(r.on_producer_remove(), HandlerId(1));
    assert_eq!(r.on_close(), HandlerId(2));
    assert_eq!(r.producer_add_listeners(), vec![HandlerId(0)]);
    assert_eq!(r.producer_remove_listeners(), vec![HandlerId(1)]);
    assert_eq!(r.close_listeners(), vec![HandlerId(2)]);
    assert!(r.can_subscribe(u64::MAX - 3));
    assert!(!r.can_subscribe(u64::MAX - 2));
}

#[test]
fn unsubscribe_ends_only_that_subscription() {
    let mut r = room(1);
    let a = r.on_producer_add();
    let b = r.on_producer_add();
    let c = r.on_producer_remove();
    r.unsubscribe(a);
    assert_eq!(r.producer_add_listeners(), vec![b]);
    assert_eq!(r.producer_remove_listeners(), vec![c]);
    let event = r.add_producer(ParticipantId(1), audio(1));
    assert_eq!(event.listeners, vec![b]);
}

#[test]
fn close_fires_exactly_once() {
    let mut r = room(1);
    let a = r.on_close();
    let b = r.on_close();
    let closing = r.close();
    assert_eq!(closing.listeners, vec![a, b]);
    assert!(closing.stop.is_none());
    assert!(r.is_closed());
    let again = r.close();
    assert!(again.listeners.is_empty());
    assert!(again.stop.is_none());
    assert!(r.is_closed());
}

#[test]
fn subscriber_after_close_is_never_told() {
    let mut r = room(1);
    r.close();
    let late = r.on_close();
    assert!(r.close().listeners.is_empty());
    assert_eq!(r.close_listeners(), vec![late]);
}

#[test]
fn downgrade_counts_the_builder() {
    let r = room(4);
    assert_eq!(r.downgrade(), WeakRoom { id: RoomId(4), router: RouterId(900), strong: 1 });
}

#[test]
fn upgrade_of_live_and_gone_room() {
    let mut weak = WeakRoom { id: RoomId(4), router: RouterId(9), strong: 1 };
    assert_eq!(weak.upgrade(), Some(RoomRef { id: RoomId(4), router: RouterId(9) }));
    assert_eq!(weak.strong, 2);
    let mut gone = WeakRoom { id: RoomId(4), router: RouterId(9), strong: 0 };
    assert_eq!(gone.upgrade(), None);
    assert_eq!(gone.strong, 0);
}
