use tokio::sync::broadcast::error::TryRecvError;
use turkey::app::App;
use turkey::events::{Point, ServerEvent, Style};
use turkey::room::{publish, reached, Room, RoomSet, BACKLOG};

fn pencil_mark(uuid: &str) -> ServerEvent {
    ServerEvent::Draw {
        uuid: uuid.to_string(),
        user: "brave-heron".to_string(),
        points: vec![Point { x: 1, y: 1 }],
        kind: "line".to_string(),
        style: Style { color: "#000000".to_string(), line_width: 1.0f32.to_bits() },
    }
}

fn cursor(uuid: &str) -> ServerEvent {
    ServerEvent::Hover {
        uuid: uuid.to_string(),
        user: "brave-heron".to_string(),
        point: Point { x: 2, y: 3 },
    }
}

#[test]
fn the_count_is_what_the_hub_answered() {
    assert_eq!(reached(None), 0);
    assert_eq!(reached(Some(1)), 1);
    assert_eq!(reached(Some(3)), 3);
    assert_eq!(reached(Some(usize::MAX)), usize::MAX);
}

#[test]
fn the_backlog_is_256() {
    assert_eq!(BACKLOG, 256);
}

#[test]
fn what_is_published_reaches_every_subscriber() {
    let room = Room::new();
    let (publisher, mut first) = room.subscribe();
    let (_, mut second) = room.subscribe();
    assert_eq!(publish(&publisher, pencil_mark("s1")), 2);
    assert_eq!(publish(&publisher, cursor("h1")), 2);
    assert_eq!(first.try_recv(), Ok(pencil_mark("s1")));
    assert_eq!(first.try_recv(), Ok(cursor("h1")));
    assert_eq!(first.try_recv(), Err(TryRecvError::Empty));
    assert_eq!(second.try_recv(), Ok(pencil_mark("s1")));
    assert_eq!(second.try_recv(), Ok(cursor("h1")));
    assert_eq!(second.try_recv(), Err(TryRecvError::Empty));
}

#[test]
fn a_publisher_hears_itself() {
    let room = Room::new();
    let (publisher, mut subscriber) = room.subscribe();
    assert_eq!(publish(&publisher, pencil_mark("s1")), 1);
    assert_eq!(subscriber.try_recv(), Ok(pencil_mark("s1")));
}

#[test]
fn a_subscriber_misses_what_was_published_before_it_came() {
    let room = Room::new();
    let (publisher, mut early) = room.subscribe();
    publish(&publisher, pencil_mark("s1"));
    let (_, mut late) = room.subscribe();
    publish(&publisher, pencil_mark("s2"));
    assert_eq!(early.try_recv(), Ok(pencil_mark("s1")));
    assert_eq!(early.try_recv(), Ok(pencil_mark("s2")));
    assert_eq!(late.try_recv(), Ok(pencil_mark("s2")));
    assert_eq!(late.try_recv(), Err(TryRecvError::Empty));
}

#[test]
fn publishing_to_nobody_reaches_nobody() {
    let room = Room::new();
    let (publisher, subscriber) = room.subscribe();
    drop(subscriber);
    assert_eq!(publish(&publisher, pencil_mark("s1")), 0);
    let (_, mut late) = room.subscribe();
    assert_eq!(late.try_recv(), Err(TryRecvError::Empty));
    assert_eq!(publish(&publisher, pencil_mark("s2")), 1);
    assert_eq!(late.try_recv(), Ok(pencil_mark("s2")));
}

#[test]
fn a_subscriber_keeps_up_with_a_full_backlog() {
    let room = Room::new();
    let (publisher, mut subscriber) = room.subscribe();
    for i in 0..BACKLOG {
        publish(&publisher, pencil_mark(&format!("s{}", i)));
    }
    for i in 0..BACKLOG {
        assert_eq!(subscriber.try_recv(), Ok(pencil_mark(&format!("s{}", i))));
    }
    assert_eq!(subscriber.try_recv(), Err(TryRecvError::Empty));
}

#[test]
fn a_subscriber_behind_by_more_than_the_backlog_is_lagging() {
    let room = Room::new();
    let (publisher, mut slow) = room.subscribe();
    for i in 0..BACKLOG + 1 {
        publish(&publisher, pencil_mark(&format!("s{}", i)));
    }
    assert_eq!(slow.try_recv(), Err(TryRecvError::Lagged(1)));
}

#[test]
fn two_rooms_do_not_hear_each_other() {
    let here = Room::new();
    let there = Room::new();
    let (to_here, mut from_here) = here.subscribe();
    let (to_there, mut from_there) = there.subscribe();
    assert!(!to_here.same_channel(&to_there));
    publish(&to_here, pencil_mark("s1"));
    assert_eq!(from_here.try_recv(), Ok(pencil_mark("s1")));
    assert_eq!(from_there.try_recv(), Err(TryRecvError::Empty));
}

#[test]
fn one_room_per_id() {
    let mut rooms = RoomSet::new();
    let (first, _keep_first) = rooms.find_or_create("demo").subscribe();
    let (elsewhere, _keep_elsewhere) = rooms.find_or_create("other").subscribe();
    let (second, mut from_second) = rooms.find_or_create("demo").subscribe();
    assert!(first.same_channel(&second));
    assert!(!first.same_channel(&elsewhere));
    assert_eq!(publish(&first, pencil_mark("s1")), 2);
    assert_eq!(from_second.try_recv(), Ok(pencil_mark("s1")));
}

#[test]
fn the_handles_of_a_room_are_on_its_hub() {
    let room = Room::new();
    let (first, from_first) = room.subscribe();
    let (second, from_second) = room.subscribe();
    assert!(first.same_channel(&second));
    assert!(from_first.same_channel(&from_second));
    let other = Room::new();
    let (third, from_third) = other.subscribe();
    assert!(!third.same_channel(&first));
    assert!(!from_third.same_channel(&from_first));
}

#[test]
fn joining_under_one_id_subscribes_to_one_hub() {
    let mut app = App::new();
    let (first, mut from_first) = app.join("demo");
    let (_elsewhere, from_elsewhere) = app.join("other");
    let (second, mut from_second) = app.join("demo");
    assert!(first.same_channel(&second));
    assert!(from_first.same_channel(&from_second));
    assert!(!from_first.same_channel(&from_elsewhere));
    assert_eq!(publish(&first, pencil_mark("s1")), 2);
    assert_eq!(publish(&second, pencil_mark("s2")), 2);
    for subscriber in [&mut from_first, &mut from_second] {
        assert_eq!(subscriber.try_recv(), Ok(pencil_mark("s1")));
        assert_eq!(subscriber.try_recv(), Ok(pencil_mark("s2")));
        assert_eq!(subscriber.try_recv(), Err(TryRecvError::Empty));
    }
}

#[test]
fn room_ids_are_taken_to_the_letter() {
    let mut rooms = RoomSet::new();
    let (lower, _a) = rooms.find_or_create("demo").subscribe();
    let (upper, _b) = rooms.find_or_create("Demo").subscribe();
    let (spaced, _c) = rooms.find_or_create("demo ").subscribe();
    let (empty, _d) = rooms.find_or_create("").subscribe();
    assert!(!lower.same_channel(&upper));
    assert!(!lower.same_channel(&spaced));
    assert!(!lower.same_channel(&empty));
    let (again, _e) = rooms.find_or_create("").subscribe();
    assert!(empty.same_channel(&again));
}

#[test]
fn a_room_outlives_its_members() {
    let mut rooms = RoomSet::new();
    let (first, subscriber) = rooms.find_or_create("demo").subscribe();
    drop(subscriber);
    let (second, _keep) = rooms.find_or_create("demo").subscribe();
    assert!(first.same_channel(&second));
}

#[test]
fn the_registry_keeps_the_history_of_its_rooms() {
    let mut rooms = RoomSet::new();
    assert_eq!(rooms.get_history("demo"), None);
    rooms.record_history("demo", pencil_mark("s1"));
    rooms.record_history("demo", cursor("h1"));
    rooms.record_history("demo", pencil_mark("s2"));
    assert_eq!(rooms.get_history("demo"), Some(&vec![pencil_mark("s1"), pencil_mark("s2")]));
    assert_eq!(rooms.replay("demo"), vec![pencil_mark("s1"), pencil_mark("s2")]);
    assert_eq!(rooms.get_history("other"), None);
    assert_eq!(rooms.replay("other"), Vec::<ServerEvent>::new());
    rooms.clear_history("demo");
    assert_eq!(rooms.get_history("demo"), None);
    rooms.record_history("demo", pencil_mark("s3"));
    rooms.record_history(
        "demo",
        ServerEvent::Erase { uuid: "e1".to_string(), user: "brave-heron".to_string() },
    );
    assert_eq!(rooms.replay("demo"), Vec::<ServerEvent>::new());
}

#[test]
fn recording_does_not_make_a_room_nor_joining_a_log() {
    let mut rooms = RoomSet::new();
    let (first, _keep) = rooms.find_or_create("demo").subscribe();
    assert_eq!(rooms.get_history("demo"), None);
    rooms.record_history("demo", pencil_mark("s1"));
    let (second, _keep_second) = rooms.find_or_create("demo").subscribe();
    assert!(first.same_channel(&second));
    assert_eq!(rooms.replay("demo"), vec![pencil_mark("s1")]);
}

#[test]
fn the_app_lets_connections_into_one_room() {
    let mut app = App::new();
    let (first, mut from_first) = app.join("demo");
    let (second, mut from_second) = app.join("demo");
    let (elsewhere, mut from_elsewhere) = app.join("other");
    assert!(first.same_channel(&second));
    assert!(!first.same_channel(&elsewhere));
    assert_eq!(publish(&second, pencil_mark("s1")), 2);
    assert_eq!(from_first.try_recv(), Ok(pencil_mark("s1")));
    assert_eq!(from_second.try_recv(), Ok(pencil_mark("s1")));
    assert_eq!(from_elsewhere.try_recv(), Err(TryRecvError::Empty));
}

#[test]
fn the_app_records_and_replays() {
    let mut app = App::new();
    assert_eq!(app.replay("demo"), Vec::<ServerEvent>::new());
    app.record("demo", pencil_mark("s1"));
    app.record("demo", cursor("h1"));
    app.record("other", pencil_mark("s2"));
    app.record("demo", pencil_mark("s3"));
    assert_eq!(app.replay("demo"), vec![pencil_mark("s1"), pencil_mark("s3")]);
    assert_eq!(app.replay("other"), vec![pencil_mark("s2")]);
    app.record(
        "demo",
        ServerEvent::Erase { uuid: "e1".to_string(), user: "calm-owl".to_string() },
    );
    assert_eq!(app.replay("demo"), Vec::<ServerEvent>::new());
    assert_eq!(app.replay("other"), vec![pencil_mark("s2")]);
}
