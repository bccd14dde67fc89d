use turkey::events::{Point, ServerEvent, Style};
use turkey::history::{store_ops, History, StoreOp, RETENTION_SECONDS};

fn draw_by(user: &str, uuid: &str) -> ServerEvent {
    ServerEvent::Draw {
        uuid: uuid.to_string(),
        user: user.to_string(),
        points: vec![Point { x: 1, y: 2 }, Point { x: 3, y: 4 }],
        kind: "line".to_string(),
        style: Style { color: "#112233".to_string(), line_width: 4.0f32.to_bits() },
    }
}

fn fill_by(user: &str, uuid: &str) -> ServerEvent {
    ServerEvent::Fill {
        uuid: uuid.to_string(),
        user: user.to_string(),
        point: Point { x: 9, y: 9 },
        color: "#abcdef".to_string(),
    }
}

fn preview_by(user: &str, uuid: &str) -> ServerEvent {
    ServerEvent::Preview {
        uuid: uuid.to_string(),
        user: user.to_string(),
        kind: "line".to_string(),
        points: vec![Point { x: 1, y: 2 }],
        style: Style { color: "#112233".to_string(), line_width: 4.0f32.to_bits() },
    }
}

fn hover_by(user: &str, uuid: &str) -> ServerEvent {
    ServerEvent::Hover {
        uuid: uuid.to_string(),
        user: user.to_string(),
        point: Point { x: 5, y: 6 },
    }
}

fn erase_by(user: &str, uuid: &str) -> ServerEvent {
    ServerEvent::Erase { uuid: uuid.to_string(), user: user.to_string() }
}

#[test]
fn a_new_history_replays_nothing() {
    let history = History::new();
    assert_eq!(history.replay("demo"), Vec::<ServerEvent>::new());
    assert_eq!(history.get("demo"), None);
}

#[test]
fn marks_are_replayed_in_the_order_of_arrival() {
    let mut history = History::new();
    history.record("demo", draw_by("a", "s1"));
    history.record("demo", fill_by("b", "f1"));
    history.record("demo", draw_by("a", "s2"));
    assert_eq!(
        history.replay("demo"),
        vec![draw_by("a", "s1"), fill_by("b", "f1"), draw_by("a", "s2")]
    );
    assert_eq!(
        history.get("demo"),
        Some(&vec![draw_by("a", "s1"), fill_by("b", "f1"), draw_by("a", "s2")])
    );
}

#[test]
fn an_erasure_empties_the_log_whatever_was_drawn() {
    let mut history = History::new();
    history.record("demo", draw_by("a", "s1"));
    history.record("demo", fill_by("a", "f1"));
    history.record("demo", erase_by("a", "e1"));
    assert_eq!(history.replay("demo"), Vec::<ServerEvent>::new());
    assert_eq!(history.get("demo"), None);
}

#[test]
fn an_erasure_of_an_untouched_room_leaves_no_log() {
    let mut history = History::new();
    history.record("demo", erase_by("a", "e1"));
    assert_eq!(history.replay("demo"), Vec::<ServerEvent>::new());
    assert_eq!(history.get("demo"), None);
}

#[test]
fn marks_after_an_erasure_are_replayed() {
    let mut history = History::new();
    history.record("demo", draw_by("a", "s1"));
    history.record("demo", erase_by("b", "e1"));
    history.record("demo", draw_by("b", "s2"));
    history.record("demo", fill_by("a", "f2"));
    assert_eq!(history.replay("demo"), vec![draw_by("b", "s2"), fill_by("a", "f2")]);
}

#[test]
fn previews_and_hovers_are_never_replayed() {
    let mut history = History::new();
    for round in 0..50 {
        let uuid = format!("s{}", round);
        history.record("demo", preview_by("a", &uuid));
        history.record("demo", hover_by("a", &uuid));
        history.record("demo", draw_by("a", &uuid));
        history.record("demo", preview_by("b", &uuid));
    }
    let replayed = history.replay("demo");
    assert_eq!(replayed.len(), 50);
    for (round, event) in replayed.iter().enumerate() {
        assert_eq!(*event, draw_by("a", &format!("s{}", round)));
    }
}

#[test]
fn announcements_are_never_replayed() {
    let mut history = History::new();
    history.record("demo", ServerEvent::AssignedName { name: "a".to_string() });
    history.record("demo", ServerEvent::Connect { user: "a".to_string() });
    history.record("demo", ServerEvent::Disconnect { user: "a".to_string() });
    assert_eq!(history.replay("demo"), Vec::<ServerEvent>::new());
    assert_eq!(history.get("demo"), None);
}

#[test]
fn rooms_do_not_share_a_log() {
    let mut history = History::new();
    history.record("demo", draw_by("a", "s1"));
    history.record("Demo", draw_by("b", "s2"));
    history.record("other", fill_by("c", "f3"));
    history.record("demo", erase_by("a", "e1"));
    history.record("other", draw_by("c", "s4"));
    assert_eq!(history.replay("demo"), Vec::<ServerEvent>::new());
    assert_eq!(history.replay("Demo"), vec![draw_by("b", "s2")]);
    assert_eq!(history.replay("other"), vec![fill_by("c", "f3"), draw_by("c", "s4")]);
    assert_eq!(history.replay(""), Vec::<ServerEvent>::new());
}

#[test]
fn clearing_removes_the_log_of_one_room_only() {
    let mut history = History::new();
    history.record("demo", draw_by("a", "s1"));
    history.record("other", draw_by("b", "s2"));
    history.clear("demo");
    assert_eq!(history.get("demo"), None);
    assert_eq!(history.replay("other"), vec![draw_by("b", "s2")]);
    history.clear("fresh");
    assert_eq!(history.get("fresh"), None);
    assert_eq!(history.replay("other"), vec![draw_by("b", "s2")]);
    history.record("demo", fill_by("a", "f3"));
    assert_eq!(history.replay("demo"), vec![fill_by("a", "f3")]);
    history.clear("demo");
    history.clear("demo");
    history.clear("other");
    assert_eq!(history.get("demo"), None);
    assert_eq!(history.get("other"), None);
}

#[test]
fn erasing_any_room_leaves_the_others_as_they_were() {
    let rooms = ["r0", "r1", "r2", "r3", "r4"];
    for erased in 0..rooms.len() {
        let mut history = History::new();
        for (i, room) in rooms.iter().enumerate() {
            for stroke in 0..=i {
                history.record(room, draw_by(room, &format!("s{}", stroke)));
            }
        }
        history.record(rooms[erased], erase_by("a", "e"));
        for (i, room) in rooms.iter().enumerate() {
            if i == erased {
                assert_eq!(history.get(room), None);
            } else {
                let expected: Vec<ServerEvent> =
                    (0..=i).map(|stroke| draw_by(room, &format!("s{}", stroke))).collect();
                assert_eq!(history.replay(room), expected);
            }
        }
        history.record(rooms[erased], fill_by("b", "f"));
        assert_eq!(history.replay(rooms[erased]), vec![fill_by("b", "f")]);
        for room in rooms {
            history.clear(room);
        }
        for room in rooms {
            assert_eq!(history.get(room), None);
        }
    }
}

#[test]
fn a_replay_is_a_copy() {
    let mut history = History::new();
    history.record("demo", draw_by("a", "s1"));
    let mut replayed = history.replay("demo");
    replayed.push(draw_by("a", "s2"));
    assert_eq!(history.replay("demo"), vec![draw_by("a", "s1")]);
}

#[test]
fn a_week_in_seconds() {
    assert_eq!(RETENTION_SECONDS, 60 * 60 * 24 * 7);
    assert_eq!(RETENTION_SECONDS, 604_800);
}

#[test]
fn a_mark_is_appended_and_the_list_kept_for_a_week() {
    assert_eq!(
        store_ops("demo", draw_by("a", "s1")),
        vec![
            StoreOp::Append { key: "demo".to_string(), event: draw_by("a", "s1") },
            StoreOp::Expire { key: "demo".to_string(), seconds: 604_800 },
        ]
    );
    assert_eq!(
        store_ops("other", fill_by("a", "f1")),
        vec![
            StoreOp::Append { key: "other".to_string(), event: fill_by("a", "f1") },
            StoreOp::Expire { key: "other".to_string(), seconds: 604_800 },
        ]
    );
}

#[test]
fn an_erasure_deletes_the_list() {
    assert_eq!(
        store_ops("demo", erase_by("a", "e1")),
        vec![StoreOp::Delete { key: "demo".to_string() }]
    );
}

#[test]
fn nothing_is_stored_for_what_only_live_subscribers_see() {
    assert_eq!(store_ops("demo", preview_by("a", "p1")), Vec::<StoreOp>::new());
    assert_eq!(store_ops("demo", hover_by("a", "h1")), Vec::<StoreOp>::new());
    assert_eq!(
        store_ops("demo", ServerEvent::Connect { user: "a".to_string() }),
        Vec::<StoreOp>::new()
    );
    assert_eq!(
        store_ops("demo", ServerEvent::Disconnect { user: "a".to_string() }),
        Vec::<StoreOp>::new()
    );
    assert_eq!(
        store_ops("demo", ServerEvent::AssignedName { name: "a".to_string() }),
        Vec::<StoreOp>::new()
    );
}
