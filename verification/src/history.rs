//! The replayable history of each room: the marks made on its canvas since
//! it was last erased, in the order in which they arrived.

use crate::events::{ServerEvent, ServerEventView};
use vstd::hash_map::StringHashMap;
use vstd::prelude::*;

verus! {

/// The values of a run of events.
pub open spec fn views(events: Seq<ServerEvent>) -> Seq<ServerEventView> {
    events.map_values(|event: ServerEvent| event@)
}

/// What a room's log holds once `event` has arrived: an erasure empties it,
/// a mark is added at its end, and anything else leaves no trace.
pub open spec fn recorded(log: Seq<ServerEventView>, event: ServerEventView) -> Seq<
    ServerEventView,
> {
    if event is Erase {
        Seq::empty()
    } else if event.is_mark() {
        log.push(event)
    } else {
        log
    }
}

/// The list under `key` in a store of lists: empty where there is none.
pub open spec fn list_at(
    store: Map<Seq<char>, Seq<ServerEventView>>,
    key: Seq<char>,
) -> Seq<ServerEventView> {
    if store.contains_key(key) {
        store[key]
    } else {
        Seq::empty()
    }
}

/// What a store of logs holds once it has taken in `event`, published to
/// `room`: an erasure removes the log of the room, a mark is added at the
/// end of it, which gives the room a log where it had none, and any other
/// event changes nothing. No other room's log changes.
pub open spec fn taken_in(
    store: Map<Seq<char>, Seq<ServerEventView>>,
    room: Seq<char>,
    event: ServerEventView,
) -> Map<Seq<char>, Seq<ServerEventView>> {
    if event is Erase {
        store.remove(room)
    } else if event.is_mark() {
        store.insert(room, list_at(store, room).push(event))
    } else {
        store
    }
}

/// What a room's log holds once `events` have arrived one after another,
/// the first of them at a room whose log was `log`.
pub open spec fn recorded_all(log: Seq<ServerEventView>, events: Seq<ServerEventView>) -> Seq<
    ServerEventView,
>
    decreases events.len(),
{
    if events.len() == 0 {
        log
    } else {
        recorded(recorded_all(log, events.drop_last()), events.last())
    }
}

/// How many of `events` arrived up to and including the last erasure among
/// them: 0 where there is none.
pub open spec fn erased_prefix(events: Seq<ServerEventView>) -> nat
    decreases events.len(),
{
    if events.len() == 0 {
        0
    } else if events.last() is Erase {
        events.len()
    } else {
        erased_prefix(events.drop_last())
    }
}

/// The marks among `events` that arrived after the last erasure, in the
/// order in which they arrived.
pub open spec fn marks_since_erasure(events: Seq<ServerEventView>) -> Seq<ServerEventView> {
    events.skip(erased_prefix(events) as int).filter(|event: ServerEventView| event.is_mark())
}

/// The erasures and marks among `events`, in the order in which they arrived.
pub open spec fn persistable_only(events: Seq<ServerEventView>) -> Seq<ServerEventView> {
    events.filter(|event: ServerEventView| event.is_persistable())
}

/// The last erasure lies within the run.
pub proof fn lemma_erased_prefix_bound(events: Seq<ServerEventView>)
    ensures
        erased_prefix(events) <= events.len(),
    decreases events.len(),
{
    if events.len() > 0 && !(events.last() is Erase) {
        lemma_erased_prefix_bound(events.drop_last());
    }
}

/// Replay after any run of events: a room that started empty holds exactly
/// the marks that arrived after the last erasure, in the order in which they
/// arrived. So every mark stays visible, in order, until the room is erased,
/// and right after an erasure the log is empty.
pub proof fn lemma_replay_is_marks_since_erasure(events: Seq<ServerEventView>)
    ensures
        recorded_all(Seq::empty(), events) == marks_since_erasure(events),
    decreases events.len(),
{
    let is_mark = |event: ServerEventView| event.is_mark();
    if events.len() == 0 {
        assert(events.filter(is_mark) =~= Seq::empty()) by {
            reveal(Seq::filter);
        }
    } else if events.last() is Erase {
        assert(Seq::<ServerEventView>::empty().filter(is_mark) =~= Seq::empty()) by {
            reveal(Seq::filter);
        }
    } else {
        let before = events.drop_last();
        let cut = erased_prefix(before) as int;
        lemma_replay_is_marks_since_erasure(before);
        lemma_erased_prefix_bound(before);
        assert(events.skip(cut) =~= before.skip(cut).push(events.last()));
        before.skip(cut).lemma_filter_push(events.last(), is_mark);
    }
}

/// What a store of logs holds once it has taken in `arrivals` in order,
/// each an event with the room it was published to.
pub open spec fn taken_in_all(
    store: Map<Seq<char>, Seq<ServerEventView>>,
    arrivals: Seq<(Seq<char>, ServerEventView)>,
) -> Map<Seq<char>, Seq<ServerEventView>>
    decreases arrivals.len(),
{
    if arrivals.len() == 0 {
        store
    } else {
        taken_in(taken_in_all(store, arrivals.drop_last()), arrivals.last().0, arrivals.last().1)
    }
}

/// The events among `arrivals` that were published to `room`, in the order
/// in which they arrived.
pub open spec fn published_to(
    arrivals: Seq<(Seq<char>, ServerEventView)>,
    room: Seq<char>,
) -> Seq<ServerEventView>
    decreases arrivals.len(),
{
    if arrivals.len() == 0 {
        Seq::empty()
    } else if arrivals.last().0 == room {
        published_to(arrivals.drop_last(), room).push(arrivals.last().1)
    } else {
        published_to(arrivals.drop_last(), room)
    }
}

/// Rooms are recorded apart: whatever is published to other rooms in
/// between, the log of a room is what the events published to that room
/// alone make of it.
pub proof fn lemma_rooms_are_recorded_apart(
    store: Map<Seq<char>, Seq<ServerEventView>>,
    arrivals: Seq<(Seq<char>, ServerEventView)>,
    room: Seq<char>,
)
    ensures
        list_at(taken_in_all(store, arrivals), room) == recorded_all(
            list_at(store, room),
            published_to(arrivals, room),
        ),
    decreases arrivals.len(),
{
    if arrivals.len() > 0 {
        lemma_rooms_are_recorded_apart(store, arrivals.drop_last(), room);
        if arrivals.last().0 == room {
            let events = published_to(arrivals, room);
            assert(events.drop_last() =~= published_to(arrivals.drop_last(), room));
        }
    }
}

/// Replay of a room: in a store that started empty, the log of a room
/// holds exactly the marks that were published to that room after the last
/// erasure published to it, in the order in which they arrived.
pub proof fn lemma_replay_of_a_room(
    arrivals: Seq<(Seq<char>, ServerEventView)>,
    room: Seq<char>,
)
    ensures
        list_at(taken_in_all(Map::empty(), arrivals), room) == marks_since_erasure(
            published_to(arrivals, room),
        ),
{
    lemma_rooms_are_recorded_apart(Map::empty(), arrivals, room);
    lemma_replay_is_marks_since_erasure(published_to(arrivals, room));
}

/// Only marks are kept: in a store that started empty, whatever was
/// published to whichever room, no log ever holds a preview, a hover or an
/// announcement, nor an erasure.
pub proof fn lemma_store_holds_marks_only(
    arrivals: Seq<(Seq<char>, ServerEventView)>,
    room: Seq<char>,
    i: int,
)
    requires
        0 <= i < list_at(taken_in_all(Map::empty(), arrivals), room).len(),
    ensures
        list_at(taken_in_all(Map::empty(), arrivals), room)[i].is_mark(),
{
    lemma_rooms_are_recorded_apart(Map::empty(), arrivals, room);
    lemma_replay_holds_marks_only(Seq::empty(), published_to(arrivals, room));
}

/// Events that only live subscribers see leave no trace: a run of events
/// leaves the same log as the erasures and marks among it alone, however
/// many previews, hovers and announcements lie between them.
pub proof fn lemma_ephemeral_events_leave_no_trace(
    log: Seq<ServerEventView>,
    events: Seq<ServerEventView>,
)
    ensures
        recorded_all(log, events) == recorded_all(log, persistable_only(events)),
    decreases events.len(),
{
    let durable = |event: ServerEventView| event.is_persistable();
    if events.len() == 0 {
        assert(events.filter(durable) =~= events) by {
            reveal(Seq::filter);
        }
    } else {
        let before = events.drop_last();
        lemma_ephemeral_events_leave_no_trace(log, before);
        assert(before.push(events.last()) =~= events);
        before.lemma_filter_push(events.last(), durable);
        if events.last().is_persistable() {
            let kept = before.filter(durable).push(events.last());
            assert(kept.drop_last() =~= before.filter(durable));
        }
    }
}

/// A log that held marks only holds marks only after any run of events:
/// no preview, hover or announcement is ever replayed.
pub proof fn lemma_replay_holds_marks_only(
    log: Seq<ServerEventView>,
    events: Seq<ServerEventView>,
)
    requires
        forall|i: int| 0 <= i < log.len() ==> (#[trigger] log[i]).is_mark(),
    ensures
        forall|i: int|
            0 <= i < recorded_all(log, events).len() ==> (#[trigger] recorded_all(
                log,
                events,
            )[i]).is_mark(),
    decreases events.len(),
{
    if events.len() > 0 {
        let before = recorded_all(log, events.drop_last());
        lemma_replay_holds_marks_only(log, events.drop_last());
        let now = recorded(before, events.last());
        assert forall|i: int| 0 <= i < now.len() implies (#[trigger] now[i]).is_mark() by {}
    }
}

/// How long a store outside the process keeps the log of a room that
/// nothing is written to, in seconds: one week.
pub const RETENTION_SECONDS: u64 = 604_800;

/// A command to a store outside the process that keeps one list per key.
#[derive(Debug, PartialEq, Eq)]
pub enum StoreOp {
    /// Add `event` at the end of the list under `key`.
    Append { key: String, event: ServerEvent },
    /// Let the list under `key` expire `seconds` from now.
    Expire { key: String, seconds: u64 },
    /// Remove the list under `key`.
    Delete { key: String },
}

/// The mathematical value of a [`StoreOp`].
pub enum StoreOpView {
    Append { key: Seq<char>, event: ServerEventView },
    Expire { key: Seq<char>, seconds: u64 },
    Delete { key: Seq<char> },
}

impl View for StoreOp {
    type V = StoreOpView;

    open spec fn view(&self) -> StoreOpView {
        match *self {
            StoreOp::Append { key, event } => StoreOpView::Append { key: key@, event: event@ },
            StoreOp::Expire { key, seconds } => StoreOpView::Expire { key: key@, seconds },
            StoreOp::Delete { key } => StoreOpView::Delete { key: key@ },
        }
    }
}

/// The values of a run of commands.
pub open spec fn op_views(ops: Seq<StoreOp>) -> Seq<StoreOpView> {
    ops.map_values(|op: StoreOp| op@)
}

/// The commands by which a store outside the process takes in an event
/// that was published to `room`: an erasure removes the room's list, a mark
/// is added at its end and the list is given a week more to live, and any
/// other event asks for nothing.
pub open spec fn store_plan(room: Seq<char>, event: ServerEventView) -> Seq<StoreOpView> {
    if event is Erase {
        seq![StoreOpView::Delete { key: room }]
    } else if event.is_mark() {
        seq![
            StoreOpView::Append { key: room, event },
            StoreOpView::Expire { key: room, seconds: RETENTION_SECONDS },
        ]
    } else {
        Seq::empty()
    }
}

/// What a store of lists holds once it has carried out `op`. To let a list
/// expire later changes nothing of what the store holds now.
pub open spec fn carried_out(
    store: Map<Seq<char>, Seq<ServerEventView>>,
    op: StoreOpView,
) -> Map<Seq<char>, Seq<ServerEventView>> {
    match op {
        StoreOpView::Append { key, event } => store.insert(key, list_at(store, key).push(event)),
        StoreOpView::Expire { .. } => store,
        StoreOpView::Delete { key } => store.remove(key),
    }
}

/// What a store of lists holds once it has carried out `ops` in order.
pub open spec fn carried_out_all(
    store: Map<Seq<char>, Seq<ServerEventView>>,
    ops: Seq<StoreOpView>,
) -> Map<Seq<char>, Seq<ServerEventView>>
    decreases ops.len(),
{
    if ops.len() == 0 {
        store
    } else {
        carried_out(carried_out_all(store, ops.drop_last()), ops.last())
    }
}

/// Either store holds the same: a store outside the process that carries
/// out the commands for an event holds, room for room, what the history in
/// the process holds once it has taken the event in.
pub proof fn lemma_store_plan_takes_in(
    store: Map<Seq<char>, Seq<ServerEventView>>,
    room: Seq<char>,
    event: ServerEventView,
)
    ensures
        carried_out_all(store, store_plan(room, event)) == taken_in(store, room, event),
{
    reveal_with_fuel(carried_out_all, 3);
}

/// The commands by which a store outside the process takes in `event`,
/// published to `room`.
pub fn store_ops(room: &str, event: ServerEvent) -> (ops: Vec<StoreOp>)
    ensures
        op_views(ops@) == store_plan(room@, event@),
{
    let mut ops: Vec<StoreOp> = Vec::new();
    if event.is_erase() {
        ops.push(StoreOp::Delete { key: room.to_owned() });
    } else if event.is_mark() {
        ops.push(StoreOp::Append { key: room.to_owned(), event });
        ops.push(StoreOp::Expire { key: room.to_owned(), seconds: RETENTION_SECONDS });
    }
    ops
}

/// A copy of a run of events.
fn clone_events(events: &Vec<ServerEvent>) -> (copy: Vec<ServerEvent>)
    ensures
        views(copy@) == views(events@),
{
    let mut copy: Vec<ServerEvent> = Vec::with_capacity(events.len());
    let mut i: usize = 0;
    while i < events.len()
        invariant
            i <= events.len(),
            copy@.len() == i,
            forall|j: int| 0 <= j < i ==> copy@[j]@ == events@[j]@,
        decreases events.len() - i,
    {
        copy.push(events[i].clone());
        i += 1;
    }
    copy
}

/// The logs of all rooms, by room id.
///
/// A log grows in place. The map keyed by room ids hands out what it holds
/// by shared reference only, so it holds the place of each log, and the
/// logs themselves stand in a vector, next to the id each belongs to. When
/// a log is removed, the last one moves into its place.
pub struct History {
    /// Where in `names` and `logs` each room is kept.
    slots: StringHashMap<usize>,
    names: Vec<String>,
    logs: Vec<Vec<ServerEvent>>,
}

/// Every room that has a log has a place of its own, under its id, and
/// the logs hold marks only.
spec fn in_order(
    slots: Map<Seq<char>, usize>,
    names: Seq<String>,
    logs: Seq<Vec<ServerEvent>>,
) -> bool {
    &&& names.len() == logs.len()
    &&& forall|room: Seq<char>| #[trigger]
        slots.contains_key(room) ==> slots[room] < names.len() && names[slots[room] as int]@
            == room
    &&& forall|i: int|
        0 <= i < names.len() ==> slots.contains_key((#[trigger] names[i])@) && slots[names[i]@]
            == i
    &&& forall|i: int, j: int|
        0 <= i < logs.len() && 0 <= j < logs[i]@.len() ==> (#[trigger] logs[i]@[j])@.is_mark()
}

/// The log of each room that has one.
spec fn kept(slots: Map<Seq<char>, usize>, logs: Seq<Vec<ServerEvent>>) -> Map<
    Seq<char>,
    Seq<ServerEventView>,
> {
    Map::new(
        |room: Seq<char>| slots.contains_key(room),
        |room: Seq<char>| views(logs[slots[room] as int]@),
    )
}

/// Removes the log of `room`. The last room moves to the place that
/// becomes free.
fn remove_log(
    slots: &mut StringHashMap<usize>,
    names: &mut Vec<String>,
    logs: &mut Vec<Vec<ServerEvent>>,
    room: &str,
)
    requires
        in_order(old(slots)@, old(names)@, old(logs)@),
    ensures
        in_order(final(slots)@, final(names)@, final(logs)@),
        kept(final(slots)@, final(logs)@) == kept(old(slots)@, old(logs)@).remove(room@),
{
    let found = match slots.get(room) {
        Some(slot) => Some(*slot),
        None => None,
    };
    match found {
        Some(i) => {
            let last = names.len() - 1;
            if i < last {
                let moved = names[last].clone();
                slots.insert(moved, i);
            }
            slots.remove(room);
            names.swap_remove(i);
            logs.swap_remove(i);
            proof {
                assert forall|k: Seq<char>| #[trigger] slots@.contains_key(k) implies slots@[k]
                    < names@.len() && names@[slots@[k] as int]@ == k by {
                    assert(old(slots)@.contains_key(k));
                    if k != old(names)@[last as int]@ {
                        assert(old(names)@[old(slots)@[k] as int]@ == k);
                    }
                }
                assert forall|j: int| 0 <= j < names@.len() implies slots@.contains_key(
                    (#[trigger] names@[j])@,
                ) && slots@[names@[j]@] == j by {
                    if j != i {
                        assert(old(slots)@[old(names)@[j]@] == j);
                    }
                }
            }
        },
        None => {},
    }
    proof {
        assert(kept(slots@, logs@) =~~= kept(old(slots)@, old(logs)@).remove(room@));
    }
}

/// Adds a mark at the end of the log of `room`.
fn add_mark(
    slots: &mut StringHashMap<usize>,
    names: &mut Vec<String>,
    logs: &mut Vec<Vec<ServerEvent>>,
    room: &str,
    mark: ServerEvent,
)
    requires
        in_order(old(slots)@, old(names)@, old(logs)@),
        mark@.is_mark(),
    ensures
        in_order(final(slots)@, final(names)@, final(logs)@),
        kept(final(slots)@, final(logs)@) == kept(old(slots)@, old(logs)@).insert(
            room@,
            list_at(kept(old(slots)@, old(logs)@), room@).push(mark@),
        ),
{
    let ghost before = list_at(kept(slots@, logs@), room@);
    let ghost added = mark@;
    let found = match slots.get(room) {
        Some(slot) => Some(*slot),
        None => None,
    };
    match found {
        Some(i) => {
            logs[i].push(mark);
        },
        None => {
            let i = logs.len();
            let mut log: Vec<ServerEvent> = Vec::new();
            log.push(mark);
            logs.push(log);
            names.push(room.to_owned());
            slots.insert(room.to_owned(), i);
            proof {
                assert forall|j: int| 0 <= j < names@.len() implies slots@.contains_key(
                    (#[trigger] names@[j])@,
                ) && slots@[names@[j]@] == j by {
                    if j < i {
                        assert(old(slots)@[old(names)@[j]@] == j);
                    }
                }
            }
        },
    }
    proof {
        assert(views(logs@[slots@[room@] as int]@) =~= before.push(added));
        assert(kept(slots@, logs@) =~~= kept(old(slots)@, old(logs)@).insert(
            room@,
            before.push(added),
        ));
    }
}

impl View for History {
    type V = Map<Seq<char>, Seq<ServerEventView>>;

    closed spec fn view(&self) -> Self::V {
        kept(self.slots@, self.logs@)
    }
}

impl History {
    #[verifier::type_invariant]
    spec fn well_kept(self) -> bool {
        in_order(self.slots@, self.names@, self.logs@)
    }

    /// The log of `room`: empty where the room has none.
    pub open spec fn log(&self, room: Seq<char>) -> Seq<ServerEventView> {
        list_at(self@, room)
    }

    /// A history without rooms.
    pub fn new() -> (history: History)
        ensures
            history@ == Map::<Seq<char>, Seq<ServerEventView>>::empty(),
    {
        History { slots: StringHashMap::new(), names: Vec::new(), logs: Vec::new() }
    }

    /// The log of `room` as it is stored, if the room has one. It holds
    /// marks only.
    pub fn get(&self, room: &str) -> (log: Option<&Vec<ServerEvent>>)
        ensures
            match log {
                Some(events) => self@.contains_key(room@) && views(events@) == self@[room@],
                None => !self@.contains_key(room@),
            },
            log matches Some(events) ==> forall|i: int|
                0 <= i < events@.len() ==> (#[trigger] events@[i])@.is_mark(),
    {
        proof {
            use_type_invariant(self);
        }
        match self.slots.get(room) {
            Some(slot) => Some(&self.logs[*slot]),
            None => None,
        }
    }

    /// What a connection that joins `room` now is sent before anything live:
    /// the marks recorded for the room since it was last erased, oldest
    /// first, and never anything that is not a mark.
    pub fn replay(&self, room: &str) -> (events: Vec<ServerEvent>)
        ensures
            views(events@) == self.log(room@),
            forall|i: int| 0 <= i < events@.len() ==> (#[trigger] events@[i])@.is_mark(),
    {
        match self.get(room) {
            Some(log) => {
                let events = clone_events(log);
                proof {
                    assert(views(events@).len() == views(log@).len());
                    assert forall|i: int| 0 <= i < events@.len() implies (
                    #[trigger] events@[i])@.is_mark() by {
                        assert(views(events@)[i] == events@[i]@);
                        assert(views(log@)[i] == log@[i]@);
                    }
                }
                events
            },
            None => Vec::new(),
        }
    }

    /// Removes the log of `room`.
    pub fn clear(&mut self, room: &str)
        ensures
            final(self)@ == old(self)@.remove(room@),
    {
        proof {
            use_type_invariant(&*self);
        }
        let mut taken = History::new();
        core::mem::swap(self, &mut taken);
        let History { slots, names, logs } = taken;
        let mut slots = slots;
        let mut names = names;
        let mut logs = logs;
        remove_log(&mut slots, &mut names, &mut logs, room);
        *self = History { slots, names, logs };
    }

    /// Takes in an event that was published to `room`: an erasure removes
    /// the room's log, a mark is added at the end of it, and any other
    /// event is dropped, since only marks are replayed.
    pub fn record(&mut self, room: &str, event: ServerEvent)
        ensures
            final(self)@ == taken_in(old(self)@, room@, event@),
    {
        proof {
            use_type_invariant(&*self);
        }
        if event.is_erase() {
            self.clear(room);
        } else if event.is_mark() {
            let mut taken = History::new();
            core::mem::swap(self, &mut taken);
            let History { slots, names, logs } = taken;
            let mut slots = slots;
            let mut names = names;
            let mut logs = logs;
            add_mark(&mut slots, &mut names, &mut logs, room, event);
            *self = History { slots, names, logs };
        }
    }
}

} // verus!
