//! Rooms and their registry. A room is a hub: whatever is published to it
//! goes to every connection that is subscribed to it at that moment.

use crate::events::{ServerEvent, ServerEventView};
use crate::history::{list_at, taken_in, views, History};
use tokio::sync::broadcast::{Receiver, Sender};
use vstd::hash_map::StringHashMap;
use vstd::prelude::*;

verus! {

/// How many events a hub keeps for a subscriber that has not read them yet.
/// A subscriber that falls further behind is lagging, and its connection is
/// dropped rather than left with a gap in its canvas. The number is a power
/// of two, so the hub keeps exactly as many as it is asked for.
pub const BACKLOG: usize = 256;

/// `tokio::sync::broadcast::Sender`, the handle by which events are sent
/// into a channel. It is held and handed on; of what is inside a channel,
/// nothing is known here.
#[verifier::external_type_specification]
#[verifier::external_body]
#[verifier::reject_recursive_types(T)]
pub struct ExSender<T>(Sender<T>);

/// `tokio::sync::broadcast::Receiver`, the handle by which one subscriber
/// takes events out of a channel. It is held and handed on.
#[verifier::external_type_specification]
#[verifier::external_body]
#[verifier::reject_recursive_types(T)]
pub struct ExReceiver<T>(Receiver<T>);

/// Whether `n` is a power of two.
pub open spec fn power_of_two(n: usize) -> bool {
    n > 0 && n & ((n - 1) as usize) == 0
}

/// The capacity that the channel behind `hub` was opened with. The
/// channel keeps that many events where the number is a power of two; any
/// other number it would round up to the next one.
pub uninterp spec fn capacity(hub: Sender<ServerEvent>) -> usize;

/// The channel that `hub` sends into. A handle and its clones send into
/// the same channel.
pub uninterp spec fn channel(hub: Sender<ServerEvent>) -> int;

/// The channel that `subscriber` takes its events from.
pub uninterp spec fn source(subscriber: Receiver<ServerEvent>) -> int;

/// Calls `tokio::sync::broadcast::channel` and keeps the sending half: a
/// handle on a new channel that was opened with the given capacity. The
/// call panics on a capacity of 0 or above `usize::MAX / 2`, and it rounds
/// a capacity that is no power of two up to the next one; the precondition
/// leaves out both, so that the channel keeps exactly `limit` events.
#[verifier::external_body]
fn open_hub(limit: usize) -> (hub: Sender<ServerEvent>)
    requires
        power_of_two(limit),
        limit <= usize::MAX / 2,
    ensures
        capacity(hub) == limit,
{
    tokio::sync::broadcast::channel(limit).0
}

/// Calls `tokio::sync::broadcast::Sender::subscribe`, which hands out a
/// receiver on the channel that the handle sends into, for what is sent
/// from now on. The call panics once a channel has `usize::MAX / 4`
/// receivers, more than a process has room for.
#[verifier::external_body]
fn attach(hub: &Sender<ServerEvent>) -> (subscriber: Receiver<ServerEvent>)
    ensures
        source(subscriber) == channel(*hub),
{
    hub.subscribe()
}

/// Calls `clone` on a `tokio::sync::broadcast::Sender`, which gives a second
/// handle on the same channel, and so on one of the same capacity.
#[verifier::external_body]
fn share(hub: &Sender<ServerEvent>) -> (publisher: Sender<ServerEvent>)
    ensures
        channel(publisher) == channel(*hub),
        capacity(publisher) == capacity(*hub),
{
    hub.clone()
}

/// Calls `tokio::sync::broadcast::Sender::send`. The call succeeds only
/// while the channel has a receiver, and then returns how many it has: so a
/// count that comes back is never 0.
#[verifier::external_body]
fn send(hub: &Sender<ServerEvent>, event: ServerEvent) -> (receivers: Option<usize>)
    ensures
        receivers matches Some(n) ==> n > 0,
{
    hub.send(event).ok()
}

/// Publishes `event` to every connection that is subscribed to the hub now,
/// and returns how many there are; 0 where nobody listens. How many
/// connections are subscribed at that moment is for the hub alone to say:
/// whatever it answers, [`reached`] makes the count of it.
pub fn publish(hub: &Sender<ServerEvent>, event: ServerEvent) -> (receivers: usize) {
    reached(send(hub, event))
}

/// How many subscribers an event has reached, from what the hub answered
/// when it was sent: the count that the hub gave, or 0 where the hub
/// refused the event because nobody was subscribed.
pub fn reached(answer: Option<usize>) -> (receivers: usize)
    ensures
        receivers == match answer {
            Some(count) => count,
            None => 0,
        },
{
    match answer {
        Some(count) => count,
        None => 0,
    }
}

/// One room: the hub that its connections publish to and subscribe to.
#[derive(Debug)]
pub struct Room {
    tx: Sender<ServerEvent>,
}

impl Room {
    #[verifier::type_invariant]
    spec fn bounded(self) -> bool {
        capacity(self.tx) == BACKLOG
    }

    /// The channel that is the room's hub.
    pub closed spec fn hub(&self) -> int {
        channel(self.tx)
    }

    /// How many events the room's hub keeps for a subscriber that has not
    /// read them yet.
    pub closed spec fn backlog(&self) -> usize {
        capacity(self.tx)
    }

    /// A room that nobody has joined yet.
    pub fn new() -> (room: Room)
        ensures
            room.backlog() == BACKLOG,
    {
        assert(power_of_two(BACKLOG)) by {
            assert(256usize & 255usize == 0) by (bit_vector);
        }
        Room { tx: open_hub(BACKLOG) }
    }

    /// A handle to publish to the room, and a subscription to what is
    /// published to it from now on: both are on the room's own hub, which
    /// keeps [`BACKLOG`] events for a subscriber that does not keep up.
    pub fn subscribe(&self) -> (handles: (Sender<ServerEvent>, Receiver<ServerEvent>))
        ensures
            channel(handles.0) == self.hub(),
            source(handles.1) == self.hub(),
            capacity(handles.0) == BACKLOG,
            self.backlog() == BACKLOG,
    {
        proof {
            use_type_invariant(self);
        }
        (share(&self.tx), attach(&self.tx))
    }
}

/// How asking for the room `name` takes a registry from `before` to `after`
/// and yields `room`: the room is the one entered under that id, which is
/// the one that was there already if there was one, and no other entry
/// differs.
pub open spec fn resolved(
    before: Map<Seq<char>, Room>,
    name: Seq<char>,
    after: Map<Seq<char>, Room>,
    room: Room,
) -> bool {
    &&& after.contains_key(name)
    &&& after[name] == room
    &&& before.contains_key(name) ==> after == before
    &&& !before.contains_key(name) ==> after == before.insert(name, room)
}

/// A run of requests on one registry: request `i` asks for the room
/// `names[i]`, finds the registry as `states[i]`, leaves it as
/// `states[i + 1]` and yields `rooms[i]`.
pub open spec fn resolved_in_turn(
    states: Seq<Map<Seq<char>, Room>>,
    names: Seq<Seq<char>>,
    rooms: Seq<Room>,
) -> bool {
    &&& states.len() == names.len() + 1
    &&& rooms.len() == names.len()
    &&& forall|i: int|
        #![trigger rooms[i]]
        0 <= i < names.len() ==> resolved(states[i], names[i], states[i + 1], rooms[i])
}

/// Once a request has yielded a room, the registry keeps that room under
/// that id through all later requests.
proof fn lemma_room_stays(
    states: Seq<Map<Seq<char>, Room>>,
    names: Seq<Seq<char>>,
    rooms: Seq<Room>,
    i: int,
    k: int,
)
    requires
        resolved_in_turn(states, names, rooms),
        0 <= i < k <= names.len(),
    ensures
        states[k].contains_key(names[i]),
        states[k][names[i]] == rooms[i],
    decreases k - i,
{
    if k == i + 1 {
        assert(resolved(states[i], names[i], states[k], rooms[i]));
    } else {
        lemma_room_stays(states, names, rooms, i, k - 1);
        assert(resolved(states[k - 1], names[k - 1], states[k], rooms[k - 1]));
    }
}

/// One room per id: in any run of requests on one registry, two requests
/// for the same id yield the same room, whatever was asked for in between,
/// and so the same hub. Since a room hands out handles on its own hub only,
/// two connections that join under one id publish and subscribe to one
/// hub.
pub proof fn lemma_same_id_same_room(
    states: Seq<Map<Seq<char>, Room>>,
    names: Seq<Seq<char>>,
    rooms: Seq<Room>,
    i: int,
    j: int,
)
    requires
        resolved_in_turn(states, names, rooms),
        0 <= i <= j < names.len(),
        names[i] == names[j],
    ensures
        rooms[i] == rooms[j],
        rooms[i].hub() == rooms[j].hub(),
{
    if i < j {
        lemma_room_stays(states, names, rooms, i, j);
        assert(resolved(states[j], names[j], states[j + 1], rooms[j]));
    }
}

/// The registry of rooms, with the history of each.
///
/// A room comes to be when it is first asked for and is never removed, so
/// the registry grows with the number of distinct room ids.
pub struct RoomSet {
    rooms: StringHashMap<Room>,
    history: History,
}

impl RoomSet {
    /// The rooms that exist, by id.
    pub closed spec fn rooms(&self) -> Map<Seq<char>, Room> {
        self.rooms@
    }

    /// The logs of the rooms, by id.
    pub closed spec fn history(&self) -> Map<Seq<char>, Seq<ServerEventView>> {
        self.history@
    }

    /// The log of one room: empty where nothing was recorded for it.
    pub open spec fn log(&self, name: Seq<char>) -> Seq<ServerEventView> {
        list_at(self.history(), name)
    }

    /// A registry without rooms.
    pub fn new() -> (set: RoomSet)
        ensures
            set.rooms() == Map::<Seq<char>, Room>::empty(),
            set.history() == Map::<Seq<char>, Seq<ServerEventView>>::empty(),
    {
        RoomSet { rooms: StringHashMap::new(), history: History::new() }
    }

    /// Removes the log of the room `name`.
    pub fn clear_history(&mut self, name: &str)
        ensures
            final(self).rooms() == old(self).rooms(),
            final(self).history() == old(self).history().remove(name@),
    {
        self.history.clear(name);
    }

    /// Takes `event` into the log of the room `name`: an erasure removes
    /// the log, a mark is added at its end, any other event leaves it as it
    /// was.
    pub fn record_history(&mut self, name: &str, event: ServerEvent)
        ensures
            final(self).rooms() == old(self).rooms(),
            final(self).history() == taken_in(old(self).history(), name@, event@),
    {
        self.history.record(name, event);
    }

    /// The log of the room `name` as it is stored, if the room has one. It
    /// holds marks only, and the registry stays as it is.
    pub fn get_history(&mut self, name: &str) -> (log: Option<&Vec<ServerEvent>>)
        ensures
            final(self).rooms() == old(self).rooms(),
            final(self).history() == old(self).history(),
            match log {
                Some(events) => old(self).history().contains_key(name@) && views(events@) == old(
                    self,
                ).history()[name@],
                None => !old(self).history().contains_key(name@),
            },
            log matches Some(events) ==> forall|i: int|
                0 <= i < events@.len() ==> (#[trigger] events@[i])@.is_mark(),
    {
        self.history.get(name)
    }

    /// What a connection that joins the room `name` now is sent before
    /// anything live: the marks made since the room was last erased, oldest
    /// first.
    pub fn replay(&self, name: &str) -> (events: Vec<ServerEvent>)
        ensures
            views(events@) == self.log(name@),
            forall|i: int| 0 <= i < events@.len() ==> (#[trigger] events@[i])@.is_mark(),
    {
        self.history.replay(name)
    }

    /// The room `name`: the one that exists under that id, or else a new
    /// one, which is entered into the registry. No other entry changes, and
    /// a room that exists is never replaced.
    pub fn find_or_create(&mut self, name: &str) -> (room: &Room)
        ensures
            final(self).history() == old(self).history(),
            resolved(old(self).rooms(), name@, final(self).rooms(), *room),
            room.backlog() == BACKLOG,
    {
        if !self.rooms.contains_key(name) {
            self.rooms.insert(name.to_owned(), Room::new());
        }
        let room = self.rooms.get(name).unwrap();
        proof {
            use_type_invariant(room);
        }
        room
    }
}

} // verus!
