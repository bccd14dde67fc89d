//! What the connections of one server share: the rooms, and what was drawn
//! in each.

use crate::events::{ServerEvent, ServerEventView};
use crate::history::{list_at, taken_in, views};
use crate::room::{capacity, channel, resolved, source, Room, RoomSet, BACKLOG};
use tokio::sync::broadcast::{Receiver, Sender};
use vstd::prelude::*;

verus! {

/// The rooms of one server and their history.
///
/// Every change goes through `&mut self`: whoever shares an `App` among
/// connections guards it with a lock, so that two connections that join
/// under one id at the same time still end up in one room.
pub struct App {
    rooms: RoomSet,
}

impl App {
    /// The rooms that exist, by id.
    pub closed spec fn rooms(&self) -> Map<Seq<char>, Room> {
        self.rooms.rooms()
    }

    /// The logs of the rooms, by id.
    pub closed spec fn history(&self) -> Map<Seq<char>, Seq<ServerEventView>> {
        self.rooms.history()
    }

    /// The log of one room: empty where nothing was recorded for it.
    pub open spec fn log(&self, room: Seq<char>) -> Seq<ServerEventView> {
        list_at(self.history(), room)
    }

    /// A server without rooms.
    pub fn new() -> (app: App)
        ensures
            app.rooms() == Map::<Seq<char>, Room>::empty(),
            app.history() == Map::<Seq<char>, Seq<ServerEventView>>::empty(),
    {
        App { rooms: RoomSet::new() }
    }

    /// Lets a connection into `room`: the room is looked up, or made where
    /// the id is new, and the connection gets a handle to publish to it and
    /// a subscription to what is published from now on, both on the hub of
    /// the room that stands under that id. The subscription exists before
    /// the connection reads the history, so nothing published in between
    /// escapes it.
    pub fn join(&mut self, room: &str) -> (handles: (Sender<ServerEvent>, Receiver<ServerEvent>))
        ensures
            final(self).history() == old(self).history(),
            final(self).rooms().contains_key(room@),
            resolved(old(self).rooms(), room@, final(self).rooms(), final(self).rooms()[room@]),
            channel(handles.0) == final(self).rooms()[room@].hub(),
            source(handles.1) == final(self).rooms()[room@].hub(),
            capacity(handles.0) == BACKLOG,
    {
        self.rooms.find_or_create(room).subscribe()
    }

    /// Takes an event that was published to `room` into the history, as the
    /// history worker does with each event it is handed: an erasure removes
    /// the log of the room, a mark is added at its end, and any other event
    /// leaves it as it was.
    pub fn record(&mut self, room: &str, event: ServerEvent)
        ensures
            final(self).rooms() == old(self).rooms(),
            final(self).history() == taken_in(old(self).history(), room@, event@),
    {
        self.rooms.record_history(room, event);
    }

    /// What a connection that joins `room` now is sent before anything
    /// live: the marks made since the room was last erased, oldest first.
    pub fn replay(&self, room: &str) -> (events: Vec<ServerEvent>)
        ensures
            views(events@) == self.log(room@),
            forall|i: int| 0 <= i < events@.len() ==> (#[trigger] events@[i])@.is_mark(),
    {
        self.rooms.replay(room)
    }
}

} // verus!
