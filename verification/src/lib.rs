//! The session layer of a collaborative whiteboard server.
//!
//! Clients connect, join a room by its id, and from then on see what the
//! other members of the room draw. A client that joins late is first sent
//! what was drawn before it came.
//!
//! - [`events`]: what clients send and what the server broadcasts.
//! - [`room`]: rooms as hubs, and the registry that makes one room per id.
//! - [`history`]: what was drawn in each room since it was last erased.
//! - [`session`]: the receiving side of a connection, from the join to the
//!   farewell.
//! - [`outbound`]: the sending side of a connection: name, history, live
//!   events, in that order.
//! - [`app`]: what the connections of one server share.
//!
//! The library decides and keeps the books; reading and writing sockets,
//! turning frames into events and back, and talking to a store outside the
//! process are left to the program around it.

pub mod app;
pub mod events;
pub mod history;
pub mod outbound;
pub mod room;
pub mod session;
