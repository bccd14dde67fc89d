//! What a connection sends to its client, in order: the name it was given,
//! then the history of its room, then whatever is published to the room.

use crate::events::{ServerEvent, ServerEventView};
use crate::history::views;
use tokio::sync::broadcast::Receiver;
use vstd::prelude::*;

verus! {

/// What the sending side of a connection is waiting for.
#[derive(Clone, Copy, Debug, PartialEq, Eq, Structural)]
pub enum Stage {
    /// For the socket to take the assigned name.
    Greeting,
    /// For the history of the room.
    Fetching,
    /// For the socket to take an event of the history.
    Replaying,
    /// For the hub to take the announcement that the user has connected.
    Announcing,
    /// For the subscription to yield an event.
    Listening,
    /// For the socket to take an event that the subscription yielded.
    Forwarding,
    /// For nothing: sending is over.
    Done,
}

/// How the last action ended.
#[derive(Debug, PartialEq, Eq)]
pub enum Outcome {
    /// The socket took the frame, or failed to.
    Sent { ok: bool },
    /// The store answered with the history of the room, or failed to.
    Replayed { history: Option<Vec<ServerEvent>> },
    /// The announcement went to the hub.
    Announced,
    /// The subscription yielded an event.
    Received { event: ServerEvent },
    /// The subscription fell so far behind that the hub dropped events
    /// that it had not read.
    Lagged,
    /// The hub has no publisher left.
    HubClosed,
}

/// What is to be done next.
#[derive(Debug, PartialEq, Eq)]
pub enum Action {
    /// Send the event to the client.
    Send { event: ServerEvent },
    /// Ask the store for the history of the room.
    Replay,
    /// Publish the event to the room.
    Announce { event: ServerEvent },
    /// Wait for the subscription to yield an event.
    Receive,
    /// Stop sending and end the connection.
    Stop,
}

/// The sending side of one connection.
///
/// It holds the connection's subscription to its room from the start, so
/// that whatever is published while the history is read and sent waits in
/// the hub and is sent after it.
#[derive(Debug)]
pub struct Outbound {
    name: String,
    stage: Stage,
    /// The part of the history that is still to be sent, last event first.
    pending: Vec<ServerEvent>,
    subscriber: Receiver<ServerEvent>,
}

/// The mathematical value of an [`Outcome`].
pub enum OutcomeView {
    Sent { ok: bool },
    Replayed { history: Option<Seq<ServerEventView>> },
    Announced,
    Received { event: ServerEventView },
    Lagged,
    HubClosed,
}

/// The mathematical value of an [`Action`].
pub enum ActionView {
    Send { event: ServerEventView },
    Replay,
    Announce { event: ServerEventView },
    Receive,
    Stop,
}

/// The mathematical value of an [`Outbound`]: `backlog` is the part of the
/// history that is still to be sent, in the order in which it is sent.
pub struct OutboundView {
    pub name: Seq<char>,
    pub stage: Stage,
    pub backlog: Seq<ServerEventView>,
}

impl View for Outcome {
    type V = OutcomeView;

    open spec fn view(&self) -> OutcomeView {
        match *self {
            Outcome::Sent { ok } => OutcomeView::Sent { ok },
            Outcome::Replayed { history } => OutcomeView::Replayed {
                history: match history {
                    Some(events) => Some(views(events@)),
                    None => None,
                },
            },
            Outcome::Announced => OutcomeView::Announced,
            Outcome::Received { event } => OutcomeView::Received { event: event@ },
            Outcome::Lagged => OutcomeView::Lagged,
            Outcome::HubClosed => OutcomeView::HubClosed,
        }
    }
}

impl View for Action {
    type V = ActionView;

    open spec fn view(&self) -> ActionView {
        match *self {
            Action::Send { event } => ActionView::Send { event: event@ },
            Action::Replay => ActionView::Replay,
            Action::Announce { event } => ActionView::Announce { event: event@ },
            Action::Receive => ActionView::Receive,
            Action::Stop => ActionView::Stop,
        }
    }
}

impl View for Outbound {
    type V = OutboundView;

    closed spec fn view(&self) -> OutboundView {
        OutboundView {
            name: self.name@,
            stage: self.stage,
            backlog: views(self.pending@).reverse(),
        }
    }
}

impl OutboundView {
    /// The sending side of a connection that has just joined its room, and
    /// its first action: to send the user the name it was given.
    pub open spec fn start(name: Seq<char>) -> (OutboundView, ActionView) {
        (
            OutboundView { name, stage: Stage::Greeting, backlog: Seq::empty() },
            ActionView::Send { event: ServerEventView::AssignedName { name } },
        )
    }

    /// The same side at another stage, with nothing of the history left.
    pub open spec fn at(self, stage: Stage) -> OutboundView {
        OutboundView { name: self.name, stage, backlog: Seq::empty() }
    }

    /// Goes on with the history: sends the first event of `backlog` and
    /// keeps the rest, or, where nothing is left, announces the user to the
    /// room.
    pub open spec fn replay(self, backlog: Seq<ServerEventView>) -> (OutboundView, ActionView) {
        if backlog.len() > 0 {
            (
                OutboundView {
                    name: self.name,
                    stage: Stage::Replaying,
                    backlog: backlog.drop_first(),
                },
                ActionView::Send { event: backlog.first() },
            )
        } else {
            (
                self.at(Stage::Announcing),
                ActionView::Announce { event: ServerEventView::Connect { user: self.name } },
            )
        }
    }

    /// The sending side after the last action ended in `outcome`, and what
    /// is to be done next.
    ///
    /// Once the name is sent, the history is asked for; a store that fails
    /// counts as an empty history, and the failure goes no further. The
    /// history is sent event by event, then the user is announced to the
    /// room, and from then on each event that the subscription yields is
    /// sent on. A send that fails stops the sending, and so does a
    /// subscription that lagged: the client is dropped rather than left
    /// with a gap in what it was sent. A hub that is gone and an outcome
    /// that does not answer the action that was asked for stop it too.
    /// Nothing is tried again.
    pub open spec fn next(self, outcome: OutcomeView) -> (OutboundView, ActionView) {
        match (self.stage, outcome) {
            (Stage::Greeting, OutcomeView::Sent { ok: true }) => (
                self.at(Stage::Fetching),
                ActionView::Replay,
            ),
            (Stage::Fetching, OutcomeView::Replayed { history: Some(events) }) => self.replay(
                events,
            ),
            (Stage::Fetching, OutcomeView::Replayed { history: None }) => self.replay(
                Seq::empty(),
            ),
            (Stage::Replaying, OutcomeView::Sent { ok: true }) => self.replay(self.backlog),
            (Stage::Announcing, OutcomeView::Announced) => (
                self.at(Stage::Listening),
                ActionView::Receive,
            ),
            (Stage::Listening, OutcomeView::Received { event }) => (
                self.at(Stage::Forwarding),
                ActionView::Send { event },
            ),
            (Stage::Forwarding, OutcomeView::Sent { ok: true }) => (
                self.at(Stage::Listening),
                ActionView::Receive,
            ),
            _ => (self.at(Stage::Done), ActionView::Stop),
        }
    }
}

impl OutboundView {
    /// The sending side after its actions have ended in `outcomes`, one
    /// after another.
    pub open spec fn after(self, outcomes: Seq<OutcomeView>) -> OutboundView
        decreases outcomes.len(),
    {
        if outcomes.len() == 0 {
            self
        } else {
            self.after(outcomes.drop_last()).next(outcomes.last()).0
        }
    }

    /// The events that the sending side has asked to send to the client
    /// while its actions ended in `outcomes`, in the order in which it
    /// asked.
    pub open spec fn sent(self, outcomes: Seq<OutcomeView>) -> Seq<ServerEventView>
        decreases outcomes.len(),
    {
        if outcomes.len() == 0 {
            Seq::empty()
        } else {
            let before = self.sent(outcomes.drop_last());
            match self.after(outcomes.drop_last()).next(outcomes.last()).1 {
                ActionView::Send { event } => before.push(event),
                _ => before,
            }
        }
    }
}

/// The events that `outcomes` brought for the client, in the order in which
/// they came: the history as the store answered, and each event that the
/// subscription yielded.
pub open spec fn offered(outcomes: Seq<OutcomeView>) -> Seq<ServerEventView>
    decreases outcomes.len(),
{
    if outcomes.len() == 0 {
        Seq::empty()
    } else {
        offered(outcomes.drop_last()) + match outcomes.last() {
            OutcomeView::Replayed { history: Some(events) } => events,
            OutcomeView::Received { event } => seq![event],
            _ => Seq::empty(),
        }
    }
}

/// Nothing is lost and nothing overtakes: after the name it was given, a
/// client is sent the history of its room as the store answered, and after
/// that each event that its subscription yielded, all in the order in
/// which they came. As long as the sending has not stopped, whatever came
/// and is not yet sent is the rest of the history, which is sent next; once
/// it has stopped, what was sent is a beginning of what came. Of the
/// history nothing is left while anything else is awaited.
pub proof fn lemma_sent_in_order(name: Seq<char>, outcomes: Seq<OutcomeView>)
    ensures
        ({
            let begun = OutboundView::start(name).0;
            let now = begun.after(outcomes);
            &&& now.name == name
            &&& now.stage != Stage::Done ==> begun.sent(outcomes) + now.backlog == offered(
                outcomes,
            )
            &&& begun.sent(outcomes).is_prefix_of(offered(outcomes))
            &&& now.stage != Stage::Replaying ==> now.backlog == Seq::<ServerEventView>::empty()
        }),
    decreases outcomes.len(),
{
    if outcomes.len() > 0 {
        lemma_sent_in_order(name, outcomes.drop_last());
    }
}

/// The same events, last first.
fn reversed(events: Vec<ServerEvent>) -> (stack: Vec<ServerEvent>)
    ensures
        views(stack@).reverse() == views(events@),
{
    let mut events = events;
    let mut stack: Vec<ServerEvent> = Vec::with_capacity(events.len());
    let ghost all = views(events@);
    while events.len() > 0
        invariant
            views(events@) + views(stack@).reverse() == all,
        decreases events.len(),
    {
        let ghost before = views(events@);
        let ghost piled = views(stack@);
        let event = events.pop().unwrap();
        stack.push(event);
        proof {
            assert(views(events@) =~= before.drop_last());
            assert(views(stack@) =~= piled.push(before.last()));
            assert(views(events@) + views(stack@).reverse() =~= before + piled.reverse());
        }
    }
    stack
}

impl Outbound {
    /// The subscription that the sending side holds.
    pub closed spec fn subscription(&self) -> Receiver<ServerEvent> {
        self.subscriber
    }

    /// The sending side of a connection that has just joined its room as
    /// the user `name` and is subscribed to it by `subscriber`, with its
    /// first action.
    pub fn start(name: &str, subscriber: Receiver<ServerEvent>) -> (begun: (Outbound, Action))
        ensures
            (begun.0@, begun.1@) == OutboundView::start(name@),
            begun.0.subscription() == subscriber,
    {
        let outbound = Outbound {
            name: name.to_owned(),
            stage: Stage::Greeting,
            pending: Vec::new(),
            subscriber,
        };
        (outbound, Action::Send { event: ServerEvent::AssignedName { name: name.to_owned() } })
    }

    /// What the sending side is waiting for.
    pub fn stage(&self) -> (stage: Stage)
        ensures
            stage == self@.stage,
    {
        self.stage
    }

    /// The subscription that the sending side holds, to wait on when the
    /// action is to receive. What the caller takes out of it is gone from
    /// the subscription that the sending side holds afterwards; nothing
    /// else of the sending side changes.
    pub fn subscriber(&mut self) -> (subscriber: &mut Receiver<ServerEvent>)
        ensures
            *subscriber == old(self).subscription(),
            final(self).subscription() == *final(subscriber),
            final(self)@ == old(self)@,
    {
        &mut self.subscriber
    }

    /// Moves to `stage` and drops what is left of the history.
    fn go(&mut self, stage: Stage)
        ensures
            final(self)@ == old(self)@.at(stage),
            final(self).subscription() == old(self).subscription(),
    {
        self.stage = stage;
        self.pending.clear();
    }

    /// Goes on with what is pending of the history.
    fn replay(&mut self) -> (action: Action)
        ensures
            (final(self)@, action@) == old(self)@.replay(old(self)@.backlog),
            final(self).subscription() == old(self).subscription(),
    {
        let ghost backlog = self@.backlog;
        match self.pending.pop() {
            Some(event) => {
                self.stage = Stage::Replaying;
                proof {
                    assert(views(self.pending@).reverse() =~= backlog.drop_first());
                }
                Action::Send { event }
            },
            None => {
                self.go(Stage::Announcing);
                Action::Announce { event: ServerEvent::Connect { user: self.name.clone() } }
            },
        }
    }

    /// Takes in how the last action ended, and says what is to be done
    /// next.
    pub fn advance(&mut self, outcome: Outcome) -> (action: Action)
        ensures
            (final(self)@, action@) == old(self)@.next(outcome@),
            final(self).subscription() == old(self).subscription(),
    {
        match (self.stage, outcome) {
            (Stage::Greeting, Outcome::Sent { ok: true }) => {
                self.go(Stage::Fetching);
                Action::Replay
            },
            (Stage::Fetching, Outcome::Replayed { history: Some(events) }) => {
                self.pending = reversed(events);
                self.replay()
            },
            (Stage::Fetching, Outcome::Replayed { history: None }) => {
                self.pending.clear();
                self.replay()
            },
            (Stage::Replaying, Outcome::Sent { ok: true }) => self.replay(),
            (Stage::Announcing, Outcome::Announced) => {
                self.go(Stage::Listening);
                Action::Receive
            },
            (Stage::Listening, Outcome::Received { event }) => {
                self.go(Stage::Forwarding);
                Action::Send { event }
            },
            (Stage::Forwarding, Outcome::Sent { ok: true }) => {
                self.go(Stage::Listening);
                Action::Receive
            },
            _ => {
                self.go(Stage::Done);
                Action::Stop
            },
        }
    }
}

} // verus!
