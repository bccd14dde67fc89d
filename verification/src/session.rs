//! One connection, from its first frame to its end: it waits until the
//! client joins a room, then relays what the client sends, and takes its
//! leave when either direction of the socket gives up.

use crate::events::{ClientEvent, ClientEventView, ServerEvent, ServerEventView};
use crate::outbound::{Action, ActionView, Outbound, OutboundView};
use crate::room::publish;
use tokio::sync::broadcast::{Receiver, Sender};
use tokio::sync::mpsc::UnboundedSender;
use vstd::prelude::*;

verus! {

/// Where a connection stands.
#[derive(Debug, PartialEq, Eq)]
pub enum Phase {
    /// The client has not joined a room yet.
    AwaitingJoin,
    /// The client is a member of `room`.
    Active { room: String },
    /// The connection is over.
    Closed,
}

/// What the socket yields next.
#[derive(Debug, PartialEq, Eq)]
pub enum Inbound {
    /// A binary frame that decoded to an event.
    Event(ClientEvent),
    /// A binary frame that did not decode.
    Malformed,
    /// A frame of any other kind.
    NotBinary,
    /// The socket closed or failed.
    End,
}

/// What is to be done about what the socket yielded.
#[derive(Debug, PartialEq, Eq)]
pub enum Step {
    /// Nothing: the frame is dropped and the connection keeps waiting for
    /// the client to join.
    Wait,
    /// The client joins `room`: resolve the room, subscribe the connection
    /// to it, and start sending.
    Join { room: String },
    /// Publish `event` to the room, after handing it to the history under
    /// the room id `record` where there is one.
    Relay { event: ServerEvent, record: Option<String> },
    /// Nothing: the frame is dropped and the connection goes on.
    Ignore,
    /// The connection is over: publish `farewell` to the room where there
    /// is one, and stop.
    Leave { farewell: Option<ServerEvent> },
}

/// What became of a step: whether the history queue took the event, where
/// it was to be recorded, and how many subscribers the hub counted, where
/// an event was to be published.
#[derive(Clone, Copy, Debug, PartialEq, Eq)]
pub struct Performed {
    pub recorded: Option<bool>,
    pub published: Option<usize>,
}

/// `tokio::sync::mpsc::UnboundedSender`, the handle by which messages are
/// put into a queue without a bound. It is held and handed on.
#[verifier::external_type_specification]
#[verifier::external_body]
#[verifier::reject_recursive_types(T)]
pub struct ExUnboundedSender<T>(UnboundedSender<T>);

/// Calls `tokio::sync::mpsc::UnboundedSender::send` with the room id and
/// the event as one message. The call never waits; it fails when the
/// receiving half is closed or gone, which the result says, and of which
/// nothing can be known beforehand. It ends the process once
/// `usize::MAX / 2` messages wait in the queue, more than a process has
/// room for.
#[verifier::external_body]
fn enqueue(
    queue: &UnboundedSender<(String, ServerEvent)>,
    room: String,
    event: ServerEvent,
) -> (taken: bool) {
    queue.send((room, event)).is_ok()
}

/// Calls `names::Generator::new` with the two word lists and
/// `names::Name::Plain`, and then `next` once. The generator draws one
/// word from each list at random and joins them with a hyphen, and it
/// panics on an empty list, which the precondition leaves out. It also
/// panics where the system gives the thread no seed for its random
/// numbers, which no precondition can tell.
#[verifier::external_body]
fn draw_name(adjectives: &[&str], nouns: &[&str]) -> (name: Option<String>)
    requires
        adjectives@.len() > 0,
        nouns@.len() > 0,
    ensures
        name matches Some(name) && two_part(name@, adjectives@, nouns@),
{
    names::Generator::new(adjectives, nouns, names::Name::Plain).next()
}

/// Whether `name` is a word of `adjectives`, a hyphen and a word of `nouns`.
pub open spec fn two_part(name: Seq<char>, adjectives: Seq<&str>, nouns: Seq<&str>) -> bool {
    exists|i: int, j: int|
        0 <= i < adjectives.len() && 0 <= j < nouns.len() && name == (#[trigger] adjectives[i])@
            + seq!['-'] + (#[trigger] nouns[j])@
}

/// A display name for a new connection, drawn at random: one of
/// `adjectives`, a hyphen, and one of `nouns`. There is none where a list
/// is empty.
pub fn display_name(adjectives: &[&str], nouns: &[&str]) -> (name: Option<String>)
    ensures
        name is Some <==> adjectives@.len() > 0 && nouns@.len() > 0,
        name matches Some(name) ==> two_part(name@, adjectives@, nouns@),
{
    if adjectives.len() == 0 || nouns.len() == 0 {
        None
    } else {
        draw_name(adjectives, nouns)
    }
}

/// The state of one connection.
#[derive(Debug)]
pub struct Session {
    name: String,
    phase: Phase,
}

/// The mathematical value of a [`Phase`].
pub enum PhaseView {
    AwaitingJoin,
    Active { room: Seq<char> },
    Closed,
}

/// The mathematical value of an [`Inbound`].
pub enum InboundView {
    Event(ClientEventView),
    Malformed,
    NotBinary,
    End,
}

/// The mathematical value of a [`Step`].
pub enum StepView {
    Wait,
    Join { room: Seq<char> },
    Relay { event: ServerEventView, record: Option<Seq<char>> },
    Ignore,
    Leave { farewell: Option<ServerEventView> },
}

/// The mathematical value of a [`Session`].
pub struct SessionView {
    pub name: Seq<char>,
    pub phase: PhaseView,
}

impl View for Phase {
    type V = PhaseView;

    open spec fn view(&self) -> PhaseView {
        match *self {
            Phase::AwaitingJoin => PhaseView::AwaitingJoin,
            Phase::Active { room } => PhaseView::Active { room: room@ },
            Phase::Closed => PhaseView::Closed,
        }
    }
}

impl View for Inbound {
    type V = InboundView;

    open spec fn view(&self) -> InboundView {
        match *self {
            Inbound::Event(event) => InboundView::Event(event@),
            Inbound::Malformed => InboundView::Malformed,
            Inbound::NotBinary => InboundView::NotBinary,
            Inbound::End => InboundView::End,
        }
    }
}

impl View for Step {
    type V = StepView;

    open spec fn view(&self) -> StepView {
        match *self {
            Step::Wait => StepView::Wait,
            Step::Join { room } => StepView::Join { room: room@ },
            Step::Relay { event, record } => StepView::Relay {
                event: event@,
                record: match record {
                    Some(room) => Some(room@),
                    None => None,
                },
            },
            Step::Ignore => StepView::Ignore,
            Step::Leave { farewell } => StepView::Leave {
                farewell: match farewell {
                    Some(event) => Some(event@),
                    None => None,
                },
            },
        }
    }
}

impl View for Session {
    type V = SessionView;

    closed spec fn view(&self) -> SessionView {
        SessionView { name: self.name@, phase: self.phase@ }
    }
}

impl SessionView {
    /// The session with another phase.
    pub open spec fn at(self, phase: PhaseView) -> SessionView {
        SessionView { name: self.name, phase }
    }

    /// The session after the socket has yielded `input`, and what is to be
    /// done about it.
    ///
    /// While it waits for the client to join, a join makes the session
    /// active in the room that the client names, a frame that does not
    /// decode is dropped, and anything else ends the connection without a
    /// farewell: another event or a frame that is not binary, which
    /// violate the protocol, and the end of the socket.
    ///
    /// While it is active, a mark or an erasure is relayed and recorded, a
    /// preview or a hover is relayed only, a frame that does not decode
    /// and a second join are dropped, and a frame that is not binary or
    /// the end of the socket ends the connection with the farewell that
    /// the user has left.
    ///
    /// Once it is closed, nothing is done any more.
    pub open spec fn next(self, input: InboundView) -> (SessionView, StepView) {
        match self.phase {
            PhaseView::AwaitingJoin => match input {
                InboundView::Event(ClientEventView::Join { id, .. }) => (
                    self.at(PhaseView::Active { room: id }),
                    StepView::Join { room: id },
                ),
                InboundView::Malformed => (self, StepView::Wait),
                _ => (self.at(PhaseView::Closed), StepView::Leave { farewell: None }),
            },
            PhaseView::Active { room } => match input {
                InboundView::Event(event) => if event is Join {
                    (self, StepView::Ignore)
                } else {
                    let event = event.stamped(self.name);
                    (
                        self,
                        StepView::Relay {
                            event,
                            record: if event.is_persistable() {
                                Some(room)
                            } else {
                                None
                            },
                        },
                    )
                },
                InboundView::Malformed => (self, StepView::Ignore),
                _ => (
                    self.at(PhaseView::Closed),
                    StepView::Leave {
                        farewell: Some(ServerEventView::Disconnect { user: self.name }),
                    },
                ),
            },
            PhaseView::Closed => (self, StepView::Leave { farewell: None }),
        }
    }
}

impl SessionView {
    /// The session of a connection that has just been accepted.
    pub open spec fn fresh(name: Seq<char>) -> SessionView {
        SessionView { name, phase: PhaseView::AwaitingJoin }
    }

    /// The session after the socket has yielded `inputs` one after another.
    pub open spec fn after(self, inputs: Seq<InboundView>) -> SessionView
        decreases inputs.len(),
    {
        if inputs.len() == 0 {
            self
        } else {
            self.after(inputs.drop_last()).next(inputs.last()).0
        }
    }

    /// What the client is sent first, once the session is active: the name
    /// that the user was given. A session that is not active has nothing
    /// to send.
    pub open spec fn greeting(self) -> Option<ServerEventView> {
        if self.phase is Active {
            Some(ServerEventView::AssignedName { name: self.name })
        } else {
            None
        }
    }

    /// What is to be done about the input at position `i` of `inputs`.
    pub open spec fn step_at(self, inputs: Seq<InboundView>, i: int) -> StepView {
        self.after(inputs.take(i)).next(inputs[i]).1
    }
}

/// Whether the input is an event that asks to join a room.
pub open spec fn is_join(input: InboundView) -> bool {
    input matches InboundView::Event(event) && event is Join
}

/// A session keeps its user's name, a closed session stays closed, and an
/// active session stays in the room it joined until it is closed: no later
/// join moves it to another room.
pub proof fn lemma_session_is_steady(session: SessionView, inputs: Seq<InboundView>)
    ensures
        session.after(inputs).name == session.name,
        session.phase is Closed ==> session.after(inputs).phase is Closed,
        session.phase is Active ==> session.after(inputs).phase == session.phase
            || session.after(inputs).phase is Closed,
    decreases inputs.len(),
{
    if inputs.len() > 0 {
        lemma_session_is_steady(session, inputs.drop_last());
    }
}

/// No room without a join: when the first frame of a connection that
/// decodes, or the first thing other than a frame that does not decode, is
/// not a join, the connection is never active, so it is never greeted with
/// a name nor subscribed to a room, and from that input on it is closed.
pub proof fn lemma_no_join_no_session(
    name: Seq<char>,
    inputs: Seq<InboundView>,
    first: int,
    n: int,
)
    requires
        0 <= first < inputs.len(),
        forall|i: int| 0 <= i < first ==> inputs[i] is Malformed,
        !(inputs[first] is Malformed),
        !is_join(inputs[first]),
        0 <= n <= inputs.len(),
    ensures
        !(SessionView::fresh(name).after(inputs.take(n)).phase is Active),
        SessionView::fresh(name).after(inputs.take(n)).greeting() is None,
        n <= first ==> SessionView::fresh(name).after(inputs.take(n)).phase is AwaitingJoin,
        n > first ==> SessionView::fresh(name).after(inputs.take(n)).phase is Closed,
    decreases n,
{
    if n > 0 {
        lemma_no_join_no_session(name, inputs, first, n - 1);
        assert(inputs.take(n).drop_last() =~= inputs.take(n - 1));
    }
}

/// Whether the input ends a connection that is active.
pub open spec fn is_end(input: InboundView) -> bool {
    input is NotBinary || input is End
}

/// In the order of arrival: as long as nothing has ended it, an active
/// session relays every event that arrives, other than a join, as that
/// very event under its user's name, at the position at which it arrived;
/// and it records it under the room it joined exactly when the event is
/// durable. Nothing is dropped and nothing is reordered.
pub proof fn lemma_relays_in_order(session: SessionView, inputs: Seq<InboundView>, i: int)
    requires
        session.phase is Active,
        0 <= i < inputs.len(),
        forall|k: int| 0 <= k < i ==> !is_end(#[trigger] inputs[k]),
        inputs[i] is Event,
        !is_join(inputs[i]),
    ensures
        session.step_at(inputs, i) == (StepView::Relay {
            event: inputs[i]->0.stamped(session.name),
            record: if inputs[i]->0.stamped(session.name).is_persistable() {
                Some(session.phase->room)
            } else {
                None
            },
        }),
{
    lemma_stays_active(session, inputs.take(i));
}

/// A session that is active stays as it is while nothing ends it.
proof fn lemma_stays_active(session: SessionView, inputs: Seq<InboundView>)
    requires
        session.phase is Active,
        forall|k: int| 0 <= k < inputs.len() ==> !is_end(#[trigger] inputs[k]),
    ensures
        session.after(inputs) == session,
    decreases inputs.len(),
{
    if inputs.len() > 0 {
        lemma_stays_active(session, inputs.drop_last());
    }
}

/// One farewell: a connection takes its leave of the room at most once, it
/// does so under its user's name, and only a connection that was active at
/// that moment does so at all.
pub proof fn lemma_one_farewell(session: SessionView, inputs: Seq<InboundView>, i: int, j: int)
    requires
        0 <= i < j < inputs.len(),
        session.step_at(inputs, i) matches StepView::Leave { farewell: Some(_) },
    ensures
        session.step_at(inputs, i) == (StepView::Leave {
            farewell: Some(ServerEventView::Disconnect { user: session.name }),
        }),
        session.after(inputs.take(i)).phase is Active,
        session.step_at(inputs, j) == (StepView::Leave { farewell: None }),
{
    lemma_session_is_steady(session, inputs.take(i));
    let closed = session.after(inputs.take(i + 1));
    lemma_after_concat(session, inputs.take(i + 1), inputs.subrange(i + 1, j));
    assert(inputs.take(i + 1) + inputs.subrange(i + 1, j) =~= inputs.take(j));
    lemma_session_is_steady(closed, inputs.subrange(i + 1, j));
}

/// Taking in one run of inputs and then another is taking in both in a row.
pub proof fn lemma_after_concat(
    session: SessionView,
    first: Seq<InboundView>,
    second: Seq<InboundView>,
)
    ensures
        session.after(first + second) == session.after(first).after(second),
    decreases second.len(),
{
    if second.len() > 0 {
        lemma_after_concat(session, first, second.drop_last());
        assert((first + second).drop_last() =~= first + second.drop_last());
    }
}

impl Session {
    /// The session of a connection that has just been accepted, for the
    /// user `name`.
    pub fn new(name: String) -> (session: Session)
        ensures
            session@ == SessionView::fresh(name@),
    {
        Session { name, phase: Phase::AwaitingJoin }
    }

    /// The display name of the user, which stays the same for the whole
    /// connection.
    pub fn name(&self) -> (name: &str)
        ensures
            name@ == self@.name,
    {
        self.name.as_str()
    }

    /// Where the connection stands.
    pub fn phase(&self) -> (phase: &Phase)
        ensures
            phase@ == self@.phase,
    {
        &self.phase
    }

    /// Takes in what the socket yielded, and says what is to be done.
    pub fn step(&mut self, input: Inbound) -> (step: Step)
        ensures
            (final(self)@, step@) == old(self)@.next(input@),
    {
        let mut phase = Phase::Closed;
        core::mem::swap(&mut self.phase, &mut phase);
        match phase {
            Phase::AwaitingJoin => match input {
                Inbound::Event(ClientEvent::Join { id, .. }) => {
                    self.phase = Phase::Active { room: id.clone() };
                    Step::Join { room: id }
                },
                Inbound::Malformed => {
                    self.phase = Phase::AwaitingJoin;
                    Step::Wait
                },
                _ => Step::Leave { farewell: None },
            },
            Phase::Active { room } => match input {
                Inbound::Event(ClientEvent::Join { .. }) => {
                    self.phase = Phase::Active { room };
                    Step::Ignore
                },
                Inbound::Event(event) => {
                    let event = ServerEvent::from(event, self.name.as_str());
                    let record = if event.is_persistable() {
                        Some(room.clone())
                    } else {
                        None
                    };
                    self.phase = Phase::Active { room };
                    Step::Relay { event, record }
                },
                Inbound::Malformed => {
                    self.phase = Phase::Active { room };
                    Step::Ignore
                },
                _ => Step::Leave {
                    farewell: Some(ServerEvent::Disconnect { user: self.name.clone() }),
                },
            },
            Phase::Closed => Step::Leave { farewell: None },
        }
    }

    /// The sending side of the connection with its first action, once the
    /// connection is active and subscribed to its room by `subscriber`:
    /// nothing is sent to a client that has not joined, nor to one that has
    /// left.
    pub fn outbound(&self, subscriber: Receiver<ServerEvent>) -> (begun: Option<
        (Outbound, Action),
    >)
        ensures
            match begun {
                Some((outbound, action)) => (outbound@, action@) == OutboundView::start(
                    self@.name,
                ) && self@.greeting() is Some && action@ == (ActionView::Send {
                    event: self@.greeting()->0,
                }) && outbound.subscription() == subscriber,
                None => self@.greeting() is None,
            },
    {
        match self.phase {
            Phase::Active { .. } => Some(Outbound::start(self.name.as_str(), subscriber)),
            _ => None,
        }
    }

    /// Ends the connection from the server's side, as when sending to the
    /// client has failed: the farewell to publish, where the connection was
    /// active.
    pub fn close(&mut self) -> (farewell: Option<ServerEvent>)
        ensures
            final(self)@ == old(self)@.next(InboundView::End).0,
            old(self)@.next(InboundView::End).1 == (StepView::Leave {
                farewell: match farewell {
                    Some(event) => Some(event@),
                    None => None,
                },
            }),
    {
        match self.step(Inbound::End) {
            Step::Leave { farewell } => farewell,
            _ => None,
        }
    }
}

/// Carries out what `step` asks of the room and of its history: a relayed
/// event is first handed to the history queue, where it is to be recorded,
/// and then published to the hub; a farewell is published to the hub; any
/// other step asks nothing of them.
pub fn perform(
    step: Step,
    hub: &Sender<ServerEvent>,
    queue: &UnboundedSender<(String, ServerEvent)>,
) -> (done: Performed)
    ensures
        done.recorded is Some <==> (step@ matches StepView::Relay { record: Some(_), .. }),
        done.published is Some <==> (step@ is Relay || step@ matches StepView::Leave {
            farewell: Some(_),
        }),
{
    match step {
        Step::Relay { event, record } => {
            let recorded = match record {
                Some(room) => Some(enqueue(queue, room, event.clone())),
                None => None,
            };
            Performed { recorded, published: Some(publish(hub, event)) }
        },
        Step::Leave { farewell: Some(event) } => Performed {
            recorded: None,
            published: Some(publish(hub, event)),
        },
        _ => Performed { recorded: None, published: None },
    }
}

} // verus!
