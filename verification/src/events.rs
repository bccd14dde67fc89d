//! The event vocabulary exchanged with clients, and the stamping of a client
//! event with the name of the user who sent it.

use vstd::prelude::*;

verus! {

/// A position on the canvas, in pixels.
#[derive(Clone, Copy, Debug, PartialEq, Eq)]
pub struct Point {
    pub x: usize,
    pub y: usize,
}

/// How a stroke is drawn.
///
/// `line_width` holds the width as the bit pattern of a single-precision
/// number, so that the value travels through the server unchanged.
#[derive(Debug, PartialEq, Eq)]
pub struct Style {
    pub color: String,
    pub line_width: u32,
}

/// What a client sends.
#[derive(Debug, PartialEq, Eq)]
pub enum ClientEvent {
    Join { uuid: String, id: String },
    Draw { uuid: String, points: Vec<Point>, kind: String, style: Style },
    Fill { uuid: String, point: Point, color: String },
    Preview { uuid: String, points: Vec<Point>, kind: String, style: Style },
    Hover { uuid: String, point: Point },
    Erase { uuid: String },
}

/// What the server broadcasts.
#[derive(Debug, PartialEq, Eq)]
pub enum ServerEvent {
    AssignedName { name: String },
    Draw { uuid: String, user: String, points: Vec<Point>, kind: String, style: Style },
    Fill { uuid: String, user: String, point: Point, color: String },
    Preview { uuid: String, user: String, kind: String, points: Vec<Point>, style: Style },
    Hover { uuid: String, user: String, point: Point },
    Erase { uuid: String, user: String },
    Connect { user: String },
    Disconnect { user: String },
}

/// The mathematical value of a [`Style`].
pub struct StyleView {
    pub color: Seq<char>,
    pub line_width: u32,
}

/// The mathematical value of a [`ClientEvent`].
pub enum ClientEventView {
    Join { uuid: Seq<char>, id: Seq<char> },
    Draw { uuid: Seq<char>, points: Seq<Point>, kind: Seq<char>, style: StyleView },
    Fill { uuid: Seq<char>, point: Point, color: Seq<char> },
    Preview { uuid: Seq<char>, points: Seq<Point>, kind: Seq<char>, style: StyleView },
    Hover { uuid: Seq<char>, point: Point },
    Erase { uuid: Seq<char> },
}

/// The mathematical value of a [`ServerEvent`].
pub enum ServerEventView {
    AssignedName { name: Seq<char> },
    Draw {
        uuid: Seq<char>,
        user: Seq<char>,
        points: Seq<Point>,
        kind: Seq<char>,
        style: StyleView,
    },
    Fill { uuid: Seq<char>, user: Seq<char>, point: Point, color: Seq<char> },
    Preview {
        uuid: Seq<char>,
        user: Seq<char>,
        kind: Seq<char>,
        points: Seq<Point>,
        style: StyleView,
    },
    Hover { uuid: Seq<char>, user: Seq<char>, point: Point },
    Erase { uuid: Seq<char>, user: Seq<char> },
    Connect { user: Seq<char> },
    Disconnect { user: Seq<char> },
}

impl View for Style {
    type V = StyleView;

    open spec fn view(&self) -> StyleView {
        StyleView { color: self.color@, line_width: self.line_width }
    }
}

impl View for ClientEvent {
    type V = ClientEventView;

    open spec fn view(&self) -> ClientEventView {
        match *self {
            ClientEvent::Join { uuid, id } => ClientEventView::Join { uuid: uuid@, id: id@ },
            ClientEvent::Draw { uuid, points, kind, style } => ClientEventView::Draw {
                uuid: uuid@,
                points: points@,
                kind: kind@,
                style: style@,
            },
            ClientEvent::Fill { uuid, point, color } => ClientEventView::Fill {
                uuid: uuid@,
                point,
                color: color@,
            },
            ClientEvent::Preview { uuid, points, kind, style } => ClientEventView::Preview {
                uuid: uuid@,
                points: points@,
                kind: kind@,
                style: style@,
            },
            ClientEvent::Hover { uuid, point } => ClientEventView::Hover { uuid: uuid@, point },
            ClientEvent::Erase { uuid } => ClientEventView::Erase { uuid: uuid@ },
        }
    }
}

impl View for ServerEvent {
    type V = ServerEventView;

    open spec fn view(&self) -> ServerEventView {
        match *self {
            ServerEvent::AssignedName { name } => ServerEventView::AssignedName { name: name@ },
            ServerEvent::Draw { uuid, user, points, kind, style } => ServerEventView::Draw {
                uuid: uuid@,
                user: user@,
                points: points@,
                kind: kind@,
                style: style@,
            },
            ServerEvent::Fill { uuid, user, point, color } => ServerEventView::Fill {
                uuid: uuid@,
                user: user@,
                point,
                color: color@,
            },
            ServerEvent::Preview { uuid, user, kind, points, style } => ServerEventView::Preview {
                uuid: uuid@,
                user: user@,
                kind: kind@,
                points: points@,
                style: style@,
            },
            ServerEvent::Hover { uuid, user, point } => ServerEventView::Hover {
                uuid: uuid@,
                user: user@,
                point,
            },
            ServerEvent::Erase { uuid, user } => ServerEventView::Erase {
                uuid: uuid@,
                user: user@,
            },
            ServerEvent::Connect { user } => ServerEventView::Connect { user: user@ },
            ServerEvent::Disconnect { user } => ServerEventView::Disconnect { user: user@ },
        }
    }
}

impl ClientEventView {
    /// The server event that `user` causes by sending `self`: the same
    /// variant with the same payload, under the user's name. A `Join` carries
    /// no payload over: it becomes the announcement that the user connected.
    pub open spec fn stamped(self, user: Seq<char>) -> ServerEventView {
        match self {
            ClientEventView::Join { .. } => ServerEventView::Connect { user },
            ClientEventView::Draw { uuid, points, kind, style } => ServerEventView::Draw {
                uuid,
                user,
                points,
                kind,
                style,
            },
            ClientEventView::Fill { uuid, point, color } => ServerEventView::Fill {
                uuid,
                user,
                point,
                color,
            },
            ClientEventView::Preview { uuid, points, kind, style } => ServerEventView::Preview {
                uuid,
                user,
                kind,
                points,
                style,
            },
            ClientEventView::Hover { uuid, point } => ServerEventView::Hover { uuid, user, point },
            ClientEventView::Erase { uuid } => ServerEventView::Erase { uuid, user },
        }
    }
}

impl ServerEventView {
    /// The user that the event is about or comes from.
    pub open spec fn user(self) -> Seq<char> {
        match self {
            ServerEventView::AssignedName { name } => name,
            ServerEventView::Draw { user, .. } => user,
            ServerEventView::Fill { user, .. } => user,
            ServerEventView::Preview { user, .. } => user,
            ServerEventView::Hover { user, .. } => user,
            ServerEventView::Erase { user, .. } => user,
            ServerEventView::Connect { user } => user,
            ServerEventView::Disconnect { user } => user,
        }
    }

    /// What a client sent to cause the event, where the event carries it.
    pub open spec fn payload(self) -> Option<ClientEventView> {
        match self {
            ServerEventView::Draw { uuid, points, kind, style, .. } => Some(
                ClientEventView::Draw { uuid, points, kind, style },
            ),
            ServerEventView::Fill { uuid, point, color, .. } => Some(
                ClientEventView::Fill { uuid, point, color },
            ),
            ServerEventView::Preview { uuid, points, kind, style, .. } => Some(
                ClientEventView::Preview { uuid, points, kind, style },
            ),
            ServerEventView::Hover { uuid, point, .. } => Some(
                ClientEventView::Hover { uuid, point },
            ),
            ServerEventView::Erase { uuid, .. } => Some(ClientEventView::Erase { uuid }),
            _ => None,
        }
    }

    /// A mark on the canvas: what a room's history keeps.
    pub open spec fn is_mark(self) -> bool {
        self is Draw || self is Fill
    }

    /// A durable fact about the canvas: a mark, or the erasure of all marks.
    pub open spec fn is_persistable(self) -> bool {
        self.is_mark() || self is Erase
    }
}

impl ServerEvent {
    /// Whether the event is a mark on the canvas.
    pub fn is_mark(&self) -> (mark: bool)
        ensures
            mark == self@.is_mark(),
    {
        match self {
            ServerEvent::Draw { .. } => true,
            ServerEvent::Fill { .. } => true,
            _ => false,
        }
    }

    /// Whether the event wipes the canvas.
    pub fn is_erase(&self) -> (erase: bool)
        ensures
            erase == (self@ is Erase),
    {
        match self {
            ServerEvent::Erase { .. } => true,
            _ => false,
        }
    }

    /// Whether the event is a durable fact about the canvas, as opposed to
    /// one that only live subscribers see.
    pub fn is_persistable(&self) -> (persistable: bool)
        ensures
            persistable == self@.is_persistable(),
    {
        self.is_mark() || self.is_erase()
    }

    /// Stamps a client event with the display name of the user who sent it.
    pub fn from(value: ClientEvent, user: &str) -> (event: ServerEvent)
        ensures
            event@ == value@.stamped(user@),
    {
        let user = user.to_owned();
        match value {
            ClientEvent::Join { .. } => ServerEvent::Connect { user },
            ClientEvent::Draw { uuid, points, kind, style } => ServerEvent::Draw {
                uuid,
                user,
                points,
                kind,
                style,
            },
            ClientEvent::Fill { uuid, point, color } => ServerEvent::Fill {
                uuid,
                user,
                point,
                color,
            },
            ClientEvent::Preview { uuid, points, kind, style } => ServerEvent::Preview {
                uuid,
                user,
                kind,
                points,
                style,
            },
            ClientEvent::Hover { uuid, point } => ServerEvent::Hover { uuid, user, point },
            ClientEvent::Erase { uuid } => ServerEvent::Erase { uuid, user },
        }
    }
}

/// Stamping adds the user and takes nothing away: the server event is
/// under the user's name, and what the client sent can be read off it
/// again, field for field. Only a join is not passed on: it is announced
/// as a connection. A stamped event is durable exactly when a mark or an
/// erasure was sent.
pub proof fn lemma_stamping_keeps_the_payload(event: ClientEventView, user: Seq<char>)
    ensures
        event.stamped(user).user() == user,
        !(event is Join) ==> event.stamped(user).payload() == Some(event),
        event is Join ==> event.stamped(user) == (ServerEventView::Connect { user }),
        event.stamped(user).is_persistable() <==> event is Draw || event is Fill || event is Erase,
        event.stamped(user).is_mark() <==> event is Draw || event is Fill,
{
}

impl Clone for Style {
    fn clone(&self) -> (copy: Style)
        ensures
            copy@ == self@,
    {
        Style { color: self.color.clone(), line_width: self.line_width }
    }
}

/// A copy of a stroke's points.
fn clone_points(points: &Vec<Point>) -> (copy: Vec<Point>)
    ensures
        copy@ == points@,
{
    let mut copy: Vec<Point> = Vec::with_capacity(points.len());
    let mut i: usize = 0;
    while i < points.len()
        invariant
            i <= points.len(),
            copy@ == points@.take(i as int),
        decreases points.len() - i,
    {
        copy.push(points[i]);
        i += 1;
    }
    copy
}

impl Clone for ClientEvent {
    fn clone(&self) -> (copy: ClientEvent)
        ensures
            copy@ == self@,
    {
        match self {
            ClientEvent::Join { uuid, id } => ClientEvent::Join {
                uuid: uuid.clone(),
                id: id.clone(),
            },
            ClientEvent::Draw { uuid, points, kind, style } => ClientEvent::Draw {
                uuid: uuid.clone(),
                points: clone_points(points),
                kind: kind.clone(),
                style: style.clone(),
            },
            ClientEvent::Fill { uuid, point, color } => ClientEvent::Fill {
                uuid: uuid.clone(),
                point: *point,
                color: color.clone(),
            },
            ClientEvent::Preview { uuid, points, kind, style } => ClientEvent::Preview {
                uuid: uuid.clone(),
                points: clone_points(points),
                kind: kind.clone(),
                style: style.clone(),
            },
            ClientEvent::Hover { uuid, point } => ClientEvent::Hover {
                uuid: uuid.clone(),
                point: *point,
            },
            ClientEvent::Erase { uuid } => ClientEvent::Erase { uuid: uuid.clone() },
        }
    }
}

impl Clone for ServerEvent {
    fn clone(&self) -> (copy: ServerEvent)
        ensures
            copy@ == self@,
    {
        match self {
            ServerEvent::AssignedName { name } => ServerEvent::AssignedName { name: name.clone() },
            ServerEvent::Draw { uuid, user, points, kind, style } => ServerEvent::Draw {
                uuid: uuid.clone(),
                user: user.clone(),
                points: clone_points(points),
                kind: kind.clone(),
                style: style.clone(),
            },
            ServerEvent::Fill { uuid, user, point, color } => ServerEvent::Fill {
                uuid: uuid.clone(),
                user: user.clone(),
                point: *point,
                color: color.clone(),
            },
            ServerEvent::Preview { uuid, user, kind, points, style } => ServerEvent::Preview {
                uuid: uuid.clone(),
                user: user.clone(),
                kind: kind.clone(),
                points: clone_points(points),
                style: style.clone(),
            },
            ServerEvent::Hover { uuid, user, point } => ServerEvent::Hover {
                uuid: uuid.clone(),
                user: user.clone(),
                point: *point,
            },
            ServerEvent::Erase { uuid, user } => ServerEvent::Erase {
                uuid: uuid.clone(),
                user: user.clone(),
            },
            ServerEvent::Connect { user } => ServerEvent::Connect { user: user.clone() },
            ServerEvent::Disconnect { user } => ServerEvent::Disconnect { user: user.clone() },
        }
    }
}

} // verus!
