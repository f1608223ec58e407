//! The messages of the feed.
//!
//! Every type has a view over character sequences, which is what the
//! contracts of the decoder and of the request builder speak of. A payload
//! whose fields the client core never reads is carried as the text of its
//! frame, under the feed it came from.

use vstd::prelude::*;

verus! {

/// The character sequences of a list of strings.
pub open spec fn texts(v: Seq<String>) -> Seq<Seq<char>> {
    Seq::new(v.len(), |i: int| v[i]@)
}

/// The character sequences of an optional list of strings.
pub open spec fn opt_texts(v: Option<Vec<String>>) -> Option<Seq<Seq<char>>> {
    match v {
        Some(list) => Some(texts(list@)),
        None => None,
    }
}

/// The feed of a message and the products it is about.
#[derive(Debug, Clone, PartialEq, Eq)]
pub struct Header {
    pub feed: String,
    pub product_ids: Option<Vec<String>>,
}

/// What a header holds, as character sequences and numbers.
pub struct HeaderView {
    pub feed: Seq<char>,
    pub product_ids: Option<Seq<Seq<char>>>,
}

impl View for Header {
    type V = HeaderView;

    open spec fn view(&self) -> HeaderView {
        HeaderView { feed: self.feed@, product_ids: opt_texts(self.product_ids) }
    }
}

/// The server's sign of life on the heartbeat feed.
#[derive(Debug, Clone, PartialEq, Eq)]
pub struct Heartbeat {
    pub header: Header,
    pub time: u64,
}

/// What a heartbeat holds, as character sequences and numbers.
pub struct HeartbeatView {
    pub header: HeaderView,
    pub time: u64,
}

impl View for Heartbeat {
    type V = HeartbeatView;

    open spec fn view(&self) -> HeartbeatView {
        HeartbeatView { header: self.header@, time: self.time }
    }
}

/// The answer to a challenge request; `message` is the challenge.
#[derive(Debug, Clone, PartialEq, Eq)]
pub struct Challenge {
    pub feed: String,
    pub event: String,
    pub message: String,
}

/// What a challenge holds, as character sequences and numbers.
pub struct ChallengeView {
    pub feed: Seq<char>,
    pub event: Seq<char>,
    pub message: Seq<char>,
}

impl View for Challenge {
    type V = ChallengeView;

    open spec fn view(&self) -> ChallengeView {
        ChallengeView { feed: self.feed@, event: self.event@, message: self.message@ }
    }
}

/// The acknowledgement of a subscription.
#[derive(Debug, Clone, PartialEq, Eq)]
pub struct Subscribed {
    pub event: String,
    pub header: Header,
}

/// What an acknowledgement holds, as character sequences and numbers.
pub struct SubscribedView {
    pub event: Seq<char>,
    pub header: HeaderView,
}

impl View for Subscribed {
    type V = SubscribedView;

    open spec fn view(&self) -> SubscribedView {
        SubscribedView { event: self.event@, header: self.header@ }
    }
}

/// An event with a message: an error report, or a challenge sent without a
/// feed.
#[derive(Debug, Clone, PartialEq, Eq)]
pub struct Error {
    pub event: String,
    pub message: String,
}

/// What an event message holds, as character sequences and numbers.
pub struct ErrorView {
    pub event: Seq<char>,
    pub message: Seq<char>,
}

impl View for Error {
    type V = ErrorView;

    open spec fn view(&self) -> ErrorView {
        ErrorView { event: self.event@, message: self.message@ }
    }
}

/// The server's greeting, with the version of the API.
#[derive(Debug, Clone, PartialEq, Eq)]
pub struct Version {
    pub event: String,
    pub version: u64,
}

/// What a greeting holds, as character sequences and numbers.
pub struct VersionView {
    pub event: Seq<char>,
    pub version: u64,
}

impl View for Version {
    type V = VersionView;

    open spec fn view(&self) -> VersionView {
        VersionView { event: self.event@, version: self.version }
    }
}

/// One notification of the authenticated notifications feed.
#[derive(Debug, Clone, PartialEq, Eq)]
pub struct Notification {
    pub id: u64,
    pub ty: String,
    pub priority: String,
    pub note: String,
    pub effective_time: u64,
}

/// What a notification holds, as character sequences and numbers.
pub struct NotificationView {
    pub id: u64,
    pub ty: Seq<char>,
    pub priority: Seq<char>,
    pub note: Seq<char>,
    pub effective_time: u64,
}

impl View for Notification {
    type V = NotificationView;

    open spec fn view(&self) -> NotificationView {
        NotificationView {
            id: self.id,
            ty: self.ty@,
            priority: self.priority@,
            note: self.note@,
            effective_time: self.effective_time,
        }
    }
}

/// The views of a list of notifications.
pub open spec fn notification_views(v: Seq<Notification>) -> Seq<NotificationView> {
    Seq::new(v.len(), |i: int| v[i]@)
}

/// A message of the authenticated notifications feed.
#[derive(Debug, Clone, PartialEq, Eq)]
pub struct Notifications {
    pub feed: String,
    pub notifications: Vec<Notification>,
}

/// What a notifications message holds, as character sequences and numbers.
pub struct NotificationsView {
    pub feed: Seq<char>,
    pub notifications: Seq<NotificationView>,
}

impl View for Notifications {
    type V = NotificationsView;

    open spec fn view(&self) -> NotificationsView {
        NotificationsView {
            feed: self.feed@,
            notifications: notification_views(self.notifications@),
        }
    }
}

/// A message whose fields the client core does not read: the feed it came
/// from and the text of the frame, for the consumer to parse.
#[derive(Debug, Clone, PartialEq, Eq)]
pub struct Payload {
    pub feed: String,
    pub text: String,
}

/// What a payload holds, as character sequences and numbers.
pub struct PayloadView {
    pub feed: Seq<char>,
    pub text: Seq<char>,
}

impl View for Payload {
    type V = PayloadView;

    open spec fn view(&self) -> PayloadView {
        PayloadView { feed: self.feed@, text: self.text@ }
    }
}

/// The shape of an inbound message.
#[derive(Debug, Clone, Copy, PartialEq, Eq, Structural)]
pub enum Kind {
    Version,
    Subscribed,
    Error,
    Trade,
    TradeSnapshot,
    Book,
    BookSnapshot,
    Ticker,
    TickerLite,
    Heartbeat,
    Challenge,
    AccountBalancesAndMargins,
    AccountLog,
    DepositsWithdrawals,
    Fills,
    OpenPositions,
    OpenOrders,
    OpenOrdersSnapshot,
    Notifications,
}

/// An inbound message, by shape.
#[derive(Debug, Clone, PartialEq, Eq)]
pub enum Msg {
    Version(Version),
    Subscribed(Subscribed),
    Error(Error),
    Trade(Payload),
    TradeSnapshot(Payload),
    Book(Payload),
    BookSnapshot(Payload),
    Ticker(Payload),
    TickerLite(Payload),
    Heartbeat(Heartbeat),
    Challenge(Challenge),
    AccountBalancesAndMargins(Payload),
    AccountLog(Payload),
    DepositsWithdrawals(Payload),
    Fills(Payload),
    OpenPositions(Payload),
    OpenOrders(Payload),
    OpenOrdersSnapshot(Payload),
    Notifications(Notifications),
}

/// What a message holds, apart from its shape.
pub enum Body {
    Version(VersionView),
    Subscribed(SubscribedView),
    Error(ErrorView),
    Heartbeat(HeartbeatView),
    Challenge(ChallengeView),
    Notifications(NotificationsView),
    Payload(PayloadView),
}

/// What a message is: its shape and what it holds.
pub struct MsgView {
    pub kind: Kind,
    pub body: Body,
}

impl View for Msg {
    type V = MsgView;

    open spec fn view(&self) -> MsgView {
        match self {
            Msg::Version(m) => MsgView { kind: Kind::Version, body: Body::Version(m@) },
            Msg::Subscribed(m) => MsgView { kind: Kind::Subscribed, body: Body::Subscribed(m@) },
            Msg::Error(m) => MsgView { kind: Kind::Error, body: Body::Error(m@) },
            Msg::Trade(m) => MsgView { kind: Kind::Trade, body: Body::Payload(m@) },
            Msg::TradeSnapshot(m) => MsgView {
                kind: Kind::TradeSnapshot,
                body: Body::Payload(m@),
            },
            Msg::Book(m) => MsgView { kind: Kind::Book, body: Body::Payload(m@) },
            Msg::BookSnapshot(m) => MsgView { kind: Kind::BookSnapshot, body: Body::Payload(m@) },
            Msg::Ticker(m) => MsgView { kind: Kind::Ticker, body: Body::Payload(m@) },
            Msg::TickerLite(m) => MsgView { kind: Kind::TickerLite, body: Body::Payload(m@) },
            Msg::Heartbeat(m) => MsgView { kind: Kind::Heartbeat, body: Body::Heartbeat(m@) },
            Msg::Challenge(m) => MsgView { kind: Kind::Challenge, body: Body::Challenge(m@) },
            Msg::AccountBalancesAndMargins(m) => MsgView {
                kind: Kind::AccountBalancesAndMargins,
                body: Body::Payload(m@),
            },
            Msg::AccountLog(m) => MsgView { kind: Kind::AccountLog, body: Body::Payload(m@) },
            Msg::DepositsWithdrawals(m) => MsgView {
                kind: Kind::DepositsWithdrawals,
                body: Body::Payload(m@),
            },
            Msg::Fills(m) => MsgView { kind: Kind::Fills, body: Body::Payload(m@) },
            Msg::OpenPositions(m) => MsgView { kind: Kind::OpenPositions, body: Body::Payload(m@) },
            Msg::OpenOrders(m) => MsgView { kind: Kind::OpenOrders, body: Body::Payload(m@) },
            Msg::OpenOrdersSnapshot(m) => MsgView {
                kind: Kind::OpenOrdersSnapshot,
                body: Body::Payload(m@),
            },
            Msg::Notifications(m) => MsgView {
                kind: Kind::Notifications,
                body: Body::Notifications(m@),
            },
        }
    }
}

impl Msg {
    /// The shape of the message.
    pub fn kind(&self) -> (k: Kind)
        ensures
            k == self@.kind,
    {
        match self {
            Msg::Version(_) => Kind::Version,
            Msg::Subscribed(_) => Kind::Subscribed,
            Msg::Error(_) => Kind::Error,
            Msg::Trade(_) => Kind::Trade,
            Msg::TradeSnapshot(_) => Kind::TradeSnapshot,
            Msg::Book(_) => Kind::Book,
            Msg::BookSnapshot(_) => Kind::BookSnapshot,
            Msg::Ticker(_) => Kind::Ticker,
            Msg::TickerLite(_) => Kind::TickerLite,
            Msg::Heartbeat(_) => Kind::Heartbeat,
            Msg::Challenge(_) => Kind::Challenge,
            Msg::AccountBalancesAndMargins(_) => Kind::AccountBalancesAndMargins,
            Msg::AccountLog(_) => Kind::AccountLog,
            Msg::DepositsWithdrawals(_) => Kind::DepositsWithdrawals,
            Msg::Fills(_) => Kind::Fills,
            Msg::OpenPositions(_) => Kind::OpenPositions,
            Msg::OpenOrders(_) => Kind::OpenOrders,
            Msg::OpenOrdersSnapshot(_) => Kind::OpenOrdersSnapshot,
            Msg::Notifications(_) => Kind::Notifications,
        }
    }

    /// Wraps a payload in the variant of its shape; `None` for a shape
    /// whose fields are held as values.
    pub fn from_payload(kind: Kind, payload: Payload) -> (r: Option<Msg>)
        ensures
            carries_payload(kind) ==> r is Some && r->Some_0@ == (MsgView {
                kind,
                body: Body::Payload(payload@),
            }),
            !carries_payload(kind) ==> r is None,
    {
        match kind {
            Kind::Trade => Some(Msg::Trade(payload)),
            Kind::TradeSnapshot => Some(Msg::TradeSnapshot(payload)),
            Kind::Book => Some(Msg::Book(payload)),
            Kind::BookSnapshot => Some(Msg::BookSnapshot(payload)),
            Kind::Ticker => Some(Msg::Ticker(payload)),
            Kind::TickerLite => Some(Msg::TickerLite(payload)),
            Kind::AccountBalancesAndMargins => Some(Msg::AccountBalancesAndMargins(payload)),
            Kind::AccountLog => Some(Msg::AccountLog(payload)),
            Kind::DepositsWithdrawals => Some(Msg::DepositsWithdrawals(payload)),
            Kind::Fills => Some(Msg::Fills(payload)),
            Kind::OpenPositions => Some(Msg::OpenPositions(payload)),
            Kind::OpenOrders => Some(Msg::OpenOrders(payload)),
            Kind::OpenOrdersSnapshot => Some(Msg::OpenOrdersSnapshot(payload)),
            _ => None,
        }
    }
}

/// Whether messages of this shape carry the text of their frame.
pub open spec fn carries_payload(kind: Kind) -> bool {
    !(kind is Version || kind is Subscribed || kind is Error || kind is Heartbeat
        || kind is Challenge || kind is Notifications)
}

} // verus!
