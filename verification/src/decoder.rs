//! The inbound frame decoder.
//!
//! The wire protocol tags few of its messages, so a frame is classified by
//! what it holds. The rules are applied top down and the first match wins:
//!
//! 1. an `event` member that is one of `info`, `subscribed`, `error` or
//!    `challenge` decides alone;
//! 2. otherwise the `feed` member is looked up in the table of known feeds,
//!    and a companion member tells a snapshot from a single update;
//! 3. otherwise the frame is unrecognized, which is no error.
//!
//! A frame that matches a rule but lacks a member that its shape needs is
//! unrecognized too. A text that is no JSON document is malformed.
//!
//! The server answers a challenge request with an event and a message, and
//! may leave the feed out. With a feed the frame is a [`Challenge`]; without
//! one it is an [`Error`] whose event is `challenge`. The authenticator takes
//! either as its answer.

use crate::json::{
    as_array, as_str, get_string, get_u64, has, has_member, json_items, json_members, json_parsed,
    json_string, member, parse, string_member, u64_member,
};
use crate::models::{
    notification_views, opt_texts, texts, Body, Challenge, ChallengeView, Error, ErrorView, Header,
    HeaderView, Heartbeat, HeartbeatView, Kind, Msg, MsgView, Notification, NotificationView,
    Notifications, NotificationsView, Payload, PayloadView, Subscribed, SubscribedView, Version,
    VersionView,
};
use crate::text::str_eq;
use vstd::prelude::*;

verus! {

/// What became of one text frame.
#[derive(Debug, Clone, PartialEq, Eq)]
pub enum Decoded {
    /// The frame is a message of a known shape.
    Message(Msg),
    /// The frame is JSON of no known shape; it is dropped.
    Unrecognized,
    /// The frame is not JSON; it is dropped.
    Malformed,
}

/// Whether an `event` member decides the shape of a frame.
pub open spec fn is_known_event(e: Seq<char>) -> bool {
    e == "info"@ || e == "subscribed"@ || e == "error"@ || e == "challenge"@
}

/// Whether a shape is one that an `event` member selects.
pub open spec fn is_event_kind(k: Kind) -> bool {
    k is Version || k is Subscribed || k is Error || k is Challenge
}

/// The texts of an array whose items are all strings.
pub open spec fn string_list(v: serde_json::Value) -> Option<Seq<Seq<char>>> {
    match json_items(v) {
        Some(items) => if forall|i: int| 0 <= i < items.len() ==> json_string(#[trigger] items[i]) is Some {
            Some(Seq::new(items.len(), |i: int| json_string(items[i])->Some_0))
        } else {
            None
        },
        None => None,
    }
}

/// The product list of a frame: `Some(None)` where it has none, `None`
/// where the member is not a list of strings.
pub open spec fn product_ids_of(v: serde_json::Value) -> Option<Option<Seq<Seq<char>>>> {
    if has_member(v, "product_ids"@) {
        match string_list(json_members(v)["product_ids"@]) {
            Some(list) => Some(Some(list)),
            None => None,
        }
    } else {
        Some(None)
    }
}

/// The header of a frame: its feed and product list.
pub open spec fn header_of(v: serde_json::Value) -> Option<HeaderView> {
    match (string_member(v, "feed"@), product_ids_of(v)) {
        (Some(feed), Some(product_ids)) => Some(HeaderView { feed, product_ids }),
        _ => None,
    }
}

/// One notification, where the item has all its members.
pub open spec fn notification_of(item: serde_json::Value) -> Option<NotificationView> {
    match (
        u64_member(item, "id"@),
        string_member(item, "type"@),
        string_member(item, "priority"@),
        string_member(item, "note"@),
        u64_member(item, "effective_time"@),
    ) {
        (Some(id), Some(ty), Some(priority), Some(note), Some(effective_time)) => Some(
            NotificationView { id, ty, priority, note, effective_time },
        ),
        _ => None,
    }
}

/// The notifications of an array whose items are all notifications.
pub open spec fn notification_list(v: serde_json::Value) -> Option<Seq<NotificationView>> {
    match json_items(v) {
        Some(items) => if forall|i: int| 0 <= i < items.len() ==> notification_of(#[trigger] items[i]) is Some {
            Some(Seq::new(items.len(), |i: int| notification_of(items[i])->Some_0))
        } else {
            None
        },
        None => None,
    }
}

/// The notifications of a frame.
pub open spec fn notifications_of(v: serde_json::Value) -> Option<Seq<NotificationView>> {
    if has_member(v, "notifications"@) {
        notification_list(json_members(v)["notifications"@])
    } else {
        None
    }
}

/// Rule 1: the message that a known event selects.
pub open spec fn by_event(v: serde_json::Value, e: Seq<char>) -> Option<MsgView> {
    if e == "info"@ {
        match u64_member(v, "version"@) {
            Some(version) => Some(
                MsgView { kind: Kind::Version, body: Body::Version(VersionView { event: e, version }) },
            ),
            None => None,
        }
    } else if e == "subscribed"@ {
        match header_of(v) {
            Some(header) => Some(
                MsgView {
                    kind: Kind::Subscribed,
                    body: Body::Subscribed(SubscribedView { event: e, header }),
                },
            ),
            None => None,
        }
    } else if e == "error"@ {
        match string_member(v, "message"@) {
            Some(message) => Some(
                MsgView { kind: Kind::Error, body: Body::Error(ErrorView { event: e, message }) },
            ),
            None => None,
        }
    } else {
        match (string_member(v, "message"@), string_member(v, "feed"@)) {
            (Some(message), Some(feed)) => Some(
                MsgView {
                    kind: Kind::Challenge,
                    body: Body::Challenge(ChallengeView { feed, event: e, message }),
                },
            ),
            (Some(message), None) => Some(
                MsgView { kind: Kind::Error, body: Body::Error(ErrorView { event: e, message }) },
            ),
            _ => None,
        }
    }
}

/// The table of known feeds, with the companion members that tell a
/// snapshot from a single update.
pub open spec fn feed_kind(v: serde_json::Value, feed: Seq<char>) -> Option<Kind> {
    if feed == "ticker"@ {
        Some(Kind::Ticker)
    } else if feed == "ticker_lite"@ {
        Some(Kind::TickerLite)
    } else if feed == "trade"@ {
        Some(if has_member(v, "trades"@) { Kind::TradeSnapshot } else { Kind::Trade })
    } else if feed == "trade_snapshot"@ {
        Some(Kind::TradeSnapshot)
    } else if feed == "book"@ {
        Some(if has_member(v, "bids"@) { Kind::BookSnapshot } else { Kind::Book })
    } else if feed == "book_snapshot"@ {
        Some(Kind::BookSnapshot)
    } else if feed == "heartbeat"@ {
        Some(Kind::Heartbeat)
    } else if feed == "account_balances_and_margins"@ {
        Some(Kind::AccountBalancesAndMargins)
    } else if feed == "account_log"@ {
        Some(Kind::AccountLog)
    } else if feed == "deposits_withdrawals"@ {
        Some(Kind::DepositsWithdrawals)
    } else if feed == "fills"@ {
        Some(Kind::Fills)
    } else if feed == "open_positions"@ {
        Some(Kind::OpenPositions)
    } else if feed == "open_orders"@ {
        Some(if has_member(v, "orders"@) { Kind::OpenOrdersSnapshot } else { Kind::OpenOrders })
    } else if feed == "open_orders_snapshot"@ {
        Some(Kind::OpenOrdersSnapshot)
    } else if feed == "notifications_auth"@ {
        Some(Kind::Notifications)
    } else {
        None
    }
}

/// Rule 2: the message that the feed selects. `text` is the frame.
pub open spec fn by_feed(v: serde_json::Value, feed: Seq<char>, text: Seq<char>) -> Option<
    MsgView,
> {
    match feed_kind(v, feed) {
        Some(Kind::Heartbeat) => match (header_of(v), u64_member(v, "time"@)) {
            (Some(header), Some(time)) => Some(
                MsgView { kind: Kind::Heartbeat, body: Body::Heartbeat(HeartbeatView { header, time }) },
            ),
            _ => None,
        },
        Some(Kind::Notifications) => match notifications_of(v) {
            Some(notifications) => Some(
                MsgView {
                    kind: Kind::Notifications,
                    body: Body::Notifications(NotificationsView { feed, notifications }),
                },
            ),
            None => None,
        },
        Some(kind) => Some(MsgView { kind, body: Body::Payload(PayloadView { feed, text }) }),
        None => None,
    }
}

/// The message that a parsed frame is, by the rules in their order; `None`
/// where no rule matches.
pub open spec fn decode_value(v: serde_json::Value, text: Seq<char>) -> Option<MsgView> {
    match string_member(v, "event"@) {
        Some(e) if is_known_event(e) => by_event(v, e),
        _ => match string_member(v, "feed"@) {
            Some(feed) => by_feed(v, feed, text),
            None => None,
        },
    }
}

/// What a text frame decodes to.
pub open spec fn decode_text(text: Seq<char>) -> Option<Option<MsgView>> {
    match json_parsed(text) {
        Some(v) => Some(decode_value(v, text)),
        None => None,
    }
}

/// Whether `r` is the outcome that the rules give for a frame.
pub open spec fn is_decoding(outcome: Option<Option<MsgView>>, r: Decoded) -> bool {
    match outcome {
        None => r is Malformed,
        Some(None) => r is Unrecognized,
        Some(Some(m)) => r is Message && r->Message_0@ == m,
    }
}

/// Reads an array of strings.
fn read_strings(v: &serde_json::Value) -> (r: Option<Vec<String>>)
    ensures
        opt_texts(r) == string_list(*v),
{
    match as_array(v) {
        None => None,
        Some(items) => {
            let mut out: Vec<String> = Vec::new();
            let mut i: usize = 0;
            while i < items.len()
                invariant
                    i <= items.len(),
                    out.len() == i,
                    json_items(*v) == Some(items@),
                    forall|j: int| 0 <= j < i ==> json_string(#[trigger] items@[j]) == Some(out@[j]@),
                decreases items.len() - i,
            {
                match as_str(&items[i]) {
                    Some(s) => out.push(s.to_owned()),
                    None => {
                        return None;
                    },
                }
                i += 1;
            }
            proof {
                assert(texts(out@) =~= Seq::new(
                    items@.len(),
                    |i: int| json_string(items@[i])->Some_0,
                ));
            }
            Some(out)
        },
    }
}

/// Reads the header of a frame.
fn read_header(v: &serde_json::Value) -> (r: Option<Header>)
    ensures
        match r {
            Some(h) => header_of(*v) == Some(h@),
            None => header_of(*v).is_none(),
        },
{
    let feed = match get_string(v, "feed") {
        Some(feed) => feed,
        None => {
            return None;
        },
    };
    let product_ids = match member(v, "product_ids") {
        Some(list) => match read_strings(list) {
            Some(ids) => Some(ids),
            None => {
                return None;
            },
        },
        None => None,
    };
    Some(Header { feed, product_ids })
}

/// Reads one notification.
fn read_notification(item: &serde_json::Value) -> (r: Option<Notification>)
    ensures
        match r {
            Some(n) => notification_of(*item) == Some(n@),
            None => notification_of(*item).is_none(),
        },
{
    let id = get_u64(item, "id");
    let ty = get_string(item, "type");
    let priority = get_string(item, "priority");
    let note = get_string(item, "note");
    let effective_time = get_u64(item, "effective_time");
    match (id, ty, priority, note, effective_time) {
        (Some(id), Some(ty), Some(priority), Some(note), Some(effective_time)) => Some(
            Notification { id, ty, priority, note, effective_time },
        ),
        _ => None,
    }
}

/// Reads the notifications of a frame.
fn read_notifications(v: &serde_json::Value) -> (r: Option<Vec<Notification>>)
    ensures
        match r {
            Some(list) => notifications_of(*v) == Some(notification_views(list@)),
            None => notifications_of(*v).is_none(),
        },
{
    let items = match member(v, "notifications") {
        Some(list) => match as_array(list) {
            Some(items) => items,
            None => {
                return None;
            },
        },
        None => {
            return None;
        },
    };
    let mut out: Vec<Notification> = Vec::new();
    let mut i: usize = 0;
    while i < items.len()
        invariant
            i <= items.len(),
            out.len() == i,
            has_member(*v, "notifications"@),
            json_items(json_members(*v)["notifications"@]) == Some(items@),
            forall|j: int| 0 <= j < i ==> notification_of(#[trigger] items@[j]) == Some(out@[j]@),
        decreases items.len() - i,
    {
        match read_notification(&items[i]) {
            Some(n) => out.push(n),
            None => {
                return None;
            },
        }
        i += 1;
    }
    proof {
        assert(notification_views(out@) =~= Seq::new(
            items@.len(),
            |i: int| notification_of(items@[i])->Some_0,
        ));
    }
    Some(out)
}

/// Tells whether an `event` member decides the shape of a frame.
pub fn known_event(e: &str) -> (r: bool)
    ensures
        r == is_known_event(e@),
{
    str_eq(e, "info") || str_eq(e, "subscribed") || str_eq(e, "error") || str_eq(e, "challenge")
}

/// Applies rule 1 to a frame whose event is known.
fn decode_event(v: &serde_json::Value, event: String) -> (r: Option<Msg>)
    requires
        is_known_event(event@),
    ensures
        match r {
            Some(m) => by_event(*v, event@) == Some(m@),
            None => by_event(*v, event@).is_none(),
        },
{
    if str_eq(event.as_str(), "info") {
        match get_u64(v, "version") {
            Some(version) => Some(Msg::Version(Version { event, version })),
            None => None,
        }
    } else if str_eq(event.as_str(), "subscribed") {
        match read_header(v) {
            Some(header) => Some(Msg::Subscribed(Subscribed { event, header })),
            None => None,
        }
    } else if str_eq(event.as_str(), "error") {
        match get_string(v, "message") {
            Some(message) => Some(Msg::Error(Error { event, message })),
            None => None,
        }
    } else {
        match (get_string(v, "message"), get_string(v, "feed")) {
            (Some(message), Some(feed)) => Some(Msg::Challenge(Challenge { feed, event, message })),
            (Some(message), None) => Some(Msg::Error(Error { event, message })),
            _ => None,
        }
    }
}

/// Looks a feed up in the table of known feeds.
pub fn classify_feed(v: &serde_json::Value, feed: &str) -> (r: Option<Kind>)
    ensures
        r == feed_kind(*v, feed@),
{
    if str_eq(feed, "ticker") {
        Some(Kind::Ticker)
    } else if str_eq(feed, "ticker_lite") {
        Some(Kind::TickerLite)
    } else if str_eq(feed, "trade") {
        Some(if has(v, "trades") { Kind::TradeSnapshot } else { Kind::Trade })
    } else if str_eq(feed, "trade_snapshot") {
        Some(Kind::TradeSnapshot)
    } else if str_eq(feed, "book") {
        Some(if has(v, "bids") { Kind::BookSnapshot } else { Kind::Book })
    } else if str_eq(feed, "book_snapshot") {
        Some(Kind::BookSnapshot)
    } else if str_eq(feed, "heartbeat") {
        Some(Kind::Heartbeat)
    } else if str_eq(feed, "account_balances_and_margins") {
        Some(Kind::AccountBalancesAndMargins)
    } else if str_eq(feed, "account_log") {
        Some(Kind::AccountLog)
    } else if str_eq(feed, "deposits_withdrawals") {
        Some(Kind::DepositsWithdrawals)
    } else if str_eq(feed, "fills") {
        Some(Kind::Fills)
    } else if str_eq(feed, "open_positions") {
        Some(Kind::OpenPositions)
    } else if str_eq(feed, "open_orders") {
        Some(if has(v, "orders") { Kind::OpenOrdersSnapshot } else { Kind::OpenOrders })
    } else if str_eq(feed, "open_orders_snapshot") {
        Some(Kind::OpenOrdersSnapshot)
    } else if str_eq(feed, "notifications_auth") {
        Some(Kind::Notifications)
    } else {
        None
    }
}

/// Applies rule 2 to a frame with a feed.
fn decode_feed(v: &serde_json::Value, feed: String, text: &str) -> (r: Option<Msg>)
    ensures
        match r {
            Some(m) => by_feed(*v, feed@, text@) == Some(m@),
            None => by_feed(*v, feed@, text@).is_none(),
        },
{
    match classify_feed(v, feed.as_str()) {
        None => None,
        Some(Kind::Heartbeat) => match (read_header(v), get_u64(v, "time")) {
            (Some(header), Some(time)) => Some(Msg::Heartbeat(Heartbeat { header, time })),
            _ => None,
        },
        Some(Kind::Notifications) => match read_notifications(v) {
            Some(notifications) => Some(Msg::Notifications(Notifications { feed, notifications })),
            None => None,
        },
        Some(kind) => Msg::from_payload(kind, Payload { feed, text: text.to_owned() }),
    }
}

/// Classifies a parsed frame; `text` is the frame it was parsed from.
///
/// Returns the message that the first matching rule gives, and `None`
/// where no rule matches.
pub fn decode_parsed(v: &serde_json::Value, text: &str) -> (r: Option<Msg>)
    ensures
        match r {
            Some(m) => decode_value(*v, text@) == Some(m@),
            None => decode_value(*v, text@).is_none(),
        },
{
    match get_string(v, "event") {
        Some(event) => {
            if known_event(event.as_str()) {
                return decode_event(v, event);
            }
        },
        None => {},
    }
    match get_string(v, "feed") {
        Some(feed) => decode_feed(v, feed, text),
        None => None,
    }
}

/// Decodes one text frame.
///
/// The result is `Malformed` exactly where the text is no JSON document,
/// `Unrecognized` exactly where it is one that no rule matches, and otherwise
/// the message that the first matching rule gives.
pub fn decode(raw_text: &str) -> (r: Decoded)
    ensures
        is_decoding(decode_text(raw_text@), r),
{
    match parse(raw_text) {
        None => Decoded::Malformed,
        Some(v) => match decode_parsed(&v, raw_text) {
            Some(m) => Decoded::Message(m),
            None => Decoded::Unrecognized,
        },
    }
}

/// A known event decides alone: whatever feed the frame names, the message
/// is the one that the event selects, and its shape is none of the feed
/// shapes.
pub proof fn event_takes_precedence(v: serde_json::Value, text: Seq<char>, e: Seq<char>)
    requires
        string_member(v, "event"@) == Some(e),
        is_known_event(e),
    ensures
        decode_value(v, text) == by_event(v, e),
        decode_value(v, text) matches Some(m) ==> is_event_kind(m.kind),
{
}

/// A frame that is JSON decodes to a message or is unrecognized; it is
/// never malformed, and a malformed frame is never anything else.
pub proof fn valid_json_is_never_malformed(text: Seq<char>, r: Decoded)
    requires
        is_decoding(decode_text(text), r),
    ensures
        r is Malformed <==> json_parsed(text) is None,
        r is Unrecognized <==> (json_parsed(text) matches Some(v) && decode_value(v, text) is None),
{
}

} // verus!
