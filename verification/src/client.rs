//! The connection handle's own state: the endpoint, the authenticator, and
//! the messages that arrived while a challenge was awaited.
//!
//! The handle does no I/O. A method that asks for something to be sent
//! returns the text to put on the outbound queue. The handshake that opens
//! the private feeds is driven by two methods:
//! [`WebSocket::ensure_challenge_signed`] says whether a challenge has to be
//! requested, and [`WebSocket::on_message`] is shown every inbound message
//! until one answers it. While an answer is awaited, the owner shows each
//! message to `on_message` before anything else reads it, so that the answer
//! cannot be taken by another reader. A message that is not the answer is
//! kept, and [`WebSocket::next_msg`] hands the kept messages out in the order
//! of their arrival: the wait drops nothing.

use crate::auth::{
    ensure_spec, offer_spec, opt_string, private_text, takes, valid, AuthStep, AuthView,
    Authenticator,
};
use crate::models::{Msg, MsgView};
use crate::request::{slice_texts, subscribe_text, SubscribeMsg, SubscribeView};
use crate::signer::SignError;
use std::collections::VecDeque;
use vstd::prelude::*;

verus! {

/// What a connection handle holds.
pub struct ClientView {
    pub url: Seq<char>,
    pub auth: AuthView,
    /// The messages that were shown to the handshake and kept, oldest
    /// first.
    pub backlog: Seq<MsgView>,
}

/// The views of a queue of messages.
pub open spec fn msg_views(msgs: Seq<Msg>) -> Seq<MsgView> {
    Seq::new(msgs.len(), |i: int| msgs[i]@)
}

/// The view of an optional message.
pub open spec fn opt_msg(v: Option<Msg>) -> Option<MsgView> {
    match v {
        Some(m) => Some(m@),
        None => None,
    }
}

/// The character sequences of an optional product list.
pub open spec fn opt_slice_texts(products: Option<&[&str]>) -> Option<Seq<Seq<char>>> {
    match products {
        Some(list) => Some(slice_texts(list@)),
        None => None,
    }
}

/// The request for a public feed.
pub open spec fn public_request(
    event: Seq<char>,
    feed: Seq<char>,
    products: Option<Seq<Seq<char>>>,
) -> SubscribeView {
    SubscribeView {
        event,
        feed,
        product_ids: products,
        api_key: None,
        original_challenge: None,
        signed_challenge: None,
    }
}

/// The handle after `on_message`, and what the call returns. The message
/// that the authenticator takes as its answer is used up; every other
/// message joins the kept ones.
pub open spec fn on_message_spec(c: ClientView, m: MsgView) -> (
    ClientView,
    Result<bool, SignError>,
) {
    if takes(c.auth, m) {
        (ClientView { auth: offer_spec(c.auth, m).0, ..c }, offer_spec(c.auth, m).1)
    } else {
        (ClientView { backlog: c.backlog.push(m), ..c }, Ok(false))
    }
}

/// The handle after `next_msg`, and the message that the call returns: the
/// oldest of the kept ones, where there is one.
pub open spec fn next_msg_spec(c: ClientView) -> (ClientView, Option<MsgView>) {
    if c.backlog.len() > 0 {
        (ClientView { backlog: c.backlog.drop_first(), ..c }, Some(c.backlog.first()))
    } else {
        (c, None)
    }
}

/// The handle of one connection to the feed.
pub struct WebSocket {
    url: String,
    auth: Authenticator,
    backlog: VecDeque<Msg>,
}

impl View for WebSocket {
    type V = ClientView;

    closed spec fn view(&self) -> ClientView {
        ClientView { url: self.url@, auth: self.auth@, backlog: msg_views(self.backlog@) }
    }
}

impl WebSocket {
    /// A handle for the endpoint `ws_url`. There are credentials where both
    /// keys are given; one key alone counts as none. No challenge is asked
    /// for before the first private request.
    pub fn new(ws_url: &str, public_key: Option<&str>, private_key: Option<&str>) -> (r: WebSocket)
        ensures
            valid(r@.auth),
            r@.url == ws_url@,
            r@.auth.handshake is Idle,
            r@.auth.keys == match (public_key, private_key) {
                (Some(public), Some(private)) => Some((public@, private@)),
                _ => None,
            },
            r@.backlog.len() == 0,
    {
        WebSocket {
            url: ws_url.to_owned(),
            auth: Authenticator::new(public_key, private_key),
            backlog: VecDeque::new(),
        }
    }

    /// The endpoint of the connection.
    pub fn url(&self) -> (r: &str)
        ensures
            r@ == self@.url,
    {
        self.url.as_str()
    }

    /// Whether the handle has credentials.
    pub fn has_credentials(&self) -> (r: bool)
        ensures
            r == self@.auth.keys is Some,
    {
        self.auth.has_credentials()
    }

    /// The cached challenge, once it is signed.
    pub fn challenge(&self) -> (r: Option<&str>)
        ensures
            valid(self@.auth),
            match r {
                Some(c) => self@.auth.handshake is Signed && self@.auth.handshake->challenge == c@,
                None => !(self@.auth.handshake is Signed),
            },
    {
        self.auth.challenge()
    }

    /// The cached signature of the challenge, once it is signed.
    pub fn signed_challenge(&self) -> (r: Option<&str>)
        ensures
            valid(self@.auth),
            match r {
                Some(s) => self@.auth.handshake is Signed && self@.auth.handshake->signed_challenge
                    == s@,
                None => !(self@.auth.handshake is Signed),
            },
    {
        self.auth.signed_challenge()
    }

    /// How many messages are kept for `next_msg`.
    pub fn kept(&self) -> (r: usize)
        ensures
            r == self@.backlog.len(),
    {
        self.backlog.len()
    }

    /// The request that subscribes to a public feed, for all its products
    /// or for the given ones.
    pub fn subscribe(&self, feed: &str, products: Option<&[&str]>) -> (r: String)
        ensures
            r@ == subscribe_text(public_request("subscribe"@, feed@, opt_slice_texts(products))),
    {
        let msg = SubscribeMsg {
            event: "subscribe",
            feed,
            product_ids: products,
            api_key: None,
            original_challenge: None,
            signed_challenge: None,
        };
        msg.to_text()
    }

    /// The request that unsubscribes from a public feed.
    pub fn unsubscribe(&self, feed: &str, products: Option<&[&str]>) -> (r: String)
        ensures
            r@ == subscribe_text(public_request("unsubscribe"@, feed@, opt_slice_texts(products))),
    {
        let msg = SubscribeMsg {
            event: "unsubscribe",
            feed,
            product_ids: products,
            api_key: None,
            original_challenge: None,
            signed_challenge: None,
        };
        msg.to_text()
    }

    /// Says what is needed before a private request can be made.
    ///
    /// Without credentials nothing can be done. With a signed challenge
    /// nothing is left to do, and nothing is asked for again. Otherwise a
    /// challenge is requested, once: while its answer is awaited no second
    /// request is made.
    pub fn ensure_challenge_signed(&mut self) -> (r: AuthStep)
        ensures
            final(self)@ == (ClientView { auth: ensure_spec(old(self)@.auth).0, ..old(self)@ }),
            r@ == ensure_spec(old(self)@.auth).1,
            valid(old(self)@.auth),
            valid(final(self)@.auth),
    {
        self.auth.ensure_challenge_signed()
    }

    /// Shows an inbound message to the handshake.
    ///
    /// While an answer is awaited, a message that carries a challenge is
    /// signed with the secret: on success the challenge and its signature are
    /// cached and the result is `Ok(true)`; where the secret is not valid
    /// base64 the result is the error and the handshake is back at its start.
    /// Every other message, and every message while no answer is awaited,
    /// is kept for `next_msg` and gives `Ok(false)`.
    pub fn on_message(&mut self, msg: Msg) -> (r: Result<bool, SignError>)
        ensures
            (final(self)@, r) == on_message_spec(old(self)@, msg@),
            valid(old(self)@.auth),
            valid(final(self)@.auth),
    {
        match self.auth.offer(&msg) {
            Ok(true) => Ok(true),
            Ok(false) => {
                self.backlog.push_back(msg);
                proof {
                    assert(msg_views(self.backlog@) =~= old(self)@.backlog.push(msg@));
                }
                Ok(false)
            },
            Err(e) => Err(e),
        }
    }

    /// The oldest of the messages that the handshake kept, or `None` where
    /// it holds none: the owner then reads the inbound queue.
    pub fn next_msg(&mut self) -> (r: Option<Msg>)
        ensures
            (final(self)@, opt_msg(r)) == next_msg_spec(old(self)@),
    {
        let r = self.backlog.pop_front();
        proof {
            if r is Some {
                assert(msg_views(self.backlog@) =~= old(self)@.backlog.drop_first());
            } else {
                assert(msg_views(self.backlog@) =~= old(self)@.backlog);
            }
        }
        r
    }

    /// The request that subscribes to a private feed: `Some` exactly where
    /// the challenge is signed.
    pub fn subscribe_private(&self, feed: &str) -> (r: Option<String>)
        ensures
            opt_string(r) == private_text(self@.auth, "subscribe"@, feed@),
    {
        self.auth.private_request("subscribe", feed)
    }

    /// The request that unsubscribes from a private feed: `Some` exactly
    /// where the challenge is signed.
    pub fn unsubscribe_private(&self, feed: &str) -> (r: Option<String>)
        ensures
            opt_string(r) == private_text(self@.auth, "unsubscribe"@, feed@),
    {
        self.auth.private_request("unsubscribe", feed)
    }
}

/// The handle after a run of messages was shown to it, one after the other.
pub open spec fn shown(c: ClientView, msgs: Seq<MsgView>) -> ClientView
    decreases msgs.len(),
{
    if msgs.len() == 0 {
        c
    } else {
        on_message_spec(shown(c, msgs.drop_last()), msgs.last()).0
    }
}

/// The messages that `next_msg` hands out in `n` calls, one after the other.
pub open spec fn handed_out(c: ClientView, n: nat) -> Seq<MsgView>
    decreases n,
{
    if n == 0 || c.backlog.len() == 0 {
        Seq::empty()
    } else {
        seq![c.backlog.first()] + handed_out(next_msg_spec(c).0, (n - 1) as nat)
    }
}

/// The wait for the answer drops nothing: the messages that arrive and are
/// not taken as the answer are all kept, behind those kept before and in the
/// order of their arrival, and the handshake stands where it stood.
pub proof fn waiting_keeps_every_message(c: ClientView, msgs: Seq<MsgView>)
    requires
        forall|i: int| 0 <= i < msgs.len() ==> !takes(c.auth, #[trigger] msgs[i]),
    ensures
        shown(c, msgs) == (ClientView { backlog: c.backlog + msgs, ..c }),
    decreases msgs.len(),
{
    if msgs.len() > 0 {
        waiting_keeps_every_message(c, msgs.drop_last());
        assert(c.backlog + msgs =~= (c.backlog + msgs.drop_last()).push(msgs.last()));
    } else {
        assert(c.backlog + msgs =~= c.backlog);
    }
}

/// The answer is taken out of the stream and nothing else: with the answer
/// between them, the messages before and after it are kept in their order,
/// and the challenge is signed.
pub proof fn answer_is_taken_alone(
    c: ClientView,
    before: Seq<MsgView>,
    answer: MsgView,
    after: Seq<MsgView>,
)
    requires
        valid(c.auth),
        forall|i: int| 0 <= i < before.len() ==> !takes(c.auth, #[trigger] before[i]),
        takes(c.auth, answer),
        offer_spec(c.auth, answer).1 is Ok,
    ensures
        shown(c, before.push(answer) + after) == (ClientView {
            auth: offer_spec(c.auth, answer).0,
            backlog: c.backlog + before + after,
            ..c
        }),
        offer_spec(c.auth, answer).0.handshake is Signed,
    decreases after.len(),
{
    let all = before.push(answer) + after;
    if after.len() == 0 {
        assert(all =~= before.push(answer));
        assert(all.drop_last() =~= before);
        waiting_keeps_every_message(c, before);
        assert(c.backlog + before + after =~= c.backlog + before);
    } else {
        answer_is_taken_alone(c, before, answer, after.drop_last());
        assert(all.drop_last() =~= before.push(answer) + after.drop_last());
        assert(all.last() == after.last());
        assert(c.backlog + before + after =~= (c.backlog + before + after.drop_last()).push(
            after.last(),
        ));
    }
}

/// The kept messages come out oldest first: as many calls of `next_msg` as
/// there are kept messages hand out exactly those, in their order.
pub proof fn kept_messages_come_out_in_order(c: ClientView)
    ensures
        handed_out(c, c.backlog.len()) == c.backlog,
    decreases c.backlog.len(),
{
    if c.backlog.len() > 0 {
        let rest = next_msg_spec(c).0;
        kept_messages_come_out_in_order(rest);
        assert(seq![c.backlog.first()] + c.backlog.drop_first() =~= c.backlog);
    } else {
        assert(c.backlog =~= Seq::<MsgView>::empty());
    }
}

} // verus!
