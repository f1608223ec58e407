//! The challenge-response authenticator.
//!
//! A private feed is opened with a signed challenge. The authenticator holds
//! the credentials and the state of the one handshake that a connection
//! makes: nothing asked yet, an answer awaited, or the challenge signed and
//! cached. It does no I/O: it says when a challenge has to be requested, and
//! it is shown the inbound messages until one answers.

use crate::models::{Body, Msg, MsgView};
use crate::request::{challenge_text, subscribe_text, ChallengeMsg, SubscribeMsg, SubscribeView};
use crate::signer::{sign, signature, SignError};
use crate::text::str_eq;
use vstd::prelude::*;

verus! {

/// Where the challenge handshake stands.
enum Handshake {
    /// No challenge has been asked for.
    Idle,
    /// A challenge has been asked for and not yet answered.
    Awaiting,
    /// The challenge and its signature are cached.
    Signed { challenge: String, signed_challenge: String },
}

/// Where the challenge handshake stands, with the cached texts as character
/// sequences.
pub enum HandshakeView {
    Idle,
    Awaiting,
    Signed { challenge: Seq<char>, signed_challenge: Seq<char> },
}

/// What an authenticator holds.
pub struct AuthView {
    /// The API key and the API secret, both or neither.
    pub keys: Option<(Seq<char>, Seq<char>)>,
    pub handshake: HandshakeView,
}

/// The invariant of an authenticator: without credentials no handshake
/// begins, and a cached signature is the signature of the cached challenge
/// under the secret.
pub open spec fn valid(a: AuthView) -> bool {
    match a.handshake {
        HandshakeView::Idle => true,
        HandshakeView::Awaiting => a.keys is Some,
        HandshakeView::Signed { challenge, signed_challenge } => a.keys is Some && signature(
            a.keys->Some_0.1,
            challenge,
        ) == Some(signed_challenge),
    }
}

/// What `ensure_challenge_signed` found.
#[derive(Debug, Clone, PartialEq, Eq)]
pub enum AuthStep {
    /// The challenge is signed: private requests can be made.
    Signed,
    /// There are no credentials: private feeds are not available.
    NoCredentials,
    /// A challenge has to be asked for: send this request, then show the
    /// inbound messages to the handshake.
    Request(String),
    /// A challenge has been asked for already; its answer is awaited.
    Pending,
}

/// What `ensure_challenge_signed` found, with the request as a character
/// sequence.
pub enum AuthStepView {
    Signed,
    NoCredentials,
    Request(Seq<char>),
    Pending,
}

impl View for AuthStep {
    type V = AuthStepView;

    open spec fn view(&self) -> AuthStepView {
        match self {
            AuthStep::Signed => AuthStepView::Signed,
            AuthStep::NoCredentials => AuthStepView::NoCredentials,
            AuthStep::Request(t) => AuthStepView::Request(t@),
            AuthStep::Pending => AuthStepView::Pending,
        }
    }
}

/// The authenticator after `ensure_challenge_signed`, and what the call
/// returns.
pub open spec fn ensure_spec(a: AuthView) -> (AuthView, AuthStepView) {
    match a.keys {
        None => (a, AuthStepView::NoCredentials),
        Some(keys) => match a.handshake {
            HandshakeView::Signed { .. } => (a, AuthStepView::Signed),
            HandshakeView::Awaiting => (a, AuthStepView::Pending),
            HandshakeView::Idle => (
                AuthView { handshake: HandshakeView::Awaiting, ..a },
                AuthStepView::Request(challenge_text(keys.0)),
            ),
        },
    }
}

/// The challenge that a message carries, where it answers a challenge
/// request: a challenge message, or an event message whose event is
/// `challenge`.
pub open spec fn answer_of(m: MsgView) -> Option<Seq<char>> {
    match m.body {
        Body::Challenge(c) => Some(c.message),
        Body::Error(e) => if e.event == "challenge"@ {
            Some(e.message)
        } else {
            None
        },
        _ => None,
    }
}

/// Whether the authenticator takes a message as the answer it awaits.
pub open spec fn takes(a: AuthView, m: MsgView) -> bool {
    a.handshake is Awaiting && a.keys is Some && answer_of(m) is Some
}

/// The authenticator after `offer`, and what the call returns: whether the
/// message was the awaited answer, or why it could not be signed.
pub open spec fn offer_spec(a: AuthView, m: MsgView) -> (AuthView, Result<bool, SignError>) {
    if takes(a, m) {
        let challenge = answer_of(m)->Some_0;
        match signature(a.keys->Some_0.1, challenge) {
            Some(signed_challenge) => (
                AuthView { handshake: HandshakeView::Signed { challenge, signed_challenge }, ..a },
                Ok(true),
            ),
            None => (
                AuthView { handshake: HandshakeView::Idle, ..a },
                Err(SignError::InvalidSecretEncoding),
            ),
        }
    } else {
        (a, Ok(false))
    }
}

/// The request for a private feed, where the challenge is signed.
pub open spec fn private_request(a: AuthView, event: Seq<char>, feed: Seq<char>) -> Option<
    SubscribeView,
> {
    match (a.keys, a.handshake) {
        (Some(keys), HandshakeView::Signed { challenge, signed_challenge }) => Some(
            SubscribeView {
                event,
                feed,
                product_ids: None,
                api_key: Some(keys.0),
                original_challenge: Some(challenge),
                signed_challenge: Some(signed_challenge),
            },
        ),
        _ => None,
    }
}

/// The text of the request for a private feed, where the challenge is
/// signed.
pub open spec fn private_text(a: AuthView, event: Seq<char>, feed: Seq<char>) -> Option<
    Seq<char>,
> {
    match private_request(a, event, feed) {
        Some(request) => Some(subscribe_text(request)),
        None => None,
    }
}

/// The character sequence of an optional text.
pub open spec fn opt_string(v: Option<String>) -> Option<Seq<char>> {
    match v {
        Some(s) => Some(s@),
        None => None,
    }
}

/// Reads the challenge that a message carries, where it answers a
/// challenge request.
pub fn challenge_answer(msg: &Msg) -> (r: Option<&str>)
    ensures
        match r {
            Some(c) => answer_of(msg@) == Some(c@),
            None => answer_of(msg@).is_none(),
        },
{
    match msg {
        Msg::Challenge(c) => Some(c.message.as_str()),
        Msg::Error(e) => if str_eq(e.event.as_str(), "challenge") {
            Some(e.message.as_str())
        } else {
            None
        },
        _ => None,
    }
}

/// The credentials of a connection and the state of its handshake.
pub struct Authenticator {
    keys: Option<(String, String)>,
    handshake: Handshake,
}

impl View for Authenticator {
    type V = AuthView;

    closed spec fn view(&self) -> AuthView {
        AuthView {
            keys: match self.keys {
                Some((public, private)) => Some((public@, private@)),
                None => None,
            },
            handshake: match self.handshake {
                Handshake::Idle => HandshakeView::Idle,
                Handshake::Awaiting => HandshakeView::Awaiting,
                Handshake::Signed { challenge, signed_challenge } => HandshakeView::Signed {
                    challenge: challenge@,
                    signed_challenge: signed_challenge@,
                },
            },
        }
    }
}

impl Authenticator {
    #[verifier::type_invariant]
    closed spec fn inv(&self) -> bool {
        valid(self@)
    }

    /// An authenticator with the given credentials. There are credentials
    /// where both keys are given; one key alone counts as none. No challenge
    /// is asked for before the first private request.
    pub fn new(public_key: Option<&str>, private_key: Option<&str>) -> (r: Authenticator)
        ensures
            valid(r@),
            r@.handshake is Idle,
            r@.keys == match (public_key, private_key) {
                (Some(public), Some(private)) => Some((public@, private@)),
                _ => None,
            },
    {
        let keys = match (public_key, private_key) {
            (Some(public), Some(private)) => Some((public.to_owned(), private.to_owned())),
            _ => None,
        };
        Authenticator { keys, handshake: Handshake::Idle }
    }

    /// Whether there are credentials.
    pub fn has_credentials(&self) -> (r: bool)
        ensures
            r == self@.keys is Some,
    {
        self.keys.is_some()
    }

    /// The cached challenge, once it is signed.
    pub fn challenge(&self) -> (r: Option<&str>)
        ensures
            valid(self@),
            match r {
                Some(c) => self@.handshake is Signed && self@.handshake->challenge == c@,
                None => !(self@.handshake is Signed),
            },
    {
        proof {
            use_type_invariant(self);
        }
        match &self.handshake {
            Handshake::Signed { challenge, .. } => Some(challenge.as_str()),
            _ => None,
        }
    }

    /// The cached signature of the challenge, once it is signed.
    pub fn signed_challenge(&self) -> (r: Option<&str>)
        ensures
            valid(self@),
            match r {
                Some(s) => self@.handshake is Signed && self@.handshake->signed_challenge == s@,
                None => !(self@.handshake is Signed),
            },
    {
        proof {
            use_type_invariant(self);
        }
        match &self.handshake {
            Handshake::Signed { signed_challenge, .. } => Some(signed_challenge.as_str()),
            _ => None,
        }
    }

    /// Says what is needed before a private request can be made.
    ///
    /// Without credentials nothing can be done. With a signed challenge
    /// nothing is left to do, and nothing is asked for again. Otherwise a
    /// challenge is requested, once: while its answer is awaited no second
    /// request is made.
    pub fn ensure_challenge_signed(&mut self) -> (r: AuthStep)
        ensures
            (final(self)@, r@) == ensure_spec(old(self)@),
            valid(old(self)@),
            valid(final(self)@),
    {
        proof {
            use_type_invariant(&*self);
        }
        match &self.keys {
            None => AuthStep::NoCredentials,
            Some(keys) => match &self.handshake {
                Handshake::Signed { .. } => AuthStep::Signed,
                Handshake::Awaiting => AuthStep::Pending,
                Handshake::Idle => {
                    let request = ChallengeMsg { event: "challenge", api_key: keys.0.as_str() };
                    let text = request.to_text();
                    self.handshake = Handshake::Awaiting;
                    AuthStep::Request(text)
                },
            },
        }
    }

    /// Shows an inbound message to the handshake.
    ///
    /// While an answer is awaited, a message that carries a challenge is
    /// signed with the secret: on success the challenge and its signature are
    /// cached and the result is `Ok(true)`; where the secret is not valid
    /// base64 the result is the error and the handshake is back at its start.
    /// Every other message, and every message while no answer is awaited,
    /// changes nothing and gives `Ok(false)`.
    pub fn offer(&mut self, msg: &Msg) -> (r: Result<bool, SignError>)
        ensures
            (final(self)@, r) == offer_spec(old(self)@, msg@),
            valid(old(self)@),
            valid(final(self)@),
    {
        proof {
            use_type_invariant(&*self);
        }
        let awaiting = match &self.handshake {
            Handshake::Awaiting => true,
            _ => false,
        };
        if !awaiting {
            return Ok(false);
        }
        let challenge = match challenge_answer(msg) {
            Some(c) => c,
            None => {
                return Ok(false);
            },
        };
        let signed = match &self.keys {
            Some(keys) => sign(keys.1.as_str(), challenge),
            None => {
                return Ok(false);
            },
        };
        match signed {
            Ok(signed_challenge) => {
                self.handshake = Handshake::Signed {
                    challenge: challenge.to_owned(),
                    signed_challenge,
                };
                Ok(true)
            },
            Err(e) => {
                self.handshake = Handshake::Idle;
                Err(e)
            },
        }
    }

    /// The request for a private feed, with the credentials: `Some` exactly
    /// where the challenge is signed.
    pub fn private_request(&self, event: &str, feed: &str) -> (r: Option<String>)
        ensures
            opt_string(r) == private_text(self@, event@, feed@),
    {
        match (&self.keys, &self.handshake) {
            (Some(keys), Handshake::Signed { challenge, signed_challenge }) => {
                let msg = SubscribeMsg {
                    event,
                    feed,
                    product_ids: None,
                    api_key: Some(keys.0.as_str()),
                    original_challenge: Some(challenge.as_str()),
                    signed_challenge: Some(signed_challenge.as_str()),
                };
                Some(msg.to_text())
            },
            _ => None,
        }
    }
}

/// Asking twice asks once: right after `ensure_challenge_signed` a second
/// call changes nothing and requests nothing, and with a signed challenge
/// the call finds it signed and leaves the authenticator as it is.
pub proof fn ensure_is_idempotent(a: AuthView)
    requires
        valid(a),
    ensures
        valid(ensure_spec(a).0),
        ensure_spec(ensure_spec(a).0).0 == ensure_spec(a).0,
        !(ensure_spec(ensure_spec(a).0).1 is Request),
        a.handshake is Signed ==> ensure_spec(a) == (a, AuthStepView::Signed),
{
}

/// One handshake makes one request and one signature. With credentials and
/// no challenge yet, the first call requests a challenge; the answer is
/// signed and cached; after that every call finds the challenge signed, and
/// no message is signed again.
pub proof fn handshake_runs_once(a: AuthView, answer: MsgView, later: MsgView)
    requires
        valid(a),
        a.keys is Some,
        a.handshake is Idle,
        answer_of(answer) is Some,
        signature(a.keys->Some_0.1, answer_of(answer)->Some_0) is Some,
    ensures
        ensure_spec(a).1 == AuthStepView::Request(challenge_text(a.keys->Some_0.0)),
        offer_spec(ensure_spec(a).0, answer).1 == Ok::<bool, SignError>(true),
        ({
            let signed = offer_spec(ensure_spec(a).0, answer).0;
            &&& valid(signed)
            &&& signed.handshake == (HandshakeView::Signed {
                challenge: answer_of(answer)->Some_0,
                signed_challenge: signature(a.keys->Some_0.1, answer_of(answer)->Some_0)->Some_0,
            })
            &&& ensure_spec(signed) == (signed, AuthStepView::Signed)
            &&& offer_spec(signed, later) == (signed, Ok::<bool, SignError>(false))
        }),
{
}

/// A handshake never changes the credentials, and keeps the authenticator
/// valid.
pub proof fn handshake_keeps_credentials(a: AuthView, m: MsgView)
    requires
        valid(a),
    ensures
        valid(offer_spec(a, m).0),
        offer_spec(a, m).0.keys == a.keys,
        valid(ensure_spec(a).0),
        ensure_spec(a).0.keys == a.keys,
{
}

} // verus!
