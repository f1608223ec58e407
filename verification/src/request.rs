//! The outbound requests, as JSON texts.
//!
//! A request is a JSON object whose members stand in a fixed order. A member
//! without a value is left out of the object: it is never written as `null`.

use crate::json::{json_string_text, quote};
use crate::models::texts;
use vstd::prelude::*;
use vstd::string::*;

verus! {

/// The value of a member of a request.
pub enum MemberValue {
    Text(Seq<char>),
    List(Seq<Seq<char>>),
}

/// A member of a request.
pub struct Member {
    pub key: Seq<char>,
    pub value: MemberValue,
}

/// The parts, joined by commas.
pub open spec fn join(parts: Seq<Seq<char>>) -> Seq<char>
    decreases parts.len(),
{
    if parts.len() == 0 {
        Seq::empty()
    } else if parts.len() == 1 {
        parts[0]
    } else {
        join(parts.drop_last()) + seq![','] + parts.last()
    }
}

/// The JSON text of a list of strings.
pub open spec fn list_text(items: Seq<Seq<char>>) -> Seq<char> {
    seq!['['] + join(Seq::new(items.len(), |i: int| json_string_text(items[i]))) + seq![']']
}

/// The JSON text of a member: its key, a colon and its value.
pub open spec fn member_text(m: Member) -> Seq<char> {
    json_string_text(m.key) + seq![':'] + match m.value {
        MemberValue::Text(t) => json_string_text(t),
        MemberValue::List(items) => list_text(items),
    }
}

/// The JSON text of an object with the given members, in their order.
pub open spec fn object_text(members: Seq<Member>) -> Seq<char> {
    seq!['{'] + join(Seq::new(members.len(), |i: int| member_text(members[i]))) + seq!['}']
}

/// A text member, where there is a value for it.
pub open spec fn optional_member(key: Seq<char>, value: Option<Seq<char>>) -> Seq<Member> {
    match value {
        Some(t) => seq![Member { key, value: MemberValue::Text(t) }],
        None => Seq::empty(),
    }
}

/// A list member, where there is a list for it.
pub open spec fn optional_list(key: Seq<char>, value: Option<Seq<Seq<char>>>) -> Seq<Member> {
    match value {
        Some(items) => seq![Member { key, value: MemberValue::List(items) }],
        None => Seq::empty(),
    }
}

/// The character sequences of a list of string slices.
pub open spec fn slice_texts(items: Seq<&str>) -> Seq<Seq<char>> {
    Seq::new(items.len(), |i: int| items[i]@)
}

/// A request to subscribe to a feed or to unsubscribe from it.
#[derive(Debug, Clone, Copy)]
pub struct SubscribeMsg<'a> {
    pub event: &'a str,
    pub feed: &'a str,
    pub product_ids: Option<&'a [&'a str]>,
    pub api_key: Option<&'a str>,
    pub original_challenge: Option<&'a str>,
    pub signed_challenge: Option<&'a str>,
}

/// What a subscription request holds, as character sequences.
pub struct SubscribeView {
    pub event: Seq<char>,
    pub feed: Seq<char>,
    pub product_ids: Option<Seq<Seq<char>>>,
    pub api_key: Option<Seq<char>>,
    pub original_challenge: Option<Seq<char>>,
    pub signed_challenge: Option<Seq<char>>,
}

/// The character sequence of an optional string slice.
pub open spec fn opt_str(v: Option<&str>) -> Option<Seq<char>> {
    match v {
        Some(s) => Some(s@),
        None => None,
    }
}

impl View for SubscribeMsg<'_> {
    type V = SubscribeView;

    open spec fn view(&self) -> SubscribeView {
        SubscribeView {
            event: self.event@,
            feed: self.feed@,
            product_ids: match self.product_ids {
                Some(list) => Some(slice_texts(list@)),
                None => None,
            },
            api_key: opt_str(self.api_key),
            original_challenge: opt_str(self.original_challenge),
            signed_challenge: opt_str(self.signed_challenge),
        }
    }
}

/// The members of a subscription request, in the order of the wire.
pub open spec fn subscribe_members(m: SubscribeView) -> Seq<Member> {
    seq![
        Member { key: "event"@, value: MemberValue::Text(m.event) },
        Member { key: "feed"@, value: MemberValue::Text(m.feed) },
    ] + optional_list("product_ids"@, m.product_ids) + optional_member("api_key"@, m.api_key)
        + optional_member("original_challenge"@, m.original_challenge) + optional_member(
        "signed_challenge"@,
        m.signed_challenge,
    )
}

/// The text of a subscription request.
pub open spec fn subscribe_text(m: SubscribeView) -> Seq<char> {
    object_text(subscribe_members(m))
}

/// The members of a challenge request.
pub open spec fn challenge_members(api_key: Seq<char>) -> Seq<Member> {
    seq![
        Member { key: "event"@, value: MemberValue::Text("challenge"@) },
        Member { key: "api_key"@, value: MemberValue::Text(api_key) },
    ]
}

/// The text of a challenge request.
pub open spec fn challenge_text(api_key: Seq<char>) -> Seq<char> {
    object_text(challenge_members(api_key))
}

/// The JSON string literal for a text.
pub fn literal(s: &str) -> (r: String)
    ensures
        r@ == json_string_text(s@),
{
    quote(s).unwrap()
}

/// Joins texts with commas.
pub fn join_parts(parts: &Vec<String>) -> (r: String)
    ensures
        r@ == join(texts(parts@)),
{
    let mut out = String::new();
    let mut i: usize = 0;
    proof {
        assert(out@ =~= join(texts(parts@).take(0)));
    }
    while i < parts.len()
        invariant
            i <= parts.len(),
            out@ == join(texts(parts@).take(i as int)),
        decreases parts.len() - i,
    {
        let ghost before = out@;
        if i > 0 {
            out.append(",");
        }
        out.append(parts[i].as_str());
        proof {
            reveal_strlit(",");
            let t = texts(parts@);
            let next = t.take(i as int + 1);
            assert(next.drop_last() =~= t.take(i as int));
            assert(next.last() == parts@[i as int]@);
            assert(","@ =~= seq![',']);
            if i == 0 {
                assert(before =~= Seq::<char>::empty());
                assert(out@ =~= next[0]);
            } else {
                assert(out@ =~= before + seq![','] + next.last());
            }
        }
        i += 1;
    }
    proof {
        assert(texts(parts@).take(parts.len() as int) =~= texts(parts@));
    }
    out
}

/// Writes a text between two brackets.
fn enclose(open: &str, inner: &str, close: &str) -> (r: String)
    ensures
        r@ == open@ + inner@ + close@,
{
    let mut out = String::new();
    out.append(open);
    out.append(inner);
    out.append(close);
    proof {
        assert(out@ =~= open@ + inner@ + close@);
    }
    out
}

/// Writes a list of strings as a JSON array.
pub fn list_literal(items: &[&str]) -> (r: String)
    ensures
        r@ == list_text(slice_texts(items@)),
{
    let mut parts: Vec<String> = Vec::new();
    let mut i: usize = 0;
    while i < items.len()
        invariant
            i <= items.len(),
            parts.len() == i,
            forall|j: int| 0 <= j < i ==> parts@[j]@ == json_string_text(#[trigger] items@[j]@),
        decreases items.len() - i,
    {
        parts.push(literal(items[i]));
        i += 1;
    }
    let inner = join_parts(&parts);
    let out = enclose("[", inner.as_str(), "]");
    proof {
        reveal_strlit("[");
        reveal_strlit("]");
        assert("["@ =~= seq!['[']);
        assert("]"@ =~= seq![']']);
        let texts_of_items = slice_texts(items@);
        assert(texts(parts@) =~= Seq::new(
            texts_of_items.len(),
            |i: int| json_string_text(texts_of_items[i]),
        ));
    }
    out
}

/// Writes a member whose value is a text.
fn text_member(key: &str, value: &str) -> (r: String)
    ensures
        r@ == member_text(Member { key: key@, value: MemberValue::Text(value@) }),
{
    let k = literal(key);
    let v = literal(value);
    let out = enclose(k.as_str(), ":", v.as_str());
    proof {
        reveal_strlit(":");
        assert(":"@ =~= seq![':']);
    }
    out
}

/// Writes a member whose value is a list of strings.
fn list_member(key: &str, items: &[&str]) -> (r: String)
    ensures
        r@ == member_text(Member { key: key@, value: MemberValue::List(slice_texts(items@)) }),
{
    let k = literal(key);
    let v = list_literal(items);
    let out = enclose(k.as_str(), ":", v.as_str());
    proof {
        reveal_strlit(":");
        assert(":"@ =~= seq![':']);
    }
    out
}

/// Writes member texts as a JSON object.
fn object_literal(parts: &Vec<String>, Ghost(members): Ghost<Seq<Member>>) -> (r: String)
    requires
        parts.len() == members.len(),
        forall|i: int| 0 <= i < members.len() ==> parts@[i]@ == member_text(#[trigger] members[i]),
    ensures
        r@ == object_text(members),
{
    let inner = join_parts(parts);
    let out = enclose("{", inner.as_str(), "}");
    proof {
        reveal_strlit("{");
        reveal_strlit("}");
        assert("{"@ =~= seq!['{']);
        assert("}"@ =~= seq!['}']);
        assert(texts(parts@) =~= Seq::new(members.len(), |i: int| member_text(members[i])));
    }
    out
}

impl SubscribeMsg<'_> {
    /// The request as one line of JSON: `event` and `feed`, then each of
    /// `product_ids`, `api_key`, `original_challenge` and `signed_challenge`
    /// that has a value.
    pub fn to_text(&self) -> (r: String)
        ensures
            r@ == subscribe_text(self@),
    {
        let ghost m = self@;
        let mut parts: Vec<String> = Vec::new();
        let ghost mut members: Seq<Member> = Seq::empty();
        parts.push(text_member("event", self.event));
        parts.push(text_member("feed", self.feed));
        proof {
            members = seq![
                Member { key: "event"@, value: MemberValue::Text(m.event) },
                Member { key: "feed"@, value: MemberValue::Text(m.feed) },
            ];
        }
        match self.product_ids {
            Some(list) => {
                parts.push(list_member("product_ids", list));
                proof {
                    members = members.push(
                        Member { key: "product_ids"@, value: MemberValue::List(slice_texts(list@)) },
                    );
                }
            },
            None => {},
        }
        proof {
            assert(members =~= seq![
                Member { key: "event"@, value: MemberValue::Text(m.event) },
                Member { key: "feed"@, value: MemberValue::Text(m.feed) },
            ] + optional_list("product_ids"@, m.product_ids));
        }
        let ghost with_products = members;
        match self.api_key {
            Some(key) => {
                parts.push(text_member("api_key", key));
                proof {
                    members = members.push(Member { key: "api_key"@, value: MemberValue::Text(key@) });
                }
            },
            None => {},
        }
        proof {
            assert(members =~= with_products + optional_member("api_key"@, m.api_key));
        }
        let ghost with_key = members;
        match self.original_challenge {
            Some(challenge) => {
                parts.push(text_member("original_challenge", challenge));
                proof {
                    members = members.push(
                        Member { key: "original_challenge"@, value: MemberValue::Text(challenge@) },
                    );
                }
            },
            None => {},
        }
        proof {
            assert(members =~= with_key + optional_member(
                "original_challenge"@,
                m.original_challenge,
            ));
        }
        let ghost with_challenge = members;
        match self.signed_challenge {
            Some(signed) => {
                parts.push(text_member("signed_challenge", signed));
                proof {
                    members = members.push(
                        Member { key: "signed_challenge"@, value: MemberValue::Text(signed@) },
                    );
                }
            },
            None => {},
        }
        proof {
            assert(members =~= with_challenge + optional_member(
                "signed_challenge"@,
                m.signed_challenge,
            ));
            assert(members == subscribe_members(m));
        }
        object_literal(&parts, Ghost(members))
    }
}

/// A request for the challenge that opens the private feeds.
#[derive(Debug, Clone, Copy)]
pub struct ChallengeMsg<'a> {
    pub event: &'a str,
    pub api_key: &'a str,
}

impl ChallengeMsg<'_> {
    /// The request as one line of JSON: `event`, then `api_key`.
    pub fn to_text(&self) -> (r: String)
        ensures
            r@ == object_text(
                seq![
                    Member { key: "event"@, value: MemberValue::Text(self.event@) },
                    Member { key: "api_key"@, value: MemberValue::Text(self.api_key@) },
                ],
            ),
    {
        let mut parts: Vec<String> = Vec::new();
        parts.push(text_member("event", self.event));
        parts.push(text_member("api_key", self.api_key));
        let ghost members = seq![
            Member { key: "event"@, value: MemberValue::Text(self.event@) },
            Member { key: "api_key"@, value: MemberValue::Text(self.api_key@) },
        ];
        object_literal(&parts, Ghost(members))
    }
}

/// The names of the members of a request differ from one another.
pub proof fn member_names_differ()
    ensures
        "product_ids"@ != "event"@,
        "product_ids"@ != "feed"@,
        "product_ids"@ != "api_key"@,
        "product_ids"@ != "original_challenge"@,
        "product_ids"@ != "signed_challenge"@,
{
    reveal_strlit("product_ids");
    reveal_strlit("event");
    reveal_strlit("feed");
    reveal_strlit("api_key");
    reveal_strlit("original_challenge");
    reveal_strlit("signed_challenge");
    assert("product_ids"@.len() == 11);
    assert("event"@.len() == 5);
    assert("feed"@.len() == 4);
    assert("api_key"@.len() == 7);
    assert("original_challenge"@.len() == 18);
    assert("signed_challenge"@.len() == 16);
}

/// A request without a product list has no `product_ids` member at all: the
/// member is left out, not written without a value. A request with a product
/// list has the member once, third in the object, and its value is the list
/// of the given strings in their order.
pub proof fn product_list_is_left_out_or_listed(m: SubscribeView)
    ensures
        m.product_ids is None ==> forall|i: int|
            0 <= i < subscribe_members(m).len() ==> (#[trigger] subscribe_members(m)[i]).key
                != "product_ids"@,
        m.product_ids is Some ==> subscribe_members(m).len() >= 3 && subscribe_members(m)[2] == (
        Member { key: "product_ids"@, value: MemberValue::List(m.product_ids->Some_0) }),
        m.product_ids is Some ==> forall|i: int|
            0 <= i < subscribe_members(m).len() && i != 2 ==> (#[trigger] subscribe_members(
                m,
            )[i]).key != "product_ids"@,
{
    member_names_differ();
    let head = seq![
        Member { key: "event"@, value: MemberValue::Text(m.event) },
        Member { key: "feed"@, value: MemberValue::Text(m.feed) },
    ];
    let products = optional_list("product_ids"@, m.product_ids);
    let key = optional_member("api_key"@, m.api_key);
    let challenge = optional_member("original_challenge"@, m.original_challenge);
    let signed = optional_member("signed_challenge"@, m.signed_challenge);
    let all = subscribe_members(m);
    assert(all == head + products + key + challenge + signed);
    assert forall|i: int| 0 <= i < all.len() && !(m.product_ids is Some && i == 2) implies (
    #[trigger] all[i]).key != "product_ids"@ by {
        let a = head.len() + products.len();
        let b = a + key.len();
        let c = b + challenge.len();
        if i < 2 {
            assert(all[i] == head[i]);
        } else if i < a {
            assert(all[i] == products[i - 2]);
        } else if i < b {
            assert(all[i] == key[i - a]);
        } else if i < c {
            assert(all[i] == challenge[i - b]);
        } else {
            assert(all[i] == signed[i - c]);
        }
    }
    if m.product_ids is Some {
        assert(all[2] == products[0]);
    }
}

/// The text of a public request: an object of `event` and `feed` alone
/// where no products are given, and of `event`, `feed` and the list of the
/// products where they are.
pub proof fn public_request_text(event: Seq<char>, feed: Seq<char>, products: Option<Seq<Seq<char>>>)
    ensures
        subscribe_text(
            SubscribeView {
                event,
                feed,
                product_ids: products,
                api_key: None,
                original_challenge: None,
                signed_challenge: None,
            },
        ) == object_text(
            seq![
                Member { key: "event"@, value: MemberValue::Text(event) },
                Member { key: "feed"@, value: MemberValue::Text(feed) },
            ] + optional_list("product_ids"@, products),
        ),
{
    let m = SubscribeView {
        event,
        feed,
        product_ids: products,
        api_key: None,
        original_challenge: None,
        signed_challenge: None,
    };
    assert(subscribe_members(m) =~= seq![
        Member { key: "event"@, value: MemberValue::Text(event) },
        Member { key: "feed"@, value: MemberValue::Text(feed) },
    ] + optional_list("product_ids"@, products));
}

} // verus!
