use cf_ws_v1::decoder::{classify_feed, decode, decode_parsed, known_event, Decoded};
use cf_ws_v1::models::{
    Challenge, Error, Header, Heartbeat, Kind, Msg, Notification, Notifications, Payload,
    Subscribed, Version,
};

fn payload(feed: &str, text: &str) -> Payload {
    Payload { feed: feed.to_owned(), text: text.to_owned() }
}

#[test]
fn decodes_version() {
    assert_eq!(
        decode(r#"{"event":"info","version":1}"#),
        Decoded::Message(Msg::Version(Version { event: "info".to_owned(), version: 1 }))
    );
}

#[test]
fn version_without_number_is_unrecognized() {
    assert_eq!(decode(r#"{"event":"info"}"#), Decoded::Unrecognized);
    assert_eq!(decode(r#"{"event":"info","version":"1"}"#), Decoded::Unrecognized);
    assert_eq!(decode(r#"{"event":"info","version":-1}"#), Decoded::Unrecognized);
}

#[test]
fn decodes_subscribed_with_products() {
    assert_eq!(
        decode(r#"{"event":"subscribed","feed":"ticker","product_ids":["PI_XBTUSD","PI_ETHUSD"]}"#),
        Decoded::Message(Msg::Subscribed(Subscribed {
            event: "subscribed".to_owned(),
            header: Header {
                feed: "ticker".to_owned(),
                product_ids: Some(vec!["PI_XBTUSD".to_owned(), "PI_ETHUSD".to_owned()]),
            },
        }))
    );
}

#[test]
fn decodes_subscribed_without_products() {
    assert_eq!(
        decode(r#"{"event":"subscribed","feed":"heartbeat"}"#),
        Decoded::Message(Msg::Subscribed(Subscribed {
            event: "subscribed".to_owned(),
            header: Header { feed: "heartbeat".to_owned(), product_ids: None },
        }))
    );
}

#[test]
fn subscribed_with_bad_products_is_unrecognized() {
    assert_eq!(
        decode(r#"{"event":"subscribed","feed":"ticker","product_ids":["a",1]}"#),
        Decoded::Unrecognized
    );
    assert_eq!(
        decode(r#"{"event":"subscribed","feed":"ticker","product_ids":"a"}"#),
        Decoded::Unrecognized
    );
    assert_eq!(decode(r#"{"event":"subscribed"}"#), Decoded::Unrecognized);
}

#[test]
fn decodes_error() {
    assert_eq!(
        decode(r#"{"event":"error","message":"Invalid product id"}"#),
        Decoded::Message(Msg::Error(Error {
            event: "error".to_owned(),
            message: "Invalid product id".to_owned(),
        }))
    );
}

#[test]
fn error_without_message_is_unrecognized() {
    assert_eq!(decode(r#"{"event":"error"}"#), Decoded::Unrecognized);
}

#[test]
fn decodes_challenge_with_feed() {
    assert_eq!(
        decode(r#"{"feed":"fills","event":"challenge","message":"226aee50"}"#),
        Decoded::Message(Msg::Challenge(Challenge {
            feed: "fills".to_owned(),
            event: "challenge".to_owned(),
            message: "226aee50".to_owned(),
        }))
    );
}

#[test]
fn decodes_challenge_without_feed_as_event_message() {
    assert_eq!(
        decode(r#"{"event":"challenge","message":"226aee50"}"#),
        Decoded::Message(Msg::Error(Error {
            event: "challenge".to_owned(),
            message: "226aee50".to_owned(),
        }))
    );
}

#[test]
fn event_wins_over_feed() {
    let text = r#"{"event":"error","feed":"ticker","message":"no","bid":1.5}"#;
    assert_eq!(
        decode(text),
        Decoded::Message(Msg::Error(Error { event: "error".to_owned(), message: "no".to_owned() }))
    );
    let text = r#"{"feed":"heartbeat","time":5,"event":"info","version":7}"#;
    assert_eq!(
        decode(text),
        Decoded::Message(Msg::Version(Version { event: "info".to_owned(), version: 7 }))
    );
}

#[test]
fn known_event_with_missing_members_does_not_fall_back_to_feed() {
    assert_eq!(decode(r#"{"event":"info","feed":"heartbeat","time":5}"#), Decoded::Unrecognized);
}

#[test]
fn unknown_event_falls_back_to_feed() {
    let text = r#"{"event":"alert","feed":"heartbeat","time":5}"#;
    assert_eq!(
        decode(text),
        Decoded::Message(Msg::Heartbeat(Heartbeat {
            header: Header { feed: "heartbeat".to_owned(), product_ids: None },
            time: 5,
        }))
    );
}

#[test]
fn event_that_is_no_string_falls_back_to_feed() {
    let text = r#"{"event":1,"feed":"ticker_lite","bid":1.0}"#;
    assert_eq!(decode(text), Decoded::Message(Msg::TickerLite(payload("ticker_lite", text))));
}

#[test]
fn decodes_heartbeat() {
    assert_eq!(
        decode(r#"{"feed":"heartbeat","time":1534262350627}"#),
        Decoded::Message(Msg::Heartbeat(Heartbeat {
            header: Header { feed: "heartbeat".to_owned(), product_ids: None },
            time: 1534262350627,
        }))
    );
}

#[test]
fn heartbeat_without_time_is_unrecognized() {
    assert_eq!(decode(r#"{"feed":"heartbeat"}"#), Decoded::Unrecognized);
}

#[test]
fn decodes_ticker_as_payload() {
    let text = r#"{"feed":"ticker","product_id":"PI_XBTUSD","bid":34932.5,"ask":34949.5}"#;
    assert_eq!(decode(text), Decoded::Message(Msg::Ticker(payload("ticker", text))));
}

#[test]
fn trades_member_marks_a_snapshot() {
    let one = r#"{"feed":"trade","product_id":"PI_XBTUSD","side":"sell","price":34969.5}"#;
    assert_eq!(decode(one), Decoded::Message(Msg::Trade(payload("trade", one))));
    let many = r#"{"feed":"trade","product_id":"PI_XBTUSD","trades":[]}"#;
    assert_eq!(decode(many), Decoded::Message(Msg::TradeSnapshot(payload("trade", many))));
    let named = r#"{"feed":"trade_snapshot","product_id":"PI_XBTUSD","trades":[]}"#;
    assert_eq!(
        decode(named),
        Decoded::Message(Msg::TradeSnapshot(payload("trade_snapshot", named)))
    );
}

#[test]
fn bids_member_marks_a_book_snapshot() {
    let one = r#"{"feed":"book","product_id":"PI_XBTUSD","side":"sell","seq":30007489}"#;
    assert_eq!(decode(one), Decoded::Message(Msg::Book(payload("book", one))));
    let many = r#"{"feed":"book","bids":[],"asks":[]}"#;
    assert_eq!(decode(many), Decoded::Message(Msg::BookSnapshot(payload("book", many))));
    let named = r#"{"feed":"book_snapshot","bids":[],"asks":[]}"#;
    assert_eq!(
        decode(named),
        Decoded::Message(Msg::BookSnapshot(payload("book_snapshot", named)))
    );
}

#[test]
fn orders_member_marks_an_open_orders_snapshot() {
    let one = r#"{"feed":"open_orders","is_cancel":true,"reason":"x"}"#;
    assert_eq!(decode(one), Decoded::Message(Msg::OpenOrders(payload("open_orders", one))));
    let many = r#"{"feed":"open_orders","account":"a","orders":[]}"#;
    assert_eq!(
        decode(many),
        Decoded::Message(Msg::OpenOrdersSnapshot(payload("open_orders", many)))
    );
    let named = r#"{"feed":"open_orders_snapshot","account":"a","orders":[]}"#;
    assert_eq!(
        decode(named),
        Decoded::Message(Msg::OpenOrdersSnapshot(payload("open_orders_snapshot", named)))
    );
}

#[test]
fn decodes_private_feeds_as_payloads() {
    let text = r#"{"feed":"account_balances_and_margins","account":"a","seq":1}"#;
    assert_eq!(
        decode(text),
        Decoded::Message(Msg::AccountBalancesAndMargins(payload(
            "account_balances_and_margins",
            text
        )))
    );
    let text = r#"{"feed":"account_log","logs":[]}"#;
    assert_eq!(decode(text), Decoded::Message(Msg::AccountLog(payload("account_log", text))));
    let text = r#"{"feed":"deposits_withdrawals","elements":[]}"#;
    assert_eq!(
        decode(text),
        Decoded::Message(Msg::DepositsWithdrawals(payload("deposits_withdrawals", text)))
    );
    let text = r#"{"feed":"fills","account":"a","fills":[]}"#;
    assert_eq!(decode(text), Decoded::Message(Msg::Fills(payload("fills", text))));
    let text = r#"{"feed":"open_positions","account":"a","positions":[]}"#;
    assert_eq!(
        decode(text),
        Decoded::Message(Msg::OpenPositions(payload("open_positions", text)))
    );
}

#[test]
fn decodes_notifications() {
    let text = r#"{"feed":"notifications_auth","notifications":[{"id":5,"type":"market","priority":"low","note":"A note.","effective_time":1520288300000},{"id":6,"type":"general","priority":"high","note":"","effective_time":7,"extra":null}]}"#;
    assert_eq!(
        decode(text),
        Decoded::Message(Msg::Notifications(Notifications {
            feed: "notifications_auth".to_owned(),
            notifications: vec![
                Notification {
                    id: 5,
                    ty: "market".to_owned(),
                    priority: "low".to_owned(),
                    note: "A note.".to_owned(),
                    effective_time: 1520288300000,
                },
                Notification {
                    id: 6,
                    ty: "general".to_owned(),
                    priority: "high".to_owned(),
                    note: String::new(),
                    effective_time: 7,
                },
            ],
        }))
    );
}

#[test]
fn decodes_empty_notifications() {
    assert_eq!(
        decode(r#"{"feed":"notifications_auth","notifications":[]}"#),
        Decoded::Message(Msg::Notifications(Notifications {
            feed: "notifications_auth".to_owned(),
            notifications: vec![],
        }))
    );
}

#[test]
fn notifications_with_a_bad_item_are_unrecognized() {
    assert_eq!(
        decode(r#"{"feed":"notifications_auth","notifications":[{"id":5}]}"#),
        Decoded::Unrecognized
    );
    assert_eq!(decode(r#"{"feed":"notifications_auth"}"#), Decoded::Unrecognized);
    assert_eq!(
        decode(r#"{"feed":"notifications_auth","notifications":{}}"#),
        Decoded::Unrecognized
    );
}

#[test]
fn unknown_shapes_are_unrecognized() {
    assert_eq!(decode(r#"{"feed":"brand_new_feed","x":1}"#), Decoded::Unrecognized);
    assert_eq!(decode(r#"{"hello":"world"}"#), Decoded::Unrecognized);
    assert_eq!(decode(r#"{}"#), Decoded::Unrecognized);
    assert_eq!(decode(r#"{"feed":17}"#), Decoded::Unrecognized);
    assert_eq!(decode(r#"{"event":"subscribed_failed","message":"x"}"#), Decoded::Unrecognized);
}

#[test]
fn json_that_is_no_object_is_unrecognized() {
    assert_eq!(decode("42"), Decoded::Unrecognized);
    assert_eq!(decode("[1,2]"), Decoded::Unrecognized);
    assert_eq!(decode("\"ticker\""), Decoded::Unrecognized);
    assert_eq!(decode("null"), Decoded::Unrecognized);
}

#[test]
fn text_that_is_no_json_is_malformed() {
    assert_eq!(decode(""), Decoded::Malformed);
    assert_eq!(decode("{"), Decoded::Malformed);
    assert_eq!(decode("{\"event\":\"info\",\"version\":1} trailing"), Decoded::Malformed);
    assert_eq!(decode("hello"), Decoded::Malformed);
}

#[test]
fn unknown_shape_does_not_disturb_the_next_frame() {
    assert_eq!(decode(r#"{"feed":"brand_new_feed"}"#), Decoded::Unrecognized);
    assert_eq!(
        decode(r#"{"event":"info","version":1}"#),
        Decoded::Message(Msg::Version(Version { event: "info".to_owned(), version: 1 }))
    );
}

#[test]
fn decode_parsed_works_on_a_parsed_value() {
    let text = r#"{"feed":"fills","account":"a","fills":[]}"#;
    let value: serde_json::Value = serde_json::from_str(text).unwrap();
    assert_eq!(decode_parsed(&value, text), Some(Msg::Fills(payload("fills", text))));
    let value: serde_json::Value = serde_json::from_str("[]").unwrap();
    assert_eq!(decode_parsed(&value, "[]"), None);
}

#[test]
fn known_events() {
    assert!(known_event("info"));
    assert!(known_event("subscribed"));
    assert!(known_event("error"));
    assert!(known_event("challenge"));
    assert!(!known_event("unsubscribed"));
    assert!(!known_event("Info"));
    assert!(!known_event(""));
}

#[test]
fn feed_table() {
    let empty: serde_json::Value = serde_json::from_str("{}").unwrap();
    assert_eq!(classify_feed(&empty, "ticker"), Some(Kind::Ticker));
    assert_eq!(classify_feed(&empty, "ticker_lite"), Some(Kind::TickerLite));
    assert_eq!(classify_feed(&empty, "trade"), Some(Kind::Trade));
    assert_eq!(classify_feed(&empty, "trade_snapshot"), Some(Kind::TradeSnapshot));
    assert_eq!(classify_feed(&empty, "book"), Some(Kind::Book));
    assert_eq!(classify_feed(&empty, "book_snapshot"), Some(Kind::BookSnapshot));
    assert_eq!(classify_feed(&empty, "heartbeat"), Some(Kind::Heartbeat));
    assert_eq!(
        classify_feed(&empty, "account_balances_and_margins"),
        Some(Kind::AccountBalancesAndMargins)
    );
    assert_eq!(classify_feed(&empty, "account_log"), Some(Kind::AccountLog));
    assert_eq!(classify_feed(&empty, "deposits_withdrawals"), Some(Kind::DepositsWithdrawals));
    assert_eq!(classify_feed(&empty, "fills"), Some(Kind::Fills));
    assert_eq!(classify_feed(&empty, "open_positions"), Some(Kind::OpenPositions));
    assert_eq!(classify_feed(&empty, "open_orders"), Some(Kind::OpenOrders));
    assert_eq!(classify_feed(&empty, "open_orders_snapshot"), Some(Kind::OpenOrdersSnapshot));
    assert_eq!(classify_feed(&empty, "notifications_auth"), Some(Kind::Notifications));
    assert_eq!(classify_feed(&empty, "tickers"), None);
    assert_eq!(classify_feed(&empty, ""), None);
}

#[test]
fn message_kinds() {
    assert_eq!(
        Msg::Version(Version { event: "info".to_owned(), version: 1 }).kind(),
        Kind::Version
    );
    assert_eq!(Msg::Fills(payload("fills", "{}")).kind(), Kind::Fills);
    assert_eq!(
        Msg::from_payload(Kind::Ticker, payload("ticker", "{}")),
        Some(Msg::Ticker(payload("ticker", "{}")))
    );
    assert_eq!(Msg::from_payload(Kind::Version, payload("ticker", "{}")), None);
    assert_eq!(Msg::from_payload(Kind::Heartbeat, payload("heartbeat", "{}")), None);
}
