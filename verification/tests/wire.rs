use mekatek_searcher_rs::base64::encode;
use mekatek_searcher_rs::decimal::{from_decimal, push_decimal, to_decimal};
use mekatek_searcher_rs::json::Json;
use mekatek_searcher_rs::{
    AuctionError, AuctionRequest, AuctionResponse, BidKind, BidRequest, BidResponse, Payment,
};

fn text(s: &str) -> Json {
    Json::Text(s.to_string())
}

fn number(s: &str) -> Json {
    Json::Number(s.to_string())
}

fn object(members: Vec<(&str, Json)>) -> Json {
    Json::Object(members.into_iter().map(|(k, v)| (k.to_string(), v)).collect())
}

#[test]
fn base64_vectors() {
    assert_eq!(encode(b""), "");
    assert_eq!(encode(b"f"), "Zg==");
    assert_eq!(encode(b"fo"), "Zm8=");
    assert_eq!(encode(b"foo"), "Zm9v");
    assert_eq!(encode(b"foob"), "Zm9vYg==");
    assert_eq!(encode(b"fooba"), "Zm9vYmE=");
    assert_eq!(encode(b"foobar"), "Zm9vYmFy");
}

#[test]
fn base64_alphabet() {
    let all: Vec<u8> = (0..=255).collect();
    let expected = "AAECAwQFBgcICQoLDA0ODxAREhMUFRYXGBkaGxwdHh8gISIjJCUmJygpKissLS4vMDEyMzQ1Njc4OTo7PD0+P0BBQkNERUZHSElKS0xNTk9QUVJTVFVWV1hZWltcXV5fYGFiY2RlZmdoaWprbG1ub3BxcnN0dXZ3eHl6e3x9fn+AgYKDhIWGh4iJiouMjY6PkJGSk5SVlpeYmZqbnJ2en6ChoqOkpaanqKmqq6ytrq+wsbKztLW2t7i5uru8vb6/wMHCw8TFxsfIycrLzM3Oz9DR0tPU1dbX2Nna29zd3t/g4eLj5OXm5+jp6uvs7e7v8PHy8/T19vf4+fr7/P3+/w==";
    assert_eq!(encode(&all), expected);
    assert_eq!(encode(&[0xfb, 0xff]), "+/8=");
    assert_eq!(encode(&[0, 0, 0]), "AAAA");
    assert_eq!(encode(&[0xff, 0xff, 0xff]), "////");
}

#[test]
fn decimal_notation() {
    assert_eq!(to_decimal(0), "0");
    assert_eq!(to_decimal(7), "7");
    assert_eq!(to_decimal(10), "10");
    assert_eq!(to_decimal(5994269), "5994269");
    assert_eq!(to_decimal(u64::MAX), "18446744073709551615");
    let mut line = "code: ".to_string();
    push_decimal(&mut line, 410);
    assert_eq!(line, "code: 410");
}

#[test]
fn decimal_reading() {
    assert_eq!(from_decimal("0"), Some(0));
    assert_eq!(from_decimal("410"), Some(410));
    assert_eq!(from_decimal("18446744073709551615"), Some(u64::MAX));
    assert_eq!(from_decimal("18446744073709551616"), None);
    assert_eq!(from_decimal("99999999999999999999999"), None);
    assert_eq!(from_decimal(""), None);
    assert_eq!(from_decimal("007"), None);
    assert_eq!(from_decimal("00"), None);
    assert_eq!(from_decimal("-1"), None);
    assert_eq!(from_decimal("+1"), None);
    assert_eq!(from_decimal("1.0"), None);
    assert_eq!(from_decimal("1e3"), None);
    assert_eq!(from_decimal(" 1"), None);
    assert_eq!(from_decimal("١٢"), None);
    for n in [0u64, 1, 9, 10, 99, 100, 12345, u64::MAX - 1, u64::MAX] {
        assert_eq!(from_decimal(&to_decimal(n)), Some(n));
    }
}

#[test]
fn kind_names() {
    assert_eq!(BidKind::Top.name(), "top");
    assert_eq!(BidKind::Block.name(), "block");
    assert_eq!(BidKind::from_name("top"), Some(BidKind::Top));
    assert_eq!(BidKind::from_name("block"), Some(BidKind::Block));
    assert_eq!(BidKind::from_name("Top"), None);
    assert_eq!(BidKind::from_name("BLOCK"), None);
    assert_eq!(BidKind::from_name(""), None);
    assert_eq!(BidKind::from_name("bottom"), None);
}

#[test]
fn kind_round_trip() {
    for kind in [BidKind::Top, BidKind::Block] {
        assert_eq!(BidKind::from_name(kind.name()), Some(kind));
        assert_eq!(BidKind::from_json(&kind.to_json()), Some(kind));
        let written = kind.to_json().render();
        assert_eq!(BidKind::from_json(&Json::parse(written.as_bytes()).unwrap()), Some(kind));
    }
    assert_eq!(BidKind::Top.to_json(), text("top"));
    assert_eq!(BidKind::Block.to_json().render(), "\"block\"");
    assert_eq!(BidKind::from_json(&number("1")), None);
    assert_eq!(BidKind::from_json(&Json::Null), None);
    assert_eq!(BidKind::from_json(&object(vec![("top", Json::Null)])), None);
}

#[test]
fn bid_request_json() {
    let bid = BidRequest {
        chain_id: "osmosis-1".to_string(),
        height: 42,
        kind: BidKind::Top,
        txs: vec![vec![1, 2, 3], b"f".to_vec()],
    };
    assert_eq!(
        bid.to_json(),
        object(vec![
            ("chain_id", text("osmosis-1")),
            ("height", number("42")),
            ("kind", text("top")),
            ("txs", Json::Array(vec![text("AQID"), text("Zg==")])),
        ])
    );
}

#[test]
fn empty_txs_is_an_empty_array() {
    let bid = BidRequest {
        chain_id: "osmosis-1".to_string(),
        height: 42,
        kind: BidKind::Block,
        txs: vec![],
    };
    let json = bid.to_json();
    assert_eq!(json.member("txs"), Some(&Json::Array(vec![])));
    assert_eq!(
        json.render(),
        "{\"chain_id\":\"osmosis-1\",\"height\":42,\"kind\":\"block\",\"txs\":[]}"
    );
}

#[test]
fn auction_request_json() {
    let query = AuctionRequest { chain_id: "osmosis-1".to_string(), height: 5994269 };
    assert_eq!(
        query.to_json(),
        object(vec![("chain_id", text("osmosis-1")), ("height", number("5994269"))])
    );
}

#[test]
fn payment_json() {
    let payment = Payment {
        address: "osmo1abc".to_string(),
        allocation: "0.5".to_string(),
        denom: "uosmo".to_string(),
    };
    let json = payment.to_json();
    assert_eq!(json.render(), "{\"address\":\"osmo1abc\",\"allocation\":0.5,\"denom\":\"uosmo\"}");
    assert_eq!(Payment::from_json(&json), Some(payment));
    assert_eq!(
        Payment::from_json(&object(vec![
            ("address", text("a")),
            ("allocation", text("0.5")),
            ("denom", text("d")),
        ])),
        None
    );
    assert_eq!(Payment::from_json(&Json::Array(vec![])), None);
}

#[test]
fn allocation_is_kept_as_written_by_serde_json() {
    let read = |body: &str| {
        Payment::from_json(&Json::parse(body.as_bytes()).unwrap()).unwrap().allocation
    };
    assert_eq!(read("{\"address\":\"a\",\"allocation\":0.25,\"denom\":\"d\"}"), "0.25");
    assert_eq!(read("{\"address\":\"a\",\"allocation\":1,\"denom\":\"d\"}"), "1");
    assert_eq!(read("{\"address\":\"a\",\"allocation\":1.0,\"denom\":\"d\"}"), "1.0");
    assert_eq!(read("{\"address\":\"a\",\"allocation\":5e-1,\"denom\":\"d\"}"), "0.5");
    for allocation in ["0.25", "1", "1.0", "0.5", "0.1", "0.3333333333333333"] {
        let body = format!("{{\"address\":\"a\",\"allocation\":{},\"denom\":\"d\"}}", allocation);
        let as_float: f64 = read(&body).parse().unwrap();
        assert_eq!(as_float, allocation.parse::<f64>().unwrap());
    }
}

#[test]
fn auction_error_json() {
    let error = AuctionError {
        error: "gone".to_string(),
        status_code: 410,
        status_text: "Gone".to_string(),
    };
    assert_eq!(
        error.to_json().render(),
        "{\"error\":\"gone\",\"status_code\":410,\"status_text\":\"Gone\"}"
    );
    assert_eq!(AuctionError::from_json(&error.to_json()), Some(error));
    assert_eq!(AuctionError::from_json(&object(vec![("error", text("gone"))])), None);
    assert_eq!(
        AuctionError::from_json(&object(vec![
            ("error", text("gone")),
            ("status_code", number("-410")),
            ("status_text", text("Gone")),
        ])),
        None
    );
}

#[test]
fn auction_error_in_one_line() {
    let error = AuctionError {
        error: "gone".to_string(),
        status_code: 410,
        status_text: "Gone".to_string(),
    };
    assert_eq!(error.to_string(), "error: gone, code: 410, text: Gone");
    let empty = AuctionError { error: String::new(), status_code: 0, status_text: String::new() };
    assert_eq!(empty.to_string(), "error: , code: 0, text: ");
}

#[test]
fn responses_need_every_member() {
    let full = vec![
        ("chain_id", text("c")),
        ("height", number("1")),
        ("kind", text("top")),
        ("tx_hashes", Json::Array(vec![])),
    ];
    assert!(BidResponse::from_json(&object(full.iter().map(|(k, v)| (*k, copy(v))).collect()))
        .is_some());
    for missing in 0..full.len() {
        let rest =
            full.iter().enumerate().filter(|(i, _)| *i != missing).map(|(_, (k, v))| (*k, copy(v)));
        assert_eq!(BidResponse::from_json(&object(rest.collect())), None);
    }
    assert_eq!(BidResponse::from_json(&Json::Null), None);
    assert_eq!(AuctionResponse::from_json(&text("c")), None);
}

fn copy(json: &Json) -> Json {
    match json {
        Json::Null => Json::Null,
        Json::Bool(b) => Json::Bool(*b),
        Json::Number(n) => Json::Number(n.clone()),
        Json::Text(t) => Json::Text(t.clone()),
        Json::Array(items) => Json::Array(items.iter().map(copy).collect()),
        Json::Object(members) => {
            Json::Object(members.iter().map(|(k, v)| (k.clone(), copy(v))).collect())
        }
    }
}

#[test]
fn first_member_of_a_name_is_found() {
    let doc = object(vec![("a", number("1")), ("b", number("2")), ("a", number("3"))]);
    assert_eq!(doc.member("a"), Some(&number("1")));
    assert_eq!(doc.member("b"), Some(&number("2")));
    assert_eq!(doc.member("c"), None);
    assert_eq!(doc.unsigned_at("b"), Some(2));
    assert_eq!(doc.text_at("b"), None);
    assert_eq!(doc.number_at("a"), Some("1".to_string()));
    assert_eq!(Json::Array(vec![]).member("a"), None);
    assert_eq!(text("a").member("a"), None);
}

#[test]
fn reading_values() {
    assert_eq!(text("x").as_text(), Some(&"x".to_string()));
    assert_eq!(number("1").as_text(), None);
    assert_eq!(number("12").as_unsigned(), Some(12));
    assert_eq!(number("1.5").as_unsigned(), None);
    assert_eq!(number("1.5").as_number(), Some(&"1.5".to_string()));
    assert_eq!(text("12").as_unsigned(), None);
    assert_eq!(Json::Array(vec![Json::Null]).as_items(), Some(&vec![Json::Null]));
    assert_eq!(Json::Null.as_items(), None);
    assert_eq!(
        Json::Array(vec![text("a"), text("b")]).as_texts(),
        Some(vec!["a".to_string(), "b".to_string()])
    );
    assert_eq!(Json::Array(vec![text("a"), Json::Null]).as_texts(), None);
    assert_eq!(Json::Array(vec![]).as_texts(), Some(vec![]));
    assert_eq!(text("a").as_texts(), None);
    assert_eq!(
        Json::of_texts(&vec!["a".to_string(), "b".to_string()]),
        Json::Array(vec![text("a"), text("b")])
    );
}

#[test]
fn rendering() {
    assert_eq!(Json::Null.render(), "null");
    assert_eq!(Json::Bool(true).render(), "true");
    assert_eq!(Json::Bool(false).render(), "false");
    assert_eq!(number("0.5").render(), "0.5");
    assert_eq!(text("plain").render(), "\"plain\"");
    assert_eq!(text("").render(), "\"\"");
    assert_eq!(text("a\"b").render(), "\"a\\\"b\"");
    assert_eq!(text("tab\there").render(), "\"tab\\there\"");
    assert_eq!(Json::Array(vec![]).render(), "[]");
    assert_eq!(Json::Object(vec![]).render(), "{}");
    assert_eq!(Json::Array(vec![number("1")]).render(), "[1]");
    assert_eq!(
        Json::Array(vec![number("1"), Json::Null, Json::Array(vec![])]).render(),
        "[1,null,[]]"
    );
    assert_eq!(
        object(vec![("k\n", Json::Bool(true)), ("b", object(vec![("c", text("d"))]))]).render(),
        "{\"k\\n\":true,\"b\":{\"c\":\"d\"}}"
    );
    let mut out = "x=".to_string();
    Json::Array(vec![text("a")]).write(&mut out);
    assert_eq!(out, "x=[\"a\"]");
}

#[test]
fn parsing() {
    assert_eq!(Json::parse(b"null"), Some(Json::Null));
    assert_eq!(Json::parse(b" true "), Some(Json::Bool(true)));
    assert_eq!(Json::parse(b"12"), Some(number("12")));
    assert_eq!(Json::parse(b"-3"), Some(number("-3")));
    assert_eq!(Json::parse(b"0.5"), Some(number("0.5")));
    assert_eq!(Json::parse(b"100.0"), Some(number("100.0")));
    assert_eq!(Json::parse(b"\"a\\u0041\\n\""), Some(text("aA\n")));
    assert_eq!(Json::parse(b"[1, \"a\", []]"), Some(Json::Array(vec![
        number("1"),
        text("a"),
        Json::Array(vec![])
    ])));
    assert_eq!(
        Json::parse(b"{\"b\": 1, \"a\": {\"c\": null}}"),
        Some(object(vec![("a", object(vec![("c", Json::Null)])), ("b", number("1"))]))
    );
    assert_eq!(Json::parse(b""), None);
    assert_eq!(Json::parse(b"{"), None);
    assert_eq!(Json::parse(b"1 2"), None);
    assert_eq!(Json::parse(b"{\"a\":1,}"), None);
    assert_eq!(Json::parse(&[0xff, 0xfe]), None);
}

#[test]
fn parsing_agrees_with_serde_json() {
    let body = "{\"chain_id\":\"osmosis-1\",\"height\":5994269,\"kind\":\"top\",\"tx_hashes\":[\"A\",\"B\"]}";
    let value: serde_json::Value = serde_json::from_str(body).unwrap();
    let read = BidResponse::from_json(&Json::parse(body.as_bytes()).unwrap()).unwrap();
    assert_eq!(value.get("chain_id").and_then(|v| v.as_str()), Some(read.chain_id.as_str()));
    assert_eq!(value.get("height").and_then(|v| v.as_u64()), Some(read.height));
    assert_eq!(value.get("kind").and_then(|v| v.as_str()), Some(read.kind.name()));
    let hashes: Vec<&str> = value
        .get("tx_hashes")
        .and_then(|v| v.as_array())
        .unwrap()
        .iter()
        .map(|v| v.as_str().unwrap())
        .collect();
    assert_eq!(hashes, read.tx_hashes);
    assert_eq!(serde_json::to_string(&value.get("tx_hashes")).unwrap(), "[\"A\",\"B\"]");
    assert_eq!(Json::of_texts(&read.tx_hashes).render(), "[\"A\",\"B\"]");
}

#[test]
fn plain_text_is_written_between_quotes_as_it_is() {
    for plain in ["", "osmosis-1", "top", "block", "a b/c'd", "\u{7f}", "é", "\u{2028}", "日本", "😀"] {
        assert_eq!(text(plain).render(), format!("\"{}\"", plain));
    }
    for tx in [&b""[..], b"f", b"\xff\xfe\xfd", b"foobar"] {
        let encoded = encode(tx);
        assert_eq!(text(&encoded).render(), format!("\"{}\"", encoded));
    }
    for escaped in ["\"", "\\", "\u{0}", "\u{1f}", "a\tb"] {
        assert_ne!(text(escaped).render(), format!("\"{}\"", escaped));
    }
}
