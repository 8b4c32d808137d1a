use vortex::encode::{assemble, encode};
use vortex::message::{Body, Message, ResponsePayload};

fn reply(
    src: &str,
    dest: &str,
    msg_id: Option<u64>,
    in_reply_to: Option<u64>,
    payload: ResponsePayload,
) -> Message<ResponsePayload> {
    Message {
        src: src.to_string(),
        dest: dest.to_string(),
        body: Body { msg_id, in_reply_to, payload },
    }
}

fn echo_ok(echo: &str) -> ResponsePayload {
    ResponsePayload::EchoOk { echo: echo.to_string() }
}

#[test]
fn encode_echo_ok() {
    assert_eq!(
        encode(&reply("n1", "c1", Some(0), Some(1), echo_ok("hello"))),
        r#"{"src":"n1","dest":"c1","body":{"msg_id":0,"in_reply_to":1,"type":"echo_ok","echo":"hello"}}"#
    );
}

#[test]
fn encode_init_ok() {
    assert_eq!(
        encode(&reply("n1", "c1", Some(0), Some(1), ResponsePayload::InitOk)),
        r#"{"src":"n1","dest":"c1","body":{"msg_id":0,"in_reply_to":1,"type":"init_ok"}}"#
    );
}

#[test]
fn encode_leaves_absent_ids_out() {
    assert_eq!(
        encode(&reply("n1", "c1", None, None, ResponsePayload::InitOk)),
        r#"{"src":"n1","dest":"c1","body":{"type":"init_ok"}}"#
    );
    assert_eq!(
        encode(&reply("n1", "c1", Some(3), None, ResponsePayload::InitOk)),
        r#"{"src":"n1","dest":"c1","body":{"msg_id":3,"type":"init_ok"}}"#
    );
    assert_eq!(
        encode(&reply("n1", "c1", None, Some(4), echo_ok("x"))),
        r#"{"src":"n1","dest":"c1","body":{"in_reply_to":4,"type":"echo_ok","echo":"x"}}"#
    );
}

#[test]
fn encode_never_writes_null() {
    let text = encode(&reply("n1", "c1", None, None, echo_ok("x")));
    assert!(!text.contains("null"));
    assert!(!text.contains("msg_id"));
    assert!(!text.contains("in_reply_to"));
}

#[test]
fn encode_writes_ids_in_decimal() {
    for (id, digits) in [
        (0u64, "0"),
        (9, "9"),
        (10, "10"),
        (99, "99"),
        (100, "100"),
        (1234567890, "1234567890"),
        (9007199254740993, "9007199254740993"),
        (u64::MAX, "18446744073709551615"),
    ] {
        assert_eq!(
            encode(&reply("a", "b", Some(id), Some(id), ResponsePayload::InitOk)),
            format!(
                "{{\"src\":\"a\",\"dest\":\"b\",\"body\":{{\"msg_id\":{},\"in_reply_to\":{},\"type\":\"init_ok\"}}}}",
                digits, digits
            )
        );
    }
}

#[test]
fn encode_quotes_every_string() {
    assert_eq!(
        encode(&reply("", "", Some(0), None, echo_ok(""))),
        r#"{"src":"","dest":"","body":{"msg_id":0,"type":"echo_ok","echo":""}}"#
    );
}

#[test]
fn encode_escapes_as_json_asks() {
    assert_eq!(
        encode(&reply("a\"b", "c\\d", Some(0), None, echo_ok("line\nfeed\ttab\r\u{8}\u{c}\u{1}"))),
        "{\"src\":\"a\\\"b\",\"dest\":\"c\\\\d\",\"body\":{\"msg_id\":0,\"type\":\"echo_ok\",\"echo\":\"line\\nfeed\\ttab\\r\\b\\f\\u0001\"}}"
    );
}

#[test]
fn encode_keeps_text_beyond_ascii() {
    assert_eq!(
        encode(&reply("n", "c", Some(0), None, echo_ok("gr\u{fc}\u{df}e \u{1f600} /"))),
        "{\"src\":\"n\",\"dest\":\"c\",\"body\":{\"msg_id\":0,\"type\":\"echo_ok\",\"echo\":\"gr\u{fc}\u{df}e \u{1f600} /\"}}"
    );
}

#[test]
fn encode_gives_one_line() {
    let text = encode(&reply("n\n1", "c\r1", Some(0), Some(1), echo_ok("a\nb\n")));
    assert!(!text.contains('\n'));
    assert!(!text.contains('\r'));
}

#[test]
fn encode_agrees_with_serde_json_on_strings() {
    for text in ["", "plain", "quote\"", "back\\slash", "\u{0}\u{7f}\u{80}", "\u{2028}"] {
        let literal = serde_json::to_string(text).unwrap();
        assert_eq!(
            encode(&reply(text, text, None, None, echo_ok(text))),
            format!(
                "{{\"src\":{},\"dest\":{},\"body\":{{\"type\":\"echo_ok\",\"echo\":{}}}}}",
                literal, literal, literal
            )
        );
    }
}

#[test]
fn encoded_reply_reads_back_as_json() {
    let text = encode(&reply("n \"1\"", "c\\1", Some(7), Some(8), echo_ok("a\nb")));
    let value: serde_json::Value = serde_json::from_str(&text).unwrap();
    assert_eq!(value["src"].as_str(), Some("n \"1\""));
    assert_eq!(value["dest"].as_str(), Some("c\\1"));
    assert_eq!(value["body"]["msg_id"].as_u64(), Some(7));
    assert_eq!(value["body"]["in_reply_to"].as_u64(), Some(8));
    assert_eq!(value["body"]["type"].as_str(), Some("echo_ok"));
    assert_eq!(value["body"]["echo"].as_str(), Some("a\nb"));
}

#[test]
fn assemble_copies_literals_as_they_stand() {
    assert_eq!(
        assemble(&reply("\"n1\"", "\"c1\"", Some(0), Some(1), echo_ok("\"hello\""))),
        r#"{"src":"n1","dest":"c1","body":{"msg_id":0,"in_reply_to":1,"type":"echo_ok","echo":"hello"}}"#
    );
    assert_eq!(
        assemble(&reply("S", "D", None, Some(12), ResponsePayload::InitOk)),
        r#"{"src":S,"dest":D,"body":{"in_reply_to":12,"type":"init_ok"}}"#
    );
    assert_eq!(
        assemble(&reply("S", "D", Some(120), None, echo_ok("E"))),
        r#"{"src":S,"dest":D,"body":{"msg_id":120,"type":"echo_ok","echo":E}}"#
    );
}
