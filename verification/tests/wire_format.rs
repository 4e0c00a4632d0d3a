use chat_relay::frame::{decode, FrameError};
use chat_relay::message::{Message, MessageStyle};
use chat_relay::wire::{
    join_reply_object, join_request, message_object, read_join_reply, read_join_request,
    read_message, receive_json, send_json, send_message, JoinReply, MalformedMessage,
};
use serde_json::Value;

fn sample() -> Message {
    Message {
        timestamp: 1700000000,
        sender: "alice".to_string(),
        style: MessageStyle::User,
        text: "hi".to_string(),
    }
}

fn framed(text: &str) -> Vec<u8> {
    let mut frame = vec![(text.len() / 256) as u8, (text.len() % 256) as u8];
    frame.extend_from_slice(text.as_bytes());
    frame
}

#[test]
fn style_codes_are_stable() {
    assert_eq!(MessageStyle::User.code(), 0);
    assert_eq!(MessageStyle::Yourself.code(), 1);
    assert_eq!(MessageStyle::Admin.code(), 2);
    assert_eq!(MessageStyle::Server.code(), 3);
}

#[test]
fn style_is_read_from_its_code_only() {
    assert_eq!(MessageStyle::from_code(0), Some(MessageStyle::User));
    assert_eq!(MessageStyle::from_code(1), Some(MessageStyle::Yourself));
    assert_eq!(MessageStyle::from_code(2), Some(MessageStyle::Admin));
    assert_eq!(MessageStyle::from_code(3), Some(MessageStyle::Server));
    assert_eq!(MessageStyle::from_code(4), None);
    assert_eq!(MessageStyle::from_code(-1), None);
    assert_eq!(MessageStyle::from_code(i64::MAX), None);
}

#[test]
fn message_object_holds_the_four_keys() {
    let object = message_object(&sample());
    assert_eq!(object.len(), 4);
    assert_eq!(object.get("timestamp"), Some(&Value::from(1700000000i64)));
    assert_eq!(object.get("sender"), Some(&Value::from("alice")));
    assert_eq!(object.get("style"), Some(&Value::from(0)));
    assert_eq!(object.get("text"), Some(&Value::from("hi")));
}

#[test]
fn send_message_frames_compact_json() {
    let text = "{\"sender\":\"alice\",\"style\":0,\"text\":\"hi\",\"timestamp\":1700000000}";
    assert_eq!(send_message(sample()), Ok(framed(text)));
}

#[test]
fn send_message_escapes_text() {
    let message = Message {
        timestamp: -1,
        sender: "é".to_string(),
        style: MessageStyle::Server,
        text: "a \"quoted\"\nline".to_string(),
    };
    let text = "{\"sender\":\"é\",\"style\":3,\"text\":\"a \\\"quoted\\\"\\nline\",\"timestamp\":-1}";
    assert_eq!(send_message(message), Ok(framed(text)));
}

#[test]
fn send_json_frames_any_object() {
    let mut object = serde_json::Map::new();
    object.insert("b".to_string(), Value::from(vec![1, 2]));
    object.insert("a".to_string(), Value::Null);
    assert_eq!(send_json(object), Ok(framed("{\"a\":null,\"b\":[1,2]}")));
    assert_eq!(send_json(serde_json::Map::new()), Ok(framed("{}")));
}

#[test]
fn send_message_refuses_what_no_frame_can_carry() {
    let mut message = sample();
    message.text = "x".repeat(65535);
    assert_eq!(send_message(message), Err(FrameError::PayloadTooLarge));
}

#[test]
fn send_json_takes_text_of_exactly_65535_bytes() {
    // {"k":"xx..x"} has 8 bytes around the string.
    let mut object = serde_json::Map::new();
    object.insert("k".to_string(), Value::from("x".repeat(65535 - 8)));
    let frame = send_json(object.clone()).unwrap();
    assert_eq!(frame.len(), 65537);
    assert_eq!(&frame[..2], &[255, 255]);
    object.insert("k".to_string(), Value::from("x".repeat(65535 - 7)));
    assert_eq!(send_json(object), Err(FrameError::PayloadTooLarge));
}

#[test]
fn receive_json_reads_an_object() {
    let object = receive_json(b"{\"username\": \"bob\", \"n\": 2}").unwrap();
    assert_eq!(object.len(), 2);
    assert_eq!(object.get("username"), Some(&Value::from("bob")));
    assert_eq!(object.get("n"), Some(&Value::from(2)));
}

#[test]
fn receive_json_refuses_what_is_not_utf8() {
    assert_eq!(receive_json(&[b'{', b'}', 0xff]), None);
    assert_eq!(receive_json(&[0xc3]), None);
}

#[test]
fn receive_json_refuses_what_does_not_parse() {
    assert_eq!(receive_json(b""), None);
    assert_eq!(receive_json(b"{"), None);
    assert_eq!(receive_json(b"{\"a\":1} x"), None);
    assert_eq!(receive_json(b"[1,2]"), None);
    assert_eq!(receive_json(b"\"alice\""), None);
    assert_eq!(receive_json(b"null"), None);
    assert_eq!(receive_json(b"5"), None);
}

#[test]
fn message_survives_the_wire() {
    let frame = send_message(sample()).unwrap();
    let payload = decode(&frame).unwrap();
    let object = receive_json(&payload).unwrap();
    assert_eq!(read_message(&object), Ok(sample()));
}

#[test]
fn message_of_every_style_survives_the_wire() {
    let styles = [
        MessageStyle::User,
        MessageStyle::Yourself,
        MessageStyle::Admin,
        MessageStyle::Server,
    ];
    for style in styles {
        let message = Message {
            timestamp: i64::MIN,
            sender: "Zoë \u{1F600}".to_string(),
            style,
            text: "tab\there \\ \u{0}".to_string(),
        };
        let frame = send_message(message.clone()).unwrap();
        let object = receive_json(&decode(&frame).unwrap()).unwrap();
        assert_eq!(read_message(&object), Ok(message));
    }
}

#[test]
fn read_message_wants_every_key() {
    let keys = ["timestamp", "sender", "style", "text"];
    for key in keys {
        let mut object = message_object(&sample());
        object.remove(key);
        assert_eq!(read_message(&object), Err(MalformedMessage));
    }
    assert_eq!(read_message(&serde_json::Map::new()), Err(MalformedMessage));
}

#[test]
fn read_message_wants_the_right_types() {
    let mut object = message_object(&sample());
    object.insert("timestamp".to_string(), Value::from("now"));
    assert_eq!(read_message(&object), Err(MalformedMessage));

    let mut object = message_object(&sample());
    object.insert("timestamp".to_string(), Value::from(1.5f64));
    assert_eq!(read_message(&object), Err(MalformedMessage));

    let mut object = message_object(&sample());
    object.insert("timestamp".to_string(), Value::from(u64::MAX));
    assert_eq!(read_message(&object), Err(MalformedMessage));

    let mut object = message_object(&sample());
    object.insert("sender".to_string(), Value::from(7));
    assert_eq!(read_message(&object), Err(MalformedMessage));

    let mut object = message_object(&sample());
    object.insert("style".to_string(), Value::from("0"));
    assert_eq!(read_message(&object), Err(MalformedMessage));

    let mut object = message_object(&sample());
    object.insert("text".to_string(), Value::Null);
    assert_eq!(read_message(&object), Err(MalformedMessage));
}

#[test]
fn read_message_wants_a_known_style() {
    for code in [4i64, 5, -1, 255, i64::MIN] {
        let mut object = message_object(&sample());
        object.insert("style".to_string(), Value::from(code));
        assert_eq!(read_message(&object), Err(MalformedMessage));
    }
    let mut object = message_object(&sample());
    object.insert("style".to_string(), Value::from(2));
    assert_eq!(read_message(&object).unwrap().style, MessageStyle::Admin);
}

#[test]
fn read_message_passes_over_other_keys() {
    let mut object = message_object(&sample());
    object.insert("room".to_string(), Value::from("lobby"));
    assert_eq!(read_message(&object), Ok(sample()));
}

#[test]
fn join_request_names_the_user() {
    let object = join_request("alice");
    assert_eq!(object.len(), 1);
    assert_eq!(object.get("username"), Some(&Value::from("alice")));
    assert_eq!(send_json(object), Ok(framed("{\"username\":\"alice\"}")));
}

#[test]
fn read_join_request_wants_a_string() {
    assert_eq!(read_join_request(&join_request("bob")), Ok("bob".to_string()));
    assert_eq!(read_join_request(&join_request("")), Ok(String::new()));
    assert_eq!(read_join_request(&serde_json::Map::new()), Err(MalformedMessage));
    let mut object = serde_json::Map::new();
    object.insert("username".to_string(), Value::from(5));
    assert_eq!(read_join_request(&object), Err(MalformedMessage));
    let mut object = serde_json::Map::new();
    object.insert("user".to_string(), Value::from("bob"));
    assert_eq!(read_join_request(&object), Err(MalformedMessage));
}

#[test]
fn join_reply_says_ok_or_no() {
    let welcome = JoinReply { accepted: true, reason: "Welcome new user".to_string() };
    assert_eq!(
        send_json(join_reply_object(&welcome)),
        Ok(framed("{\"reason\":\"Welcome new user\",\"result\":\"ok\"}"))
    );
    let refusal = JoinReply { accepted: false, reason: "Username already taken".to_string() };
    assert_eq!(
        send_json(join_reply_object(&refusal)),
        Ok(framed("{\"reason\":\"Username already taken\",\"result\":\"no\"}"))
    );
}

#[test]
fn join_reply_survives_the_wire() {
    for accepted in [true, false] {
        let reply = JoinReply { accepted, reason: "because".to_string() };
        let frame = send_json(join_reply_object(&reply)).unwrap();
        let object = receive_json(&decode(&frame).unwrap()).unwrap();
        assert_eq!(read_join_reply(&object), Ok(reply));
    }
}

#[test]
fn read_join_reply_wants_both_keys_and_a_known_word() {
    let object = receive_json(b"{\"result\":\"ok\"}").unwrap();
    assert_eq!(read_join_reply(&object), Err(MalformedMessage));
    let object = receive_json(b"{\"reason\":\"hm\"}").unwrap();
    assert_eq!(read_join_reply(&object), Err(MalformedMessage));
    let object = receive_json(b"{\"result\":\"maybe\",\"reason\":\"hm\"}").unwrap();
    assert_eq!(read_join_reply(&object), Err(MalformedMessage));
    let object = receive_json(b"{\"result\":\"OK\",\"reason\":\"hm\"}").unwrap();
    assert_eq!(read_join_reply(&object), Err(MalformedMessage));
    let object = receive_json(b"{\"result\":true,\"reason\":\"hm\"}").unwrap();
    assert_eq!(read_join_reply(&object), Err(MalformedMessage));
    let object = receive_json(b"{\"result\":\"no\",\"reason\":7}").unwrap();
    assert_eq!(read_join_reply(&object), Err(MalformedMessage));
    let object = receive_json(b"{\"result\":\"no\",\"reason\":\"taken\"}").unwrap();
    assert_eq!(
        read_join_reply(&object),
        Ok(JoinReply { accepted: false, reason: "taken".to_string() })
    );
}
