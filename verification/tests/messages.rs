use glass_chat::message::model::MessageError;
use glass_chat::message::model::MessageSent;
use glass_chat::message::model::MessageTypes;
use glass_chat::message::model::RetrieveMessages;
use glass_chat::message::payload::Element;
use glass_chat::message::payload::Field;
use glass_chat::message::payload::Payload;
use glass_chat::message::payload::Value;

fn element_of(json: &serde_json::Value) -> Element {
    match json.as_str() {
        Some(text) => Element::Text(text.to_string()),
        None => Element::Other,
    }
}

fn value_of(json: &serde_json::Value) -> Value {
    if let Some(text) = json.as_str() {
        Value::Text(text.to_string())
    } else if let Some(items) = json.as_array() {
        Value::List(items.iter().map(element_of).collect())
    } else {
        Value::Other
    }
}

fn payload_of(json: &str) -> Payload {
    let parsed: serde_json::Value = serde_json::from_str(json).unwrap();
    let mut fields = Vec::new();
    if let Some(object) = parsed.as_object() {
        for (name, value) in object.iter() {
            fields.push(Field { name: name.clone(), value: value_of(value) });
        }
    }
    Payload { fields }
}

fn text(name: &str, value: &str) -> Field {
    Field { name: name.to_string(), value: Value::Text(value.to_string()) }
}

fn sent(msg: &str, user: &str) -> MessageTypes {
    MessageTypes::MessageSent(MessageSent { msg: msg.to_string(), user: user.to_string() })
}

fn retrieve(msgs: &[&str]) -> MessageTypes {
    MessageTypes::RetrieveMessages(RetrieveMessages {
        msgs: msgs.iter().map(|m| m.to_string()).collect(),
    })
}

#[test]
fn decodes_a_sent_message() {
    let payload = payload_of(r#"{"msg":"hi","user":"alice"}"#);
    assert_eq!(MessageTypes::decode(&payload), Ok(sent("hi", "alice")));
}

#[test]
fn decodes_a_request_for_messages() {
    let payload = payload_of(r#"{"msgs":["a","b"]}"#);
    assert_eq!(MessageTypes::decode(&payload), Ok(retrieve(&["a", "b"])));
}

#[test]
fn refuses_an_unknown_shape() {
    let payload = payload_of(r#"{"foo":1}"#);
    assert_eq!(MessageTypes::decode(&payload), Err(MessageError::MalformedPayload));
}

#[test]
fn decodes_hand_written_payloads() {
    let payload = Payload { fields: vec![text("msg", "hi"), text("user", "alice")] };
    assert_eq!(MessageTypes::decode(&payload), Ok(sent("hi", "alice")));
    let payload = Payload {
        fields: vec![Field {
            name: "msgs".to_string(),
            value: Value::List(vec![
                Element::Text("a".to_string()),
                Element::Text("b".to_string()),
            ]),
        }],
    };
    assert_eq!(MessageTypes::decode(&payload), Ok(retrieve(&["a", "b"])));
    let payload = Payload { fields: vec![Field { name: "foo".to_string(), value: Value::Other }] };
    assert_eq!(MessageTypes::decode(&payload), Err(MessageError::MalformedPayload));
}

#[test]
fn refuses_an_empty_payload() {
    assert_eq!(
        MessageTypes::decode(&Payload { fields: Vec::new() }),
        Err(MessageError::MalformedPayload)
    );
    assert_eq!(MessageTypes::decode(&payload_of("{}")), Err(MessageError::MalformedPayload));
    assert_eq!(MessageTypes::decode(&payload_of("[1,2]")), Err(MessageError::MalformedPayload));
    assert_eq!(MessageTypes::decode(&payload_of("\"hi\"")), Err(MessageError::MalformedPayload));
}

#[test]
fn field_order_does_not_matter() {
    let payload = payload_of(r#"{"user":"alice","msg":"hi"}"#);
    assert_eq!(MessageTypes::decode(&payload), Ok(sent("hi", "alice")));
    let payload = Payload { fields: vec![text("user", "alice"), text("msg", "hi")] };
    assert_eq!(MessageTypes::decode(&payload), Ok(sent("hi", "alice")));
}

#[test]
fn passes_over_fields_it_does_not_know() {
    let payload = payload_of(r#"{"id":7,"msg":"hi","when":null,"user":"alice"}"#);
    assert_eq!(MessageTypes::decode(&payload), Ok(sent("hi", "alice")));
    let payload = payload_of(r#"{"count":2,"msgs":["a","b"]}"#);
    assert_eq!(MessageTypes::decode(&payload), Ok(retrieve(&["a", "b"])));
}

#[test]
fn sent_message_is_tried_first() {
    let payload = payload_of(r#"{"msg":"hi","msgs":["a"],"user":"alice"}"#);
    assert_eq!(MessageTypes::decode(&payload), Ok(sent("hi", "alice")));
}

#[test]
fn half_a_sent_message_is_none() {
    assert_eq!(
        MessageTypes::decode(&payload_of(r#"{"msg":"hi"}"#)),
        Err(MessageError::MalformedPayload)
    );
    assert_eq!(
        MessageTypes::decode(&payload_of(r#"{"user":"alice"}"#)),
        Err(MessageError::MalformedPayload)
    );
    assert_eq!(
        MessageTypes::decode(&payload_of(r#"{"msg":"hi","msgs":["a"]}"#)),
        Ok(retrieve(&["a"]))
    );
}

#[test]
fn wrong_kind_of_value_is_refused() {
    assert_eq!(
        MessageTypes::decode(&payload_of(r#"{"msg":1,"user":"alice"}"#)),
        Err(MessageError::MalformedPayload)
    );
    assert_eq!(
        MessageTypes::decode(&payload_of(r#"{"msg":"hi","user":["alice"]}"#)),
        Err(MessageError::MalformedPayload)
    );
    assert_eq!(
        MessageTypes::decode(&payload_of(r#"{"msgs":"a"}"#)),
        Err(MessageError::MalformedPayload)
    );
    assert_eq!(
        MessageTypes::decode(&payload_of(r#"{"msgs":["a",2,"c"]}"#)),
        Err(MessageError::MalformedPayload)
    );
    assert_eq!(
        MessageTypes::decode(&payload_of(r#"{"msgs":[["a"]]}"#)),
        Err(MessageError::MalformedPayload)
    );
}

#[test]
fn empty_list_of_messages_is_a_request() {
    assert_eq!(MessageTypes::decode(&payload_of(r#"{"msgs":[]}"#)), Ok(retrieve(&[])));
}

#[test]
fn messages_keep_their_order() {
    let payload = payload_of(r#"{"msgs":["c","a","b","a"]}"#);
    assert_eq!(MessageTypes::decode(&payload), Ok(retrieve(&["c", "a", "b", "a"])));
}

#[test]
fn first_of_two_fields_with_one_name_counts() {
    let payload = Payload {
        fields: vec![text("msg", "first"), text("user", "alice"), text("msg", "second")],
    };
    assert_eq!(MessageTypes::decode(&payload), Ok(sent("first", "alice")));
    let payload = Payload {
        fields: vec![
            Field { name: "msg".to_string(), value: Value::Other },
            text("user", "alice"),
            text("msg", "second"),
        ],
    };
    assert_eq!(MessageTypes::decode(&payload), Err(MessageError::MalformedPayload));
}

#[test]
fn payload_lookups() {
    let payload = payload_of(r#"{"a":"x","b":["y","z"],"c":3,"d":["y",false]}"#);
    assert_eq!(payload.get("a"), Some(&Value::Text("x".to_string())));
    assert_eq!(payload.get("c"), Some(&Value::Other));
    assert_eq!(payload.get("e"), None);
    assert_eq!(payload.text("a"), Some(&"x".to_string()));
    assert_eq!(payload.text("b"), None);
    assert_eq!(payload.text("e"), None);
    assert_eq!(payload.text_list("b"), Some(vec!["y".to_string(), "z".to_string()]));
    assert_eq!(payload.text_list("a"), None);
    assert_eq!(payload.text_list("d"), None);
    assert_eq!(payload.text_list("e"), None);
}

#[test]
fn encodes_a_sent_message_without_a_tag() {
    let payload = sent("hi", "alice").encode();
    assert_eq!(payload, Payload { fields: vec![text("msg", "hi"), text("user", "alice")] });
}

#[test]
fn encodes_a_request_without_a_tag() {
    let payload = retrieve(&["a", "b"]).encode();
    assert_eq!(
        payload,
        Payload {
            fields: vec![Field {
                name: "msgs".to_string(),
                value: Value::List(vec![
                    Element::Text("a".to_string()),
                    Element::Text("b".to_string()),
                ]),
            }],
        }
    );
}

#[test]
fn decode_inverts_encode() {
    for message in [sent("hi", "alice"), sent("", ""), retrieve(&["a", "b"]), retrieve(&[])] {
        assert_eq!(MessageTypes::decode(&message.encode()), Ok(message));
    }
}

#[test]
fn malformed_payload_has_words() {
    assert_eq!(MessageError::MalformedPayload.message(), "Malformed payload");
}
