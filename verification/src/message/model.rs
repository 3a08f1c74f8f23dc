//! The two shapes of message, and how one is told from the other by the
//! fields of its payload alone.

use crate::message::payload::all_texts;
use crate::message::payload::field_value;
use crate::message::payload::text_field;
use crate::message::payload::text_list_field;
use crate::message::payload::Element;
use crate::message::payload::ElementView;
use crate::message::payload::Field;
use crate::message::payload::FieldView;
use crate::message::payload::Payload;
use crate::message::payload::Value;
use crate::message::payload::ValueView;
use vstd::prelude::*;

verus! {

/// A message that a user sent.
#[derive(Clone, Debug, PartialEq, Eq)]
pub struct MessageSent {
    pub msg: String,
    pub user: String,
}

/// A request that carries earlier messages, oldest first.
#[derive(Clone, Debug, PartialEq, Eq)]
pub struct RetrieveMessages {
    pub msgs: Vec<String>,
}

/// Either shape of message. On the wire nothing marks which one it is.
#[derive(Clone, Debug, PartialEq, Eq)]
pub enum MessageTypes {
    MessageSent(MessageSent),
    RetrieveMessages(RetrieveMessages),
}

/// A message as mathematical values.
pub ghost enum Message {
    Sent { msg: Seq<char>, user: Seq<char> },
    Retrieve { msgs: Seq<Seq<char>> },
}

impl View for MessageSent {
    type V = Message;

    open spec fn view(&self) -> Message {
        Message::Sent { msg: self.msg@, user: self.user@ }
    }
}

impl View for RetrieveMessages {
    type V = Message;

    open spec fn view(&self) -> Message {
        Message::Retrieve { msgs: self.msgs.deep_view() }
    }
}

impl View for MessageTypes {
    type V = Message;

    open spec fn view(&self) -> Message {
        match self {
            MessageTypes::MessageSent(sent) => sent@,
            MessageTypes::RetrieveMessages(retrieve) => retrieve@,
        }
    }
}

/// Why a payload is no message.
#[derive(Clone, Copy, Debug, PartialEq, Eq, Structural)]
pub enum MessageError {
    /// The payload has the fields of neither shape, or one of them holds
    /// something else than the shape asks for.
    MalformedPayload,
}

impl MessageError {
    /// The words for this error.
    pub open spec fn text(self) -> Seq<char> {
        "Malformed payload"@
    }

    /// The words for this error, to show to whoever sent the payload.
    pub fn message(&self) -> (text: String)
        ensures
            text@ == self.text(),
    {
        "Malformed payload".to_owned()
    }
}

/// The message that a payload with these fields stands for. The shapes are
/// tried in a fixed order: a sent message first, which needs texts in `msg`
/// and `user`; then a request for messages, which needs a list of texts in
/// `msgs`. Fields that the shape does not name are passed over.
pub open spec fn decoded(fields: Seq<FieldView>) -> Option<Message> {
    if text_field(fields, "msg"@) is Some && text_field(fields, "user"@) is Some {
        Some(
            Message::Sent {
                msg: text_field(fields, "msg"@)->Some_0,
                user: text_field(fields, "user"@)->Some_0,
            },
        )
    } else if text_list_field(fields, "msgs"@) is Some {
        Some(Message::Retrieve { msgs: text_list_field(fields, "msgs"@)->Some_0 })
    } else {
        None
    }
}

/// The fields that a message goes out with: those of its shape, and none
/// that says which shape it is.
pub open spec fn encoded(message: Message) -> Seq<FieldView> {
    match message {
        Message::Sent { msg, user } => seq![
            FieldView { name: "msg"@, value: ValueView::Text(msg) },
            FieldView { name: "user"@, value: ValueView::Text(user) },
        ],
        Message::Retrieve { msgs } => seq![
            FieldView {
                name: "msgs"@,
                value: ValueView::List(msgs.map_values(|text: Seq<char>| ElementView::Text(text))),
            },
        ],
    }
}

impl MessageTypes {
    /// Tells from the fields of `payload` which message it is.
    pub fn decode(payload: &Payload) -> (message: Result<MessageTypes, MessageError>)
        ensures
            match message {
                Ok(m) => decoded(payload@) == Some(m@),
                Err(e) => decoded(payload@) is None && e == MessageError::MalformedPayload,
            },
    {
        match (payload.text("msg"), payload.text("user")) {
            (Some(msg), Some(user)) => {
                return Ok(
                    MessageTypes::MessageSent(MessageSent { msg: msg.clone(), user: user.clone() }),
                );
            },
            _ => {},
        }
        match payload.text_list("msgs") {
            Some(msgs) => Ok(MessageTypes::RetrieveMessages(RetrieveMessages { msgs })),
            None => Err(MessageError::MalformedPayload),
        }
    }

    /// The payload that carries this message.
    pub fn encode(&self) -> (payload: Payload)
        ensures
            payload@ == encoded(self@),
    {
        let mut fields: Vec<Field> = Vec::new();
        match self {
            MessageTypes::MessageSent(sent) => {
                fields.push(Field { name: "msg".to_owned(), value: Value::Text(sent.msg.clone()) });
                fields.push(
                    Field { name: "user".to_owned(), value: Value::Text(sent.user.clone()) },
                );
            },
            MessageTypes::RetrieveMessages(retrieve) => {
                let mut items: Vec<Element> = Vec::new();
                let mut i: usize = 0;
                while i < retrieve.msgs.len()
                    invariant
                        i <= retrieve.msgs.len(),
                        items.len() == i,
                        forall|j: int|
                            0 <= j < i ==> (#[trigger] items@[j])@ == ElementView::Text(
                                retrieve.msgs@[j]@,
                            ),
                    decreases retrieve.msgs.len() - i,
                {
                    items.push(Element::Text(retrieve.msgs[i].clone()));
                    i += 1;
                }
                fields.push(Field { name: "msgs".to_owned(), value: Value::List(items) });
                assert(fields@[0]@.value->List_0 =~= retrieve.msgs.deep_view().map_values(
                    |text: Seq<char>| ElementView::Text(text),
                ));
            },
        }
        let payload = Payload { fields };
        assert(payload@ =~= encoded(self@));
        payload
    }
}

/// A message that was encoded decodes to itself.
pub proof fn lemma_decode_inverts_encode(message: Message)
    ensures
        decoded(encoded(message)) == Some(message),
{
    reveal_strlit("msg");
    reveal_strlit("user");
    reveal_strlit("msgs");
    let fields = encoded(message);
    match message {
        Message::Sent { msg, user } => {
            assert("msg"@.len() != "user"@.len());
            assert(fields.skip(1)[0] == fields[1]);
            assert(field_value(fields.skip(1), "user"@) == Some(ValueView::Text(user)));
        },
        Message::Retrieve { msgs } => {
            assert(fields.skip(1).len() == 0);
            let items = msgs.map_values(|text: Seq<char>| ElementView::Text(text));
            assert(all_texts(items)->Some_0 =~= msgs);
        },
    }
}

} // verus!
