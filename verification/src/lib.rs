//! The messages of the Debug Adapter Protocol and their JSON wire form.
//!
//! A [`ProtocolMessage`] is a sequence number with a request, a response or an
//! event. Every type of the catalog implements [`wire::Wire`]: `to_value`
//! writes a value as a `serde_json::Value`, `from_value` reads one, and the
//! contracts of both are stated over [`json::Json`], the mathematical content
//! of a JSON document, in which an object holds its fields in their order.
//! That reading gives back what writing wrote is proved for every type, as are
//! the laws of [`laws`].

pub mod dictionary;
pub mod equality;
pub mod error;
pub mod events;
pub mod json;
pub mod laws;
pub mod requests;
pub mod responses;
pub mod table;
pub mod text;
pub mod types;
pub mod utils;
pub mod wire;

use crate::error::{DecodeError, DecodeErrorView, ReadError};
use crate::events::{Event, EventView};
use crate::json::{
    empty_object, error_text, field, json_model, json_text, object_append, object_model,
    object_new, parse_value, parsed_json, str_eq, value_as_object, value_object, value_text,
    Json, JsonObject,
};
use crate::requests::{Request, RequestView};
use crate::responses::{Response, ResponseView};
use crate::table::{extend, lemma_place, place, store};
use crate::text::{frame, framed};
use crate::wire::{get_req, group_field_rules, put, put_str, req_field, with_field, Record, Wire};
use vstd::prelude::*;
use vstd::std_specs::convert::IntoSpec;

verus! {

/// The number by which a message is told apart from the others of its sender.
pub type SequenceNumber = u64;

/// Base class of requests, responses, and events.
#[derive(Clone, Debug, PartialEq, Eq)]
pub struct ProtocolMessage {
    /// Sequence number (also known as message ID). For protocol messages of type 'request' this ID can be used to cancel the request.
    pub seq: SequenceNumber,

    /// What the message carries.
    pub content: ProtocolMessageContent,
}

/// What a message carries: a request, a response or an event.
#[derive(Clone, Debug, PartialEq, Eq)]
pub enum ProtocolMessageContent {
    /// A client or debug adapter initiated request.
    Request(Request),

    /// Response for a request.
    Response(Response),

    /// A debug adapter initiated event.
    Event(Event),
}

/// The mathematical content of a [`ProtocolMessageContent`].
pub enum ProtocolMessageContentView {
    Request(RequestView),
    Response(ResponseView),
    Event(EventView),
}

/// The mathematical content of a [`ProtocolMessage`].
pub struct ProtocolMessageView {
    pub seq: u64,
    pub content: ProtocolMessageContentView,
}

impl View for ProtocolMessageContent {
    type V = ProtocolMessageContentView;

    open spec fn view(&self) -> ProtocolMessageContentView {
        match self {
            ProtocolMessageContent::Request(r) => ProtocolMessageContentView::Request(r@),
            ProtocolMessageContent::Response(r) => ProtocolMessageContentView::Response(r@),
            ProtocolMessageContent::Event(e) => ProtocolMessageContentView::Event(e@),
        }
    }
}

impl View for ProtocolMessage {
    type V = ProtocolMessageView;

    open spec fn view(&self) -> ProtocolMessageView {
        ProtocolMessageView { seq: self.seq, content: self.content@ }
    }
}

impl ProtocolMessageContent {
    /// The value of the `type` field under which the content travels.
    pub open spec fn kind(m: ProtocolMessageContentView) -> Seq<char> {
        match m {
            ProtocolMessageContentView::Request(_) => "request"@,
            ProtocolMessageContentView::Response(_) => "response"@,
            ProtocolMessageContentView::Event(_) => "event"@,
        }
    }

    /// The fields that are written for the content, the `type` field apart.
    pub open spec fn fields(m: ProtocolMessageContentView) -> JsonObject {
        match m {
            ProtocolMessageContentView::Request(r) => Request::fields(r),
            ProtocolMessageContentView::Response(r) => Response::fields(r),
            ProtocolMessageContentView::Event(e) => Event::fields(e),
        }
    }

    /// The contents that come back unchanged from a trip over the wire.
    pub open spec fn wire_ok(m: ProtocolMessageContentView) -> bool {
        match m {
            ProtocolMessageContentView::Request(r) => Request::wire_ok(r),
            ProtocolMessageContentView::Response(r) => Response::wire_ok(r),
            ProtocolMessageContentView::Event(e) => Event::wire_ok(e),
        }
    }

    /// What the fields of an object decode to as a content of the given kind.
    /// The kind is one of the three that there are.
    pub open spec fn decode_fields(kind: Seq<char>, o: JsonObject) -> Result<
        ProtocolMessageContentView,
        DecodeErrorView,
    > {
        if kind == "request"@ {
            match Request::decode_fields(o) {
                Ok(r) => Ok(ProtocolMessageContentView::Request(r)),
                Err(e) => Err(e),
            }
        } else if kind == "response"@ {
            match Response::decode_fields(o) {
                Ok(r) => Ok(ProtocolMessageContentView::Response(r)),
                Err(e) => Err(e),
            }
        } else {
            match Event::decode_fields(o) {
                Ok(e) => Ok(ProtocolMessageContentView::Event(e)),
                Err(e) => Err(e),
            }
        }
    }

    /// The value of the `type` field under which the content travels.
    pub fn kind_name(&self) -> (r: &'static str)
        ensures
            r@ == ProtocolMessageContent::kind(self@),
    {
        match self {
            ProtocolMessageContent::Request(_) => "request",
            ProtocolMessageContent::Response(_) => "response",
            ProtocolMessageContent::Event(_) => "event",
        }
    }

    /// Writes the fields of the content, the `type` field apart, into a fresh
    /// object.
    pub fn to_object(&self) -> (o: serde_json::Map<String, serde_json::Value>)
        ensures
            object_model(o) == ProtocolMessageContent::fields(self@),
    {
        match self {
            ProtocolMessageContent::Request(r) => r.to_object(),
            ProtocolMessageContent::Response(r) => r.to_object(),
            ProtocolMessageContent::Event(e) => e.to_object(),
        }
    }
}

/// Whether the text is one of the three values of the `type` field.
pub open spec fn is_kind(s: Seq<char>) -> bool {
    s == "request"@ || s == "response"@ || s == "event"@
}

impl ProtocolMessage {
    /// A message with the given sequence number and content.
    pub fn new<C: Into<ProtocolMessageContent>>(seq: SequenceNumber, content: C) -> (r:
        ProtocolMessage)
        ensures
            r.seq == seq,
            C::obeys_into_spec() ==> r.content == content.into_spec(),
    {
        ProtocolMessage { seq, content: content.into() }
    }

    /// The fields that every message bears: the sequence number and the kind
    /// of its content.
    pub open spec fn head(m: ProtocolMessageView) -> JsonObject {
        let o = empty_object();
        let o = with_field::<u64>(o, "seq"@, m.seq);
        let o = with_field::<String>(o, "type"@, ProtocolMessageContent::kind(m.content));
        o
    }

    /// The fields that are written for a message: the head, then the fields of
    /// the content.
    pub open spec fn fields(m: ProtocolMessageView) -> JsonObject {
        extend(ProtocolMessage::head(m), ProtocolMessageContent::fields(m.content))
    }

    /// The sequence number of an object: a `seq` field that holds a whole
    /// number which fits 64 bits.
    pub open spec fn sequence(o: JsonObject) -> Option<u64> {
        match req_field::<u64>(o, "seq"@) {
            Ok(seq) => Some(seq),
            Err(_) => None,
        }
    }

    /// The kind of an object: a `type` field that holds one of the three
    /// values.
    pub open spec fn kind(o: JsonObject) -> Option<Seq<char>> {
        match req_field::<String>(o, "type"@) {
            Ok(s) => if is_kind(s) {
                Some(s)
            } else {
                None
            },
            Err(_) => None,
        }
    }

    /// What the fields of an object decode to: a malformed envelope where the
    /// sequence number or the kind is missing or of the wrong shape, and
    /// otherwise what the fields decode to as a content of that kind.
    pub open spec fn decode_fields(o: JsonObject) -> Result<ProtocolMessageView, DecodeErrorView> {
        match (ProtocolMessage::sequence(o), ProtocolMessage::kind(o)) {
            (Some(seq), Some(kind)) => match ProtocolMessageContent::decode_fields(kind, o) {
                Ok(content) => Ok(ProtocolMessageView { seq, content }),
                Err(e) => Err(e),
            },
            _ => Err(DecodeErrorView::MalformedEnvelope),
        }
    }

    /// Writes the fields of the message into a fresh object.
    pub fn to_object(&self) -> (o: serde_json::Map<String, serde_json::Value>)
        ensures
            object_model(o) == ProtocolMessage::fields(self@),
    {
        let mut o = object_new();
        put::<u64>(&mut o, "seq", &self.seq);
        put_str(&mut o, "type", self.content.kind_name());
        object_append(&mut o, self.content.to_object());
        o
    }

    /// Reads a message from the fields of an object.
    pub fn from_object(o: &serde_json::Map<String, serde_json::Value>) -> (r: Result<
        ProtocolMessage,
        DecodeError,
    >)
        ensures
            match r {
                Ok(x) => ProtocolMessage::decode_fields(object_model(*o)) matches Ok(m) && m == x@,
                Err(e) => ProtocolMessage::decode_fields(object_model(*o)) matches Err(f) && f
                    == e@,
            },
    {
        let seq = match get_req::<u64>(o, "seq") {
            Ok(seq) => seq,
            Err(_) => {
                return Err(DecodeError::MalformedEnvelope);
            },
        };
        let kind = match get_req::<String>(o, "type") {
            Ok(kind) => kind,
            Err(_) => {
                return Err(DecodeError::MalformedEnvelope);
            },
        };
        if str_eq(kind.as_str(), "request") {
            match Request::from_object(o) {
                Ok(r) => Ok(ProtocolMessage { seq, content: ProtocolMessageContent::Request(r) }),
                Err(e) => Err(e),
            }
        } else if str_eq(kind.as_str(), "response") {
            match Response::from_object(o) {
                Ok(r) => Ok(ProtocolMessage { seq, content: ProtocolMessageContent::Response(r) }),
                Err(e) => Err(e),
            }
        } else if str_eq(kind.as_str(), "event") {
            match Event::from_object(o) {
                Ok(e) => Ok(ProtocolMessage { seq, content: ProtocolMessageContent::Event(e) }),
                Err(e) => Err(e),
            }
        } else {
            Err(DecodeError::MalformedEnvelope)
        }
    }

    /// Reads a message from JSON text.
    pub fn from_str(text: &str) -> (r: Result<ProtocolMessage, ReadError>)
        ensures
            match parsed_json(text@) {
                Some(j) => match r {
                    Ok(x) => ProtocolMessage::decode_json(j) matches Ok(m) && m == x@,
                    Err(ReadError::Decode(e)) => ProtocolMessage::decode_json(j) matches Err(f)
                        && f == e@,
                    Err(ReadError::Syntax(_)) => false,
                },
                None => r matches Err(ReadError::Syntax(_)),
            },
    {
        match parse_value(text) {
            Ok(v) => match ProtocolMessage::from_value(&v) {
                Ok(x) => Ok(x),
                Err(e) => Err(ReadError::Decode(e)),
            },
            Err(e) => Err(ReadError::Syntax(error_text(&e))),
        }
    }

    /// The message as it goes over the wire: the compact JSON text of what is
    /// written for the message, behind the header that tells the length of
    /// that text in bytes. Nothing follows the text.
    pub fn to_string(&self) -> (r: String)
        ensures
            exists|json: &str|
                json@ == json_text(ProtocolMessage::encode_json(self@)) && r@ == #[trigger] framed(
                    json,
                ),
    {
        let json = value_text(&self.to_value());
        frame(json.as_str())
    }

    /// An object without a sequence number or without a kind is a malformed
    /// envelope, whatever else it holds.
    pub proof fn lemma_malformed_envelope(o: JsonObject)
        requires
            ProtocolMessage::sequence(o) is None || ProtocolMessage::kind(o) is None,
        ensures
            ProtocolMessage::decode_fields(o) == Err::<ProtocolMessageView, DecodeErrorView>(
                DecodeErrorView::MalformedEnvelope,
            ),
    {
    }

    /// The head holds the sequence number, then the kind.
    pub proof fn lemma_head(m: ProtocolMessageView)
        ensures
            ProtocolMessage::head(m) == seq![
                ("seq"@, Json::Int(m.seq as int)),
                ("type"@, Json::Str(ProtocolMessageContent::kind(m.content))),
            ],
    {
        reveal(with_field);
        ProtocolMessage::lemma_names();
        let first = store(empty_object(), "seq"@, Json::Int(m.seq as int));
        assert(first =~= seq![("seq"@, Json::Int(m.seq as int))]);
        lemma_place(first, "type"@);
        assert(place(first, "type"@) == -1);
        assert(ProtocolMessage::head(m) =~= seq![
            ("seq"@, Json::Int(m.seq as int)),
            ("type"@, Json::Str(ProtocolMessageContent::kind(m.content))),
        ]);
    }

    /// The content writes no field under a name of the head.
    pub proof fn lemma_content_fields(m: ProtocolMessageContentView)
        ensures
            field(ProtocolMessageContent::fields(m), "seq"@) is None,
            field(ProtocolMessageContent::fields(m), "type"@) is None,
    {
        ProtocolMessage::lemma_names();
        match m {
            ProtocolMessageContentView::Request(r) => {
                Request::lemma_writes_known_fields(r, "seq"@);
                Request::lemma_writes_known_fields(r, "type"@);
            },
            ProtocolMessageContentView::Response(r) => {
                Response::lemma_writes_known_fields(r, "seq"@);
                Response::lemma_writes_known_fields(r, "type"@);
            },
            ProtocolMessageContentView::Event(e) => {
                Event::lemma_writes_known_fields(e, "seq"@);
                Event::lemma_writes_known_fields(e, "type"@);
            },
        }
    }

    /// The facts by which the three kinds and the field names of the head are
    /// told apart.
    proof fn lemma_names()
        ensures
            "request"@ != "response"@,
            "request"@ != "event"@,
            "response"@ != "event"@,
            "seq"@ != "type"@,
            !Request::field_names().contains("seq"@),
            !Request::field_names().contains("type"@),
            !Response::field_names().contains("seq"@),
            !Response::field_names().contains("type"@),
            !Event::field_names().contains("seq"@),
            !Event::field_names().contains("type"@),
    {
        reveal_strlit("request");
        reveal_strlit("response");
        reveal_strlit("event");
        reveal_strlit("seq");
        reveal_strlit("type");
        reveal_strlit("command");
        reveal_strlit("arguments");
        reveal_strlit("request_seq");
        reveal_strlit("success");
        reveal_strlit("message");
        reveal_strlit("body");
        assert("request"@.len() == 7);
        assert("response"@.len() == 8);
        assert("event"@.len() == 5);
        assert("seq"@.len() == 3);
        assert("type"@.len() == 4);
        assert("command"@.len() == 7);
        assert("arguments"@.len() == 9);
        assert("request_seq"@.len() == 11);
        assert("success"@.len() == 7);
        assert("message"@.len() == 7);
        assert("body"@.len() == 4);
        assert("type"@[0] != "body"@[0]);
    }
}

impl Wire for ProtocolMessage {
    type Model = ProtocolMessageView;

    open spec fn model(&self) -> ProtocolMessageView {
        self@
    }

    open spec fn wire_ok(m: ProtocolMessageView) -> bool {
        ProtocolMessageContent::wire_ok(m.content)
    }

    open spec fn encode_json(m: ProtocolMessageView) -> Json {
        Json::Object(ProtocolMessage::fields(m))
    }

    open spec fn decode_json(j: Json) -> Result<ProtocolMessageView, DecodeErrorView> {
        match j {
            Json::Object(o) => ProtocolMessage::decode_fields(o),
            _ => Err(DecodeErrorView::MalformedEnvelope),
        }
    }

    fn to_value(&self) -> (r: serde_json::Value) {
        value_object(self.to_object())
    }

    fn from_value(v: &serde_json::Value) -> (r: Result<ProtocolMessage, DecodeError>) {
        match value_as_object(v) {
            Some(o) => ProtocolMessage::from_object(o),
            None => Err(DecodeError::MalformedEnvelope),
        }
    }

    proof fn lemma_round_trip(m: ProtocolMessageView) {
        broadcast use group_field_rules;

        reveal(req_field);
        ProtocolMessage::lemma_names();
        let o = ProtocolMessage::fields(m);
        match m.content {
            ProtocolMessageContentView::Request(r) => {
                let inner = Request::fields(r);
                Request::lemma_round_trip(r);
                Request::lemma_writes_known_fields(r, "seq"@);
                Request::lemma_writes_known_fields(r, "type"@);
                assert(field(o, "command"@) == field(inner, "command"@));
                assert(field(o, "arguments"@) == field(inner, "arguments"@));
                assert(Request::decode_fields(o) == Request::decode_fields(inner));
            },
            ProtocolMessageContentView::Response(r) => {
                let inner = Response::fields(r);
                Response::lemma_round_trip(r);
                Response::lemma_writes_known_fields(r, "seq"@);
                Response::lemma_writes_known_fields(r, "type"@);
                Response::lemma_same_known_fields(o, inner);
            },
            ProtocolMessageContentView::Event(e) => {
                let inner = Event::fields(e);
                Event::lemma_round_trip(e);
                Event::lemma_writes_known_fields(e, "seq"@);
                Event::lemma_writes_known_fields(e, "type"@);
                assert(field(o, "event"@) == field(inner, "event"@));
                assert(field(o, "body"@) == field(inner, "body"@));
                assert(Event::decode_fields(o) == Event::decode_fields(inner));
            },
        }
    }
}

impl Record for ProtocolMessage {
    open spec fn field_names() -> Set<Seq<char>> {
        set![
            "seq"@,
            "type"@,
            "command"@,
            "arguments"@,
            "request_seq"@,
            "success"@,
            "message"@,
            "body"@,
            "event"@,
        ]
    }

    proof fn lemma_unknown_field(o: JsonObject, key: Seq<char>, x: Json) {
        broadcast use group_field_rules;

        reveal(req_field);
        Request::lemma_unknown_field(o, key, x);
        Response::lemma_unknown_field(o, key, x);
        Event::lemma_unknown_field(o, key, x);
    }
}

} // verus!
