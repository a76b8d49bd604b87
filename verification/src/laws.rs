use crate::error::DecodeErrorView;
use crate::json::{field, Json, JsonObject};
use crate::table::{lemma_extend_keeps_places, lookup, store};
use crate::wire::{
    default_field, opt_field, with_field, with_nondefault_field, with_opt_field, written_fields,
    Defaults, Record, Wire,
};
use crate::{ProtocolMessage, ProtocolMessageContent, ProtocolMessageView};
use vstd::prelude::*;

verus! {

/// Round trip: decoding what was encoded gives the value back, for every type
/// with a wire form and every value that `wire_ok` admits.
pub proof fn lemma_round_trip<T: Wire>(m: T::Model)
    requires
        T::wire_ok(m),
    ensures
        T::decode_json(T::encode_json(m)) matches Ok(back) && back == m,
{
    T::lemma_round_trip(m);
}

/// Round trip of whole messages: decoding an encoded message gives the message
/// back, sequence number and content.
pub proof fn lemma_message_round_trip(m: ProtocolMessageView)
    requires
        ProtocolMessage::wire_ok(m),
    ensures
        ProtocolMessage::decode_json(ProtocolMessage::encode_json(m)) matches Ok(back) && back == m,
{
    ProtocolMessage::lemma_round_trip(m);
}

/// Order of emission: a message is written with its sequence number first and
/// the kind of its content second; what the content writes stands behind them.
pub proof fn lemma_message_begins_with_head(m: ProtocolMessageView)
    ensures
        ProtocolMessage::fields(m).len() >= 2,
        ProtocolMessage::fields(m)[0] == ("seq"@, Json::Int(m.seq as int)),
        ProtocolMessage::fields(m)[1].0 == "type"@,
        ProtocolMessage::fields(m)[1] == ("type"@, Json::Str(ProtocolMessageContent::kind(m.content))),
{
    ProtocolMessage::lemma_head(m);
    let head = ProtocolMessage::head(m);
    let inner = ProtocolMessageContent::fields(m.content);
    lemma_extend_keeps_places(head, inner);
    ProtocolMessage::lemma_content_fields(m.content);
    assert(lookup(inner, head[0].0) is None && lookup(inner, head[1].0) is None) by {
        reveal(field);
    }
}

/// Default elision, writing: a field that holds its default is not written.
pub proof fn lemma_default_is_not_written<T: Wire>(o: JsonObject, key: Seq<char>, d: T::Model)
    ensures
        with_nondefault_field::<T>(o, key, d, d) == o,
{
    reveal(with_nondefault_field);
}

/// Default elision, writing: a field that holds any other value is written.
pub proof fn lemma_nondefault_is_written<T: Wire>(
    o: JsonObject,
    key: Seq<char>,
    x: T::Model,
    d: T::Model,
)
    requires
        x != d,
    ensures
        with_nondefault_field::<T>(o, key, x, d) == with_field::<T>(o, key, x),
{
    reveal(with_nondefault_field);
    reveal(with_field);
}

/// Default elision, writing: an optional field without a value is not
/// written.
pub proof fn lemma_none_is_not_written<T: Wire>(o: JsonObject, key: Seq<char>)
    ensures
        with_opt_field::<T>(o, key, None) == o,
{
    reveal(with_opt_field);
}

/// Default elision, reading: a field that is absent reads as its default.
pub proof fn lemma_absent_reads_as_default<T: Wire>(o: JsonObject, key: Seq<char>, d: T::Model)
    requires
        field(o, key) is None,
    ensures
        default_field::<T>(o, key, d) == Ok::<T::Model, DecodeErrorView>(d),
{
    reveal(default_field);
}

/// Default elision, reading: an optional field that is absent reads as
/// `None`.
pub proof fn lemma_absent_reads_as_none<T: Wire>(o: JsonObject, key: Seq<char>)
    requires
        field(o, key) is None,
    ensures
        opt_field::<T>(o, key) == Ok::<Option<T::Model>, DecodeErrorView>(None),
{
    reveal(opt_field);
}

/// Default elision, there and back: where a field holds its default, the
/// object is written without it, and the default is read from that object.
pub proof fn lemma_default_elided_and_read_back<T: Wire>(
    o: JsonObject,
    key: Seq<char>,
    d: T::Model,
)
    requires
        field(o, key) is None,
    ensures
        field(with_nondefault_field::<T>(o, key, d, d), key) is None,
        default_field::<T>(with_nondefault_field::<T>(o, key, d, d), key, d) == Ok::<
            T::Model,
            DecodeErrorView,
        >(d),
{
    reveal(with_nondefault_field);
    reveal(default_field);
}

/// Default elision, for whole records: a value whose fields that can be left
/// out all hold their default is written without those fields, and is read
/// back from what was written.
pub proof fn lemma_defaults_elided<T: Defaults>(m: T::Model)
    requires
        T::at_defaults(m),
        T::wire_ok(m),
    ensures
        forall|key: Seq<char>|
            T::elidable_names().contains(key) ==> #[trigger] field(written_fields::<T>(m), key)
                is None,
        T::decode_json(T::encode_json(m)) matches Ok(back) && back == m,
{
    T::lemma_round_trip(m);
    assert forall|key: Seq<char>| T::elidable_names().contains(key) implies #[trigger] field(
        written_fields::<T>(m),
        key,
    ) is None by {
        T::lemma_defaults_elided(m, key);
    }
}

/// Unknown-field tolerance: a field that a record does not know changes
/// nothing about what an object decodes to, for every type whose wire form is
/// an object with a fixed set of fields.
pub proof fn lemma_unknown_field<T: Record>(o: JsonObject, key: Seq<char>, x: Json)
    requires
        !T::field_names().contains(key),
    ensures
        T::decode_json(Json::Object(store(o, key, x))) == T::decode_json(Json::Object(o)),
{
    T::lemma_unknown_field(o, key, x);
}

} // verus!
