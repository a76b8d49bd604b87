use crate::error::{DecodeError, DecodeErrorView};
use crate::json::{
    array_model, empty_object, field, json_model, lemma_field_of_discard, lemma_field_of_empty,
    lemma_field_of_extend, lemma_field_of_set_field_other, lemma_field_of_set_field_same,
    lemma_field_of_store_other, lemma_field_of_store_same, object_get, object_insert,
    object_model, value_array, value_as_array, value_as_bool, value_as_i64, value_as_str,
    value_as_u64, value_bool, value_i64, value_is_null, value_null, value_string, value_u64, Json,
    JsonObject,
};
use crate::table::{lemma_lookup_store_other, lemma_lookup_store_same, store};
use vstd::prelude::*;

verus! {

/// A type with a JSON wire form.
///
/// `encode_json` and `decode_json` say, over mathematical values, what is
/// written and what is read; `to_value` and `from_value` compute exactly that.
pub trait Wire: Sized {
    /// The mathematical content of a value of this type.
    type Model;

    /// The content of a value.
    spec fn model(&self) -> Self::Model;

    /// The values that come back unchanged from a trip over the wire.
    spec fn wire_ok(m: Self::Model) -> bool;

    /// The JSON document that is written for a value.
    spec fn encode_json(m: Self::Model) -> Json;

    /// What a JSON document decodes to: a value, or the reason why it is none.
    spec fn decode_json(j: Json) -> Result<Self::Model, DecodeErrorView>;

    /// Writes the value as a JSON document.
    fn to_value(&self) -> (r: serde_json::Value)
        ensures
            json_model(r) == Self::encode_json(self.model()),
    ;

    /// Reads a value from a JSON document.
    fn from_value(v: &serde_json::Value) -> (r: Result<Self, DecodeError>)
        ensures
            match r {
                Ok(x) => Self::decode_json(json_model(*v)) matches Ok(m) && m == x.model(),
                Err(e) => Self::decode_json(json_model(*v)) matches Err(f) && f == e@,
            },
    ;

    /// Decoding what was encoded gives the value back.
    proof fn lemma_round_trip(m: Self::Model)
        requires
            Self::wire_ok(m),
        ensures
            Self::decode_json(Self::encode_json(m)) matches Ok(back) && back == m,
    ;
}

/// Sends a value over the wire and back: encodes it, and decodes what was
/// encoded. Every value that `wire_ok` admits comes back with the content it
/// had.
pub fn round_trip<T: Wire>(x: &T) -> (r: Result<T, DecodeError>)
    ensures
        result_model(r) == T::decode_json(T::encode_json(x.model())),
        T::wire_ok(x.model()) ==> (r matches Ok(y) && y.model() == x.model()),
{
    proof {
        if T::wire_ok(x.model()) {
            T::lemma_round_trip(x.model());
        }
    }
    let v = x.to_value();
    T::from_value(&v)
}

/// The mathematical content of a decoding result.
pub open spec fn result_model<T: Wire>(r: Result<T, DecodeError>) -> Result<
    T::Model,
    DecodeErrorView,
> {
    match r {
        Ok(x) => Ok(x.model()),
        Err(e) => Err(e@),
    }
}

impl Wire for bool {
    type Model = bool;

    open spec fn model(&self) -> bool {
        *self
    }

    open spec fn wire_ok(m: bool) -> bool {
        true
    }

    open spec fn encode_json(m: bool) -> Json {
        Json::Bool(m)
    }

    open spec fn decode_json(j: Json) -> Result<bool, DecodeErrorView> {
        match j {
            Json::Bool(b) => Ok(b),
            _ => Err(DecodeErrorView::InvalidType),
        }
    }

    fn to_value(&self) -> (r: serde_json::Value) {
        value_bool(*self)
    }

    fn from_value(v: &serde_json::Value) -> (r: Result<bool, DecodeError>) {
        match value_as_bool(v) {
            Some(b) => Ok(b),
            None => Err(DecodeError::InvalidType),
        }
    }

    proof fn lemma_round_trip(m: bool) {
    }
}

impl Wire for i32 {
    type Model = i32;

    open spec fn model(&self) -> i32 {
        *self
    }

    open spec fn wire_ok(m: i32) -> bool {
        true
    }

    open spec fn encode_json(m: i32) -> Json {
        Json::Int(m as int)
    }

    open spec fn decode_json(j: Json) -> Result<i32, DecodeErrorView> {
        match j {
            Json::Int(i) => if i32::MIN <= i <= i32::MAX {
                Ok(i as i32)
            } else {
                Err(DecodeErrorView::InvalidType)
            },
            _ => Err(DecodeErrorView::InvalidType),
        }
    }

    fn to_value(&self) -> (r: serde_json::Value) {
        value_i64(*self as i64)
    }

    fn from_value(v: &serde_json::Value) -> (r: Result<i32, DecodeError>) {
        match value_as_i64(v) {
            Some(i) => if -2147483648 <= i && i <= 2147483647 {
                Ok(i as i32)
            } else {
                Err(DecodeError::InvalidType)
            },
            None => Err(DecodeError::InvalidType),
        }
    }

    proof fn lemma_round_trip(m: i32) {
    }
}

impl Wire for u8 {
    type Model = u8;

    open spec fn model(&self) -> u8 {
        *self
    }

    open spec fn wire_ok(m: u8) -> bool {
        true
    }

    open spec fn encode_json(m: u8) -> Json {
        Json::Int(m as int)
    }

    open spec fn decode_json(j: Json) -> Result<u8, DecodeErrorView> {
        match j {
            Json::Int(i) => if 0 <= i <= u8::MAX {
                Ok(i as u8)
            } else {
                Err(DecodeErrorView::InvalidType)
            },
            _ => Err(DecodeErrorView::InvalidType),
        }
    }

    fn to_value(&self) -> (r: serde_json::Value) {
        value_u64(*self as u64)
    }

    fn from_value(v: &serde_json::Value) -> (r: Result<u8, DecodeError>) {
        match value_as_u64(v) {
            Some(i) => if i <= 255 {
                Ok(i as u8)
            } else {
                Err(DecodeError::InvalidType)
            },
            None => Err(DecodeError::InvalidType),
        }
    }

    proof fn lemma_round_trip(m: u8) {
    }
}

impl Wire for u64 {
    type Model = u64;

    open spec fn model(&self) -> u64 {
        *self
    }

    open spec fn wire_ok(m: u64) -> bool {
        true
    }

    open spec fn encode_json(m: u64) -> Json {
        Json::Int(m as int)
    }

    open spec fn decode_json(j: Json) -> Result<u64, DecodeErrorView> {
        match j {
            Json::Int(i) => if 0 <= i <= u64::MAX {
                Ok(i as u64)
            } else {
                Err(DecodeErrorView::InvalidType)
            },
            _ => Err(DecodeErrorView::InvalidType),
        }
    }

    fn to_value(&self) -> (r: serde_json::Value) {
        value_u64(*self)
    }

    fn from_value(v: &serde_json::Value) -> (r: Result<u64, DecodeError>) {
        match value_as_u64(v) {
            Some(i) => Ok(i),
            None => Err(DecodeError::InvalidType),
        }
    }

    proof fn lemma_round_trip(m: u64) {
    }
}

impl Wire for String {
    type Model = Seq<char>;

    open spec fn model(&self) -> Seq<char> {
        self@
    }

    open spec fn wire_ok(m: Seq<char>) -> bool {
        true
    }

    open spec fn encode_json(m: Seq<char>) -> Json {
        Json::Str(m)
    }

    open spec fn decode_json(j: Json) -> Result<Seq<char>, DecodeErrorView> {
        match j {
            Json::Str(s) => Ok(s),
            _ => Err(DecodeErrorView::InvalidType),
        }
    }

    fn to_value(&self) -> (r: serde_json::Value) {
        value_string(self.clone())
    }

    fn from_value(v: &serde_json::Value) -> (r: Result<String, DecodeError>) {
        match value_as_str(v) {
            Some(s) => Ok(s.to_owned()),
            None => Err(DecodeError::InvalidType),
        }
    }

    proof fn lemma_round_trip(m: Seq<char>) {
    }
}

/// A JSON value that is carried through as it is. `null` stands for an absent
/// value wherever such a value is optional, so it does not survive the wire.
impl Wire for serde_json::Value {
    type Model = Json;

    open spec fn model(&self) -> Json {
        json_model(*self)
    }

    open spec fn wire_ok(m: Json) -> bool {
        !(m is Null)
    }

    open spec fn encode_json(m: Json) -> Json {
        m
    }

    open spec fn decode_json(j: Json) -> Result<Json, DecodeErrorView> {
        Ok(j)
    }

    fn to_value(&self) -> (r: serde_json::Value) {
        self.clone()
    }

    fn from_value(v: &serde_json::Value) -> (r: Result<serde_json::Value, DecodeError>) {
        Ok(v.clone())
    }

    proof fn lemma_round_trip(m: Json) {
    }
}

/// The first failure among the elements of `s`, or what they all decode to.
pub open spec fn decode_seq<T: Wire>(s: Seq<Json>) -> Result<Seq<T::Model>, DecodeErrorView>
    decreases s.len(),
{
    if s.len() == 0 {
        Ok(Seq::empty())
    } else {
        match decode_seq::<T>(s.drop_last()) {
            Err(e) => Err(e),
            Ok(front) => match T::decode_json(s.last()) {
                Err(e) => Err(e),
                Ok(x) => Ok(front.push(x)),
            },
        }
    }
}

pub open spec fn encode_seq<T: Wire>(s: Seq<T::Model>) -> Seq<Json> {
    Seq::new(s.len(), |i: int| T::encode_json(s[i]))
}

pub open spec fn seq_model<T: Wire>(s: Seq<T>) -> Seq<T::Model> {
    Seq::new(s.len(), |i: int| s[i].model())
}

pub open spec fn seq_wire_ok<T: Wire>(s: Seq<T::Model>) -> bool {
    forall|i: int| 0 <= i < s.len() ==> T::wire_ok(#[trigger] s[i])
}

pub proof fn lemma_seq_round_trip<T: Wire>(s: Seq<T::Model>)
    requires
        seq_wire_ok::<T>(s),
    ensures
        decode_seq::<T>(encode_seq::<T>(s)) matches Ok(back) && back == s,
    decreases s.len(),
{
    let e = encode_seq::<T>(s);
    if s.len() > 0 {
        assert(e.drop_last() =~= encode_seq::<T>(s.drop_last()));
        lemma_seq_round_trip::<T>(s.drop_last());
        T::lemma_round_trip(s.last());
        assert(s.drop_last().push(s.last()) =~= s);
    } else {
        assert(s =~= Seq::empty());
    }
}

impl<T: Wire> Wire for Vec<T> {
    type Model = Seq<T::Model>;

    open spec fn model(&self) -> Seq<T::Model> {
        seq_model::<T>(self@)
    }

    open spec fn wire_ok(m: Seq<T::Model>) -> bool {
        seq_wire_ok::<T>(m)
    }

    open spec fn encode_json(m: Seq<T::Model>) -> Json {
        Json::Array(encode_seq::<T>(m))
    }

    open spec fn decode_json(j: Json) -> Result<Seq<T::Model>, DecodeErrorView> {
        match j {
            Json::Array(s) => decode_seq::<T>(s),
            _ => Err(DecodeErrorView::InvalidType),
        }
    }

    fn to_value(&self) -> (r: serde_json::Value) {
        let mut out: Vec<serde_json::Value> = Vec::new();
        let mut i: usize = 0;
        while i < self.len()
            invariant
                i <= self.len(),
                out@.len() == i,
                forall|k: int| 0 <= k < i ==> json_model(#[trigger] out@[k]) == T::encode_json(self@[k].model()),
            decreases self.len() - i,
        {
            out.push(self[i].to_value());
            i += 1;
        }
        assert(array_model(out@) =~= encode_seq::<T>(seq_model::<T>(self@)));
        value_array(out)
    }

    fn from_value(v: &serde_json::Value) -> (r: Result<Vec<T>, DecodeError>) {
        match value_as_array(v) {
            None => Err(DecodeError::InvalidType),
            Some(a) => {
                let ghost s = array_model(a@);
                let mut out: Vec<T> = Vec::new();
                let mut i: usize = 0;
                assert(s.take(0) =~= Seq::empty());
                while i < a.len()
                    invariant
                        i <= a.len(),
                        s == array_model(a@),
                        json_model(*v) == Json::Array(s),
                        decode_seq::<T>(s.take(i as int)) matches Ok(front) && front == seq_model::<T>(out@),
                    decreases a.len() - i,
                {
                    proof {
                        assert(s.take(i + 1).drop_last() =~= s.take(i as int));
                        assert(s.take(i + 1).last() == json_model(a@[i as int]));
                    }
                    match T::from_value(&a[i]) {
                        Err(e) => {
                            proof {
                                assert(decode_seq::<T>(s.take(i + 1)) matches Err(f) && f == e@);
                                lemma_decode_seq_prefix_err::<T>(s, i + 1);
                            }
                            return Err(e);
                        },
                        Ok(x) => {
                            let ghost before = out@;
                            out.push(x);
                            assert(seq_model::<T>(out@) =~= seq_model::<T>(before).push(x.model()));
                        },
                    }
                    i += 1;
                }
                assert(s.take(i as int) =~= s);
                Ok(out)
            },
        }
    }

    proof fn lemma_round_trip(m: Seq<T::Model>) {
        lemma_seq_round_trip::<T>(m);
    }
}

/// Where a prefix of `s` fails to decode, `s` fails in the same way.
pub proof fn lemma_decode_seq_prefix_err<T: Wire>(s: Seq<Json>, n: int)
    requires
        0 <= n <= s.len(),
        decode_seq::<T>(s.take(n)) is Err,
    ensures
        decode_seq::<T>(s) == decode_seq::<T>(s.take(n)),
    decreases s.len(),
{
    if n < s.len() {
        assert(s.drop_last().take(n) =~= s.take(n));
        lemma_decode_seq_prefix_err::<T>(s.drop_last(), n);
    } else {
        assert(s.take(n) =~= s);
    }
}

/// An optional value: JSON `null` stands for its absence.
impl<T: Wire> Wire for Option<T> {
    type Model = Option<T::Model>;

    open spec fn model(&self) -> Option<T::Model> {
        match self {
            Some(x) => Some(x.model()),
            None => None,
        }
    }

    open spec fn wire_ok(m: Option<T::Model>) -> bool {
        m matches Some(x) ==> T::wire_ok(x) && !(T::encode_json(x) is Null)
    }

    open spec fn encode_json(m: Option<T::Model>) -> Json {
        match m {
            Some(x) => T::encode_json(x),
            None => Json::Null,
        }
    }

    open spec fn decode_json(j: Json) -> Result<Option<T::Model>, DecodeErrorView> {
        match j {
            Json::Null => Ok(None),
            _ => match T::decode_json(j) {
                Ok(x) => Ok(Some(x)),
                Err(e) => Err(e),
            },
        }
    }

    fn to_value(&self) -> (r: serde_json::Value) {
        match self {
            Some(x) => x.to_value(),
            None => value_null(),
        }
    }

    fn from_value(v: &serde_json::Value) -> (r: Result<Option<T>, DecodeError>) {
        if value_is_null(v) {
            Ok(None)
        } else {
            match T::from_value(v) {
                Ok(x) => Ok(Some(x)),
                Err(e) => Err(e),
            }
        }
    }

    proof fn lemma_round_trip(m: Option<T::Model>) {
        match m {
            Some(x) => T::lemma_round_trip(x),
            None => {},
        }
    }
}

/// A field that must be present.
#[verifier::opaque]
pub open spec fn req_field<T: Wire>(o: JsonObject, key: Seq<char>) -> Result<
    T::Model,
    DecodeErrorView,
> {
    match field(o, key) {
        Some(j) => T::decode_json(j),
        None => Err(DecodeErrorView::MissingField(key)),
    }
}

/// A field that may be absent, or `null`, which both read as `None`.
#[verifier::opaque]
pub open spec fn opt_field<T: Wire>(o: JsonObject, key: Seq<char>) -> Result<
    Option<T::Model>,
    DecodeErrorView,
> {
    match field(o, key) {
        Some(j) => Option::<T>::decode_json(j),
        None => Ok(None),
    }
}

/// A field that reads as `d` where it is absent.
#[verifier::opaque]
pub open spec fn default_field<T: Wire>(o: JsonObject, key: Seq<char>, d: T::Model) -> Result<
    T::Model,
    DecodeErrorView,
> {
    match field(o, key) {
        Some(j) => T::decode_json(j),
        None => Ok(d),
    }
}

/// The object with the field written, whatever its value.
#[verifier::opaque]
pub open spec fn with_field<T: Wire>(o: JsonObject, key: Seq<char>, x: T::Model) -> JsonObject {
    store(o, key, T::encode_json(x))
}

/// The object with the field written where there is a value, and unchanged
/// where there is none.
#[verifier::opaque]
pub open spec fn with_opt_field<T: Wire>(
    o: JsonObject,
    key: Seq<char>,
    x: Option<T::Model>,
) -> JsonObject {
    match x {
        Some(v) => store(o, key, T::encode_json(v)),
        None => o,
    }
}

/// The object with the field written unless its value is the default `d`.
#[verifier::opaque]
pub open spec fn with_nondefault_field<T: Wire>(
    o: JsonObject,
    key: Seq<char>,
    x: T::Model,
    d: T::Model,
) -> JsonObject {
    if x == d {
        o
    } else {
        store(o, key, T::encode_json(x))
    }
}

/// A field reads as what was written under its name.
pub broadcast proof fn lemma_field_of_with_field_same<T: Wire>(
    o: JsonObject,
    key: Seq<char>,
    x: T::Model,
)
    ensures
        #[trigger] field(with_field::<T>(o, key, x), key) == Some(T::encode_json(x)),
{
    reveal(field);
    reveal(with_field);
    lemma_lookup_store_same(o, key, T::encode_json(x));
}

/// Writing one field leaves the fields of other names as they were.
pub broadcast proof fn lemma_field_of_with_field_other<T: Wire>(
    o: JsonObject,
    written: Seq<char>,
    x: T::Model,
    key: Seq<char>,
)
    ensures
        key != written ==> #[trigger] field(with_field::<T>(o, written, x), key) == field(o, key),
{
    reveal(field);
    reveal(with_field);
    if key != written {
        lemma_lookup_store_other(o, written, T::encode_json(x), key);
    }
}

/// A field reads as the value that was written under its name, where there was
/// one to write.
pub broadcast proof fn lemma_field_of_with_opt_field_same<T: Wire>(
    o: JsonObject,
    key: Seq<char>,
    x: Option<T::Model>,
)
    ensures
        #[trigger] field(with_opt_field::<T>(o, key, x), key) == if x is Some {
            Some(T::encode_json(x->Some_0))
        } else {
            field(o, key)
        },
{
    reveal(field);
    reveal(with_opt_field);
    if x is Some {
        lemma_lookup_store_same(o, key, T::encode_json(x->Some_0));
    }
}

/// Writing one optional field leaves the fields of other names as they were.
pub broadcast proof fn lemma_field_of_with_opt_field_other<T: Wire>(
    o: JsonObject,
    written: Seq<char>,
    x: Option<T::Model>,
    key: Seq<char>,
)
    ensures
        key != written ==> #[trigger] field(with_opt_field::<T>(o, written, x), key) == field(
            o,
            key,
        ),
{
    reveal(field);
    reveal(with_opt_field);
    if key != written && x is Some {
        lemma_lookup_store_other(o, written, T::encode_json(x->Some_0), key);
    }
}

/// A field reads as the value that was written under its name, where that was
/// not the default.
pub broadcast proof fn lemma_field_of_with_nondefault_field_same<T: Wire>(
    o: JsonObject,
    key: Seq<char>,
    x: T::Model,
    d: T::Model,
)
    ensures
        #[trigger] field(with_nondefault_field::<T>(o, key, x, d), key) == if x != d {
            Some(T::encode_json(x))
        } else {
            field(o, key)
        },
{
    reveal(field);
    reveal(with_nondefault_field);
    lemma_lookup_store_same(o, key, T::encode_json(x));
}

/// Writing one defaulted field leaves the fields of other names as they were.
pub broadcast proof fn lemma_field_of_with_nondefault_field_other<T: Wire>(
    o: JsonObject,
    written: Seq<char>,
    x: T::Model,
    d: T::Model,
    key: Seq<char>,
)
    ensures
        key != written ==> #[trigger] field(with_nondefault_field::<T>(o, written, x, d), key)
            == field(o, key),
{
    reveal(field);
    reveal(with_nondefault_field);
    if key != written {
        lemma_lookup_store_other(o, written, T::encode_json(x), key);
    }
}

/// The rules by which a field is read back after fields were written.
pub broadcast group group_field_rules {
    lemma_field_of_empty,
    lemma_field_of_set_field_same,
    lemma_field_of_set_field_other,
    lemma_field_of_store_same,
    lemma_field_of_store_other,
    lemma_field_of_extend,
    lemma_field_of_discard,
    lemma_field_of_with_field_same,
    lemma_field_of_with_field_other,
    lemma_field_of_with_opt_field_same,
    lemma_field_of_with_opt_field_other,
    lemma_field_of_with_nondefault_field_same,
    lemma_field_of_with_nondefault_field_other,
}

pub fn get_req<T: Wire>(o: &serde_json::Map<String, serde_json::Value>, key: &str) -> (r: Result<
    T,
    DecodeError,
>)
    ensures
        result_model(r) == req_field::<T>(object_model(*o), key@),
{
    reveal(req_field);
    match object_get(o, key) {
        Some(v) => T::from_value(v),
        None => Err(DecodeError::MissingField(key.to_owned())),
    }
}

pub fn get_opt<T: Wire>(o: &serde_json::Map<String, serde_json::Value>, key: &str) -> (r: Result<
    Option<T>,
    DecodeError,
>)
    ensures
        result_model(r) == opt_field::<T>(object_model(*o), key@),
{
    reveal(opt_field);
    match object_get(o, key) {
        Some(v) => Option::<T>::from_value(v),
        None => Ok(None),
    }
}

pub fn get_or<T: Wire>(o: &serde_json::Map<String, serde_json::Value>, key: &str, d: T) -> (r:
    Result<T, DecodeError>)
    ensures
        result_model(r) == default_field::<T>(object_model(*o), key@, d.model()),
{
    reveal(default_field);
    match object_get(o, key) {
        Some(v) => T::from_value(v),
        None => Ok(d),
    }
}

/// Writes a field, whatever its value.
pub fn put<T: Wire>(o: &mut serde_json::Map<String, serde_json::Value>, key: &str, x: &T)
    ensures
        object_model(*final(o)) == with_field::<T>(object_model(*old(o)), key@, x.model()),
{
    reveal(with_field);
    object_insert(o, key.to_owned(), x.to_value());
}

/// Writes a text field.
pub fn put_str(o: &mut serde_json::Map<String, serde_json::Value>, key: &str, x: &str)
    ensures
        object_model(*final(o)) == with_field::<String>(object_model(*old(o)), key@, x@),
{
    reveal(with_field);
    object_insert(o, key.to_owned(), value_string(x.to_owned()));
}

/// Writes a field where there is a value.
pub fn put_opt<T: Wire>(
    o: &mut serde_json::Map<String, serde_json::Value>,
    key: &str,
    x: &Option<T>,
)
    ensures
        object_model(*final(o)) == with_opt_field::<T>(object_model(*old(o)), key@, x.model()),
{
    reveal(with_opt_field);
    match x {
        Some(v) => object_insert(o, key.to_owned(), v.to_value()),
        None => {},
    }
}

/// Writes a field unless `same` says that its value is the default `d`.
pub fn put_unless<T: Wire>(
    o: &mut serde_json::Map<String, serde_json::Value>,
    key: &str,
    x: &T,
    d: &T,
    same: bool,
)
    requires
        same == (x.model() == d.model()),
    ensures
        object_model(*final(o)) == with_nondefault_field::<T>(
            object_model(*old(o)),
            key@,
            x.model(),
            d.model(),
        ),
{
    reveal(with_nondefault_field);
    if !same {
        object_insert(o, key.to_owned(), x.to_value());
    }
}

/// Writes a flag unless it is `false`.
pub fn put_flag(o: &mut serde_json::Map<String, serde_json::Value>, key: &str, x: bool)
    ensures
        object_model(*final(o)) == with_nondefault_field::<bool>(
            object_model(*old(o)),
            key@,
            x,
            false,
        ),
{
    put_unless::<bool>(o, key, &x, &false, !x);
}

/// Writes a number unless it is zero.
pub fn put_nonzero(o: &mut serde_json::Map<String, serde_json::Value>, key: &str, x: i32)
    ensures
        object_model(*final(o)) == with_nondefault_field::<i32>(
            object_model(*old(o)),
            key@,
            x,
            0i32,
        ),
{
    put_unless::<i32>(o, key, &x, &0, x == 0);
}

/// Writes a list unless it is empty.
pub fn put_nonempty<T: Wire>(
    o: &mut serde_json::Map<String, serde_json::Value>,
    key: &str,
    x: &Vec<T>,
)
    ensures
        object_model(*final(o)) == with_nondefault_field::<Vec<T>>(
            object_model(*old(o)),
            key@,
            x.model(),
            Seq::empty(),
        ),
{
    reveal(with_nondefault_field);
    assert(x@.len() == 0 <==> x.model() =~= Seq::empty());
    if x.len() != 0 {
        object_insert(o, key.to_owned(), x.to_value());
    }
}

/// Reads a list that is empty where the field is absent.
pub fn get_or_empty<T: Wire>(o: &serde_json::Map<String, serde_json::Value>, key: &str) -> (r:
    Result<Vec<T>, DecodeError>)
    ensures
        result_model(r) == default_field::<Vec<T>>(object_model(*o), key@, Seq::empty()),
{
    reveal(default_field);
    match object_get(o, key) {
        Some(v) => Vec::<T>::from_value(v),
        None => {
            let d: Vec<T> = Vec::new();
            assert(d.model() =~= Seq::empty());
            Ok(d)
        },
    }
}

/// A type whose wire form is a JSON object with a fixed set of fields.
pub trait Record: Wire {
    /// The names of the fields that decoding looks at.
    spec fn field_names() -> Set<Seq<char>>;

    /// A field that the type does not know changes nothing about what an
    /// object decodes to.
    proof fn lemma_unknown_field(o: JsonObject, key: Seq<char>, x: Json)
        requires
            !Self::field_names().contains(key),
        ensures
            Self::decode_json(Json::Object(store(o, key, x))) == Self::decode_json(Json::Object(o)),
    ;
}

/// The fields that are written for a value whose wire form is an object.
pub open spec fn written_fields<T: Wire>(m: T::Model) -> JsonObject {
    match T::encode_json(m) {
        Json::Object(o) => o,
        _ => empty_object(),
    }
}

/// A record with fields that are left out where they hold their default.
pub trait Defaults: Record {
    /// The names of the fields that can be left out.
    spec fn elidable_names() -> Set<Seq<char>>;

    /// Whether every field that can be left out holds the value for which it
    /// is left out: `None`, the declared default, or the empty list.
    spec fn at_defaults(m: Self::Model) -> bool;

    /// A value at its defaults is written without any of the fields that can be
    /// left out.
    proof fn lemma_defaults_elided(m: Self::Model, key: Seq<char>)
        requires
            Self::at_defaults(m),
            Self::elidable_names().contains(key),
        ensures
            Self::encode_json(m) is Object,
            field(written_fields::<Self>(m), key) is None,
    ;
}

} // verus!
