use crate::error::{DecodeError, DecodeErrorView};
use crate::json::{
    empty_object, field, json_model, object_get, object_insert, object_keys, object_model,
    object_new, str_eq, value_as_object, value_object, Json, JsonObject,
};
use crate::table::{
    distinct, extend, lemma_extend_fresh, lemma_place, lemma_place_distinct, lookup, place, store,
    Table,
};
use crate::wire::{default_field, with_nondefault_field, Wire};
use vstd::prelude::*;
use vstd::std_specs::cmp::{PartialEqSpec, PartialEqSpecImpl};

verus! {

/// A table from names to values, held as a list of entries in the order in
/// which their names were first stored. No name occurs twice: the type keeps
/// that, whatever is done with a table.
#[derive(Debug)]
pub struct Dictionary<T> {
    entries: Vec<(String, T)>,
}

/// No name occurs twice among the entries.
pub open spec fn names_differ<T>(s: Seq<(String, T)>) -> bool {
    forall|i: int, j: int| 0 <= i < j < s.len() ==> s[i].0@ != s[j].0@
}

impl<T> Dictionary<T> {
    /// The entries, as they are held.
    pub closed spec fn pairs(&self) -> Seq<(String, T)> {
        self.entries@
    }

    #[verifier::type_invariant]
    closed spec fn well_formed(self) -> bool {
        names_differ(self.entries@)
    }
}

impl<T: Clone> Clone for Dictionary<T> {
    fn clone(&self) -> (r: Dictionary<T>)
        ensures
            r.pairs().len() == self.pairs().len(),
            forall|i: int| 0 <= i < r.pairs().len() ==> (#[trigger] r.pairs()[i]).0@ == self.pairs()[i].0@,
    {
        proof {
            use_type_invariant(self);
        }
        let mut entries: Vec<(String, T)> = Vec::new();
        let mut i: usize = 0;
        while i < self.entries.len()
            invariant
                i <= self.entries.len(),
                entries@.len() == i,
                forall|k: int| 0 <= k < i ==> (#[trigger] entries@[k]).0@ == self.entries@[k].0@,
            decreases self.entries.len() - i,
        {
            let name = self.entries[i].0.clone();
            let value = self.entries[i].1.clone();
            entries.push((name, value));
            i += 1;
        }
        assert(names_differ(entries@)) by {
            assert forall|a: int, b: int| 0 <= a < b < entries@.len() implies entries@[a].0@
                != entries@[b].0@ by {
                assert(entries@[a].0@ == self.entries@[a].0@);
                assert(entries@[b].0@ == self.entries@[b].0@);
            }
        }
        Dictionary { entries }
    }
}

/// Whether the list holds an entry of the same name and an equal value.
pub open spec fn has_entry<T: PartialEq>(list: Seq<(String, T)>, entry: (String, T)) -> bool {
    exists|j: int|
        0 <= j < list.len() && (#[trigger] list[j]).0@ == entry.0@ && entry.1.eq_spec(&list[j].1)
}

/// Whether two lists are as long as each other, and the second holds every
/// entry of the first: the same entries, in whatever order.
pub open spec fn same_entries<T: PartialEq>(a: Seq<(String, T)>, b: Seq<(String, T)>) -> bool {
    &&& a.len() == b.len()
    &&& forall|i: int| 0 <= i < a.len() ==> has_entry(b, #[trigger] a[i])
}

impl<T: PartialEq> PartialEq for Dictionary<T> {
    fn eq(&self, other: &Dictionary<T>) -> (r: bool) {
        proof {
            use_type_invariant(self);
            use_type_invariant(other);
        }
        let n = self.entries.len();
        if n != other.entries.len() {
            return false;
        }
        let mut i: usize = 0;
        while i < n
            invariant
                i <= n,
                n == self.entries@.len(),
                n == other.entries@.len(),
                names_differ(other.entries@),
                T::obeys_eq_spec() ==> forall|k: int|
                    0 <= k < i ==> has_entry(other.entries@, #[trigger] self.entries@[k]),
            decreases n - i,
        {
            let mut j: usize = 0;
            let mut found: Option<usize> = None;
            while j < n && found.is_none()
                invariant
                    j <= n,
                    i < n,
                    n == self.entries@.len(),
                    n == other.entries@.len(),
                    found is None ==> forall|l: int|
                        0 <= l < j ==> (#[trigger] other.entries@[l]).0@ != self.entries@[i as int].0@,
                    found matches Some(x) ==> x < n && other.entries@[x as int].0@
                        == self.entries@[i as int].0@,
                decreases n - j, (if found is None { 1int } else { 0int }),
            {
                if str_eq(self.entries[i].0.as_str(), other.entries[j].0.as_str()) {
                    found = Some(j);
                } else {
                    j += 1;
                }
            }
            match found {
                None => {
                    assert(!has_entry(other.entries@, self.entries@[i as int]));
                    return false;
                },
                Some(x) => {
                    let same = self.entries[i].1.eq(&other.entries[x].1);
                    if !same {
                        proof {
                            if T::obeys_eq_spec() {
                                assert forall|l: int|
                                    0 <= l < n && (#[trigger] other.entries@[l]).0@
                                        == self.entries@[i as int].0@ implies l == x by {
                                    if l < x {
                                        assert(other.entries@[l].0@ != other.entries@[x as int].0@);
                                    }
                                    if x < l {
                                        assert(other.entries@[x as int].0@ != other.entries@[l].0@);
                                    }
                                }
                                assert(!has_entry(other.entries@, self.entries@[i as int]));
                            }
                        }
                        return false;
                    }
                    assert(T::obeys_eq_spec() ==> has_entry(
                        other.entries@,
                        self.entries@[i as int],
                    ));
                },
            }
            i += 1;
        }
        true
    }
}

/// Two tables are equal where they hold the same entries; the order of the
/// entries does not count. The equality is as good as that of the values.
impl<T: PartialEq> PartialEqSpecImpl for Dictionary<T> {
    open spec fn obeys_eq_spec() -> bool {
        T::obeys_eq_spec()
    }

    open spec fn eq_spec(&self, other: &Dictionary<T>) -> bool {
        same_entries(self.pairs(), other.pairs())
    }
}

impl<T: Eq> Eq for Dictionary<T> {
}

/// The content of a list of entries.
pub open spec fn entries_model<T: Wire>(s: Seq<(String, T)>) -> Table<T::Model> {
    Seq::new(s.len(), |i: int| (s[i].0@, s[i].1.model()))
}

impl<T: Wire> View for Dictionary<T> {
    type V = Table<T::Model>;

    open spec fn view(&self) -> Table<T::Model> {
        entries_model(self.pairs())
    }
}

/// A table whose entries bear different names has different names in its
/// content.
pub proof fn lemma_distinct_content<T: Wire>(s: Seq<(String, T)>)
    requires
        names_differ(s),
    ensures
        distinct(entries_model(s)),
{
    let m = entries_model(s);
    assert forall|i: int, j: int| 0 <= i < j < m.len() implies m[i].0 != m[j].0 by {
        assert(s[i].0@ != s[j].0@);
    }
}

impl<T: Wire> Dictionary<T> {
    /// The empty table.
    pub fn new() -> (r: Dictionary<T>)
        ensures
            r@ == Seq::<(Seq<char>, T::Model)>::empty(),
    {
        let r = Dictionary { entries: Vec::new() };
        assert(r@ =~= Seq::empty());
        r
    }

    /// The number of entries. No two of them bear the same name.
    pub fn len(&self) -> (r: usize)
        ensures
            r == self@.len(),
            distinct(self@),
    {
        proof {
            use_type_invariant(self);
            lemma_distinct_content(self.entries@);
        }
        self.entries.len()
    }

    /// Whether the table has no entries.
    pub fn is_empty(&self) -> (r: bool)
        ensures
            r == (self@.len() == 0),
            r == (self@ == Seq::<(Seq<char>, T::Model)>::empty()),
    {
        assert(self@.len() == 0 ==> self@ =~= Seq::empty());
        self.entries.len() == 0
    }

    /// The name of the entry at `i`.
    pub fn name_at(&self, i: usize) -> (r: &str)
        requires
            i < self@.len(),
        ensures
            r@ == self@[i as int].0,
    {
        self.entries[i].0.as_str()
    }

    /// The value of the entry at `i`.
    pub fn value_at(&self, i: usize) -> (r: &T)
        requires
            i < self@.len(),
        ensures
            r.model() == self@[i as int].1,
    {
        &self.entries[i].1
    }

    /// The place of the entry of the name, if there is one.
    pub fn position(&self, name: &str) -> (r: Option<usize>)
        ensures
            match r {
                Some(i) => i == place(self@, name@) && i < self@.len(),
                None => place(self@, name@) == -1,
            },
    {
        let mut i: usize = self.entries.len();
        proof {
            lemma_place(self@, name@);
        }
        while i > 0
            invariant
                i <= self.entries.len(),
                forall|k: int| i <= k < self.entries.len() ==> self.entries@[k].0@ != name@,
                -1 <= place(self@, name@) < self@.len(),
                place(self@, name@) >= 0 ==> self@[place(self@, name@)].0 == name@,
                forall|j: int|
                    place(self@, name@) < j < self@.len() ==> (#[trigger] self@[j]).0 != name@,
            decreases i,
        {
            if str_eq(self.entries[i - 1].0.as_str(), name) {
                proof {
                    let p = place(self@, name@);
                    assert(self@[i - 1].0 == name@);
                    if p > i - 1 {
                        assert(self.entries@[p].0@ != name@);
                        assert(self@[p].0 == self.entries@[p].0@);
                    }
                    if p < i - 1 {
                        assert(self@[i - 1].0 != name@);
                    }
                }
                return Some(i - 1);
            }
            i -= 1;
        }
        proof {
            let p = place(self@, name@);
            if p >= 0 {
                assert(self@[p].0 == self.entries@[p].0@);
            }
        }
        None
    }

    /// The value under the name, if the table has an entry of that name.
    pub fn get(&self, name: &str) -> (r: Option<&T>)
        ensures
            match r {
                Some(x) => lookup(self@, name@) == Some(x.model()),
                None => lookup(self@, name@) is None,
            },
    {
        match self.position(name) {
            Some(i) => {
                assert(self@.len() == self.entries@.len());
                Some(&self.entries[i].1)
            },
            None => None,
        }
    }

    /// Stores the value under the name: in the place of the entry of that name
    /// where there is one, and at the end otherwise.
    pub fn insert(&mut self, name: String, value: T)
        ensures
            final(self)@ == store(old(self)@, name@, value.model()),
    {
        let ghost before = self@;
        proof {
            use_type_invariant(&*self);
            lemma_place(before, name@);
        }
        let found = self.position(name.as_str());
        let mut taken: Dictionary<T> = Dictionary { entries: Vec::new() };
        core::mem::swap(self, &mut taken);
        let mut entries = taken.entries;
        let ghost held = entries@;
        assert(entries_model::<T>(held) == before);
        match found {
            Some(i) => {
                assert(before.len() == held.len());
                entries.set(i, (name, value));
                assert(entries_model::<T>(entries@) =~= before.update(
                    i as int,
                    (name@, value.model()),
                ));
                assert(names_differ(entries@)) by {
                    assert forall|a: int, b: int| 0 <= a < b < entries@.len() implies entries@[a].0@
                        != entries@[b].0@ by {
                        assert(held[a].0@ != held[b].0@);
                        assert(before[i as int].0 == name@);
                        assert(before[i as int].0 == held[i as int].0@);
                    }
                }
            },
            None => {
                entries.push((name, value));
                assert(entries_model::<T>(entries@) =~= before.push((name@, value.model())));
                assert(names_differ(entries@)) by {
                    assert forall|a: int, b: int| 0 <= a < b < entries@.len() implies entries@[a].0@
                        != entries@[b].0@ by {
                        if b < held.len() {
                            assert(held[a].0@ != held[b].0@);
                        } else {
                            assert(before[a].0 == held[a].0@);
                            assert(before[a].0 != name@);
                        }
                    }
                }
            },
        }
        *self = Dictionary { entries };
    }
}

/// The entries of a table, each value as it is written.
pub open spec fn encode_entries<T: Wire>(m: Table<T::Model>) -> JsonObject {
    Seq::new(m.len(), |i: int| (m[i].0, T::encode_json(m[i].1)))
}

/// What the fields of an object decode to, each value by itself: the first
/// failure among them, or the table of what they decode to.
pub open spec fn decode_entries<T: Wire>(o: JsonObject) -> Result<Table<T::Model>, DecodeErrorView>
    decreases o.len(),
{
    if o.len() == 0 {
        Ok(Seq::empty())
    } else {
        match decode_entries::<T>(o.drop_last()) {
            Err(e) => Err(e),
            Ok(front) => match T::decode_json(o.last().1) {
                Err(e) => Err(e),
                Ok(x) => Ok(front.push((o.last().0, x))),
            },
        }
    }
}

/// Where the first fields of an object fail to decode, the object fails in the
/// same way.
pub proof fn lemma_decode_entries_prefix_err<T: Wire>(o: JsonObject, n: int)
    requires
        0 <= n <= o.len(),
        decode_entries::<T>(o.take(n)) is Err,
    ensures
        decode_entries::<T>(o) == decode_entries::<T>(o.take(n)),
    decreases o.len(),
{
    if n < o.len() {
        assert(o.drop_last().take(n) =~= o.take(n));
        lemma_decode_entries_prefix_err::<T>(o.drop_last(), n);
    } else {
        assert(o.take(n) =~= o);
    }
}

/// Decoding the entries that were written gives the table back.
pub proof fn lemma_entries_round_trip<T: Wire>(m: Table<T::Model>)
    requires
        forall|i: int| 0 <= i < m.len() ==> T::wire_ok((#[trigger] m[i]).1),
    ensures
        decode_entries::<T>(encode_entries::<T>(m)) matches Ok(back) && back == m,
    decreases m.len(),
{
    let e = encode_entries::<T>(m);
    if m.len() > 0 {
        assert(e.drop_last() =~= encode_entries::<T>(m.drop_last()));
        assert forall|i: int| 0 <= i < m.drop_last().len() implies T::wire_ok(
            (#[trigger] m.drop_last()[i]).1,
        ) by {
            assert(m.drop_last()[i] == m[i]);
        }
        lemma_entries_round_trip::<T>(m.drop_last());
        assert(T::wire_ok(m[m.len() - 1].1));
        T::lemma_round_trip(m.last().1);
        assert(m.drop_last().push(m.last()) =~= m);
    } else {
        assert(m =~= Seq::empty());
    }
}

/// A table travels as an object, with its entries stored into the object one
/// after the other. A value that does not decode fails the whole table, with
/// its own failure.
impl<T: Wire> Wire for Dictionary<T> {
    type Model = Table<T::Model>;

    open spec fn model(&self) -> Table<T::Model> {
        self@
    }

    /// No name occurs twice, and every value comes back from the wire.
    open spec fn wire_ok(m: Table<T::Model>) -> bool {
        &&& distinct(m)
        &&& forall|i: int| 0 <= i < m.len() ==> T::wire_ok((#[trigger] m[i]).1)
    }

    open spec fn encode_json(m: Table<T::Model>) -> Json {
        Json::Object(extend(empty_object(), encode_entries::<T>(m)))
    }

    open spec fn decode_json(j: Json) -> Result<Table<T::Model>, DecodeErrorView> {
        match j {
            Json::Object(o) => decode_entries::<T>(o),
            _ => Err(DecodeErrorView::InvalidType),
        }
    }

    fn to_value(&self) -> (r: serde_json::Value) {
        let mut o = object_new();
        let mut i: usize = 0;
        let ghost written = encode_entries::<T>(self@);
        assert(written.take(0) =~= Seq::empty());
        while i < self.entries.len()
            invariant
                i <= self.entries.len(),
                written == encode_entries::<T>(self@),
                written.len() == self.entries.len(),
                object_model(o) == extend(empty_object(), written.take(i as int)),
            decreases self.entries.len() - i,
        {
            let name = self.entries[i].0.clone();
            let value = self.entries[i].1.to_value();
            object_insert(&mut o, name, value);
            proof {
                let next = written.take(i + 1);
                assert(next.drop_last() =~= written.take(i as int));
                assert(next.last() == written[i as int]);
            }
            i += 1;
        }
        assert(written.take(i as int) =~= written);
        value_object(o)
    }

    fn from_value(v: &serde_json::Value) -> (r: Result<Dictionary<T>, DecodeError>) {
        let o = match value_as_object(v) {
            Some(o) => o,
            None => {
                return Err(DecodeError::InvalidType);
            },
        };
        let keys = object_keys(o);
        let ghost om = object_model(*o);
        let mut entries: Vec<(String, T)> = Vec::new();
        let mut i: usize = 0;
        assert(distinct(om)) by {
            assert forall|a: int, b: int| 0 <= a < b < om.len() implies om[a].0 != om[b].0 by {
                assert(keys@[a]@ == om[a].0 && keys@[b]@ == om[b].0);
            }
        }
        assert(om.take(0) =~= Seq::empty());
        assert(entries_model::<T>(entries@) =~= Seq::empty());
        while i < keys.len()
            invariant
                i <= keys.len(),
                om == object_model(*o),
                json_model(*v) == Json::Object(om),
                keys@.len() == om.len(),
                forall|n: int| 0 <= n < keys@.len() ==> (#[trigger] keys@[n])@ == om[n].0,
                distinct(om),
                entries@.len() == i,
                forall|n: int| 0 <= n < i ==> (#[trigger] entries@[n]).0@ == om[n].0,
                decode_entries::<T>(om.take(i as int)) matches Ok(front) && front == entries_model::<T>(
                    entries@,
                ),
            decreases keys.len() - i,
        {
            proof {
                reveal(field);
                lemma_place_distinct(om, i as int);
                assert(keys@[i as int]@ == om[i as int].0);
                assert(om.take(i + 1).drop_last() =~= om.take(i as int));
                assert(om.take(i + 1).last() == om[i as int]);
            }
            match object_get(o, keys[i].as_str()) {
                None => {
                    return Err(DecodeError::InvalidType);
                },
                Some(x) => match T::from_value(x) {
                    Err(e) => {
                        proof {
                            assert(decode_entries::<T>(om.take(i + 1)) matches Err(f) && f == e@);
                            lemma_decode_entries_prefix_err::<T>(om, i + 1);
                        }
                        return Err(e);
                    },
                    Ok(y) => {
                        let ghost before = entries@;
                        entries.push((keys[i].clone(), y));
                        assert(forall|n: int| 0 <= n < i ==> entries@[n] == before[n]);
                        assert(entries_model::<T>(entries@) =~= entries_model::<T>(before).push(
                            (om[i as int].0, y.model()),
                        ));
                    },
                },
            }
            i += 1;
        }
        assert(om.take(i as int) =~= om);
        assert(names_differ(entries@)) by {
            assert forall|a: int, b: int| 0 <= a < b < entries@.len() implies entries@[a].0@
                != entries@[b].0@ by {
                assert(om[a].0 != om[b].0);
            }
        }
        Ok(Dictionary { entries })
    }

    proof fn lemma_round_trip(m: Table<T::Model>) {
        let written = encode_entries::<T>(m);
        assert(distinct(written)) by {
            assert forall|i: int, j: int| 0 <= i < j < written.len() implies written[i].0
                != written[j].0 by {
                assert(m[i].0 != m[j].0);
            }
        }
        assert forall|i: int| 0 <= i < written.len() implies lookup(
            empty_object(),
            (#[trigger] written[i]).0,
        ) is None by {}
        lemma_extend_fresh(empty_object(), written);
        assert(empty_object() + written =~= written);
        lemma_entries_round_trip::<T>(m);
    }
}

/// Writes a table unless it is empty.
pub fn put_entries<T: Wire>(
    o: &mut serde_json::Map<String, serde_json::Value>,
    key: &str,
    x: &Dictionary<T>,
)
    ensures
        object_model(*final(o)) == with_nondefault_field::<Dictionary<T>>(
            object_model(*old(o)),
            key@,
            x@,
            Seq::empty(),
        ),
{
    reveal(with_nondefault_field);
    if !x.is_empty() {
        object_insert(o, key.to_owned(), x.to_value());
    }
}

/// Reads a table that is empty where the field is absent.
pub fn get_entries<T: Wire>(o: &serde_json::Map<String, serde_json::Value>, key: &str) -> (r:
    Result<Dictionary<T>, DecodeError>)
    ensures
        match r {
            Ok(x) => default_field::<Dictionary<T>>(object_model(*o), key@, Seq::empty())
                matches Ok(m) && m == x@,
            Err(e) => default_field::<Dictionary<T>>(object_model(*o), key@, Seq::empty())
                matches Err(f) && f == e@,
        },
{
    reveal(default_field);
    match object_get(o, key) {
        Some(v) => Dictionary::<T>::from_value(v),
        None => Ok(Dictionary::new()),
    }
}

} // verus!
