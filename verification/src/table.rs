use vstd::prelude::*;

verus! {

/// A table from names to values, as a list of entries in the order in which
/// they stand. Where a name occurs more than once, its last entry counts.
pub type Table<V> = Seq<(Seq<char>, V)>;

/// The place of the last entry of the name, or -1 where there is none.
pub open spec fn place<V>(t: Table<V>, name: Seq<char>) -> int
    decreases t.len(),
{
    if t.len() == 0 {
        -1
    } else if t.last().0 == name {
        t.len() - 1
    } else {
        place(t.drop_last(), name)
    }
}

/// The value under the name, if the table has an entry of that name.
pub open spec fn lookup<V>(t: Table<V>, name: Seq<char>) -> Option<V> {
    let i = place(t, name);
    if i >= 0 {
        Some(t[i].1)
    } else {
        None
    }
}

/// The table with the value under the name: in the place of the entry of that
/// name where there is one, and at the end otherwise.
pub open spec fn store<V>(t: Table<V>, name: Seq<char>, value: V) -> Table<V> {
    let i = place(t, name);
    if i >= 0 {
        t.update(i, (name, value))
    } else {
        t.push((name, value))
    }
}

/// The table without the entries of the name; the others keep their order.
pub open spec fn discard<V>(t: Table<V>, name: Seq<char>) -> Table<V>
    decreases t.len(),
{
    if t.len() == 0 {
        t
    } else if t.last().0 == name {
        discard(t.drop_last(), name)
    } else {
        discard(t.drop_last(), name).push(t.last())
    }
}

/// The table `a` with the entries of `b` stored in it one after the other.
pub open spec fn extend<V>(a: Table<V>, b: Table<V>) -> Table<V>
    decreases b.len(),
{
    if b.len() == 0 {
        a
    } else {
        store(extend(a, b.drop_last()), b.last().0, b.last().1)
    }
}

/// No name occurs twice.
pub open spec fn distinct<V>(t: Table<V>) -> bool {
    forall|i: int, j: int| 0 <= i < j < t.len() ==> t[i].0 != t[j].0
}

/// Every name of the table is one of the two.
pub open spec fn names_among<V>(t: Table<V>, a: Seq<char>, b: Seq<char>) -> bool {
    forall|i: int| 0 <= i < t.len() ==> (#[trigger] t[i]).0 == a || t[i].0 == b
}

/// The place of a name is the place of its last entry.
pub proof fn lemma_place<V>(t: Table<V>, name: Seq<char>)
    ensures
        -1 <= place(t, name) < t.len(),
        place(t, name) >= 0 ==> t[place(t, name)].0 == name,
        forall|j: int| place(t, name) < j < t.len() ==> (#[trigger] t[j]).0 != name,
    decreases t.len(),
{
    if t.len() > 0 && t.last().0 != name {
        lemma_place(t.drop_last(), name);
        assert forall|j: int| place(t, name) < j < t.len() implies (#[trigger] t[j]).0 != name by {
            if j < t.len() - 1 {
                assert(t.drop_last()[j] == t[j]);
            }
        }
    }
}

/// Where no name occurs twice, the place of the name of an entry is the place
/// of the entry.
pub proof fn lemma_place_distinct<V>(t: Table<V>, i: int)
    requires
        distinct(t),
        0 <= i < t.len(),
    ensures
        place(t, t[i].0) == i,
{
    lemma_place(t, t[i].0);
}

/// The place of a name depends on the names alone.
pub proof fn lemma_place_by_names<V>(s: Table<V>, t: Table<V>, name: Seq<char>)
    requires
        s.len() == t.len(),
        forall|i: int| 0 <= i < s.len() ==> (#[trigger] s[i]).0 == t[i].0,
    ensures
        place(s, name) == place(t, name),
    decreases s.len(),
{
    if s.len() > 0 {
        assert(s.last().0 == t.last().0);
        if s.last().0 != name {
            assert forall|i: int| 0 <= i < s.drop_last().len() implies (#[trigger] s.drop_last()[i]).0
                == t.drop_last()[i].0 by {
                assert(s[i].0 == t[i].0);
            }
            lemma_place_by_names(s.drop_last(), t.drop_last(), name);
        }
    }
}

/// A name reads as what was last stored under it.
pub proof fn lemma_lookup_store_same<V>(t: Table<V>, name: Seq<char>, value: V)
    ensures
        lookup(store(t, name, value), name) == Some(value),
{
    lemma_place(t, name);
    let i = place(t, name);
    if i >= 0 {
        let s = t.update(i, (name, value));
        assert forall|k: int| 0 <= k < s.len() implies (#[trigger] s[k]).0 == t[k].0 by {}
        lemma_place_by_names(s, t, name);
    }
}

/// Storing under one name leaves the other names as they were.
pub proof fn lemma_lookup_store_other<V>(t: Table<V>, stored: Seq<char>, value: V, name: Seq<char>)
    requires
        name != stored,
    ensures
        lookup(store(t, stored, value), name) == lookup(t, name),
{
    lemma_place(t, stored);
    lemma_place(t, name);
    let i = place(t, stored);
    if i >= 0 {
        let s = t.update(i, (stored, value));
        assert forall|k: int| 0 <= k < s.len() implies (#[trigger] s[k]).0 == t[k].0 by {}
        lemma_place_by_names(s, t, name);
    } else {
        assert(t.push((stored, value)).drop_last() =~= t);
    }
}

/// A name other than that of the last entry reads as in the table without the
/// last entry.
pub proof fn lemma_lookup_front<V>(t: Table<V>, name: Seq<char>)
    requires
        t.len() > 0,
        t.last().0 != name,
    ensures
        lookup(t, name) == lookup(t.drop_last(), name),
{
    lemma_place(t.drop_last(), name);
    let i = place(t.drop_last(), name);
    if i >= 0 {
        assert(t.drop_last()[i] == t[i]);
    }
}

/// A name that was discarded is absent, and the others read as before.
pub proof fn lemma_lookup_discard<V>(t: Table<V>, discarded: Seq<char>, name: Seq<char>)
    ensures
        lookup(discard(t, discarded), name) == if name == discarded {
            None
        } else {
            lookup(t, name)
        },
    decreases t.len(),
{
    if t.len() > 0 {
        let front = t.drop_last();
        lemma_lookup_discard(front, discarded, name);
        if t.last().0 == discarded {
            if name != discarded {
                lemma_lookup_front(t, name);
            }
        } else {
            let d = discard(front, discarded);
            let e = d.push(t.last());
            assert(e.drop_last() =~= d);
            assert(e.last() == t.last());
            if t.last().0 == name {
                assert(lookup(e, name) == Some(t.last().1));
                assert(lookup(t, name) == Some(t.last().1));
            } else {
                lemma_lookup_front(e, name);
                lemma_lookup_front(t, name);
            }
        }
    }
}

/// A name reads in an extended table as in the table that was stored into it
/// where that has the name, and as before otherwise.
pub proof fn lemma_lookup_extend<V>(a: Table<V>, b: Table<V>, name: Seq<char>)
    ensures
        lookup(extend(a, b), name) == if lookup(b, name) is Some {
            lookup(b, name)
        } else {
            lookup(a, name)
        },
    decreases b.len(),
{
    if b.len() > 0 {
        let front = b.drop_last();
        lemma_lookup_extend(a, front, name);
        if b.last().0 == name {
            lemma_lookup_store_same(extend(a, front), name, b.last().1);
            assert(lookup(b, name) == Some(b.last().1));
        } else {
            lemma_lookup_store_other(extend(a, front), b.last().0, b.last().1, name);
            lemma_lookup_front(b, name);
        }
    }
}

/// Storing entries of fresh, distinct names puts them at the end, in their
/// order.
pub proof fn lemma_extend_fresh<V>(a: Table<V>, b: Table<V>)
    requires
        distinct(b),
        forall|i: int| 0 <= i < b.len() ==> lookup(a, (#[trigger] b[i]).0) is None,
    ensures
        extend(a, b) == a + b,
    decreases b.len(),
{
    if b.len() == 0 {
        assert(a + b =~= a);
    } else {
        let front = b.drop_last();
        assert forall|i: int| 0 <= i < front.len() implies lookup(a, (#[trigger] front[i]).0)
            is None by {
            assert(front[i] == b[i]);
        }
        assert(distinct(front)) by {
            assert forall|i: int, j: int| 0 <= i < j < front.len() implies front[i].0
                != front[j].0 by {
                assert(front[i] == b[i] && front[j] == b[j]);
            }
        }
        lemma_extend_fresh(a, front);
        let name = b.last().0;
        lemma_lookup_extend(a, front, name);
        assert(lookup(front, name) is None) by {
            lemma_place(front, name);
            if place(front, name) >= 0 {
                let i = place(front, name);
                assert(front[i] == b[i]);
                assert(b[i].0 != b[b.len() - 1].0);
            }
        }
        assert(lookup(a, b[b.len() - 1].0) is None);
        assert((a + front).push(b.last()) =~= a + b);
    }
}

/// Discarding a name that is absent changes nothing.
pub proof fn lemma_discard_absent<V>(t: Table<V>, name: Seq<char>)
    requires
        lookup(t, name) is None,
    ensures
        discard(t, name) == t,
    decreases t.len(),
{
    lemma_place(t, name);
    if t.len() > 0 {
        assert(t.last().0 != name);
        lemma_place(t.drop_last(), name);
        lemma_discard_absent(t.drop_last(), name);
        assert(t.drop_last().push(t.last()) =~= t);
    }
}

/// Discarding goes through both parts of a table.
pub proof fn lemma_discard_concat<V>(a: Table<V>, b: Table<V>, name: Seq<char>)
    ensures
        discard(a + b, name) == discard(a, name) + discard(b, name),
    decreases b.len(),
{
    if b.len() == 0 {
        assert(a + b =~= a);
        assert(discard(a, name) + discard(b, name) =~= discard(a, name));
    } else {
        assert((a + b).drop_last() =~= a + b.drop_last());
        assert((a + b).last() == b.last());
        lemma_discard_concat(a, b.drop_last(), name);
        if b.last().0 != name {
            assert((discard(a, name) + discard(b.drop_last(), name)).push(b.last()) =~= discard(
                a,
                name,
            ) + discard(b.drop_last(), name).push(b.last()));
        }
    }
}

/// Where every name is one of two, discarding the two leaves nothing.
pub proof fn lemma_discard_both<V>(t: Table<V>, a: Seq<char>, b: Seq<char>)
    requires
        names_among(t, a, b),
    ensures
        discard(discard(t, a), b) == Seq::<(Seq<char>, V)>::empty(),
    decreases t.len(),
{
    if t.len() > 0 {
        assert forall|i: int| 0 <= i < t.drop_last().len() implies (#[trigger] t.drop_last()[i]).0
            == a || t.drop_last()[i].0 == b by {
            assert(t.drop_last()[i] == t[i]);
        }
        lemma_discard_both(t.drop_last(), a, b);
        assert(t[t.len() - 1].0 == a || t[t.len() - 1].0 == b);
        if t.last().0 != a {
            let d = discard(t.drop_last(), a);
            assert(d.push(t.last()).drop_last() =~= d);
        }
    }
}

/// The names after a store are those before it and the stored one.
pub proof fn lemma_store_names<V>(t: Table<V>, name: Seq<char>, value: V, a: Seq<char>, b: Seq<char>)
    requires
        names_among(t, a, b),
        name == a || name == b,
    ensures
        names_among(store(t, name, value), a, b),
{
    lemma_place(t, name);
    let s = store(t, name, value);
    assert forall|i: int| 0 <= i < s.len() implies (#[trigger] s[i]).0 == a || s[i].0 == b by {
        if i < t.len() {
            assert(t[i].0 == a || t[i].0 == b);
        }
    }
}

/// Storing under one name and discarding another can be done in either
/// order.
pub proof fn lemma_store_discard<V>(t: Table<V>, stored: Seq<char>, value: V, name: Seq<char>)
    requires
        name != stored,
    ensures
        discard(store(t, stored, value), name) == store(discard(t, name), stored, value),
    decreases t.len(),
{
    lemma_place(t, stored);
    lemma_lookup_discard(t, name, stored);
    lemma_place(discard(t, name), stored);
    if place(t, stored) < 0 {
        // stored at the end on both sides
        assert(t.push((stored, value)).drop_last() =~= t);
    } else {
        // replaced in place: go by the last entry
        let last = t.last();
        let front = t.drop_last();
        if last.0 == stored {
            assert(place(t, stored) == t.len() - 1);
            let s = t.update(t.len() - 1, (stored, value));
            assert(s.drop_last() =~= front);
            assert(s.last() == (stored, value));
            let d = discard(front, name);
            assert(discard(t, name) == d.push(last));
            assert(d.push(last).last().0 == stored);
            assert(place(d.push(last), stored) == d.len());
            assert(d.push(last).update(d.len() as int, (stored, value)) =~= d.push(
                (stored, value),
            ));
        } else {
            lemma_place(front, stored);
            assert(place(front, stored) == place(t, stored));
            let i = place(t, stored);
            let s = t.update(i, (stored, value));
            assert(s.drop_last() =~= front.update(i, (stored, value)));
            assert(s.last() == last);
            lemma_store_discard(front, stored, value, name);
            let d = discard(front, name);
            lemma_place(d, stored);
            lemma_lookup_discard(front, name, stored);
            if last.0 == name {
            } else {
                assert(place(d.push(last), stored) == place(d, stored)) by {
                    assert(d.push(last).drop_last() =~= d);
                }
                assert(d.update(place(d, stored), (stored, value)).push(last) =~= d.push(
                    last,
                ).update(place(d, stored), (stored, value)));
            }
        }
    }
}

/// Storing keeps every entry in its place and under its name; only the value
/// of the entry of the stored name changes.
pub proof fn lemma_store_keeps_places<V>(t: Table<V>, name: Seq<char>, value: V)
    ensures
        store(t, name, value).len() >= t.len(),
        forall|i: int| 0 <= i < t.len() ==> (#[trigger] store(t, name, value)[i]).0 == t[i].0,
        forall|i: int|
            0 <= i < t.len() && t[i].0 != name ==> #[trigger] store(t, name, value)[i] == t[i],
{
    lemma_place(t, name);
}

/// Extending keeps every entry of the table that is extended in its place and
/// under its name; only the values of the names that are stored change.
pub proof fn lemma_extend_keeps_places<V>(a: Table<V>, b: Table<V>)
    ensures
        extend(a, b).len() >= a.len(),
        forall|i: int| 0 <= i < a.len() ==> (#[trigger] extend(a, b)[i]).0 == a[i].0,
        forall|i: int|
            0 <= i < a.len() && lookup(b, a[i].0) is None ==> #[trigger] extend(a, b)[i] == a[i],
    decreases b.len(),
{
    if b.len() > 0 {
        let front = b.drop_last();
        let e = extend(a, front);
        lemma_extend_keeps_places(a, front);
        lemma_store_keeps_places(e, b.last().0, b.last().1);
        assert forall|i: int| 0 <= i < a.len() && lookup(b, a[i].0) is None implies #[trigger] extend(
            a,
            b,
        )[i] == a[i] by {
            assert(e[i].0 == a[i].0);
            if a[i].0 == b.last().0 {
                assert(lookup(b, a[i].0) == Some(b.last().1));
            } else {
                lemma_lookup_front(b, a[i].0);
            }
        }
        assert forall|i: int| 0 <= i < a.len() implies (#[trigger] extend(a, b)[i]).0
            == a[i].0 by {
            assert(e[i].0 == a[i].0);
        }
    }
}

} // verus!
