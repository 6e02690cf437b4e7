use vstd::prelude::*;

use crate::error::Error;
use crate::json::JsonValue;
use crate::json::printable;

verus! {

/// The per-day request counter: a mapping from date-string key to the
/// number of requests made that day, held as a key/value list with at
/// most one entry per key. The persisted counter file is its flat JSON
/// form.
pub struct CounterStore {
    pub entries: Vec<(String, u64)>,
}

/// The mapping an entry list denotes; a later entry for a key overrides
/// an earlier one.
pub open spec fn map_of(s: Seq<(String, u64)>) -> Map<Seq<char>, u64>
    decreases s.len(),
{
    if s.len() == 0 {
        Map::empty()
    } else {
        map_of(s.drop_last()).insert(s.last().0@, s.last().1)
    }
}

/// Whether an entry list of string/document pairs holds only counts: a
/// non-negative integer under every key.
pub open spec fn entries_all_num(es: Seq<(String, JsonValue)>) -> bool {
    forall|i: int| 0 <= i < es.len() ==> (#[trigger] es[i]).1 is Num
}

/// The mapping an object's entry list denotes when read as a counter
/// store; a later entry for a key overrides an earlier one.
pub open spec fn doc_map_of(es: Seq<(String, JsonValue)>) -> Map<Seq<char>, u64>
    decreases es.len(),
{
    if es.len() == 0 {
        Map::empty()
    } else {
        doc_map_of(es.drop_last()).insert(es.last().0@, es.last().1->Num_0)
    }
}

/// The store a document loads to: an object all of whose values are
/// counts gives its mapping; an object holding anything else is a
/// malformed store, and any other document stands for no store at all
/// and gives the empty mapping.
pub open spec fn store_of_doc(d: JsonValue) -> Option<Map<Seq<char>, u64>> {
    match d {
        JsonValue::Obj(es) => if entries_all_num(es@) {
            Some(doc_map_of(es@))
        } else {
            None
        },
        _ => Some(Map::<Seq<char>, u64>::empty()),
    }
}

/// Whether a document is the flat JSON form of a store: an object with
/// the same keys in the same order, each count under its key.
pub open spec fn store_doc_for(s: CounterStore, d: JsonValue) -> bool {
    &&& d is Obj
    &&& d->Obj_0@.len() == s.entries@.len()
    &&& forall|i: int|
        0 <= i < s.entries@.len() ==> (#[trigger] d->Obj_0@[i]).0@ == s.entries@[i].0@
            && d->Obj_0@[i].1 == JsonValue::Num(s.entries@[i].1)
}

impl View for CounterStore {
    type V = Map<Seq<char>, u64>;

    open spec fn view(&self) -> Map<Seq<char>, u64> {
        map_of(self.entries@)
    }
}

proof fn lemma_map_of_entry(s: Seq<(String, u64)>, i: int)
    requires
        0 <= i < s.len(),
        forall|j: int, k: int| i <= j < k < s.len() ==> s[j].0@ != s[k].0@,
    ensures
        map_of(s).contains_key(s[i].0@),
        map_of(s)[s[i].0@] == s[i].1,
    decreases s.len(),
{
    if i == s.len() - 1 {
    } else {
        assert(s.drop_last()[i] == s[i]);
        lemma_map_of_entry(s.drop_last(), i);
    }
}

proof fn lemma_map_of_absent(s: Seq<(String, u64)>, key: Seq<char>)
    requires
        forall|i: int| 0 <= i < s.len() ==> (#[trigger] s[i]).0@ != key,
    ensures
        !map_of(s).contains_key(key),
    decreases s.len(),
{
    if s.len() > 0 {
        assert(forall|i: int|
            0 <= i < s.drop_last().len() ==> (#[trigger] s.drop_last()[i]).0@ != key);
        lemma_map_of_absent(s.drop_last(), key);
    }
}

proof fn lemma_map_of_update(s: Seq<(String, u64)>, i: int, e: (String, u64))
    requires
        0 <= i < s.len(),
        e.0@ == s[i].0@,
        forall|j: int, k: int| 0 <= j < k < s.len() ==> s[j].0@ != s[k].0@,
    ensures
        map_of(s.update(i, e)) =~= map_of(s).insert(e.0@, e.1),
    decreases s.len(),
{
    let t = s.update(i, e);
    if i == s.len() - 1 {
        assert(t.drop_last() =~= s.drop_last());
        assert(t.last() == e);
    } else {
        assert(t.drop_last() =~= s.drop_last().update(i, e));
        assert(t.last() == s.last());
        assert(s.drop_last()[i] == s[i]);
        lemma_map_of_update(s.drop_last(), i, e);
        assert(s[i].0@ != s.last().0@);
    }
}

impl CounterStore {
    /// At most one entry per key.
    pub open spec fn wf(&self) -> bool {
        forall|i: int, j: int|
            0 <= i < j < self.entries@.len() ==> (#[trigger] self.entries@[i]).0@ != (
            #[trigger] self.entries@[j]).0@
    }

    /// An empty store: no day has a recorded count.
    pub fn empty() -> (r: CounterStore)
        ensures
            r.wf(),
            r@ =~= Map::<Seq<char>, u64>::empty(),
            r.entries@.len() == 0,
    {
        CounterStore { entries: Vec::new() }
    }

    /// The recorded count for a day, if one is recorded.
    pub fn get(&self, key: &String) -> (r: Option<u64>)
        requires
            self.wf(),
        ensures
            match r {
                Some(v) => self@.contains_key(key@) && self@[key@] == v,
                None => !self@.contains_key(key@),
            },
    {
        let mut i: usize = 0;
        while i < self.entries.len()
            invariant
                i <= self.entries@.len(),
                self.wf(),
                forall|j: int| 0 <= j < i ==> (#[trigger] self.entries@[j]).0@ != key@,
            decreases self.entries@.len() - i,
        {
            let e = &self.entries[i];
            if e.0 == *key {
                proof {
                    lemma_map_of_entry(self.entries@, i as int);
                }
                return Some(e.1);
            }
            i = i + 1;
        }
        proof {
            lemma_map_of_absent(self.entries@, key@);
        }
        None
    }

    /// Records a day's count, replacing any earlier count for that day
    /// and leaving every other day's count as it was.
    #[verifier::loop_isolation(false)]
    pub fn set(&mut self, key: String, value: u64)
        requires
            old(self).wf(),
        ensures
            final(self).wf(),
            final(self)@ =~= old(self)@.insert(key@, value),
    {
        let ghost s0 = self.entries@;
        let mut i: usize = 0;
        while i < self.entries.len()
            invariant
                i <= self.entries@.len(),
                self.entries@ == s0,
                self.wf(),
                forall|j: int| 0 <= j < i ==> (#[trigger] self.entries@[j]).0@ != key@,
            decreases self.entries@.len() - i,
        {
            if self.entries[i].0 == key {
                proof {
                    assert(s0[i as int].0@ == key@);
                }
                self.entries[i] = (key, value);
                proof {
                    let e = self.entries@[i as int];
                    lemma_map_of_update(s0, i as int, e);
                    assert forall|p: int, q: int|
                        0 <= p < q < self.entries@.len() implies (#[trigger] self.entries@[p]).0@
                        != (#[trigger] self.entries@[q]).0@ by {
                        assert(s0[p].0@ != s0[q].0@);
                    }
                }
                return ;
            }
            i = i + 1;
        }
        proof {
            lemma_map_of_absent(s0, key@);
            assert(s0.push((key, value)).drop_last() =~= s0);
        }
        self.entries.push((key, value));
    }

    /// Reads a store back from a parsed document, as `store_of_doc`
    /// says: a malformed store is rejected whole.
    #[verifier::loop_isolation(false)]
    pub fn from_doc(doc: &JsonValue) -> (r: Result<CounterStore, Error>)
        ensures
            match r {
                Ok(s) => s.wf() && store_of_doc(*doc) == Some(s@),
                Err(e) => e is ParseError && store_of_doc(*doc) is None,
            },
    {
        match doc {
            JsonValue::Obj(es) => {
                let mut s = CounterStore::empty();
                let mut i: usize = 0;
                while i < es.len()
                    invariant
                        i <= es@.len(),
                        s.wf(),
                        entries_all_num(es@.take(i as int)),
                        s@ =~= doc_map_of(es@.take(i as int)),
                    decreases es@.len() - i,
                {
                    let e = &es[i];
                    match &e.1 {
                        JsonValue::Num(u) => {
                            proof {
                                assert(es@.take(i as int + 1).drop_last() =~= es@.take(i as int));
                                assert(es@.take(i as int + 1).last() == es@[i as int]);
                            }
                            s.set(e.0.clone(), *u);
                        },
                        _ => {
                            proof {
                                assert(!(es@[i as int].1 is Num));
                                assert(!entries_all_num(es@));
                            }
                            return Err(Error::ParseError);
                        },
                    }
                    i = i + 1;
                }
                proof {
                    assert(es@.take(es@.len() as int) =~= es@);
                }
                Ok(s)
            },
            _ => Ok(CounterStore::empty()),
        }
    }

    /// Writes the store out as a document: its flat JSON form.
    pub fn to_doc(&self) -> (r: JsonValue)
        ensures
            store_doc_for(*self, r),
            printable(r),
    {
        let mut es: Vec<(String, JsonValue)> = Vec::new();
        let mut i: usize = 0;
        while i < self.entries.len()
            invariant
                i <= self.entries@.len(),
                es@.len() == i,
                forall|j: int|
                    0 <= j < i ==> (#[trigger] es@[j]).0@ == self.entries@[j].0@ && es@[j].1
                        == JsonValue::Num(self.entries@[j].1),
            decreases self.entries@.len() - i,
        {
            let e = &self.entries[i];
            es.push((e.0.clone(), JsonValue::Num(e.1)));
            i = i + 1;
        }
        proof {
            assert forall|j: int| 0 <= j < es@.len() implies printable(#[trigger] es@[j].1) by {
                assert(es@[j].1 == JsonValue::Num(self.entries@[j].1));
            }
        }
        JsonValue::Obj(es)
    }
}

/// A document in a store's flat JSON form loads back to exactly that
/// store's mapping: persisting and reloading round-trips, same keys and
/// same counts.
pub proof fn lemma_store_doc_round_trip(s: CounterStore, d: JsonValue)
    requires
        store_doc_for(s, d),
    ensures
        store_of_doc(d) == Some(s@),
{
    lemma_doc_map_eq(s.entries@, d->Obj_0@);
}

proof fn lemma_doc_map_eq(entries: Seq<(String, u64)>, es: Seq<(String, JsonValue)>)
    requires
        es.len() == entries.len(),
        forall|i: int|
            0 <= i < entries.len() ==> (#[trigger] es[i]).0@ == entries[i].0@ && es[i].1
                == JsonValue::Num(entries[i].1),
    ensures
        entries_all_num(es),
        doc_map_of(es) == map_of(entries),
    decreases es.len(),
{
    if es.len() > 0 {
        assert(forall|i: int|
            0 <= i < entries.drop_last().len() ==> (#[trigger] es.drop_last()[i]) == es[i]
                && entries.drop_last()[i] == entries[i]);
        lemma_doc_map_eq(entries.drop_last(), es.drop_last());
    }
}

} // verus!
