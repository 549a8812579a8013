//! Maps with text keys, kept in ascending key order.
use crate::text::{
    before, is_before, lemma_before_irreflexive, lemma_before_total, lemma_before_transitive,
};
use crate::value::{push_item, Value};
use vstd::prelude::*;

verus! {

/// Whether the keys of the entries are strictly ascending.
pub open spec fn ascending<V>(entries: Seq<(Seq<char>, V)>) -> bool {
    forall|i: int, j: int|
        0 <= i < j < entries.len() ==> before(#[trigger] entries[i].0, #[trigger] entries[j].0)
}

/// The map that holds exactly the given entries; of entries with the same key the last one counts.
pub open spec fn entries_map<V>(entries: Seq<(Seq<char>, V)>) -> Map<Seq<char>, V>
    decreases entries.len(),
{
    if entries.len() == 0 {
        Map::empty()
    } else {
        entries_map(entries.drop_last()).insert(entries.last().0, entries.last().1)
    }
}

/// The entries of a map in ascending key order.
pub open spec fn listing<V>(map: Map<Seq<char>, V>) -> Seq<(Seq<char>, V)> {
    choose|entries: Seq<(Seq<char>, V)>| ascending(entries) && #[trigger] entries_map(entries) == map
}

/// A map from text to values. Its entries are listed in ascending key order.
#[derive(Debug, PartialEq, Eq)]
pub struct TextMap<T: Value> {
    entries: Vec<(String, T)>,
}

/// A map from text to text.
pub type StringMap = TextMap<String>;

impl<T: Value> TextMap<T> {
    #[verifier::type_invariant]
    spec fn well_formed(self) -> bool {
        ascending(self.entries.deep_view())
    }

    /// The map's contents.
    pub closed spec fn contents(self) -> Map<Seq<char>, T::V> {
        entries_map(self.entries.deep_view())
    }
}

impl<T: Value> View for TextMap<T> {
    type V = Map<Seq<char>, T::V>;

    open spec fn view(&self) -> Map<Seq<char>, T::V> {
        self.contents()
    }
}

impl<T: Value> DeepView for TextMap<T> {
    type V = Map<Seq<char>, T::V>;

    open spec fn deep_view(&self) -> Map<Seq<char>, T::V> {
        self.contents()
    }
}

/// Every entry of an ascending list is found in its map under its key.
proof fn lemma_entry_in_map<V>(entries: Seq<(Seq<char>, V)>, i: int)
    requires
        ascending(entries),
        0 <= i < entries.len(),
    ensures
        entries_map(entries).contains_key(entries[i].0),
        entries_map(entries)[entries[i].0] == entries[i].1,
    decreases entries.len(),
{
    if i < entries.len() - 1 {
        lemma_entry_in_map(entries.drop_last(), i);
        lemma_before_irreflexive(entries.last().0);
        assert(before(entries[i].0, entries[entries.len() - 1].0));
    }
}

/// Every key of the map comes from an entry.
proof fn lemma_key_has_entry<V>(entries: Seq<(Seq<char>, V)>, key: Seq<char>) -> (i: int)
    requires
        entries_map(entries).contains_key(key),
    ensures
        0 <= i < entries.len(),
        entries[i].0 == key,
    decreases entries.len(),
{
    if entries.last().0 == key {
        entries.len() - 1
    } else {
        lemma_key_has_entry(entries.drop_last(), key)
    }
}

/// An ascending list of entries is determined by its map.
proof fn lemma_listing_unique<V>(a: Seq<(Seq<char>, V)>, b: Seq<(Seq<char>, V)>)
    requires
        ascending(a),
        ascending(b),
        entries_map(a) == entries_map(b),
    ensures
        a == b,
    decreases a.len(),
{
    if a.len() == 0 {
        if b.len() > 0 {
            lemma_entry_in_map(b, 0);
        }
        assert(a =~= b);
    } else {
        lemma_entry_in_map(a, a.len() - 1);
        let i = lemma_key_has_entry(b, a.last().0);
        lemma_entry_in_map(b, b.len() - 1);
        let j = lemma_key_has_entry(a, b.last().0);
        if i != b.len() - 1 {
            assert(before(b[i].0, b[b.len() - 1].0));
            lemma_before_irreflexive(a.last().0);
            if j != a.len() - 1 {
                assert(before(a[j].0, a[a.len() - 1].0));
                lemma_before_transitive(a.last().0, b.last().0, a.last().0);
            }
            assert(false);
        }
        let key = a.last().0;
        assert(!entries_map(a.drop_last()).contains_key(key)) by {
            if entries_map(a.drop_last()).contains_key(key) {
                let k = lemma_key_has_entry(a.drop_last(), key);
                assert(before(a[k].0, a[a.len() - 1].0));
                lemma_before_irreflexive(key);
            }
        }
        assert(!entries_map(b.drop_last()).contains_key(key)) by {
            if entries_map(b.drop_last()).contains_key(key) {
                let k = lemma_key_has_entry(b.drop_last(), key);
                assert(before(b[k].0, b[b.len() - 1].0));
                lemma_before_irreflexive(key);
            }
        }
        assert(entries_map(a.drop_last()) =~= entries_map(a).remove(key));
        assert(entries_map(b.drop_last()) =~= entries_map(b).remove(key));
        lemma_listing_unique(a.drop_last(), b.drop_last());
        assert(a =~= a.drop_last().push(a.last()));
        assert(b =~= b.drop_last().push(b.last()));
    }
}

/// The listing of a map is the only ascending list of its entries.
pub proof fn lemma_listing<V>(entries: Seq<(Seq<char>, V)>)
    requires
        ascending(entries),
    ensures
        listing(entries_map(entries)) == entries,
{
    lemma_listing_unique(listing(entries_map(entries)), entries);
}

/// Inserting between the smaller and the greater keys of an ascending list gives the ascending
/// list of the extended map.
proof fn lemma_insert_between<V>(
    entries: Seq<(Seq<char>, V)>,
    low: Seq<(Seq<char>, V)>,
    high: Seq<(Seq<char>, V)>,
    key: Seq<char>,
    value: V,
)
    requires
        ascending(entries),
        entries == low + high || (exists|old_value: V|
            entries == #[trigger] low.push((key, old_value)) + high),
        forall|i: int| 0 <= i < low.len() ==> before(#[trigger] low[i].0, key),
        forall|i: int| 0 <= i < high.len() ==> before(key, #[trigger] high[i].0),
    ensures
        ascending(low.push((key, value)) + high),
        entries_map(low.push((key, value)) + high) == entries_map(entries).insert(key, value),
{
    let result = low.push((key, value)) + high;
    let shift: int = if entries == low + high {
        0
    } else {
        1
    };
    assert forall|i: int| 0 <= i < low.len() implies #[trigger] low[i] == entries[i] by {}
    assert forall|i: int| 0 <= i < high.len() implies #[trigger] high[i] == entries[low.len()
        + shift + i] by {}
    assert forall|i: int, j: int| 0 <= i < j < result.len() implies before(
        #[trigger] result[i].0,
        #[trigger] result[j].0,
    ) by {
        if i < low.len() {
            assert(result[i] == low[i] && low[i] == entries[i]);
            if j < low.len() {
                assert(result[j] == low[j] && low[j] == entries[j]);
            } else if j > low.len() {
                let k = j - low.len() - 1;
                assert(result[j] == high[k] && high[k] == entries[low.len() + shift + k]);
            }
        } else {
            let k = j - low.len() - 1;
            assert(result[j] == high[k] && high[k] == entries[low.len() + shift + k]);
            if i > low.len() {
                let l = i - low.len() - 1;
                assert(result[i] == high[l] && high[l] == entries[low.len() + shift + l]);
            }
        }
    }
    let left = entries_map(result);
    let right = entries_map(entries).insert(key, value);
    assert forall|k: Seq<char>| #[trigger] left.contains_key(k) == right.contains_key(k) && (
    left.contains_key(k) ==> left[k] == right[k]) by {
        if left.contains_key(k) {
            let i = lemma_key_has_entry(result, k);
            lemma_entry_in_map(result, i);
            if i != low.len() {
                let at: int = if i < low.len() {
                    i
                } else {
                    i - 1 + shift
                };
                if i < low.len() {
                    assert(result[i] == low[i]);
                } else {
                    assert(result[i] == high[i - low.len() - 1]);
                }
                assert(result[i] == entries[at]);
                lemma_entry_in_map(entries, at);
                lemma_before_irreflexive(key);
                assert(k != key);
            }
        }
        if right.contains_key(k) && k != key {
            let i = lemma_key_has_entry(entries, k);
            assert(shift == 1 ==> entries[low.len() as int].0 == key);
            let at: int = if i < low.len() {
                i
            } else {
                i + 1 - shift
            };
            assert(result[at] == entries[i]);
            lemma_entry_in_map(result, at);
        }
        if k == key {
            assert(result[low.len() as int] == (key, value));
            lemma_entry_in_map(result, low.len() as int);
        }
    }
    assert(left =~= right);
}

/// The place of a further key in an ascending list.
proof fn lemma_place<V>(entries: Seq<(Seq<char>, V)>, key: Seq<char>) -> (n: int)
    requires
        ascending(entries),
        !entries_map(entries).contains_key(key),
    ensures
        0 <= n <= entries.len(),
        forall|i: int| 0 <= i < n ==> before(#[trigger] entries[i].0, key),
        forall|i: int| n <= i < entries.len() ==> before(key, #[trigger] entries[i].0),
    decreases entries.len(),
{
    if entries.len() == 0 {
        0
    } else {
        let last = entries.len() - 1;
        lemma_before_total(entries[last].0, key);
        if before(entries[last].0, key) {
            assert forall|i: int| 0 <= i < entries.len() implies before(
                #[trigger] entries[i].0,
                key,
            ) by {
                if i < last {
                    lemma_before_transitive(entries[i].0, entries[last].0, key);
                }
            }
            entries.len() as int
        } else {
            let rest = entries.drop_last();
            let n = lemma_place(rest, key);
            assert forall|i: int| 0 <= i < n implies before(#[trigger] entries[i].0, key) by {
                assert(rest[i] == entries[i]);
            }
            assert forall|i: int| n <= i < entries.len() implies before(
                key,
                #[trigger] entries[i].0,
            ) by {
                if i < last {
                    assert(rest[i] == entries[i]);
                }
            }
            n
        }
    }
}

/// The listing of a finite map holds its entries, and its keys are strictly ascending.
pub proof fn lemma_listing_of_finite_map<V>(map: Map<Seq<char>, V>)
    requires
        map.dom().finite(),
    ensures
        ascending(listing(map)),
        entries_map(listing(map)) == map,
    decreases map.dom().len(),
{
    if map.dom().len() == 0 {
        let entries = Seq::<(Seq<char>, V)>::empty();
        assert(map =~= Map::empty());
        assert(ascending(entries) && entries_map(entries) == map);
    } else {
        let key = map.dom().choose();
        let rest = map.remove(key);
        lemma_listing_of_finite_map(rest);
        let entries = listing(rest);
        let n = lemma_place(entries, key);
        let low = entries.take(n);
        let high = entries.skip(n);
        assert(entries =~= low + high);
        lemma_insert_between(entries, low, high, key, map[key]);
        assert(rest.insert(key, map[key]) =~= map);
        let extended = low.push((key, map[key])) + high;
        assert(ascending(extended) && entries_map(extended) == map);
    }
}

impl<T: Value> TextMap<T> {
    /// An empty map.
    pub fn new() -> (map: TextMap<T>)
        ensures
            map@ == Map::<Seq<char>, T::V>::empty(),
    {
        let entries: Vec<(String, T)> = Vec::new();
        let map = TextMap { entries };
        assert(map@ =~= Map::<Seq<char>, T::V>::empty());
        map
    }

    /// The value stored under `key`.
    pub fn get(&self, key: &str) -> (value: Option<&T>)
        ensures
            match value {
                Some(value) => self@.contains_key(key@) && value.deep_view() == self@[key@],
                None => !self@.contains_key(key@),
            },
    {
        proof {
            use_type_invariant(self);
        }
        let ghost listed = self.entries.deep_view();
        let wanted = key.to_owned();
        let mut i: usize = 0;
        while i < self.entries.len()
            invariant
                i <= self.entries.len(),
                wanted@ == key@,
                listed == self.entries.deep_view(),
                ascending(listed),
                forall|j: int| 0 <= j < i ==> #[trigger] listed[j].0 != key@,
            decreases self.entries.len() - i,
        {
            if self.entries[i].0 == wanted {
                proof {
                    lemma_entry_in_map(listed, i as int);
                }
                return Some(&self.entries[i].1);
            }
            i += 1;
        }
        proof {
            if self@.contains_key(key@) {
                let j = lemma_key_has_entry(listed, key@);
            }
        }
        None
    }

    /// Whether a value is stored under `key`.
    pub fn contains_key(&self, key: &str) -> (found: bool)
        ensures
            found == self@.contains_key(key@),
    {
        self.get(key).is_some()
    }

    /// Stores `value` under `key`, in place of what was stored there before.
    pub fn insert(&mut self, key: String, value: T)
        ensures
            final(self)@ == old(self)@.insert(key@, value.deep_view()),
    {
        proof {
            use_type_invariant(&*self);
        }
        let ghost listed = self.entries.deep_view();
        let mut entries: Vec<(String, T)> = Vec::new();
        let mut i: usize = 0;
        while i < self.entries.len() && is_before(self.entries[i].0.as_str(), key.as_str())
            invariant
                i <= self.entries.len(),
                listed == self.entries.deep_view(),
                entries.deep_view() == listed.take(i as int),
                forall|j: int| 0 <= j < i ==> before(#[trigger] listed[j].0, key@),
            decreases self.entries.len() - i,
        {
            push_item(&mut entries, self.entries[i].duplicate());
            i += 1;
            assert(listed.take(i as int) =~= listed.take(i - 1).push(listed[i - 1]));
        }
        let ghost low = listed.take(i as int);
        let ghost new_value = value.deep_view();
        let ghost new_key = key@;
        let replaced = i < self.entries.len() && self.entries[i].0 == key;
        let start: usize = if replaced {
            i + 1
        } else {
            i
        };
        push_item(&mut entries, (key, value));
        let ghost high = listed.skip(start as int);
        proof {
            assert(ascending(listed));
            if replaced {
                assert(listed[i as int].0 == new_key);
                assert(listed =~= low.push((new_key, listed[i as int].1)) + high);
            } else {
                assert(listed =~= low + high);
            }
            assert forall|j: int| 0 <= j < low.len() implies before(#[trigger] low[j].0, new_key) by {
                assert(low[j] == listed[j]);
            }
            assert forall|j: int| 0 <= j < high.len() implies before(
                new_key,
                #[trigger] high[j].0,
            ) by {
                assert(high[j] == listed[start + j]);
                if replaced {
                    assert(before(listed[i as int].0, listed[start + j].0));
                } else {
                    lemma_before_total(listed[i as int].0, new_key);
                    if j > 0 {
                        assert(before(listed[i as int].0, listed[start + j].0));
                        lemma_before_transitive(new_key, listed[i as int].0, listed[start + j].0);
                    }
                }
            }
            lemma_insert_between(listed, low, high, new_key, new_value);
        }
        let mut j: usize = start;
        let ghost head = low.push((new_key, new_value));
        assert(entries.deep_view() =~= head + high.take(0));
        while j < self.entries.len()
            invariant
                start <= j <= self.entries.len(),
                listed == self.entries.deep_view(),
                high == listed.skip(start as int),
                entries.deep_view() == head + high.take(j - start),
            decreases self.entries.len() - j,
        {
            push_item(&mut entries, self.entries[j].duplicate());
            j += 1;
            assert(high[j - start - 1] == listed[j - 1]);
            assert(head + high.take(j - start) =~= (head + high.take(j - start - 1)).push(
                high[j - start - 1],
            ));
        }
        assert(high.take(high.len() as int) =~= high);
        self.entries = entries;
    }

    /// The entries in ascending key order.
    pub fn entries(&self) -> (entries: &Vec<(String, T)>)
        ensures
            entries.deep_view() == listing(self@),
            ascending(entries.deep_view()),
            entries_map(entries.deep_view()) == self@,
    {
        proof {
            use_type_invariant(self);
            lemma_listing(self.entries.deep_view());
        }
        &self.entries
    }
}

impl<T: Value> Clone for TextMap<T> {
    fn clone(&self) -> (copy: Self)
        ensures
            copy@ == self@,
    {
        self.duplicate()
    }
}

impl<T: Value> Value for TextMap<T> {
    fn duplicate(&self) -> (copy: Self) {
        proof {
            use_type_invariant(self);
        }
        TextMap { entries: self.entries.duplicate() }
    }

    fn same_as(&self, other: &Self) -> (same: bool) {
        proof {
            use_type_invariant(self);
            use_type_invariant(other);
        }
        let same = self.entries.same_as(&other.entries);
        proof {
            if self@ == other@ {
                lemma_listing_unique(self.entries.deep_view(), other.entries.deep_view());
            }
        }
        same
    }
}

/// Every key of a map is listed, with its value.
pub proof fn lemma_listed<V>(map: Map<Seq<char>, V>, key: Seq<char>) -> (i: int)
    requires
        map.dom().finite(),
        map.contains_key(key),
    ensures
        0 <= i < listing(map).len(),
        listing(map)[i] == (key, map[key]),
{
    lemma_listing_of_finite_map(map);
    let i = lemma_key_has_entry(listing(map), key);
    lemma_entry_in_map(listing(map), i);
    i
}

/// Everything that is listed is in the map, and no key is listed twice.
pub proof fn lemma_listing_is_the_map<V>(map: Map<Seq<char>, V>)
    requires
        map.dom().finite(),
    ensures
        listing(map).len() == map.len(),
        forall|i: int|
            0 <= i < listing(map).len() ==> map.contains_key((#[trigger] listing(map)[i]).0)
                && map[listing(map)[i].0] == listing(map)[i].1,
        forall|i: int, j: int|
            0 <= i < j < listing(map).len() ==> before(
                (#[trigger] listing(map)[i]).0,
                (#[trigger] listing(map)[j]).0,
            ) && listing(map)[i].0 != listing(map)[j].0,
{
    lemma_listing_of_finite_map(map);
    let entries = listing(map);
    assert forall|i: int| 0 <= i < entries.len() implies map.contains_key(
        (#[trigger] entries[i]).0,
    ) && map[entries[i].0] == entries[i].1 by {
        lemma_entry_in_map(entries, i);
    }
    assert forall|i: int, j: int| 0 <= i < j < entries.len() implies before(
        (#[trigger] entries[i]).0,
        (#[trigger] entries[j]).0,
    ) && entries[i].0 != entries[j].0 by {
        lemma_before_irreflexive(entries[i].0);
    }
    lemma_entries_len(entries);
}

proof fn lemma_entries_len<V>(entries: Seq<(Seq<char>, V)>)
    requires
        ascending(entries),
    ensures
        entries_map(entries).dom().finite(),
        entries_map(entries).len() == entries.len(),
    decreases entries.len(),
{
    if entries.len() > 0 {
        let rest = entries.drop_last();
        lemma_entries_len(rest);
        if entries_map(rest).contains_key(entries.last().0) {
            let i = lemma_key_has_entry(rest, entries.last().0);
            assert(entries[i].0 == entries.last().0);
            assert(before(entries[i].0, entries[entries.len() - 1].0));
            lemma_before_irreflexive(entries.last().0);
        }
        assert(entries_map(entries).dom() =~= entries_map(rest).dom().insert(entries.last().0));
    } else {
        assert(entries_map(entries).dom() =~= Set::empty());
    }
}

} // verus!
