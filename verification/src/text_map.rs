//! Maps from texts to records, ordered by their keys.
use vstd::prelude::*;

use crate::record::Record;
use crate::text::{comes_before, same_text};

verus! {

/// A map from texts to values, with its entries in the order of their keys.
#[derive(Debug, PartialEq, Eq)]
pub struct TextMap<V> {
    entries: Vec<(String, V)>,
}

impl<V: DeepView> DeepView for TextMap<V> {
    type V = Seq<(Seq<char>, V::V)>;

    closed spec fn deep_view(&self) -> Seq<(Seq<char>, V::V)> {
        self.entries.deep_view()
    }
}

impl<V: DeepView> View for TextMap<V> {
    type V = Seq<(Seq<char>, V::V)>;

    #[verifier::inline]
    open spec fn view(&self) -> Seq<(Seq<char>, V::V)> {
        self.deep_view()
    }
}

/// The place of the entry for `key`; the number of entries where there is none.
pub open spec fn place<M>(entries: Seq<(Seq<char>, M)>, key: Seq<char>) -> int
    decreases entries.len(),
{
    if entries.len() == 0 || entries[0].0 == key {
        0
    } else {
        1 + place(entries.drop_first(), key)
    }
}

/// The place before which an entry for `key` belongs.
pub open spec fn slot<M>(entries: Seq<(Seq<char>, M)>, key: Seq<char>) -> int
    decreases entries.len(),
{
    if entries.len() == 0 || crate::text::text_before(key, entries[0].0) {
        0
    } else {
        1 + slot(entries.drop_first(), key)
    }
}

/// The value that `key` is mapped to.
pub open spec fn value_of<M>(entries: Seq<(Seq<char>, M)>, key: Seq<char>) -> Option<M> {
    if place(entries, key) < entries.len() {
        Some(entries[place(entries, key)].1)
    } else {
        None
    }
}

/// The entries once `key` is mapped to `value`.
pub open spec fn inserted<M>(entries: Seq<(Seq<char>, M)>, key: Seq<char>, value: M) -> Seq<
    (Seq<char>, M),
> {
    if place(entries, key) < entries.len() {
        entries.update(place(entries, key), (key, value))
    } else {
        entries.insert(slot(entries, key), (key, value))
    }
}

/// The entries without the one for `key`.
pub open spec fn removed<M>(entries: Seq<(Seq<char>, M)>, key: Seq<char>) -> Seq<(Seq<char>, M)> {
    if place(entries, key) < entries.len() {
        entries.remove(place(entries, key))
    } else {
        entries
    }
}

/// The keys, in the order of the entries.
pub open spec fn keys_of<M>(entries: Seq<(Seq<char>, M)>) -> Seq<Seq<char>> {
    Seq::new(entries.len(), |i: int| entries[i].0)
}

impl<V: Record> Record for TextMap<V> {
    fn duplicate(&self) -> (r: Self) {
        proof {
            use_type_invariant(self);
            lemma_in_order(self.entries);
        }
        let mut entries: Vec<(String, V)> = Vec::new();
        let ghost all = self.entries.deep_view();
        let mut i: usize = 0;
        assert(entries.deep_view() =~= all.take(0));
        while i < self.entries.len()
            invariant
                i <= self.entries.len(),
                all == self.entries.deep_view(),
                entries.deep_view() == all.take(i as int),
            decreases self.entries.len() - i,
        {
            let ghost before = entries.deep_view();
            let entry = (self.entries[i].0.duplicate(), self.entries[i].1.duplicate());
            entries.push(entry);
            proof {
                assert(entries.deep_view() =~= before.push(entry.deep_view()));
                assert(all.take(i + 1) =~= all.take(i as int).push(all[i as int]));
            }
            i += 1;
        }
        proof {
            assert(all.take(i as int) =~= all);
            lemma_in_order(entries);
        }
        TextMap { entries }
    }

    fn same(&self, other: &Self) -> (r: bool) {
        if self.entries.len() != other.entries.len() {
            assert(self.deep_view().len() != other.deep_view().len());
            return false;
        }
        let ghost left = self.entries.deep_view();
        let ghost right = other.entries.deep_view();
        let mut i: usize = 0;
        while i < self.entries.len()
            invariant
                i <= self.entries.len() == other.entries.len(),
                left == self.entries.deep_view(),
                right == other.entries.deep_view(),
                forall|j: int| 0 <= j < i ==> left[j] == right[j],
            decreases self.entries.len() - i,
        {
            if !self.entries[i].0.same(&other.entries[i].0) || !self.entries[i].1.same(
                &other.entries[i].1,
            ) {
                assert(left[i as int] != right[i as int]);
                return false;
            }
            i += 1;
        }
        assert(left =~= right);
        true
    }
}

impl<V: Record> Clone for TextMap<V> {
    fn clone(&self) -> (r: Self)
        ensures
            r.deep_view() == self.deep_view(),
    {
        self.duplicate()
    }
}

impl<V: Record> Default for TextMap<V> {
    fn default() -> (r: Self)
        ensures
            r@ == Seq::<(Seq<char>, V::V)>::empty(),
    {
        TextMap::new()
    }
}

proof fn lemma_place<M>(entries: Seq<(Seq<char>, M)>, key: Seq<char>)
    ensures
        0 <= place(entries, key) <= entries.len(),
        place(entries, key) < entries.len() ==> entries[place(entries, key)].0 == key,
        forall|j: int| 0 <= j < place(entries, key) ==> (#[trigger] entries[j]).0 != key,
    decreases entries.len(),
{
    if entries.len() > 0 && entries[0].0 != key {
        let tail = entries.drop_first();
        lemma_place(tail, key);
        assert forall|j: int| 0 <= j < place(entries, key) implies (#[trigger] entries[j]).0
            != key by {
            if j > 0 {
                assert(entries[j] == tail[j - 1]);
            }
        }
    }
}

proof fn lemma_place_is<M>(entries: Seq<(Seq<char>, M)>, key: Seq<char>, at: int)
    requires
        0 <= at <= entries.len(),
        at < entries.len() ==> entries[at].0 == key,
        forall|j: int| 0 <= j < at ==> (#[trigger] entries[j]).0 != key,
    ensures
        place(entries, key) == at,
{
    lemma_place(entries, key);
    let found = place(entries, key);
    if found < at {
        assert(entries[found].0 != key);
    }
    if at < found {
        assert(entries[at].0 != key);
    }
}

impl<V> TextMap<V> {
    /// The entries stand in the order of their keys, and no key occurs twice.
    #[verifier::type_invariant]
    spec fn in_order(self) -> bool {
        forall|i: int, j: int|
            0 <= i < j < self.entries.len() ==> crate::text::text_before(
                (#[trigger] self.entries@[i]).0@,
                (#[trigger] self.entries@[j]).0@,
            )
    }
}

proof fn lemma_in_order<V: DeepView>(entries: Vec<(String, V)>)
    ensures
        sorted(entries.deep_view()) <==> forall|i: int, j: int|
            0 <= i < j < entries.len() ==> crate::text::text_before(
                (#[trigger] entries@[i]).0@,
                (#[trigger] entries@[j]).0@,
            ),
{
    let all = entries.deep_view();
    if sorted(all) {
        assert forall|i: int, j: int| 0 <= i < j < entries.len() implies crate::text::text_before(
            (#[trigger] entries@[i]).0@,
            (#[trigger] entries@[j]).0@,
        ) by {
            assert(crate::text::text_before(all[i].0, all[j].0));
        }
    } else {
        let (i, j) = choose|i: int, j: int|
            0 <= i < j < all.len() && !crate::text::text_before(
                (#[trigger] all[i]).0,
                (#[trigger] all[j]).0,
            );
        assert(!crate::text::text_before(entries@[i].0@, entries@[j].0@));
    }
}

impl<V: Record> TextMap<V> {
    pub fn new() -> (r: Self)
        ensures
            r@ == Seq::<(Seq<char>, V::V)>::empty(),
    {
        let entries: Vec<(String, V)> = Vec::new();
        assert(entries.deep_view() =~= Seq::empty());
        TextMap { entries }
    }

    pub fn len(&self) -> (r: usize)
        ensures
            r == self@.len(),
    {
        self.entries.len()
    }

    pub fn is_empty(&self) -> (r: bool)
        ensures
            r == (self@.len() == 0),
    {
        self.entries.len() == 0
    }

    /// The key of the entry at a place.
    pub fn key_at(&self, at: usize) -> (r: &str)
        requires
            at < self@.len(),
        ensures
            r@ == self@[at as int].0,
    {
        self.entries[at].0.as_str()
    }

    /// The value of the entry at a place.
    pub fn value_at(&self, at: usize) -> (r: &V)
        requires
            at < self@.len(),
        ensures
            r.deep_view() == self@[at as int].1,
    {
        &self.entries[at].1
    }

    fn place_of(&self, key: &str) -> (r: usize)
        ensures
            r == place(self@, key@),
            r <= self@.len(),
    {
        let ghost all = self.entries.deep_view();
        let mut i: usize = 0;
        while i < self.entries.len()
            invariant
                i <= self.entries.len(),
                all == self.entries.deep_view(),
                forall|j: int| 0 <= j < i ==> (#[trigger] all[j]).0 != key@,
            decreases self.entries.len() - i,
        {
            assert(all[i as int].0 == self.entries[i as int].0@);
            if same_text(self.entries[i].0.as_str(), key) {
                proof {
                    lemma_place_is(all, key@, i as int);
                }
                return i;
            }
            i += 1;
        }
        proof {
            lemma_place_is(all, key@, i as int);
        }
        i
    }

    pub fn get(&self, key: &str) -> (r: Option<&V>)
        ensures
            r.deep_view() == value_of(self@, key@),
    {
        let at: usize = self.place_of(key);
        if at < self.entries.len() {
            Some(&self.entries[at].1)
        } else {
            None
        }
    }

    pub fn contains_key(&self, key: &str) -> (r: bool)
        ensures
            r == (value_of(self@, key@) is Some),
    {
        self.place_of(key) < self.entries.len()
    }

    /// Map `key` to `value`, in the place of what it was mapped to before.
    pub fn insert(&mut self, key: String, value: V)
        ensures
            final(self)@ == inserted(old(self)@, key@, value.deep_view()),
    {
        let at: usize = self.place_of(key.as_str());
        let ghost all = self.entries.deep_view();
        let ghost entry = (key@, value.deep_view());
        proof {
            use_type_invariant(&*self);
            lemma_in_order(self.entries);
            law_insert_keeps_order(all, entry.0, entry.1);
        }
        let mut entries: Vec<(String, V)> = Vec::new();
        std::mem::swap(&mut entries, &mut self.entries);
        if at < entries.len() {
            entries[at] = (key, value);
            assert(entries.deep_view() =~= all.update(at as int, entry));
        } else {
            let mut to: usize = 0;
            assert(all.skip(0) =~= all);
            while to < entries.len() && !comes_before(key.as_str(), entries[to].0.as_str())
                invariant
                    to <= entries.len(),
                    all == entries.deep_view(),
                    slot(all, key@) == to + slot(all.skip(to as int), key@),
                decreases entries.len() - to,
            {
                proof {
                    assert(all.skip(to as int)[0] == all[to as int]);
                    assert(all.skip(to as int).drop_first() =~= all.skip(to + 1));
                }
                to += 1;
            }
            proof {
                if to < all.len() {
                    assert(all.skip(to as int)[0] == all[to as int]);
                }
                assert(slot(all.skip(to as int), key@) == 0);
            }
            entries.insert(to, (key, value));
            assert(entries.deep_view() =~= all.insert(to as int, entry));
        }
        proof {
            lemma_in_order(entries);
        }
        self.entries = entries;
    }

    /// Take the entry for `key` away.
    pub fn remove(&mut self, key: &str)
        ensures
            final(self)@ == removed(old(self)@, key@),
    {
        let at: usize = self.place_of(key);
        let ghost all = self.entries.deep_view();
        proof {
            use_type_invariant(&*self);
            lemma_in_order(self.entries);
            law_remove_keeps_order(all, key@);
        }
        if at < self.entries.len() {
            let mut entries: Vec<(String, V)> = Vec::new();
            std::mem::swap(&mut entries, &mut self.entries);
            entries.remove(at);
            proof {
                assert(entries.deep_view() =~= all.remove(at as int));
                lemma_in_order(entries);
            }
            self.entries = entries;
        }
    }

    /// Take all entries away.
    pub fn clear(&mut self)
        ensures
            final(self)@ == Seq::<(Seq<char>, V::V)>::empty(),
    {
        let entries: Vec<(String, V)> = Vec::new();
        assert(entries.deep_view() =~= Seq::empty());
        self.entries = entries;
    }

    /// The keys, in their order.
    pub fn keys(&self) -> (r: Vec<String>)
        ensures
            r.deep_view() == keys_of(self@),
            sorted(self@),
    {
        proof {
            use_type_invariant(self);
            lemma_in_order(self.entries);
        }
        let ghost all = keys_of(self@);
        let mut keys: Vec<String> = Vec::new();
        let mut i: usize = 0;
        assert(keys.deep_view() =~= all.take(0));
        while i < self.entries.len()
            invariant
                i <= self.entries.len(),
                all == keys_of(self.entries.deep_view()),
                keys.deep_view() == all.take(i as int),
            decreases self.entries.len() - i,
        {
            let ghost before = keys.deep_view();
            let key = self.entries[i].0.clone();
            keys.push(key);
            proof {
                assert(keys.deep_view() =~= before.push(key@));
                assert(all.take(i + 1) =~= all.take(i as int).push(all[i as int]));
            }
            i += 1;
        }
        assert(all.take(i as int) =~= all);
        keys
    }
}

/// The entries stand in the order of their keys, and no key occurs twice.
pub open spec fn sorted<M>(entries: Seq<(Seq<char>, M)>) -> bool {
    forall|i: int, j: int|
        0 <= i < j < entries.len() ==> crate::text::text_before(
            (#[trigger] entries[i]).0,
            (#[trigger] entries[j]).0,
        )
}

proof fn lemma_slot<M>(entries: Seq<(Seq<char>, M)>, key: Seq<char>)
    ensures
        0 <= slot(entries, key) <= entries.len(),
        slot(entries, key) < entries.len() ==> crate::text::text_before(
            key,
            entries[slot(entries, key)].0,
        ),
        forall|j: int|
            0 <= j < slot(entries, key) ==> !crate::text::text_before(
                key,
                (#[trigger] entries[j]).0,
            ),
    decreases entries.len(),
{
    if entries.len() > 0 && !crate::text::text_before(key, entries[0].0) {
        let tail = entries.drop_first();
        lemma_slot(tail, key);
        assert forall|j: int| 0 <= j < slot(entries, key) implies !crate::text::text_before(
            key,
            (#[trigger] entries[j]).0,
        ) by {
            if j > 0 {
                assert(entries[j] == tail[j - 1]);
            }
        }
    }
}

/// Inserting keeps the entries in order.
pub proof fn law_insert_keeps_order<M>(entries: Seq<(Seq<char>, M)>, key: Seq<char>, value: M)
    requires
        sorted(entries),
    ensures
        sorted(inserted(entries, key, value)),
{
    lemma_place(entries, key);
    let at = place(entries, key);
    let result = inserted(entries, key, value);
    if at < entries.len() {
        assert forall|i: int, j: int| 0 <= i < j < result.len() implies crate::text::text_before(
            (#[trigger] result[i]).0,
            (#[trigger] result[j]).0,
        ) by {
            assert(crate::text::text_before(entries[i].0, entries[j].0));
        }
    } else {
        lemma_slot(entries, key);
        let to = slot(entries, key);
        assert forall|i: int, j: int| 0 <= i < j < result.len() implies crate::text::text_before(
            (#[trigger] result[i]).0,
            (#[trigger] result[j]).0,
        ) by {
            let a = if i < to { i } else { i - 1 };
            let b = if j < to { j } else { j - 1 };
            if i == to {
                assert(result[j] == entries[b]);
                if b > to {
                    assert(crate::text::text_before(entries[to].0, entries[b].0));
                    crate::text::lemma_order_is_strict(key, entries[to].0, entries[b].0);
                }
            } else if j == to {
                assert(result[i] == entries[a]);
                crate::text::lemma_order_is_total(key, entries[a].0);
            } else {
                assert(result[i] == entries[a] && result[j] == entries[b]);
            }
        }
    }
}

/// Removing keeps the entries in order.
pub proof fn law_remove_keeps_order<M>(entries: Seq<(Seq<char>, M)>, key: Seq<char>)
    requires
        sorted(entries),
    ensures
        sorted(removed(entries, key)),
{
    lemma_place(entries, key);
    let at = place(entries, key);
    let result = removed(entries, key);
    if at < entries.len() {
        assert forall|i: int, j: int| 0 <= i < j < result.len() implies crate::text::text_before(
            (#[trigger] result[i]).0,
            (#[trigger] result[j]).0,
        ) by {
            let a = if i < at { i } else { i + 1 };
            let b = if j < at { j } else { j + 1 };
            assert(result[i] == entries[a] && result[j] == entries[b]);
        }
    }
}

/// After an insertion there are the entry put in and entries that were there before.
pub proof fn lemma_inserted_entries<M>(entries: Seq<(Seq<char>, M)>, key: Seq<char>, value: M)
    ensures
        forall|i: int|
            0 <= i < inserted(entries, key, value).len() ==> #[trigger] inserted(
                entries,
                key,
                value,
            )[i] == (key, value) || exists|j: int|
                0 <= j < entries.len() && entries[j] == inserted(entries, key, value)[i],
{
    lemma_place(entries, key);
    lemma_slot(entries, key);
    let result = inserted(entries, key, value);
    let at = place(entries, key);
    let to = slot(entries, key);
    assert forall|i: int| 0 <= i < result.len() implies #[trigger] result[i] == (key, value)
        || exists|j: int| 0 <= j < entries.len() && entries[j] == result[i] by {
        if at < entries.len() {
            if i != at {
                assert(entries[i] == result[i]);
            }
        } else if i < to {
            assert(entries[i] == result[i]);
        } else if i > to {
            assert(entries[i - 1] == result[i]);
        }
    }
}

/// In a sorted map each key is mapped to the value of its entry.
pub proof fn lemma_value_at<M>(entries: Seq<(Seq<char>, M)>, at: int)
    requires
        sorted(entries),
        0 <= at < entries.len(),
    ensures
        value_of(entries, entries[at].0) == Some(entries[at].1),
{
    let key = entries[at].0;
    assert forall|j: int| 0 <= j < at implies (#[trigger] entries[j]).0 != key by {
        assert(crate::text::text_before(entries[j].0, entries[at].0));
        crate::text::lemma_order_is_total(key, key);
    }
    lemma_place_is(entries, key, at);
}

/// A key that is mapped to something has an entry.
pub proof fn lemma_value_has_place<M>(entries: Seq<(Seq<char>, M)>, key: Seq<char>)
    ensures
        value_of(entries, key) is Some ==> {
            &&& 0 <= place(entries, key) < entries.len()
            &&& entries[place(entries, key)].0 == key
            &&& entries[place(entries, key)].1 == value_of(entries, key)->0
        },
{
    lemma_place(entries, key);
}

/// What is read back of an insertion is what was inserted; all other keys are mapped as
/// before.
pub proof fn law_insert_then_get<M>(
    entries: Seq<(Seq<char>, M)>,
    key: Seq<char>,
    value: M,
    other: Seq<char>,
)
    ensures
        value_of(inserted(entries, key, value), key) == Some(value),
        other != key ==> value_of(inserted(entries, key, value), other) == value_of(entries, other),
{
    lemma_place(entries, key);
    lemma_place(entries, other);
    lemma_slot(entries, key);
    let at = place(entries, key);
    let result = inserted(entries, key, value);
    if at < entries.len() {
        assert forall|j: int| 0 <= j < at implies (#[trigger] result[j]).0 != key by {
            assert(entries[j].0 != key);
        }
        lemma_place_is(result, key, at);
        if other != key {
            let p = place(entries, other);
            assert forall|j: int| 0 <= j < p implies (#[trigger] result[j]).0 != other by {
                assert(entries[j].0 != other);
            }
            lemma_place_is(result, other, p);
        }
    } else {
        let to = slot(entries, key);
        assert forall|j: int| 0 <= j < to implies (#[trigger] result[j]).0 != key by {
            assert(result[j] == entries[j]);
        }
        lemma_place_is(result, key, to);
        if other != key {
            let p = place(entries, other);
            let q = if p < to { p } else { p + 1 };
            assert forall|j: int| 0 <= j < q implies (#[trigger] result[j]).0 != other by {
                if j < to {
                    assert(result[j] == entries[j]);
                } else if j > to {
                    assert(result[j] == entries[j - 1]);
                }
            }
            if q < result.len() {
                assert(result[q] == entries[p]);
            }
            lemma_place_is(result, other, q);
        }
    }
}

/// A removed key is mapped to nothing; all other keys are mapped as before.
pub proof fn law_remove_then_get<M>(
    entries: Seq<(Seq<char>, M)>,
    key: Seq<char>,
    other: Seq<char>,
)
    requires
        sorted(entries),
    ensures
        value_of(removed(entries, key), key) is None,
        other != key ==> value_of(removed(entries, key), other) == value_of(entries, other),
{
    lemma_place(entries, key);
    lemma_place(entries, other);
    let at = place(entries, key);
    let result = removed(entries, key);
    if at < entries.len() {
        assert forall|j: int| 0 <= j < result.len() implies (#[trigger] result[j]).0 != key by {
            if j < at {
                assert(result[j] == entries[j]);
            } else {
                assert(result[j] == entries[j + 1]);
                assert(crate::text::text_before(entries[at].0, entries[j + 1].0));
                crate::text::lemma_order_is_total(key, key);
            }
        }
        lemma_place_is(result, key, result.len() as int);
        if other != key {
            let p = place(entries, other);
            let q = if p < at { p } else { p - 1 };
            assert forall|j: int| 0 <= j < q implies (#[trigger] result[j]).0 != other by {
                if j < at {
                    assert(result[j] == entries[j]);
                } else {
                    assert(result[j] == entries[j + 1]);
                }
            }
            if q < result.len() {
                assert(result[q] == entries[p]);
            }
            lemma_place_is(result, other, q);
        }
    } else {
        lemma_place_is(result, key, at);
    }
}

/// What a map of maps holds under a key and an inner key.
pub open spec fn entry_of<M>(
    maps: Seq<(Seq<char>, Seq<(Seq<char>, M)>)>,
    key: Seq<char>,
    inner: Seq<char>,
) -> Option<M> {
    match value_of(maps, key) {
        Some(map) => value_of(map, inner),
        None => None,
    }
}

/// The inner map for a key, empty where there is none yet.
pub open spec fn inner_map<M>(
    maps: Seq<(Seq<char>, Seq<(Seq<char>, M)>)>,
    key: Seq<char>,
) -> Seq<(Seq<char>, M)> {
    match value_of(maps, key) {
        Some(map) => map,
        None => Seq::empty(),
    }
}

/// A map of maps once it holds `value` under a key and an inner key.
pub open spec fn entry_inserted<M>(
    maps: Seq<(Seq<char>, Seq<(Seq<char>, M)>)>,
    key: Seq<char>,
    inner: Seq<char>,
    value: M,
) -> Seq<(Seq<char>, Seq<(Seq<char>, M)>)> {
    inserted(maps, key, inserted(inner_map(maps, key), inner, value))
}

impl<V: Record> TextMap<TextMap<V>> {
    pub fn get_in(&self, key: &str, inner: &str) -> (r: Option<&V>)
        ensures
            r.deep_view() == entry_of(self@, key@, inner@),
    {
        match self.get(key) {
            Some(map) => map.get(inner),
            None => None,
        }
    }

    /// Put `value` under a key and an inner key.
    pub fn insert_in(&mut self, key: &str, inner: String, value: V)
        ensures
            final(self)@ == entry_inserted(old(self)@, key@, inner@, value.deep_view()),
    {
        let mut map = match self.get(key) {
            Some(map) => map.clone(),
            None => TextMap::new(),
        };
        map.insert(inner, value);
        self.insert(key.to_owned(), map);
    }
}

/// What is read back of an entry put into a map of maps is what was put there; all other
/// entries are as before.
pub proof fn law_insert_in_then_get<M>(
    maps: Seq<(Seq<char>, Seq<(Seq<char>, M)>)>,
    key: Seq<char>,
    inner: Seq<char>,
    value: M,
    other_key: Seq<char>,
    other_inner: Seq<char>,
)
    ensures
        entry_of(entry_inserted(maps, key, inner, value), key, inner) == Some(value),
        (other_key != key || other_inner != inner) ==> entry_of(
            entry_inserted(maps, key, inner, value),
            other_key,
            other_inner,
        ) == entry_of(maps, other_key, other_inner),
{
    let map = inserted(inner_map(maps, key), inner, value);
    law_insert_then_get(maps, key, map, other_key);
    law_insert_then_get(inner_map(maps, key), inner, value, other_inner);
}

} // verus!
