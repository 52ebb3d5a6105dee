//! The tag registry: tag values kept under their identifier, in the order in
//! which they came, and found again whatever the case of the query.
use vstd::prelude::*;

use crate::text::{to_upper, uppercase_of};

verus! {

/// What a registry holds: the keys in the order of their first insertion,
/// and for each key the values inserted under it, oldest first.
pub struct Entries<T> {
    pub keys: Seq<Seq<char>>,
    pub lists: Seq<Seq<T>>,
}

/// Where `key` stands in `keys` at or after `from`; -1 where it does not.
pub open spec fn find_key(keys: Seq<Seq<char>>, key: Seq<char>, from: int) -> int
    decreases keys.len() - from,
{
    if from < 0 || from >= keys.len() {
        -1
    } else if keys[from] == key {
        from
    } else {
        find_key(keys, key, from + 1)
    }
}

impl<T> Entries<T> {
    /// The registry without keys.
    pub open spec fn empty() -> Entries<T> {
        Entries { keys: Seq::empty(), lists: Seq::empty() }
    }

    /// One list for each key, none of them empty, and no key twice.
    pub open spec fn wf(self) -> bool {
        &&& self.keys.len() == self.lists.len()
        &&& forall|i: int| 0 <= i < self.lists.len() ==> (#[trigger] self.lists[i]).len() > 0
        &&& forall|i: int, j: int|
            0 <= i < j < self.keys.len() ==> #[trigger] self.keys[i] != #[trigger] self.keys[j]
    }

    /// Index of the normalized key `key`; -1 where the registry has none.
    pub open spec fn position(self, key: Seq<char>) -> int {
        find_key(self.keys, key, 0)
    }

    /// The registry after `value` came in under the normalized key `key`: it
    /// joins the list of that key, or starts a new list behind the others.
    pub open spec fn insert(self, key: Seq<char>, value: T) -> Entries<T> {
        let at = self.position(key);
        if at >= 0 {
            Entries {
                keys: self.keys,
                lists: self.lists.update(at, self.lists[at].push(value)),
            }
        } else {
            Entries { keys: self.keys.push(key), lists: self.lists.push(seq![value]) }
        }
    }

    /// The values under the identifier `query`, in whatever case it is
    /// written.
    pub open spec fn lookup(self, query: Seq<char>) -> Option<Seq<T>> {
        let at = self.position(uppercase_of(query));
        if at >= 0 {
            Some(self.lists[at])
        } else {
            None
        }
    }

    /// The registry that holds the pairs of `log`, inserted one after the
    /// other under the upper-case form of their identifier.
    pub open spec fn built(log: Seq<(Seq<char>, T)>) -> Entries<T>
        decreases log.len(),
    {
        if log.len() == 0 {
            Entries::empty()
        } else {
            Entries::built(log.drop_last()).insert(uppercase_of(log.last().0), log.last().1)
        }
    }
}

/// The values of those pairs of `log` whose identifier reads as `query` when
/// case is set aside, in the order of the log.
pub open spec fn matching<T>(log: Seq<(Seq<char>, T)>, query: Seq<char>) -> Seq<T>
    decreases log.len(),
{
    if log.len() == 0 {
        Seq::empty()
    } else if uppercase_of(log.last().0) == uppercase_of(query) {
        matching(log.drop_last(), query).push(log.last().1)
    } else {
        matching(log.drop_last(), query)
    }
}

/// What the search for a key finds: the first place of the key at or after
/// `from`, or that there is none.
pub proof fn lemma_find_key(keys: Seq<Seq<char>>, key: Seq<char>, from: int)
    requires
        0 <= from <= keys.len(),
    ensures
        -1 <= find_key(keys, key, from) < keys.len(),
        find_key(keys, key, from) >= 0 ==> from <= find_key(keys, key, from) && keys[find_key(
            keys,
            key,
            from,
        )] == key,
        find_key(keys, key, from) == -1 ==> forall|i: int|
            from <= i < keys.len() ==> keys[i] != key,
        forall|i: int| from <= i < find_key(keys, key, from) ==> keys[i] != key,
    decreases keys.len() - from,
{
    if from < keys.len() && keys[from] != key {
        lemma_find_key(keys, key, from + 1);
    }
}

/// Pushing another key leaves the place of every key that was there.
pub proof fn lemma_find_key_push(keys: Seq<Seq<char>>, added: Seq<char>, key: Seq<char>, from: int)
    requires
        0 <= from <= keys.len(),
    ensures
        find_key(keys, key, from) >= 0 ==> find_key(keys.push(added), key, from) == find_key(
            keys,
            key,
            from,
        ),
        find_key(keys, key, from) == -1 ==> find_key(keys.push(added), key, from) == (if added
            == key {
            keys.len() as int
        } else {
            -1
        }),
    decreases keys.len() - from,
{
    let more = keys.push(added);
    if from < keys.len() {
        assert(more[from] == keys[from]);
        if keys[from] != key {
            lemma_find_key_push(keys, added, key, from + 1);
        }
    } else {
        assert(more[from] == added);
        assert(find_key(more, key, from + 1) == -1);
    }
}

/// Insertion keeps a registry well formed.
pub proof fn lemma_insert_wf<T>(e: Entries<T>, key: Seq<char>, value: T)
    requires
        e.wf(),
    ensures
        e.insert(key, value).wf(),
{
    lemma_find_key(e.keys, key, 0);
    let r = e.insert(key, value);
    let at = e.position(key);
    if at >= 0 {
        assert forall|i: int| 0 <= i < r.lists.len() implies (#[trigger] r.lists[i]).len()
            > 0 by {
            if i != at {
                assert(r.lists[i] == e.lists[i]);
            }
        }
    } else {
        assert forall|i: int| 0 <= i < r.lists.len() implies (#[trigger] r.lists[i]).len()
            > 0 by {
            if i < e.lists.len() {
                assert(r.lists[i] == e.lists[i]);
            }
        }
        assert forall|i: int, j: int| 0 <= i < j < r.keys.len() implies #[trigger] r.keys[i]
            != #[trigger] r.keys[j] by {
            if j < e.keys.len() {
                assert(r.keys[i] == e.keys[i] && r.keys[j] == e.keys[j]);
            }
        }
    }
}

/// What a lookup finds after an insertion: under the inserted key the old
/// list with the new value behind it, under any other key what was there.
pub proof fn lemma_insert_lookup<T>(e: Entries<T>, key: Seq<char>, value: T, other: Seq<char>)
    requires
        e.wf(),
    ensures
        e.insert(key, value).position(other) >= 0 <==> (other == key || e.position(other) >= 0),
        other == key ==> e.insert(key, value).lists[e.insert(key, value).position(other)] == (if e.position(
            key,
        ) >= 0 {
            e.lists[e.position(key)].push(value)
        } else {
            seq![value]
        }),
        other != key && e.position(other) >= 0 ==> e.insert(key, value).lists[e.insert(
            key,
            value,
        ).position(other)] == e.lists[e.position(other)],
{
    lemma_find_key(e.keys, key, 0);
    lemma_find_key(e.keys, other, 0);
    let r = e.insert(key, value);
    if e.position(key) >= 0 {
        assert(r.keys == e.keys);
    } else {
        lemma_find_key_push(e.keys, key, other, 0);
    }
}

/// A registry built from a log is well formed.
pub proof fn lemma_built_wf<T>(log: Seq<(Seq<char>, T)>)
    ensures
        Entries::built(log).wf(),
    decreases log.len(),
{
    if log.len() > 0 {
        lemma_built_wf(log.drop_last());
        lemma_insert_wf(
            Entries::built(log.drop_last()),
            uppercase_of(log.last().0),
            log.last().1,
        );
    }
}

/// Queries do not tell upper case from lower case: two queries with the same
/// upper-case form find the same values.
pub proof fn lemma_lookup_ignores_case<T>(e: Entries<T>, first: Seq<char>, second: Seq<char>)
    requires
        uppercase_of(first) == uppercase_of(second),
    ensures
        e.lookup(first) == e.lookup(second),
{
}

/// A lookup returns every value that was inserted under the queried
/// identifier, in whatever case each was written, in the order of insertion;
/// and nothing where no such value was inserted.
pub proof fn lemma_lookup_returns_all_in_order<T>(log: Seq<(Seq<char>, T)>, query: Seq<char>)
    ensures
        Entries::built(log).lookup(query) == (if matching(log, query).len() > 0 {
            Some(matching(log, query))
        } else {
            None
        }),
    decreases log.len(),
{
    if log.len() > 0 {
        let before = Entries::built(log.drop_last());
        let key = uppercase_of(log.last().0);
        lemma_lookup_returns_all_in_order(log.drop_last(), query);
        lemma_built_wf(log.drop_last());
        lemma_insert_lookup(before, key, log.last().1, uppercase_of(query));
        lemma_find_key(before.keys, uppercase_of(query), 0);
    } else {
        assert(find_key(Seq::<Seq<char>>::empty(), uppercase_of(query), 0) == -1);
    }
}

/// Two values that come in under identifiers with the same upper-case form
/// share one key, and the one that came first stands first.
pub proof fn lemma_two_spellings_share_a_key<T>(
    first: Seq<char>,
    second: Seq<char>,
    earlier: T,
    later: T,
)
    requires
        uppercase_of(first) == uppercase_of(second),
    ensures
        Entries::<T>::empty().insert(uppercase_of(first), earlier).insert(
            uppercase_of(second),
            later,
        ) == (Entries { keys: seq![uppercase_of(first)], lists: seq![seq![earlier, later]] }),
{
    let key = uppercase_of(first);
    let none = Entries::<T>::empty();
    assert(find_key(none.keys, key, 0) == -1);
    let one = none.insert(key, earlier);
    assert(one.keys =~= seq![key]);
    assert(one.lists =~= seq![seq![earlier]]);
    assert(find_key(one.keys, key, 0) == 0);
    let two = one.insert(key, later);
    assert(one.lists[0].push(later) =~= seq![earlier, later]);
    assert(two.keys =~= seq![key]);
    assert(two.lists =~= seq![seq![earlier, later]]);
}

/// What each of the strings reads.
pub open spec fn texts(list: Seq<String>) -> Seq<Seq<char>> {
    list.map_values(|s: String| s@)
}

/// What a registry of strings holds.
pub open spec fn text_entries(e: Entries<String>) -> Entries<Seq<char>> {
    Entries { keys: e.keys, lists: e.lists.map_values(|list: Seq<String>| texts(list)) }
}

/// What a registry of strings holds after an insertion is what it held
/// before, with the text of the new string inserted.
pub proof fn lemma_text_entries_insert(e: Entries<String>, key: Seq<char>, value: String)
    requires
        e.keys.len() == e.lists.len(),
    ensures
        text_entries(e.insert(key, value)) == text_entries(e).insert(key, value@),
{
    lemma_find_key(e.keys, key, 0);
    let at = e.position(key);
    let left = text_entries(e.insert(key, value));
    let right = text_entries(e).insert(key, value@);
    assert(left.keys =~= right.keys);
    if at >= 0 {
        assert(texts(e.lists[at].push(value)) =~= texts(e.lists[at]).push(value@));
        assert(left.lists =~= right.lists);
    } else {
        assert(texts(seq![value]) =~= seq![value@]);
        assert(left.lists =~= right.lists);
    }
}

/// Tag values under their identifiers. The first value of an identifier
/// fixes the place of its list; later ones join the list.
pub struct TagRegistry<T> {
    entries: Vec<(String, Vec<T>)>,
}

impl<T> View for TagRegistry<T> {
    type V = Entries<T>;

    closed spec fn view(&self) -> Entries<T> {
        Entries {
            keys: Seq::new(self.entries@.len(), |i: int| self.entries@[i].0@),
            lists: Seq::new(self.entries@.len(), |i: int| self.entries@[i].1@),
        }
    }
}

/// A registry holds one list for each of its keys.
pub proof fn lemma_one_list_per_key<T>(registry: &TagRegistry<T>)
    ensures
        registry@.keys.len() == registry@.lists.len(),
{
}

impl<T> TagRegistry<T> {
    /// The invariant of the registry: that of its entries. Every registry
    /// that was made by `new` and filled by `insert` has it.
    pub open spec fn wf(&self) -> bool {
        self@.wf()
    }

    /// An empty registry.
    pub fn new() -> (r: TagRegistry<T>)
        ensures
            r.wf(),
            r@ == Entries::<T>::empty(),
    {
        let r = TagRegistry { entries: Vec::new() };
        assert(r@.keys =~= Seq::empty());
        assert(r@.lists =~= Seq::empty());
        r
    }

    /// Number of distinct keys.
    pub fn len(&self) -> (n: usize)
        ensures
            n == self@.keys.len(),
            n == self@.lists.len(),
    {
        self.entries.len()
    }

    /// Index of the list kept under the normalized key `key`.
    pub fn position(&self, key: &String) -> (at: Option<usize>)
        ensures
            match at {
                Some(i) => i == self@.position(key@) && i < self@.keys.len(),
                None => self@.position(key@) == -1,
            },
    {
        let mut i: usize = 0;
        while i < self.entries.len()
            invariant
                i <= self.entries@.len(),
                self@.keys.len() == self.entries@.len(),
                find_key(self@.keys, key@, 0) == find_key(self@.keys, key@, i as int),
            decreases self.entries@.len() - i,
        {
            if self.entries[i].0 == *key {
                return Some(i);
            }
            i += 1;
        }
        None
    }

    /// Puts `value` under `identifier`, which is read without regard to
    /// case: behind the values that the identifier already has, or as the
    /// first value of a new key.
    pub fn insert(&mut self, identifier: &str, value: T)
        ensures
            final(self)@ == old(self)@.insert(uppercase_of(identifier@), value),
            old(self).wf() ==> final(self).wf(),
    {
        let key = to_upper(identifier);
        proof {
            if self.wf() {
                lemma_insert_wf(self@, key@, value);
            }
            lemma_find_key(self@.keys, key@, 0);
        }
        match self.position(&key) {
            Some(i) => {
                self.entries[i].1.push(value);
                assert(self@.keys =~= old(self)@.keys);
                assert(self@.lists =~= old(self)@.lists.update(
                    i as int,
                    old(self)@.lists[i as int].push(value),
                ));
            },
            None => {
                let mut list: Vec<T> = Vec::new();
                list.push(value);
                self.entries.push((key, list));
                assert(self@.keys =~= old(self)@.keys.push(key@));
                assert(self@.lists =~= old(self)@.lists.push(seq![value]));
            },
        }
    }

    /// The values under `query`, which is read without regard to case.
    pub fn get(&self, query: &str) -> (r: Option<&Vec<T>>)
        ensures
            match self@.lookup(query@) {
                Some(list) => r matches Some(found) && found@ == list,
                None => r is None,
            },
    {
        let key = to_upper(query);
        match self.position(&key) {
            Some(i) => Some(&self.entries[i].1),
            None => None,
        }
    }

    /// The key at index `i`, in upper case.
    pub fn key_at(&self, i: usize) -> (key: &String)
        requires
            i < self@.keys.len(),
        ensures
            key@ == self@.keys[i as int],
    {
        &self.entries[i].0
    }

    /// The values under the key at index `i`.
    pub fn list_at(&self, i: usize) -> (list: &Vec<T>)
        requires
            i < self@.keys.len(),
        ensures
            list@ == self@.lists[i as int],
    {
        &self.entries[i].1
    }

    /// Forgets every key and value.
    pub fn clear(&mut self)
        ensures
            final(self).wf(),
            final(self)@ == Entries::<T>::empty(),
    {
        self.entries.clear();
        assert(self@.keys =~= Seq::empty());
        assert(self@.lists =~= Seq::empty());
    }
}

/// A copy of each string.
pub fn clone_texts(list: &Vec<String>) -> (copy: Vec<String>)
    ensures
        texts(copy@) == texts(list@),
{
    let mut copy: Vec<String> = Vec::new();
    let mut i: usize = 0;
    while i < list.len()
        invariant
            i <= list@.len(),
            copy@.len() == i,
            forall|k: int| 0 <= k < i ==> (#[trigger] copy@[k])@ == list@[k]@,
        decreases list@.len() - i,
    {
        copy.push(list[i].clone());
        i += 1;
    }
    assert(texts(copy@) =~= texts(list@));
    copy
}

} // verus!
