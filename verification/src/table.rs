use vstd::prelude::*;

verus! {

/// Keys of a [`Table`]: values that can be told apart by their views.
pub trait TableKey: View + Sized {
    fn same_key(&self, other: &Self) -> (b: bool)
        ensures
            b == (self@ == other@),
    ;
}

impl TableKey for String {
    fn same_key(&self, other: &Self) -> (b: bool) {
        *self == *other
    }
}

impl TableKey for u64 {
    fn same_key(&self, other: &Self) -> (b: bool) {
        *self == *other
    }
}

/// The key of a ledger entry: the farmer's address and the entry id.
#[derive(Debug)]
pub struct EntryKey {
    pub farmer: String,
    pub id: u64,
}

impl View for EntryKey {
    type V = (Seq<char>, u64);

    open spec fn view(&self) -> (Seq<char>, u64) {
        (self.farmer@, self.id)
    }
}

impl TableKey for EntryKey {
    fn same_key(&self, other: &Self) -> (b: bool) {
        self.id == other.id && self.farmer == other.farmer
    }
}

/// No two items of `s` have keys with the same view.
pub open spec fn keys_distinct<K: View, V>(s: Seq<(K, V)>) -> bool {
    forall|i: int, j: int| 0 <= i < s.len() && 0 <= j < s.len() && i != j ==> s[i].0@ != s[j].0@
}

/// The map that a sequence of key/value items stands for; a later item wins.
pub open spec fn map_of<K: View, V>(s: Seq<(K, V)>) -> Map<K::V, V>
    decreases s.len(),
{
    if s.len() == 0 {
        Map::empty()
    } else {
        map_of(s.drop_last()).insert(s.last().0@, s.last().1)
    }
}

proof fn lemma_map_of_domain<K: View, V>(s: Seq<(K, V)>, k: K::V)
    ensures
        map_of(s).contains_key(k) <==> exists|i: int| 0 <= i < s.len() && #[trigger] s[i].0@ == k,
    decreases s.len(),
{
    if s.len() > 0 {
        let t = s.drop_last();
        lemma_map_of_domain(t, k);
        if map_of(s).contains_key(k) {
            if k != s.last().0@ {
                let i = choose|i: int| 0 <= i < t.len() && #[trigger] t[i].0@ == k;
                assert(s[i].0@ == k);
            } else {
                assert(s[s.len() - 1].0@ == k);
            }
        }
        if exists|i: int| 0 <= i < s.len() && #[trigger] s[i].0@ == k {
            let i = choose|i: int| 0 <= i < s.len() && #[trigger] s[i].0@ == k;
            if i < s.len() - 1 {
                assert(t[i].0@ == k);
            }
        }
    }
}

proof fn lemma_map_of_value<K: View, V>(s: Seq<(K, V)>, i: int)
    requires
        keys_distinct(s),
        0 <= i < s.len(),
    ensures
        map_of(s).contains_key(s[i].0@),
        map_of(s)[s[i].0@] == s[i].1,
    decreases s.len(),
{
    let t = s.drop_last();
    if i < s.len() - 1 {
        assert(t[i] == s[i]);
        lemma_map_of_value(t, i);
        assert(s[i].0@ != s.last().0@);
    }
}

proof fn lemma_map_of_update<K: View, V>(s: Seq<(K, V)>, i: int, k: K, v: V)
    requires
        keys_distinct(s),
        0 <= i < s.len(),
        s[i].0@ == k@,
    ensures
        keys_distinct(s.update(i, (k, v))),
        map_of(s.update(i, (k, v))) == map_of(s).insert(k@, v),
    decreases s.len(),
{
    let u = s.update(i, (k, v));
    assert forall|a: int, b: int| 0 <= a < u.len() && 0 <= b < u.len() && a != b implies u[a].0@ != u[b].0@ by {
        assert(u[a].0@ == s[a].0@);
        assert(u[b].0@ == s[b].0@);
    }
    let t = s.drop_last();
    if i == s.len() - 1 {
        assert(u.drop_last() =~= t);
    } else {
        assert(u.drop_last() =~= t.update(i, (k, v)));
        lemma_map_of_update(t, i, k, v);
        assert(s.last().0@ != k@);
        assert(map_of(u) =~= map_of(s).insert(k@, v));
    }
}

proof fn lemma_map_of_push<K: View, V>(s: Seq<(K, V)>, k: K, v: V)
    requires
        keys_distinct(s),
        !map_of(s).contains_key(k@),
    ensures
        keys_distinct(s.push((k, v))),
        map_of(s.push((k, v))) == map_of(s).insert(k@, v),
{
    let u = s.push((k, v));
    assert(u.drop_last() =~= s);
    assert forall|a: int, b: int| 0 <= a < u.len() && 0 <= b < u.len() && a != b implies u[a].0@ != u[b].0@ by {
        if a == s.len() {
            lemma_map_of_domain(s, k@);
            assert(u[b] == s[b]);
        } else if b == s.len() {
            lemma_map_of_domain(s, k@);
            assert(u[a] == s[a]);
        } else {
            assert(u[a] == s[a] && u[b] == s[b]);
        }
    }
}

/// A finite map stored as a list of key/value items with distinct keys.
pub struct Table<K, V> {
    items: Vec<(K, V)>,
}

impl<K: View, V> View for Table<K, V> {
    type V = Map<K::V, V>;

    closed spec fn view(&self) -> Map<K::V, V> {
        map_of(self.items@)
    }
}

impl<K: TableKey, V> Table<K, V> {
    /// The items are stored with distinct keys.
    pub closed spec fn wf(&self) -> bool {
        keys_distinct(self.items@)
    }

    /// The stored items, in storage order.
    pub closed spec fn items(&self) -> Seq<(K, V)> {
        self.items@
    }

    pub fn new() -> (t: Self)
        ensures
            t.wf(),
            t@ == Map::<K::V, V>::empty(),
    {
        Table { items: Vec::new() }
    }

    /// Index of the item stored under `key`, if any.
    fn find(&self, key: &K) -> (r: Option<usize>)
        requires
            self.wf(),
        ensures
            r is None <==> !self@.contains_key(key@),
            r matches Some(i) ==> i < self.items@.len() && self.items@[i as int].0@ == key@
                && self.items@[i as int].1 == self@[key@],
    {
        let n = self.items.len();
        let mut i: usize = 0;
        while i < n
            invariant
                self.wf(),
                n == self.items@.len(),
                i <= n,
                forall|j: int| 0 <= j < i ==> #[trigger] self.items@[j].0@ != key@,
            decreases n - i,
        {
            if self.items[i].0.same_key(key) {
                proof {
                    lemma_map_of_value(self.items@, i as int);
                }
                return Some(i);
            }
            i = i + 1;
        }
        proof {
            lemma_map_of_domain(self.items@, key@);
        }
        None
    }

    /// Whether some value is stored under `key`.
    pub fn contains(&self, key: &K) -> (b: bool)
        requires
            self.wf(),
        ensures
            b == self@.contains_key(key@),
    {
        self.find(key).is_some()
    }

    /// The value stored under `key`, if any.
    pub fn get(&self, key: &K) -> (r: Option<&V>)
        requires
            self.wf(),
        ensures
            r is Some <==> self@.contains_key(key@),
            r matches Some(v) ==> *v == self@[key@],
    {
        match self.find(key) {
            Some(i) => Some(&self.items[i].1),
            None => None,
        }
    }

    /// Stores `value` under `key`, replacing any value stored there before.
    pub fn insert(&mut self, key: K, value: V)
        requires
            old(self).wf(),
        ensures
            final(self).wf(),
            final(self)@ == old(self)@.insert(key@, value),
    {
        match self.find(&key) {
            Some(i) => {
                proof {
                    lemma_map_of_update(self.items@, i as int, key, value);
                }
                self.items.set(i, (key, value));
            },
            None => {
                proof {
                    lemma_map_of_push(self.items@, key, value);
                }
                self.items.push((key, value));
            },
        }
    }

    /// Builds a table from stored items; refused when two items share a key.
    pub fn from_items(items: Vec<(K, V)>) -> (r: Option<Self>)
        ensures
            r is Some <==> keys_distinct(items@),
            r matches Some(t) ==> t.wf() && t.items() == items@ && t@ == map_of(items@),
    {
        let n = items.len();
        let mut i: usize = 0;
        while i < n
            invariant
                n == items@.len(),
                i <= n,
                forall|a: int, b: int| 0 <= a < i && 0 <= b < n && a != b ==> items@[a].0@ != items@[b].0@,
            decreases n - i,
        {
            let mut j: usize = 0;
            while j < n
                invariant
                    n == items@.len(),
                    i < n,
                    j <= n,
                    forall|b: int| 0 <= b < j && b != i ==> items@[i as int].0@ != items@[b].0@,
                decreases n - j,
            {
                if j != i && items[i].0.same_key(&items[j].0) {
                    return None;
                }
                j = j + 1;
            }
            i = i + 1;
        }
        Some(Table { items })
    }

    /// The stored items, in storage order.
    pub fn into_items(self) -> (r: Vec<(K, V)>)
        requires
            self.wf(),
        ensures
            r@ == self.items(),
            keys_distinct(r@),
            map_of(r@) == self@,
    {
        self.items
    }
}

} // verus!
