use vstd::prelude::*;

verus! {

/// A key type whose equality test is the structural equality of its values.
pub trait CacheKey: Copy + Sized {
    fn same_key(&self, other: &Self) -> (r: bool)
        ensures
            r == (*self == *other),
    ;
}

/// The map that parallel sequences of distinct keys and their entries stand for.
pub open spec fn map_of<K, B>(keys: Seq<K>, values: Seq<B>) -> Map<K, B> {
    Map::new(|k: K| keys.contains(k), |k: K| values[keys.index_of(k)])
}

proof fn lemma_index_of_unique<K>(keys: Seq<K>, i: int)
    requires
        keys.no_duplicates(),
        0 <= i < keys.len(),
    ensures
        keys.contains(keys[i]),
        keys.index_of(keys[i]) == i,
{
    assert(keys.contains(keys[i]));
    let j = keys.index_of(keys[i]);
    assert(0 <= j < keys.len() && keys[j] == keys[i]);
}

proof fn lemma_map_of_update<K, B>(keys: Seq<K>, values: Seq<B>, i: int, v: B)
    requires
        keys.no_duplicates(),
        keys.len() == values.len(),
        0 <= i < keys.len(),
    ensures
        map_of(keys, values.update(i, v)) == map_of(keys, values).insert(keys[i], v),
{
    let a = map_of(keys, values.update(i, v));
    let b = map_of(keys, values).insert(keys[i], v);
    lemma_index_of_unique(keys, i);
    assert forall|k: K| #[trigger] a.contains_key(k) implies a[k] == b[k] by {
        let j = keys.index_of(k);
        assert(0 <= j < keys.len() && keys[j] == k);
        if j != i {
            assert(keys[j] != keys[i]);
        }
    }
    assert(a =~= b);
}

proof fn lemma_map_of_update_any<K, B>(keys: Seq<K>, values: Seq<B>, i: int)
    requires
        keys.no_duplicates(),
        keys.len() == values.len(),
        0 <= i < keys.len(),
    ensures
        forall|v: B|
            #[trigger] map_of(keys, values.update(i, v)) == map_of(keys, values).insert(keys[i], v),
{
    assert forall|v: B|
        #[trigger] map_of(keys, values.update(i, v)) == map_of(keys, values).insert(keys[i], v) by {
        lemma_map_of_update(keys, values, i, v);
    }
}

proof fn lemma_map_of_push<K, B>(keys: Seq<K>, values: Seq<B>, k: K, v: B)
    requires
        keys.no_duplicates(),
        keys.len() == values.len(),
        !keys.contains(k),
    ensures
        keys.push(k).no_duplicates(),
        map_of(keys.push(k), values.push(v)) == map_of(keys, values).insert(k, v),
{
    let nk = keys.push(k);
    let nv = values.push(v);
    assert(nk.no_duplicates()) by {
        assert forall|i: int, j: int|
            0 <= i < nk.len() && 0 <= j < nk.len() && i != j implies nk[i] != nk[j] by {
            if i == keys.len() {
                assert(keys[j] != k);
            } else if j == keys.len() {
                assert(keys[i] != k);
            }
        }
    }
    let a = map_of(nk, nv);
    let b = map_of(keys, values).insert(k, v);
    assert forall|x: K| #[trigger] a.contains_key(x) <==> b.contains_key(x) by {
        if x == k {
            assert(nk[keys.len() as int] == k);
        }
        if keys.contains(x) {
            let j = keys.index_of(x);
            assert(nk[j] == x);
        }
        if nk.contains(x) && x != k {
            let j = nk.index_of(x);
            assert(j < keys.len() && keys[j] == x);
        }
    }
    assert forall|x: K| #[trigger] a.contains_key(x) implies a[x] == b[x] by {
        let j = nk.index_of(x);
        assert(0 <= j < nk.len() && nk[j] == x);
        lemma_index_of_unique(nk, j);
        if x != k {
            assert(j < keys.len());
            assert(keys[j] == x);
            lemma_index_of_unique(keys, j);
        } else {
            lemma_index_of_unique(nk, keys.len() as int);
        }
    }
    assert(a =~= b);
}

/// A get-or-create store that maps each key to one lazily created resource.
/// Entries are never removed: asking again for a key hands back the same entry.
pub struct BufferCache<K, B> {
    keys: Vec<K>,
    values: Vec<B>,
}

impl<K: CacheKey, B> BufferCache<K, B> {
    pub closed spec fn wf(&self) -> bool {
        &&& self.keys@.no_duplicates()
        &&& self.keys@.len() == self.values@.len()
    }

    /// The resource cached under each key.
    pub closed spec fn view(&self) -> Map<K, B> {
        map_of(self.keys@, self.values@)
    }

    pub fn new() -> (r: Self)
        ensures
            r.wf(),
            r@ == Map::<K, B>::empty(),
    {
        let r = BufferCache { keys: Vec::new(), values: Vec::new() };
        assert(r@ =~= Map::<K, B>::empty());
        r
    }

    /// The number of cached resources.
    pub fn len(&self) -> (r: usize)
        requires
            self.wf(),
        ensures
            r == self@.len(),
    {
        proof {
            self.keys@.unique_seq_to_set();
            assert(self@.dom() =~= self.keys@.to_set());
        }
        self.keys.len()
    }

    /// The position of `key` among the cached keys.
    fn find(&self, key: &K) -> (r: Option<usize>)
        requires
            self.wf(),
        ensures
            match r {
                Some(i) => i < self.keys@.len() && self.keys@[i as int] == *key,
                None => !self.keys@.contains(*key),
            },
    {
        let mut i: usize = 0;
        while i < self.keys.len()
            invariant
                0 <= i <= self.keys@.len(),
                forall|j: int| 0 <= j < i ==> self.keys@[j] != *key,
            decreases self.keys@.len() - i,
        {
            if self.keys[i].same_key(key) {
                return Some(i);
            }
            i += 1;
        }
        None
    }

    pub fn contains(&self, key: &K) -> (r: bool)
        requires
            self.wf(),
        ensures
            r == self@.contains_key(*key),
    {
        self.find(key).is_some()
    }

    /// The resource cached under `key`, if any.
    pub fn get(&self, key: &K) -> (r: Option<&B>)
        requires
            self.wf(),
        ensures
            match r {
                Some(b) => self@.contains_key(*key) && *b == self@[*key],
                None => !self@.contains_key(*key),
            },
    {
        match self.find(key) {
            Some(i) => {
                proof {
                    lemma_index_of_unique(self.keys@, i as int);
                }
                Some(&self.values[i])
            },
            None => None,
        }
    }

    /// The resource cached under `key`, if any, for update in place.
    pub fn get_mut(&mut self, key: &K) -> (r: Option<&mut B>)
        requires
            old(self).wf(),
        ensures
            final(self).wf(),
            match r {
                Some(b) => {
                    &&& old(self)@.contains_key(*key)
                    &&& *b == old(self)@[*key]
                    &&& final(self)@ == old(self)@.insert(*key, *final(b))
                },
                None => !old(self)@.contains_key(*key) && final(self)@ == old(self)@,
            },
    {
        match self.find(key) {
            Some(i) => {
                proof {
                    lemma_index_of_unique(self.keys@, i as int);
                    lemma_map_of_update_any(self.keys@, self.values@, i as int);
                }
                Some(&mut self.values[i])
            },
            None => None,
        }
    }

    /// The resource cached under `key`. On a miss it is made by `create` and
    /// cached; on a hit it is handed back as it stands, and `create` is not called.
    pub fn get_or_create<F: FnOnce() -> B>(&mut self, key: K, create: F) -> (r: &mut B)
        requires
            old(self).wf(),
            !old(self)@.contains_key(key) ==> create.requires(()),
        ensures
            final(self).wf(),
            old(self)@.contains_key(key) ==> *r == old(self)@[key],
            !old(self)@.contains_key(key) ==> create.ensures((), *r),
            final(self)@ == old(self)@.insert(key, *final(r)),
    {
        match self.find(&key) {
            Some(i) => {
                proof {
                    lemma_index_of_unique(self.keys@, i as int);
                    lemma_map_of_update_any(self.keys@, self.values@, i as int);
                }
                &mut self.values[i]
            },
            None => {
                let b = create();
                proof {
                    lemma_map_of_push(self.keys@, self.values@, key, b);
                }
                self.keys.push(key);
                self.values.push(b);
                let n = self.values.len() - 1;
                proof {
                    lemma_map_of_update_any(self.keys@, self.values@, n as int);
                    assert(old(self)@.insert(key, b) == map_of(self.keys@, self.values@));
                    assert(self.keys@[n as int] == key);
                    assert forall|v: B| #[trigger] old(self)@.insert(key, b).insert(key, v)
                        == old(self)@.insert(key, v) by {
                        assert(old(self)@.insert(key, b).insert(key, v) =~= old(self)@.insert(key, v));
                    }
                }
                &mut self.values[n]
            },
        }
    }
}

/// Once `get_or_create` has cached `entry` under `key`, a second call with an
/// equal key finds it, hands back that same entry and creates nothing; the
/// cache is then left as it was.
pub proof fn lemma_get_or_create_idempotent<K, B>(cached: Map<K, B>, key: K, entry: B)
    ensures
        cached.insert(key, entry).contains_key(key),
        cached.insert(key, entry)[key] == entry,
        cached.insert(key, entry).insert(key, cached.insert(key, entry)[key]) == cached.insert(
            key,
            entry,
        ),
{
    assert(cached.insert(key, entry).insert(key, entry) =~= cached.insert(key, entry));
}

} // verus!
