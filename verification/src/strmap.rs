use vstd::prelude::*;

verus! {

/// The abstract contents of a `StrMap`: its keys in iteration order and the
/// key-value mapping.
pub struct MapView<V> {
    pub keys: Seq<Seq<char>>,
    pub map: Map<Seq<char>, V>,
}

/// Removes the element at `i` by moving the last element into its place,
/// the way an iterable collection on NEAR keeps its key vector dense.
pub open spec fn swap_remove_seq<A>(s: Seq<A>, i: int) -> Seq<A> {
    s.update(i, s.last()).drop_last()
}

impl<V> MapView<V> {
    pub open spec fn empty() -> MapView<V> {
        MapView { keys: Seq::empty(), map: Map::empty() }
    }

    pub open spec fn contains_key(self, k: Seq<char>) -> bool {
        self.map.contains_key(k)
    }

    /// Inserting a new key appends it to the iteration order; overwriting an
    /// existing key keeps the order.
    pub open spec fn insert(self, k: Seq<char>, v: V) -> MapView<V> {
        MapView {
            keys: if self.map.contains_key(k) {
                self.keys
            } else {
                self.keys.push(k)
            },
            map: self.map.insert(k, v),
        }
    }

    /// Removing a key swaps the last key into its slot.
    pub open spec fn remove(self, k: Seq<char>) -> MapView<V> {
        if self.map.contains_key(k) {
            MapView {
                keys: swap_remove_seq(self.keys, self.keys.index_of(k)),
                map: self.map.remove(k),
            }
        } else {
            self
        }
    }

    /// Removing a present key shortens the key order by one; removing an
    /// absent key changes nothing.
    pub proof fn lemma_remove_len(self, k: Seq<char>)
        requires
            self.consistent(),
        ensures
            self.contains_key(k) ==> self.remove(k).keys.len() == self.keys.len() - 1,
            !self.contains_key(k) ==> self.remove(k) == self,
            self.remove(k).consistent(),
    {
        if self.contains_key(k) {
            assert(self.keys.contains(k));
            let i = self.keys.index_of(k);
            assert(0 <= i < self.keys.len() && self.keys[i] == k);
            let n = self.keys.len() as int;
            let ks = self.remove(k).keys;
            assert(ks.len() == n - 1);
            assert forall|j: int| 0 <= j < n - 1 implies #[trigger] ks[j] == (if j == i {
                self.keys[n - 1]
            } else {
                self.keys[j]
            }) by {}
            assert forall|a: int, b: int|
                0 <= a < ks.len() && 0 <= b < ks.len() && a != b implies ks[a] != ks[b] by {
                let oa = if a == i {
                    n - 1
                } else {
                    a
                };
                let ob = if b == i {
                    n - 1
                } else {
                    b
                };
                assert(ks[a] == self.keys[oa]);
                assert(ks[b] == self.keys[ob]);
            }
            assert forall|kk: Seq<char>| #[trigger]
                self.remove(k).map.contains_key(kk) <==> ks.contains(kk) by {
                if self.remove(k).map.contains_key(kk) {
                    assert(self.keys.contains(kk));
                    let j = choose|j: int| 0 <= j < n && self.keys[j] == kk;
                    assert(j != i);
                    if j == n - 1 {
                        assert(ks[i] == kk);
                    } else {
                        assert(ks[j] == kk);
                    }
                }
                if ks.contains(kk) {
                    let j = choose|j: int| 0 <= j < ks.len() && ks[j] == kk;
                    let oj = if j == i {
                        n - 1
                    } else {
                        j
                    };
                    assert(self.keys[oj] == kk);
                    assert(oj != i);
                    assert(self.keys.contains(kk));
                }
            }
        }
    }

    /// What a well-formed map looks like from outside: the keys in order
    /// are exactly the domain, each once.
    pub open spec fn consistent(self) -> bool {
        &&& self.keys.no_duplicates()
        &&& forall|k: Seq<char>| #[trigger] self.map.contains_key(k) <==> self.keys.contains(k)
    }
}

/// A map from strings to values that remembers insertion order, backed by
/// two parallel vectors.
pub struct StrMap<V> {
    keys: Vec<String>,
    vals: Vec<V>,
    contents: Ghost<Map<Seq<char>, V>>,
}

impl<V> View for StrMap<V> {
    type V = MapView<V>;

    closed spec fn view(&self) -> MapView<V> {
        MapView { keys: self.keys@.map_values(|s: String| s@), map: self.contents@ }
    }
}

impl<V> StrMap<V> {
    pub closed spec fn wf(&self) -> bool {
        &&& self.keys@.len() == self.vals@.len()
        &&& self@.keys.no_duplicates()
        &&& forall|i: int|
            0 <= i < self.keys@.len() ==> #[trigger] self.contents@.contains_key(self.keys@[i]@)
                && self.contents@[self.keys@[i]@] == self.vals@[i]
        &&& forall|k: Seq<char>| #[trigger]
            self.contents@.contains_key(k) ==> self@.keys.contains(k)
    }

    /// A well-formed map's view is consistent: its keys in order are its
    /// domain, without repetition.
    pub proof fn lemma_wf_consistent(&self)
        requires
            self.wf(),
        ensures
            self@.consistent(),
            self@.map.dom().finite(),
            self@.map.dom().len() == self@.keys.len(),
    {
        assert forall|k: Seq<char>| self@.keys.contains(k) implies #[trigger] self@.map.contains_key(k) by {
            let i = choose|i: int| 0 <= i < self@.keys.len() && self@.keys[i] == k;
            assert(self.contents@.contains_key(self.keys@[i]@));
        }
        assert(self@.map.dom() =~= self@.keys.to_set());
        self@.keys.unique_seq_to_set();
    }

    pub fn new() -> (m: Self)
        ensures
            m.wf(),
            m@ == MapView::<V>::empty(),
    {
        let m = StrMap { keys: Vec::new(), vals: Vec::new(), contents: Ghost(Map::empty()) };
        assert(m@.keys =~= Seq::<Seq<char>>::empty());
        m
    }

    pub fn len(&self) -> (n: usize)
        requires
            self.wf(),
        ensures
            n == self@.keys.len(),
    {
        self.keys.len()
    }

    /// The position of `k` in the iteration order, if present.
    pub fn find(&self, k: &String) -> (r: Option<usize>)
        requires
            self.wf(),
        ensures
            r matches Some(i) ==> i < self@.keys.len() && self@.keys[i as int] == k@
                && self@.keys.index_of(k@) == i,
            r is None <==> !self@.contains_key(k@),
    {
        let n = self.keys.len();
        let mut i: usize = 0;
        while i < n
            invariant
                self.wf(),
                n == self.keys@.len(),
                i <= n,
                forall|j: int| 0 <= j < i ==> self@.keys[j] != k@,
            decreases n - i,
        {
            if self.keys[i] == *k {
                proof {
                    assert(self@.keys[i as int] == k@);
                    assert(self@.keys.contains(k@));
                    let j = self@.keys.index_of(k@);
                    assert(self@.keys[j] == k@);
                }
                return Some(i);
            }
            i = i + 1;
        }
        proof {
            if self@.contains_key(k@) {
                assert(self@.keys.contains(k@));
                let j = choose|j: int| 0 <= j < self@.keys.len() && self@.keys[j] == k@;
                assert(false);
            }
        }
        None
    }

    pub fn contains_key(&self, k: &String) -> (b: bool)
        requires
            self.wf(),
        ensures
            b == self@.contains_key(k@),
    {
        self.find(k).is_some()
    }

    pub fn get(&self, k: &String) -> (r: Option<&V>)
        requires
            self.wf(),
        ensures
            r matches Some(v) ==> self@.contains_key(k@) && *v == self@.map[k@],
            r is None <==> !self@.contains_key(k@),
    {
        match self.find(k) {
            Some(i) => {
                assert(self.contents@.contains_key(self.keys@[i as int]@));
                Some(&self.vals[i])
            },
            None => None,
        }
    }

    /// The keys in iteration order.
    pub fn keys_vec(&self) -> (ks: Vec<String>)
        requires
            self.wf(),
        ensures
            ks@.map_values(|s: String| s@) == self@.keys,
    {
        let mut ks: Vec<String> = Vec::new();
        let n = self.keys.len();
        let mut i: usize = 0;
        while i < n
            invariant
                self.wf(),
                n == self.keys@.len(),
                i <= n,
                ks@.len() == i,
                forall|j: int| 0 <= j < i ==> #[trigger] ks@[j]@ == self@.keys[j],
            decreases n - i,
        {
            ks.push(self.keys[i].clone());
            i = i + 1;
        }
        assert(ks@.map_values(|s: String| s@) =~= self@.keys);
        ks
    }

    /// The key at position `i` of the iteration order.
    pub fn key_at(&self, i: usize) -> (k: &String)
        requires
            self.wf(),
            i < self@.keys.len(),
        ensures
            k@ == self@.keys[i as int],
    {
        &self.keys[i]
    }

    /// The value stored under the key at position `i`.
    pub fn value_at(&self, i: usize) -> (v: &V)
        requires
            self.wf(),
            i < self@.keys.len(),
        ensures
            *v == self@.map[self@.keys[i as int]],
    {
        assert(self.contents@.contains_key(self.keys@[i as int]@));
        &self.vals[i]
    }

    #[verifier::rlimit(40)]
    pub fn insert(&mut self, k: String, v: V)
        requires
            old(self).wf(),
        ensures
            final(self).wf(),
            final(self)@ == old(self)@.insert(k@, v),
    {
        let ghost gk = k@;
        let ghost gv = v;
        let ghost old_keys = self@.keys;
        match self.find(&k) {
            Some(i) => {
                self.vals.set(i, v);
                proof {
                    self.contents@ = self.contents@.insert(gk, gv);
                    assert(self@.keys =~= old_keys);
                    assert forall|j: int| 0 <= j < self.keys@.len() implies #[trigger] self.contents@.contains_key(
                        self.keys@[j]@,
                    ) && self.contents@[self.keys@[j]@] == self.vals@[j] by {
                        assert(self.keys@[j] == old(self).keys@[j]);
                        if j != i {
                            assert(old_keys[j] != old_keys[i as int]);
                            assert(old(self).contents@.contains_key(old(self).keys@[j]@));
                            assert(self.vals@[j] == old(self).vals@[j]);
                        } else {
                            assert(self.keys@[j]@ == gk);
                            assert(self.vals@[j] == gv);
                        }
                    }
                    assert forall|kk: Seq<char>| #[trigger]
                        self.contents@.contains_key(kk) implies self@.keys.contains(kk) by {
                        if kk == gk {
                            assert(self@.keys[i as int] == gk);
                        }
                    }
                }
            },
            None => {
                self.keys.push(k);
                self.vals.push(v);
                proof {
                    self.contents@ = self.contents@.insert(gk, gv);
                    assert(self@.keys =~= old_keys.push(gk));
                    assert forall|a: int, b: int|
                        0 <= a < self@.keys.len() && 0 <= b < self@.keys.len() && a != b implies self@.keys[a]
                        != self@.keys[b] by {
                        if a == old_keys.len() as int {
                            assert(!old_keys.contains(gk));
                        } else if b == old_keys.len() as int {
                            assert(!old_keys.contains(gk));
                        }
                    }
                    assert forall|j: int| 0 <= j < self.keys@.len() implies #[trigger] self.contents@.contains_key(
                        self.keys@[j]@,
                    ) && self.contents@[self.keys@[j]@] == self.vals@[j] by {
                        if j == old_keys.len() {
                            assert(self.keys@[j]@ == gk);
                            assert(self.vals@[j] == gv);
                        } else {
                            assert(self.keys@[j] == old(self).keys@[j]);
                            assert(self.vals@[j] == old(self).vals@[j]);
                            assert(old_keys[j] == self@.keys[j]);
                            assert(old(self).contents@.contains_key(old(self).keys@[j]@));
                            assert(old_keys[j] != gk) by {
                                if old_keys[j] == gk {
                                    assert(old_keys.contains(gk));
                                }
                            }
                        }
                    }
                    assert forall|kk: Seq<char>| #[trigger]
                        self.contents@.contains_key(kk) implies self@.keys.contains(kk) by {
                        if kk == gk {
                            assert(self@.keys[old_keys.len() as int] == gk);
                        } else {
                            assert(old_keys.contains(kk));
                            let j = choose|j: int| 0 <= j < old_keys.len() && old_keys[j] == kk;
                            assert(self@.keys[j] == kk);
                        }
                    }
                }
            },
        }
    }

    /// Removes `k`, returning whether it was present.
    #[verifier::rlimit(40)]
    pub fn remove(&mut self, k: &String) -> (was_present: bool)
        requires
            old(self).wf(),
        ensures
            final(self).wf(),
            final(self)@ == old(self)@.remove(k@),
            was_present == old(self)@.contains_key(k@),
    {
        let ghost gk = k@;
        let ghost old_keys = self@.keys;
        let ghost old_vals = self.vals@;
        let ghost old_contents = self.contents@;
        match self.find(k) {
            Some(i) => {
                let _ = self.keys.swap_remove(i);
                let _ = self.vals.swap_remove(i);
                proof {
                    self.contents@ = self.contents@.remove(gk);
                    let n = old_keys.len() as int;
                    assert(self@.keys =~= swap_remove_seq(old_keys, i as int));
                    assert(self@.keys.len() == n - 1);
                    assert forall|j: int| 0 <= j < n - 1 implies #[trigger] self@.keys[j] == (if j == i {
                        old_keys[n - 1]
                    } else {
                        old_keys[j]
                    }) && self.vals@[j] == (if j == i {
                        old_vals[n - 1]
                    } else {
                        old_vals[j]
                    }) by {}
                    assert forall|a: int, b: int|
                        0 <= a < self@.keys.len() && 0 <= b < self@.keys.len() && a != b implies self@.keys[a]
                        != self@.keys[b] by {
                        let oa = if a == i {
                            n - 1
                        } else {
                            a
                        };
                        let ob = if b == i {
                            n - 1
                        } else {
                            b
                        };
                        assert(self@.keys[a] == old_keys[oa]);
                        assert(self@.keys[b] == old_keys[ob]);
                    }
                    assert forall|j: int| 0 <= j < self.keys@.len() implies #[trigger] self.contents@.contains_key(
                        self.keys@[j]@,
                    ) && self.contents@[self.keys@[j]@] == self.vals@[j] by {
                        let oj = if j == i {
                            n - 1
                        } else {
                            j
                        };
                        assert(self@.keys[j] == old_keys[oj]);
                        assert(old_keys[oj] != old_keys[i as int]);
                        assert(old(self).contents@.contains_key(old(self).keys@[oj]@));
                        assert(self.keys@[j] == old(self).keys@[oj]);
                        assert(self.vals@[j] == old_vals[oj]);
                    }
                    assert forall|kk: Seq<char>| #[trigger]
                        self.contents@.contains_key(kk) implies self@.keys.contains(kk) by {
                        assert(old_keys.contains(kk));
                        let j = choose|j: int| 0 <= j < n && old_keys[j] == kk;
                        assert(j != i);
                        if j == n - 1 {
                            assert(self@.keys[i as int] == kk);
                        } else {
                            assert(self@.keys[j] == kk);
                        }
                    }
                }
                true
            },
            None => { false },
        }
    }
}

} // verus!
