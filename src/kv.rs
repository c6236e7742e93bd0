//! A string-to-string map kept as a list of entries with distinct keys.

use vstd::prelude::*;

verus! {

/// The value stored under `k`, if any.
pub open spec fn lookup(m: Map<Seq<char>, Seq<char>>, k: Seq<char>) -> Option<Seq<char>> {
    if m.contains_key(k) {
        Some(m[k])
    } else {
        None
    }
}

/// The characters of an optional string.
pub open spec fn opt_view(o: Option<String>) -> Option<Seq<char>> {
    match o {
        Some(s) => Some(s@),
        None => None,
    }
}

/// `entries` lists exactly the pairs of `m`, each key once.
pub open spec fn represents(entries: Seq<(String, String)>, m: Map<Seq<char>, Seq<char>>) -> bool {
    &&& forall|i: int, j: int|
        0 <= i < j < entries.len() ==> entries[i].0@ != entries[j].0@
    &&& forall|i: int|
        0 <= i < entries.len() ==> #[trigger] m.contains_key(entries[i].0@) && m[entries[i].0@]
            == entries[i].1@
    &&& forall|k: Seq<char>|
        #[trigger] m.contains_key(k) ==> exists|i: int| 0 <= i < entries.len() && entries[i].0@ == k
}

/// A map from string keys to string values.
pub struct KV {
    entries: Vec<(String, String)>,
    model: Ghost<Map<Seq<char>, Seq<char>>>,
}

impl View for KV {
    type V = Map<Seq<char>, Seq<char>>;

    closed spec fn view(&self) -> Map<Seq<char>, Seq<char>> {
        self.model@
    }
}

impl KV {
    #[verifier::type_invariant]
    spec fn well_formed(self) -> bool {
        represents(self.entries@, self.model@)
    }

    /// An empty map.
    pub fn new() -> (r: KV)
        ensures
            r@ == Map::<Seq<char>, Seq<char>>::empty(),
    {
        KV { entries: Vec::new(), model: Ghost(Map::empty()) }
    }

    /// Every key with its value, each key once.
    pub fn pairs(&self) -> (r: Vec<(String, String)>)
        ensures
            represents(r@, self@),
    {
        proof {
            use_type_invariant(self);
        }
        let mut out: Vec<(String, String)> = Vec::new();
        let mut i: usize = 0;
        while i < self.entries.len()
            invariant
                represents(self.entries@, self.model@),
                i <= self.entries@.len(),
                out@.len() == i,
                forall|j: int| 0 <= j < i ==> #[trigger] out@[j].0@ == self.entries@[j].0@
                    && out@[j].1@ == self.entries@[j].1@,
            decreases self.entries@.len() - i,
        {
            out.push((self.entries[i].0.clone(), self.entries[i].1.clone()));
            i = i + 1;
        }
        proof {
            assert forall|k: Seq<char>| #[trigger] self.model@.contains_key(k) implies exists|i: int|
                0 <= i < out@.len() && out@[i].0@ == k by {
                let i = choose|i: int| 0 <= i < self.entries@.len() && self.entries@[i].0@ == k;
                assert(out@[i].0@ == k);
            }
        }
        out
    }

    /// The value stored under `k`.
    pub fn get(&self, k: &String) -> (r: Option<String>)
        ensures
            opt_view(r) == lookup(self@, k@),
    {
        proof {
            use_type_invariant(self);
        }
        let mut i: usize = 0;
        while i < self.entries.len()
            invariant
                represents(self.entries@, self.model@),
                i <= self.entries@.len(),
                forall|j: int| 0 <= j < i ==> self.entries@[j].0@ != k@,
            decreases self.entries@.len() - i,
        {
            if self.entries[i].0 == *k {
                return Some(self.entries[i].1.clone());
            }
            i = i + 1;
        }
        None
    }

    /// The entries whose key is not `k`, with the value that `k` had.
    fn without(&self, k: &String) -> (r: (Vec<(String, String)>, Option<String>))
        ensures
            represents(r.0@, self@.remove(k@)),
            opt_view(r.1) == lookup(self@, k@),
    {
        proof {
            use_type_invariant(self);
        }
        let mut out: Vec<(String, String)> = Vec::new();
        let mut found: Option<String> = None;
        let ghost mut gm: Map<Seq<char>, Seq<char>> = Map::empty();
        let mut i: usize = 0;
        while i < self.entries.len()
            invariant
                represents(self.entries@, self.model@),
                i <= self.entries@.len(),
                represents(out@, gm),
                forall|key: Seq<char>|
                    #[trigger] gm.contains_key(key) <==> (key != k@ && exists|j: int|
                        0 <= j < i && self.entries@[j].0@ == key),
                forall|key: Seq<char>| #[trigger] gm.contains_key(key) ==> gm[key] == self.model@[key],
                opt_view(found) == (if exists|j: int| 0 <= j < i && self.entries@[j].0@ == k@ {
                    lookup(self.model@, k@)
                } else {
                    None
                }),
            decreases self.entries@.len() - i,
        {
            let ghost ki = self.entries@[i as int].0@;
            if self.entries[i].0 == *k {
                found = Some(self.entries[i].1.clone());
            } else {
                proof {
                    assert(self.model@.contains_key(ki));
                    if gm.contains_key(ki) {
                        let j = choose|j: int| 0 <= j < i && self.entries@[j].0@ == ki;
                        assert(self.entries@[j].0@ != self.entries@[i as int].0@);
                    }
                    assert(!gm.contains_key(ki));
                }
                let ghost prev = out@;
                out.push((self.entries[i].0.clone(), self.entries[i].1.clone()));
                proof {
                    let ngm = gm.insert(ki, self.entries@[i as int].1@);
                    assert(out@ == prev.push(self.entries@[i as int]));
                    assert forall|a: int, b: int| 0 <= a < b < out@.len() implies out@[a].0@
                        != out@[b].0@ by {
                        if b == prev.len() {
                            assert(gm.contains_key(prev[a].0@));
                        }
                    }
                    assert forall|a: int| 0 <= a < out@.len() implies #[trigger] ngm.contains_key(
                        out@[a].0@) && ngm[out@[a].0@] == out@[a].1@ by {
                        if a < prev.len() {
                            assert(gm.contains_key(prev[a].0@));
                        }
                    }
                    assert forall|key: Seq<char>| #[trigger] ngm.contains_key(key) implies exists|a: int|
                        0 <= a < out@.len() && out@[a].0@ == key by {
                        if key != ki {
                            assert(gm.contains_key(key));
                            let a = choose|a: int| 0 <= a < prev.len() && prev[a].0@ == key;
                            assert(out@[a].0@ == key);
                        } else {
                            assert(out@[prev.len() as int].0@ == key);
                        }
                    }
                    gm = ngm;
                }
            }
            i = i + 1;
            proof {
                assert forall|key: Seq<char>| #[trigger] gm.contains_key(key) <==> (key != k@
                    && exists|j: int| 0 <= j < i && self.entries@[j].0@ == key) by {
                    if key != k@ && exists|j: int| 0 <= j < i && self.entries@[j].0@ == key {
                        let j = choose|j: int| 0 <= j < i && self.entries@[j].0@ == key;
                        if j < i - 1 {
                            assert(gm.contains_key(key));
                        }
                    }
                }
            }
        }
        assert(gm =~= self.model@.remove(k@));
        (out, found)
    }

    /// Stores `v` under `k`, replacing any earlier value.
    pub fn insert(&mut self, k: String, v: String)
        ensures
            final(self)@ == old(self)@.insert(k@, v@),
    {
        let (mut entries, _) = self.without(&k);
        let ghost m = self@.remove(k@).insert(k@, v@);
        let ghost prev = entries@;
        let ghost rest = self@.remove(k@);
        entries.push((k, v));
        proof {
            let n = prev.len() as int;
            assert forall|a: int, b: int| 0 <= a < b < entries@.len() implies entries@[a].0@
                != entries@[b].0@ by {
                if b == n {
                    assert(rest.contains_key(prev[a].0@));
                }
            }
            assert forall|a: int| 0 <= a < entries@.len() implies #[trigger] m.contains_key(
                entries@[a].0@) && m[entries@[a].0@] == entries@[a].1@ by {
                if a < n {
                    assert(rest.contains_key(prev[a].0@));
                }
            }
            assert forall|key: Seq<char>| #[trigger] m.contains_key(key) implies exists|a: int|
                0 <= a < entries@.len() && entries@[a].0@ == key by {
                if key != k@ {
                    assert(rest.contains_key(key));
                    let a = choose|a: int| 0 <= a < n && prev[a].0@ == key;
                    assert(entries@[a].0@ == key);
                } else {
                    assert(entries@[n].0@ == key);
                }
            }
        }
        *self = KV { entries, model: Ghost(m) };
    }

    /// Removes `k`, returning the value it had.
    pub fn remove(&mut self, k: &String) -> (r: Option<String>)
        ensures
            final(self)@ == old(self)@.remove(k@),
            opt_view(r) == lookup(old(self)@, k@),
    {
        let (entries, found) = self.without(k);
        let ghost m = self@.remove(k@);
        *self = KV { entries, model: Ghost(m) };
        found
    }
}

} // verus!
