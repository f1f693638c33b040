use vstd::prelude::*;

verus! {

/// The map that a sequence of (key, value) pairs builds when each pair is
/// inserted in turn, a later pair replacing an earlier one with the same key.
pub open spec fn assoc_map<V>(s: Seq<(Seq<char>, V)>) -> Map<Seq<char>, V>
    decreases s.len(),
{
    if s.len() == 0 {
        Map::empty()
    } else {
        assoc_map(s.drop_last()).insert(s.last().0, s.last().1)
    }
}

/// The same, for pairs that may be missing: a missing pair is skipped.
pub open spec fn assoc_map_opt(s: Seq<Option<(Seq<char>, Seq<char>)>>) -> Map<
    Seq<char>,
    Seq<char>,
>
    decreases s.len(),
{
    if s.len() == 0 {
        Map::empty()
    } else {
        let m = assoc_map_opt(s.drop_last());
        match s.last() {
            Some(p) => m.insert(p.0, p.1),
            None => m,
        }
    }
}

pub open spec fn opt_pairs_view(v: Seq<Option<(String, String)>>) -> Seq<
    Option<(Seq<char>, Seq<char>)>,
> {
    v.map_values(
        |e: Option<(String, String)>|
            match e {
                Some(p) => Some((p.0@, p.1@)),
                None => None,
            },
    )
}

pub open spec fn keys_unique<V>(s: Seq<(Seq<char>, V)>) -> bool {
    forall|i: int, j: int| 0 <= i < j < s.len() ==> s[i].0 != s[j].0
}

pub proof fn lemma_assoc_lookup<V>(s: Seq<(Seq<char>, V)>, k: Seq<char>)
    ensures
        assoc_map(s).contains_key(k) <==> exists|i: int| 0 <= i < s.len() && s[i].0 == k,
    decreases s.len(),
{
    if s.len() > 0 {
        lemma_assoc_lookup(s.drop_last(), k);
        if assoc_map(s).contains_key(k) && s.last().0 != k {
            let i = choose|i: int| 0 <= i < s.len() - 1 && s.drop_last()[i].0 == k;
            assert(s[i].0 == k);
        }
        if exists|i: int| 0 <= i < s.len() && s[i].0 == k {
            let i = choose|i: int| 0 <= i < s.len() && s[i].0 == k;
            if i < s.len() - 1 {
                assert(s.drop_last()[i].0 == k);
            }
        }
    }
}

pub proof fn lemma_assoc_value<V>(s: Seq<(Seq<char>, V)>, i: int)
    requires
        keys_unique(s),
        0 <= i < s.len(),
    ensures
        assoc_map(s).contains_key(s[i].0),
        assoc_map(s)[s[i].0] == s[i].1,
    decreases s.len(),
{
    if i < s.len() - 1 {
        assert(s.drop_last()[i] == s[i]);
        lemma_assoc_value(s.drop_last(), i);
    }
}

pub proof fn lemma_assoc_update<V>(s: Seq<(Seq<char>, V)>, i: int, v: V)
    requires
        keys_unique(s),
        0 <= i < s.len(),
    ensures
        assoc_map(s.update(i, (s[i].0, v))) == assoc_map(s).insert(s[i].0, v),
    decreases s.len(),
{
    let t = s.update(i, (s[i].0, v));
    if i == s.len() - 1 {
        assert(t.drop_last() == s.drop_last());
        assert(assoc_map(s).insert(s[i].0, v) == assoc_map(s.drop_last()).insert(s[i].0, v));
    } else {
        assert(t.drop_last() == s.drop_last().update(i, (s[i].0, v)));
        lemma_assoc_update(s.drop_last(), i, v);
        assert(s.last().0 != s[i].0);
        assert(assoc_map(t) == assoc_map(s).insert(s[i].0, v));
    }
}

/// A map from strings to strings that keeps its keys in the order in which
/// they were first inserted.
pub struct StrMap {
    entries: Vec<(String, String)>,
}

impl StrMap {
    pub closed spec fn pairs(&self) -> Seq<(Seq<char>, Seq<char>)> {
        self.entries@.map_values(|e: (String, String)| (e.0@, e.1@))
    }

    pub closed spec fn wf(&self) -> bool {
        keys_unique(self.pairs())
    }

    pub open spec fn view(&self) -> Map<Seq<char>, Seq<char>> {
        assoc_map(self.pairs())
    }

    pub fn new() -> (r: StrMap)
        ensures
            r.wf(),
            r.view() == Map::<Seq<char>, Seq<char>>::empty(),
    {
        let r = StrMap { entries: Vec::new() };
        assert(r.pairs() =~= Seq::<(Seq<char>, Seq<char>)>::empty());
        r
    }

    fn position(&self, key: &String) -> (r: Option<usize>)
        requires
            self.wf(),
        ensures
            match r {
                Some(i) => i < self.pairs().len() && self.pairs()[i as int].0 == key@,
                None => forall|i: int|
                    0 <= i < self.pairs().len() ==> self.pairs()[i].0 != key@,
            },
    {
        let mut i: usize = 0;
        while i < self.entries.len()
            invariant
                i <= self.entries.len(),
                self.pairs().len() == self.entries.len(),
                forall|j: int| 0 <= j < i ==> self.pairs()[j].0 != key@,
            decreases self.entries.len() - i,
        {
            if self.entries[i].0 == *key {
                return Some(i);
            }
            i = i + 1;
        }
        None
    }

    /// The value stored under `key`.
    pub fn get(&self, key: &str) -> (r: Option<&String>)
        requires
            self.wf(),
        ensures
            match r {
                Some(v) => self.view().contains_key(key@) && self.view()[key@] == v@,
                None => !self.view().contains_key(key@),
            },
    {
        let k = key.to_owned();
        proof {
            lemma_assoc_lookup(self.pairs(), key@);
        }
        match self.position(&k) {
            Some(i) => {
                proof {
                    lemma_assoc_value(self.pairs(), i as int);
                }
                Some(&self.entries[i].1)
            },
            None => None,
        }
    }

    pub fn contains_key(&self, key: &str) -> (r: bool)
        requires
            self.wf(),
        ensures
            r == self.view().contains_key(key@),
    {
        self.get(key).is_some()
    }

    /// Stores `value` under `key`, replacing what was there.
    pub fn insert(&mut self, key: String, value: String)
        requires
            old(self).wf(),
        ensures
            final(self).wf(),
            final(self).view() == old(self).view().insert(key@, value@),
    {
        match self.position(&key) {
            Some(i) => {
                proof {
                    lemma_assoc_update(self.pairs(), i as int, value@);
                }
                let ghost before = self.pairs();
                self.entries.set(i, (key, value));
                assert(self.pairs() =~= before.update(i as int, (before[i as int].0, value@)));
            },
            None => {
                let ghost before = self.pairs();
                let ghost kv = key@;
                let ghost vv = value@;
                self.entries.push((key, value));
                assert(self.pairs() =~= before.push((kv, vv)));
                assert(self.pairs().drop_last() =~= before);
            },
        }
    }

    /// The map that the pairs build in order, a later pair replacing an
    /// earlier one with the same key; a missing pair is skipped.
    pub fn from_pairs(pairs: Vec<Option<(String, String)>>) -> (r: StrMap)
        ensures
            r.wf(),
            r.view() == assoc_map_opt(opt_pairs_view(pairs@)),
    {
        let mut m = StrMap::new();
        let ghost s = opt_pairs_view(pairs@);
        let mut i: usize = 0;
        while i < pairs.len()
            invariant
                i <= pairs.len(),
                s == opt_pairs_view(pairs@),
                m.wf(),
                m.view() == assoc_map_opt(s.take(i as int)),
            decreases pairs.len() - i,
        {
            assert(s.take(i as int + 1).drop_last() =~= s.take(i as int));
            match &pairs[i] {
                Some(p) => {
                    m.insert(p.0.clone(), p.1.clone());
                },
                None => {},
            }
            i = i + 1;
        }
        assert(s.take(pairs.len() as int) =~= s);
        m
    }

    /// The number of keys.
    pub fn len(&self) -> (r: usize)
        requires
            self.wf(),
        ensures
            r == self.view().len(),
    {
        proof {
            lemma_assoc_len(self.pairs());
        }
        self.entries.len()
    }
}

pub proof fn lemma_assoc_len<V>(s: Seq<(Seq<char>, V)>)
    requires
        keys_unique(s),
    ensures
        assoc_map(s).dom().finite(),
        assoc_map(s).len() == s.len(),
    decreases s.len(),
{
    if s.len() > 0 {
        let t = s.drop_last();
        assert(keys_unique(t));
        lemma_assoc_len(t);
        lemma_assoc_lookup(t, s.last().0);
        assert(!assoc_map(t).contains_key(s.last().0));
    }
}

} // verus!
