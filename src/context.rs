use crate::route::ViewPathArgs;
use crate::session::{Session, SessionProvider};
use crate::strmap::{assoc_map, keys_unique, lemma_assoc_lookup, lemma_assoc_update, lemma_assoc_value};
use std::sync::Arc;
use vstd::prelude::*;

verus! {

/// The kinds of value that the per-request bag holds.
#[derive(Debug, Clone, Copy, PartialEq, Eq, Structural)]
pub enum ValueKind {
    Int,
    Bool,
    Text,
    Json,
}

/// A value of the per-request bag.
pub enum AnyValue {
    Int(i64),
    Bool(bool),
    Text(String),
    Json(serde_json::Value),
}

impl AnyValue {
    pub open spec fn kind(&self) -> ValueKind {
        match self {
            AnyValue::Int(_) => ValueKind::Int,
            AnyValue::Bool(_) => ValueKind::Bool,
            AnyValue::Text(_) => ValueKind::Text,
            AnyValue::Json(_) => ValueKind::Json,
        }
    }

    pub fn kind_of(&self) -> (r: ValueKind)
        ensures
            r == self.kind(),
    {
        match self {
            AnyValue::Int(_) => ValueKind::Int,
            AnyValue::Bool(_) => ValueKind::Bool,
            AnyValue::Text(_) => ValueKind::Text,
            AnyValue::Json(_) => ValueKind::Json,
        }
    }
}

/// Per-request scratch space: values of several kinds under string keys. A
/// read names the kind that it expects, and a value of another kind reads as
/// absent.
pub struct AnyMap {
    entries: Vec<(String, AnyValue)>,
}

pub open spec fn bag_view(v: Seq<(String, AnyValue)>) -> Seq<(Seq<char>, AnyValue)> {
    v.map_values(|e: (String, AnyValue)| (e.0@, e.1))
}

impl AnyMap {
    pub closed spec fn members(&self) -> Seq<(Seq<char>, AnyValue)> {
        bag_view(self.entries@)
    }

    pub closed spec fn wf(&self) -> bool {
        keys_unique(self.members())
    }

    pub open spec fn view(&self) -> Map<Seq<char>, AnyValue> {
        assoc_map(self.members())
    }

    /// What a read of `key` expecting `kind` finds.
    pub open spec fn lookup(&self, key: Seq<char>, kind: ValueKind) -> Option<AnyValue> {
        if self@.contains_key(key) && self@[key].kind() == kind {
            Some(self@[key])
        } else {
            None
        }
    }

    pub fn new() -> (r: AnyMap)
        ensures
            r.wf(),
            r@ == Map::<Seq<char>, AnyValue>::empty(),
    {
        let r = AnyMap { entries: Vec::new() };
        assert(r.members() =~= Seq::<(Seq<char>, AnyValue)>::empty());
        r
    }

    fn position(&self, key: &String) -> (r: Option<usize>)
        requires
            self.wf(),
        ensures
            match r {
                Some(i) => i < self.members().len() && self.members()[i as int].0 == key@,
                None => forall|i: int|
                    0 <= i < self.members().len() ==> self.members()[i].0 != key@,
            },
    {
        let mut i: usize = 0;
        while i < self.entries.len()
            invariant
                i <= self.entries.len(),
                self.members().len() == self.entries.len(),
                forall|j: int| 0 <= j < i ==> self.members()[j].0 != key@,
            decreases self.entries.len() - i,
        {
            if self.entries[i].0 == *key {
                return Some(i);
            }
            i = i + 1;
        }
        None
    }

    /// The value under `key`, where it is of kind `kind`.
    pub fn get(&self, key: &str, kind: ValueKind) -> (r: Option<&AnyValue>)
        requires
            self.wf(),
        ensures
            match r {
                Some(v) => self.lookup(key@, kind) == Some(*v),
                None => self.lookup(key@, kind) is None,
            },
    {
        let k = key.to_owned();
        proof {
            lemma_assoc_lookup(self.members(), key@);
        }
        match self.position(&k) {
            Some(i) => {
                proof {
                    lemma_assoc_value(self.members(), i as int);
                }
                let v = &self.entries[i].1;
                if v.kind_of() == kind {
                    Some(v)
                } else {
                    None
                }
            },
            None => None,
        }
    }

    /// Stores `value` under `key`, replacing what was there, of any kind.
    pub fn set(&mut self, key: &str, value: AnyValue)
        requires
            old(self).wf(),
        ensures
            final(self).wf(),
            final(self)@ == old(self)@.insert(key@, value),
    {
        let k = key.to_owned();
        match self.position(&k) {
            Some(i) => {
                proof {
                    lemma_assoc_update(self.members(), i as int, value);
                }
                let ghost before = self.members();
                self.entries.set(i, (k, value));
                assert(self.members() =~= before.update(i as int, (before[i as int].0, value)));
            },
            None => {
                let ghost before = self.members();
                let ghost kv = k@;
                self.entries.push((k, value));
                assert(self.members() =~= before.push((kv, value)));
                assert(self.members().drop_last() =~= before);
            },
        }
    }

    /// The value under `key`, for change in place, where it is of kind
    /// `kind`.
    pub fn get_mut(&mut self, key: &str, kind: ValueKind) -> (r: Option<&mut AnyValue>)
        requires
            old(self).wf(),
        ensures
            match r {
                Some(v) => old(self).lookup(key@, kind) == Some(*v) && final(self).wf()
                    && final(self)@ == old(self)@.insert(key@, *final(v)),
                None => old(self).lookup(key@, kind) is None && *final(self) == *old(self),
            },
    {
        let k = key.to_owned();
        proof {
            lemma_assoc_lookup(self.members(), key@);
        }
        match self.position(&k) {
            Some(i) => {
                proof {
                    lemma_assoc_value(self.members(), i as int);
                }
                if self.entries[i].1.kind_of() == kind {
                    proof {
                        lemma_assoc_update_any(self.entries@, i as int);
                    }
                    let entry = &mut self.entries[i];
                    Some(&mut entry.1)
                } else {
                    None
                }
            },
            None => None,
        }
    }
}

proof fn lemma_assoc_update_any(ents: Seq<(String, AnyValue)>, i: int)
    requires
        keys_unique(bag_view(ents)),
        0 <= i < ents.len(),
    ensures
        forall|e: (String, AnyValue)|
            #![trigger bag_view(ents.update(i, e))]
            e.0@ == ents[i].0@ ==> keys_unique(bag_view(ents.update(i, e))) && assoc_map(
                bag_view(ents.update(i, e)),
            ) == assoc_map(bag_view(ents)).insert(ents[i].0@, e.1),
{
    let s = bag_view(ents);
    assert forall|e: (String, AnyValue)|
        #![trigger bag_view(ents.update(i, e))]
        e.0@ == ents[i].0@ implies keys_unique(bag_view(ents.update(i, e))) && assoc_map(
            bag_view(ents.update(i, e)),
        ) == assoc_map(s).insert(ents[i].0@, e.1) by {
        assert(bag_view(ents.update(i, e)) =~= s.update(i, (s[i].0, e.1)));
        lemma_assoc_update(s, i, e.1);
    }
}

/// Per-request carrier: the scratch bag, the session once opened, the
/// configured session provider, the shared application state and, where
/// routing succeeded, the path parameters.
pub struct Context<S> {
    pub any_map: AnyMap,
    pub session: Option<Session>,
    pub session_provider: Option<Arc<SessionProvider>>,
    pub state: Arc<S>,
    pub view_args: Option<ViewPathArgs>,
}

impl<S> Context<S> {
    /// A fresh context: an empty bag and no session yet.
    pub fn new(
        session_provider: Option<Arc<SessionProvider>>,
        state: Arc<S>,
        view_args: Option<ViewPathArgs>,
    ) -> (r: Context<S>)
        ensures
            r.any_map.wf(),
            r.any_map@ == Map::<Seq<char>, AnyValue>::empty(),
            r.session is None,
            r.session_provider == session_provider,
            r.state == state,
            r.view_args == view_args,
    {
        Context { any_map: AnyMap::new(), session: None, session_provider, state, view_args }
    }

    /// The shared application state.
    pub fn get_state(&self) -> (r: &S)
        ensures
            *r == *self.state,
    {
        &*self.state
    }
}

} // verus!
