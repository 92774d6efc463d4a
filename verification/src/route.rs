use vstd::prelude::*;

use crate::topic::{first_segment, spec_first_segment};

verus! {

/// The kind of source a topic prefix is bound to: which decoder handles
/// its messages.
#[derive(Clone, Copy, PartialEq, Eq, Structural, Debug)]
pub enum SourceKind {
    Shelly,
    Sensor,
    OpenDtu,
}

/// Why a route registration was refused.
#[derive(Clone, Copy, PartialEq, Eq, Structural, Debug)]
pub enum RouteError {
    /// The prefix is already bound: prefixes are disjoint by design, so
    /// one topic prefix maps to exactly one handler.
    DuplicatePrefix,
}

/// The handler bound to a routing key in a list of route entries: the
/// first entry whose prefix equals the key, if any.
pub open spec fn lookup(entries: Seq<(Seq<char>, SourceKind)>, key: Seq<char>) -> Option<SourceKind>
    decreases entries.len(),
{
    if entries.len() == 0 {
        None
    } else if entries[0].0 == key {
        Some(entries[0].1)
    } else {
        lookup(entries.drop_first(), key)
    }
}

/// A key is bound exactly when some entry carries it.
pub proof fn lemma_lookup_some(entries: Seq<(Seq<char>, SourceKind)>, key: Seq<char>)
    ensures
        (lookup(entries, key) is Some) <==> exists|j: int|
            0 <= j < entries.len() && entries[j].0 == key,
    decreases entries.len(),
{
    if entries.len() > 0 {
        lemma_lookup_some(entries.drop_first(), key);
        if entries[0].0 == key {
            assert(0 <= 0 < entries.len() && entries[0].0 == key);
        } else {
            if lookup(entries.drop_first(), key) is Some {
                let j = choose|j: int|
                    0 <= j < entries.drop_first().len() && entries.drop_first()[j].0 == key;
                assert(entries[j + 1].0 == key);
            }
            if exists|j: int| 0 <= j < entries.len() && entries[j].0 == key {
                let j = choose|j: int| 0 <= j < entries.len() && entries[j].0 == key;
                assert(entries.drop_first()[j - 1].0 == key);
            }
        }
    }
}

/// Maps each registered topic prefix to the handler bound to it. Built
/// once at startup; looked up on every inbound message; never mutated
/// while the ingress loop runs, so lookups need no locking.
pub struct RouteTable {
    entries: Vec<(String, SourceKind)>,
}

impl RouteTable {
    /// The registered routes, in registration order.
    pub closed spec fn entries_view(&self) -> Seq<(Seq<char>, SourceKind)> {
        self.entries@.map_values(|e: (String, SourceKind)| (e.0@, e.1))
    }

    /// Prefixes are disjoint: no key is registered twice.
    pub open spec fn wf(&self) -> bool {
        forall|i: int, j: int|
            0 <= i < j < self.entries_view().len() ==> self.entries_view()[i].0
                != self.entries_view()[j].0
    }

    pub fn new() -> (t: RouteTable)
        ensures
            t.wf(),
            t.entries_view() == Seq::<(Seq<char>, SourceKind)>::empty(),
    {
        let t = RouteTable { entries: Vec::new() };
        proof {
            assert(t.entries_view() =~= Seq::<(Seq<char>, SourceKind)>::empty());
        }
        t
    }

    /// The handler bound to a routing key, if any.
    fn find(&self, key: &str) -> (r: Option<SourceKind>)
        ensures
            r == lookup(self.entries_view(), key@),
    {
        let k: String = key.to_owned();
        let n = self.entries.len();
        let mut i: usize = 0;
        proof {
            assert(self.entries_view().skip(0) =~= self.entries_view());
        }
        while i < n
            invariant
                0 <= i <= n,
                n == self.entries.len(),
                k@ == key@,
                lookup(self.entries_view(), key@) == lookup(
                    self.entries_view().skip(i as int),
                    key@,
                ),
            decreases n - i,
        {
            let ghost ev = self.entries_view();
            proof {
                assert(ev.skip(i as int)[0] == ev[i as int]);
            }
            if self.entries[i].0 == k {
                proof {
                    let seg: Seq<char> = self.entries[i as int].0@;
                    assert(ev[i as int].0 == seg);
                }
                return Some(self.entries[i].1);
            }
            proof {
                assert(ev.skip(i as int).drop_first() =~= ev.skip(i + 1));
            }
            i = i + 1;
        }
        proof {
            assert(self.entries_view().skip(n as int) =~= Seq::<(Seq<char>, SourceKind)>::empty());
        }
        None
    }

    /// Binds a prefix to a handler kind. Refused exactly when the prefix
    /// is already bound; the table is then unchanged.
    pub fn register(&mut self, prefix: String, kind: SourceKind) -> (r: Result<(), RouteError>)
        requires
            old(self).wf(),
        ensures
            final(self).wf(),
            match r {
                Ok(()) => lookup(old(self).entries_view(), prefix@) is None
                    && final(self).entries_view() == old(self).entries_view().push(
                    (prefix@, kind),
                ),
                Err(RouteError::DuplicatePrefix) => lookup(old(self).entries_view(), prefix@)
                    is Some && final(self).entries_view() == old(self).entries_view(),
            },
    {
        match self.find(prefix.as_str()) {
            Some(_) => Err(RouteError::DuplicatePrefix),
            None => {
                let ghost ev0 = self.entries_view();
                proof {
                    lemma_lookup_some(ev0, prefix@);
                }
                self.entries.push((prefix, kind));
                proof {
                    assert(self.entries_view() =~= ev0.push(
                        (self.entries[ev0.len() as int].0@, kind),
                    ));
                    assert forall|i: int, j: int|
                        0 <= i < j < self.entries_view().len() implies self.entries_view()[i].0
                        != self.entries_view()[j].0 by {
                        if j < ev0.len() {
                            assert(ev0[i].0 != ev0[j].0);
                        } else {
                            assert(!(exists|m: int| 0 <= m < ev0.len() && ev0[m].0
                                == self.entries_view()[j].0));
                        }
                    }
                }
                Ok(())
            },
        }
    }

    /// The registered prefixes, in registration order: what one
    /// subscription round covers, each wildcard-suffixed at the transport
    /// edge. The table keeps prefixes disjoint, so the list holds every
    /// registered prefix exactly once.
    pub fn prefixes(&self) -> (r: Vec<String>)
        ensures
            r.deep_view() == self.entries_view().map_values(|e: (Seq<char>, SourceKind)| e.0),
    {
        let ghost keys = self.entries_view().map_values(|e: (Seq<char>, SourceKind)| e.0);
        let mut r: Vec<String> = Vec::new();
        let n = self.entries.len();
        let mut i: usize = 0;
        while i < n
            invariant
                0 <= i <= n,
                n == self.entries.len(),
                keys == self.entries_view().map_values(|e: (Seq<char>, SourceKind)| e.0),
                keys.len() == n as int,
                r@.len() == i as int,
                forall|j: int| 0 <= j < i as int ==> (#[trigger] r@[j])@ == keys[j],
            decreases n - i,
        {
            r.push(self.entries[i].0.clone());
            proof {
                assert(keys[i as int] == self.entries_view()[i as int].0);
                assert(self.entries_view()[i as int].0 == self.entries@[i as int].0@);
            }
            i = i + 1;
        }
        proof {
            assert forall|j: int| 0 <= j < n as int implies r.deep_view()[j] == keys[j] by {
                assert(r@[j]@ == keys[j]);
            }
            assert(r.deep_view() =~= keys);
        }
        r
    }

    /// Resolves a topic to the handler bound to its first `/`-delimited
    /// segment. Returns no handler exactly when that routing key is not
    /// registered: the message is then discarded, with no side effect —
    /// an unmatched topic is never fatal.
    pub fn resolve(&self, topic: &str) -> (r: Option<SourceKind>)
        ensures
            r == lookup(self.entries_view(), spec_first_segment(topic@)),
    {
        let key = first_segment(topic);
        self.find(key)
    }
}

} // verus!
