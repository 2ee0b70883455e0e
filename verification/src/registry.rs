//! The registry of sessions.
//!
//! Every session belongs to one identity, and an identity has at most one
//! session at a time. What a session is made of is the caller's matter: the
//! registry keeps it, finds it again, and hands it back when it is removed
//! or displaced, so that the caller can tear it down.

use vstd::prelude::*;

verus! {

/// The sessions by identity.
pub struct Registry<S> {
    entries: Vec<(String, S)>,
}

/// Whether some entry belongs to the identity.
spec fn listed<S>(entries: Seq<(String, S)>, identity: Seq<char>) -> bool {
    exists|i: int| 0 <= i < entries.len() && (#[trigger] entries[i]).0@ == identity
}

/// The place of an entry that belongs to the identity.
spec fn place<S>(entries: Seq<(String, S)>, identity: Seq<char>) -> int {
    choose|i: int| 0 <= i < entries.len() && (#[trigger] entries[i]).0@ == identity
}

/// The sessions of a list of entries, by identity.
spec fn sessions_of<S>(entries: Seq<(String, S)>) -> Map<Seq<char>, S> {
    Map::new(
        |identity: Seq<char>| listed(entries, identity),
        |identity: Seq<char>| entries[place(entries, identity)].1,
    )
}

/// No two entries belong to the same identity.
spec fn distinct<S>(entries: Seq<(String, S)>) -> bool {
    forall|i: int, j: int|
        0 <= i < entries.len() && 0 <= j < entries.len() && i != j ==> (#[trigger] entries[i]).0@ != (
        #[trigger] entries[j]).0@
}

impl<S> View for Registry<S> {
    type V = Map<Seq<char>, S>;

    closed spec fn view(&self) -> Map<Seq<char>, S> {
        sessions_of(self.entries@)
    }
}

impl<S> Registry<S> {
    #[verifier::type_invariant]
    spec fn one_session_each(self) -> bool {
        distinct(self.entries@)
    }

    /// A registry without sessions.
    pub fn new() -> (registry: Registry<S>)
        ensures
            registry@ == Map::<Seq<char>, S>::empty(),
    {
        let registry = Registry { entries: Vec::new() };
        assert(registry@ =~= Map::<Seq<char>, S>::empty());
        registry
    }

    /// Where the entry of the identity stands, if it has one.
    fn position(&self, identity: &str) -> (at: Option<usize>)
        ensures
            match at {
                Some(i) => i < self.entries@.len() && self.entries@[i as int].0@ == identity@,
                None => !listed(self.entries@, identity@),
            },
    {
        let wanted = identity.to_owned();
        let mut i: usize = 0;
        while i < self.entries.len()
            invariant
                i <= self.entries@.len(),
                wanted@ == identity@,
                forall|k: int| 0 <= k < i ==> (#[trigger] self.entries@[k]).0@ != identity@,
            decreases self.entries.len() - i,
        {
            if self.entries[i].0 == wanted {
                return Some(i);
            }
            i = i + 1;
        }
        None
    }

    /// The session of the identity, if it has one.
    pub fn get(&self, identity: &str) -> (session: Option<&S>)
        ensures
            match session {
                Some(found) => self@.contains_key(identity@) && *found == self@[identity@],
                None => !self@.contains_key(identity@),
            },
    {
        proof {
            use_type_invariant(self);
        }
        match self.position(identity) {
            Some(i) => {
                assert(self.entries@[i as int].0@ == identity@);
                Some(&self.entries[i].1)
            },
            None => None,
        }
    }

    /// Takes the session of the identity out of the registry and hands it
    /// back. An identity without a session changes nothing.
    pub fn remove(&mut self, identity: &str) -> (session: Option<S>)
        ensures
            final(self)@ == old(self)@.remove(identity@),
            match session {
                Some(removed) => old(self)@.contains_key(identity@) && removed == old(
                    self,
                )@[identity@],
                None => !old(self)@.contains_key(identity@),
            },
    {
        proof {
            use_type_invariant(&*self);
        }
        match self.position(identity) {
            Some(i) => {
                let ghost before = self.entries@;
                assert(before[i as int].0@ == identity@);
                let mut entries: Vec<(String, S)> = Vec::new();
                core::mem::swap(&mut self.entries, &mut entries);
                let entry = entries.remove(i);
                proof {
                    let after = entries@;
                    assert forall|k: int| 0 <= k < after.len() implies (#[trigger] after[k])
                        == before[if k < i {
                        k
                    } else {
                        k + 1
                    }] by {}
                    assert(distinct(after));
                    assert forall|name: Seq<char>| listed(after, name) <==> (listed(before, name)
                        && name != identity@) by {
                        if listed(after, name) {
                            let k = place(after, name);
                            let origin = if k < i {
                                k
                            } else {
                                k + 1
                            };
                            assert(before[origin].0@ == name);
                        }
                        if listed(before, name) && name != identity@ {
                            let origin = place(before, name);
                            let k = if origin < i {
                                origin
                            } else {
                                origin - 1
                            };
                            assert(after[k].0@ == name);
                        }
                    }
                    assert forall|name: Seq<char>| listed(after, name) implies after[place(
                        after,
                        name,
                    )].1 == before[place(before, name)].1 by {
                        let k = place(after, name);
                        let origin = if k < i {
                            k
                        } else {
                            k + 1
                        };
                        assert(before[origin].0@ == name);
                    }
                    assert(sessions_of(after) =~= sessions_of(before).remove(identity@));
                }
                core::mem::swap(&mut self.entries, &mut entries);
                Some(entry.1)
            },
            None => {
                assert(self@ =~= old(self)@.remove(identity@));
                None
            },
        }
    }

    /// Registers a session under the identity. A session that the identity
    /// had before is displaced and handed back.
    pub fn insert(&mut self, identity: &str, session: S) -> (displaced: Option<S>)
        ensures
            final(self)@ == old(self)@.insert(identity@, session),
            match displaced {
                Some(prior) => old(self)@.contains_key(identity@) && prior == old(
                    self,
                )@[identity@],
                None => !old(self)@.contains_key(identity@),
            },
    {
        let displaced = self.remove(identity);
        proof {
            use_type_invariant(&*self);
        }
        let ghost before = self.entries@;
        assert(!listed(before, identity@)) by {
            assert(!old(self)@.remove(identity@).contains_key(identity@));
            assert(sessions_of(before).contains_key(identity@) == listed(before, identity@));
        }
        let mut entries: Vec<(String, S)> = Vec::new();
        core::mem::swap(&mut self.entries, &mut entries);
        entries.push((identity.to_owned(), session));
        proof {
            let after = entries@;
            let last = before.len() as int;
            assert(after[last].0@ == identity@);
            assert forall|k: int| 0 <= k < before.len() implies (#[trigger] after[k])
                == before[k] by {}
            assert(distinct(after));
            assert forall|name: Seq<char>| listed(after, name) <==> (listed(before, name) || name
                == identity@) by {
                if listed(after, name) {
                    let k = place(after, name);
                    if k < last {
                        assert(before[k].0@ == name);
                    }
                }
                if listed(before, name) {
                    let k = place(before, name);
                    assert(after[k].0@ == name);
                }
            }
            assert forall|name: Seq<char>| listed(before, name) implies after[place(after, name)].1
                == before[place(before, name)].1 by {
                let k = place(before, name);
                assert(after[k].0@ == name);
            }
            assert(sessions_of(after) =~= sessions_of(before).insert(identity@, session));
            assert(old(self)@.remove(identity@).insert(identity@, session) =~= old(self)@.insert(
                identity@,
                session,
            ));
        }
        core::mem::swap(&mut self.entries, &mut entries);
        displaced
    }

    /// How many sessions there are.
    pub fn len(&self) -> (count: usize)
        ensures
            count == self@.len(),
            self@.dom().finite(),
    {
        proof {
            use_type_invariant(self);
            counted(self.entries@);
        }
        self.entries.len()
    }
}

/// A list of entries without repetition holds as many sessions as entries.
proof fn counted<S>(entries: Seq<(String, S)>)
    requires
        distinct(entries),
    ensures
        sessions_of(entries).dom().finite(),
        sessions_of(entries).len() == entries.len(),
    decreases entries.len(),
{
    if entries.len() == 0 {
        assert(sessions_of(entries).dom() =~= Set::<Seq<char>>::empty());
    } else {
        let rest = entries.drop_last();
        let name = entries.last().0@;
        counted(rest);
        assert forall|other: Seq<char>| listed(entries, other) <==> (listed(rest, other) || other
            == name) by {
            if listed(entries, other) {
                let k = place(entries, other);
                if k < rest.len() {
                    assert(rest[k].0@ == other);
                }
            }
            if listed(rest, other) {
                let k = place(rest, other);
                assert(entries[k].0@ == other);
            }
            if other == name {
                assert(entries[entries.len() - 1].0@ == other);
            }
        }
        assert(!listed(rest, name)) by {
            if listed(rest, name) {
                let k = place(rest, name);
                assert(entries[k].0@ == name);
                assert(entries[entries.len() - 1].0@ == name);
            }
        }
        assert(sessions_of(entries).dom() =~= sessions_of(rest).dom().insert(name));
    }
}

} // verus!
