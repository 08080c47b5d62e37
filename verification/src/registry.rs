//! The subscriber registry: a mapping from event name to the ordered list of
//! handlers registered for that name.
//!
//! Order within a list is insertion order, and it determines invocation order
//! when a message for the event is dispatched. Registration never rejects:
//! it appends to the event's list, creating the list when the event is new,
//! and the same handler may be registered any number of times.

use vstd::prelude::*;

use crate::Handler;

verus! {

/// One event name with its ordered subscription list.
struct Entry {
    name: String,
    handlers: Vec<Handler>,
}

/// The handlers registered for event `e` in `m`: the mapped list, or the
/// empty sequence when no handler was ever registered for `e`.
pub open spec fn handlers_for(m: Map<Seq<char>, Seq<Handler>>, e: Seq<char>) -> Seq<Handler> {
    if m.contains_key(e) {
        m[e]
    } else {
        Seq::empty()
    }
}

/// What one registration does to the registry: the handler is appended to the
/// event's list, and the list is created when the event is new.
pub open spec fn register_spec(
    m: Map<Seq<char>, Seq<Handler>>,
    e: Seq<char>,
    h: Handler,
) -> Map<Seq<char>, Seq<Handler>> {
    m.insert(e, handlers_for(m, e).push(h))
}

/// The mapping that a sequence of entries denotes.
spec fn entries_map(s: Seq<Entry>) -> Map<Seq<char>, Seq<Handler>>
    decreases s.len(),
{
    if s.len() == 0 {
        Map::empty()
    } else {
        entries_map(s.drop_last()).insert(s.last().name@, s.last().handlers@)
    }
}

/// No event name occurs in two entries.
spec fn unique_names(s: Seq<Entry>) -> bool {
    forall|i: int, j: int|
        0 <= i < j < s.len() ==> s[i].name@ != s[j].name@
}

/// A name is a key of the denoted mapping exactly when some entry holds it.
proof fn lemma_entries_map_contains(s: Seq<Entry>, e: Seq<char>)
    ensures
        entries_map(s).contains_key(e) <==> exists|i: int|
            0 <= i < s.len() && s[i].name@ == e,
    decreases s.len(),
{
    if s.len() > 0 {
        lemma_entries_map_contains(s.drop_last(), e);
        if s.last().name@ == e {
            assert(s[s.len() - 1].name@ == e);
        } else {
            if entries_map(s).contains_key(e) {
                let i = choose|i: int|
                    0 <= i < s.drop_last().len() && s.drop_last()[i].name@ == e;
                assert(s[i].name@ == e);
            }
            if exists|i: int| 0 <= i < s.len() && s[i].name@ == e {
                let i = choose|i: int| 0 <= i < s.len() && s[i].name@ == e;
                assert(i < s.len() - 1);
                assert(s.drop_last()[i].name@ == e);
            }
        }
    }
}

/// With unique names, each entry's list is what the mapping holds at its name.
proof fn lemma_entries_map_index(s: Seq<Entry>, i: int)
    requires
        unique_names(s),
        0 <= i < s.len(),
    ensures
        entries_map(s).contains_key(s[i].name@),
        entries_map(s)[s[i].name@] == s[i].handlers@,
    decreases s.len(),
{
    if i == s.len() - 1 {
        assert(s.last() == s[i]);
    } else {
        assert(unique_names(s.drop_last()));
        assert(s.drop_last()[i] == s[i]);
        lemma_entries_map_index(s.drop_last(), i);
        assert(s[i].name@ != s.last().name@);
    }
}

/// Replacing an entry's list in place is, on the denoted mapping, an insert
/// at that entry's name.
proof fn lemma_entries_map_update(s: Seq<Entry>, i: int, en: Entry)
    requires
        unique_names(s),
        0 <= i < s.len(),
        en.name@ == s[i].name@,
    ensures
        entries_map(s.update(i, en)) =~= entries_map(s).insert(en.name@, en.handlers@),
    decreases s.len(),
{
    let t = s.update(i, en);
    if i == s.len() - 1 {
        assert(t.drop_last() =~= s.drop_last());
        assert(t.last() == en);
    } else {
        assert(unique_names(s.drop_last()));
        assert(s.drop_last()[i] == s[i]);
        lemma_entries_map_update(s.drop_last(), i, en);
        assert(t.drop_last() =~= s.drop_last().update(i, en));
        assert(t.last() == s.last());
        assert(en.name@ != s.last().name@);
    }
}

/// The subscriber registry. Its mathematical value is a finite mapping from
/// event name to the ordered handler list registered for that name.
pub struct Registry {
    entries: Vec<Entry>,
}

impl View for Registry {
    type V = Map<Seq<char>, Seq<Handler>>;

    closed spec fn view(&self) -> Map<Seq<char>, Seq<Handler>> {
        entries_map(self.entries@)
    }
}

impl Registry {
    /// Internal shape: no event name is stored twice.
    pub closed spec fn wf(&self) -> bool {
        unique_names(self.entries@)
    }

    /// An empty registry: no event has any handler.
    pub fn new() -> (r: Registry)
        ensures
            r.wf(),
            r@ == Map::<Seq<char>, Seq<Handler>>::empty(),
    {
        Registry { entries: Vec::new() }
    }

    /// Appends `handler` to the subscription list for `event`, creating the
    /// list when `event` has no subscribers yet. Never rejects, and never
    /// drops an earlier registration.
    pub fn register(&mut self, event: String, handler: Handler)
        requires
            old(self).wf(),
        ensures
            final(self).wf(),
            final(self)@ == register_spec(old(self)@, event@, handler),
    {
        let ghost s0 = self.entries@;
        let n = self.entries.len();
        let mut i: usize = 0;
        while i < n
            invariant
                i <= n,
                n == self.entries@.len(),
                self.entries@ == s0,
                old(self).entries@ == s0,
                unique_names(s0),
                forall|k: int| 0 <= k < i ==> s0[k].name@ != event@,
            decreases n - i,
        {
            if self.entries[i].name == event {
                self.entries[i].handlers.push(handler);
                proof {
                    let en = self.entries@[i as int];
                    assert(en.name@ == event@);
                    assert(self.entries@ =~= s0.update(i as int, en));
                    lemma_entries_map_update(s0, i as int, en);
                    lemma_entries_map_index(s0, i as int);
                    assert(handlers_for(entries_map(s0), event@) == s0[i as int].handlers@);
                    assert(en.handlers@ == s0[i as int].handlers@.push(handler));
                    assert(entries_map(self.entries@) =~= register_spec(
                        entries_map(s0),
                        event@,
                        handler,
                    ));
                    assert(unique_names(self.entries@));
                }
                return;
            }
            i += 1;
        }
        proof {
            lemma_entries_map_contains(s0, event@);
            assert(!entries_map(s0).contains_key(event@));
        }
        let mut hs: Vec<Handler> = Vec::new();
        hs.push(handler);
        let en = Entry { name: event, handlers: hs };
        self.entries.push(en);
        proof {
            let s1 = self.entries@;
            assert(s1.drop_last() =~= s0);
            assert(s1.last().handlers@ =~= Seq::empty().push(handler));
            assert(handlers_for(entries_map(s0), s1.last().name@) =~= Seq::empty());
            assert(entries_map(s1) == register_spec(entries_map(s0), s1.last().name@, handler));
            assert forall|a: int, b: int| 0 <= a < b < s1.len() implies s1[a].name@ != s1[b].name@ by {
                if b == s1.len() - 1 {
                    assert(s0[a].name@ != s1.last().name@);
                }
            }
        }
    }

    /// A snapshot of the current subscription list for `event`, in
    /// registration order; empty when no handler is registered for it.
    pub fn lookup(&self, event: &String) -> (r: Vec<Handler>)
        requires
            self.wf(),
        ensures
            r@ == handlers_for(self@, event@),
    {
        let n = self.entries.len();
        let mut i: usize = 0;
        while i < n
            invariant
                i <= n,
                n == self.entries@.len(),
                self.wf(),
                forall|k: int| 0 <= k < i ==> self.entries@[k].name@ != event@,
            decreases n - i,
        {
            if self.entries[i].name == *event {
                proof {
                    lemma_entries_map_index(self.entries@, i as int);
                }
                let list = &self.entries[i].handlers;
                let m = list.len();
                let mut r: Vec<Handler> = Vec::new();
                let mut j: usize = 0;
                while j < m
                    invariant
                        j <= m,
                        m == list@.len(),
                        r@ =~= list@.take(j as int),
                    decreases m - j,
                {
                    r.push(list[j]);
                    j += 1;
                }
                proof {
                    assert(r@ =~= list@);
                }
                return r;
            }
            i += 1;
        }
        proof {
            lemma_entries_map_contains(self.entries@, event@);
            assert(!self@.contains_key(event@));
        }
        let r: Vec<Handler> = Vec::new();
        proof {
            assert(r@ =~= handlers_for(self@, event@));
        }
        r
    }
}

} // verus!
