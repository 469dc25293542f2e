//! Topic dispatch: maps the prefix of an envelope's topic to the handler
//! registered for it.
//!
//! Handlers are named by plain identifiers; the caller owns what each
//! identifier means. Registration is last-write-wins and the table never
//! holds the same prefix twice. A topic's prefix is the text before its
//! first `'.'`, or the whole topic when it has none.

use crate::text::spec_find;
use crate::text::find_from;
use crate::text::str_eq;
use vstd::prelude::*;

verus! {

/// One dispatch-table entry.
pub struct Route {
    pub prefix: String,
    pub handler: u64,
}

/// The dispatch table.
pub struct MessageRouter {
    pub routes: Vec<Route>,
}

/// The text before the first `'.'` of `t`, or all of `t` when it has none.
pub open spec fn spec_topic_prefix(t: Seq<char>) -> Seq<char> {
    match spec_find(t, seq!['.'], 0) {
        Some(i) => t.subrange(0, i),
        None => t,
    }
}

impl MessageRouter {
    /// Invariant: no prefix is registered twice.
    pub open spec fn wf(self) -> bool {
        forall|i: int, j: int|
            0 <= i < self.routes@.len() && 0 <= j < self.routes@.len() && i != j
                ==> self.routes@[i].prefix@ != self.routes@[j].prefix@
    }

    /// Some entry carries this prefix.
    pub open spec fn spec_has(self, p: Seq<char>) -> bool {
        exists|i: int| 0 <= i < self.routes@.len() && self.routes@[i].prefix@ == p
    }

    /// The index of the entry carrying this prefix.
    pub open spec fn spec_index_of(self, p: Seq<char>) -> int {
        choose|i: int| 0 <= i < self.routes@.len() && self.routes@[i].prefix@ == p
    }

    /// The handler registered for this prefix, if any.
    pub open spec fn spec_lookup(self, p: Seq<char>) -> Option<u64> {
        if self.spec_has(p) {
            Some(self.routes@[self.spec_index_of(p)].handler)
        } else {
            None
        }
    }

    pub fn new() -> (r: MessageRouter)
        ensures
            r.wf(),
            r.routes@.len() == 0,
            forall|p: Seq<char>| r.spec_lookup(p) is None,
    {
        MessageRouter { routes: Vec::new() }
    }

    /// Registers `handler` for `prefix`. A later registration with the same
    /// prefix overwrites the earlier one silently; every other prefix keeps
    /// its handler.
    pub fn register(&mut self, prefix: String, handler: u64)
        requires
            old(self).wf(),
        ensures
            final(self).wf(),
            final(self).spec_lookup(prefix@) == Some(handler),
            forall|p: Seq<char>|
                p != prefix@ ==> final(self).spec_lookup(p) == old(self).spec_lookup(p),
    {
        let n = self.routes.len();
        let mut i: usize = 0;
        while i < n
            invariant
                n == self.routes@.len(),
                0 <= i <= n,
                *self == *old(self),
                self.wf(),
                forall|j: int| 0 <= j < i ==> self.routes@[j].prefix@ != prefix@,
            decreases n - i,
        {
            if str_eq(self.routes[i].prefix.as_str(), prefix.as_str()) {
                self.routes[i].handler = handler;
                proof {
                    assert(self.routes@.len() == old(self).routes@.len());
                    assert(old(self).routes@[i as int].prefix@ == prefix@);
                    assert(self.routes@[i as int].handler == handler);
                    assert(forall|k: int|
                        0 <= k < old(self).routes@.len() && k != i as int
                            ==> self.routes@[k] == old(self).routes@[k]);
                    assert(forall|k: int|
                        0 <= k < old(self).routes@.len()
                            ==> self.routes@[k].prefix@ == old(self).routes@[k].prefix@);
                    lemma_register_update(*old(self), *self, prefix@, handler, i as int);
                }
                return ;
            }
            i += 1;
        }
        self.routes.push(Route { prefix, handler });
        proof {
            lemma_register_push(*old(self), *self, prefix@, handler);
        }
    }

    /// Looks the exact prefix up in the table.
    pub fn lookup(&self, prefix: &str) -> (r: Option<u64>)
        requires
            self.wf(),
        ensures
            r == self.spec_lookup(prefix@),
    {
        let n = self.routes.len();
        let mut i: usize = 0;
        while i < n
            invariant
                n == self.routes@.len(),
                0 <= i <= n,
                self.wf(),
                forall|j: int| 0 <= j < i ==> self.routes@[j].prefix@ != prefix@,
            decreases n - i,
        {
            if str_eq(self.routes[i].prefix.as_str(), prefix) {
                proof {
                    assert(self.routes@[i as int].prefix@ == prefix@);
                    assert(self.spec_has(prefix@));
                    let k = self.spec_index_of(prefix@);
                    assert(0 <= k < self.routes@.len() && self.routes@[k].prefix@ == prefix@);
                    if k != i as int {
                        assert(self.routes@[k].prefix@ != self.routes@[i as int].prefix@);
                        assert(false);
                    }
                }
                return Some(self.routes[i].handler);
            }
            i += 1;
        }
        None
    }

    /// Routes a full topic: extracts its prefix and looks it up. An
    /// unmatched prefix routes nowhere, which is no error.
    pub fn dispatch(&self, topic: &str) -> (r: Option<u64>)
        requires
            self.wf(),
        ensures
            r == self.spec_lookup(spec_topic_prefix(topic@)),
    {
        proof {
            reveal_strlit(".");
            assert("."@ =~= seq!['.']);
        }
        let end: usize = match find_from(topic, ".", 0) {
            Some(i) => i,
            None => topic.unicode_len(),
        };
        proof {
            match spec_find(topic@, seq!['.'], 0) {
                Some(i) => {
                    crate::text::lemma_spec_find_some(topic@, seq!['.'], 0, i);
                },
                None => {
                    assert(topic@.subrange(0, topic@.len() as int) =~= topic@);
                },
            }
        }
        let prefix = topic.substring_char(0, end);
        self.lookup(prefix)
    }
}

proof fn lemma_register_update(
    o: MessageRouter,
    f: MessageRouter,
    prefix: Seq<char>,
    handler: u64,
    i: int,
)
    requires
        o.wf(),
        0 <= i < o.routes@.len(),
        o.routes@[i].prefix@ == prefix,
        f.routes@.len() == o.routes@.len(),
        forall|k: int|
            0 <= k < o.routes@.len() ==> f.routes@[k].prefix@ == o.routes@[k].prefix@,
        f.routes@[i].handler == handler,
        forall|k: int| 0 <= k < o.routes@.len() && k != i ==> f.routes@[k] == o.routes@[k],
    ensures
        f.wf(),
        f.spec_lookup(prefix) == Some(handler),
        forall|p: Seq<char>| p != prefix ==> f.spec_lookup(p) == o.spec_lookup(p),
{
    assert(f.spec_has(prefix));
    assert(f.routes@[f.spec_index_of(prefix)].prefix@ == prefix);
    assert(f.spec_index_of(prefix) == i);
    assert forall|p: Seq<char>| p != prefix implies f.spec_lookup(p) == o.spec_lookup(p) by {
        if o.spec_has(p) {
            let k = o.spec_index_of(p);
            assert(0 <= k < o.routes@.len() && o.routes@[k].prefix@ == p);
            assert(f.routes@[k].prefix@ == p);
            assert(f.spec_has(p));
            let k2 = f.spec_index_of(p);
            assert(0 <= k2 < f.routes@.len() && f.routes@[k2].prefix@ == p);
            assert(k2 == k);
            assert(k != i);
        } else {
            if f.spec_has(p) {
                let k2 = f.spec_index_of(p);
                assert(o.routes@[k2].prefix@ == p);
            }
        }
    }
}

proof fn lemma_register_push(o: MessageRouter, f: MessageRouter, prefix: Seq<char>, handler: u64)
    requires
        o.wf(),
        !o.spec_has(prefix),
        f.routes@.len() == o.routes@.len() + 1,
        forall|k: int| 0 <= k < o.routes@.len() ==> f.routes@[k] == o.routes@[k],
        f.routes@[o.routes@.len() as int].prefix@ == prefix,
        f.routes@[o.routes@.len() as int].handler == handler,
    ensures
        f.wf(),
        f.spec_lookup(prefix) == Some(handler),
        forall|p: Seq<char>| p != prefix ==> f.spec_lookup(p) == o.spec_lookup(p),
{
    let n = o.routes@.len() as int;
    assert(f.routes@.len() == n + 1);
    assert(forall|k: int| 0 <= k < n ==> f.routes@[k] == o.routes@[k]);
    assert forall|i: int, j: int|
        0 <= i < f.routes@.len() && 0 <= j < f.routes@.len() && i != j
        implies f.routes@[i].prefix@ != f.routes@[j].prefix@ by {
        if i < n && j < n {
        } else if i == n && j < n {
            assert(o.routes@[j].prefix@ != prefix);
        } else if j == n && i < n {
            assert(o.routes@[i].prefix@ != prefix);
        }
    }
    assert(f.spec_has(prefix));
    let k = f.spec_index_of(prefix);
    assert(0 <= k < f.routes@.len() && f.routes@[k].prefix@ == prefix);
    assert(k == n);
    assert forall|p: Seq<char>| p != prefix implies f.spec_lookup(p) == o.spec_lookup(p) by {
        if o.spec_has(p) {
            let k1 = o.spec_index_of(p);
            assert(0 <= k1 < n && o.routes@[k1].prefix@ == p);
            assert(f.routes@[k1].prefix@ == p);
            assert(f.spec_has(p));
            let k2 = f.spec_index_of(p);
            assert(0 <= k2 < f.routes@.len() && f.routes@[k2].prefix@ == p);
            assert(k2 != n);
            assert(k2 == k1);
        } else {
            if f.spec_has(p) {
                let k2 = f.spec_index_of(p);
                assert(k2 != n);
                assert(o.routes@[k2].prefix@ == p);
            }
        }
    }
}

/// Law: dispatch reaches exactly the handler registered for the envelope's
/// topic prefix, and reaches none when no entry carries that prefix.
pub proof fn lemma_dispatch_exact(r: MessageRouter, topic: Seq<char>, i: int)
    requires
        r.wf(),
        0 <= i < r.routes@.len(),
        r.routes@[i].prefix@ == spec_topic_prefix(topic),
    ensures
        r.spec_lookup(spec_topic_prefix(topic)) == Some(r.routes@[i].handler),
{
    let p = spec_topic_prefix(topic);
    assert(r.spec_has(p));
    let k = r.spec_index_of(p);
    assert(0 <= k < r.routes@.len() && r.routes@[k].prefix@ == p);
    assert(k == i);
}

/// Law: an envelope whose topic prefix no entry carries dispatches to no
/// handler at all.
pub proof fn lemma_dispatch_unmatched(r: MessageRouter, topic: Seq<char>)
    requires
        !r.spec_has(spec_topic_prefix(topic)),
    ensures
        r.spec_lookup(spec_topic_prefix(topic)) is None,
{
}

} // verus!
