use std::collections::HashMap;
use vstd::prelude::*;
use vstd::std_specs::hash::group_hash_axioms;

verus! {

broadcast use group_hash_axioms;

/// The bindings as maps: voice channel to thread, thread to voice channel,
/// and thread to the agenda message it was opened from.
pub struct BindingsView {
    pub vc_to_thread: Map<u64, u64>,
    pub thread_to_vc: Map<u64, u64>,
    pub thread_to_agenda: Map<u64, u64>,
}

impl BindingsView {
    /// The two directions agree on every pair, and every bound thread still
    /// has its agenda message recorded.
    pub open spec fn wf(self) -> bool {
        &&& forall|v: u64| #[trigger]
            self.vc_to_thread.contains_key(v) ==> {
                &&& self.thread_to_vc.contains_key(self.vc_to_thread[v])
                &&& self.thread_to_vc[self.vc_to_thread[v]] == v
            }
        &&& forall|t: u64| #[trigger]
            self.thread_to_vc.contains_key(t) ==> {
                &&& self.vc_to_thread.contains_key(self.thread_to_vc[t])
                &&& self.vc_to_thread[self.thread_to_vc[t]] == t
            }
        &&& forall|t: u64| #[trigger]
            self.thread_to_vc.contains_key(t) ==> self.thread_to_agenda.contains_key(t)
    }

    /// Whether a new pair may be recorded: neither side is in use.
    pub open spec fn is_free(self, vc: u64, thread: u64) -> bool {
        &&& !self.vc_to_thread.contains_key(vc)
        &&& !self.thread_to_vc.contains_key(thread)
        &&& !self.thread_to_agenda.contains_key(thread)
    }

    /// The maps after recording the pair `vc`, `thread` with its agenda message.
    pub open spec fn bind(self, vc: u64, thread: u64, agenda: u64) -> BindingsView {
        BindingsView {
            vc_to_thread: self.vc_to_thread.insert(vc, thread),
            thread_to_vc: self.thread_to_vc.insert(thread, vc),
            thread_to_agenda: self.thread_to_agenda.insert(thread, agenda),
        }
    }

    /// The maps after forgetting the session of voice channel `vc`: both
    /// directions of its pair and its thread's agenda message.
    pub open spec fn unbind(self, vc: u64) -> BindingsView {
        let t = self.vc_to_thread[vc];
        BindingsView {
            vc_to_thread: self.vc_to_thread.remove(vc),
            thread_to_vc: self.thread_to_vc.remove(t),
            thread_to_agenda: self.thread_to_agenda.remove(t),
        }
    }

    /// The maps after forgetting everything recorded of thread `thread`: its
    /// pair, if it is still bound, and its agenda message.
    pub open spec fn release(self, thread: u64) -> BindingsView {
        if self.thread_to_vc.contains_key(thread) {
            self.unbind(self.thread_to_vc[thread])
        } else {
            BindingsView {
                vc_to_thread: self.vc_to_thread,
                thread_to_vc: self.thread_to_vc,
                thread_to_agenda: self.thread_to_agenda.remove(thread),
            }
        }
    }
}

/// Recording a free pair keeps the maps consistent.
pub proof fn lemma_bind_wf(b: BindingsView, vc: u64, thread: u64, agenda: u64)
    requires
        b.wf(),
        b.is_free(vc, thread),
    ensures
        b.bind(vc, thread, agenda).wf(),
{
}

/// Forgetting a bound pair keeps the maps consistent.
pub proof fn lemma_unbind_wf(b: BindingsView, vc: u64)
    requires
        b.wf(),
        b.vc_to_thread.contains_key(vc),
    ensures
        b.unbind(vc).wf(),
{
    let n = b.unbind(vc);
    let t = b.vc_to_thread[vc];
    assert forall|v: u64| #[trigger] n.vc_to_thread.contains_key(v) implies {
        &&& n.thread_to_vc.contains_key(n.vc_to_thread[v])
        &&& n.thread_to_vc[n.vc_to_thread[v]] == v
    } by {
        assert(b.thread_to_vc[b.vc_to_thread[v]] == v);
    }
    assert forall|u: u64| #[trigger] n.thread_to_vc.contains_key(u) implies {
        &&& n.vc_to_thread.contains_key(n.thread_to_vc[u])
        &&& n.vc_to_thread[n.thread_to_vc[u]] == u
    } by {
        assert(b.vc_to_thread[b.thread_to_vc[u]] == u);
        assert(u != t);
    }
}

/// The three maps of live bindings, kept consistent with one another by the
/// only write paths below.
pub struct ChannelMap {
    vc_to_thread: HashMap<u64, u64>,
    thread_to_vc: HashMap<u64, u64>,
    thread_to_agenda: HashMap<u64, u64>,
}

impl ChannelMap {
    pub closed spec fn view(&self) -> BindingsView {
        BindingsView {
            vc_to_thread: self.vc_to_thread@,
            thread_to_vc: self.thread_to_vc@,
            thread_to_agenda: self.thread_to_agenda@,
        }
    }

    /// No bindings.
    pub fn new() -> (r: ChannelMap)
        ensures
            r@.vc_to_thread == Map::<u64, u64>::empty(),
            r@.thread_to_vc == Map::<u64, u64>::empty(),
            r@.thread_to_agenda == Map::<u64, u64>::empty(),
            r@.wf(),
    {
        ChannelMap {
            vc_to_thread: HashMap::new(),
            thread_to_vc: HashMap::new(),
            thread_to_agenda: HashMap::new(),
        }
    }

    /// The thread bound to voice channel `vc`.
    pub fn thread_of(&self, vc: u64) -> (r: Option<u64>)
        ensures
            r == (if self@.vc_to_thread.contains_key(vc) {
                Some(self@.vc_to_thread[vc])
            } else {
                None
            }),
    {
        match self.vc_to_thread.get(&vc) {
            Some(t) => Some(*t),
            None => None,
        }
    }

    /// The voice channel bound to thread `thread`.
    pub fn vc_of(&self, thread: u64) -> (r: Option<u64>)
        ensures
            r == (if self@.thread_to_vc.contains_key(thread) {
                Some(self@.thread_to_vc[thread])
            } else {
                None
            }),
    {
        match self.thread_to_vc.get(&thread) {
            Some(v) => Some(*v),
            None => None,
        }
    }

    /// Records the pair `vc`, `thread` and the agenda message of `thread`,
    /// unless either side is already in use; returns whether it did.
    pub fn bind(&mut self, vc: u64, thread: u64, agenda: u64) -> (r: bool)
        requires
            old(self)@.wf(),
        ensures
            r == old(self)@.is_free(vc, thread),
            final(self)@ == (if r {
                old(self)@.bind(vc, thread, agenda)
            } else {
                old(self)@
            }),
            final(self)@.wf(),
    {
        if self.vc_to_thread.contains_key(&vc) || self.thread_to_vc.contains_key(&thread)
            || self.thread_to_agenda.contains_key(&thread) {
            return false;
        }
        proof {
            lemma_bind_wf(self@, vc, thread, agenda);
        }
        self.thread_to_vc.insert(thread, vc);
        self.vc_to_thread.insert(vc, thread);
        self.thread_to_agenda.insert(thread, agenda);
        true
    }

    /// Forgets the session of voice channel `vc` and returns its thread and
    /// the thread's agenda message.
    pub fn unbind(&mut self, vc: u64) -> (r: Option<(u64, u64)>)
        requires
            old(self)@.wf(),
        ensures
            r == (if old(self)@.vc_to_thread.contains_key(vc) {
                let t = old(self)@.vc_to_thread[vc];
                Some((t, old(self)@.thread_to_agenda[t]))
            } else {
                None
            }),
            final(self)@ == (if r is Some {
                old(self)@.unbind(vc)
            } else {
                old(self)@
            }),
            final(self)@.wf(),
    {
        match self.vc_to_thread.remove(&vc) {
            Some(thread) => {
                proof {
                    lemma_unbind_wf(old(self)@, vc);
                }
                self.thread_to_vc.remove(&thread);
                let agenda = self.thread_to_agenda.remove(&thread).unwrap();
                assert(self@ == old(self)@.unbind(vc));
                Some((thread, agenda))
            },
            None => {
                assert(self.vc_to_thread@ =~= old(self).vc_to_thread@);
                None
            },
        }
    }

    /// Forgets everything recorded of `thread`, bound or not, and returns its
    /// agenda message, if one was recorded.
    pub fn release(&mut self, thread: u64) -> (r: Option<u64>)
        requires
            old(self)@.wf(),
        ensures
            r == (if old(self)@.thread_to_agenda.contains_key(thread) {
                Some(old(self)@.thread_to_agenda[thread])
            } else {
                None
            }),
            final(self)@ == old(self)@.release(thread),
            final(self)@.wf(),
    {
        let bound = match self.thread_to_vc.get(&thread) {
            Some(vc) => Some(*vc),
            None => None,
        };
        match bound {
            Some(vc) => {
                assert(self@.thread_to_vc.contains_key(thread));
                assert(self@.vc_to_thread[vc] == thread);
                Some(self.unbind(vc).unwrap().1)
            },
            None => {
                let r = self.thread_to_agenda.remove(&thread);
                if r.is_none() {
                    assert(self.thread_to_agenda@ =~= old(self).thread_to_agenda@);
                }
                assert(self@ =~= old(self)@.release(thread));
                r
            },
        }
    }
}

} // verus!
