//! Connection Registry: tracks every live transport connection and the
//! outbound delivery queue it exclusively owns.
//!
//! An entry exists from accept time until teardown completes and is never
//! duplicated under the same identifier. `send` onto a connection that is
//! gone is a silent no-op, and removing an already-removed connection is a
//! no-op too, so the operations are safe in any order.

use vstd::prelude::*;
use vstd::map::*;
use crate::envelope::OutboundFrame;
use crate::sessions::{conn_set, distinct_views};

verus! {

/// What `send` does to the registry: the frame lands at the back of the
/// connection's queue if the connection is still live, and nowhere
/// otherwise.
pub open spec fn spec_send(
    m: Map<Seq<char>, Seq<OutboundFrame>>,
    c: Seq<char>,
    f: OutboundFrame,
) -> Map<Seq<char>, Seq<OutboundFrame>> {
    if m.dom().contains(c) {
        m.insert(c, m[c].push(f))
    } else {
        m
    }
}

/// The Connection Registry.
///
/// Entries pair a connection identifier with that connection's outbound
/// queue, oldest frame first.
pub struct Registry {
    entries: Vec<(String, Vec<OutboundFrame>)>,
}

impl Registry {
    /// The registry as a map from connection identifier to outbound queue.
    pub closed spec fn as_map(self) -> Map<Seq<char>, Seq<OutboundFrame>> {
        Map::new(
            |c: Seq<char>| exists|i: int| 0 <= i < self.entries@.len() && self.entries@[i].0@ == c,
            |c: Seq<char>|
                {
                    let i = choose|i: int|
                        0 <= i < self.entries@.len() && self.entries@[i].0@ == c;
                    self.entries@[i].1@
                },
        )
    }

    /// Internal well-formedness: connection identifiers are unique.
    pub closed spec fn wf(self) -> bool {
        forall|i: int, j: int|
            0 <= i < j < self.entries@.len() ==> self.entries@[i].0@ != self.entries@[j].0@
    }

    /// Looking an entry up by position yields exactly the map's value there.
    proof fn lemma_entry_value(self, i: int)
        requires
            self.wf(),
            0 <= i < self.entries@.len(),
        ensures
            self.as_map().dom().contains(self.entries@[i].0@),
            self.as_map()[self.entries@[i].0@] == self.entries@[i].1@,
    {
        let c = self.entries@[i].0@;
        assert(exists|j: int| 0 <= j < self.entries@.len() && self.entries@[j].0@ == c);
        let j = choose|j: int| 0 <= j < self.entries@.len() && self.entries@[j].0@ == c;
        if i < j {
            assert(self.entries@[i].0@ != self.entries@[j].0@);
        } else if j < i {
            assert(self.entries@[j].0@ != self.entries@[i].0@);
        }
    }

    /// Creates an empty registry.
    pub fn new() -> (r: Registry)
        ensures
            r.wf(),
            r.as_map() == Map::<Seq<char>, Seq<OutboundFrame>>::empty(),
    {
        let r = Registry { entries: Vec::new() };
        proof {
            assert(r.as_map() =~= Map::<Seq<char>, Seq<OutboundFrame>>::empty());
        }
        r
    }

    /// Position of the entry for `conn`, if any.
    fn position_of(&self, conn: &String) -> (r: Option<usize>)
        ensures
            match r {
                Some(i) => i < self.entries@.len() && self.entries@[i as int].0@ == conn@,
                None => forall|i: int|
                    0 <= i < self.entries@.len() ==> self.entries@[i].0@ != conn@,
            },
    {
        let mut i: usize = 0;
        while i < self.entries.len()
            invariant
                i <= self.entries@.len(),
                forall|j: int| 0 <= j < i ==> self.entries@[j].0@ != conn@,
            decreases self.entries@.len() - i,
        {
            if self.entries[i].0 == *conn {
                return Some(i);
            }
            i = i + 1;
        }
        None
    }

    /// Whether `connection_id` is a live connection.
    pub fn contains(&self, connection_id: &str) -> (r: bool)
        requires
            self.wf(),
        ensures
            r == self.as_map().dom().contains(connection_id@),
    {
        let c = connection_id.to_owned();
        match self.position_of(&c) {
            Some(i) => {
                proof {
                    self.lemma_entry_value(i as int);
                }
                true
            },
            None => {
                proof {
                    if self.as_map().dom().contains(connection_id@) {
                        let i = choose|i: int|
                            0 <= i < self.entries@.len() && self.entries@[i].0@ == connection_id@;
                    }
                }
                false
            },
        }
    }

    /// Creates an entry with an empty outbound queue for `connection_id`,
    /// unless that identifier is already registered; reports whether the
    /// entry was created. An identifier is never duplicated.
    pub fn register_conn(&mut self, connection_id: String) -> (r: bool)
        requires
            old(self).wf(),
        ensures
            final(self).wf(),
            r == !old(self).as_map().dom().contains(connection_id@),
            r ==> final(self).as_map() == old(self).as_map().insert(
                connection_id@,
                Seq::<OutboundFrame>::empty(),
            ),
            !r ==> *final(self) == *old(self),
    {
        let ghost pre = *self;
        match self.position_of(&connection_id) {
            Some(i) => {
                proof {
                    self.lemma_entry_value(i as int);
                }
                false
            },
            None => {
                proof {
                    if pre.as_map().dom().contains(connection_id@) {
                        let i = choose|i: int|
                            0 <= i < pre.entries@.len() && pre.entries@[i].0@ == connection_id@;
                    }
                }
                let ghost cid = connection_id@;
                let q: Vec<OutboundFrame> = Vec::new();
                self.entries.push((connection_id, q));
                proof {
                    let pe = pre.entries@;
                    let se = self.entries@;
                    let last = se.len() - 1;
                    assert_maps_equal!(self.as_map(), pre.as_map().insert(cid, Seq::<OutboundFrame>::empty()), c => {
                        if c == cid {
                            self.lemma_entry_value(last);
                        } else if exists|j: int| 0 <= j < pe.len() && pe[j].0@ == c {
                            let j = choose|j: int| 0 <= j < pe.len() && pe[j].0@ == c;
                            pre.lemma_entry_value(j);
                            assert(se[j] == pe[j]);
                            self.lemma_entry_value(j);
                        } else {
                            if self.as_map().dom().contains(c) {
                                let j = choose|j: int| 0 <= j < se.len() && se[j].0@ == c;
                                assert(j == last || pe[j].0@ == c);
                                assert(false);
                            }
                        }
                    });
                }
                true
            },
        }
    }

    /// Enqueues `frame` for `connection_id` if that connection still exists;
    /// a silent no-op otherwise (the peer already disconnected). No other
    /// connection's queue is touched.
    pub fn send(&mut self, connection_id: &str, frame: OutboundFrame)
        requires
            old(self).wf(),
        ensures
            final(self).wf(),
            final(self).as_map() == spec_send(old(self).as_map(), connection_id@, frame),
    {
        let ghost pre = *self;
        let c = connection_id.to_owned();
        match self.position_of(&c) {
            None => {
                proof {
                    if pre.as_map().dom().contains(connection_id@) {
                        let i = choose|i: int|
                            0 <= i < pre.entries@.len() && pre.entries@[i].0@ == connection_id@;
                    }
                }
            },
            Some(i) => {
                proof {
                    pre.lemma_entry_value(i as int);
                }
                let mut e = self.entries.remove(i);
                let ghost fr = frame;
                e.1.push(frame);
                let ghost epair = e;
                self.entries.push(e);
                proof {
                    let pe = pre.entries@;
                    let se = self.entries@;
                    let last = se.len() - 1;
                    pe.remove_ensures(i as int);
                    assert(se.len() == pe.len());
                    assert forall|j: int| 0 <= j < last implies se[j] == pe[
                        crate::sessions::origin_of(j, i as int)
                    ] by {}
                    assert(se[last] == epair);
                    assert forall|a: int, b: int| 0 <= a < b < se.len() implies se[a].0@
                        != se[b].0@ by {
                        if b == last {
                            let oa = crate::sessions::origin_of(a, i as int);
                            assert(pe[oa].0@ == se[a].0@);
                            if oa < i as int {
                                assert(pe[oa].0@ != pe[i as int].0@);
                            } else {
                                assert(pe[i as int].0@ != pe[oa].0@);
                            }
                        }
                    }
                    assert(self.wf());
                    assert_maps_equal!(self.as_map(), spec_send(pre.as_map(), connection_id@, fr), cc => {
                        if cc == connection_id@ {
                            self.lemma_entry_value(last);
                            assert(se[last].1@ == pe[i as int].1@.push(fr));
                        } else if exists|j: int| 0 <= j < pe.len() && pe[j].0@ == cc {
                            let j = choose|j: int| 0 <= j < pe.len() && pe[j].0@ == cc;
                            pre.lemma_entry_value(j);
                            let j2 = if j < i as int {
                                j
                            } else {
                                j - 1
                            };
                            assert(se[j2] == pe[j]);
                            self.lemma_entry_value(j2);
                        } else {
                            if self.as_map().dom().contains(cc) {
                                let j = choose|j: int| 0 <= j < se.len() && se[j].0@ == cc;
                                if j == last {
                                    assert(pe[i as int].0@ == cc);
                                } else {
                                    assert(pe[crate::sessions::origin_of(j, i as int)].0@ == cc);
                                }
                                assert(false);
                            }
                        }
                    });
                }
            },
        }
    }

    /// Deletes the entry for `connection_id` and its queue, idempotently:
    /// removing an already-removed connection is a no-op, not an error.
    pub fn remove(&mut self, connection_id: &str)
        requires
            old(self).wf(),
        ensures
            final(self).wf(),
            final(self).as_map() == old(self).as_map().remove(connection_id@),
    {
        let ghost pre = *self;
        let c = connection_id.to_owned();
        match self.position_of(&c) {
            None => {
                proof {
                    assert forall|cc: Seq<char>|
                        pre.as_map().dom().contains(cc) implies cc != connection_id@ by {
                        let i = choose|i: int|
                            0 <= i < pre.entries@.len() && pre.entries@[i].0@ == cc;
                    }
                    assert(self.as_map() =~= pre.as_map().remove(connection_id@));
                }
            },
            Some(i) => {
                self.entries.remove(i);
                proof {
                    let pe = pre.entries@;
                    let se = self.entries@;
                    pe.remove_ensures(i as int);
                    assert forall|j: int| 0 <= j < se.len() implies se[j] == pe[
                        crate::sessions::origin_of(j, i as int)
                    ] by {}
                    assert(self.wf());
                    assert_maps_equal!(self.as_map(), pre.as_map().remove(connection_id@), cc => {
                        if cc == connection_id@ {
                            if self.as_map().dom().contains(cc) {
                                let j = choose|j: int| 0 <= j < se.len() && se[j].0@ == cc;
                                let oj = crate::sessions::origin_of(j, i as int);
                                if oj < i as int {
                                    assert(pe[oj].0@ != pe[i as int].0@);
                                } else {
                                    assert(pe[i as int].0@ != pe[oj].0@);
                                }
                                assert(false);
                            }
                        } else if exists|j: int| 0 <= j < pe.len() && pe[j].0@ == cc {
                            let j = choose|j: int| 0 <= j < pe.len() && pe[j].0@ == cc;
                            pre.lemma_entry_value(j);
                            let j2 = if j < i as int {
                                j
                            } else {
                                j - 1
                            };
                            assert(se[j2] == pe[j]);
                            self.lemma_entry_value(j2);
                        } else {
                            if self.as_map().dom().contains(cc) {
                                let j = choose|j: int| 0 <= j < se.len() && se[j].0@ == cc;
                                assert(pe[crate::sessions::origin_of(j, i as int)].0@ == cc);
                                assert(false);
                            }
                        }
                    });
                }
            },
        }
    }

    /// Hands out and empties the outbound queue of `connection_id`: the
    /// caller becomes responsible for delivering the returned frames, oldest
    /// first. An unknown connection yields nothing.
    pub fn take_outbox(&mut self, connection_id: &str) -> (r: Vec<OutboundFrame>)
        requires
            old(self).wf(),
        ensures
            final(self).wf(),
            old(self).as_map().dom().contains(connection_id@) ==> r@ == old(self).as_map()[
                connection_id@] && final(self).as_map() == old(self).as_map().insert(
                connection_id@,
                Seq::<OutboundFrame>::empty(),
            ),
            !old(self).as_map().dom().contains(connection_id@) ==> r@.len() == 0 && *final(self)
                == *old(self),
    {
        let ghost pre = *self;
        let c = connection_id.to_owned();
        match self.position_of(&c) {
            None => {
                proof {
                    if pre.as_map().dom().contains(connection_id@) {
                        let i = choose|i: int|
                            0 <= i < pre.entries@.len() && pre.entries@[i].0@ == connection_id@;
                    }
                }
                Vec::new()
            },
            Some(i) => {
                proof {
                    pre.lemma_entry_value(i as int);
                }
                let mut e = self.entries.remove(i);
                let mut q: Vec<OutboundFrame> = Vec::new();
                core::mem::swap(&mut q, &mut e.1);
                let ghost epair = e;
                self.entries.push(e);
                proof {
                    let pe = pre.entries@;
                    let se = self.entries@;
                    let last = se.len() - 1;
                    pe.remove_ensures(i as int);
                    assert forall|j: int| 0 <= j < last implies se[j] == pe[
                        crate::sessions::origin_of(j, i as int)
                    ] by {}
                    assert(se[last] == epair);
                    assert forall|a: int, b: int| 0 <= a < b < se.len() implies se[a].0@
                        != se[b].0@ by {
                        if b == last {
                            let oa = crate::sessions::origin_of(a, i as int);
                            if oa < i as int {
                                assert(pe[oa].0@ != pe[i as int].0@);
                            } else {
                                assert(pe[i as int].0@ != pe[oa].0@);
                            }
                        }
                    }
                    assert(self.wf());
                    assert_maps_equal!(self.as_map(), pre.as_map().insert(connection_id@, Seq::<OutboundFrame>::empty()), cc => {
                        if cc == connection_id@ {
                            self.lemma_entry_value(last);
                        } else if exists|j: int| 0 <= j < pe.len() && pe[j].0@ == cc {
                            let j = choose|j: int| 0 <= j < pe.len() && pe[j].0@ == cc;
                            pre.lemma_entry_value(j);
                            let j2 = if j < i as int {
                                j
                            } else {
                                j - 1
                            };
                            assert(se[j2] == pe[j]);
                            self.lemma_entry_value(j2);
                        } else {
                            if self.as_map().dom().contains(cc) {
                                let j = choose|j: int| 0 <= j < se.len() && se[j].0@ == cc;
                                if j == last {
                                    assert(pe[i as int].0@ == cc);
                                } else {
                                    assert(pe[crate::sessions::origin_of(j, i as int)].0@ == cc);
                                }
                                assert(false);
                            }
                        }
                    });
                }
                q
            },
        }
    }

    /// The identifiers of all live connections, each exactly once.
    pub fn connection_ids(&self) -> (r: Vec<String>)
        requires
            self.wf(),
        ensures
            distinct_views(r@),
            conn_set(r@) == self.as_map().dom(),
    {
        let mut r: Vec<String> = Vec::new();
        let n = self.entries.len();
        let mut i: usize = 0;
        while i < n
            invariant
                i <= n,
                n == self.entries@.len(),
                self.wf(),
                r@.len() == i,
                forall|j: int| 0 <= j < i ==> r@[j]@ == self.entries@[j].0@,
            decreases n - i,
        {
            r.push(self.entries[i].0.clone());
            i = i + 1;
        }
        proof {
            assert forall|cc: Seq<char>| conn_set(r@).contains(cc) implies self.as_map(
            ).dom().contains(cc) by {
                let k = choose|k: int| 0 <= k < r@.len() && r@[k]@ == cc;
                assert(self.entries@[k].0@ == cc);
            }
            assert forall|cc: Seq<char>| self.as_map().dom().contains(cc) implies conn_set(
                r@,
            ).contains(cc) by {
                let j = choose|j: int| 0 <= j < self.entries@.len() && self.entries@[j].0@ == cc;
                assert(r@[j]@ == cc);
            }
            assert(conn_set(r@) =~= self.as_map().dom());
        }
        r
    }
}

} // verus!
