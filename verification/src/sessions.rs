//! User Session Index: maps a logical user identity to the set of
//! connection identifiers currently bound to it (multi-device fan-in).
//!
//! A connection identifier is bound to at most one user at a time; binding
//! it again to the same user is idempotent, and binding it to another user
//! first unbinds it. A user whose connection set becomes empty is removed
//! from the index entirely, so no dangling empty entries remain.

use vstd::prelude::*;
use vstd::map::*;

verus! {

/// The set of views of the strings in `l`.
pub open spec fn conn_set(l: Seq<String>) -> Set<Seq<char>> {
    Set::new(|c: Seq<char>| exists|k: int| 0 <= k < l.len() && l[k]@ == c)
}

/// No two strings in `l` have the same view.
pub open spec fn distinct_views(l: Seq<String>) -> bool {
    forall|k1: int, k2: int| 0 <= k1 < k2 < l.len() ==> l[k1]@ != l[k2]@
}

/// What `unbind` does to the index: the connection disappears from every
/// user's set, and a user left with no connections disappears as well.
pub open spec fn spec_unbind(m: Map<Seq<char>, Set<Seq<char>>>, c: Seq<char>) -> Map<
    Seq<char>,
    Set<Seq<char>>,
> {
    Map::new(
        |u: Seq<char>| m.dom().contains(u) && m[u].remove(c) != Set::<Seq<char>>::empty(),
        |u: Seq<char>| m[u].remove(c),
    )
}

/// What `bind` does to the index: the connection is first unbound from
/// whichever user held it, then added to `u`'s set (created if absent).
pub open spec fn spec_bind(m: Map<Seq<char>, Set<Seq<char>>>, u: Seq<char>, c: Seq<char>) -> Map<
    Seq<char>,
    Set<Seq<char>>,
> {
    let m1 = spec_unbind(m, c);
    let base = if m1.dom().contains(u) {
        m1[u]
    } else {
        Set::<Seq<char>>::empty()
    };
    m1.insert(u, base.insert(c))
}

/// Whether `c` is currently bound to some user.
pub open spec fn spec_is_bound(m: Map<Seq<char>, Set<Seq<char>>>, c: Seq<char>) -> bool {
    exists|u: Seq<char>| m.dom().contains(u) && m[u].contains(c)
}

/// A connection identifier appears in at most one user's session set.
pub open spec fn spec_sessions_disjoint(m: Map<Seq<char>, Set<Seq<char>>>) -> bool {
    forall|u1: Seq<char>, u2: Seq<char>, c: Seq<char>|
        m.dom().contains(u1) && m.dom().contains(u2) && #[trigger] m[u1].contains(c)
            && #[trigger] m[u2].contains(c) ==> u1 == u2
}

/// Unbinding a connection that is bound nowhere changes nothing, provided
/// no session set is empty (as the index's invariant guarantees).
pub proof fn lemma_unbind_absent(m: Map<Seq<char>, Set<Seq<char>>>, c: Seq<char>)
    requires
        !spec_is_bound(m, c),
        forall|u: Seq<char>|
            m.dom().contains(u) ==> (#[trigger] m[u]) != Set::<Seq<char>>::empty(),
    ensures
        spec_unbind(m, c) == m,
{
    assert_maps_equal!(spec_unbind(m, c), m, u => {
        if m.dom().contains(u) {
            assert(!(m.dom().contains(u) && m[u].contains(c)));
            assert(m[u].remove(c) =~= m[u]);
            assert(m[u] != Set::<Seq<char>>::empty());
        }
    });
}

/// Removing a value that occurs only at position `k` of a duplicate-free
/// list takes exactly that value out of the list's connection set.
proof fn lemma_conn_set_remove(l: Seq<String>, k: int)
    requires
        0 <= k < l.len(),
        distinct_views(l),
    ensures
        conn_set(l.remove(k)) == conn_set(l).remove(l[k]@),
{
    l.remove_ensures(k);
    let lr = l.remove(k);
    assert forall|c: Seq<char>| conn_set(lr).contains(c) implies conn_set(l).remove(l[k]@).contains(
        c,
    ) by {
        let k2 = choose|k2: int| 0 <= k2 < lr.len() && lr[k2]@ == c;
        if k2 < k {
            assert(l[k2]@ == c);
        } else {
            assert(l[k2 + 1]@ == c);
        }
    }
    assert forall|c: Seq<char>| conn_set(l).remove(l[k]@).contains(c) implies conn_set(lr).contains(
        c,
    ) by {
        let k2 = choose|k2: int| 0 <= k2 < l.len() && l[k2]@ == c;
        assert(k2 != k);
        if k2 < k {
            assert(lr[k2]@ == c);
        } else {
            assert(lr[k2 - 1]@ == c);
        }
    }
    assert(conn_set(l.remove(k)) =~= conn_set(l).remove(l[k]@));
}

/// Appending a string adds exactly its view to the list's connection set.
pub proof fn lemma_conn_set_push(l: Seq<String>, s: String)
    ensures
        conn_set(l.push(s)) == conn_set(l).insert(s@),
{
    let lp = l.push(s);
    assert forall|c: Seq<char>| conn_set(lp).contains(c) implies conn_set(l).insert(s@).contains(
        c,
    ) by {
        let k = choose|k: int| 0 <= k < lp.len() && lp[k]@ == c;
        if k < l.len() {
            assert(l[k]@ == c);
        }
    }
    assert forall|c: Seq<char>| conn_set(l).insert(s@).contains(c) implies conn_set(lp).contains(
        c,
    ) by {
        if c == s@ {
            assert(lp[l.len() as int]@ == c);
        } else {
            let k = choose|k: int| 0 <= k < l.len() && l[k]@ == c;
            assert(lp[k]@ == c);
        }
    }
    assert(conn_set(l.push(s)) =~= conn_set(l).insert(s@));
}

/// The User Session Index.
///
/// Entries pair a user identity with the non-empty, duplicate-free list of
/// connection identifiers bound to that user.
pub struct Sessions {
    entries: Vec<(String, Vec<String>)>,
}

impl Sessions {
    /// The index as a map from user identity to the set of bound connections.
    pub closed spec fn as_map(self) -> Map<Seq<char>, Set<Seq<char>>> {
        Map::new(
            |u: Seq<char>| exists|i: int| 0 <= i < self.entries@.len() && self.entries@[i].0@ == u,
            |u: Seq<char>|
                {
                    let i = choose|i: int|
                        0 <= i < self.entries@.len() && self.entries@[i].0@ == u;
                    conn_set(self.entries@[i].1@)
                },
        )
    }

    /// Internal well-formedness: user keys are unique, every connection list
    /// is non-empty and duplicate-free, and no connection identifier appears
    /// under two users.
    pub closed spec fn wf(self) -> bool {
        &&& forall|i: int, j: int|
            0 <= i < j < self.entries@.len() ==> self.entries@[i].0@ != self.entries@[j].0@
        &&& forall|i: int| 0 <= i < self.entries@.len() ==> self.entries@[i].1@.len() > 0
        &&& forall|i: int|
            0 <= i < self.entries@.len() ==> distinct_views(#[trigger] self.entries@[i].1@)
        &&& forall|i: int, j: int, k: int, l: int|
            0 <= i < j < self.entries@.len() && 0 <= k < self.entries@[i].1@.len() && 0 <= l
                < self.entries@[j].1@.len() ==> self.entries@[i].1@[k]@ != self.entries@[j].1@[l]@
    }

    /// Looking an entry up by position yields exactly the map's value there.
    proof fn lemma_entry_value(self, i: int)
        requires
            self.wf(),
            0 <= i < self.entries@.len(),
        ensures
            self.as_map().dom().contains(self.entries@[i].0@),
            self.as_map()[self.entries@[i].0@] == conn_set(self.entries@[i].1@),
    {
        let u = self.entries@[i].0@;
        assert(exists|j: int| 0 <= j < self.entries@.len() && self.entries@[j].0@ == u);
        let j = choose|j: int| 0 <= j < self.entries@.len() && self.entries@[j].0@ == u;
        if i < j {
            assert(self.entries@[i].0@ != self.entries@[j].0@);
        } else if j < i {
            assert(self.entries@[j].0@ != self.entries@[i].0@);
        }
        assert(j == i);
    }

    /// `c` is in no entry's connection list exactly when it is bound nowhere.
    proof fn lemma_absent_everywhere(self, c: Seq<char>)
        requires
            self.wf(),
            forall|u: Seq<char>|
                self.as_map().dom().contains(u) ==> !(#[trigger] self.as_map()[u]).contains(c),
        ensures
            forall|i: int, k: int|
                0 <= i < self.entries@.len() && 0 <= k < self.entries@[i].1@.len()
                    ==> self.entries@[i].1@[k]@ != c,
    {
        assert forall|i: int, k: int|
            0 <= i < self.entries@.len() && 0 <= k
                < self.entries@[i].1@.len() implies self.entries@[i].1@[k]@ != c by {
            self.lemma_entry_value(i);
            assert(self.as_map()[self.entries@[i].0@].contains(self.entries@[i].1@[k]@));
        }
    }

    /// Creates an empty index.
    pub fn new() -> (r: Sessions)
        ensures
            r.wf(),
            r.as_map() == Map::<Seq<char>, Set<Seq<char>>>::empty(),
    {
        let r = Sessions { entries: Vec::new() };
        proof {
            assert(r.as_map() =~= Map::<Seq<char>, Set<Seq<char>>>::empty());
        }
        r
    }

    /// Position of the entry for `user`, if any.
    fn position_of_user(&self, user: &String) -> (r: Option<usize>)
        ensures
            match r {
                Some(i) => i < self.entries@.len() && self.entries@[i as int].0@ == user@,
                None => forall|i: int|
                    0 <= i < self.entries@.len() ==> self.entries@[i].0@ != user@,
            },
    {
        let mut i: usize = 0;
        while i < self.entries.len()
            invariant
                i <= self.entries@.len(),
                forall|j: int| 0 <= j < i ==> self.entries@[j].0@ != user@,
            decreases self.entries@.len() - i,
        {
            if self.entries[i].0 == *user {
                return Some(i);
            }
            i = i + 1;
        }
        None
    }

    /// Position `(entry, offset)` of `conn` in the index, if it is bound.
    fn position_of_conn(&self, conn: &String) -> (r: Option<(usize, usize)>)
        ensures
            match r {
                Some(p) => {
                    &&& p.0 < self.entries@.len()
                    &&& p.1 < self.entries@[p.0 as int].1@.len()
                    &&& self.entries@[p.0 as int].1@[p.1 as int]@ == conn@
                },
                None => forall|i: int, k: int|
                    0 <= i < self.entries@.len() && 0 <= k < self.entries@[i].1@.len()
                        ==> self.entries@[i].1@[k]@ != conn@,
            },
    {
        let mut i: usize = 0;
        while i < self.entries.len()
            invariant
                i <= self.entries@.len(),
                forall|i2: int, k2: int|
                    0 <= i2 < i && 0 <= k2 < self.entries@[i2].1@.len()
                        ==> self.entries@[i2].1@[k2]@ != conn@,
            decreases self.entries@.len() - i,
        {
            let mut k: usize = 0;
            let n = self.entries[i].1.len();
            while k < n
                invariant
                    i < self.entries@.len(),
                    k <= n,
                    n == self.entries@[i as int].1@.len(),
                    forall|k2: int| 0 <= k2 < k ==> self.entries@[i as int].1@[k2]@ != conn@,
                decreases n - k,
            {
                if self.entries[i].1[k] == *conn {
                    return Some((i, k));
                }
                k = k + 1;
            }
            i = i + 1;
        }
        None
    }

    /// Whether `connection_id` is currently bound to some user.
    pub fn is_bound(&self, connection_id: &str) -> (r: bool)
        requires
            self.wf(),
        ensures
            r == spec_is_bound(self.as_map(), connection_id@),
    {
        let c = connection_id.to_owned();
        match self.position_of_conn(&c) {
            Some(p) => {
                proof {
                    self.lemma_entry_value(p.0 as int);
                    let u = self.entries@[p.0 as int].0@;
                    assert(self.as_map().dom().contains(u) && self.as_map()[u].contains(
                        connection_id@,
                    ));
                }
                true
            },
            None => {
                proof {
                    assert forall|u: Seq<char>|
                        self.as_map().dom().contains(u) implies !self.as_map()[u].contains(
                        connection_id@,
                    ) by {
                        let i = choose|i: int|
                            0 <= i < self.entries@.len() && self.entries@[i].0@ == u;
                        self.lemma_entry_value(i);
                    }
                }
                false
            },
        }
    }

    /// The current binding snapshot for `user_id`: a duplicate-free list of
    /// the connections bound to that user (empty if there are none).
    pub fn connections_for(&self, user_id: &str) -> (r: Vec<String>)
        requires
            self.wf(),
        ensures
            conn_set(r@) == if self.as_map().dom().contains(user_id@) {
                self.as_map()[user_id@]
            } else {
                Set::<Seq<char>>::empty()
            },
            distinct_views(r@),
    {
        let u = user_id.to_owned();
        match self.position_of_user(&u) {
            Some(i) => {
                proof {
                    self.lemma_entry_value(i as int);
                }
                let mut r: Vec<String> = Vec::new();
                let n = self.entries[i].1.len();
                let mut k: usize = 0;
                while k < n
                    invariant
                        i < self.entries@.len(),
                        k <= n,
                        n == self.entries@[i as int].1@.len(),
                        r@.len() == k,
                        forall|k2: int| 0 <= k2 < k ==> r@[k2]@ == self.entries@[i as int].1@[k2]@,
                        distinct_views(self.entries@[i as int].1@),
                    decreases n - k,
                {
                    r.push(self.entries[i].1[k].clone());
                    k = k + 1;
                }
                proof {
                    let l = self.entries@[i as int].1@;
                    assert forall|cc: Seq<char>| conn_set(r@).contains(cc) implies conn_set(
                        l,
                    ).contains(cc) by {
                        let k2 = choose|k2: int| 0 <= k2 < r@.len() && r@[k2]@ == cc;
                        assert(l[k2]@ == cc);
                    }
                    assert forall|cc: Seq<char>| conn_set(l).contains(cc) implies conn_set(
                        r@,
                    ).contains(cc) by {
                        let k2 = choose|k2: int| 0 <= k2 < l.len() && l[k2]@ == cc;
                        assert(r@[k2]@ == cc);
                    }
                    assert(conn_set(r@) =~= conn_set(l));
                }
                r
            },
            None => {
                let r: Vec<String> = Vec::new();
                proof {
                    assert(conn_set(r@) =~= Set::<Seq<char>>::empty());
                    if self.as_map().dom().contains(user_id@) {
                        let i = choose|i: int|
                            0 <= i < self.entries@.len() && self.entries@[i].0@ == user_id@;
                        assert(self.entries@[i].0@ != u@);
                    }
                }
                r
            },
        }
    }

    /// Removes `connection_id` from whichever user session currently contains
    /// it, deleting that user's entry entirely if its set becomes empty.
    /// Unbinding an unknown connection is a no-op.
    pub fn unbind(&mut self, connection_id: &str)
        requires
            old(self).wf(),
        ensures
            final(self).wf(),
            final(self).as_map() == spec_unbind(old(self).as_map(), connection_id@),
    {
        let c = connection_id.to_owned();
        match self.position_of_conn(&c) {
            None => {
                proof {
                    let m = self.as_map();
                    assert forall|u: Seq<char>| #[trigger] m.dom().contains(u) implies m[u].remove(
                        connection_id@,
                    ) == m[u] && m[u] != Set::<Seq<char>>::empty() by {
                        let i = choose|i: int|
                            0 <= i < self.entries@.len() && self.entries@[i].0@ == u;
                        self.lemma_entry_value(i);
                        assert(!conn_set(self.entries@[i].1@).contains(connection_id@));
                        assert(m[u].remove(connection_id@) =~= m[u]);
                        assert(m[u].contains(self.entries@[i].1@[0]@));
                    }
                    assert(self.as_map() =~= spec_unbind(old(self).as_map(), connection_id@));
                }
            },
            Some(p) => {
                let (i, k) = p;
                if self.entries[i].1.len() == 1 {
                    self.entries.remove(i);
                    proof {
                        self.lemma_unbind_drop(*old(self), i as int, k as int, connection_id@);
                    }
                } else {
                    let mut e = self.entries.remove(i);
                    e.1.remove(k);
                    let ghost epair = e;
                    self.entries.push(e);
                    proof {
                        self.lemma_unbind_shrink(
                            *old(self),
                            i as int,
                            k as int,
                            connection_id@,
                            epair,
                        );
                    }
                }
            },
        }
    }

    /// Correctness of `unbind` when the connection was its user's only one:
    /// the whole entry is dropped.
    proof fn lemma_unbind_drop(self, pre: Sessions, i: int, k: int, c: Seq<char>)
        requires
            pre.wf(),
            0 <= i < pre.entries@.len(),
            0 <= k < pre.entries@[i].1@.len(),
            pre.entries@[i].1@[k]@ == c,
            pre.entries@[i].1@.len() == 1,
            self.entries@ == pre.entries@.remove(i),
        ensures
            self.wf(),
            self.as_map() == spec_unbind(pre.as_map(), c),
    {
        let pe = pre.entries@;
        let se = self.entries@;
        pe.remove_ensures(i);
        assert(k == 0);
        assert forall|j: int| 0 <= j < se.len() implies se[j] == pe[origin_of(j, i)] by {}
        assert(self.wf());
        let m1 = self.as_map();
        let m2 = spec_unbind(pre.as_map(), c);
        assert_maps_equal!(m1, m2, u => {
            if exists|j: int| 0 <= j < pe.len() && pe[j].0@ == u {
                let j = choose|j: int| 0 <= j < pe.len() && pe[j].0@ == u;
                pre.lemma_entry_value(j);
                if j == i {
                    // The user's only connection was `c`: gone on both sides.
                    assert(pre.as_map()[u] =~= Set::<Seq<char>>::empty().insert(c));
                    assert(pre.as_map()[u].remove(c) =~= Set::<Seq<char>>::empty());
                    assert(!m2.dom().contains(u));
                    if m1.dom().contains(u) {
                        let j2 = choose|j2: int| 0 <= j2 < se.len() && se[j2].0@ == u;
                        pre.lemma_distinct_keys(origin_of(j2, i), j);
                        assert(false);
                    }
                } else {
                    let j2 = if j < i {
                        j
                    } else {
                        j - 1
                    };
                    assert(se[j2] == pe[j]);
                    self.lemma_entry_value(j2);
                    self.lemma_entry_value(j2);
                    assert(m1[u] == conn_set(pe[j].1@));
                    pre.lemma_conn_only_at(i, k, c, j);
                    assert(pre.as_map()[u].remove(c) =~= conn_set(pe[j].1@));
                    assert(conn_set(pe[j].1@).contains(pe[j].1@[0]@));
                    assert(m2.dom().contains(u));
                    assert(m1[u] == m2[u]);
                }
            } else {
                assert(!pre.as_map().dom().contains(u));
                assert(!m2.dom().contains(u));
                if m1.dom().contains(u) {
                    let j2 = choose|j2: int| 0 <= j2 < se.len() && se[j2].0@ == u;
                    assert(pe[origin_of(j2, i)].0@ == u);
                    assert(false);
                }
            }
        });
    }

    /// Correctness of `unbind` when the user keeps other connections: the
    /// entry, shortened by its `k`-th element, moves to the back.
    proof fn lemma_unbind_shrink(
        self,
        pre: Sessions,
        i: int,
        k: int,
        c: Seq<char>,
        epair: (String, Vec<String>),
    )
        requires
            pre.wf(),
            0 <= i < pre.entries@.len(),
            0 <= k < pre.entries@[i].1@.len(),
            pre.entries@[i].1@[k]@ == c,
            pre.entries@[i].1@.len() > 1,
            epair.0 == pre.entries@[i].0,
            epair.1@ == pre.entries@[i].1@.remove(k),
            self.entries@ == pre.entries@.remove(i).push(epair),
        ensures
            self.wf(),
            self.as_map() == spec_unbind(pre.as_map(), c),
    {
        let pe = pre.entries@;
        let se = self.entries@;
        let li = pe[i].1@;
        pe.remove_ensures(i);
        li.remove_ensures(k);
        assert(se.len() == pe.len());
        let last = se.len() - 1;
        assert forall|j: int| 0 <= j < last implies se[j] == pe[origin_of(j, i)] by {}
        assert(se[last] == epair);
        // Well-formedness of the mutated index.
        assert forall|a: int, b: int| 0 <= a < b < se.len() implies se[a].0@ != se[b].0@ by {
            if b == last {
                pre.lemma_distinct_keys(origin_of(a, i), i);
            } else {
                pre.lemma_distinct_keys(origin_of(a, i), origin_of(b, i));
            }
        }
        assert forall|a: int| 0 <= a < se.len() implies se[a].1@.len() > 0 && distinct_views(
            #[trigger] se[a].1@,
        ) by {
            if a == last {
                assert(se[a].1@ == li.remove(k));
                assert forall|k1: int, k2: int| 0 <= k1 < k2 < se[a].1@.len() implies se[a].1@[k1]@
                    != se[a].1@[k2]@ by {
                    assert(se[a].1@[k1] == li[skip_index(k1, k)]);
                    assert(se[a].1@[k2] == li[skip_index(k2, k)]);
                }
            }
        }
        assert forall|a: int, b: int, x: int, y: int|
            0 <= a < b < se.len() && 0 <= x < se[a].1@.len() && 0 <= y
                < se[b].1@.len() implies se[a].1@[x]@ != se[b].1@[y]@ by {
            if b == last {
                let oa = origin_of(a, i);
                assert(se[b].1@[y] == li[skip_index(y, k)]);
                assert(se[a].1@[x] == pe[oa].1@[x]);
                pre.lemma_lists_disjoint(oa, i, x, skip_index(y, k));
            } else {
                pre.lemma_lists_disjoint(origin_of(a, i), origin_of(b, i), x, y);
            }
        }
        assert(self.wf());
        // The map views agree key by key.
        let m1 = self.as_map();
        let m2 = spec_unbind(pre.as_map(), c);
        assert_maps_equal!(m1, m2, u => {
            if exists|j: int| 0 <= j < pe.len() && pe[j].0@ == u {
                let j = choose|j: int| 0 <= j < pe.len() && pe[j].0@ == u;
                pre.lemma_entry_value(j);
                if j == i {
                    // The entry survives at the back, shortened by `c`.
                    self.lemma_entry_value(last);
                    self.lemma_entry_value(last);
                    lemma_conn_set_remove(li, k);
                    assert(m1[u] == conn_set(li).remove(c));
                    let k2 = if k == 0 {
                        1
                    } else {
                        0
                    };
                    assert(li[k2]@ != c);
                    assert(conn_set(li).remove(c).contains(li[k2]@));
                    assert(m2.dom().contains(u));
                    assert(m1[u] == m2[u]);
                } else {
                    let j2 = if j < i {
                        j
                    } else {
                        j - 1
                    };
                    assert(se[j2] == pe[j]);
                    self.lemma_entry_value(j2);
                    self.lemma_entry_value(j2);
                    assert(m1[u] == conn_set(pe[j].1@));
                    pre.lemma_conn_only_at(i, k, c, j);
                    assert(pre.as_map()[u].remove(c) =~= conn_set(pe[j].1@));
                    assert(conn_set(pe[j].1@).contains(pe[j].1@[0]@));
                    assert(m2.dom().contains(u));
                    assert(m1[u] == m2[u]);
                }
            } else {
                assert(!pre.as_map().dom().contains(u));
                assert(!m2.dom().contains(u));
                if m1.dom().contains(u) {
                    let j2 = choose|j2: int| 0 <= j2 < se.len() && se[j2].0@ == u;
                    if j2 == last {
                        assert(pe[i].0@ == u);
                    } else {
                        assert(pe[origin_of(j2, i)].0@ == u);
                    }
                    assert(false);
                }
            }
        });
    }

    /// Two distinct entry positions carry distinct user keys.
    proof fn lemma_distinct_keys(self, a: int, b: int)
        requires
            self.wf(),
            0 <= a < self.entries@.len(),
            0 <= b < self.entries@.len(),
            a != b,
        ensures
            self.entries@[a].0@ != self.entries@[b].0@,
    {
    }

    /// Connection lists of two distinct entries share no identifier.
    proof fn lemma_lists_disjoint(self, a: int, b: int, x: int, y: int)
        requires
            self.wf(),
            0 <= a < self.entries@.len(),
            0 <= b < self.entries@.len(),
            a != b,
            0 <= x < self.entries@[a].1@.len(),
            0 <= y < self.entries@[b].1@.len(),
        ensures
            self.entries@[a].1@[x]@ != self.entries@[b].1@[y]@,
    {
    }

    /// `c` occurs in no list other than at entry `i` (where it sits at `k`).
    proof fn lemma_conn_only_at(self, i: int, k: int, c: Seq<char>, j: int)
        requires
            self.wf(),
            0 <= i < self.entries@.len(),
            0 <= k < self.entries@[i].1@.len(),
            self.entries@[i].1@[k]@ == c,
            0 <= j < self.entries@.len(),
            j != i,
        ensures
            !conn_set(self.entries@[j].1@).contains(c),
    {
        assert forall|l: int| 0 <= l < self.entries@[j].1@.len() implies self.entries@[j].1@[l]@
            != c by {
            self.lemma_lists_disjoint(j, i, l, k);
        }
    }

    /// A connection identifier is in at most one user's session set: if two
    /// users both hold `c`, they are the same user.
    pub proof fn lemma_disjoint_users(self, u1: Seq<char>, u2: Seq<char>, c: Seq<char>)
        requires
            self.wf(),
            self.as_map().dom().contains(u1),
            self.as_map()[u1].contains(c),
            self.as_map().dom().contains(u2),
            self.as_map()[u2].contains(c),
        ensures
            u1 == u2,
    {
        let i1 = choose|i: int| 0 <= i < self.entries@.len() && self.entries@[i].0@ == u1;
        let i2 = choose|i: int| 0 <= i < self.entries@.len() && self.entries@[i].0@ == u2;
        self.lemma_entry_value(i1);
        self.lemma_entry_value(i2);
        let k1 = choose|k: int|
            0 <= k < self.entries@[i1].1@.len() && self.entries@[i1].1@[k]@ == c;
        let k2 = choose|k: int|
            0 <= k < self.entries@[i2].1@.len() && self.entries@[i2].1@[k]@ == c;
        if i1 != i2 {
            self.lemma_lists_disjoint(i1, i2, k1, k2);
            assert(false);
        }
    }

    /// No user's session set is empty: an entry exists only while at least
    /// one connection is bound (no dangling empty entries).
    pub proof fn lemma_no_empty_sessions(self)
        requires
            self.wf(),
        ensures
            forall|u: Seq<char>|
                self.as_map().dom().contains(u) ==> (#[trigger] self.as_map()[u])
                    != Set::<Seq<char>>::empty(),
    {
        assert forall|u: Seq<char>| self.as_map().dom().contains(u) implies (
        #[trigger] self.as_map()[u]) != Set::<Seq<char>>::empty() by {
            let i = choose|i: int| 0 <= i < self.entries@.len() && self.entries@[i].0@ == u;
            self.lemma_entry_value(i);
            assert(self.as_map()[u].contains(self.entries@[i].1@[0]@));
        }
    }

    /// A well-formed index keeps its session sets pairwise disjoint: a
    /// connection identifier is bound to at most one user.
    pub proof fn lemma_disjoint(self)
        requires
            self.wf(),
        ensures
            spec_sessions_disjoint(self.as_map()),
    {
        assert forall|u1: Seq<char>, u2: Seq<char>, c: Seq<char>|
            self.as_map().dom().contains(u1) && self.as_map().dom().contains(u2)
                && #[trigger] self.as_map()[u1].contains(c) && #[trigger] self.as_map()[
            u2].contains(c) implies u1 == u2 by {
            self.lemma_disjoint_users(u1, u2, c);
        }
    }

    /// Binds `connection_id` to `user_id`, creating the user's entry if
    /// absent. Rebinding is idempotent for the same user and implicitly
    /// unbinds the connection from any other user first, so the connection
    /// never appears twice in the index.
    pub fn bind(&mut self, user_id: &str, connection_id: &str)
        requires
            old(self).wf(),
        ensures
            final(self).wf(),
            final(self).as_map() == spec_bind(old(self).as_map(), user_id@, connection_id@),
    {
        self.unbind(connection_id);
        let ghost mid = *self;
        let u = user_id.to_owned();
        let c = connection_id.to_owned();
        let ghost cs = c;
        proof {
            assert forall|u2: Seq<char>|
                mid.as_map().dom().contains(u2) implies !(#[trigger] mid.as_map()[u2]).contains(
                connection_id@,
            ) by {
                assert(mid.as_map()[u2] == old(self).as_map()[u2].remove(connection_id@));
            }
            mid.lemma_absent_everywhere(connection_id@);
        }
        match self.position_of_user(&u) {
            Some(i) => {
                let mut e = self.entries.remove(i);
                e.1.push(c);
                let ghost epair = e;
                self.entries.push(e);
                proof {
                    self.lemma_bind_existing(mid, i as int, user_id@, cs, epair);
                    assert(mid.as_map().dom().contains(user_id@)) by {
                        mid.lemma_entry_value(i as int);
                    }
                }
            },
            None => {
                let mut l: Vec<String> = Vec::new();
                l.push(c);
                let ghost epair = (u, l);
                self.entries.push((u, l));
                proof {
                    self.lemma_bind_fresh(mid, user_id@, cs, epair);
                    if mid.as_map().dom().contains(user_id@) {
                        let i = choose|i: int|
                            0 <= i < mid.entries@.len() && mid.entries@[i].0@ == user_id@;
                        assert(false);
                    }
                }
            },
        }
    }

    /// Correctness of `bind` when the user already had an entry at `i` (the
    /// entry moves to the back with the connection appended).
    proof fn lemma_bind_existing(
        self,
        mid: Sessions,
        i: int,
        u: Seq<char>,
        cs: String,
        epair: (String, Vec<String>),
    )
        requires
            mid.wf(),
            0 <= i < mid.entries@.len(),
            mid.entries@[i].0@ == u,
            forall|i2: int, k2: int|
                0 <= i2 < mid.entries@.len() && 0 <= k2 < mid.entries@[i2].1@.len()
                    ==> mid.entries@[i2].1@[k2]@ != cs@,
            epair.0 == mid.entries@[i].0,
            epair.1@ == mid.entries@[i].1@.push(cs),
            self.entries@ == mid.entries@.remove(i).push(epair),
        ensures
            self.wf(),
            self.as_map() == mid.as_map().insert(u, mid.as_map()[u].insert(cs@)),
    {
        let me = mid.entries@;
        let se = self.entries@;
        let li = me[i].1@;
        me.remove_ensures(i);
        mid.lemma_entry_value(i);
        assert(se.len() == me.len());
        let last = se.len() - 1;
        assert forall|j: int| 0 <= j < last implies se[j] == me[origin_of(j, i)] by {}
        assert(se[last] == epair);
        // Well-formedness of the mutated index.
        assert forall|a: int, b: int| 0 <= a < b < se.len() implies se[a].0@ != se[b].0@ by {
            if b == last {
                mid.lemma_distinct_keys(origin_of(a, i), i);
            } else {
                mid.lemma_distinct_keys(origin_of(a, i), origin_of(b, i));
            }
        }
        assert forall|a: int| 0 <= a < se.len() implies se[a].1@.len() > 0 && distinct_views(
            #[trigger] se[a].1@,
        ) by {
            if a == last {
                assert(se[a].1@ == li.push(cs));
                assert forall|k1: int, k2: int| 0 <= k1 < k2 < se[a].1@.len() implies se[a].1@[k1]@
                    != se[a].1@[k2]@ by {
                    if k2 == li.len() {
                        assert(se[a].1@[k1] == li[k1]);
                        assert(se[a].1@[k2] == cs);
                    } else {
                        assert(se[a].1@[k1] == li[k1]);
                        assert(se[a].1@[k2] == li[k2]);
                    }
                }
            }
        }
        assert forall|a: int, b: int, x: int, y: int|
            0 <= a < b < se.len() && 0 <= x < se[a].1@.len() && 0 <= y
                < se[b].1@.len() implies se[a].1@[x]@ != se[b].1@[y]@ by {
            if b == last {
                let oa = origin_of(a, i);
                assert(se[a].1@[x] == me[oa].1@[x]);
                if y == li.len() {
                    assert(se[b].1@[y] == cs);
                } else {
                    assert(se[b].1@[y] == li[y]);
                    mid.lemma_lists_disjoint(oa, i, x, y);
                }
            } else {
                mid.lemma_lists_disjoint(origin_of(a, i), origin_of(b, i), x, y);
            }
        }
        assert(self.wf());
        // The map views agree key by key.
        let m1 = self.as_map();
        let m2 = mid.as_map().insert(u, mid.as_map()[u].insert(cs@));
        assert_maps_equal!(m1, m2, u2 => {
            if u2 == u {
                self.lemma_entry_value(last);
                lemma_conn_set_push(li, cs);
                assert(m1[u2] == conn_set(li).insert(cs@));
                assert(m2[u2] == mid.as_map()[u].insert(cs@));
                assert(mid.as_map()[u] == conn_set(li));
            } else if exists|j: int| 0 <= j < me.len() && me[j].0@ == u2 {
                let j = choose|j: int| 0 <= j < me.len() && me[j].0@ == u2;
                mid.lemma_entry_value(j);
                assert(j != i);
                let j2 = if j < i {
                    j
                } else {
                    j - 1
                };
                assert(se[j2] == me[j]);
                self.lemma_entry_value(j2);
                assert(m1[u2] == conn_set(me[j].1@));
                assert(m2[u2] == mid.as_map()[u2]);
            } else {
                assert(!mid.as_map().dom().contains(u2));
                assert(!m2.dom().contains(u2));
                if m1.dom().contains(u2) {
                    let j2 = choose|j2: int| 0 <= j2 < se.len() && se[j2].0@ == u2;
                    if j2 == last {
                        assert(me[i].0@ == u2);
                    } else {
                        assert(me[origin_of(j2, i)].0@ == u2);
                    }
                    assert(false);
                }
            }
        });
    }

    /// Correctness of `bind` when the user had no entry (a fresh singleton
    /// entry is appended).
    proof fn lemma_bind_fresh(self, mid: Sessions, u: Seq<char>, cs: String, epair: (String, Vec<String>))
        requires
            mid.wf(),
            forall|j: int| 0 <= j < mid.entries@.len() ==> mid.entries@[j].0@ != u,
            forall|i2: int, k2: int|
                0 <= i2 < mid.entries@.len() && 0 <= k2 < mid.entries@[i2].1@.len()
                    ==> mid.entries@[i2].1@[k2]@ != cs@,
            epair.0@ == u,
            epair.1@.len() == 1,
            epair.1@[0] == cs,
            self.entries@ == mid.entries@.push(epair),
        ensures
            self.wf(),
            self.as_map() == mid.as_map().insert(u, Set::<Seq<char>>::empty().insert(cs@)),
    {
        let me = mid.entries@;
        let se = self.entries@;
        let last = se.len() - 1;
        assert(se.len() == me.len() + 1);
        assert(forall|j: int| 0 <= j < last ==> se[j] == me[j]);
        assert(se[last] == epair);
        // Well-formedness of the extended index.
        assert forall|a: int, b: int| 0 <= a < b < se.len() implies se[a].0@ != se[b].0@ by {
            if b < last {
                mid.lemma_distinct_keys(a, b);
            }
        }
        assert forall|a: int| 0 <= a < se.len() implies se[a].1@.len() > 0 && distinct_views(
            #[trigger] se[a].1@,
        ) by {
            if a == last {
                assert(se[a].1@.len() == 1);
            }
        }
        assert forall|a: int, b: int, x: int, y: int|
            0 <= a < b < se.len() && 0 <= x < se[a].1@.len() && 0 <= y
                < se[b].1@.len() implies se[a].1@[x]@ != se[b].1@[y]@ by {
            if b == last {
                assert(se[b].1@[y] == cs);
                assert(se[a].1@[x] == me[a].1@[x]);
            } else {
                mid.lemma_lists_disjoint(a, b, x, y);
            }
        }
        assert(self.wf());
        // The map views agree key by key.
        let m1 = self.as_map();
        let m2 = mid.as_map().insert(u, Set::<Seq<char>>::empty().insert(cs@));
        assert_maps_equal!(m1, m2, u2 => {
            if u2 == u {
                self.lemma_entry_value(last);
                assert(conn_set(epair.1@) =~= Set::<Seq<char>>::empty().insert(cs@));
            } else if exists|j: int| 0 <= j < me.len() && me[j].0@ == u2 {
                let j = choose|j: int| 0 <= j < me.len() && me[j].0@ == u2;
                mid.lemma_entry_value(j);
                assert(se[j] == me[j]);
                self.lemma_entry_value(j);
                assert(m1[u2] == conn_set(me[j].1@));
            } else {
                assert(!mid.as_map().dom().contains(u2));
                assert(!m2.dom().contains(u2));
                if m1.dom().contains(u2) {
                    let j2 = choose|j2: int| 0 <= j2 < se.len() && se[j2].0@ == u2;
                    if j2 < last {
                        assert(me[j2].0@ == u2);
                    }
                    assert(false);
                }
            }
        });
    }
}

/// After a bind, the connection is in the bound user's session set, and in
/// no other user's.
pub proof fn lemma_bind_binds(m: Map<Seq<char>, Set<Seq<char>>>, u: Seq<char>, c: Seq<char>)
    ensures
        spec_bind(m, u, c).dom().contains(u),
        spec_bind(m, u, c)[u].contains(c),
        forall|u2: Seq<char>|
            u2 != u && spec_bind(m, u, c).dom().contains(u2)
                ==> !(#[trigger] spec_bind(m, u, c).index(u2)).contains(c),
{
    assert forall|u2: Seq<char>|
        u2 != u && spec_bind(m, u, c).dom().contains(u2) implies !(spec_bind(m, u, c).index(
        u2,
    )).contains(c) by {
        assert(spec_bind(m, u, c)[u2] == m[u2].remove(c));
    }
}

/// Bind idempotence: binding the same connection to the same user twice
/// leaves the index exactly as binding it once does, so the user's session
/// set holds a single occurrence of the connection.
pub proof fn lemma_bind_idempotent(m: Map<Seq<char>, Set<Seq<char>>>, u: Seq<char>, c: Seq<char>)
    ensures
        spec_bind(spec_bind(m, u, c), u, c) == spec_bind(m, u, c),
{
    let m1 = spec_bind(m, u, c);
    let w1 = spec_unbind(m, c);
    let base = if w1.dom().contains(u) {
        w1[u]
    } else {
        Set::<Seq<char>>::empty()
    };
    assert(!base.contains(c)) by {
        if w1.dom().contains(u) {
            assert(w1[u] == m[u].remove(c));
        }
    }
    let w2 = spec_unbind(m1, c);
    assert_maps_equal!(w2, w1, u2 => {
        if u2 == u {
            assert(m1[u] == base.insert(c));
            assert(base.insert(c).remove(c) =~= base);
            if w1.dom().contains(u) {
                assert(w1[u] == m[u].remove(c));
                assert(w1[u] != Set::<Seq<char>>::empty());
            }
            if base != Set::<Seq<char>>::empty() {
                assert(w2.dom().contains(u2) && w1.dom().contains(u2));
            } else {
                if w1.dom().contains(u) {
                    assert(w1[u] == base);
                    assert(false);
                }
                assert(!w2.dom().contains(u2) && !w1.dom().contains(u2));
            }
        } else {
            if m1.dom().contains(u2) {
                assert(m1[u2] == w1[u2]);
                assert(w1.dom().contains(u2));
                assert(w1[u2] == m[u2].remove(c));
                assert(m[u2].remove(c).remove(c) =~= m[u2].remove(c));
            }
        }
    });
    let base2 = if w2.dom().contains(u) {
        w2[u]
    } else {
        Set::<Seq<char>>::empty()
    };
    assert(base2 == base) by {
        if w2.dom().contains(u) {
        } else {
            if w1.dom().contains(u) {
                assert(w2.dom().contains(u));
            }
        }
    }
    assert_maps_equal!(spec_bind(m1, u, c), m1, u2 => {});
}

/// Rebind exclusivity: binding connection `c` to user `b` after it was
/// bound to user `a` removes `c` from `a`'s session set and adds it to
/// `b`'s.
pub proof fn lemma_rebind_exclusive(
    m: Map<Seq<char>, Set<Seq<char>>>,
    a: Seq<char>,
    b: Seq<char>,
    c: Seq<char>,
)
    requires
        a != b,
    ensures
        spec_bind(spec_bind(m, a, c), b, c).dom().contains(b),
        spec_bind(spec_bind(m, a, c), b, c)[b].contains(c),
        spec_bind(spec_bind(m, a, c), b, c).dom().contains(a) ==> !spec_bind(
            spec_bind(m, a, c),
            b,
            c,
        )[a].contains(c),
{
    let m1 = spec_bind(m, a, c);
    let m2 = spec_bind(m1, b, c);
    let w2 = spec_unbind(m1, c);
    assert(m2[b] == (if w2.dom().contains(b) {
        w2[b]
    } else {
        Set::<Seq<char>>::empty()
    }).insert(c));
    if m2.dom().contains(a) {
        assert(m2[a] == w2[a]);
        assert(w2.dom().contains(a));
        assert(w2[a] == m1[a].remove(c));
    }
}

/// Pre-mutation index of the entry that sits at position `j` after the
/// entry at position `i` was taken out.
pub open spec fn origin_of(j: int, i: int) -> int {
    if j < i {
        j
    } else {
        j + 1
    }
}

/// Pre-removal offset of the element that sits at offset `x` after the
/// element at offset `k` was taken out of a list.
pub open spec fn skip_index(x: int, k: int) -> int {
    if x < k {
        x
    } else {
        x + 1
    }
}

} // verus!
