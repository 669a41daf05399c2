//! The message distribution hub: one registry of live connections, one user
//! session index, and the router that dispatches inbound envelopes.
//!
//! The hub is a sequential state machine. The surrounding runtime owns the
//! transports and the persistence gateway: it feeds decoded envelopes in,
//! performs the storage calls the hub asks for (`RouteAction`), hands the
//! results back, and drains each connection's outbound queue onto its
//! transport. Persistence strictly precedes fan-out: no queue changes until
//! the router is told the message was durably saved.

use vstd::prelude::*;
use vstd::map::*;
use crate::chat::{spec_chat_identify, Message};
use crate::envelope::{Envelope, MessagePayload, OutboundFrame};
use crate::ids::fresh_uuid;
use crate::registry::{spec_send, Registry};
use crate::sessions::{
    conn_set, distinct_views, lemma_conn_set_push, lemma_unbind_absent, spec_bind, spec_is_bound,
    spec_sessions_disjoint, spec_unbind, Sessions,
};

verus! {

/// The connections currently bound to `u` (empty for an unknown user).
pub open spec fn user_conns(m: Map<Seq<char>, Set<Seq<char>>>, u: Seq<char>) -> Set<Seq<char>> {
    if m.dom().contains(u) {
        m[u]
    } else {
        Set::<Seq<char>>::empty()
    }
}

/// One copy of `m` appended to the queue of every live connection in
/// `targets`; every other queue untouched.
pub open spec fn spec_fanout(
    rm: Map<Seq<char>, Seq<OutboundFrame>>,
    targets: Set<Seq<char>>,
    m: Message,
) -> Map<Seq<char>, Seq<OutboundFrame>> {
    Map::new(
        |c: Seq<char>| rm.dom().contains(c),
        |c: Seq<char>|
            if targets.contains(c) {
                rm[c].push(OutboundFrame::Chat(m))
            } else {
                rm[c]
            },
    )
}

/// Every connection bound to any user in `members`.
pub open spec fn group_targets(
    sm: Map<Seq<char>, Set<Seq<char>>>,
    members: Seq<String>,
) -> Set<Seq<char>> {
    Set::new(
        |c: Seq<char>|
            exists|j: int| 0 <= j < members.len() && user_conns(sm, members[j]@).contains(c),
    )
}

/// Fanning out to no one changes nothing.
proof fn lemma_fanout_empty(rm: Map<Seq<char>, Seq<OutboundFrame>>, m: Message)
    ensures
        spec_fanout(rm, Set::<Seq<char>>::empty(), m) == rm,
{
    assert(spec_fanout(rm, Set::<Seq<char>>::empty(), m) =~= rm);
}

/// Sending to one more connection, not yet a target, extends the fan-out by
/// exactly that connection.
proof fn lemma_fanout_step(
    rm: Map<Seq<char>, Seq<OutboundFrame>>,
    targets: Set<Seq<char>>,
    c: Seq<char>,
    m: Message,
)
    requires
        !targets.contains(c),
    ensures
        spec_send(spec_fanout(rm, targets, m), c, OutboundFrame::Chat(m)) == spec_fanout(
            rm,
            targets.insert(c),
            m,
        ),
{
    assert(spec_send(spec_fanout(rm, targets, m), c, OutboundFrame::Chat(m)) =~= spec_fanout(
        rm,
        targets.insert(c),
        m,
    ));
}

/// Fanning out to two disjoint target sets in turn equals fanning out to
/// their union: no queue sees the message twice.
proof fn lemma_fanout_union(
    rm: Map<Seq<char>, Seq<OutboundFrame>>,
    a: Set<Seq<char>>,
    b: Set<Seq<char>>,
    m: Message,
)
    requires
        a.disjoint(b),
    ensures
        spec_fanout(spec_fanout(rm, a, m), b, m) == spec_fanout(rm, a.union(b), m),
{
    assert(spec_fanout(spec_fanout(rm, a, m), b, m) =~= spec_fanout(rm, a.union(b), m));
}

/// What the router asks its caller to do next.
pub enum RouteAction {
    /// Persistence failed: nothing was delivered and nothing will be.
    Aborted,
    /// A direct message was fanned out and echoed; the route is complete.
    Delivered,
    /// A group message was persisted; fetch the group's current membership
    /// and finish with `deliver_group`.
    NeedGroupMembers(String),
}

/// The message distribution hub.
pub struct Hub {
    registry: Registry,
    sessions: Sessions,
}

impl Hub {
    /// The registry as a map from connection identifier to outbound queue.
    pub closed spec fn registry_map(self) -> Map<Seq<char>, Seq<OutboundFrame>> {
        self.registry.as_map()
    }

    /// The session index as a map from user identity to bound connections.
    pub closed spec fn sessions_map(self) -> Map<Seq<char>, Set<Seq<char>>> {
        self.sessions.as_map()
    }

    /// Both components are internally well-formed.
    pub closed spec fn wf(self) -> bool {
        self.registry.wf() && self.sessions.wf()
    }

    /// An empty hub: no connections, no sessions.
    pub fn new() -> (r: Hub)
        ensures
            r.wf(),
            r.registry_map() == Map::<Seq<char>, Seq<OutboundFrame>>::empty(),
            r.sessions_map() == Map::<Seq<char>, Set<Seq<char>>>::empty(),
    {
        Hub { registry: Registry::new(), sessions: Sessions::new() }
    }

    /// Accepts a connection under the given identifier: a fresh entry whose
    /// queue holds the one `init` frame announcing the identifier to the
    /// peer. Refused (and a no-op) if the identifier is already live.
    pub fn accept(&mut self, connection_id: String) -> (r: bool)
        requires
            old(self).wf(),
        ensures
            final(self).wf(),
            r == !old(self).registry_map().dom().contains(connection_id@),
            final(self).sessions_map() == old(self).sessions_map(),
            r ==> final(self).registry_map() == old(self).registry_map().insert(
                connection_id@,
                seq![OutboundFrame::Init { client_id: connection_id }],
            ),
            !r ==> *final(self) == *old(self),
    {
        let ghost cid = connection_id@;
        let init = OutboundFrame::Init { client_id: connection_id.clone() };
        let key = connection_id.clone();
        if self.registry.register_conn(connection_id) {
            let ghost mid = self.registry.as_map();
            self.registry.send(key.as_str(), init);
            proof {
                assert(mid.dom().contains(cid));
                assert(self.registry.as_map() =~= old(self).registry_map().insert(
                    cid,
                    seq![OutboundFrame::Init { client_id: key }],
                ));
            }
            true
        } else {
            false
        }
    }

    /// Accepts a connection under a freshly generated identifier and returns
    /// it; `None` in the unlikely event that the generated identifier
    /// collides with a live one, in which case nothing changes.
    pub fn register(&mut self) -> (r: Option<String>)
        requires
            old(self).wf(),
        ensures
            final(self).wf(),
            final(self).sessions_map() == old(self).sessions_map(),
            r matches Some(id) ==> !old(self).registry_map().dom().contains(id@) && final(self).registry_map() == old(self).registry_map().insert(
                id@,
                seq![OutboundFrame::Init { client_id: id }],
            ),
            r is None ==> *final(self) == *old(self),
    {
        let id = fresh_uuid();
        if self.accept(id.clone()) {
            Some(id)
        } else {
            None
        }
    }

    /// Whether `connection_id` is a live connection.
    pub fn contains_connection(&self, connection_id: &str) -> (r: bool)
        requires
            self.wf(),
        ensures
            r == self.registry_map().dom().contains(connection_id@),
    {
        self.registry.contains(connection_id)
    }

    /// Whether `connection_id` has completed a successful bind.
    pub fn is_bound(&self, connection_id: &str) -> (r: bool)
        requires
            self.wf(),
        ensures
            r == spec_is_bound(self.sessions_map(), connection_id@),
    {
        self.sessions.is_bound(connection_id)
    }

    /// The current binding snapshot for `user_id` (may be empty).
    pub fn connections_for(&self, user_id: &str) -> (r: Vec<String>)
        requires
            self.wf(),
        ensures
            conn_set(r@) == user_conns(self.sessions_map(), user_id@),
            distinct_views(r@),
    {
        self.sessions.connections_for(user_id)
    }

    /// Hands out and empties the outbound queue of `connection_id`.
    pub fn take_outbox(&mut self, connection_id: &str) -> (r: Vec<OutboundFrame>)
        requires
            old(self).wf(),
        ensures
            final(self).wf(),
            final(self).sessions_map() == old(self).sessions_map(),
            old(self).registry_map().dom().contains(connection_id@) ==> r@ == old(self).registry_map()[connection_id@] && final(self).registry_map() == old(self).registry_map().insert(connection_id@, Seq::<OutboundFrame>::empty()),
            !old(self).registry_map().dom().contains(connection_id@) ==> r@.len() == 0 && *final(self) == *old(self),
    {
        self.registry.take_outbox(connection_id)
    }

    /// The identifiers of all live connections.
    pub fn connection_ids(&self) -> (r: Vec<String>)
        requires
            self.wf(),
        ensures
            distinct_views(r@),
            conn_set(r@) == self.registry_map().dom(),
    {
        self.registry.connection_ids()
    }

    /// Heartbeat: replies with exactly one `pong` on the pinging connection
    /// itself, with no effect on any other connection or on the sessions.
    pub fn handle_ping(&mut self, connection_id: &str)
        requires
            old(self).wf(),
        ensures
            final(self).wf(),
            final(self).sessions_map() == old(self).sessions_map(),
            final(self).registry_map() == spec_send(
                old(self).registry_map(),
                connection_id@,
                OutboundFrame::Pong { bind_ack: false },
            ),
            old(self).registry_map().dom().contains(connection_id@) ==> final(self).registry_map()[
                connection_id@] == old(self).registry_map()[connection_id@].push(
                OutboundFrame::Pong { bind_ack: false },
            ),
            forall|c: Seq<char>|
                old(self).registry_map().dom().contains(c) && c != connection_id@ ==> final(self).registry_map()[c] == old(self).registry_map()[c],
    {
        self.registry.send(connection_id, OutboundFrame::Pong { bind_ack: false });
    }

    /// Handshake: binds a live connection to the user identity the
    /// credential resolves to, and acknowledges with the `pong` variant that
    /// carries `multiport`. On an unknown connection nothing happens, and no
    /// error is sent either way.
    pub fn handle_bind(&mut self, connection_id: &str, user_id: &str)
        requires
            old(self).wf(),
        ensures
            final(self).wf(),
            old(self).registry_map().dom().contains(connection_id@) ==> final(self).sessions_map()
                == spec_bind(old(self).sessions_map(), user_id@, connection_id@) && final(self).registry_map() == spec_send(
                old(self).registry_map(),
                connection_id@,
                OutboundFrame::Pong { bind_ack: true },
            ),
            !old(self).registry_map().dom().contains(connection_id@) ==> *final(self) == *old(self),
    {
        if self.registry.contains(connection_id) {
            self.sessions.bind(user_id, connection_id);
            self.registry.send(connection_id, OutboundFrame::Pong { bind_ack: true });
        }
    }

    /// Builds the durable message for a `message` envelope arriving on
    /// `connection_id`: a fresh identifier and timestamp, the conversation
    /// key derived from the payload. An unbound sender has no resolvable
    /// identity, so the envelope is rejected (`None`) with no effect and
    /// nothing to persist; the state never changes either way.
    pub fn handle_chat(&self, connection_id: &str, payload: MessagePayload) -> (r: Option<Message>)
        requires
            self.wf(),
        ensures
            r is Some <==> spec_is_bound(self.sessions_map(), connection_id@),
            r matches Some(m) ==> m.from_user == payload.from_user && m.to_user == payload.to_user
                && m.content == payload.content && m.message_type == payload.message_type
                && m.is_group == payload.is_group && m.file_id == payload.file_id && m.extends
                == payload.extends && m.at == payload.at && m.is_read == false && m.chat_identify@
                == spec_chat_identify(payload.from_user@, payload.to_user@, payload.is_group),
    {
        if self.sessions.is_bound(connection_id) {
            Some(
                Message::new(
                    payload.from_user,
                    payload.to_user,
                    payload.content,
                    payload.message_type,
                    payload.is_group,
                    payload.file_id,
                    payload.extends,
                    payload.at,
                ),
            )
        } else {
            None
        }
    }

    /// Appends one copy of `message` to the queue of every connection bound
    /// to `user_id`; a user with no bound connections is simply skipped.
    fn fanout_to_user(&mut self, user_id: &str, message: &Message)
        requires
            old(self).wf(),
        ensures
            final(self).wf(),
            final(self).sessions_map() == old(self).sessions_map(),
            final(self).sessions == old(self).sessions,
            final(self).registry_map() == spec_fanout(
                old(self).registry_map(),
                user_conns(old(self).sessions_map(), user_id@),
                *message,
            ),
    {
        let ghost rm0 = self.registry.as_map();
        let conns = self.sessions.connections_for(user_id);
        let n = conns.len();
        let mut k: usize = 0;
        proof {
            lemma_fanout_empty(rm0, *message);
            assert(conn_set(conns@.take(0)) =~= Set::<Seq<char>>::empty());
        }
        while k < n
            invariant
                k <= n,
                n == conns@.len(),
                self.sessions == old(self).sessions,
                self.registry.wf(),
                distinct_views(conns@),
                self.registry.as_map() == spec_fanout(rm0, conn_set(conns@.take(k as int)), *message),
            decreases n - k,
        {
            let ghost taken = conn_set(conns@.take(k as int));
            proof {
                assert(conns@.take(k as int + 1) =~= conns@.take(k as int).push(conns@[k as int]));
                lemma_conn_set_push(conns@.take(k as int), conns@[k as int]);
                if taken.contains(conns@[k as int]@) {
                    let k2 = choose|k2: int|
                        0 <= k2 < conns@.take(k as int).len() && conns@.take(k as int)[k2]@
                            == conns@[k as int]@;
                    assert(conns@[k2]@ == conns@[k as int]@);
                    assert(false);
                }
                lemma_fanout_step(rm0, taken, conns@[k as int]@, *message);
            }
            self.registry.send(conns[k].as_str(), OutboundFrame::Chat(message.duplicate()));
            k = k + 1;
        }
        proof {
            assert(conns@.take(n as int) =~= conns@);
        }
    }

    /// Step two of routing, after the persistence gateway has been asked to
    /// save the message. If the save failed, the route is aborted: nothing
    /// is delivered and the sender's echo is withheld. If it succeeded, a
    /// direct message is fanned out to every connection bound to the
    /// recipient and echoed (with its assigned identifier and timestamp) to
    /// the sender's own connection; a group message needs the group's
    /// current membership first, which the caller is asked to fetch.
    pub fn commit_route(
        &mut self,
        sender_connection_id: &str,
        message: &Message,
        saved: bool,
    ) -> (r: RouteAction)
        requires
            old(self).wf(),
        ensures
            final(self).wf(),
            !saved ==> r is Aborted && *final(self) == *old(self),
            saved && message.is_group ==> (r matches RouteAction::NeedGroupMembers(g) && g@
                == message.to_user@) && *final(self) == *old(self),
            saved && !message.is_group ==> r is Delivered && final(self).sessions_map() == old(self).sessions_map() && final(self).registry_map() == spec_send(
                spec_fanout(
                    old(self).registry_map(),
                    user_conns(old(self).sessions_map(), message.to_user@),
                    *message,
                ),
                sender_connection_id@,
                OutboundFrame::Chat(*message),
            ),
    {
        if !saved {
            return RouteAction::Aborted;
        }
        if message.is_group {
            return RouteAction::NeedGroupMembers(message.to_user.clone());
        }
        self.fanout_to_user(message.to_user.as_str(), message);
        self.registry.send(sender_connection_id, OutboundFrame::Chat(message.duplicate()));
        RouteAction::Delivered
    }

    /// Finishes routing a persisted group message, given the group's current
    /// membership: every connection bound to any member receives exactly one
    /// copy (members named twice count once, and a connection is bound to at
    /// most one user), and the sender's own connection receives the echo.
    pub fn deliver_group(
        &mut self,
        sender_connection_id: &str,
        message: &Message,
        members: &Vec<String>,
    )
        requires
            old(self).wf(),
        ensures
            final(self).wf(),
            final(self).sessions_map() == old(self).sessions_map(),
            final(self).registry_map() == spec_send(
                spec_fanout(
                    old(self).registry_map(),
                    group_targets(old(self).sessions_map(), members@),
                    *message,
                ),
                sender_connection_id@,
                OutboundFrame::Chat(*message),
            ),
    {
        let ghost rm0 = self.registry.as_map();
        let ghost sm0 = self.sessions.as_map();
        let n = members.len();
        let mut j: usize = 0;
        proof {
            lemma_fanout_empty(rm0, *message);
            assert(group_targets(sm0, members@.take(0)) =~= Set::<Seq<char>>::empty());
        }
        while j < n
            invariant
                j <= n,
                n == members@.len(),
                self.sessions == old(self).sessions,
                self.sessions.wf(),
                self.registry.wf(),
                sm0 == self.sessions.as_map(),
                self.registry.as_map() == spec_fanout(
                    rm0,
                    group_targets(sm0, members@.take(j as int)),
                    *message,
                ),
            decreases n - j,
        {
            let ghost prev = group_targets(sm0, members@.take(j as int));
            let u = &members[j];
            // A member named earlier in the list was already served.
            let mut dup = false;
            let mut t: usize = 0;
            while t < j
                invariant
                    t <= j,
                    j < n,
                    n == members@.len(),
                    dup == exists|x: int| 0 <= x < t && members@[x]@ == members@[j as int]@,
                    u == &members[j as int],
                decreases j - t,
            {
                if members[t] == *u {
                    dup = true;
                }
                t = t + 1;
            }
            if !dup {
                proof {
                    let uc = user_conns(sm0, members@[j as int]@);
                    assert forall|c: Seq<char>| uc.contains(c) implies !prev.contains(c) by {
                        if prev.contains(c) {
                            let x = choose|x: int|
                                #![trigger members@.take(j as int)[x]]
                                0 <= x < members@.take(j as int).len() && user_conns(
                                    sm0,
                                    members@.take(j as int)[x]@,
                                ).contains(c);
                            let ux = members@[x]@;
                            assert(user_conns(sm0, ux).contains(c));
                            assert(sm0.dom().contains(ux) && sm0.dom().contains(
                                members@[j as int]@,
                            ));
                            self.sessions.lemma_disjoint_users(ux, members@[j as int]@, c);
                            assert(false);
                        }
                    }
                    assert(prev.disjoint(uc));
                    lemma_fanout_union(rm0, prev, uc, *message);
                    assert(prev.union(uc) =~= group_targets(sm0, members@.take(j as int + 1)))
                        by {
                        assert forall|c: Seq<char>|
                            group_targets(sm0, members@.take(j as int + 1)).contains(
                                c,
                            ) implies prev.union(uc).contains(c) by {
                            let x = choose|x: int|
                                #![trigger members@.take(j as int + 1)[x]]
                                0 <= x < members@.take(j as int + 1).len() && user_conns(
                                    sm0,
                                    members@.take(j as int + 1)[x]@,
                                ).contains(c);
                            if x < j as int {
                                assert(user_conns(sm0, members@.take(j as int)[x]@).contains(c));
                            }
                        }
                        assert forall|c: Seq<char>| prev.union(uc).contains(c) implies group_targets(
                            sm0,
                            members@.take(j as int + 1),
                        ).contains(c) by {
                            if prev.contains(c) {
                                let x = choose|x: int|
                                    0 <= x < members@.take(j as int).len() && user_conns(
                                        sm0,
                                        members@.take(j as int)[x]@,
                                    ).contains(c);
                                assert(user_conns(sm0, members@.take(j as int + 1)[x]@).contains(
                                    c,
                                ));
                            } else {
                                assert(user_conns(sm0, members@.take(j as int + 1)[j as int]@)
                                    .contains(c));
                            }
                        }
                    }
                }
                self.fanout_to_user(u.as_str(), message);
            } else {
                proof {
                    let ghost x0 = choose|x: int|
                        0 <= x < j && members@[x]@ == members@[j as int]@;
                    assert(group_targets(sm0, members@.take(j as int + 1)) =~= prev) by {
                        assert forall|c: Seq<char>|
                            group_targets(sm0, members@.take(j as int + 1)).contains(
                                c,
                            ) implies prev.contains(c) by {
                            let x = choose|x: int|
                                #![trigger members@.take(j as int + 1)[x]]
                                0 <= x < members@.take(j as int + 1).len() && user_conns(
                                    sm0,
                                    members@.take(j as int + 1)[x]@,
                                ).contains(c);
                            if x < j as int {
                                assert(user_conns(sm0, members@.take(j as int)[x]@).contains(c));
                            } else {
                                assert(members@[x]@ == members@[x0]@);
                                assert(user_conns(sm0, members@.take(j as int)[x0]@).contains(c));
                            }
                        }
                        assert forall|c: Seq<char>| prev.contains(c) implies group_targets(
                            sm0,
                            members@.take(j as int + 1),
                        ).contains(c) by {
                            let x = choose|x: int|
                                #![trigger members@.take(j as int)[x]]
                                0 <= x < members@.take(j as int).len() && user_conns(
                                    sm0,
                                    members@.take(j as int)[x]@,
                                ).contains(c);
                            assert(user_conns(sm0, members@.take(j as int + 1)[x]@).contains(c));
                        }
                    }
                }
            }
            j = j + 1;
        }
        proof {
            assert(members@.take(n as int) =~= members@);
        }
        self.registry.send(sender_connection_id, OutboundFrame::Chat(message.duplicate()));
    }

    /// Teardown: removes the connection from the registry and unbinds it
    /// from the session index together, so that afterwards the identifier is
    /// absent from the registry and from every user's session set.
    pub fn teardown(&mut self, connection_id: &str)
        requires
            old(self).wf(),
        ensures
            final(self).wf(),
            final(self).registry_map() == old(self).registry_map().remove(connection_id@),
            final(self).sessions_map() == spec_unbind(old(self).sessions_map(), connection_id@),
            !final(self).registry_map().dom().contains(connection_id@),
            forall|u: Seq<char>|
                final(self).sessions_map().dom().contains(u) ==> !(#[trigger] final(self).sessions_map()[u]).contains(connection_id@),
    {
        self.registry.remove(connection_id);
        self.sessions.unbind(connection_id);
    }

    /// Dispatches one decoded inbound envelope: a heartbeat is answered on
    /// the spot, a bind request goes through the handshake, a chat payload
    /// becomes the message to persist (handed back to the caller), and an
    /// ignored frame does nothing.
    pub fn process_envelope(&mut self, connection_id: &str, envelope: Envelope) -> (r: Option<
        Message,
    >)
        requires
            old(self).wf(),
        ensures
            final(self).wf(),
            match envelope {
                Envelope::Ping => r is None && final(self).sessions_map() == old(self).sessions_map() && final(self).registry_map() == spec_send(
                    old(self).registry_map(),
                    connection_id@,
                    OutboundFrame::Pong { bind_ack: false },
                ),
                Envelope::BindUid { token } => {
                    &&& r is None
                    &&& old(self).registry_map().dom().contains(connection_id@) ==> final(self).sessions_map() == spec_bind(old(self).sessions_map(), token@, connection_id@)
                        && final(self).registry_map() == spec_send(
                        old(self).registry_map(),
                        connection_id@,
                        OutboundFrame::Pong { bind_ack: true },
                    )
                    &&& !old(self).registry_map().dom().contains(connection_id@) ==> *final(self)
                        == *old(self)
                },
                Envelope::Chat(payload) => {
                    &&& *final(self) == *old(self)
                    &&& r is Some <==> spec_is_bound(old(self).sessions_map(), connection_id@)
                    &&& r matches Some(m) ==> m.from_user == payload.from_user && m.to_user
                        == payload.to_user && m.content == payload.content && m.message_type
                        == payload.message_type && m.is_group == payload.is_group && m.file_id
                        == payload.file_id && m.extends == payload.extends && m.at == payload.at
                        && m.is_read == false && m.chat_identify@ == spec_chat_identify(
                        payload.from_user@,
                        payload.to_user@,
                        payload.is_group,
                    )
                },
                Envelope::Ignore => r is None && *final(self) == *old(self),
            },
    {
        match envelope {
            Envelope::Ping => {
                self.handle_ping(connection_id);
                None
            },
            Envelope::BindUid { token } => {
                self.handle_bind(connection_id, token.as_str());
                None
            },
            Envelope::Chat(payload) => self.handle_chat(connection_id, payload),
            Envelope::Ignore => None,
        }
    }

    /// The session index of a well-formed hub keeps its documented
    /// invariants: a connection is bound to at most one user, and no user
    /// has an empty session set (no dangling empty entries).
    pub proof fn lemma_session_invariants(self)
        requires
            self.wf(),
        ensures
            spec_sessions_disjoint(self.sessions_map()),
            forall|u: Seq<char>|
                self.sessions_map().dom().contains(u) ==> (#[trigger] self.sessions_map()[u])
                    != Set::<Seq<char>>::empty(),
    {
        self.sessions.lemma_disjoint();
        self.sessions.lemma_no_empty_sessions();
    }

    /// Teardown idempotence: on a connection that is absent from the
    /// registry and bound to no user - as it is right after a teardown -
    /// removal and unbind both change nothing, so tearing the connection
    /// down again is a no-op.
    pub proof fn lemma_teardown_idempotent(self, connection_id: Seq<char>)
        requires
            self.wf(),
            !self.registry_map().dom().contains(connection_id),
            !spec_is_bound(self.sessions_map(), connection_id),
        ensures
            self.registry_map().remove(connection_id) == self.registry_map(),
            spec_unbind(self.sessions_map(), connection_id) == self.sessions_map(),
    {
        assert(self.registry_map().remove(connection_id) =~= self.registry_map());
        self.sessions.lemma_no_empty_sessions();
        lemma_unbind_absent(self.sessions_map(), connection_id);
    }
}

/// Direct delivery: given a sender bound to `sender_conn` under an identity
/// other than the recipient's, once a direct message to `m.to_user` is
/// committed, each connection bound to the recipient receives exactly one
/// appended copy, and the sender's own connection receives exactly the
/// echo. The disjointness hypothesis is the session index's own invariant
/// (`Hub::lemma_session_invariants`).
pub proof fn lemma_direct_delivery(
    rm: Map<Seq<char>, Seq<OutboundFrame>>,
    sm: Map<Seq<char>, Set<Seq<char>>>,
    sender_user: Seq<char>,
    sender_conn: Seq<char>,
    m: Message,
    c2: Seq<char>,
)
    requires
        spec_sessions_disjoint(sm),
        user_conns(sm, sender_user).contains(sender_conn),
        sender_user != m.to_user@,
        user_conns(sm, m.to_user@).contains(c2),
        rm.dom().contains(c2),
        rm.dom().contains(sender_conn),
    ensures
        ({
            let rm2 = spec_send(
                spec_fanout(rm, user_conns(sm, m.to_user@), m),
                sender_conn,
                OutboundFrame::Chat(m),
            );
            rm2[c2] == rm[c2].push(OutboundFrame::Chat(m)) && rm2[sender_conn]
                == rm[sender_conn].push(OutboundFrame::Chat(m))
        }),
{
    assert(sm.dom().contains(sender_user));
    assert(sm.dom().contains(m.to_user@));
    if user_conns(sm, m.to_user@).contains(sender_conn) {
        assert(sm[sender_user].contains(sender_conn) && sm[m.to_user@].contains(sender_conn));
        assert(false);
    }
}

/// Group fan-out: once a group message is committed and delivered to the
/// membership, each connection bound to a member other than the sender
/// receives exactly one appended copy. The disjointness hypothesis is the
/// session index's own invariant (`Hub::lemma_session_invariants`).
pub proof fn lemma_group_fanout(
    rm: Map<Seq<char>, Seq<OutboundFrame>>,
    sm: Map<Seq<char>, Set<Seq<char>>>,
    sender_user: Seq<char>,
    sender_conn: Seq<char>,
    m: Message,
    members: Seq<String>,
    u: Seq<char>,
    c: Seq<char>,
)
    requires
        spec_sessions_disjoint(sm),
        user_conns(sm, sender_user).contains(sender_conn),
        sender_user != u,
        exists|j: int| 0 <= j < members.len() && members[j]@ == u,
        user_conns(sm, u).contains(c),
        rm.dom().contains(c),
    ensures
        spec_send(spec_fanout(rm, group_targets(sm, members), m), sender_conn, OutboundFrame::Chat(m))[c]
            == rm[c].push(OutboundFrame::Chat(m)),
{
    let j = choose|j: int| 0 <= j < members.len() && members[j]@ == u;
    assert(user_conns(sm, members[j]@).contains(c));
    assert(group_targets(sm, members).contains(c));
    assert(sm.dom().contains(sender_user));
    assert(sm.dom().contains(u));
    if c == sender_conn {
        assert(sm[sender_user].contains(c) && sm[u].contains(c));
        assert(false);
    }
}

/// A live connection bound to nobody in the group keeps its queue
/// unchanged by the fan-out, given a sender whose own connection is bound
/// to one of the members (so the echo cannot land on it either).
pub proof fn lemma_group_fanout_skips_others(
    rm: Map<Seq<char>, Seq<OutboundFrame>>,
    sm: Map<Seq<char>, Set<Seq<char>>>,
    sender_user: Seq<char>,
    sender_conn: Seq<char>,
    m: Message,
    members: Seq<String>,
    c: Seq<char>,
)
    requires
        rm.dom().contains(c),
        !group_targets(sm, members).contains(c),
        user_conns(sm, sender_user).contains(sender_conn),
        exists|j: int| 0 <= j < members.len() && members[j]@ == sender_user,
    ensures
        spec_send(spec_fanout(rm, group_targets(sm, members), m), sender_conn, OutboundFrame::Chat(m))[c]
            == rm[c],
{
    let j = choose|j: int| 0 <= j < members.len() && members[j]@ == sender_user;
    assert(user_conns(sm, members[j]@).contains(sender_conn));
    assert(group_targets(sm, members).contains(sender_conn));
}

} // verus!
