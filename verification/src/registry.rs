use crate::close_code::GatewayCloseCode;
use crate::gateway_event::GatewayEvent;
use crate::snowflake::GuildKind;
use crate::snowflake::Snowflake;
use crate::snowflake::UserKind;
use std::sync::Arc;
use vstd::prelude::*;

verus! {

/// A response queued on a connection handle for its writer task.
#[derive(Debug, Clone)]
pub enum GatewayResponse {
    /// The payload should be serialised and sent to the client. The
    /// event is shared: every recipient's queue holds the same
    /// allocation.
    Event(Arc<GatewayEvent>),
    /// The connection should be closed with this code and reason.
    Close(GatewayCloseCode, String),
}

/// Relies on `Arc::clone`: the clone is a new pointer to the same
/// allocation, so it carries the same event.
#[verifier::external_body]
fn share_event(e: &Arc<GatewayEvent>) -> (r: Arc<GatewayEvent>)
    ensures
        r == *e,
{
    e.clone()
}

/// Whether `newq` is `oldq` with exactly the event `e` appended.
pub open spec fn enqueued_event(
    oldq: Seq<GatewayResponse>,
    newq: Seq<GatewayResponse>,
    e: GatewayEvent,
) -> bool {
    &&& newq.len() == oldq.len() + 1
    &&& newq.subrange(0, oldq.len() as int) == oldq
    &&& newq.last() matches GatewayResponse::Event(a) && a == e
}

/// Whether `newq` is `oldq` with exactly a close response appended,
/// with the given code and reason.
pub open spec fn enqueued_close(
    oldq: Seq<GatewayResponse>,
    newq: Seq<GatewayResponse>,
    code: GatewayCloseCode,
    reason: Seq<char>,
) -> bool {
    &&& newq.len() == oldq.len() + 1
    &&& newq.subrange(0, oldq.len() as int) == oldq
    &&& newq.last() matches GatewayResponse::Close(c, r) && c == code && r@ == reason
}

/// A struct containing connection details for a user: the outbound
/// queue drained by the connection's writer task, and the guilds the
/// user is a member of, which the router filters on.
#[derive(Debug)]
pub struct ConnectionHandle {
    /// The authenticated owner; immutable for the connection's lifetime.
    pub user_id: Snowflake<UserKind>,
    /// The guilds the user is currently a member of.
    pub guild_ids: Vec<Snowflake<GuildKind>>,
    /// Outbound responses awaiting the writer, in enqueue order.
    pub outbound: Vec<GatewayResponse>,
}

impl ConnectionHandle {
    /// Whether this connection's user is a member of guild `g`.
    pub open spec fn has_guild(self, g: u64) -> bool {
        exists|i: int|
            0 <= i < self.guild_ids@.len() && (#[trigger] self.guild_ids@[i]).value == g
    }

    /// The guild list never names a guild twice.
    pub open spec fn guilds_wf(self) -> bool {
        forall|i: int, j: int|
            0 <= i < j < self.guild_ids@.len() ==> (#[trigger] self.guild_ids@[i]).value != (
            #[trigger] self.guild_ids@[j]).value
    }

    /// Create a new connection handle for the given user and guilds,
    /// with an empty outbound queue.
    pub fn new(user_id: Snowflake<UserKind>, guilds: Vec<Snowflake<GuildKind>>) -> (r: Self)
        ensures
            r.user_id == user_id,
            r.guild_ids == guilds,
            r.outbound@ =~= Seq::<GatewayResponse>::empty(),
    {
        ConnectionHandle { user_id, guild_ids: guilds, outbound: Vec::new() }
    }

    /// Queue an event for the client.
    pub fn send(&mut self, message: Arc<GatewayEvent>)
        ensures
            final(self).user_id == old(self).user_id,
            final(self).guild_ids == old(self).guild_ids,
            enqueued_event(old(self).outbound@, final(self).outbound@, *message),
    {
        self.outbound.push(GatewayResponse::Event(message));
        proof {
            assert(final(self).outbound@.subrange(0, old(self).outbound@.len() as int)
                =~= old(self).outbound@);
        }
    }

    /// Queue a close of the connection with the given code and reason.
    pub fn close(&mut self, code: GatewayCloseCode, reason: String)
        ensures
            final(self).user_id == old(self).user_id,
            final(self).guild_ids == old(self).guild_ids,
            enqueued_close(old(self).outbound@, final(self).outbound@, code, reason@),
    {
        self.outbound.push(GatewayResponse::Close(code, reason));
        proof {
            assert(final(self).outbound@.subrange(0, old(self).outbound@.len() as int)
                =~= old(self).outbound@);
        }
    }

    /// The guilds the user is a member of.
    pub fn guild_ids(&self) -> (r: &Vec<Snowflake<GuildKind>>)
        ensures
            r == &self.guild_ids,
    {
        &self.guild_ids
    }

    /// Whether this connection's user is a member of guild `g`.
    pub fn contains_guild(&self, g: Snowflake<GuildKind>) -> (r: bool)
        ensures
            r == self.has_guild(g.value),
    {
        let n = self.guild_ids.len();
        let mut i: usize = 0;
        while i < n
            invariant
                n == self.guild_ids@.len(),
                0 <= i <= n,
                forall|k: int| 0 <= k < i ==> (#[trigger] self.guild_ids@[k]).value != g.value,
            decreases n - i,
        {
            if self.guild_ids[i].value == g.value {
                return true;
            }
            i += 1;
        }
        false
    }
}

/// The gateway's connection registry: the process-wide mapping from
/// user ID to connection handle. It holds at most one handle per
/// user.
#[derive(Debug)]
pub struct Gateway {
    /// The currently connected users' handles.
    pub peers: Vec<ConnectionHandle>,
}

impl Gateway {
    /// Well-formed: no user appears twice, and every handle's guild
    /// list is duplicate-free.
    pub open spec fn wf(self) -> bool {
        &&& forall|i: int, j: int|
            0 <= i < j < self.peers@.len() ==> (#[trigger] self.peers@[i]).user_id.value != (
            #[trigger] self.peers@[j]).user_id.value
        &&& forall|i: int| 0 <= i < self.peers@.len() ==> (#[trigger] self.peers@[i]).guilds_wf()
    }

    /// Whether `user` currently has a handle in the registry.
    pub open spec fn contains_user(self, user: u64) -> bool {
        exists|i: int|
            0 <= i < self.peers@.len() && (#[trigger] self.peers@[i]).user_id.value == user
    }

    /// The index of `user`'s handle; meaningful only when connected.
    pub open spec fn user_index(self, user: u64) -> int {
        choose|i: int|
            0 <= i < self.peers@.len() && (#[trigger] self.peers@[i]).user_id.value == user
    }

    /// The handle of `user`; meaningful only when connected.
    pub open spec fn handle_of(self, user: u64) -> ConnectionHandle {
        self.peers@[self.user_index(user)]
    }

    /// In a well-formed registry an index holding `user` is the only
    /// one, so it is the index every `user` lookup yields.
    pub proof fn lemma_user_index(self, user: u64, i: int)
        requires
            self.wf(),
            0 <= i < self.peers@.len(),
            self.peers@[i].user_id.value == user,
        ensures
            self.contains_user(user),
            self.user_index(user) == i,
            self.handle_of(user) == self.peers@[i],
    {
        assert(self.contains_user(user));
        let j = self.user_index(user);
        assert(0 <= j < self.peers@.len() && self.peers@[j].user_id.value == user);
        if i < j {
            assert(self.peers@[i].user_id.value != self.peers@[j].user_id.value);
        } else if j < i {
            assert(self.peers@[j].user_id.value != self.peers@[i].user_id.value);
        }
    }

    /// For every user, the registry holds at most one handle: two
    /// positions carrying the same user are the same position.
    pub proof fn lemma_at_most_one_handle(self, i: int, j: int)
        requires
            self.wf(),
            0 <= i < self.peers@.len(),
            0 <= j < self.peers@.len(),
            self.peers@[i].user_id.value == self.peers@[j].user_id.value,
        ensures
            i == j,
    {
        if i < j {
            assert(self.peers@[i].user_id.value != self.peers@[j].user_id.value);
        } else if j < i {
            assert(self.peers@[j].user_id.value != self.peers@[i].user_id.value);
        }
    }

    /// Whether two users are both connected and share at least one
    /// guild.
    pub open spec fn spec_shares_guilds(self, a: u64, b: u64) -> bool {
        &&& self.contains_user(a)
        &&& self.contains_user(b)
        &&& exists|g: u64|
            self.handle_of(a).has_guild(g) && #[trigger] self.handle_of(b).has_guild(g)
    }

    /// Sharing a guild is symmetric: the order of the two users does
    /// not matter.
    pub proof fn lemma_shares_symmetric(self, a: u64, b: u64)
        ensures
            self.spec_shares_guilds(a, b) == self.spec_shares_guilds(b, a),
    {
        if self.spec_shares_guilds(a, b) {
            let g = choose|g: u64|
                self.handle_of(a).has_guild(g) && #[trigger] self.handle_of(b).has_guild(g);
            assert(self.handle_of(b).has_guild(g) && self.handle_of(a).has_guild(g));
        }
        if self.spec_shares_guilds(b, a) {
            let g = choose|g: u64|
                self.handle_of(b).has_guild(g) && #[trigger] self.handle_of(a).has_guild(g);
            assert(self.handle_of(a).has_guild(g) && self.handle_of(b).has_guild(g));
        }
    }

    /// The routing rule: a guild-scoped event reaches the members of
    /// that guild; a user-scoped event reaches the subject and every
    /// peer sharing a guild with them; an unscoped event reaches
    /// every connected user.
    pub open spec fn should_deliver(self, event: GatewayEvent, h: ConnectionHandle) -> bool {
        match event.spec_guild_scope() {
            Some(g) => h.has_guild(g),
            None => match event.spec_user_scope() {
                Some(u) => u == h.user_id.value || self.spec_shares_guilds(u, h.user_id.value),
                None => true,
            },
        }
    }

    /// Create an empty registry.
    pub fn new() -> (r: Self)
        ensures
            r.peers@ =~= Seq::<ConnectionHandle>::empty(),
            r.wf(),
    {
        Gateway { peers: Vec::new() }
    }

    /// The position of `user`'s handle, if connected.
    fn find_index(&self, user: u64) -> (r: Option<usize>)
        ensures
            match r {
                Some(i) => i < self.peers@.len() && self.peers@[i as int].user_id.value == user,
                None => !self.contains_user(user),
            },
    {
        let n = self.peers.len();
        let mut i: usize = 0;
        while i < n
            invariant
                n == self.peers@.len(),
                0 <= i <= n,
                forall|k: int| 0 <= k < i ==> (#[trigger] self.peers@[k]).user_id.value != user,
            decreases n - i,
        {
            if self.peers[i].user_id.value == user {
                return Some(i);
            }
            i += 1;
        }
        None
    }

    /// Query if a given user is connected.
    pub fn is_connected(&self, user: Snowflake<UserKind>) -> (r: bool)
        ensures
            r == self.contains_user(user.value),
    {
        self.find_index(user.value).is_some()
    }

    /// Install a handle for a user. If the user already has one, the
    /// previous handle is first told to close with a normal code and
    /// the reason `replaced by new session`, removed from the
    /// registry, and handed back so its writer can still drain it.
    pub fn add_handle(&mut self, user_id: Snowflake<UserKind>, handle: ConnectionHandle) -> (r:
        Option<ConnectionHandle>)
        requires
            old(self).wf(),
            handle.user_id == user_id,
            handle.guilds_wf(),
        ensures
            final(self).wf(),
            final(self).peers@.len() == old(self).peers@.len() + if old(self).contains_user(
                user_id.value,
            ) {
                0int
            } else {
                1int
            },
            r is Some <==> old(self).contains_user(user_id.value),
            r matches Some(prev) ==> {
                let oldh = old(self).handle_of(user_id.value);
                &&& prev.user_id == oldh.user_id
                &&& prev.guild_ids == oldh.guild_ids
                &&& enqueued_close(
                    oldh.outbound@,
                    prev.outbound@,
                    GatewayCloseCode::Normal,
                    "replaced by new session"@,
                )
            },
            final(self).contains_user(user_id.value),
            final(self).handle_of(user_id.value) == handle,
            forall|v: u64|
                v != user_id.value ==> (#[trigger] final(self).contains_user(v) <==> old(self).contains_user(v)),
            forall|v: u64|
                v != user_id.value && old(self).contains_user(v) ==> #[trigger] final(self).handle_of(v) == old(self).handle_of(v),
    {
        let ghost g0 = *self;
        let prev: Option<ConnectionHandle> = match self.find_index(user_id.value) {
            Some(i) => {
                proof {
                    g0.lemma_user_index(user_id.value, i as int);
                }
                let mut prev = self.peers.remove(i);
                prev.close(GatewayCloseCode::Normal, "replaced by new session".to_owned());
                Some(prev)
            },
            None => None,
        };
        let ghost g1 = *self;
        self.peers.push(handle);
        proof {
            let n1 = g1.peers@.len();
            assert(final(self).peers@[n1 as int] == handle);
            assert forall|v: u64| #[trigger] g1.contains_user(v) implies final(self).contains_user(v) by {
                let i = g1.user_index(v);
                assert(final(self).peers@[i] == g1.peers@[i]);
            }
            // The registry minus the replaced user is untouched by the
            // removal, and the push only adds the new user.
            match prev {
                Some(_) => {
                    let i = g0.user_index(user_id.value);
                    assert(g1.peers@ =~= g0.peers@.remove(i));
                    assert forall|v: u64|
                        v != user_id.value && #[trigger] g0.contains_user(v) implies g1
                        .contains_user(v) && g1.handle_of(v) == g0.handle_of(v) by {
                        let k = g0.user_index(v);
                        if k < i {
                            assert(g1.peers@[k] == g0.peers@[k]);
                            g1.lemma_user_index(v, k);
                        } else {
                            assert(g0.peers@[k].user_id.value == v);
                            assert(k != i);
                            assert(g1.peers@[k - 1] == g0.peers@[k]);
                            g1.lemma_user_index(v, k - 1);
                        }
                    }
                    assert forall|v: u64| v != user_id.value && #[trigger] g1.contains_user(
                        v,
                    ) implies g0.contains_user(v) by {
                        let k = g1.user_index(v);
                        if k < i {
                            assert(g0.peers@[k] == g1.peers@[k]);
                        } else {
                            assert(g0.peers@[k + 1] == g1.peers@[k]);
                        }
                    }
                    assert(!g1.contains_user(user_id.value)) by {
                        if g1.contains_user(user_id.value) {
                            let k = g1.user_index(user_id.value);
                            if k < i {
                                g0.lemma_at_most_one_handle(k, i);
                            } else {
                                g0.lemma_at_most_one_handle(k + 1, i);
                            }
                        }
                    }
                },
                None => {
                    assert(g1 == g0);
                },
            }
            assert forall|v: u64|
                v != user_id.value && #[trigger] final(self).contains_user(v) implies g1
                .contains_user(v) && final(self).handle_of(v) == g1.handle_of(v) by {
                let k = final(self).user_index(v);
                assert(k < n1 + 1);
                assert(k != n1);
                assert(g1.peers@[k] == final(self).peers@[k]);
                g1.lemma_user_index(v, k);
                final(self).lemma_user_index(v, k);
            }
            assert forall|v: u64|
                v != user_id.value && #[trigger] g1.contains_user(v) implies final(self).contains_user(v) && final(self).handle_of(v) == g1.handle_of(v) by {
                let k = g1.user_index(v);
                assert(final(self).peers@[k] == g1.peers@[k]);
                final(self).lemma_user_index(v, k);
            }
            final(self).lemma_user_index(user_id.value, n1 as int);
            assert(final(self).wf()) by {
                assert forall|i: int, j: int|
                    0 <= i < j < final(self).peers@.len() implies (#[trigger] final(self).peers@[i]).user_id.value != (#[trigger] final(self).peers@[j]).user_id.value by {
                    if j < n1 {
                        assert(g1.peers@[i] == final(self).peers@[i]);
                        assert(g1.peers@[j] == final(self).peers@[j]);
                    } else {
                        assert(j == n1);
                        assert(g1.peers@[i] == final(self).peers@[i]);
                        if final(self).peers@[i].user_id.value == user_id.value {
                            g1.lemma_user_index(user_id.value, i);
                            assert(g1.contains_user(user_id.value));
                            if prev is Some {
                            } else {
                                assert(!g0.contains_user(user_id.value));
                            }
                        }
                    }
                }
            }
        }
        prev
    }

    /// Replacing the handle at one position, keeping its user, keeps
    /// the registry well formed and every other user's handle intact.
    pub proof fn lemma_replace_at(g0: Gateway, g1: Gateway, i: int)
        requires
            g0.wf(),
            0 <= i < g0.peers@.len(),
            g1.peers@.len() == g0.peers@.len(),
            forall|k: int|
                0 <= k < g0.peers@.len() && k != i ==> g1.peers@[k] == g0.peers@[k],
            g1.peers@[i].user_id == g0.peers@[i].user_id,
            g1.peers@[i].guilds_wf(),
        ensures
            g1.wf(),
            forall|v: u64| #[trigger] g1.contains_user(v) <==> g0.contains_user(v),
            forall|v: u64|
                v != g0.peers@[i].user_id.value && g0.contains_user(v) ==> #[trigger] g1.handle_of(
                    v,
                ) == g0.handle_of(v),
            g1.handle_of(g0.peers@[i].user_id.value) == g1.peers@[i],
            g1.user_index(g0.peers@[i].user_id.value) == i,
    {
        let u = g0.peers@[i].user_id.value;
        assert(g1.wf()) by {
            assert forall|a: int, b: int| 0 <= a < b < g1.peers@.len() implies (
            #[trigger] g1.peers@[a]).user_id.value != (#[trigger] g1.peers@[b]).user_id.value by {
                assert(g1.peers@[a].user_id == g0.peers@[a].user_id);
                assert(g1.peers@[b].user_id == g0.peers@[b].user_id);
            }
            assert forall|k: int| 0 <= k < g1.peers@.len() implies (
            #[trigger] g1.peers@[k]).guilds_wf() by {
                if k != i {
                    assert(g1.peers@[k] == g0.peers@[k]);
                }
            }
        }
        assert forall|v: u64| #[trigger] g1.contains_user(v) <==> g0.contains_user(v) by {
            if g1.contains_user(v) {
                let k = g1.user_index(v);
                assert(g1.peers@[k].user_id == g0.peers@[k].user_id);
                assert(g0.contains_user(v));
            }
            if g0.contains_user(v) {
                let k = g0.user_index(v);
                assert(g1.peers@[k].user_id == g0.peers@[k].user_id);
                assert(g1.contains_user(v));
            }
        }
        assert forall|v: u64|
            v != u && g0.contains_user(v) implies #[trigger] g1.handle_of(v) == g0.handle_of(
            v,
        ) by {
            let k = g0.user_index(v);
            g0.lemma_user_index(v, k);
            assert(k != i);
            assert(g1.peers@[k] == g0.peers@[k]);
            g1.lemma_user_index(v, k);
        }
        g1.lemma_user_index(u, i);
    }

    /// Registers a new guild member instance to an existing
    /// connection: the guild joins the handle's filter set. No-op if
    /// the user is not connected.
    pub fn add_member(&mut self, user: Snowflake<UserKind>, guild: Snowflake<GuildKind>)
        requires
            old(self).wf(),
        ensures
            final(self).wf(),
            !old(self).contains_user(user.value) ==> *final(self) == *old(self),
            forall|v: u64|
                #[trigger] final(self).contains_user(v) <==> old(self).contains_user(v),
            forall|v: u64|
                v != user.value && old(self).contains_user(v) ==> #[trigger] final(self).handle_of(
                    v,
                ) == old(self).handle_of(v),
            old(self).contains_user(user.value) ==> {
                let oldh = old(self).handle_of(user.value);
                let newh = final(self).handle_of(user.value);
                &&& newh.user_id == oldh.user_id
                &&& newh.outbound == oldh.outbound
                &&& forall|x: u64|
                    #[trigger] newh.has_guild(x) <==> oldh.has_guild(x) || x == guild.value
            },
    {
        let ghost g0 = *self;
        match self.find_index(user.value) {
            Some(i) => {
                proof {
                    g0.lemma_user_index(user.value, i as int);
                }
                if !self.peers[i].contains_guild(guild) {
                    let h = &mut self.peers[i];
                    h.guild_ids.push(guild);
                    proof {
                        let oldh = g0.peers@[i as int];
                        let newh = final(self).peers@[i as int];
                        assert(newh.guild_ids@ == oldh.guild_ids@.push(guild));
                        assert(newh.guilds_wf()) by {
                            assert forall|a: int, b: int|
                                0 <= a < b < newh.guild_ids@.len() implies (
                            #[trigger] newh.guild_ids@[a]).value != (
                            #[trigger] newh.guild_ids@[b]).value by {
                                if b < oldh.guild_ids@.len() {
                                    assert(newh.guild_ids@[a] == oldh.guild_ids@[a]);
                                    assert(newh.guild_ids@[b] == oldh.guild_ids@[b]);
                                } else {
                                    assert(newh.guild_ids@[a] == oldh.guild_ids@[a]);
                                    assert(newh.guild_ids@[b] == guild);
                                    assert(!oldh.has_guild(guild.value));
                                }
                            }
                        }
                        assert forall|x: u64| #[trigger] newh.has_guild(x) <==> oldh.has_guild(x)
                            || x == guild.value by {
                            if newh.has_guild(x) {
                                let k = choose|k: int|
                                    0 <= k < newh.guild_ids@.len() && (
                                    #[trigger] newh.guild_ids@[k]).value == x;
                                if k < oldh.guild_ids@.len() {
                                    assert(oldh.guild_ids@[k] == newh.guild_ids@[k]);
                                    assert(oldh.has_guild(x));
                                }
                            }
                            if oldh.has_guild(x) {
                                let k = choose|k: int|
                                    0 <= k < oldh.guild_ids@.len() && (
                                    #[trigger] oldh.guild_ids@[k]).value == x;
                                assert(newh.guild_ids@[k] == oldh.guild_ids@[k]);
                                assert(newh.has_guild(x));
                            }
                            if x == guild.value {
                                assert(newh.guild_ids@[oldh.guild_ids@.len() as int] == guild);
                                assert(newh.has_guild(x));
                            }
                        }
                        Self::lemma_replace_at(g0, *final(self), i as int);
                    }
                } else {
                    proof {
                        let oldh = g0.peers@[i as int];
                        assert forall|x: u64| #[trigger] oldh.has_guild(x) <==> oldh.has_guild(x)
                            || x == guild.value by {}
                        Self::lemma_replace_at(g0, *final(self), i as int);
                    }
                }
            },
            None => (),
        }
    }

    /// Removes a guild member instance from an existing connection:
    /// the guild leaves the handle's filter set. No-op if the user is
    /// not connected.
    pub fn remove_member(&mut self, user: Snowflake<UserKind>, guild: Snowflake<GuildKind>)
        requires
            old(self).wf(),
        ensures
            final(self).wf(),
            !old(self).contains_user(user.value) ==> *final(self) == *old(self),
            forall|v: u64|
                #[trigger] final(self).contains_user(v) <==> old(self).contains_user(v),
            forall|v: u64|
                v != user.value && old(self).contains_user(v) ==> #[trigger] final(self).handle_of(
                    v,
                ) == old(self).handle_of(v),
            old(self).contains_user(user.value) ==> {
                let oldh = old(self).handle_of(user.value);
                let newh = final(self).handle_of(user.value);
                &&& newh.user_id == oldh.user_id
                &&& newh.outbound == oldh.outbound
                &&& forall|x: u64|
                    #[trigger] newh.has_guild(x) <==> oldh.has_guild(x) && x != guild.value
            },
    {
        let ghost g0 = *self;
        match self.find_index(user.value) {
            Some(i) => {
                proof {
                    g0.lemma_user_index(user.value, i as int);
                }
                let h = &mut self.peers[i];
                let ghost oldh = *h;
                let m = h.guild_ids.len();
                let mut k: usize = 0;
                let mut found: Option<usize> = None;
                while k < m
                    invariant
                        m == h.guild_ids@.len(),
                        0 <= k <= m,
                        *h == oldh,
                        match found {
                            Some(f) => f < m && h.guild_ids@[f as int].value == guild.value,
                            None => forall|t: int|
                                0 <= t < k ==> (#[trigger] h.guild_ids@[t]).value != guild.value,
                        },
                        found is Some ==> k == m,
                    decreases m - k,
                {
                    if h.guild_ids[k].value == guild.value {
                        found = Some(k);
                        k = m;
                    } else {
                        k += 1;
                    }
                }
                match found {
                    Some(f) => {
                        let _ = h.guild_ids.remove(f);
                        proof {
                            let newh = final(self).peers@[i as int];
                            assert(newh.guild_ids@ == oldh.guild_ids@.remove(f as int));
                            let f = f as int;
                            assert(newh.guilds_wf()) by {
                                assert forall|a: int, b: int|
                                    0 <= a < b < newh.guild_ids@.len() implies (
                                #[trigger] newh.guild_ids@[a]).value != (
                                #[trigger] newh.guild_ids@[b]).value by {
                                    let oa = if a < f { a } else { a + 1 };
                                    let ob = if b < f { b } else { b + 1 };
                                    assert(newh.guild_ids@[a] == oldh.guild_ids@[oa]);
                                    assert(newh.guild_ids@[b] == oldh.guild_ids@[ob]);
                                }
                            }
                            assert forall|x: u64| #[trigger] newh.has_guild(x) <==> oldh.has_guild(
                                x,
                            ) && x != guild.value by {
                                if newh.has_guild(x) {
                                    let t = choose|t: int|
                                        0 <= t < newh.guild_ids@.len() && (
                                        #[trigger] newh.guild_ids@[t]).value == x;
                                    let ot = if t < f { t } else { t + 1 };
                                    assert(newh.guild_ids@[t] == oldh.guild_ids@[ot]);
                                    assert(oldh.has_guild(x));
                                    if x == guild.value {
                                        assert(oldh.guild_ids@[ot].value == guild.value);
                                        assert(oldh.guild_ids@[f].value == guild.value);
                                        if ot < f {
                                            assert(oldh.guild_ids@[ot].value
                                                != oldh.guild_ids@[f].value);
                                        } else {
                                            assert(oldh.guild_ids@[f].value
                                                != oldh.guild_ids@[ot].value);
                                        }
                                    }
                                }
                                if oldh.has_guild(x) && x != guild.value {
                                    let t = choose|t: int|
                                        0 <= t < oldh.guild_ids@.len() && (
                                        #[trigger] oldh.guild_ids@[t]).value == x;
                                    if t < f {
                                        assert(newh.guild_ids@[t] == oldh.guild_ids@[t]);
                                        assert(newh.has_guild(x));
                                    } else {
                                        assert(t != f);
                                        assert(newh.guild_ids@[t - 1] == oldh.guild_ids@[t]);
                                        assert(newh.has_guild(x));
                                    }
                                }
                            }
                            Self::lemma_replace_at(g0, *final(self), i as int);
                        }
                    },
                    None => {
                        proof {
                            assert(!oldh.has_guild(guild.value)) by {
                                if oldh.has_guild(guild.value) {
                                    let t = choose|t: int|
                                        0 <= t < oldh.guild_ids@.len() && (
                                        #[trigger] oldh.guild_ids@[t]).value == guild.value;
                                    assert(oldh.guild_ids@[t].value != guild.value);
                                }
                            }
                            assert(final(self).peers@ =~= g0.peers@);
                            Self::lemma_replace_at(g0, *final(self), i as int);
                            assert(final(self).handle_of(user.value) == oldh);
                        }
                    },
                }
            },
            None => (),
        }
    }

    /// Send an event to one user. If they are not connected, the
    /// event is dropped.
    pub fn send_to(&mut self, user: Snowflake<UserKind>, event: GatewayEvent)
        requires
            old(self).wf(),
        ensures
            final(self).wf(),
            !old(self).contains_user(user.value) ==> *final(self) == *old(self),
            forall|v: u64|
                #[trigger] final(self).contains_user(v) <==> old(self).contains_user(v),
            forall|v: u64|
                v != user.value && old(self).contains_user(v) ==> #[trigger] final(self).handle_of(
                    v,
                ) == old(self).handle_of(v),
            old(self).contains_user(user.value) ==> {
                let oldh = old(self).handle_of(user.value);
                let newh = final(self).handle_of(user.value);
                &&& newh.user_id == oldh.user_id
                &&& newh.guild_ids == oldh.guild_ids
                &&& enqueued_event(oldh.outbound@, newh.outbound@, event)
            },
    {
        let ghost g0 = *self;
        match self.find_index(user.value) {
            Some(i) => {
                proof {
                    g0.lemma_user_index(user.value, i as int);
                }
                let h = &mut self.peers[i];
                h.send(Arc::new(event));
                proof {
                    Self::lemma_replace_at(g0, *final(self), i as int);
                }
            },
            None => (),
        }
    }

    /// Ask a connected user's writer to close the connection with the
    /// given code and reason. If they are not connected, nothing
    /// happens.
    pub fn drop_session(&mut self, user: Snowflake<UserKind>, code: GatewayCloseCode, reason: String)
        requires
            old(self).wf(),
        ensures
            final(self).wf(),
            !old(self).contains_user(user.value) ==> *final(self) == *old(self),
            forall|v: u64|
                #[trigger] final(self).contains_user(v) <==> old(self).contains_user(v),
            forall|v: u64|
                v != user.value && old(self).contains_user(v) ==> #[trigger] final(self).handle_of(
                    v,
                ) == old(self).handle_of(v),
            old(self).contains_user(user.value) ==> {
                let oldh = old(self).handle_of(user.value);
                let newh = final(self).handle_of(user.value);
                &&& newh.user_id == oldh.user_id
                &&& newh.guild_ids == oldh.guild_ids
                &&& enqueued_close(oldh.outbound@, newh.outbound@, code, reason@)
            },
    {
        let ghost g0 = *self;
        match self.find_index(user.value) {
            Some(i) => {
                proof {
                    g0.lemma_user_index(user.value, i as int);
                }
                let h = &mut self.peers[i];
                h.close(code, reason);
                proof {
                    Self::lemma_replace_at(g0, *final(self), i as int);
                }
            },
            None => (),
        }
    }

    /// Determines if two users are both connected and share at least
    /// one guild.
    pub fn shares_guilds_with(&self, a: Snowflake<UserKind>, b: Snowflake<UserKind>) -> (r: bool)
        requires
            self.wf(),
        ensures
            r == self.spec_shares_guilds(a.value, b.value),
    {
        let ia = match self.find_index(a.value) {
            Some(i) => i,
            None => {
                return false;
            },
        };
        let ib = match self.find_index(b.value) {
            Some(i) => i,
            None => {
                return false;
            },
        };
        proof {
            self.lemma_user_index(a.value, ia as int);
            self.lemma_user_index(b.value, ib as int);
        }
        let ha = &self.peers[ia];
        let n = ha.guild_ids.len();
        let mut k: usize = 0;
        while k < n
            invariant
                self.wf(),
                ia < self.peers@.len(),
                ib < self.peers@.len(),
                self.handle_of(a.value) == self.peers@[ia as int],
                self.handle_of(b.value) == self.peers@[ib as int],
                self.contains_user(a.value),
                self.contains_user(b.value),
                ha == &self.peers@[ia as int],
                n == ha.guild_ids@.len(),
                0 <= k <= n,
                forall|t: int|
                    0 <= t < k ==> !self.peers@[ib as int].has_guild(
                        (#[trigger] ha.guild_ids@[t]).value,
                    ),
            decreases n - k,
        {
            if self.peers[ib].contains_guild(ha.guild_ids[k]) {
                return true;
            }
            k += 1;
        }
        proof {
            if self.spec_shares_guilds(a.value, b.value) {
                let g = choose|g: u64|
                    self.handle_of(a.value).has_guild(g) && #[trigger] self.handle_of(
                        b.value,
                    ).has_guild(g);
                let t = choose|t: int|
                    0 <= t < ha.guild_ids@.len() && (#[trigger] ha.guild_ids@[t]).value == g;
                assert(!self.peers@[ib as int].has_guild(ha.guild_ids@[t].value));
            }
        }
        false
    }

    /// Deliver an event to every connected user the routing rule
    /// selects, appending it to each selected handle's outbound queue
    /// and touching nothing else. Handles are visited in registry
    /// order; each handle's filter set is read at the moment it is
    /// visited. A recipient whose real channel turns out to be gone
    /// is evicted by the caller with [`Gateway::remove_handle`] after
    /// the sweep; the sweep itself never stops early.
    pub fn dispatch(&mut self, event: GatewayEvent)
        requires
            old(self).wf(),
        ensures
            final(self).wf(),
            final(self).peers@.len() == old(self).peers@.len(),
            forall|i: int|
                0 <= i < old(self).peers@.len() ==> {
                    let oldh = #[trigger] old(self).peers@[i];
                    let newh = final(self).peers@[i];
                    &&& newh.user_id == oldh.user_id
                    &&& newh.guild_ids == oldh.guild_ids
                    &&& if old(self).should_deliver(event, oldh) {
                        enqueued_event(oldh.outbound@, newh.outbound@, event)
                    } else {
                        newh.outbound@ == oldh.outbound@
                    }
                },
    {
        let ghost g0 = *self;
        let n = self.peers.len();
        // First pass: apply the routing rule against a stable view of
        // the registry.
        let mut decisions: Vec<bool> = Vec::new();
        let mut i: usize = 0;
        while i < n
            invariant
                *self == g0,
                self.wf(),
                n == self.peers@.len(),
                0 <= i <= n,
                decisions@.len() == i,
                forall|k: int|
                    0 <= k < i ==> decisions@[k] == g0.should_deliver(
                        event,
                        #[trigger] g0.peers@[k],
                    ),
            decreases n - i,
        {
            let h = &self.peers[i];
            let deliver: bool = match event.extract_guild_id() {
                Some(g) => h.contains_guild(g),
                None => match event.extract_user_id() {
                    Some(u) => u.value == h.user_id.value || self.shares_guilds_with(
                        u,
                        h.user_id,
                    ),
                    None => true,
                },
            };
            decisions.push(deliver);
            i += 1;
        }
        // Second pass: enqueue the shared event for every recipient.
        let shared: Arc<GatewayEvent> = Arc::new(event);
        let mut i: usize = 0;
        while i < n
            invariant
                n == self.peers@.len(),
                n == g0.peers@.len(),
                0 <= i <= n,
                decisions@.len() == n,
                *shared == event,
                forall|k: int|
                    0 <= k < n ==> decisions@[k] == g0.should_deliver(
                        event,
                        #[trigger] g0.peers@[k],
                    ),
                forall|k: int|
                    i <= k < n ==> #[trigger] self.peers@[k] == g0.peers@[k],
                forall|k: int|
                    0 <= k < i ==> {
                        let oldh = #[trigger] g0.peers@[k];
                        let newh = self.peers@[k];
                        &&& newh.user_id == oldh.user_id
                        &&& newh.guild_ids == oldh.guild_ids
                        &&& if g0.should_deliver(event, oldh) {
                            enqueued_event(oldh.outbound@, newh.outbound@, event)
                        } else {
                            newh.outbound@ == oldh.outbound@
                        }
                    },
            decreases n - i,
        {
            if decisions[i] {
                let copy = share_event(&shared);
                let h = &mut self.peers[i];
                h.send(copy);
            }
            i += 1;
        }
        proof {
            assert(final(self).wf()) by {
                assert forall|a: int, b: int| 0 <= a < b < final(self).peers@.len() implies (
                #[trigger] final(self).peers@[a]).user_id.value != (#[trigger] final(self).peers@[b]).user_id.value by {
                    assert(final(self).peers@[a].user_id == g0.peers@[a].user_id);
                    assert(final(self).peers@[b].user_id == g0.peers@[b].user_id);
                }
                assert forall|k: int| 0 <= k < final(self).peers@.len() implies (#[trigger] final(self).peers@[k]).guilds_wf() by {
                    assert(final(self).peers@[k].guild_ids == g0.peers@[k].guild_ids);
                    assert(g0.peers@[k].guilds_wf());
                }
            }
        }
    }

    /// A guild-scoped event is delivered to a connected user exactly
    /// when the event's guild is among the guilds of that user's
    /// handle at the moment the router visits it.
    pub proof fn lemma_guild_scope_routing(
        g: Gateway,
        event: GatewayEvent,
        gid: u64,
        h: ConnectionHandle,
    )
        requires
            event.spec_guild_scope() == Some(gid),
        ensures
            g.should_deliver(event, h) <==> h.has_guild(gid),
    {
    }

    /// For a user-scoped event with subject `v`, the recipients among
    /// the connected users are exactly `v` and the users sharing at
    /// least one guild with `v`.
    pub proof fn lemma_user_scope_recipients(
        g: Gateway,
        event: GatewayEvent,
        v: u64,
        h: ConnectionHandle,
    )
        requires
            event.spec_guild_scope() is None,
            event.spec_user_scope() == Some(v),
        ensures
            g.should_deliver(event, h) <==> (h.user_id.value == v || g.spec_shares_guilds(
                v,
                h.user_id.value,
            )),
    {
    }

    /// An event with neither scope is delivered to every connected
    /// user.
    pub proof fn lemma_unscoped_reaches_all(g: Gateway, event: GatewayEvent, h: ConnectionHandle)
        requires
            event.spec_guild_scope() is None,
            event.spec_user_scope() is None,
        ensures
            g.should_deliver(event, h),
    {
    }

    /// Drop the handle of `user`; idempotent. Every other handle is
    /// untouched.
    pub fn remove_handle(&mut self, user: Snowflake<UserKind>)
        requires
            old(self).wf(),
        ensures
            final(self).wf(),
            final(self).peers@.len() == old(self).peers@.len() - if old(self).contains_user(
                user.value,
            ) {
                1int
            } else {
                0int
            },
            !final(self).contains_user(user.value),
            forall|v: u64|
                v != user.value ==> (#[trigger] final(self).contains_user(v) <==> old(self).contains_user(v)),
            forall|v: u64|
                v != user.value && old(self).contains_user(v) ==> #[trigger] final(self).handle_of(
                    v,
                ) == old(self).handle_of(v),
    {
        let ghost g0 = *self;
        match self.find_index(user.value) {
            Some(i) => {
                proof {
                    g0.lemma_user_index(user.value, i as int);
                }
                let _ = self.peers.remove(i);
                proof {
                    let i = i as int;
                    assert(final(self).peers@ =~= g0.peers@.remove(i));
                    assert(final(self).wf()) by {
                        assert forall|a: int, b: int|
                            0 <= a < b < final(self).peers@.len() implies (#[trigger] final(self).peers@[a]).user_id.value != (#[trigger] final(self).peers@[b]).user_id.value by {
                            let oa = if a < i { a } else { a + 1 };
                            let ob = if b < i { b } else { b + 1 };
                            assert(final(self).peers@[a] == g0.peers@[oa]);
                            assert(final(self).peers@[b] == g0.peers@[ob]);
                        }
                    }
                    assert(!final(self).contains_user(user.value)) by {
                        if final(self).contains_user(user.value) {
                            let k = final(self).user_index(user.value);
                            if k < i {
                                g0.lemma_at_most_one_handle(k, i);
                            } else {
                                g0.lemma_at_most_one_handle(k + 1, i);
                            }
                        }
                    }
                    assert forall|v: u64|
                        v != user.value && #[trigger] g0.contains_user(v) implies final(self).contains_user(v) && final(self).handle_of(v) == g0.handle_of(v) by {
                        let k = g0.user_index(v);
                        if k < i {
                            assert(final(self).peers@[k] == g0.peers@[k]);
                            final(self).lemma_user_index(v, k);
                        } else {
                            assert(k != i);
                            assert(final(self).peers@[k - 1] == g0.peers@[k]);
                            final(self).lemma_user_index(v, k - 1);
                        }
                    }
                    assert forall|v: u64|
                        v != user.value && #[trigger] final(self).contains_user(v) implies g0
                        .contains_user(v) by {
                        let k = final(self).user_index(v);
                        if k < i {
                            assert(g0.peers@[k] == final(self).peers@[k]);
                        } else {
                            assert(g0.peers@[k + 1] == final(self).peers@[k]);
                        }
                    }
                }
            },
            None => (),
        }
    }
}

} // verus!
