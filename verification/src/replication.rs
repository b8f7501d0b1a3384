//! The replication engine's per-tick passes, as the host and the clients
//! run them.
//!
//! Once per tick the host drains its inbound queues in a fixed order —
//! player-record updates, connects, chat messages, disconnects — updating
//! the host-owned registries and emitting the chat events it broadcasts
//! to every peer. A disconnect deterministically retires every replicated
//! entity owned by the departed client in the same pass that removes the
//! client from the connected set. Clients append the broadcast events to
//! their chat log in arrival order and ease mirrored positions toward the
//! latest authoritative value.

use vstd::prelude::*;
use std::collections::HashMap;
use crate::fixed::{Vec2Fx, FX_ONE};
use crate::protocol::{
    same_player, ChatMessage, ConnectedClients, Cursor, Player, PlayerData, SendMessage,
    SharedAsset, Token,
};

verus! {

/// The replicated payload of an entity.
#[derive(Clone, Copy, Debug, PartialEq, Eq, Structural)]
pub enum EntityBody {
    CursorBody(Cursor),
    TokenBody(Token, SharedAsset),
}

/// One replicated entity as the host tracks it: its network identity, the
/// client that is authoritative for it (`None` for host-owned), and its
/// replicated components.
#[derive(Clone, Copy, Debug, PartialEq, Eq, Structural)]
pub struct ReplEntity {
    pub net_id: u64,
    pub owner: Option<u64>,
    pub body: EntityBody,
}

/// The host's authoritative view of the session.
#[derive(Debug)]
pub struct HostWorld {
    pub players: PlayerData,
    pub clients: ConnectedClients,
    pub entities: Vec<ReplEntity>,
    pub next_net_id: u64,
}

/// The player registry after a sequence of announced updates, each keyed
/// by the announcing client, later announcements winning.
pub open spec fn apply_updates(m: Map<u64, Player>, ups: Seq<(u64, Player)>) -> Map<u64, Player>
    decreases ups.len(),
{
    if ups.len() == 0 {
        m
    } else {
        apply_updates(m, ups.drop_last()).insert(ups.last().0, ups.last().1)
    }
}

/// Two registries a peer cannot tell apart: same clients, records with
/// the same name and colour.
pub open spec fn players_like(a: Map<u64, Player>, b: Map<u64, Player>) -> bool {
    a.dom() =~= b.dom() && forall|k: u64|
        a.contains_key(k) ==> same_player(#[trigger] a[k], b[k])
}

/// The connected set after a sequence of departures.
pub open spec fn remove_all(s: Set<u64>, d: Seq<u64>) -> Set<u64>
    decreases d.len(),
{
    if d.len() == 0 {
        s
    } else {
        remove_all(s, d.drop_last()).remove(d.last())
    }
}

/// The connected set after a sequence of arrivals.
pub open spec fn insert_all(s: Set<u64>, c: Seq<u64>) -> Set<u64>
    decreases c.len(),
{
    if c.len() == 0 {
        s
    } else {
        insert_all(s, c.drop_last()).insert(c.last())
    }
}

/// Whether an entity survives the departure of the clients in `d`: every
/// entity owned by a departed client is retired, nothing else is.
pub open spec fn survives(e: ReplEntity, d: Seq<u64>) -> bool {
    match e.owner {
        Some(c) => !d.contains(c),
        None => true,
    }
}

/// The replicated entities left after the departures in `d`.
pub open spec fn retained(entities: Seq<ReplEntity>, d: Seq<u64>) -> Seq<ReplEntity> {
    entities.filter(|e: ReplEntity| survives(e, d))
}

impl HostWorld {
    /// A freshly started host: no players, no clients, no entities.
    pub fn new() -> (r: HostWorld)
        ensures
            r.players@ == Map::<u64, Player>::empty(),
            r.clients@ == Set::<u64>::empty(),
            r.entities@ == Seq::<ReplEntity>::empty(),
            r.next_net_id == 0,
    {
        HostWorld {
            players: PlayerData::new(),
            clients: ConnectedClients::new(),
            entities: Vec::new(),
            next_net_id: 0,
        }
    }

    /// Fold a tick's announced player records into the registry, in
    /// arrival order, later announcements winning.
    pub fn apply_player_updates(&mut self, updates: &Vec<(u64, Player)>)
        ensures
            players_like(final(self).players@, apply_updates(old(self).players@, updates@)),
            final(self).clients == old(self).clients,
            final(self).entities == old(self).entities,
            final(self).next_net_id == old(self).next_net_id,
    {
        let mut i: usize = 0;
        while i < updates.len()
            invariant
                i <= updates@.len(),
                players_like(self.players@, apply_updates(old(self).players@, updates@.take(i as int))),
                self.clients == old(self).clients,
                self.entities == old(self).entities,
                self.next_net_id == old(self).next_net_id,
            decreases updates@.len() - i,
        {
            proof {
                assert(updates@.take(i + 1).drop_last() =~= updates@.take(i as int));
            }
            let (client, player) = &updates[i];
            self.players.insert(*client, player.clone());
            i += 1;
        }
        proof {
            assert(updates@.take(updates@.len() as int) =~= updates@);
        }
    }

    /// Admit a tick's connecting clients to the connected set, emitting
    /// the presence events the host broadcasts, in arrival order.
    pub fn process_connects(&mut self, connects: &Vec<u64>) -> (events: Vec<ChatMessage>)
        ensures
            final(self).clients@ == insert_all(old(self).clients@, connects@),
            events@ =~= Seq::new(connects@.len(), |i: int| ChatMessage::Connected(connects@[i])),
            final(self).players == old(self).players,
            final(self).entities == old(self).entities,
            final(self).next_net_id == old(self).next_net_id,
    {
        let mut events: Vec<ChatMessage> = Vec::new();
        let mut i: usize = 0;
        while i < connects.len()
            invariant
                i <= connects@.len(),
                self.clients@ == insert_all(old(self).clients@, connects@.take(i as int)),
                events@ =~= Seq::new(i as nat, |j: int| ChatMessage::Connected(connects@[j])),
                self.players == old(self).players,
                self.entities == old(self).entities,
                self.next_net_id == old(self).next_net_id,
            decreases connects@.len() - i,
        {
            proof {
                assert(connects@.take(i + 1).drop_last() =~= connects@.take(i as int));
            }
            let client = connects[i];
            self.clients.insert(client);
            events.push(ChatMessage::Connected(client));
            i += 1;
        }
        proof {
            assert(connects@.take(connects@.len() as int) =~= connects@);
        }
        events
    }

    /// Turn a tick's inbound chat lines into the attributed events the
    /// host broadcasts, in arrival order; the host stamps the sender id,
    /// never trusting the payload to carry it.
    pub fn process_chat(&mut self, inbound: Vec<(u64, SendMessage)>) -> (events: Vec<ChatMessage>)
        ensures
            events@ =~= Seq::new(
                inbound@.len(),
                |i: int| ChatMessage::Message(inbound@[i].0, inbound@[i].1.0),
            ),
            final(self).players == old(self).players,
            final(self).clients == old(self).clients,
            final(self).entities == old(self).entities,
            final(self).next_net_id == old(self).next_net_id,
    {
        let ghost whole = inbound@;
        let mut inbound = inbound;
        let mut events: Vec<ChatMessage> = Vec::new();
        let ghost mut i: int = 0;
        while inbound.len() > 0
            invariant
                0 <= i,
                i + inbound@.len() == whole.len(),
                inbound@ =~= whole.skip(i),
                events@ =~= Seq::new(i as nat, |j: int| ChatMessage::Message(whole[j].0, whole[j].1.0)),
            decreases inbound@.len(),
        {
            let (sender, message) = inbound.remove(0);
            proof {
                assert(whole.skip(i).remove(0) =~= whole.skip(i + 1));
                assert(whole.skip(i)[0] == whole[i]);
            }
            events.push(ChatMessage::Message(sender, message.0));
            proof {
                i = i + 1;
            }
        }
        events
    }

    /// Process a tick's departures: broadcast the presence events, remove
    /// each departed client from the connected set, and retire every
    /// replicated entity a departed client owned — all in the same pass,
    /// so no abandoned entity leaks past the tick.
    pub fn process_disconnects(&mut self, disconnects: &Vec<u64>) -> (events: Vec<ChatMessage>)
        ensures
            final(self).clients@ == remove_all(old(self).clients@, disconnects@),
            final(self).entities@ =~= retained(old(self).entities@, disconnects@),
            events@ =~= Seq::new(
                disconnects@.len(),
                |i: int| ChatMessage::Disconnected(disconnects@[i]),
            ),
            final(self).players == old(self).players,
            final(self).next_net_id == old(self).next_net_id,
    {
        let mut events: Vec<ChatMessage> = Vec::new();
        let mut i: usize = 0;
        while i < disconnects.len()
            invariant
                i <= disconnects@.len(),
                self.clients@ == remove_all(old(self).clients@, disconnects@.take(i as int)),
                events@ =~= Seq::new(i as nat, |j: int| ChatMessage::Disconnected(disconnects@[j])),
                self.players == old(self).players,
                self.entities == old(self).entities,
                self.next_net_id == old(self).next_net_id,
            decreases disconnects@.len() - i,
        {
            proof {
                assert(disconnects@.take(i + 1).drop_last() =~= disconnects@.take(i as int));
            }
            let client = disconnects[i];
            self.clients.remove(client);
            events.push(ChatMessage::Disconnected(client));
            i += 1;
        }
        proof {
            assert(disconnects@.take(disconnects@.len() as int) =~= disconnects@);
        }
        // Retire every entity owned by a departed client.
        let ghost pre = self.entities@;
        let mut kept: Vec<ReplEntity> = Vec::new();
        let mut j: usize = 0;
        while j < self.entities.len()
            invariant
                j <= self.entities@.len(),
                self.entities@ == pre,
                kept@ =~= retained(pre.take(j as int), disconnects@),
                self.clients@ == remove_all(old(self).clients@, disconnects@),
                self.players == old(self).players,
                self.next_net_id == old(self).next_net_id,
            decreases self.entities@.len() - j,
        {
            proof {
                assert(pre.take(j + 1).drop_last() =~= pre.take(j as int));
                reveal_with_fuel(Seq::filter, 2);
            }
            let e = self.entities[j];
            let keep = match e.owner {
                Some(c) => !contains_id(disconnects, c),
                None => true,
            };
            if keep {
                kept.push(e);
            }
            j += 1;
        }
        proof {
            assert(pre.take(pre.len() as int) =~= pre);
        }
        self.entities = kept;
        events
    }

    /// The host's whole inbound pass for one tick, draining each queue
    /// fully and in the fixed order: announced player records, connects,
    /// chat lines, disconnects. Returns every chat event the host
    /// broadcasts this tick, in that order.
    pub fn recieve_message(
        &mut self,
        updates: &Vec<(u64, Player)>,
        connects: &Vec<u64>,
        inbound: Vec<(u64, SendMessage)>,
        disconnects: &Vec<u64>,
    ) -> (broadcasts: Vec<ChatMessage>)
        ensures
            players_like(final(self).players@, apply_updates(old(self).players@, updates@)),
            final(self).clients@ == remove_all(
                insert_all(old(self).clients@, connects@),
                disconnects@,
            ),
            final(self).entities@ =~= retained(old(self).entities@, disconnects@),
            final(self).next_net_id == old(self).next_net_id,
            broadcasts@ =~= Seq::new(connects@.len(), |i: int| ChatMessage::Connected(connects@[i]))
                + Seq::new(inbound@.len(), |i: int| ChatMessage::Message(inbound@[i].0, inbound@[i].1.0))
                + Seq::new(disconnects@.len(), |i: int| ChatMessage::Disconnected(disconnects@[i])),
    {
        self.apply_player_updates(updates);
        let mut broadcasts = self.process_connects(connects);
        let mut chat_events = self.process_chat(inbound);
        broadcasts.append(&mut chat_events);
        let mut leave_events = self.process_disconnects(disconnects);
        broadcasts.append(&mut leave_events);
        broadcasts
    }

    /// Adopt a cursor entity that a peer (or the local player) just
    /// replicated: the host assigns the network identity and stamps the
    /// authoring client id itself — taken from the transport's notion of
    /// the sender, or the host's own id for a local cursor, never from
    /// the payload.
    pub fn replicate_cursors(&mut self, from: Option<u64>, host_id: u64, cursor: Cursor) -> (net_id:
        u64)
        requires
            old(self).next_net_id < u64::MAX,
        ensures
            net_id == old(self).next_net_id,
            final(self).next_net_id == old(self).next_net_id + 1,
            final(self).entities@ =~= old(self).entities@.push(
                ReplEntity {
                    net_id,
                    owner: Some(
                        match from {
                            Some(c) => c,
                            None => host_id,
                        },
                    ),
                    body: EntityBody::CursorBody(cursor),
                },
            ),
            final(self).players == old(self).players,
            final(self).clients == old(self).clients,
    {
        let owner_id = match from {
            Some(c) => c,
            None => host_id,
        };
        let net_id = self.next_net_id;
        self.next_net_id = self.next_net_id + 1;
        self.entities.push(
            ReplEntity { net_id, owner: Some(owner_id), body: EntityBody::CursorBody(cursor) },
        );
        net_id
    }

    /// Spawn a host-owned token entity carrying a shared-asset reference,
    /// replicated to every peer.
    pub fn spawn_tokens(&mut self, token: Token, asset: SharedAsset) -> (net_id: u64)
        requires
            old(self).next_net_id < u64::MAX,
        ensures
            net_id == old(self).next_net_id,
            final(self).next_net_id == old(self).next_net_id + 1,
            final(self).entities@ =~= old(self).entities@.push(
                ReplEntity { net_id, owner: None, body: EntityBody::TokenBody(token, asset) },
            ),
            final(self).players == old(self).players,
            final(self).clients == old(self).clients,
    {
        let net_id = self.next_net_id;
        self.next_net_id = self.next_net_id + 1;
        self.entities.push(
            ReplEntity { net_id, owner: None, body: EntityBody::TokenBody(token, asset) },
        );
        net_id
    }
}

/// Whether `ids` holds `c`.
fn contains_id(ids: &Vec<u64>, c: u64) -> (r: bool)
    ensures
        r == ids@.contains(c),
{
    let mut i: usize = 0;
    while i < ids.len()
        invariant
            i <= ids@.len(),
            forall|j: int| 0 <= j < i ==> ids@[j] != c,
        decreases ids@.len() - i,
    {
        if ids[i] == c {
            return true;
        }
        i += 1;
    }
    false
}

/// Disconnect law: once the tick's disconnect pass has run for the
/// departures `d`, a departed client `c` is no longer in the connected
/// set, and no surviving replicated entity is owned by `c`.
pub proof fn lemma_disconnect_retires_owned(
    entities: Seq<ReplEntity>,
    clients: Set<u64>,
    d: Seq<u64>,
    c: u64,
)
    requires
        d.contains(c),
    ensures
        !remove_all(clients, d).contains(c),
        forall|i: int|
            0 <= i < retained(entities, d).len() ==> (#[trigger] retained(entities, d)[i]).owner
                != Some(c),
    decreases d.len(),
{
    let last = d.last();
    if d.len() > 0 {
        if d.drop_last().contains(c) {
            lemma_disconnect_retires_owned(entities, clients, d.drop_last(), c);
            if last != c {
                assert(!remove_all(clients, d).contains(c));
            }
        } else {
            assert(last == c) by {
                let i = choose|i: int| 0 <= i < d.len() && d[i] == c;
                if i < d.len() - 1 {
                    assert(d.drop_last()[i] == c);
                }
            }
        }
    }
    assert forall|i: int| 0 <= i < retained(entities, d).len() implies (#[trigger] retained(
        entities,
        d,
    )[i]).owner != Some(c) by {
        let e = retained(entities, d)[i];
        assert(entities.filter(|e: ReplEntity| survives(e, d)).contains(e));
        seq_filter_contains(entities, |e: ReplEntity| survives(e, d), e);
    }
}

/// An element of a filtered sequence satisfies the filter.
proof fn seq_filter_contains<A>(s: Seq<A>, pred: spec_fn(A) -> bool, x: A)
    requires
        s.filter(pred).contains(x),
    ensures
        pred(x),
    decreases s.len(),
{
    reveal_with_fuel(Seq::filter, 2);
    if s.len() > 0 {
        if s.drop_last().filter(pred).contains(x) {
            seq_filter_contains(s.drop_last(), pred, x);
        } else {
            assert(pred(s.last()) && x == s.last());
        }
    }
}

/// The client-side chat and presence log, appended in arrival order and
/// never pruned during a session.
#[derive(Debug)]
pub struct ChatHistory(pub Vec<ChatMessage>);

impl ChatHistory {
    pub fn new() -> (r: ChatHistory)
        ensures
            r.0@ == Seq::<ChatMessage>::empty(),
    {
        ChatHistory(Vec::new())
    }

    /// Append a tick's broadcast chat events, in arrival order.
    pub fn recieve_message(&mut self, inbound: Vec<ChatMessage>)
        ensures
            final(self).0@ =~= old(self).0@ + inbound@,
    {
        let ghost whole = inbound@;
        let mut inbound = inbound;
        let ghost mut i: int = 0;
        while inbound.len() > 0
            invariant
                0 <= i,
                i + inbound@.len() == whole.len(),
                inbound@ =~= whole.skip(i),
                self.0@ =~= old(self).0@ + whole.take(i),
            decreases inbound@.len(),
        {
            let event = inbound.remove(0);
            proof {
                assert(whole.skip(i).remove(0) =~= whole.skip(i + 1));
                assert(whole.skip(i)[0] == whole[i]);
                assert(whole.take(i + 1).drop_last() =~= whole.take(i));
            }
            self.0.push(event);
            proof {
                i = i + 1;
            }
        }
        proof {
            assert(whole.take(whole.len() as int) =~= whole);
        }
    }
}

/// One update packet of a replication snapshot: the owner-assigned
/// entity identity and the component state it now carries.
#[derive(Clone, Copy, Debug, PartialEq, Eq, Structural)]
pub struct UpdatePacket {
    pub net_id: u64,
    pub body: EntityBody,
}

/// Whether an entity's components moved since the last snapshot the
/// receiver acknowledged.
pub open spec fn changed_since_ack(e: ReplEntity, acked: Map<u64, EntityBody>) -> bool {
    !acked.contains_key(e.net_id) || acked[e.net_id] != e.body
}

/// The owner side of one replication tick: diff the owned entities
/// against the last acknowledged snapshot and emit one update packet per
/// entity that changed — new entities and moved components, nothing that
/// the receiver already acknowledged.
pub fn snapshot_changes(entities: &Vec<ReplEntity>, acked: &HashMap<u64, EntityBody>) -> (out: Vec<
    UpdatePacket,
>)
    ensures
        out@ =~= entities@.filter(|e: ReplEntity| changed_since_ack(e, acked@)).map_values(
            |e: ReplEntity| UpdatePacket { net_id: e.net_id, body: e.body },
        ),
{
    let mut out: Vec<UpdatePacket> = Vec::new();
    let mut i: usize = 0;
    while i < entities.len()
        invariant
            i <= entities@.len(),
            out@ =~= entities@.take(i as int).filter(
                |e: ReplEntity| changed_since_ack(e, acked@),
            ).map_values(|e: ReplEntity| UpdatePacket { net_id: e.net_id, body: e.body }),
        decreases entities@.len() - i,
    {
        proof {
            assert(entities@.take(i + 1).drop_last() =~= entities@.take(i as int));
            reveal_with_fuel(Seq::filter, 2);
        }
        let e = entities[i];
        let stale = match acked.get(&e.net_id) {
            Some(prev) => *prev != e.body,
            None => true,
        };
        if stale {
            out.push(UpdatePacket { net_id: e.net_id, body: e.body });
        }
        i += 1;
    }
    proof {
        assert(entities@.take(entities@.len() as int) =~= entities@);
    }
    out
}

/// Record that the receiver acknowledged a snapshot's packets: the next
/// diff is taken against these values.
pub fn ack_snapshot(acked: &mut HashMap<u64, EntityBody>, packets: &Vec<UpdatePacket>)
    ensures
        final(acked)@ =~= packets@.fold_left(
            old(acked)@,
            |m: Map<u64, EntityBody>, p: UpdatePacket| m.insert(p.net_id, p.body),
        ),
{
    let mut i: usize = 0;
    while i < packets.len()
        invariant
            i <= packets@.len(),
            acked@ =~= packets@.take(i as int).fold_left(
                old(acked)@,
                |m: Map<u64, EntityBody>, p: UpdatePacket| m.insert(p.net_id, p.body),
            ),
        decreases packets@.len() - i,
    {
        proof {
            assert(packets@.take(i + 1).drop_last() =~= packets@.take(i as int));
        }
        let p = packets[i];
        acked.insert(p.net_id, p.body);
        i += 1;
    }
    proof {
        assert(packets@.take(packets@.len() as int) =~= packets@);
    }
}

/// Snapshot law: against a snapshot it has just acknowledged in full, an
/// owner has nothing to send — every emitted packet crosses the wire
/// because something actually moved.
pub proof fn lemma_snapshot_quiescent(entities: Seq<ReplEntity>, acked: Map<u64, EntityBody>)
    requires
        forall|i: int|
            0 <= i < entities.len() ==> !changed_since_ack(#[trigger] entities[i], acked),
    ensures
        entities.filter(|e: ReplEntity| changed_since_ack(e, acked)) =~= Seq::<
            ReplEntity,
        >::empty(),
    decreases entities.len(),
{
    reveal_with_fuel(Seq::filter, 2);
    if entities.len() > 0 {
        assert(forall|i: int|
            0 <= i < entities.len() - 1 ==> entities.drop_last()[i] == #[trigger] entities[i]);
        lemma_snapshot_quiescent(entities.drop_last(), acked);
    }
}

/// The receiver side of one replication tick: apply each inbound packet
/// to the mirrored entity the local table knows it as. A packet naming
/// an entity unknown here is inapplicable and is dropped; the rest of
/// the snapshot still applies.
pub fn apply_snapshot(
    mirror: &mut HashMap<u64, EntityBody>,
    table: &crate::protocol::EntityMap,
    packets: &Vec<UpdatePacket>,
) -> (dropped: usize)
    ensures
        final(mirror)@ =~= packets@.fold_left(
            old(mirror)@,
            |m: Map<u64, EntityBody>, p: UpdatePacket| if table@.contains_key(p.net_id) {
                m.insert(table@[p.net_id], p.body)
            } else {
                m
            },
        ),
        dropped <= packets@.len(),
{
    let mut dropped: usize = 0;
    let mut i: usize = 0;
    while i < packets.len()
        invariant
            i <= packets@.len(),
            dropped <= i,
            mirror@ =~= packets@.take(i as int).fold_left(
                old(mirror)@,
                |m: Map<u64, EntityBody>, p: UpdatePacket| if table@.contains_key(p.net_id) {
                    m.insert(table@[p.net_id], p.body)
                } else {
                    m
                },
            ),
        decreases packets@.len() - i,
    {
        proof {
            assert(packets@.take(i + 1).drop_last() =~= packets@.take(i as int));
        }
        let p = packets[i];
        match table.map_entity(p.net_id) {
            Some(local) => {
                mirror.insert(local, p.body);
            },
            None => {
                dropped += 1;
            },
        }
        i += 1;
    }
    proof {
        assert(packets@.take(packets@.len() as int) =~= packets@);
    }
    dropped
}

/// Ease a mirrored token's presentation position toward its latest
/// authoritative position; the easing never feeds back into the
/// authoritative value.
pub fn update_token_position(shown: &mut Vec2Fx, token: &Token, alpha: i64)
    requires
        old(shown).bounded(),
        token.position.bounded(),
        0 <= alpha <= FX_ONE,
    ensures
        *final(shown) == old(shown).ease_vec_spec(token.position, alpha as int),
        final(shown).bounded(),
{
    *shown = shown.ease_toward(token.position, alpha);
}

/// Ease a mirrored cursor's presentation position toward its latest
/// authoritative position.
pub fn update_replicated_cursor_position(shown: &mut Vec2Fx, cursor: &Cursor, alpha: i64)
    requires
        old(shown).bounded(),
        cursor.position.bounded(),
        0 <= alpha <= FX_ONE,
    ensures
        *final(shown) == old(shown).ease_vec_spec(cursor.position, alpha as int),
        final(shown).bounded(),
{
    *shown = shown.ease_toward(cursor.position, alpha);
}

} // verus!
