//! The closed set of values that cross the wire: player records, chat
//! events, replicated components, and the per-peer translation table for
//! entity references.

use vstd::prelude::*;
use std::collections::HashMap;
use std::collections::HashSet;
use crate::fixed::Vec2Fx;
use crate::fixed::FX_ONE;

verus! {

broadcast use vstd::std_specs::hash::group_hash_axioms;

/// A player record: display name and cursor colour, replicated from the
/// host's registry to every peer.
#[derive(Debug)]
pub struct Player {
    pub name: String,
    pub color: [u8; 3],
}

/// Two records that a peer cannot tell apart: same name, same colour.
pub open spec fn same_player(a: Player, b: Player) -> bool {
    a.name@ == b.name@ && a.color == b.color
}

impl Clone for Player {
    fn clone(&self) -> (r: Player)
        ensures
            same_player(r, *self),
    {
        Player { name: self.name.clone(), color: self.color }
    }
}

impl Default for Player {
    /// The record a peer starts with before the user picks a name.
    fn default() -> (r: Player)
        ensures
            r.name@ == "Player"@,
            r.color == [255u8, 255u8, 255u8],
    {
        Player { name: "Player".to_owned(), color: [255u8, 255u8, 255u8] }
    }
}

/// Host-owned registry of player records, keyed by client id; clients hold
/// a read-only mirror.
#[derive(Debug)]
pub struct PlayerData(pub HashMap<u64, Player>);

impl PlayerData {
    pub open spec fn view(&self) -> Map<u64, Player> {
        self.0@
    }

    pub fn new() -> (r: PlayerData)
        ensures
            r@ == Map::<u64, Player>::empty(),
    {
        PlayerData(HashMap::new())
    }

    /// Record or replace the player record of `client`.
    pub fn insert(&mut self, client: u64, player: Player)
        ensures
            final(self)@ == old(self)@.insert(client, player),
    {
        self.0.insert(client, player);
    }

    /// The record of `client`, if one was ever announced.
    pub fn get(&self, client: u64) -> (r: Option<&Player>)
        ensures
            match r {
                Some(p) => self@.contains_key(client) && *p == self@[client],
                None => !self@.contains_key(client),
            },
    {
        self.0.get(&client)
    }
}

/// The record shown for `client`: its announced record, or the default
/// while none has arrived yet.
pub fn player_or_default(players: &PlayerData, client: u64) -> (r: Player)
    ensures
        players@.contains_key(client) ==> same_player(r, players@[client]),
        !players@.contains_key(client) ==> r.name@ == "Player"@ && r.color == [
            255u8,
            255u8,
            255u8,
        ],
{
    match players.get(client) {
        Some(p) => p.clone(),
        None => Player::default(),
    }
}

/// Host-owned set of currently connected client ids, replicated read-only
/// for presence display.
#[derive(Debug)]
pub struct ConnectedClients(pub HashSet<u64>);

impl ConnectedClients {
    pub open spec fn view(&self) -> Set<u64> {
        self.0@
    }

    pub fn new() -> (r: ConnectedClients)
        ensures
            r@ == Set::<u64>::empty(),
    {
        ConnectedClients(HashSet::new())
    }

    pub fn insert(&mut self, client: u64)
        ensures
            final(self)@ == old(self)@.insert(client),
    {
        self.0.insert(client);
    }

    pub fn remove(&mut self, client: u64)
        ensures
            final(self)@ == old(self)@.remove(client),
    {
        self.0.remove(&client);
    }

    pub fn contains(&self, client: u64) -> (r: bool)
        ensures
            r == self@.contains(client),
    {
        self.0.contains(&client)
    }
}

/// An on-table token: replicated position plus its drawing layer, both in
/// fixed-point world units.
#[derive(Clone, Copy, Debug, PartialEq, Eq, Structural)]
pub struct Token {
    pub position: Vec2Fx,
    pub layer: i64,
}

/// A peer's on-table pointer position, in fixed-point world units.
#[derive(Clone, Copy, Debug, Default, PartialEq, Eq, Structural)]
pub struct Cursor {
    pub position: Vec2Fx,
}

impl Cursor {
    /// Blend `start` toward `other` by the fraction `alpha / FX_ONE`:
    /// the receiver-side easing of a mirrored cursor.
    pub fn lerp(start: &Cursor, other: &Cursor, alpha: i64) -> (r: Cursor)
        requires
            start.position.bounded(),
            other.position.bounded(),
            0 <= alpha <= FX_ONE,
        ensures
            r.position == start.position.ease_vec_spec(other.position, alpha as int),
            r.position.bounded(),
    {
        Cursor { position: start.position.ease_toward(other.position, alpha) }
    }
}

/// The client id that may author authoritative updates for an entity;
/// stamped by the host at creation time, never self-reported.
#[derive(Clone, Copy, Debug, PartialEq, Eq, Structural)]
pub struct Owner(pub u64);

/// A content reference carried by a replicated entity: the asset's
/// location-independent identifier, not a local handle.
#[derive(Clone, Copy, Debug, PartialEq, Eq, Structural)]
pub struct SharedAsset {
    pub id: u128,
}

impl SharedAsset {
    pub fn new(uuid: u128) -> (r: SharedAsset)
        ensures
            r.id == uuid,
    {
        SharedAsset { id: uuid }
    }
}

/// A chat line as a client submits it to the host.
#[derive(Clone, Debug, PartialEq)]
pub struct SendMessage(pub String);

/// An entry of the client-side chat and presence log, attributed to the
/// client id the host stamped on it.
#[derive(Clone, Debug, PartialEq)]
pub enum ChatMessage {
    Message(u64, String),
    Connected(u64),
    Disconnected(u64),
}

/// A host-to-client order to drop the current token selection, either
/// wholesale or for one referenced entity.
#[derive(Clone, Copy, Debug, PartialEq, Eq, Structural)]
pub enum DeselectMessage {
    Everything,
    Entity(u64),
}

/// Per-peer table mapping owner-assigned network entity ids to local
/// slots; peers cannot assume an entity keeps one number everywhere.
#[derive(Debug)]
pub struct EntityMap(pub HashMap<u64, u64>);

impl EntityMap {
    pub open spec fn view(&self) -> Map<u64, u64> {
        self.0@
    }

    pub fn new() -> (r: EntityMap)
        ensures
            r@ == Map::<u64, u64>::empty(),
    {
        EntityMap(HashMap::new())
    }

    /// Record that the sender's entity `net_id` lives here as `local_id`.
    pub fn insert(&mut self, net_id: u64, local_id: u64)
        ensures
            final(self)@ == old(self)@.insert(net_id, local_id),
    {
        self.0.insert(net_id, local_id);
    }

    /// The local slot of the sender's entity `net_id`, if it is known here.
    pub fn map_entity(&self, net_id: u64) -> (r: Option<u64>)
        ensures
            match r {
                Some(local) => self@.contains_key(net_id) && local == self@[net_id],
                None => !self@.contains_key(net_id),
            },
    {
        match self.0.get(&net_id) {
            Some(local) => Some(*local),
            None => None,
        }
    }
}

impl DeselectMessage {
    /// What a message becomes under the receiver's entity translation.
    pub open spec fn map_entities_spec(self, table: Map<u64, u64>) -> Option<DeselectMessage> {
        match self {
            DeselectMessage::Everything => Some(DeselectMessage::Everything),
            DeselectMessage::Entity(net_id) => if table.contains_key(net_id) {
                Some(DeselectMessage::Entity(table[net_id]))
            } else {
                None
            },
        }
    }

    /// Translate the entity reference inside this message into the
    /// receiver's namespace; a reference to an entity unknown here makes
    /// the message inapplicable and it is dropped.
    pub fn map_entities(&self, table: &EntityMap) -> (r: Option<DeselectMessage>)
        ensures
            r == self.map_entities_spec(table@),
    {
        match self {
            DeselectMessage::Everything => Some(DeselectMessage::Everything),
            DeselectMessage::Entity(net_id) => match table.map_entity(*net_id) {
                Some(local) => Some(DeselectMessage::Entity(local)),
                None => None,
            },
        }
    }
}

/// Which local token selections survive a deselect order: none for a
/// wholesale order, all but the referenced one otherwise.
pub open spec fn surviving_selection(moving: Seq<u64>, msg: DeselectMessage) -> Seq<u64> {
    match msg {
        DeselectMessage::Everything => Seq::<u64>::empty(),
        DeselectMessage::Entity(local) => moving.filter(|e: u64| e != local),
    }
}

/// Apply an (already translated) deselect order to the list of locally
/// selected token entities.
pub fn drop_moving_tokens(moving: &mut Vec<u64>, msg: &DeselectMessage)
    ensures
        final(moving)@ == surviving_selection(old(moving)@, *msg),
{
    match msg {
        DeselectMessage::Everything => {
            moving.clear();
        },
        DeselectMessage::Entity(local) => {
            let target: u64 = *local;
            let mut kept: Vec<u64> = Vec::new();
            let mut i: usize = 0;
            while i < moving.len()
                invariant
                    i <= moving@.len(),
                    kept@ == moving@.take(i as int).filter(|e: u64| e != target),
                decreases moving@.len() - i,
            {
                proof {
                    assert(moving@.take(i + 1).drop_last() == moving@.take(i as int));
                    reveal_with_fuel(Seq::filter, 2);
                }
                if moving[i] != target {
                    kept.push(moving[i]);
                }
                i += 1;
            }
            proof {
                assert(moving@.take(moving@.len() as int) == moving@);
            }
            *moving = kept;
        },
    }
}

} // verus!
