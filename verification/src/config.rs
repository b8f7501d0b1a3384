//! The protocol configuration: which channels exist, which wire types
//! cross them, in which direction, and with which sync strategy.
//!
//! The whole configuration is built once at startup, before the session
//! reaches a connected or started state, and never mutated afterwards;
//! sending on a channel that was never declared is a programming error,
//! ruled out here by precondition rather than recovered from at runtime.

use vstd::prelude::*;
use crate::channel::DeliveryMode;

verus! {

/// The fixed simulation rate, in ticks per second, that paces replication
/// snapshots independently of the render rate.
pub const TICK_RATE: u64 = 60;

/// Which way a wire type travels.
#[derive(Clone, Copy, Debug, PartialEq, Eq, Structural)]
pub enum Direction {
    ClientToHost,
    HostToClient,
    Bidirectional,
}

/// How a replicated component's authoritative changes propagate: sent on
/// creation only, replicated verbatim on every change, or blended by the
/// receiver toward the latest authoritative value.
#[derive(Clone, Copy, Debug, PartialEq, Eq, Structural)]
pub enum SyncStrategy {
    Once,
    Full,
    Interpolated,
}

/// The closed list of standalone messages.
#[derive(Clone, Copy, Debug, PartialEq, Eq, Structural)]
pub enum MessageKind {
    SendChat,
    ChatEvent,
    Deselect,
    PlayerUpdate,
    RequestAsset,
    AssetPayload,
}

/// The closed list of replicated components.
#[derive(Clone, Copy, Debug, PartialEq, Eq, Structural)]
pub enum ComponentKind {
    CursorState,
    OwnerTag,
    TokenState,
    SharedAssetRef,
}

/// The closed list of replicated whole resources.
#[derive(Clone, Copy, Debug, PartialEq, Eq, Structural)]
pub enum ResourceKind {
    PlayerRegistry,
    ConnectedSet,
}

/// One declared channel.
#[derive(Clone, Copy, Debug, PartialEq, Eq, Structural)]
pub struct ChannelDef {
    pub mode: DeliveryMode,
}

/// A message registration: its kind, direction, and the channel it rides.
#[derive(Clone, Copy, Debug, PartialEq, Eq, Structural)]
pub struct MessageReg {
    pub kind: MessageKind,
    pub direction: Direction,
    pub channel: usize,
}

/// A component registration: its kind, direction and sync strategy.
#[derive(Clone, Copy, Debug, PartialEq, Eq, Structural)]
pub struct ComponentReg {
    pub kind: ComponentKind,
    pub direction: Direction,
    pub strategy: SyncStrategy,
}

/// A resource registration: its kind, direction, and the channel its
/// snapshots ride.
#[derive(Clone, Copy, Debug, PartialEq, Eq, Structural)]
pub struct ResourceReg {
    pub kind: ResourceKind,
    pub direction: Direction,
    pub channel: usize,
}

/// Index of the unordered reliable channel in the standard configuration.
pub const CH_UNORDERED_RELIABLE: usize = 0;

/// Index of the sequenced unreliable channel in the standard configuration.
pub const CH_SEQUENCED_UNRELIABLE: usize = 1;

/// Index of the sequenced reliable channel in the standard configuration.
pub const CH_SEQUENCED_RELIABLE: usize = 2;

/// The whole wire protocol, built once at startup.
#[derive(Debug)]
pub struct ProtocolConfig {
    pub channels: Vec<ChannelDef>,
    pub messages: Vec<MessageReg>,
    pub components: Vec<ComponentReg>,
    pub resources: Vec<ResourceReg>,
}

impl ProtocolConfig {
    /// Every registration names a channel that was declared.
    pub open spec fn wf(self) -> bool {
        &&& forall|i: int|
            0 <= i < self.messages@.len() ==> (#[trigger] self.messages@[i]).channel
                < self.channels@.len()
        &&& forall|i: int|
            0 <= i < self.resources@.len() ==> (#[trigger] self.resources@[i]).channel
                < self.channels@.len()
    }

    /// Whether `channel` may carry traffic under this configuration.
    pub fn channel_declared(&self, channel: usize) -> (r: bool)
        ensures
            r == (channel < self.channels@.len()),
    {
        channel < self.channels.len()
    }

    /// The delivery mode `channel` was declared with. Sending on an
    /// undeclared channel is a programming error, excluded by precondition.
    pub fn mode_of(&self, channel: usize) -> (r: DeliveryMode)
        requires
            channel < self.channels@.len(),
        ensures
            r == self.channels@[channel as int].mode,
    {
        self.channels[channel].mode
    }

    /// The registration of message kind `kind`, if the protocol carries it.
    pub fn message_reg(&self, kind: MessageKind) -> (r: Option<MessageReg>)
        ensures
            match r {
                Some(reg) => exists|i: int|
                    0 <= i < self.messages@.len() && self.messages@[i] == reg && reg.kind == kind,
                None => forall|i: int|
                    0 <= i < self.messages@.len() ==> (#[trigger] self.messages@[i]).kind != kind,
            },
    {
        let mut i: usize = 0;
        while i < self.messages.len()
            invariant
                i <= self.messages@.len(),
                forall|j: int| 0 <= j < i ==> (#[trigger] self.messages@[j]).kind != kind,
            decreases self.messages@.len() - i,
        {
            if self.messages[i].kind == kind {
                return Some(self.messages[i]);
            }
            i += 1;
        }
        None
    }

    /// The standard protocol: three channels, the chat and asset messages,
    /// the replicated components of cursors and tokens, and the two
    /// host-owned resources. Mirrors what every peer declares at startup.
    pub fn standard() -> (r: ProtocolConfig)
        ensures
            r.wf(),
            r.channels@.len() == 3,
            r.channels@[CH_UNORDERED_RELIABLE as int].mode == DeliveryMode::UnorderedReliable,
            r.channels@[CH_SEQUENCED_UNRELIABLE as int].mode == DeliveryMode::SequencedUnreliable,
            r.channels@[CH_SEQUENCED_RELIABLE as int].mode == DeliveryMode::SequencedReliable,
            r.messages@ =~= seq![
                MessageReg {
                    kind: MessageKind::SendChat,
                    direction: Direction::ClientToHost,
                    channel: CH_UNORDERED_RELIABLE,
                },
                MessageReg {
                    kind: MessageKind::ChatEvent,
                    direction: Direction::HostToClient,
                    channel: CH_UNORDERED_RELIABLE,
                },
                MessageReg {
                    kind: MessageKind::Deselect,
                    direction: Direction::HostToClient,
                    channel: CH_UNORDERED_RELIABLE,
                },
                MessageReg {
                    kind: MessageKind::PlayerUpdate,
                    direction: Direction::ClientToHost,
                    channel: CH_UNORDERED_RELIABLE,
                },
                MessageReg {
                    kind: MessageKind::RequestAsset,
                    direction: Direction::ClientToHost,
                    channel: CH_UNORDERED_RELIABLE,
                },
                MessageReg {
                    kind: MessageKind::AssetPayload,
                    direction: Direction::HostToClient,
                    channel: CH_UNORDERED_RELIABLE,
                },
            ],
            r.components@ =~= seq![
                ComponentReg {
                    kind: ComponentKind::CursorState,
                    direction: Direction::Bidirectional,
                    strategy: SyncStrategy::Interpolated,
                },
                ComponentReg {
                    kind: ComponentKind::OwnerTag,
                    direction: Direction::HostToClient,
                    strategy: SyncStrategy::Once,
                },
                ComponentReg {
                    kind: ComponentKind::TokenState,
                    direction: Direction::HostToClient,
                    strategy: SyncStrategy::Interpolated,
                },
                ComponentReg {
                    kind: ComponentKind::SharedAssetRef,
                    direction: Direction::HostToClient,
                    strategy: SyncStrategy::Once,
                },
            ],
            r.resources@ =~= seq![
                ResourceReg {
                    kind: ResourceKind::PlayerRegistry,
                    direction: Direction::HostToClient,
                    channel: CH_SEQUENCED_RELIABLE,
                },
                ResourceReg {
                    kind: ResourceKind::ConnectedSet,
                    direction: Direction::HostToClient,
                    channel: CH_SEQUENCED_RELIABLE,
                },
            ],
    {
        let mut channels: Vec<ChannelDef> = Vec::new();
        channels.push(ChannelDef { mode: DeliveryMode::UnorderedReliable });
        channels.push(ChannelDef { mode: DeliveryMode::SequencedUnreliable });
        channels.push(ChannelDef { mode: DeliveryMode::SequencedReliable });

        let mut messages: Vec<MessageReg> = Vec::new();
        messages.push(
            MessageReg {
                kind: MessageKind::SendChat,
                direction: Direction::ClientToHost,
                channel: CH_UNORDERED_RELIABLE,
            },
        );
        messages.push(
            MessageReg {
                kind: MessageKind::ChatEvent,
                direction: Direction::HostToClient,
                channel: CH_UNORDERED_RELIABLE,
            },
        );
        messages.push(
            MessageReg {
                kind: MessageKind::Deselect,
                direction: Direction::HostToClient,
                channel: CH_UNORDERED_RELIABLE,
            },
        );
        messages.push(
            MessageReg {
                kind: MessageKind::PlayerUpdate,
                direction: Direction::ClientToHost,
                channel: CH_UNORDERED_RELIABLE,
            },
        );
        messages.push(
            MessageReg {
                kind: MessageKind::RequestAsset,
                direction: Direction::ClientToHost,
                channel: CH_UNORDERED_RELIABLE,
            },
        );
        messages.push(
            MessageReg {
                kind: MessageKind::AssetPayload,
                direction: Direction::HostToClient,
                channel: CH_UNORDERED_RELIABLE,
            },
        );

        let mut components: Vec<ComponentReg> = Vec::new();
        components.push(
            ComponentReg {
                kind: ComponentKind::CursorState,
                direction: Direction::Bidirectional,
                strategy: SyncStrategy::Interpolated,
            },
        );
        components.push(
            ComponentReg {
                kind: ComponentKind::OwnerTag,
                direction: Direction::HostToClient,
                strategy: SyncStrategy::Once,
            },
        );
        components.push(
            ComponentReg {
                kind: ComponentKind::TokenState,
                direction: Direction::HostToClient,
                strategy: SyncStrategy::Interpolated,
            },
        );
        components.push(
            ComponentReg {
                kind: ComponentKind::SharedAssetRef,
                direction: Direction::HostToClient,
                strategy: SyncStrategy::Once,
            },
        );

        let mut resources: Vec<ResourceReg> = Vec::new();
        resources.push(
            ResourceReg {
                kind: ResourceKind::PlayerRegistry,
                direction: Direction::HostToClient,
                channel: CH_SEQUENCED_RELIABLE,
            },
        );
        resources.push(
            ResourceReg {
                kind: ResourceKind::ConnectedSet,
                direction: Direction::HostToClient,
                channel: CH_SEQUENCED_RELIABLE,
            },
        );

        ProtocolConfig { channels, messages, components, resources }
    }
}

} // verus!
