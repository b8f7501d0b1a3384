//! Session layer for a shared virtual tabletop: a connection state machine
//! for client and host roles, declared channels with distinct delivery
//! guarantees, host-to-client replication of players, cursors and tokens,
//! and a pull-based, content-addressed scheme for sharing image assets.

pub mod asset_sharing;
pub mod channel;
pub mod config;
pub mod dice;
pub mod fixed;
pub mod input;
pub mod protocol;
pub mod replication;
pub mod session;

pub use asset_sharing::{
    decode_sharable, encode_sharable, init_replicated_tokens, recieve_requested_asset,
    send_requested_asset, AssetStore, Image, MirroredAssets, RequestAssetMessage,
    SendAssetMessage, SharableFormat, SharableImage, SharedAssets, TextureFormat, UVec2,
};
pub use channel::{ChannelReceiver, DeliveryMode};
pub use config::{
    ChannelDef, ComponentKind, ComponentReg, Direction, MessageKind, MessageReg, ProtocolConfig,
    ResourceKind, ResourceReg, SyncStrategy,
};
pub use dice::{update_velocity, DiceCamera, DummyDice, SelectorDiceVelocity};
pub use fixed::{ease_toward, Vec2Fx, FX_ONE};
pub use input::{update_cursor_position, update_over_ui, update_picking, CursorPosition, OverUI};
pub use protocol::{
    drop_moving_tokens, player_or_default, ChatMessage, ConnectedClients, Cursor,
    DeselectMessage, EntityMap, Owner, Player, PlayerData, SendMessage, SharedAsset, Token,
};
pub use replication::{
    ack_snapshot, apply_snapshot, snapshot_changes, update_replicated_cursor_position,
    update_token_position, ChatHistory, EntityBody, HostWorld, ReplEntity, UpdatePacket,
};
pub use session::{
    parse_endpoint, ClientId, ClientNetState, ClientSession, Endpoint, HostNetState, HostSession,
    SessionError, DEFAULT_PORT,
};
