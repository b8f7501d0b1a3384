use std::collections::HashMap;

use tabletop_net::{
    ack_snapshot, apply_snapshot, snapshot_changes, Cursor, EntityBody, EntityMap, HostWorld,
    SharedAsset, Token, UpdatePacket, Vec2Fx, FX_ONE,
};

fn cursor_at(x: i64, y: i64) -> EntityBody {
    EntityBody::CursorBody(Cursor { position: Vec2Fx { x, y } })
}

#[test]
fn snapshot_emits_only_what_moved() {
    let mut world = HostWorld::new();
    let a = world.replicate_cursors(Some(1), 0, Cursor { position: Vec2Fx { x: 0, y: 0 } });
    let b = world.replicate_cursors(Some(2), 0, Cursor { position: Vec2Fx { x: 5, y: 5 } });

    let mut acked: HashMap<u64, EntityBody> = HashMap::new();

    // First tick: nothing acknowledged yet, both entities go out.
    let first = snapshot_changes(&world.entities, &acked);
    assert_eq!(
        first,
        vec![
            UpdatePacket { net_id: a, body: cursor_at(0, 0) },
            UpdatePacket { net_id: b, body: cursor_at(5, 5) },
        ]
    );
    ack_snapshot(&mut acked, &first);

    // Nothing moved: the next snapshot is empty.
    assert!(snapshot_changes(&world.entities, &acked).is_empty());

    // One cursor moves: only it is emitted.
    world.entities[0].body = cursor_at(7, 7);
    let second = snapshot_changes(&world.entities, &acked);
    assert_eq!(second, vec![UpdatePacket { net_id: a, body: cursor_at(7, 7) }]);
}

#[test]
fn snapshot_applies_through_the_entity_table() {
    let mut table = EntityMap::new();
    table.insert(3, 30);

    let mut mirror: HashMap<u64, EntityBody> = HashMap::new();
    let packets = vec![
        UpdatePacket { net_id: 3, body: cursor_at(1, 2) },
        // The receiver never learned of entity 4: this packet is
        // inapplicable and dropped, the rest still applies.
        UpdatePacket { net_id: 4, body: cursor_at(9, 9) },
    ];
    let dropped = apply_snapshot(&mut mirror, &table, &packets);
    assert_eq!(dropped, 1);
    assert_eq!(mirror.len(), 1);
    assert_eq!(mirror.get(&30), Some(&cursor_at(1, 2)));
}

#[test]
fn token_state_travels_in_packets() {
    let mut world = HostWorld::new();
    let token = Token { position: Vec2Fx { x: FX_ONE / 2, y: FX_ONE / 2 }, layer: 15 * FX_ONE };
    let id = world.spawn_tokens(token, SharedAsset::new(99));
    let packets = snapshot_changes(&world.entities, &HashMap::new());
    assert_eq!(
        packets,
        vec![UpdatePacket { net_id: id, body: EntityBody::TokenBody(token, SharedAsset::new(99)) }]
    );
}

#[test]
fn cursor_lerp_blends_halfway() {
    let start = Cursor { position: Vec2Fx { x: 0, y: 0 } };
    let target = Cursor { position: Vec2Fx { x: FX_ONE, y: 2 * FX_ONE } };
    let blended = Cursor::lerp(&start, &target, FX_ONE / 2);
    assert_eq!(blended.position, Vec2Fx { x: FX_ONE / 2, y: FX_ONE });
}
