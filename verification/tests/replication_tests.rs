use tabletop_net::{
    update_replicated_cursor_position, update_token_position, update_velocity, ChatHistory,
    ChatMessage, Cursor, DeselectMessage, EntityBody, EntityMap, HostWorld, Player,
    SelectorDiceVelocity, SendMessage, SharedAsset, Token, Vec2Fx, FX_ONE,
};

fn player(name: &str, color: [u8; 3]) -> Player {
    Player { name: name.to_owned(), color }
}

#[test]
fn player_updates_fold_in_order_last_wins() {
    let mut world = HostWorld::new();
    world.apply_player_updates(&vec![
        (1, player("Ann", [1, 2, 3])),
        (2, player("Ben", [4, 5, 6])),
        (1, player("Anna", [7, 8, 9])),
    ]);
    let p1 = world.players.get(1).unwrap();
    assert_eq!(p1.name, "Anna");
    assert_eq!(p1.color, [7, 8, 9]);
    let p2 = world.players.get(2).unwrap();
    assert_eq!(p2.name, "Ben");
}

#[test]
fn connects_join_set_and_emit_events_in_order() {
    let mut world = HostWorld::new();
    let events = world.process_connects(&vec![4, 9]);
    assert!(world.clients.contains(4));
    assert!(world.clients.contains(9));
    assert_eq!(events, vec![ChatMessage::Connected(4), ChatMessage::Connected(9)]);
}

#[test]
fn chat_lines_are_stamped_with_their_sender() {
    let mut world = HostWorld::new();
    let events = world.process_chat(vec![
        (1, SendMessage("hi".to_owned())),
        (2, SendMessage("hello".to_owned())),
    ]);
    assert_eq!(
        events,
        vec![
            ChatMessage::Message(1, "hi".to_owned()),
            ChatMessage::Message(2, "hello".to_owned()),
        ]
    );
}

#[test]
fn disconnect_retires_owned_entities_same_tick() {
    let mut world = HostWorld::new();
    world.process_connects(&vec![1, 2]);
    world.replicate_cursors(Some(1), 0, Cursor::default());
    world.replicate_cursors(Some(2), 0, Cursor::default());
    let token_id = world.spawn_tokens(
        Token { position: Vec2Fx { x: 0, y: 0 }, layer: 15 * FX_ONE },
        SharedAsset::new(77),
    );
    assert_eq!(world.entities.len(), 3);

    let events = world.process_disconnects(&vec![1]);
    assert_eq!(events, vec![ChatMessage::Disconnected(1)]);
    assert!(!world.clients.contains(1));
    assert!(world.clients.contains(2));
    // Every entity owned by client 1 is gone; everything else survives.
    assert_eq!(world.entities.len(), 2);
    assert!(world.entities.iter().all(|e| e.owner != Some(1)));
    assert!(world.entities.iter().any(|e| e.owner == Some(2)));
    assert!(world.entities.iter().any(|e| e.net_id == token_id && e.owner.is_none()));
}

#[test]
fn one_tick_drains_queues_in_fixed_order() {
    let mut world = HostWorld::new();
    let broadcasts = world.recieve_message(
        &vec![(1, player("Ann", [1, 2, 3]))],
        &vec![1, 2],
        vec![(1, SendMessage("hi".to_owned()))],
        &vec![2],
    );
    assert_eq!(
        broadcasts,
        vec![
            ChatMessage::Connected(1),
            ChatMessage::Connected(2),
            ChatMessage::Message(1, "hi".to_owned()),
            ChatMessage::Disconnected(2),
        ]
    );
    assert!(world.clients.contains(1));
    assert!(!world.clients.contains(2));
    assert_eq!(world.players.get(1).unwrap().name, "Ann");
}

#[test]
fn host_stamps_cursor_owner_itself() {
    let mut world = HostWorld::new();
    // A cursor replicated by client 5: the transport's sender id wins.
    let a = world.replicate_cursors(Some(5), 9, Cursor::default());
    // The host's own local cursor: stamped with the host's client id.
    let b = world.replicate_cursors(None, 9, Cursor::default());
    assert_ne!(a, b);
    assert_eq!(world.entities[0].owner, Some(5));
    assert_eq!(world.entities[1].owner, Some(9));
    assert!(matches!(world.entities[0].body, EntityBody::CursorBody(_)));
}

#[test]
fn chat_history_appends_in_arrival_order() {
    let mut history = ChatHistory::new();
    history.recieve_message(vec![ChatMessage::Connected(1)]);
    history.recieve_message(vec![
        ChatMessage::Message(1, "hi".to_owned()),
        ChatMessage::Disconnected(1),
    ]);
    assert_eq!(
        history.0,
        vec![
            ChatMessage::Connected(1),
            ChatMessage::Message(1, "hi".to_owned()),
            ChatMessage::Disconnected(1),
        ]
    );
}

#[test]
fn deselect_remaps_entity_references() {
    let mut table = EntityMap::new();
    table.insert(40, 7);
    let translated = DeselectMessage::Entity(40).map_entities(&table);
    assert_eq!(translated, Some(DeselectMessage::Entity(7)));
    let everything = DeselectMessage::Everything.map_entities(&table);
    assert_eq!(everything, Some(DeselectMessage::Everything));
    // A reference to an entity unknown here makes the order inapplicable.
    assert_eq!(DeselectMessage::Entity(41).map_entities(&table), None);
}

#[test]
fn deselect_drops_selections() {
    let mut moving = vec![3, 5, 8];
    tabletop_net::drop_moving_tokens(&mut moving, &DeselectMessage::Entity(5));
    assert_eq!(moving, vec![3, 8]);
    tabletop_net::drop_moving_tokens(&mut moving, &DeselectMessage::Everything);
    assert!(moving.is_empty());
}

#[test]
fn easing_exact_half_step() {
    // One whole world unit away, easing by half the gap.
    let mut shown = Vec2Fx { x: 0, y: 0 };
    let token = Token { position: Vec2Fx { x: FX_ONE, y: -FX_ONE }, layer: 0 };
    update_token_position(&mut shown, &token, FX_ONE / 2);
    assert_eq!(shown, Vec2Fx { x: FX_ONE / 2, y: -FX_ONE / 2 });
}

#[test]
fn easing_full_fraction_snaps_to_target() {
    let mut shown = Vec2Fx { x: 123, y: -456 };
    let cursor = Cursor { position: Vec2Fx { x: 1000, y: 2000 } };
    update_replicated_cursor_position(&mut shown, &cursor, FX_ONE);
    assert_eq!(shown, cursor.position);
}

#[test]
fn easing_converges_monotonically_without_overshoot() {
    let target = Cursor { position: Vec2Fx { x: 5 * FX_ONE, y: 0 } };
    let mut shown = Vec2Fx { x: 0, y: 0 };
    let mut gap = target.position.x - shown.x;
    for _ in 0..200 {
        update_replicated_cursor_position(&mut shown, &target, FX_ONE / 4);
        let new_gap = target.position.x - shown.x;
        // Never overshoots, never moves away.
        assert!(new_gap >= 0);
        assert!(new_gap <= gap);
        gap = new_gap;
    }
    // After many steps the shown position has closed in on the target.
    assert!(gap < FX_ONE / 256);
}

#[test]
fn dice_velocity_decays_toward_zero() {
    let mut velocity = SelectorDiceVelocity(Vec2Fx { x: 4 * FX_ONE, y: -3 * FX_ONE });

    // No elapsed ticks: nothing decays.
    update_velocity(&mut velocity, 0);
    assert_eq!(velocity.0, Vec2Fx { x: 4 * FX_ONE, y: -3 * FX_ONE });

    let mut last = velocity.0;
    for _ in 0..20 {
        update_velocity(&mut velocity, 1);
        assert!(velocity.0.x.abs() <= last.x.abs());
        assert!(velocity.0.y.abs() <= last.y.abs());
        assert!(velocity.0.x >= 0 && velocity.0.y <= 0);
        last = velocity.0;
    }
    assert!(velocity.0.x < 4 * FX_ONE);
    assert!(velocity.0.y > -3 * FX_ONE);
}
