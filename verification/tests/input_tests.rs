use tabletop_net::{
    update_cursor_position, update_over_ui, update_picking, CursorPosition, OverUI, Vec2Fx,
};

#[test]
fn cursor_takes_newest_motion() {
    let mut pos = CursorPosition::default();
    update_cursor_position(
        &mut pos,
        &vec![Vec2Fx { x: 10, y: 20 }, Vec2Fx { x: 30, y: 40 }],
    );
    assert_eq!(pos.position, Vec2Fx { x: 30, y: 40 });

    // A tick without motions leaves the position alone.
    update_cursor_position(&mut pos, &vec![]);
    assert_eq!(pos.position, Vec2Fx { x: 30, y: 40 });
}

#[test]
fn over_ui_tracks_the_overlay() {
    let mut flag = OverUI::default();
    assert!(!flag.0);
    update_over_ui(&mut flag, true);
    assert!(flag.0);
    update_over_ui(&mut flag, false);
    assert!(!flag.0);
}

#[test]
fn picking_pauses_under_overlay_unless_dragging() {
    assert!(update_picking(&OverUI(false), false));
    assert!(update_picking(&OverUI(false), true));
    assert!(!update_picking(&OverUI(true), false));
    // A token still in flight keeps picking alive under the overlay.
    assert!(update_picking(&OverUI(true), true));
}
