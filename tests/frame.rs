use physim::frame::{grid_cells, react, FrameInput, FrameOrders};

#[test]
fn toggle_flips_background() {
    let input = FrameInput { reset_pressed: false, toggle_pressed: true, resized: false };
    assert!(react(true, input) == FrameOrders { respawn: false, show_background: false, refresh_screen: false });
    assert!(react(false, input).show_background);
}

#[test]
fn quiet_frame_changes_nothing() {
    let input = FrameInput { reset_pressed: false, toggle_pressed: false, resized: false };
    assert!(react(true, input) == FrameOrders { respawn: false, show_background: true, refresh_screen: false });
}

#[test]
fn resize_and_reset_are_passed_on() {
    let input = FrameInput { reset_pressed: true, toggle_pressed: false, resized: true };
    let orders = react(false, input);
    assert!(orders.respawn);
    assert!(orders.refresh_screen);
    assert!(!orders.show_background);
}

#[test]
fn grid_is_row_major() {
    assert_eq!(grid_cells(3, 2), vec![(0, 0), (1, 0), (2, 0), (0, 1), (1, 1), (2, 1)]);
    assert!(grid_cells(0, 5).is_empty());
    assert!(grid_cells(4, 0).is_empty());
    let cells = grid_cells(27, 20);
    assert_eq!(cells.len(), 540);
    assert_eq!(cells[539], (26, 19));
}
