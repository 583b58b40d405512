use physim::frame::{react, FrameInput};
use physim::spawn::{ball_color, BallDraws, BallSeed, NUM_OF_BALLS};
use physim::window::Color;

fn draws(x: u32, y: u32, speed: u32, elasticity: u32, color: u32, direction: u32) -> BallDraws {
    BallDraws { x, y, speed, elasticity, color, direction }
}

#[test]
fn seed_takes_cells_modulo_world() {
    let s = BallSeed::from_draws(draws(30, 7, 5, 95, 1, 1), 27, 20);
    assert_eq!(s.cell_x, 3);
    assert_eq!(s.cell_y, 7);
    assert_eq!(s.speed, 5);
    assert_eq!(s.elasticity_percent, 95);
    assert_eq!(s.color_index, 1);
}

#[test]
fn seed_speed_has_a_floor_and_even_direction_flips() {
    let slow = BallSeed::from_draws(draws(0, 0, 17, 99, 0, 4), 10, 10);
    assert_eq!(slow.speed, -2);
    let zero = BallSeed::from_draws(draws(0, 0, 16, 99, 0, 3), 10, 10);
    assert_eq!(zero.speed, 2);
    let fast = BallSeed::from_draws(draws(0, 0, 15, 99, 0, 0), 10, 10);
    assert_eq!(fast.speed, -15);
}

#[test]
fn seed_elasticity_has_a_floor() {
    let low = BallSeed::from_draws(draws(0, 0, 3, 250, 0, 1), 10, 10);
    assert_eq!(low.elasticity_percent, 92);
    let high = BallSeed::from_draws(draws(0, 0, 3, 199, 0, 1), 10, 10);
    assert_eq!(high.elasticity_percent, 99);
}

#[test]
fn seed_color_wraps_palette() {
    let s = BallSeed::from_draws(draws(0, 0, 3, 0, 6, 1), 10, 10);
    assert_eq!(s.color_index, 2);
    assert!(ball_color(s.color_index) == Color { r: 102, g: 191, b: 255, a: 255 });
    assert!(ball_color(0) == Color { r: 255, g: 109, b: 194, a: 255 });
    assert!(ball_color(3) == Color { r: 253, g: 249, b: 0, a: 255 });
}

#[test]
fn seed_in_one_cell_world() {
    let s = BallSeed::from_draws(draws(u32::MAX, u32::MAX, u32::MAX, u32::MAX, u32::MAX, u32::MAX), 1, 1);
    assert_eq!((s.cell_x, s.cell_y), (0, 0));
    assert_eq!(s.speed, 15);
    assert_eq!(s.elasticity_percent, 95);
    assert_eq!(s.color_index, 3);
}

#[test]
fn batch_seeds_each_draw_in_order() {
    let all = vec![draws(1, 2, 3, 93, 0, 1), draws(11, 12, 0, 10, 1, 2)];
    let seeds = BallSeed::batch(&all, 10, 10);
    assert_eq!(seeds.len(), 2);
    assert!(seeds[0] == BallSeed::from_draws(all[0], 10, 10));
    assert!(seeds[1] == BallSeed { cell_x: 1, cell_y: 2, speed: -2, elasticity_percent: 92, color_index: 1 });
    assert!(BallSeed::batch(&Vec::new(), 3, 3).is_empty());
}

#[test]
fn reset_replaces_ball_batch() {
    let orders = react(true, FrameInput { reset_pressed: true, toggle_pressed: false, resized: false });
    assert!(orders.respawn);
    let fresh: Vec<BallDraws> = (0..NUM_OF_BALLS as u32).map(|k| draws(k, k * 3, k, k, k, k)).collect();
    let seeds = BallSeed::batch(&fresh, 27, 20);
    assert_eq!(seeds.len(), NUM_OF_BALLS);
    assert_eq!(seeds.len(), 256);
    assert!(seeds.iter().all(|s| s.cell_x < 27 && s.cell_y < 20));
}
