use physim::schedule::{frame_plan, Step};

#[test]
fn plan_for_no_balls_moves_player_then_collects() {
    assert_eq!(frame_plan(0), vec![Step::MovePlayer, Step::Collect]);
}

#[test]
fn plan_for_three_balls() {
    let expected = vec![
        Step::Integrate(0),
        Step::Collide(0, 1),
        Step::Collide(0, 2),
        Step::TouchPlayer(0),
        Step::Integrate(1),
        Step::Collide(1, 2),
        Step::TouchPlayer(1),
        Step::Integrate(2),
        Step::TouchPlayer(2),
        Step::MovePlayer,
        Step::Collect,
    ];
    assert_eq!(frame_plan(3), expected);
}

#[test]
fn plan_tests_every_pair_once() {
    let n = 12;
    let plan = frame_plan(n);
    for a in 0..n {
        for b in 0..n {
            let hits = plan.iter().filter(|s| **s == Step::Collide(a, b)).count();
            assert_eq!(hits, if a < b { 1 } else { 0 });
        }
        assert_eq!(plan.iter().filter(|s| **s == Step::TouchPlayer(a)).count(), 1);
        assert_eq!(plan.iter().filter(|s| **s == Step::Integrate(a)).count(), 1);
    }
    assert_eq!(plan.len(), n + n * (n - 1) / 2 + n + 2);
}
