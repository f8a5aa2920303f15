use fishcart::player::{spray_step, FishSpawn, Player};
use fishcart::scoring::{apply_fate, cart_fate, score_frame, CartFate, CartObs};
use fishcart::spawner::CartSpawner;
use fishcart::text::score_text;
use fishcart::timer::RepeatTimer;
use fishcart::world::{cart_blueprint, fish_blueprint, ground_collider, ground_tile_x_milli};

#[test]
fn timer_fires_once_per_period() {
    let mut t = RepeatTimer::new(40_000);
    assert_eq!(t.tick(39_999), 0);
    assert_eq!(t.tick(1), 1);
    assert_eq!(t.elapsed_us, 0);
}

#[test]
fn timer_keeps_remainder_across_frames() {
    let mut t = RepeatTimer::new(40_000);
    assert_eq!(t.tick(50_000), 1);
    assert_eq!(t.elapsed_us, 10_000);
    assert_eq!(t.tick(30_000), 1);
    assert_eq!(t.elapsed_us, 0);
}

#[test]
fn timer_rate_does_not_depend_on_framing() {
    // The same 200 ms of play, split into frames three different ways,
    // always yields five expiries of a 40 ms timer.
    let framings: [&[u64]; 3] = [
        &[200_000],
        &[10_000; 20],
        &[35_000, 5_000, 60_000, 100_000],
    ];
    for deltas in framings {
        let mut t = RepeatTimer::new(40_000);
        let mut fires: u64 = 0;
        for &d in deltas {
            fires += t.tick(d);
        }
        assert_eq!(fires, 5);
    }
}

#[test]
fn spawner_period_is_five_seconds() {
    let mut s = CartSpawner::new();
    assert!(!s.tick(4_999_999));
    assert!(s.tick(1));
    assert!(!s.tick(2_000_000));
    assert!(s.tick(3_000_000));
}

#[test]
fn offsets_cycle_through_four_values_in_order() {
    let mut p = Player::new();
    let mut seen = Vec::new();
    for _ in 0..8 {
        seen.push(p.next_offset());
    }
    assert_eq!(
        seen,
        vec![-10_000, 10_000, 30_000, -30_000, -10_000, 10_000, 30_000, -30_000]
    );
}

#[test]
fn spray_without_cursor_does_nothing() {
    let mut p = Player::new();
    let (x, spawn) = spray_step(&mut p, 123_000, 300_000, None, true, 40_000);
    assert_eq!(x, 123_000);
    assert!(spawn.is_none());
    // The frame is skipped whole: even the cooldown did not advance.
    assert_eq!(p.hose_timer.elapsed_us, 0);
    assert_eq!(p.offset_index, 0);
}

#[test]
fn spray_spawns_when_timer_fires_and_button_held() {
    let mut p = Player::new();
    let (x, spawn) = spray_step(&mut p, 0, 300_000, Some(500_000), true, 40_000);
    assert_eq!(x, 500_000);
    assert_eq!(
        spawn,
        Some(FishSpawn { x_milli: 500_000 - 10_000, y_milli: 300_000 - 28_000 })
    );
    assert_eq!(p.offset_index, 1);
}

#[test]
fn spray_moves_player_but_holds_fire_without_button() {
    let mut p = Player::new();
    let (x, spawn) = spray_step(&mut p, 0, 300_000, Some(-42_000), false, 40_000);
    assert_eq!(x, -42_000);
    assert!(spawn.is_none());
    // The cooldown still advanced; only the spawn was withheld.
    assert_eq!(p.hose_timer.elapsed_us, 0);
    assert_eq!(p.offset_index, 0);
}

#[test]
fn spray_waits_out_the_cooldown() {
    let mut p = Player::new();
    let (_, spawn) = spray_step(&mut p, 0, 300_000, Some(0), true, 39_999);
    assert!(spawn.is_none());
    let (_, spawn) = spray_step(&mut p, 0, 300_000, Some(0), true, 1);
    assert!(spawn.is_some());
}

#[test]
fn overfilled_cart_breaks_and_score_floors_at_zero() {
    // capacity 15, live count 20: the cart breaks and 20 comes off the
    // score, floored at zero.
    let c = CartObs { capacity: 15, count: 20, x_milli: 0 };
    assert_eq!(cart_fate(&c), CartFate::Breaks);
    assert_eq!(apply_fate(10, &c), 0);
    assert_eq!(apply_fate(25, &c), 5);
    assert_eq!(apply_fate(20, &c), 0);
}

#[test]
fn finishing_cart_scores_its_count() {
    // capacity 15, live count 5, x = 760: the cart finishes and scores 5.
    let c = CartObs { capacity: 15, count: 5, x_milli: 760_000 };
    assert_eq!(cart_fate(&c), CartFate::Finishes);
    assert_eq!(apply_fate(0, &c), 5);
    assert_eq!(apply_fate(11, &c), 16);
}

#[test]
fn breaking_takes_precedence_over_finishing() {
    let c = CartObs { capacity: 15, count: 20, x_milli: 760_000 };
    assert_eq!(cart_fate(&c), CartFate::Breaks);
    assert_eq!(apply_fate(100, &c), 80);
}

#[test]
fn cart_on_the_finish_line_has_not_crossed_it() {
    let c = CartObs { capacity: 15, count: 5, x_milli: 750_000 };
    assert_eq!(cart_fate(&c), CartFate::Stays);
    assert_eq!(apply_fate(7, &c), 7);
}

#[test]
fn empty_cart_never_breaks() {
    // A cart with no fish never breaks, whatever its capacity.
    let c = CartObs { capacity: 0, count: 0, x_milli: 0 };
    assert_eq!(cart_fate(&c), CartFate::Stays);
}

#[test]
fn frame_processes_carts_in_order() {
    let carts = vec![
        CartObs { capacity: 15, count: 20, x_milli: 100_000 },
        CartObs { capacity: 15, count: 5, x_milli: 760_000 },
        CartObs { capacity: 15, count: 3, x_milli: 0 },
    ];
    let (score, fates) = score_frame(10, &carts);
    // 10 drops to 0 on the break, then the finisher adds 5.
    assert_eq!(score, 5);
    assert_eq!(fates, vec![CartFate::Breaks, CartFate::Finishes, CartFate::Stays]);
}

#[test]
fn frame_with_no_carts_keeps_the_score() {
    let (score, fates) = score_frame(42, &Vec::new());
    assert_eq!(score, 42);
    assert!(fates.is_empty());
}

#[test]
fn score_text_renders_zero() {
    assert_eq!(score_text(0), "Score: 0");
}

#[test]
fn score_text_renders_all_digits() {
    assert_eq!(score_text(1_234_567_890), "Score: 1234567890");
    assert_eq!(score_text(15), "Score: 15");
    assert_eq!(score_text(u64::MAX), "Score: 18446744073709551615");
}

#[test]
fn cart_blueprint_matches_the_level() {
    let b = cart_blueprint();
    assert_eq!(b.spawn_x_milli, -650_000);
    assert_eq!(b.spawn_y_milli, -241_000);
    assert_eq!(b.velocity_x_milli, 100_000);
    assert_eq!(b.capacity, 15);
    assert_eq!(b.basin.half_width_milli, 80_000);
    assert_eq!(b.left_wall.center_x_milli, -85_000);
    assert_eq!(b.right_wall.center_x_milli, 85_000);
    assert_eq!(b.floor.center_y_milli, -60_000);
}

#[test]
fn fish_blueprint_matches_the_level() {
    let b = fish_blueprint();
    assert_eq!(b.capsule_half_length_milli, 10_000);
    assert_eq!(b.capsule_radius_milli, 10_000);
    assert_eq!(b.restitution_milli, 700);
    assert_eq!(b.friction_milli, 80);
    assert_eq!(b.impulse_y_milli, -250);
    assert_eq!(b.gravity_scale, 10);
}

#[test]
fn ground_runs_across_the_screen() {
    let g = ground_collider();
    assert_eq!(g.center_y_milli, -337_000);
    assert_eq!(g.half_width_milli, 800_000);
    assert_eq!(ground_tile_x_milli(0), -576_000);
    assert_eq!(ground_tile_x_milli(1), -448_000);
    assert_eq!(ground_tile_x_milli(9), 576_000);
}
