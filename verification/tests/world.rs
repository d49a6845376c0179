use breakout::ball::BallHitState;
use breakout::bullet::BulletHitState;
use breakout::level::Level;
use breakout::paddle::Paddle;
use breakout::paddle::PaddleStep;
use breakout::powerup::PowerupHitState;
use breakout::powerup::PowerupKind;
use breakout::tile::Tile;
use breakout::world::keep_once;
use breakout::world::trail_amount;
use breakout::world::Frame;
use breakout::world::Lives;
use breakout::world::PowerupEvent;
use breakout::world::World;
use breakout::world::WorldUpdateReturn;

fn level_with(tiles: &[(usize, Tile)]) -> Level {
    let mut level = Level::new();
    for (i, t) in tiles {
        level.set_tile(*i, *t);
    }
    level
}

fn quiet_frame() -> Frame {
    Frame {
        fire: false,
        release: false,
        carry_key: false,
        ball_hits: vec![],
        bullet_hits: vec![],
        powerups: vec![],
    }
}

fn caught(kind: PowerupKind) -> PowerupEvent {
    PowerupEvent { kind, state: PowerupHitState::Paddle }
}

fn falling(kind: PowerupKind) -> PowerupEvent {
    PowerupEvent { kind, state: PowerupHitState::Nothing }
}

#[test]
fn new_world_starts_with_defaults() {
    let world = World::new(level_with(&[(0, Tile::Red)]), None, Lives::Default, None);
    assert_eq!(world.score(), 0);
    assert_eq!(world.lives(), Lives::Count(2));
    assert_eq!(world.carries(), 0);
    assert!(world.paddle().carrying());
    assert!(!world.level_complete());
    let world = World::new(Level::new(), Some(250), Lives::Infinite, Some(2));
    assert_eq!(world.score(), 250);
    assert_eq!(world.lives(), Lives::Infinite);
    assert_eq!(world.carries(), 2);
    assert!(world.level_complete());
    let world = World::new(Level::new(), None, Lives::Count(7), None);
    assert_eq!(world.lives(), Lives::Count(7));
}

#[test]
fn level_complete_ignores_metal_and_gold() {
    let world = World::with_cadence(level_with(&[(1, Tile::Metal), (2, Tile::Gold)]), None, Lives::Default, None, 0);
    assert!(world.level_complete());
    let world = World::with_cadence(level_with(&[(1, Tile::Metal), (350, Tile::Stone)]), None, Lives::Default, None, 0);
    assert!(!world.level_complete());
}

#[test]
fn losing_the_last_ball_costs_one_life_and_grants_a_ball() {
    let mut world = World::with_cadence(level_with(&[(0, Tile::Red)]), None, Lives::Default, None, 3);
    let start = world.begin_frame(16, false, true);
    assert!(start.released);
    assert!(!world.paddle().carrying());
    let end = world.finish_frame(&vec![], 0, 0);
    assert_eq!(end.result, WorldUpdateReturn::Nothing);
    assert!(end.carry_new);
    assert_eq!(world.lives(), Lives::Count(1));
    assert!(world.paddle().carrying());
    let again = world.finish_frame(&vec![], 0, 0);
    assert!(!again.carry_new);
    assert_eq!(world.lives(), Lives::Count(1));
}

#[test]
fn losing_the_last_ball_through_update() {
    let mut world = World::with_cadence(level_with(&[(0, Tile::Red)]), None, Lives::Default, None, 3);
    let mut frame = quiet_frame();
    frame.release = true;
    let out = world.update(16, &frame);
    assert!(out.start.released);
    assert_eq!(out.end.result, WorldUpdateReturn::Nothing);
    assert!(out.end.carry_new);
    assert_eq!(world.lives(), Lives::Count(1));
    assert!(world.paddle().carrying());
}

#[test]
fn losing_the_last_ball_without_lives_is_game_over() {
    let mut world = World::with_cadence(level_with(&[(0, Tile::Red)]), None, Lives::Count(0), None, 3);
    world.begin_frame(16, false, true);
    let end = world.finish_frame(&vec![], 0, 0);
    assert_eq!(end.result, WorldUpdateReturn::GameOver);
    assert!(!end.carry_new);
    assert_eq!(world.lives(), Lives::Count(0));
    assert!(!world.paddle().carrying());
}

#[test]
fn gun_bullets_and_powerups_put_game_over_off() {
    let level = level_with(&[(0, Tile::Red)]);
    let mut world = World::with_cadence(level.clone(), None, Lives::Count(0), None, 3);
    world.begin_frame(16, false, true);
    assert_eq!(world.finish_frame(&vec![], 0, 1).result, WorldUpdateReturn::Nothing);
    assert_eq!(world.finish_frame(&vec![falling(PowerupKind::PaddleGun)], 0, 0).result, WorldUpdateReturn::Nothing);
    assert_eq!(world.finish_frame(&vec![falling(PowerupKind::BallsFive)], 0, 0).result, WorldUpdateReturn::Nothing);
    assert_eq!(world.finish_frame(&vec![falling(PowerupKind::PaddleGrow)], 0, 0).result, WorldUpdateReturn::GameOver);

    let mut world = World::with_cadence(level, None, Lives::Count(0), None, 3);
    world.begin_frame(16, false, true);
    let end = world.finish_frame(&vec![caught(PowerupKind::PaddleGun)], 0, 0);
    assert_eq!(end.result, WorldUpdateReturn::Nothing);
    assert!(world.paddle().has_gun_powerup());
    assert_eq!(world.finish_frame(&vec![], 0, 0).result, WorldUpdateReturn::Nothing);
    world.begin_frame(7_000, false, false);
    assert!(!world.paddle().has_gun_powerup());
    assert_eq!(world.finish_frame(&vec![], 0, 0).result, WorldUpdateReturn::GameOver);
}

#[test]
fn a_finished_level_costs_no_life() {
    let mut world = World::with_cadence(Level::new(), None, Lives::Count(0), None, 3);
    world.begin_frame(16, false, true);
    let end = world.finish_frame(&vec![], 0, 0);
    assert_eq!(end.result, WorldUpdateReturn::Nothing);
    assert!(!end.carry_new);
    assert_eq!(world.lives(), Lives::Count(0));
}

#[test]
fn infinite_lives_always_grant_a_ball() {
    let mut world = World::with_cadence(level_with(&[(0, Tile::Red)]), None, Lives::Infinite, None, 3);
    world.begin_frame(16, false, true);
    let end = world.finish_frame(&vec![], 0, 0);
    assert!(end.carry_new);
    assert_eq!(world.lives(), Lives::Infinite);
    assert!(world.paddle().carrying());
}

#[test]
fn balls_in_play_or_waiting_keep_the_lives() {
    let mut world = World::with_cadence(level_with(&[(0, Tile::Red)]), None, Lives::Default, None, 3);
    world.begin_frame(16, false, true);
    assert!(!world.finish_frame(&vec![], 1, 0).carry_new);
    world.dispense_angled_balls(5);
    assert!(!world.finish_frame(&vec![], 0, 0).carry_new);
    assert_eq!(world.lives(), Lives::Count(2));
}

#[test]
fn breaking_tiles_scores_and_runs_the_drop_counter() {
    let level = level_with(&[(0, Tile::Red), (1, Tile::Stone), (2, Tile::Metal), (3, Tile::Blue), (4, Tile::Pink)]);
    let mut world = World::with_cadence(level, None, Lives::Default, None, 1);
    assert!(!world.break_tile_with(2, 4));
    assert_eq!(world.score(), 0);
    assert!(!world.break_tile_with(1, 4));
    assert_eq!(world.score(), 0);
    assert_eq!(world.level().tiles()[1], Tile::StoneCracked);
    assert!(!world.break_tile_with(0, 4));
    assert_eq!(world.score(), 10);
    assert!(!world.break_tile_with(0, 4));
    assert_eq!(world.score(), 10);
    assert!(world.break_tile_with(3, 1));
    assert_eq!(world.score(), 20);
    assert!(!world.break_tile_with(4, 9));
    assert_eq!(world.score(), 30);
    assert!(world.break_tile_with(1, 9));
    assert_eq!(world.score(), 40);
    assert!(!world.break_tile_with(400, 9));
    assert!(world.level_complete());
}

#[test]
fn the_drop_counter_is_set_anew_within_its_range() {
    let mut level = Level::new();
    for i in 0..300 {
        level.set_tile(i, Tile::Red);
    }
    let mut world = World::with_cadence(level, None, Lives::Default, None, 0);
    let mut since_drop = 0;
    let mut drops = 0;
    for i in 0..300 {
        match world.break_tile(i) {
            Some(p) => {
                assert_eq!(p.tile_index(), i);
                if drops > 0 {
                    assert!((2..5).contains(&since_drop));
                }
                drops += 1;
                since_drop = 0;
            }
            None => since_drop += 1,
        }
    }
    assert!(drops >= 60);
    assert_eq!(world.score(), 3000);
}

#[test]
fn score_stops_at_the_largest_number() {
    let mut world = World::with_cadence(level_with(&[(0, Tile::Red)]), Some(usize::MAX - 3), Lives::Default, None, 1);
    world.break_tile_with(0, 2);
    assert_eq!(world.score(), usize::MAX);
}

#[test]
fn resolve_hits_breaks_each_tile_once_and_sorts_the_balls() {
    let level = level_with(&[(0, Tile::Red), (1, Tile::Red), (2, Tile::Red)]);
    let mut world = World::with_cadence(level, None, Lives::Default, Some(1), 5);
    world.begin_frame(16, false, true);
    let ball_hits = vec![
        BallHitState::Tiles(vec![0, 1]),
        BallHitState::Floor,
        BallHitState::Paddle,
        BallHitState::Tiles(vec![1]),
        BallHitState::Paddle,
        BallHitState::Floor,
        BallHitState::Nothing,
    ];
    let bullet_hits = vec![BulletHitState::Nothing, BulletHitState::Tile(0), BulletHitState::Roof, BulletHitState::Tile(2)];
    let out = world.resolve_hits(&ball_hits, &bullet_hits, true);
    assert_eq!(out.remove_balls, vec![1, 5]);
    assert_eq!(out.carried, Some(2));
    assert_eq!(out.remove_bullets, vec![1, 2, 3]);
    assert!(out.spawned.is_empty());
    assert_eq!(world.score(), 30);
    assert!(world.level_complete());
    assert!(world.paddle().carrying());
    assert_eq!(world.carries(), 0);
}

#[test]
fn the_paddle_catches_only_with_a_spare_and_the_key() {
    let mut world = World::with_cadence(Level::new(), None, Lives::Default, Some(1), 5);
    world.begin_frame(16, false, true);
    let hits = vec![BallHitState::Paddle];
    assert_eq!(world.resolve_hits(&hits, &vec![], false).carried, None);
    assert_eq!(world.resolve_hits(&hits, &vec![], true).carried, Some(0));
    world.begin_frame(16, false, true);
    assert_eq!(world.resolve_hits(&hits, &vec![], true).carried, None);
    assert_eq!(world.carries(), 0);
}

#[test]
fn a_tile_at_counter_zero_drops_a_powerup() {
    let mut world = World::with_cadence(level_with(&[(40, Tile::Cyan)]), None, Lives::Default, None, 0);
    let out = world.resolve_hits(&vec![BallHitState::Tiles(vec![40, 40])], &vec![], false);
    assert_eq!(out.spawned.len(), 1);
    assert_eq!(out.spawned[0].tile_index(), 40);
    assert_eq!(world.score(), 10);
}

#[test]
fn pickups_score_and_take_effect() {
    let mut world = World::with_cadence(level_with(&[(0, Tile::Red)]), None, Lives::Default, None, 3);
    let events = vec![
        caught(PowerupKind::PaddleCarry),
        falling(PowerupKind::PaddleGun),
        caught(PowerupKind::BallsFive),
        PowerupEvent { kind: PowerupKind::PaddleGrow, state: PowerupHitState::Floor },
        caught(PowerupKind::BallsTrail),
        caught(PowerupKind::BallsSafe),
        caught(PowerupKind::Zap),
    ];
    let end = world.finish_frame(&events, 3, 0);
    assert_eq!(end.remove_powerups, vec![0, 2, 3, 4, 5, 6]);
    assert_eq!(end.new_batches, 1);
    assert!(end.trail);
    assert!(!end.carry_new);
    assert_eq!(world.score(), 75);
    assert_eq!(world.carries(), 1);
    assert!(world.paddle().balls_safe());
    assert!(!world.paddle().has_gun_powerup());
    assert_eq!(world.paddle().width(), 20);
}

#[test]
fn carry_powerups_fill_up_to_three_spares() {
    let mut world = World::with_cadence(Level::new(), None, Lives::Default, Some(2), 3);
    world.finish_frame(&vec![caught(PowerupKind::PaddleCarry), caught(PowerupKind::PaddleCarry)], 1, 0);
    assert_eq!(world.carries(), 3);
}

#[test]
fn a_batch_lets_one_ball_go_every_quarter_second() {
    let mut world = World::with_cadence(Level::new(), None, Lives::Default, None, 3);
    world.dispense_angled_balls(2);
    assert_eq!(world.begin_frame(10, false, false).dispensed, vec![0]);
    assert_eq!(world.begin_frame(100, false, false).dispensed, Vec::<usize>::new());
    assert_eq!(world.begin_frame(149, false, false).dispensed, Vec::<usize>::new());
    assert_eq!(world.begin_frame(1, false, false).dispensed, vec![0]);
    assert_eq!(world.begin_frame(250, false, false).dispensed, Vec::<usize>::new());
}

#[test]
fn a_stuck_ball_is_reported_once() {
    let mut world = World::with_cadence(level_with(&[(0, Tile::Red)]), None, Lives::Default, None, 3);
    world.begin_frame(30_000, false, true);
    assert_eq!(world.finish_frame(&vec![], 1, 0).result, WorldUpdateReturn::Nothing);
    world.begin_frame(29_999, false, false);
    assert_eq!(world.finish_frame(&vec![], 1, 0).result, WorldUpdateReturn::Nothing);
    world.begin_frame(1, false, false);
    assert_eq!(world.finish_frame(&vec![], 1, 0).result, WorldUpdateReturn::BallStuck);
    assert_eq!(world.finish_frame(&vec![], 1, 0).result, WorldUpdateReturn::Nothing);
}

#[test]
fn a_ball_on_the_paddle_starts_the_stuck_timer_over() {
    let mut world = World::with_cadence(level_with(&[(0, Tile::Red)]), None, Lives::Default, None, 3);
    world.begin_frame(16, false, true);
    world.begin_frame(29_000, false, false);
    world.resolve_hits(&vec![BallHitState::Paddle], &vec![], false);
    world.begin_frame(29_000, false, false);
    assert_eq!(world.finish_frame(&vec![], 1, 0).result, WorldUpdateReturn::Nothing);
    world.begin_frame(1_000, false, false);
    assert_eq!(world.finish_frame(&vec![], 1, 0).result, WorldUpdateReturn::BallStuck);
}

#[test]
fn update_runs_a_whole_frame() {
    let level = level_with(&[(5, Tile::Red), (6, Tile::Stone)]);
    let mut world = World::with_cadence(level, None, Lives::Default, None, 2);
    let frame = Frame {
        fire: true,
        release: true,
        carry_key: false,
        ball_hits: vec![BallHitState::Tiles(vec![5, 6]), BallHitState::Floor],
        bullet_hits: vec![BulletHitState::Roof],
        powerups: vec![caught(PowerupKind::PaddleGun)],
    };
    let out = world.update(16, &frame);
    assert!(!out.start.fired);
    assert!(out.start.released);
    assert_eq!(out.hits.remove_balls, vec![1]);
    assert_eq!(out.hits.remove_bullets, vec![0]);
    assert_eq!(out.hits.carried, None);
    assert!(out.hits.spawned.is_empty());
    assert_eq!(out.end.remove_powerups, vec![0]);
    assert_eq!(out.end.result, WorldUpdateReturn::Nothing);
    assert_eq!(world.score(), 25);
    assert_eq!(world.level().tiles()[5], Tile::Air);
    assert_eq!(world.level().tiles()[6], Tile::StoneCracked);
    let mut next = quiet_frame();
    next.fire = true;
    assert!(world.update(16, &next).start.fired);
    assert!(!world.update(16, &next).start.fired);
}

#[test]
fn paddle_timers_run_down() {
    let mut paddle = Paddle::new(Some(2));
    assert_eq!(paddle.carries(), 2);
    assert!(paddle.carrying());
    assert!(!paddle.can_carry(true));
    paddle.powerup_gun();
    paddle.powerup_grow();
    paddle.powerup_balls_safe();
    assert_eq!(paddle.width(), 40);
    assert_eq!(paddle.update(100, true, false), PaddleStep { fired: true, released: false });
    assert_eq!(paddle.update(299, true, false), PaddleStep { fired: false, released: false });
    assert_eq!(paddle.update(1, true, true), PaddleStep { fired: true, released: true });
    assert_eq!(paddle.update(1, false, true), PaddleStep { fired: false, released: false });
    assert!(paddle.can_carry(true));
    assert!(!paddle.can_carry(false));
    paddle.carry();
    assert_eq!(paddle.carries(), 1);
    assert!(paddle.carrying());
    assert!(paddle.balls_safe_display());
    paddle.update(6_598, false, false);
    assert!(paddle.has_gun_powerup());
    assert!(paddle.balls_safe());
    paddle.update(1, true, false);
    assert!(!paddle.has_gun_powerup());
    assert!(!paddle.balls_safe());
    assert!(!paddle.balls_safe_display());
    assert_eq!(paddle.width(), 40);
    paddle.update(8_000, false, false);
    assert_eq!(paddle.width(), 20);
}

#[test]
fn the_safety_net_blinks_before_it_ends() {
    let mut paddle = Paddle::new(None);
    paddle.powerup_balls_safe();
    paddle.update(5_600, false, false);
    assert!(!paddle.balls_safe_display());
    paddle.update(100, false, false);
    assert!(paddle.balls_safe_display());
    paddle.carry_new();
    assert!(paddle.carrying());
    paddle.carry();
    assert_eq!(paddle.carries(), 0);
}

#[test]
fn trail_adds_four_balls_each_up_to_twenty() {
    assert_eq!(trail_amount(0), 0);
    assert_eq!(trail_amount(1), 4);
    assert_eq!(trail_amount(4), 16);
    assert_eq!(trail_amount(5), 20);
    assert_eq!(trail_amount(usize::MAX), 20);
}

#[test]
fn a_free_ball_is_put_on_the_paddle() {
    let mut world = World::with_cadence(Level::new(), None, Lives::Default, None, 3);
    world.begin_frame(16, false, true);
    assert!(!world.paddle().carrying());
    world.give_free_ball();
    assert!(world.paddle().carrying());
    assert_eq!(world.lives(), Lives::Count(2));
}

#[test]
fn a_tile_marked_twice_in_a_frame_is_hit_once() {
    let level = level_with(&[(7, Tile::Stone), (8, Tile::Green), (9, Tile::Stone)]);
    let mut world = World::with_cadence(level, None, Lives::Default, None, 5);
    let balls = vec![BallHitState::Tiles(vec![7, 8]), BallHitState::Tiles(vec![7, 8, 8])];
    let bullets = vec![BulletHitState::Tile(7), BulletHitState::Tile(9), BulletHitState::Tile(8)];
    let out = world.resolve_hits(&balls, &bullets, false);
    assert_eq!(world.level().tiles()[7], Tile::StoneCracked);
    assert_eq!(world.level().tiles()[8], Tile::Air);
    assert_eq!(world.level().tiles()[9], Tile::StoneCracked);
    assert_eq!(world.score(), 10);
    assert_eq!(out.remove_bullets, vec![0, 1, 2]);
    assert!(out.spawned.is_empty());
    world.resolve_hits(&vec![BallHitState::Tiles(vec![7])], &vec![BulletHitState::Tile(7)], false);
    assert_eq!(world.level().tiles()[7], Tile::Air);
    assert_eq!(world.score(), 20);
}

#[test]
fn two_balls_on_one_stone_through_update() {
    let mut world = World::with_cadence(level_with(&[(3, Tile::Stone)]), Some(40), Lives::Default, None, 0);
    let mut frame = quiet_frame();
    frame.ball_hits = vec![BallHitState::Tiles(vec![3]), BallHitState::Tiles(vec![3])];
    let out = world.update(16, &frame);
    assert_eq!(world.level().tiles()[3], Tile::StoneCracked);
    assert_eq!(world.score(), 40);
    assert!(out.hits.spawned.is_empty());
}

#[test]
fn marks_are_kept_at_their_first_place() {
    assert_eq!(keep_once(&vec![4, 2, 4, 9, 2, 2, 0, 9]), vec![4, 2, 9, 0]);
    assert_eq!(keep_once(&vec![]), Vec::<usize>::new());
    assert_eq!(keep_once(&vec![5, 5, 5]), vec![5]);
}
