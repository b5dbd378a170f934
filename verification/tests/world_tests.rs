//! The full tick, the spawners and the state machine.

use asteroids::asteroid::{setup_asteroids, Asteroid, AsteroidSize, ASTEROID_NUM, ASTEROID_VELOCITY};
use asteroids::bullet::Bullet;
use asteroids::heading::{DIR_NORM_SQ_MAX, DIR_NORM_SQ_MIN};
use asteroids::player::{setup_player, Player};
use asteroids::position::Position;
use asteroids::state::{
    pause_continue_game, update_menu_game_state, AppState, MenuButtonAction, MenuState,
};
use asteroids::velocity::Velocity;
use asteroids::world::{tick, AsteroidEntity, BulletEntity, InputState, ShipEntity, World};

fn no_input() -> InputState {
    InputState::none()
}

/// Entering play spawns the configured number of Large asteroids inside
/// the arena, each drifting at the asteroid speed.
#[test]
fn setup_spawns_large_asteroids_in_arena() {
    let mut w = World::new();
    setup_asteroids(&mut w);
    assert_eq!(w.asteroids.len(), ASTEROID_NUM);
    // the drift-speed window brackets the nominal asteroid speed
    assert_eq!(DIR_NORM_SQ_MAX, ASTEROID_VELOCITY * ASTEROID_VELOCITY);
    for a in &w.asteroids {
        assert_eq!(a.asteroid.size, AsteroidSize::Large);
        assert!(-600_000 <= a.pos.x && a.pos.x <= 600_000);
        assert!(-320_000 <= a.pos.y && a.pos.y <= 320_000);
        let n = a.vel.x * a.vel.x + a.vel.y * a.vel.y;
        assert!(DIR_NORM_SQ_MIN <= n && n <= DIR_NORM_SQ_MAX);
    }
}

/// A tick over a cleared field with a live ship reports victory.
#[test]
fn tick_reports_victory_on_cleared_field() {
    let mut w = World::new();
    setup_player(&mut w);
    let ev = tick(&mut w, &no_input());
    assert!(ev.victory);
    assert!(!ev.ship_destroyed);
    assert!(!ev.bullet_fired);
    assert_eq!(ev.asteroids_destroyed, 0);
}

/// A tick with an asteroid on top of the ship reports the loss; the
/// stages still run, so the store is intact for the host's cleanup.
#[test]
fn tick_reports_ship_destroyed() {
    let mut w = World::new();
    setup_player(&mut w);
    w.asteroids.push(AsteroidEntity {
        asteroid: Asteroid { size: AsteroidSize::Large },
        pos: Position { x: 10_000, y: 0 },
        vel: Velocity { x: 0, y: 0 },
    });
    let ev = tick(&mut w, &no_input());
    assert!(ev.ship_destroyed);
    assert!(!ev.victory);
    assert!(w.ship.is_some());
}

/// A fire tick reports the cue and leaves the new bullet in the store.
#[test]
fn tick_fires_a_bullet() {
    let mut w = World::new();
    setup_player(&mut w);
    let ev = tick(
        &mut w,
        &InputState { left: false, right: false, thrust: false, fire: true },
    );
    assert!(ev.bullet_fired);
    assert_eq!(w.bullets.len(), 1);
}

/// A bullet resting on an asteroid: the tick destroys it, scores one
/// point and reports the count.
#[test]
fn tick_scores_a_destroyed_asteroid() {
    let mut w = World::new();
    setup_player(&mut w);
    w.asteroids.push(AsteroidEntity {
        asteroid: Asteroid { size: AsteroidSize::Tiny },
        pos: Position { x: 300_000, y: 0 },
        vel: Velocity { x: 0, y: 0 },
    });
    w.bullets.push(BulletEntity {
        bullet: Bullet { prev_pos: Position { x: 300_000, y: 0 }, dst_traveled: 0 },
        pos: Position { x: 300_000, y: 0 },
        vel: Velocity { x: 0, y: 0 },
    });
    let ev = tick(&mut w, &no_input());
    assert_eq!(ev.asteroids_destroyed, 1);
    assert!(ev.victory);
    assert_eq!(w.score(), 1);
    assert_eq!(w.asteroids.len(), 0);
    assert_eq!(w.bullets.len(), 0);
}

/// The score reads 0 without a ship.
#[test]
fn score_without_ship_is_zero() {
    let w = World::new();
    assert_eq!(w.score(), 0);
}

/// Pause toggling: the pause action flips InGame and Paused.
#[test]
fn pause_toggles_play_states() {
    assert_eq!(pause_continue_game(AppState::InGame, true), AppState::Paused);
    assert_eq!(pause_continue_game(AppState::Paused, true), AppState::InGame);
    assert_eq!(pause_continue_game(AppState::InGame, false), AppState::InGame);
    assert_eq!(pause_continue_game(AppState::Menu, false), AppState::Menu);
}

/// Menu dispatch: Play enters the game, Quit asks to exit.
#[test]
fn menu_actions_dispatch() {
    let play = update_menu_game_state(&MenuButtonAction::Play);
    assert_eq!(play.game_state, Some(AppState::InGame));
    assert_eq!(play.menu_state, Some(MenuState::Disabled));
    assert!(!play.exit);
    let quit = update_menu_game_state(&MenuButtonAction::Quit);
    assert_eq!(quit.game_state, None);
    assert_eq!(quit.menu_state, None);
    assert!(quit.exit);
}

/// A short playthrough: enter play, thrust and shoot through a field of
/// one asteroid while the well-formedness the contracts promise shows up
/// as plain facts: positions stay in the wrap band and speed stays under
/// the ceiling.
#[test]
fn short_playthrough_stays_well_formed() {
    let mut w = World::new();
    setup_player(&mut w);
    w.asteroids.push(AsteroidEntity {
        asteroid: Asteroid { size: AsteroidSize::Small },
        pos: Position { x: -100_000, y: 100_000 },
        vel: Velocity { x: 500, y: -300 },
    });
    let mut lost = false;
    for t in 0..600u32 {
        let input = InputState {
            left: t % 7 == 0,
            right: t % 11 == 0,
            thrust: t % 2 == 0,
            fire: t % 13 == 0,
        };
        let ev = tick(&mut w, &input);
        if let Some(s) = &w.ship {
            assert!(s.vel.x * s.vel.x + s.vel.y * s.vel.y <= 100_000_000);
            assert!(-601_000 <= s.pos.x && s.pos.x <= 601_000);
            assert!(-321_000 <= s.pos.y && s.pos.y <= 321_000);
        }
        for a in &w.asteroids {
            assert!(-601_000 <= a.pos.x && a.pos.x <= 601_000);
            assert!(-321_000 <= a.pos.y && a.pos.y <= 321_000);
        }
        if ev.ship_destroyed || ev.victory {
            lost = ev.ship_destroyed;
            break;
        }
    }
    let _ = lost;
}
