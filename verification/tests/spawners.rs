use bullet_hell::cannon::cannon_behaviour;
use bullet_hell::cannon::spawn_cannon;
use bullet_hell::cannon::spawn_cannon_on_the_right;
use bullet_hell::cannon::spawn_enemy;
use bullet_hell::cannon::spawn_initial_cannons;
use bullet_hell::cannon::spawn_random_stationary_cannon;
use bullet_hell::cannon::spawn_stationary_cannon;
use bullet_hell::cannon::Cannon;
use bullet_hell::cannon::CannonSpawnProperties;
use bullet_hell::cannon::EnemyTypes;
use bullet_hell::faction::ENEMY_BULLETS_BIT;
use bullet_hell::laser::laser_cannon_behavior;
use bullet_hell::laser::laser_alpha_permille;
use bullet_hell::laser::laser_lifecycle;
use bullet_hell::laser::Laser;
use bullet_hell::laser::LaserAction;
use bullet_hell::laser::LaserCannon;
use bullet_hell::laser::LaserState;
use bullet_hell::vec2::Vec2i;
use bullet_hell::wander::wander_behaviour;
use bullet_hell::wander::Wander;
use bullet_hell::wander::WanderDirection;

/// A wandering spawner lands exactly on its destination on the tick where
/// the step would overshoot, and reverses on that same tick.
#[test]
fn wander_lands_exactly_and_reverses() {
    let mut wander = Wander {
        start: -100,
        end: 100,
        speed: 50,
        direction: WanderDirection::ToEnd,
    };
    // 90 units from the destination; one second covers 50 of them.
    let mut pos: i64 = 10;
    wander_behaviour(&mut wander, &mut pos, 1000);
    assert_eq!(pos, 60);
    assert_eq!(wander.direction, WanderDirection::ToEnd);
    // The next 50-unit step would overshoot the 40 left: exact landing,
    // reversed heading, same tick.
    wander_behaviour(&mut wander, &mut pos, 1000);
    assert_eq!(pos, 100);
    assert_eq!(wander.direction, WanderDirection::ToStart);
    // And it walks back, never past the endpoint.
    wander_behaviour(&mut wander, &mut pos, 1000);
    assert_eq!(pos, 50);
    assert_eq!(wander.direction, WanderDirection::ToStart);
}

/// A step that exactly reaches the destination does not yet reverse; the
/// following tick does, without moving past.
#[test]
fn wander_exact_arrival_then_flip() {
    let mut wander = Wander {
        start: 0,
        end: 50,
        speed: 50,
        direction: WanderDirection::ToEnd,
    };
    let mut pos: i64 = 0;
    wander_behaviour(&mut wander, &mut pos, 1000);
    assert_eq!(pos, 50);
    assert_eq!(wander.direction, WanderDirection::ToEnd);
    wander_behaviour(&mut wander, &mut pos, 1000);
    assert_eq!(pos, 50);
    assert_eq!(wander.direction, WanderDirection::ToStart);
}

#[test]
fn cannon_fires_on_its_repeating_boundary() {
    let mut cannon = Cannon::new(EnemyTypes::SmallBullet, Vec2i::new(1, 0), 1000);
    assert!(cannon_behaviour(&mut cannon, Vec2i::new(5, 6), 999).is_none());
    let fired = cannon_behaviour(&mut cannon, Vec2i::new(5, 6), 1).unwrap();
    assert_eq!(fired.position, Vec2i::new(5, 6));
    assert_eq!(fired.direction, Vec2i::new(1, 0));
    assert_eq!(fired.properties.damage, 5);
    assert_eq!(fired.properties.size, 4);
    assert_eq!(fired.properties.speed, 200);
    assert_eq!(fired.factions.bits, ENEMY_BULLETS_BIT);
    // Repeating: it fires again a full period later.
    assert!(cannon_behaviour(&mut cannon, Vec2i::new(5, 6), 999).is_none());
    assert!(cannon_behaviour(&mut cannon, Vec2i::new(5, 6), 1).is_some());
}

#[test]
fn bullet_kinds_have_their_properties() {
    let cannon = Cannon::new(EnemyTypes::BigBullet, Vec2i::new(0, -1), 2000);
    let big = spawn_enemy(&cannon, Vec2i::zero(), EnemyTypes::BigBullet);
    assert_eq!(big.properties.damage, 10);
    assert_eq!(big.properties.size, 16);
    assert_eq!(big.properties.speed, 50);
    let small = spawn_enemy(&cannon, Vec2i::zero(), EnemyTypes::SmallBullet);
    assert_eq!(small.properties.damage, 5);
}

#[test]
fn cannon_placements() {
    let initial = spawn_initial_cannons();
    assert_eq!(initial.len(), 2);
    assert_eq!(initial[0].start, Vec2i::new(-100, -40));
    assert_eq!(initial[0].end, Vec2i::new(-100, 40));
    assert_eq!(initial[0].shooting_direction, Vec2i::new(1, 0));
    assert_eq!(initial[1].start, Vec2i::new(-40, 70));

    let moving = spawn_cannon(initial[0]);
    assert!(moving.wanders_vertically);
    assert_eq!(moving.wander.start, -40);
    assert_eq!(moving.wander.end, 40);
    assert_eq!(moving.wander.speed, 50);
    assert_eq!(moving.fixed_coordinate, -100);
    assert_eq!(moving.cannon.spawned_enemy_type, EnemyTypes::SmallBullet);

    let right = spawn_cannon_on_the_right();
    assert_eq!(right.start, Vec2i::new(100, -40));
    assert_eq!(right.shooting_direction, Vec2i::new(-1, 0));

    let stationary = spawn_stationary_cannon(right);
    assert_eq!(stationary.spawned_enemy_type, EnemyTypes::BigBullet);
    assert_eq!(stationary.shooting_timer.duration_ms, 2000);
}

#[test]
fn random_corner_cannon_is_one_of_four() {
    let corners = [
        CannonSpawnProperties {
            start: Vec2i::new(100, 70),
            end: Vec2i::zero(),
            shooting_direction: Vec2i::new(-1, -1),
        },
        CannonSpawnProperties {
            start: Vec2i::new(-100, 70),
            end: Vec2i::zero(),
            shooting_direction: Vec2i::new(1, -1),
        },
        CannonSpawnProperties {
            start: Vec2i::new(100, -70),
            end: Vec2i::zero(),
            shooting_direction: Vec2i::new(-1, 1),
        },
        CannonSpawnProperties {
            start: Vec2i::new(-100, -70),
            end: Vec2i::zero(),
            shooting_direction: Vec2i::new(1, 1),
        },
    ];
    for _ in 0..32 {
        let picked = spawn_random_stationary_cannon();
        assert!(corners.contains(&picked));
    }
}

/// The laser's collider is enabled exactly while it fires: switched on when
/// the wind-up ends, off when firing ends, despawned after the wind-down.
#[test]
fn laser_three_phase_lifecycle() {
    let laser = Laser::default();
    let mut state = LaserState::WindingUp(bullet_hell::timer::GameTimer {
        duration_ms: 1000,
        elapsed_ms: 0,
        repeating: false,
    });
    assert_eq!(laser_lifecycle(&laser, &mut state, 400), LaserAction::Continue);
    assert_eq!(laser_alpha_permille(&state), 400);
    assert_eq!(laser_lifecycle(&laser, &mut state, 600), LaserAction::EnableCollider);
    assert!(matches!(state, LaserState::Active(_)));
    assert_eq!(laser_alpha_permille(&state), 1000);
    assert_eq!(laser_lifecycle(&laser, &mut state, 1999), LaserAction::Continue);
    assert_eq!(laser_lifecycle(&laser, &mut state, 1), LaserAction::DisableCollider);
    assert!(matches!(state, LaserState::WindingDown(_)));
    assert_eq!(laser_lifecycle(&laser, &mut state, 125), LaserAction::Continue);
    assert_eq!(laser_alpha_permille(&state), 500);
    assert_eq!(laser_lifecycle(&laser, &mut state, 125), LaserAction::Despawn);
}

#[test]
fn laser_cannon_spawns_beam_once() {
    let mut cannon = LaserCannon::new(1000);
    assert!(laser_cannon_behavior(&mut cannon, 999).is_none());
    let (laser, state) = laser_cannon_behavior(&mut cannon, 1).unwrap();
    assert_eq!(laser.winding_up_ms, 1000);
    assert_eq!(laser.active_ms, 2000);
    assert_eq!(laser.winding_down_ms, 250);
    assert_eq!(laser.damage, 5);
    assert!(matches!(state, LaserState::WindingUp(_)));
    // A once timer: no second beam.
    assert!(laser_cannon_behavior(&mut cannon, 5000).is_none());
}
