use bullet_hell::collision::bullet_collision;
use bullet_hell::collision::laser_player_collision;
use bullet_hell::collision::player_collision;
use bullet_hell::collision::Bullet;
use bullet_hell::collision::CollisionEvent;
use bullet_hell::config::starting_state;
use bullet_hell::config::DebugConfig;
use bullet_hell::config::GameConfig;
use bullet_hell::dash::handle_active_dash;
use bullet_hell::dash::start_dashing;
use bullet_hell::dash::Dasher;
use bullet_hell::index::Index;
use bullet_hell::input::get_input_direction;
use bullet_hell::laser::Laser;
use bullet_hell::level_end::check_for_animations_end;
use bullet_hell::level_end::post_animations_delay;
use bullet_hell::level_end::register_effects;
use bullet_hell::level_end::reset_animation_state;
use bullet_hell::level_end::Effect;
use bullet_hell::level_end::LevelEndAnimationState;
use bullet_hell::level_end::LevelTransitionEffectsPool;
use bullet_hell::level_end::PostAnimationsDelayTimer;
use bullet_hell::level_end::SpawningAnimation;
use bullet_hell::level_transition::process_upgrade_and_go_to_next_level;
use bullet_hell::level_transition::spawn_level_transition_menu;
use bullet_hell::level_transition::UpgradeOption;
use bullet_hell::menu::activate_action;
use bullet_hell::menu::button_signal;
use bullet_hell::menu::change_selection;
use bullet_hell::menu::get_selected_child;
use bullet_hell::menu::on_menu_spawned;
use bullet_hell::menu::select_action;
use bullet_hell::menu::spawn_menu_ui;
use bullet_hell::menu::Buttons;
use bullet_hell::menu::MenuStack;
use bullet_hell::menu::MultiChoiceButton;
use bullet_hell::menu::MultiChoiceParent;
use bullet_hell::physics_layers;
use bullet_hell::physics_layers::CollisionGroups;
use bullet_hell::player::character_movement;
use bullet_hell::player::player_death;
use bullet_hell::player::setup_player;
use bullet_hell::pool::SelectionsPool;
use bullet_hell::level::on_finished_combat;
use bullet_hell::state::transition_to_defeat;
use bullet_hell::state::AppState;
use bullet_hell::state::GameSignal;
use bullet_hell::timer::GameTimer;
use bullet_hell::upgrades::apply_effect;
use bullet_hell::upgrades::populate_upgrades_pool;
use bullet_hell::upgrades::AppliedGlobalUpgrades;
use bullet_hell::upgrades::EntityStats;
use bullet_hell::upgrades::GlobalUpgrade;
use bullet_hell::upgrades::ReceiverEntity;
use bullet_hell::upgrades::UpgradeEffect;
use bullet_hell::health::Health;
use bullet_hell::vec2::Vec2i;

#[test]
fn index_wraps_both_ways() {
    let mut i = Index::new(4, 0);
    assert_eq!(i.index, 0);
    i.add(1);
    assert_eq!(i.index, 1);
    i.add(-2);
    assert_eq!(i.index, 3);
    i.add(6);
    assert_eq!(i.index, 1);
    i.add(-100);
    assert_eq!(i.index, 1);
    assert_eq!(Index::normalize(4, 11), 3);
    let j = Index::new(3, 7);
    assert_eq!(j.index, 1);
}

#[test]
fn once_timer_edge_fires_exactly_once() {
    let mut t = GameTimer::new(1000, false);
    assert!(!t.tick(999));
    assert!(t.tick(1));
    assert!(t.finished());
    assert!(!t.tick(500));
    t.reset();
    assert!(!t.finished());
    assert!(t.tick(1500));
}

#[test]
fn repeating_timer_wraps() {
    let mut t = GameTimer::new(1000, true);
    assert!(!t.tick(600));
    assert!(t.tick(600));
    assert_eq!(t.elapsed_ms, 200);
    assert!(t.tick(800));
    assert_eq!(t.elapsed_ms, 0);
}

#[test]
fn pool_draw_pads_and_stays_in_pool() {
    let mut pool: SelectionsPool<u64> = SelectionsPool::default();
    pool.add_item(10);
    pool.add_item(20);
    for _ in 0..16 {
        let options = pool.get_multiple_random(3);
        assert_eq!(options.len(), 3);
        let somes: Vec<u64> = options.iter().filter_map(|o| *o).collect();
        assert_eq!(somes.len(), 2);
        assert!(somes.contains(&10));
        assert!(somes.contains(&20));
    }
    // A big enough pool fills every slot, without replacement.
    let mut big: SelectionsPool<u64> = SelectionsPool::default();
    for v in 0..10 {
        big.add_item(v);
    }
    for _ in 0..16 {
        let options = big.get_multiple_random(3);
        let mut somes: Vec<u64> = options.iter().filter_map(|o| *o).collect();
        assert_eq!(somes.len(), 3);
        somes.sort();
        somes.dedup();
        assert_eq!(somes.len(), 3);
        assert!(somes.iter().all(|v| *v < 10));
    }
}

#[test]
fn empty_pool_draw_is_all_placeholders() {
    let pool: SelectionsPool<u64> = SelectionsPool::default();
    let options = pool.get_multiple_random(3);
    assert_eq!(options, vec![None, None, None]);
}

#[test]
fn timer_from_seconds() {
    let t = GameTimer::from_seconds(2, false);
    assert_eq!(t.duration_ms, 2000);
    assert_eq!(t.elapsed_ms, 0);
    assert!(!t.repeating);
}

#[test]
fn lose_event_reaches_defeat_only_from_combat() {
    assert_eq!(transition_to_defeat(AppState::Defending), AppState::Defeat);
    assert_eq!(transition_to_defeat(AppState::ActionMenu), AppState::ActionMenu);
    assert_eq!(transition_to_defeat(AppState::Defeat), AppState::Defeat);
    assert_eq!(
        on_finished_combat(AppState::Defending),
        AppState::LevelEndAnimation
    );
    assert_eq!(on_finished_combat(AppState::Victory), AppState::Victory);
}

#[test]
fn upgrade_pool_holds_the_four_upgrades() {
    let mut pool: SelectionsPool<GlobalUpgrade> = SelectionsPool::default();
    populate_upgrades_pool(&mut pool);
    assert_eq!(pool.len(), 4);
    assert_eq!(pool.get_item(0).upgrade.name, "Apple");
    assert!(matches!(
        pool.get_item(0).upgrade.apply_upgrade,
        UpgradeEffect::AddHealth { amount: 10 }
    ));
    assert_eq!(pool.get_item(1).upgrade.name, "Sword");
    assert_eq!(pool.get_item(2).upgrade.name, "Yellow Boxes");
    assert_eq!(pool.get_item(3).upgrade.name, "Cool Shoes");
    assert!(matches!(
        pool.get_item(3).upgrade.apply_upgrade,
        UpgradeEffect::SpeedBoost
    ));
}

#[test]
fn effects_mutate_stats_as_promised() {
    let mut stats = EntityStats {
        health: Health::new(20),
        speed: 100,
    };
    apply_effect(&UpgradeEffect::AddHealth { amount: 10 }, &mut stats);
    assert_eq!(stats.health.health, 30);
    assert_eq!(stats.health.max_health, 30);
    apply_effect(&UpgradeEffect::SpeedBoost, &mut stats);
    assert_eq!(stats.speed, 110);
    apply_effect(&UpgradeEffect::SpeedBoost, &mut stats);
    assert_eq!(stats.speed, 121);
    let before = stats;
    apply_effect(&UpgradeEffect::Unimplemented, &mut stats);
    apply_effect(&UpgradeEffect::RecolorBullets, &mut stats);
    assert_eq!(stats, before);
}

#[test]
fn player_bullet_contacts_in_either_order() {
    let players = vec![1u64];
    let bullets = vec![(7u64, Bullet { direction: Vec2i::new(0, -1), damage: 5 })];
    let events = vec![
        CollisionEvent::Started(1, 7),
        CollisionEvent::Started(7, 1),
        CollisionEvent::Started(1, 2),
        CollisionEvent::Stopped(1, 7),
    ];
    let (despawns, damage) = player_collision(&events, &players, &bullets);
    assert_eq!(despawns, vec![7, 7]);
    assert_eq!(damage.len(), 2);
    assert_eq!(damage[0].target_entity, 1);
    assert_eq!(damage[0].damage, 5);
    assert_eq!(damage[1].target_entity, 1);
}

#[test]
fn laser_contact_deals_its_damage() {
    let players = vec![1u64];
    let lasers = vec![(9u64, Laser::default())];
    let events = vec![CollisionEvent::Started(9, 1), CollisionEvent::Started(9, 8)];
    let damage = laser_player_collision(&events, &players, &lasers);
    assert_eq!(damage.len(), 1);
    assert_eq!(damage[0].target_entity, 1);
    assert_eq!(damage[0].damage, 5);
}

#[test]
fn sword_destroys_touched_bullets() {
    let swords = vec![3u64];
    let bullets = vec![5u64, 6u64];
    let events = vec![
        CollisionEvent::Started(3, 5),
        CollisionEvent::Started(6, 3),
        CollisionEvent::Started(5, 6),
    ];
    let despawns = bullet_collision(&events, &swords, &bullets);
    assert_eq!(despawns, vec![5, 6]);
}

#[test]
fn dash_masks_bullets_and_restores_groups() {
    let dasher = Dasher {
        dash_amount: 50,
        dash_speed: 200,
    };
    let groups = CollisionGroups::new(physics_layers::PLAYERS, physics_layers::ALL);
    assert!(start_dashing(Vec2i::zero(), &dasher, &groups).is_none());
    let started = start_dashing(Vec2i::new(1, 0), &dasher, &groups).unwrap();
    // 50 units at 200 per second: a quarter second.
    assert_eq!(started.active.timer.duration_ms, 250);
    assert_eq!(started.invulnerability.timer.duration_ms, 250);
    assert_eq!(started.active.linear_velocity, Vec2i::new(200, 0));
    assert_eq!(
        started.dash_collision_groups.filters,
        physics_layers::ALL & !physics_layers::BULLETS
    );
    let mut dash = started.active;
    assert!(handle_active_dash(&mut dash, 249).is_none());
    let restored = handle_active_dash(&mut dash, 1).unwrap();
    assert_eq!(restored, groups);
}

#[test]
fn input_direction_axes_cancel() {
    assert_eq!(get_input_direction(false, false, false, false), Vec2i::zero());
    assert_eq!(get_input_direction(true, false, true, false), Vec2i::new(1, 1));
    assert_eq!(get_input_direction(true, true, false, true), Vec2i::new(-1, 0));
}

#[test]
fn player_setup_and_movement() {
    let config = GameConfig {
        window_width: 800,
        window_height: 600,
        fullscreen: false,
        debug: None,
        infinite_hp: false,
    };
    let bundle = setup_player(&config);
    assert_eq!(bundle.player.speed, 100);
    assert_eq!(bundle.health.health, 20);
    assert_eq!(bundle.dasher.dash_amount, 50);

    let infinite = GameConfig {
        infinite_hp: true,
        ..config
    };
    assert_eq!(setup_player(&infinite).health.health, 100000);

    let step = character_movement(&bundle.player, Vec2i::new(1, -1), 500);
    assert_eq!(step, Vec2i::new(50, -50));
    assert!(!player_death(&bundle.health));
    assert!(player_death(&Health {
        health: 0,
        max_health: 20
    }));
}

#[test]
fn starting_state_honours_debug_override() {
    let base = GameConfig {
        window_width: 800,
        window_height: 600,
        fullscreen: true,
        debug: None,
        infinite_hp: false,
    };
    assert_eq!(starting_state(&base), AppState::ActionMenu);
    let debug = GameConfig {
        debug: Some(DebugConfig {
            starting_state: AppState::Defending,
        }),
        ..base
    };
    assert_eq!(starting_state(&debug), AppState::Defending);
}

#[test]
fn level_end_sequence_phases() {
    assert_eq!(reset_animation_state(), LevelEndAnimationState::Animations);
    assert_eq!(
        check_for_animations_end(2),
        None
    );
    assert_eq!(
        check_for_animations_end(0),
        Some(LevelEndAnimationState::PostAnimationsDelay)
    );
    let mut timer = PostAnimationsDelayTimer::new();
    assert!(!post_animations_delay(&mut timer, 999));
    assert!(post_animations_delay(&mut timer, 1));
    // The timer rearms for the next level's end.
    assert!(!post_animations_delay(&mut timer, 999));
    assert!(post_animations_delay(&mut timer, 1));
}

#[test]
fn effect_pool_draws_registered_effects() {
    let mut pool = LevelTransitionEffectsPool::new();
    register_effects(&mut pool, 101, 102);
    for _ in 0..16 {
        let Effect(id) = pool.get_random();
        assert!(id == 101 || id == 102);
    }
}

#[test]
fn spawning_animation_fades_then_finishes() {
    let mut animation = SpawningAnimation::new(500);
    let (alpha, finished) = animation.spawning_animation_behaviour(250);
    assert_eq!(alpha, 0);
    assert!(!finished);
    let (alpha, finished) = animation.spawning_animation_behaviour(250);
    assert_eq!(alpha, 500);
    assert!(finished);
    let (alpha, finished) = animation.spawning_animation_behaviour(100);
    assert_eq!(alpha, 1000);
    assert!(finished);
}

#[test]
fn menu_stack_and_selection() {
    let mut stack = MenuStack::new();
    assert_eq!(stack.get_current_menu(), None);
    stack.push_menu(5);
    stack.push_menu(6);
    assert_eq!(stack.get_current_menu(), Some(6));
    stack.pop_menu(6);
    assert_eq!(stack.get_current_menu(), None);

    let (mut parent, items) = spawn_menu_ui();
    assert_eq!(
        items,
        vec![Buttons::ATTACK, Buttons::ACT, Buttons::ITEMS, Buttons::RUN]
    );
    assert_eq!(parent.selected.index, 0);
    let children = vec![10u64, 11, 12, 13];
    assert_eq!(get_selected_child(&parent, &children), 10);
    let (deactivated, activated) = change_selection(&mut parent, -1);
    assert_eq!((deactivated, activated), (0, 3));
    assert_eq!(get_selected_child(&parent, &children), 13);

    assert_eq!(select_action(true, false), Some(1));
    assert_eq!(select_action(false, true), Some(-1));
    assert_eq!(select_action(false, false), None);

    let buttons = vec![
        MultiChoiceButton {
            on_selected: Some(77),
            activate: 1,
            deactivate: 2,
        },
        MultiChoiceButton {
            on_selected: None,
            activate: 1,
            deactivate: 2,
        },
    ];
    assert_eq!(activate_action(&buttons, 0), Some(77));
    assert_eq!(activate_action(&buttons, 1), None);

    assert_eq!(on_menu_spawned(3, 1), vec![false, true, false]);

    assert_eq!(button_signal(Buttons::ATTACK), Some(GameSignal::StartSelected));
    assert_eq!(button_signal(Buttons::RUN), None);
}

#[test]
fn upgrade_menu_and_confirmation() {
    let mut pool: SelectionsPool<GlobalUpgrade> = SelectionsPool::default();
    populate_upgrades_pool(&mut pool);
    let (parent, options) = spawn_level_transition_menu(&pool);
    assert_eq!(parent.selected.limit, 3);
    assert_eq!(options.len(), 3);
    for option in &options {
        if let Some(upgrade) = &option.0 {
            assert!((1..=4).contains(&upgrade.upgrade.id));
        }
    }

    let mut entities: Vec<ReceiverEntity> = Vec::new();
    let mut applied = AppliedGlobalUpgrades::new();
    // Confirming a placeholder changes nothing but returns to combat.
    let next = process_upgrade_and_go_to_next_level(
        &UpgradeOption(None),
        &mut entities,
        &mut applied,
    );
    assert_eq!(next, AppState::Defending);
    assert!(applied.applied_upgrades.is_empty());
    // Confirming a drawn upgrade logs it.
    let next = process_upgrade_and_go_to_next_level(
        &UpgradeOption(Some(pool.get_item(0))),
        &mut entities,
        &mut applied,
    );
    assert_eq!(next, AppState::Defending);
    assert_eq!(applied.applied_upgrades.len(), 1);
    assert_eq!(applied.applied_upgrades[0].upgrade.id, 1);
}
