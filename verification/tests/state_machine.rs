use bullet_hell::game::Game;
use bullet_hell::health::CombatEntity;
use bullet_hell::health::CombatWorld;
use bullet_hell::health::Health;
use bullet_hell::level::CurrentLevelConfig;
use bullet_hell::level::LevelConfig;
use bullet_hell::level::LevelTimer;
use bullet_hell::metagame::GameStep;
use bullet_hell::metagame::LabelTone;
use bullet_hell::metagame::MetagameProgression;
use bullet_hell::metagame::StepLabel;
use bullet_hell::metagame::steps_to_strings;
use bullet_hell::metagame::update_text_on_level_transition;
use bullet_hell::state::next_state;
use bullet_hell::state::resolve_defending;
use bullet_hell::state::AppState;
use bullet_hell::state::GameSignal;

#[test]
fn transitions_follow_the_table() {
    assert_eq!(
        next_state(AppState::ActionMenu, GameSignal::StartSelected),
        AppState::Defending
    );
    assert_eq!(
        next_state(AppState::Defending, GameSignal::CombatFinished),
        AppState::LevelEndAnimation
    );
    assert_eq!(
        next_state(AppState::Defending, GameSignal::PlayerDefeated),
        AppState::Defeat
    );
    assert_eq!(
        next_state(AppState::LevelEndAnimation, GameSignal::AnimationsFinished),
        AppState::LevelTransition
    );
    assert_eq!(
        next_state(AppState::LevelTransition, GameSignal::NextStepIsLevel),
        AppState::Defending
    );
    assert_eq!(
        next_state(AppState::LevelTransition, GameSignal::NextStepIsShop),
        AppState::LevelTransition
    );
    assert_eq!(
        next_state(AppState::LevelTransition, GameSignal::ProgressionComplete),
        AppState::Victory
    );
}

#[test]
fn irrelevant_signals_are_ignored_and_terminals_hold() {
    assert_eq!(
        next_state(AppState::ActionMenu, GameSignal::CombatFinished),
        AppState::ActionMenu
    );
    assert_eq!(
        next_state(AppState::LevelEndAnimation, GameSignal::StartSelected),
        AppState::LevelEndAnimation
    );
    for signal in [
        GameSignal::StartSelected,
        GameSignal::PlayerDefeated,
        GameSignal::CombatFinished,
        GameSignal::AnimationsFinished,
        GameSignal::NextStepIsLevel,
        GameSignal::NextStepIsShop,
        GameSignal::ProgressionComplete,
    ] {
        assert_eq!(next_state(AppState::Defeat, signal), AppState::Defeat);
        assert_eq!(next_state(AppState::Victory, signal), AppState::Victory);
    }
}

#[test]
fn defeat_takes_precedence_over_level_completion() {
    assert_eq!(
        resolve_defending(AppState::Defending, true, true),
        AppState::Defeat
    );
    assert_eq!(
        resolve_defending(AppState::Defending, false, true),
        AppState::LevelEndAnimation
    );
    assert_eq!(
        resolve_defending(AppState::Defending, false, false),
        AppState::Defending
    );
}

fn game_in(state: AppState) -> Game {
    let mut world = CombatWorld::new();
    world.spawn(CombatEntity {
        id: 1,
        health: Health::new(20),
        invulnerability: None,
    });
    Game {
        state,
        world,
        level_timer: LevelTimer::new(15000),
        player_id: 1,
        pending_damage: Vec::new(),
    }
}

/// Combat systems never run outside the defending state: a tick in any
/// other state changes nothing, even with damage pending.
#[test]
fn combat_gated_on_defending_state() {
    for state in [
        AppState::ActionMenu,
        AppState::LevelEndAnimation,
        AppState::LevelTransition,
        AppState::Defeat,
        AppState::Victory,
    ] {
        let mut game = game_in(state);
        game.request_damage(1, 5);
        let out = game.game_tick(100);
        assert_eq!(game.state, state);
        assert_eq!(game.world.entities[0].health.health, 20);
        assert_eq!(game.pending_damage.len(), 1);
        assert!(out.notifications.is_empty());
        assert!(out.expired.is_empty());
    }
}

/// While defending, a tick drains the mailbox once and applies the damage.
#[test]
fn defending_tick_drains_damage_once() {
    let mut game = game_in(AppState::Defending);
    game.request_damage(1, 5);
    game.request_damage(1, 5);
    let out = game.game_tick(16);
    assert_eq!(out.notifications.len(), 1);
    assert_eq!(game.world.entities[0].health.health, 15);
    assert!(game.pending_damage.is_empty());
    assert_eq!(game.state, AppState::Defending);
    let out = game.game_tick(16);
    assert!(out.notifications.is_empty());
    assert_eq!(game.world.entities[0].health.health, 15);
}

/// The player's death moves the machine to defeat, and wins over the level
/// timer elapsing on the same tick.
#[test]
fn death_tick_reaches_defeat() {
    let mut game = game_in(AppState::Defending);
    game.request_damage(1, 25);
    let out = game.game_tick(15000);
    assert_eq!(out.notifications.len(), 1);
    assert_eq!(game.world.entities[0].health.health, -5);
    assert_eq!(game.state, AppState::Defeat);
}

/// The level timer elapsing while alive finishes the level.
#[test]
fn timer_tick_reaches_level_end() {
    let mut game = game_in(AppState::Defending);
    let _ = game.game_tick(14999);
    assert_eq!(game.state, AppState::Defending);
    let _ = game.game_tick(1);
    assert_eq!(game.state, AppState::LevelEndAnimation);
}

#[test]
fn progression_walks_to_victory() {
    let mut progression = MetagameProgression::new();
    let mut config = CurrentLevelConfig(LevelConfig { duration_ms: 1000 });

    // Step 0 is a fifteen-second level.
    let next = progression.start_game(&mut config);
    assert_eq!(next, AppState::Defending);
    assert_eq!(config.0.duration_ms, 15000);
    assert_eq!(progression.current_level, 1);

    // Steps: shop, two ten-second levels, shop, final thirty-second level.
    assert_eq!(progression.on_finished_step(&mut config), AppState::LevelTransition);
    assert_eq!(progression.on_finished_step(&mut config), AppState::Defending);
    assert_eq!(config.0.duration_ms, 10000);
    assert_eq!(progression.on_finished_step(&mut config), AppState::Defending);
    assert_eq!(progression.on_finished_step(&mut config), AppState::LevelTransition);
    assert_eq!(progression.on_finished_step(&mut config), AppState::Defending);
    assert_eq!(config.0.duration_ms, 30000);
    assert_eq!(progression.current_level, 4);

    // The last step completes: victory, and the progression stays put.
    assert_eq!(progression.on_finished_step(&mut config), AppState::Victory);
    assert_eq!(progression.current_step_index, 5);
    assert_eq!(progression.current_level, 4);
}

#[test]
fn step_labels_number_levels_from_one() {
    let progression = MetagameProgression::new();
    let labels = steps_to_strings(progression.iter_levels());
    assert_eq!(
        labels,
        vec![
            StepLabel::Level(1),
            StepLabel::Shop,
            StepLabel::Level(2),
            StepLabel::Level(3),
            StepLabel::Shop,
            StepLabel::Level(4),
        ]
    );
    let shops = progression
        .iter_levels()
        .iter()
        .filter(|s| matches!(s, GameStep::UpgradeShop))
        .count();
    assert_eq!(shops, 2);
}

#[test]
fn sidebar_tones_split_around_current_step() {
    assert_eq!(update_text_on_level_transition(0, 2), LabelTone::Done);
    assert_eq!(update_text_on_level_transition(2, 2), LabelTone::Current);
    assert_eq!(update_text_on_level_transition(3, 2), LabelTone::Upcoming);
}
