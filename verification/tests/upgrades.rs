use bullet_hell::faction::UpgradesReceiverFaction;
use bullet_hell::upgrades::apply_upgrade_on_spawn;
use bullet_hell::upgrades::apply_upgrade_to_all;
use bullet_hell::upgrades::should_apply_upgrade;
use bullet_hell::upgrades::AppliedGlobalUpgrades;
use bullet_hell::upgrades::GlobalUpgrade;
use bullet_hell::upgrades::ReceiverEntity;
use bullet_hell::upgrades::Upgrade;
use bullet_hell::upgrades::UpgradeEffect;
use bullet_hell::upgrades::UpgradesReceiver;

fn get_upgrade(factions: UpgradesReceiverFaction) -> GlobalUpgrade {
    GlobalUpgrade {
        receiver_factions: factions,
        upgrade: Upgrade {
            id: 0,
            apply_upgrade: UpgradeEffect::Unimplemented,
            description: "",
            name: "",
            icon_texture: "",
        },
    }
}

fn get_receiver(factions: UpgradesReceiverFaction) -> UpgradesReceiver {
    UpgradesReceiver { factions }
}

#[test]
fn test_should_apply() {
    let player = UpgradesReceiverFaction::player;
    let enemy = UpgradesReceiverFaction::enemy;
    let enemy_bullets = UpgradesReceiverFaction::enemy_bullets;

    assert!(should_apply_upgrade(
        &get_receiver(enemy()),
        &get_upgrade(enemy()),
    ));
    assert!(!should_apply_upgrade(
        &get_receiver(enemy()),
        &get_upgrade(player()),
    ));
    assert!(!should_apply_upgrade(
        &get_receiver(enemy()),
        &get_upgrade(enemy_bullets()),
    ));
    assert!(should_apply_upgrade(
        &get_receiver(enemy()),
        &get_upgrade(enemy().or(player())),
    ));
    assert!(should_apply_upgrade(
        &get_receiver(enemy().or(player())),
        &get_upgrade(enemy().or(player())),
    ));
    assert!(should_apply_upgrade(
        &get_receiver(enemy().or(player())),
        &get_upgrade(enemy()),
    ));
    assert!(!should_apply_upgrade(
        &get_receiver(player()),
        &get_upgrade(enemy().or(enemy_bullets())),
    ));
}

fn custom_upgrade(id: u64) -> GlobalUpgrade {
    GlobalUpgrade {
        receiver_factions: UpgradesReceiverFaction::enemy_bullets(),
        upgrade: Upgrade {
            id,
            apply_upgrade: UpgradeEffect::Unimplemented,
            description: "Test",
            name: "Test",
            icon_texture: "",
        },
    }
}

fn receiver_entity(id: u64, factions: UpgradesReceiverFaction) -> ReceiverEntity {
    ReceiverEntity {
        id,
        receiver: UpgradesReceiver { factions },
        received: Vec::new(),
    }
}

#[test]
fn test_global_upgrades() {
    let enemy = UpgradesReceiverFaction::enemy();
    let player = UpgradesReceiverFaction::player();
    let enemy_bullets = UpgradesReceiverFaction::enemy_bullets();

    let mut entities = vec![
        // Should receive 1
        receiver_entity(1, enemy_bullets),
        // Should receive 2
        receiver_entity(2, enemy_bullets.or(enemy)),
        // Should not receive 1
        receiver_entity(3, enemy),
        // Should not receive 2
        receiver_entity(4, enemy.or(player)),
    ];
    let mut applied = AppliedGlobalUpgrades::new();

    // No entity should have the upgrade before it is applied
    for e in &entities {
        assert!(e.received.is_empty());
    }

    let upgrade = custom_upgrade(99);
    apply_upgrade_to_all(upgrade, &mut entities, &mut applied);

    // Only the entities with the correct factions should receive the upgrade
    assert_eq!(entities[0].received, vec![99]);
    assert_eq!(entities[1].received, vec![99]);
    assert!(entities[2].received.is_empty());
    assert!(entities[3].received.is_empty());

    // The log keeps the upgrade even for entities spawned later
    let mut late_should_receive_1 = receiver_entity(5, enemy_bullets);
    let mut late_should_receive_2 = receiver_entity(6, enemy_bullets.or(enemy));
    let mut late_should_not_receive_1 = receiver_entity(7, enemy);
    let mut late_should_not_receive_2 = receiver_entity(8, enemy.or(player));
    apply_upgrade_on_spawn(&mut late_should_receive_1, &applied);
    apply_upgrade_on_spawn(&mut late_should_receive_2, &applied);
    apply_upgrade_on_spawn(&mut late_should_not_receive_1, &applied);
    apply_upgrade_on_spawn(&mut late_should_not_receive_2, &applied);

    assert_eq!(late_should_receive_1.received, vec![99]);
    assert_eq!(late_should_receive_2.received, vec![99]);
    assert!(late_should_not_receive_1.received.is_empty());
    assert!(late_should_not_receive_2.received.is_empty());
}

#[test]
fn late_join_replay_is_exact() {
    let player = UpgradesReceiverFaction::player();
    let enemy = UpgradesReceiverFaction::enemy();
    let enemy_bullets = UpgradesReceiverFaction::enemy_bullets();

    let mut entities: Vec<ReceiverEntity> = Vec::new();
    let mut applied = AppliedGlobalUpgrades::new();
    apply_upgrade_to_all(get_upgrade_with_id(10, player), &mut entities, &mut applied);
    apply_upgrade_to_all(get_upgrade_with_id(11, enemy), &mut entities, &mut applied);
    apply_upgrade_to_all(
        get_upgrade_with_id(12, player.or(enemy_bullets)),
        &mut entities,
        &mut applied,
    );
    apply_upgrade_to_all(get_upgrade_with_id(13, player), &mut entities, &mut applied);

    // A late-joining player entity catches up on exactly the overlapping
    // entries, oldest first, each exactly once.
    let mut late_player = receiver_entity(42, player);
    apply_upgrade_on_spawn(&mut late_player, &applied);
    assert_eq!(late_player.received, vec![10, 12, 13]);

    // An entity with the empty mask matches nothing.
    let mut empty = receiver_entity(43, UpgradesReceiverFaction::none());
    apply_upgrade_on_spawn(&mut empty, &applied);
    assert!(empty.received.is_empty());
}

fn get_upgrade_with_id(id: u64, factions: UpgradesReceiverFaction) -> GlobalUpgrade {
    GlobalUpgrade {
        receiver_factions: factions,
        upgrade: Upgrade {
            id,
            apply_upgrade: UpgradeEffect::Unimplemented,
            description: "",
            name: "",
            icon_texture: "",
        },
    }
}

#[test]
fn empty_upgrade_mask_matches_no_receiver() {
    let none = UpgradesReceiverFaction::none;
    let all = UpgradesReceiverFaction::player()
        .or(UpgradesReceiverFaction::enemy())
        .or(UpgradesReceiverFaction::enemy_bullets());
    assert!(!should_apply_upgrade(&get_receiver(all), &get_upgrade(none())));
    assert!(!should_apply_upgrade(&get_receiver(none()), &get_upgrade(all)));
    assert!(!should_apply_upgrade(&get_receiver(none()), &get_upgrade(none())));
}

#[test]
fn applied_log_grows_even_without_matches() {
    let mut entities: Vec<ReceiverEntity> = Vec::new();
    let mut applied = AppliedGlobalUpgrades::new();
    apply_upgrade_to_all(
        custom_upgrade(1),
        &mut entities,
        &mut applied,
    );
    apply_upgrade_to_all(
        custom_upgrade(2),
        &mut entities,
        &mut applied,
    );
    assert_eq!(applied.applied_upgrades.len(), 2);
    assert_eq!(applied.applied_upgrades[0].upgrade.id, 1);
    assert_eq!(applied.applied_upgrades[1].upgrade.id, 2);
}
