use komari::editing::{
    add_fixed_action, add_platform, can_queue_to_front, delete_fixed_action, delete_platform,
    edit_fixed_action, edit_mobbing_bound, edit_mobbing_key, edit_platform, mobbing_bound,
    mobbing_key_disabled, move_fixed_action, record_platform_key, set_configuration_linked,
    set_key_linked,
    set_key_position, set_key_positioned, toggle_fixed_action,
};
use komari::keys::{KeyBinding, KeyBindingConfiguration};
use komari::maps::{MinimapData, MobbingKey, RotationMode};
use komari::models::{
    ActionCondition, ActionConfiguration, ActionConfigurationCondition, ActionKey, Bound,
    FamiliarRarity, FamiliarsConfiguration, Platform, Settings,
};

fn fixed(key: KeyBinding, condition: ActionConfigurationCondition) -> ActionConfiguration {
    ActionConfiguration {
        key,
        condition,
        ..Default::default()
    }
}

#[test]
fn fixed_actions_are_edited_in_place() {
    let mut actions = Vec::new();
    add_fixed_action(&mut actions, fixed(KeyBinding::A, ActionConfigurationCondition::EveryMillis(5)));
    add_fixed_action(&mut actions, fixed(KeyBinding::B, ActionConfigurationCondition::Linked));
    add_fixed_action(&mut actions, fixed(KeyBinding::C, ActionConfigurationCondition::EveryMillis(9)));
    edit_fixed_action(&mut actions, 2, fixed(KeyBinding::D, ActionConfigurationCondition::Linked));
    toggle_fixed_action(&mut actions, 0, true);
    assert!(actions[0].enabled);
    assert_eq!(actions[2].key, KeyBinding::D);
    delete_fixed_action(&mut actions, 1);
    assert_eq!(
        actions.iter().map(|a| a.key).collect::<Vec<_>>(),
        vec![KeyBinding::A, KeyBinding::D]
    );
}

#[test]
fn moving_a_fixed_action_to_the_top_unlinks_it() {
    let mut actions = vec![
        fixed(KeyBinding::A, ActionConfigurationCondition::EveryMillis(5)),
        fixed(KeyBinding::B, ActionConfigurationCondition::Linked),
        fixed(KeyBinding::C, ActionConfigurationCondition::Linked),
    ];
    move_fixed_action(&mut actions, 2, 0);
    assert_eq!(actions[0].key, KeyBinding::C);
    assert_eq!(
        actions[0].condition,
        ActionConfigurationCondition::EveryMillis(0)
    );
    assert_eq!(actions[1].key, KeyBinding::A);

    move_fixed_action(&mut actions, 0, 3);
    assert_eq!(actions[2].key, KeyBinding::C);
    assert_eq!(actions.len(), 3);
}

#[test]
fn platforms_are_edited_by_index() {
    let mut map = MinimapData::default();
    let p = Platform {
        x_start: 1,
        x_end: 5,
        y: 3,
    };
    add_platform(&mut map, p);
    add_platform(&mut map, p);
    assert!(edit_platform(
        &mut map,
        1,
        Platform {
            x_start: 7,
            x_end: 9,
            y: 3
        }
    ));
    assert!(!edit_platform(&mut map, 2, p));
    delete_platform(&mut map, 0);
    assert_eq!(
        map.platforms,
        vec![Platform {
            x_start: 7,
            x_end: 9,
            y: 3
        }]
    );
}

#[test]
fn mobbing_bound_follows_the_rotation_mode() {
    let bound = Bound {
        x: 1,
        y: 2,
        width: 3,
        height: 4,
    };
    let mut map = MinimapData::default();
    assert!(!edit_mobbing_bound(&mut map, bound));
    assert!(mobbing_key_disabled(map.rotation_mode));

    map.rotation_mode = RotationMode::PingPong;
    assert!(edit_mobbing_bound(&mut map, bound));
    assert_eq!(map.rotation_ping_pong_bound, bound);
    assert_eq!(mobbing_bound(&map), bound);
    assert!(!mobbing_key_disabled(map.rotation_mode));

    map.rotation_mode = RotationMode::AutoMobbing;
    assert_eq!(mobbing_bound(&map), map.rotation_auto_mob_bound);

    let key = MobbingKey {
        key: KeyBinding::S,
        count: 4,
        ..Default::default()
    };
    edit_mobbing_key(&mut map, key);
    assert_eq!(map.rotation_mobbing_key, key);
}

fn recording_settings() -> Settings {
    Settings {
        platform_start_key: KeyBindingConfiguration {
            key: KeyBinding::J,
            enabled: true,
        },
        platform_end_key: KeyBindingConfiguration {
            key: KeyBinding::K,
            enabled: true,
        },
        platform_add_key: KeyBindingConfiguration {
            key: KeyBinding::L,
            enabled: true,
        },
        ..Default::default()
    }
}

#[test]
fn recorded_platforms_are_at_least_one_unit_wide() {
    let settings = recording_settings();
    let platform = Platform {
        x_start: 0,
        x_end: 0,
        y: 0,
    };

    let started = record_platform_key(platform, KeyBinding::J, &settings, 20, 7);
    assert_eq!(
        started.platform,
        Platform {
            x_start: 20,
            x_end: 21,
            y: 7
        }
    );
    assert_eq!(started.added, None);

    let ended = record_platform_key(started.platform, KeyBinding::K, &settings, 35, 7);
    assert_eq!(ended.platform.x_end, 35);

    let added = record_platform_key(ended.platform, KeyBinding::L, &settings, 99, 99);
    assert_eq!(
        added.added,
        Some(Platform {
            x_start: 20,
            x_end: 35,
            y: 7
        })
    );

    let other = record_platform_key(ended.platform, KeyBinding::M, &settings, 1, 1);
    assert_eq!(other.platform, ended.platform);
    assert_eq!(other.added, None);
}

#[test]
fn key_action_form_choices() {
    let action = ActionKey {
        key: KeyBinding::R,
        condition: ActionCondition::EveryMillis(900),
        queue_to_front: Some(true),
        ..Default::default()
    };
    let linked = set_key_linked(action, true, ActionCondition::EveryMillis(900));
    assert_eq!(linked.condition, ActionCondition::Linked);
    assert_eq!(linked.queue_to_front, None);
    let unlinked = set_key_linked(linked, false, ActionCondition::EveryMillis(900));
    assert_eq!(unlinked.condition, ActionCondition::EveryMillis(900));

    assert_eq!(set_key_position(action, 3, 4).position, None);
    let placed = set_key_positioned(action, true);
    let moved = set_key_position(placed, 3, 4).position.unwrap();
    assert_eq!((moved.x, moved.y, moved.x_random_range), (3, 4, 0));
    assert_eq!(set_key_positioned(placed, false).position, None);

    assert!(can_queue_to_front(ActionCondition::EveryMillis(1)));
    assert!(can_queue_to_front(ActionCondition::ErdaShowerOffCooldown));
    assert!(!can_queue_to_front(ActionCondition::Any));
    assert!(!can_queue_to_front(ActionCondition::Linked));
}

#[test]
fn familiar_rarities_are_a_set() {
    let mut familiars = FamiliarsConfiguration::default();
    assert!(!familiars.allows(FamiliarRarity::Rare));
    familiars.set_allowed(FamiliarRarity::Rare, true);
    familiars.set_allowed(FamiliarRarity::Rare, true);
    familiars.set_allowed(FamiliarRarity::Epic, true);
    assert_eq!(
        familiars.swappable_rarities,
        vec![FamiliarRarity::Rare, FamiliarRarity::Epic]
    );
    familiars.set_allowed(FamiliarRarity::Rare, false);
    assert!(!familiars.allows(FamiliarRarity::Rare));
    assert!(familiars.allows(FamiliarRarity::Epic));
    assert_eq!(familiars.swappable_rarities, vec![FamiliarRarity::Epic]);
}

#[test]
fn fixed_action_linked_choice() {
    let action = ActionConfiguration {
        key: KeyBinding::T,
        condition: ActionConfigurationCondition::EveryMillis(700),
        ..Default::default()
    };
    let linked = set_configuration_linked(action, true, action.condition);
    assert_eq!(linked.condition, ActionConfigurationCondition::Linked);
    assert_eq!(linked.key, KeyBinding::T);
    let back = set_configuration_linked(linked, false, action.condition);
    assert_eq!(back, action);
}

#[test]
fn fixed_action_random_ranges_carry_over() {
    let action = ActionConfiguration {
        wait_before_millis: 10,
        wait_before_millis_random_range: 20,
        wait_after_millis: 30,
        wait_after_millis_random_range: 40,
        ..Default::default()
    };
    match action.to_action() {
        komari::models::Action::Key(key) => {
            assert_eq!(key.wait_before_use_millis, 10);
            assert_eq!(key.wait_before_use_millis_random_range, 20);
            assert_eq!(key.wait_after_use_millis, 30);
            assert_eq!(key.wait_after_use_millis_random_range, 40);
        }
        komari::models::Action::Move(_) => panic!("expected a key action"),
    }
}

#[test]
fn end_key_records_at_the_far_right() {
    let settings = recording_settings();
    let platform = Platform {
        x_start: 5,
        x_end: 6,
        y: 1,
    };
    let ended = record_platform_key(platform, KeyBinding::K, &settings, i32::MAX, 2);
    assert_eq!(ended.platform.x_end, i32::MAX);
    assert_eq!(ended.platform.y, 2);
}

#[test]
fn map_edits_touch_only_their_field() {
    let mut map = MinimapData {
        rune_platforms_pathing: true,
        rotation_mode: RotationMode::AutoMobbing,
        ..Default::default()
    };
    let before = map.clone();
    add_platform(
        &mut map,
        Platform {
            x_start: 0,
            x_end: 2,
            y: 0,
        },
    );
    assert_eq!(
        MinimapData {
            platforms: before.platforms.clone(),
            ..map.clone()
        },
        before
    );
}
