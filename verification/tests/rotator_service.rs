use komari::buff::BuffKind;
use komari::keys::{KeyBinding, KeyBindingConfiguration, KeyKind};
use komari::maps::{MinimapData, RotationMode};
use komari::models::{
    Action, ActionCondition, ActionConfiguration, ActionConfigurationCondition, ActionKey, Bound,
    Character, EliteBossBehavior, FamiliarRarity, PotionMode, Settings, SwappableFamiliars,
};
use komari::services::rotator::{
    actions_from, buffs_from, rotator_mode_from, DefaultRotatorService, RotatorMode,
    RotatorService,
};

fn key_of(action: &Action) -> (KeyBinding, ActionCondition) {
    match action {
        Action::Key(key) => (key.key, key.condition),
        Action::Move(_) => panic!("expected a key action"),
    }
}

#[test]
fn update_rotator_mode() {
    let mut minimap = MinimapData {
        rotation_auto_mob_bound: Bound {
            x: 1,
            y: 1,
            width: 1,
            height: 1,
        },
        rotation_ping_pong_bound: Bound {
            x: 1,
            y: 1,
            width: 1,
            height: 1,
        },
        ..Default::default()
    };
    let character = Character::default();
    let service = DefaultRotatorService::default();

    for mode in [
        RotationMode::StartToEnd,
        RotationMode::StartToEndThenReverse,
        RotationMode::AutoMobbing,
        RotationMode::PingPong,
    ] {
        minimap.rotation_mode = mode;
        let args = service.apply(Some(&minimap), Some(&character), &Settings::default());
        let mut key_bound = None;
        let original_mode = match args.mode {
            RotatorMode::StartToEnd => RotationMode::StartToEnd,
            RotatorMode::StartToEndThenReverse => RotationMode::StartToEndThenReverse,
            RotatorMode::AutoMobbing(key, bound) => {
                key_bound = Some((key, bound));
                RotationMode::AutoMobbing
            }
            RotatorMode::PingPong(key, bound) => {
                key_bound = Some((key, bound));
                RotationMode::PingPong
            }
        };
        let key_bound_match = match key_bound {
            Some((key, bound)) => {
                let bound_match = if original_mode == RotationMode::AutoMobbing {
                    bound == minimap.rotation_auto_mob_bound
                } else {
                    bound == minimap.rotation_ping_pong_bound
                };
                key == minimap.rotation_mobbing_key && bound_match
            }
            None => true,
        };
        assert!(mode == original_mode && key_bound_match);
    }
}

#[test]
fn update_with_buffs() {
    let buffs = vec![(BuffKind::SayramElixir, KeyKind::F1)];

    let service = DefaultRotatorService::with_actions_and_buffs(Vec::new(), buffs.clone());
    let args = service.apply(None, None, &Settings::default());
    assert!(args.buffs == buffs);
}

#[test]
fn update_with_familiar_essence_key() {
    let character = Character {
        familiar_essence_key: KeyBindingConfiguration {
            key: KeyBinding::Z,
            enabled: true,
        },
        ..Default::default()
    };

    let service = DefaultRotatorService::default();
    let args = service.apply(None, Some(&character), &Settings::default());
    assert!(args.familiar_essence_key == KeyKind::Z);
}

#[test]
fn update_with_familiar_swap_config() {
    let mut character = Character::default();
    character.familiars.swappable_familiars = SwappableFamiliars::SecondAndLast;
    character.familiars.swappable_rarities = vec![FamiliarRarity::Epic, FamiliarRarity::Rare];
    character.familiars.swap_check_millis = 5000;
    character.familiars.enable_familiars_swapping = true;

    let service = DefaultRotatorService::default();
    let args = service.apply(None, Some(&character), &Settings::default());
    assert!(args.familiars == character.familiars);
}

#[test]
fn update_with_elite_boss_behavior() {
    let character = Character {
        elite_boss_behavior: EliteBossBehavior::CycleChannel,
        elite_boss_behavior_key: KeyBinding::X,
        ..Default::default()
    };

    let service = DefaultRotatorService::default();
    let args = service.apply(None, Some(&character), &Settings::default());
    assert!(
        args.elite_boss_behavior == EliteBossBehavior::CycleChannel
            && args.elite_boss_behavior_key == KeyKind::X
    );
}

#[test]
fn update_with_reset_normal_actions_on_erda() {
    let minimap = MinimapData {
        actions_any_reset_on_erda_condition: true,
        ..Default::default()
    };

    let service = DefaultRotatorService::default();
    let args = service.apply(Some(&minimap), None, &Settings::default());
    assert!(args.enable_reset_normal_actions_on_erda);
}

#[test]
fn update_with_panic_mode_and_rune_solving() {
    let settings = Settings {
        enable_panic_mode: true,
        enable_rune_solving: true,
        ..Default::default()
    };

    let service = DefaultRotatorService::default();
    let args = service.apply(None, None, &settings);
    assert!(args.enable_panic_mode && args.enable_rune_solving);
}

fn preset_actions() -> Vec<Action> {
    vec![
        Action::Key(ActionKey {
            key: KeyBinding::A,
            ..Default::default()
        }),
        Action::Key(ActionKey {
            key: KeyBinding::B,
            ..Default::default()
        }),
    ]
}

fn fixed_actions(enabled: bool) -> Vec<ActionConfiguration> {
    vec![
        ActionConfiguration {
            key: KeyBinding::C,
            enabled,
            ..Default::default()
        },
        ActionConfiguration {
            key: KeyBinding::D,
            condition: ActionConfigurationCondition::Linked,
            ..Default::default()
        },
        ActionConfiguration {
            key: KeyBinding::E,
            condition: ActionConfigurationCondition::Linked,
            ..Default::default()
        },
        ActionConfiguration {
            key: KeyBinding::F,
            enabled,
            ..Default::default()
        },
    ]
}

#[test]
fn update_combine_actions_and_fixed_actions() {
    let character = Character {
        actions: fixed_actions(true),
        ..Default::default()
    };
    let mut minimap = MinimapData::default();
    minimap.insert_preset("preset".to_string(), preset_actions());
    let mut service = DefaultRotatorService::default();

    service.update_actions(Some(&minimap), Some("preset".to_string()), Some(&character));

    let keys: Vec<(KeyBinding, ActionCondition)> = service.actions().iter().map(key_of).collect();
    assert_eq!(keys.len(), 6);
    assert_eq!(keys[0].0, KeyBinding::C);
    assert_eq!(keys[1], (KeyBinding::D, ActionCondition::Linked));
    assert_eq!(keys[2], (KeyBinding::E, ActionCondition::Linked));
    assert_eq!(keys[3].0, KeyBinding::F);
    assert_eq!(keys[4].0, KeyBinding::A);
    assert_eq!(keys[5].0, KeyBinding::B);
}

#[test]
fn update_include_actions_while_fixed_actions_disabled() {
    let character = Character {
        actions: fixed_actions(false),
        ..Default::default()
    };
    let mut minimap = MinimapData::default();
    minimap.insert_preset("preset".to_string(), preset_actions());
    let mut service = DefaultRotatorService::default();

    service.update_actions(Some(&minimap), Some("preset".to_string()), Some(&character));

    let keys: Vec<(KeyBinding, ActionCondition)> = service.actions().iter().map(key_of).collect();
    assert_eq!(keys.len(), 2);
    assert_eq!(keys[0].0, KeyBinding::A);
    assert_eq!(keys[1].0, KeyBinding::B);
}

#[test]
fn update_character_actions_only() {
    let character = Character {
        actions: fixed_actions(true),
        ..Default::default()
    };
    let mut service = DefaultRotatorService::default();

    service.update_actions(None, None, Some(&character));

    let keys: Vec<(KeyBinding, ActionCondition)> = service.actions().iter().map(key_of).collect();
    assert_eq!(keys.len(), 4);
    assert_eq!(keys[0].0, KeyBinding::C);
    assert_eq!(keys[1], (KeyBinding::D, ActionCondition::Linked));
    assert_eq!(keys[2], (KeyBinding::E, ActionCondition::Linked));
    assert_eq!(keys[3].0, KeyBinding::F);
}

#[test]
fn unknown_preset_gives_only_character_actions() {
    let character = Character {
        actions: fixed_actions(true),
        ..Default::default()
    };
    let mut minimap = MinimapData::default();
    minimap.insert_preset("preset".to_string(), preset_actions());
    let mut service = DefaultRotatorService::default();

    service.update_actions(Some(&minimap), Some("other".to_string()), Some(&character));

    assert_eq!(service.actions().len(), 4);
}

#[test]
fn timed_potion_and_pet_feeding_come_first() {
    let character = Character {
        feed_pet_key: KeyBindingConfiguration {
            key: KeyBinding::Q,
            enabled: true,
        },
        feed_pet_millis: 120000,
        feed_pet_count: 3,
        potion_key: KeyBindingConfiguration {
            key: KeyBinding::W,
            enabled: true,
        },
        potion_mode: PotionMode::EveryMillis(9000),
        actions: fixed_actions(true),
        ..Default::default()
    };

    let actions = actions_from(&character);

    assert_eq!(actions.len(), 6);
    match actions[0] {
        Action::Key(key) => {
            assert_eq!(key.key, KeyBinding::Q);
            assert_eq!(key.count, 3);
            assert_eq!(key.condition, ActionCondition::EveryMillis(120000));
            assert_eq!(key.wait_before_use_millis, 350);
            assert_eq!(key.wait_after_use_millis, 350);
        }
        Action::Move(_) => panic!("expected a key action"),
    }
    match actions[1] {
        Action::Key(key) => {
            assert_eq!(key.key, KeyBinding::W);
            assert_eq!(key.count, 1);
            assert_eq!(key.condition, ActionCondition::EveryMillis(9000));
        }
        Action::Move(_) => panic!("expected a key action"),
    }
}

#[test]
fn enabled_buffs_in_kind_order() {
    let character = Character {
        exp_x3_key: KeyBindingConfiguration {
            key: KeyBinding::F3,
            enabled: true,
        },
        familiar_buff_key: KeyBindingConfiguration {
            key: KeyBinding::F5,
            enabled: true,
        },
        legion_luck_key: KeyBindingConfiguration {
            key: KeyBinding::F7,
            enabled: false,
        },
        ..Default::default()
    };

    let buffs = buffs_from(&character);

    assert_eq!(
        buffs,
        vec![
            (BuffKind::Familiar, KeyKind::F5),
            (BuffKind::ExpCouponX3, KeyKind::F3)
        ]
    );
}

#[test]
fn update_buffs_keeps_actions() {
    let character = Character {
        sayram_elixir_key: KeyBindingConfiguration {
            key: KeyBinding::Y,
            enabled: true,
        },
        ..Default::default()
    };
    let mut service =
        DefaultRotatorService::with_actions_and_buffs(preset_actions(), Vec::new());

    service.update_buffs(Some(&character));

    assert_eq!(service.buffs(), &vec![(BuffKind::SayramElixir, KeyKind::Y)]);
    assert_eq!(service.actions(), &preset_actions());
}

#[test]
fn no_map_rotates_start_to_end() {
    assert_eq!(rotator_mode_from(None), RotatorMode::StartToEnd);
    let args = DefaultRotatorService::default().apply(None, None, &Settings::default());
    assert_eq!(args.hexa_booster_exchange_amount, 1);
    assert!(!args.enable_using_generic_booster);
}

#[test]
fn character_actions_never_start_linked() {
    let character = Character {
        actions: vec![
            ActionConfiguration {
                key: KeyBinding::D,
                condition: ActionConfigurationCondition::Linked,
                enabled: true,
                ..Default::default()
            },
            ActionConfiguration {
                key: KeyBinding::G,
                enabled: true,
                ..Default::default()
            },
            ActionConfiguration {
                key: KeyBinding::H,
                condition: ActionConfigurationCondition::Linked,
                ..Default::default()
            },
        ],
        ..Default::default()
    };
    let actions = actions_from(&character);
    let keys: Vec<(KeyBinding, ActionCondition)> = actions.iter().map(key_of).collect();
    assert_eq!(
        keys,
        vec![
            (KeyBinding::G, ActionCondition::EveryMillis(0)),
            (KeyBinding::H, ActionCondition::Linked)
        ]
    );
}
