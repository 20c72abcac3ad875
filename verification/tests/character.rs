use komari::keys::{KeyBinding, KeyBindingConfiguration, KeyKind};
use komari::maps::MinimapData;
use komari::minimap::MinimapContext;
use komari::services::minimap::{DefaultMinimapService, MinimapService};
use komari::models::{character_position, preferred_character, Character, PotionMode};
use komari::player::PlayerContext;
use komari::services::character::{CharacterService, DefaultCharacterService};

fn binding(key: KeyBinding) -> KeyBindingConfiguration {
    KeyBindingConfiguration {
        key,
        ..Default::default()
    }
}

fn mock_character() -> Character {
    Character {
        link_key_timing_millis: 30,
        disable_double_jumping: true,
        disable_adjusting: true,
        disable_teleport_on_fall: true,
        up_jump_is_flight: true,
        up_jump_specific_key_should_jump: true,
        interact_key: binding(KeyBinding::Z),
        ropelift_key: Some(binding(KeyBinding::V)),
        teleport_key: Some(binding(KeyBinding::X)),
        jump_key: binding(KeyBinding::C),
        up_jump_key: Some(binding(KeyBinding::A)),
        cash_shop_key: Some(binding(KeyBinding::B)),
        familiar_menu_key: Some(binding(KeyBinding::N)),
        to_town_key: Some(binding(KeyBinding::M)),
        change_channel_key: Some(binding(KeyBinding::L)),
        potion_key: KeyBindingConfiguration {
            key: KeyBinding::P,
            enabled: true,
        },
        potion_mode: PotionMode::Percentage(50),
        health_update_millis: 3000,
        ..Default::default()
    }
}

#[test]
fn update_and_current() {
    let mut service = DefaultCharacterService::default();
    assert!(service.character().is_none());

    let character = mock_character();
    service.update_character(Some(character.clone()));
    let current = service.character().unwrap();

    assert_eq!(current, &mock_character());
}

#[test]
fn update_from_character_none() {
    let service = DefaultCharacterService::default();
    let mut state = PlayerContext::default();
    state.config.link_key_timing_millis = 11;

    service.apply_character(&mut state);
    assert_eq!(state.config.link_key_timing_millis, 11);
}

#[test]
fn update_from_character_some() {
    let mut service = DefaultCharacterService::default();
    let character = mock_character();
    service.update_character(Some(character.clone()));

    let mut state = PlayerContext::default();
    service.apply_character(&mut state);

    assert_eq!(
        state.config.link_key_timing_millis,
        character.link_key_timing_millis
    );
    assert_eq!(
        state.config.disable_double_jumping,
        character.disable_double_jumping
    );
    assert_eq!(state.config.disable_adjusting, character.disable_adjusting);
    assert_eq!(
        state.config.disable_teleport_on_fall,
        character.disable_teleport_on_fall
    );
    assert_eq!(state.config.up_jump_is_flight, character.up_jump_is_flight);
    assert_eq!(
        state.config.up_jump_specific_key_should_jump,
        character.up_jump_specific_key_should_jump
    );
    assert_eq!(state.config.interact_key, KeyKind::Z);
    assert_eq!(state.config.grappling_key, Some(KeyKind::V));
    assert_eq!(state.config.teleport_key, Some(KeyKind::X));
    assert_eq!(state.config.jump_key, KeyKind::C);
    assert_eq!(state.config.up_jump_key, Some(KeyKind::A));
    assert_eq!(state.config.cash_shop_key, Some(KeyKind::B));
    assert_eq!(state.config.familiar_key, Some(KeyKind::N));
    assert_eq!(state.config.to_town_key, Some(KeyKind::M));
    assert_eq!(state.config.change_channel_key, Some(KeyKind::L));
    assert_eq!(state.config.potion_key, KeyKind::P);
    assert_eq!(
        state
            .config
            .use_potion_below_percent
            .map(|percent| percent as f32 / 100.0),
        Some(0.5)
    );
    assert_eq!(state.config.update_health_millis, Some(3000));
}

#[test]
fn disabled_potion_key_uses_no_threshold() {
    let mut character = mock_character();
    character.potion_key.enabled = false;
    let mut service = DefaultCharacterService::default();
    service.update_character(Some(character));

    let mut state = PlayerContext::default();
    service.apply_character(&mut state);
    assert_eq!(state.config.use_potion_below_percent, None);
    assert_eq!(state.config.potion_key, KeyKind::P);
}

#[test]
fn timed_potions_use_no_threshold() {
    let mut character = mock_character();
    character.potion_mode = PotionMode::EveryMillis(1000);
    let mut service = DefaultCharacterService::default();
    service.update_character(Some(character));

    let mut state = PlayerContext::default();
    state.config.rune_platforms_pathing = true;
    service.apply_character(&mut state);
    assert_eq!(state.config.use_potion_below_percent, None);
    // Fields that a character does not set are kept.
    assert!(state.config.rune_platforms_pathing);
}

#[test]
fn applying_a_character_twice_is_applying_it_once() {
    let mut service = DefaultCharacterService::default();
    service.update_character(Some(mock_character()));
    let mut once = PlayerContext::default();
    service.apply_character(&mut once);
    let mut twice = once;
    service.apply_character(&mut twice);
    assert_eq!(once, twice);
}

#[test]
fn map_and_character_apply_in_either_order() {
    let mut characters = DefaultCharacterService::default();
    characters.update_character(Some(mock_character()));
    let maps = DefaultMinimapService::with_minimap(
        Some(MinimapData {
            rune_platforms_pathing: true,
            auto_mob_use_key_when_pathing_update_millis: 250,
            ..Default::default()
        }),
        None,
    );

    let mut character_first = PlayerContext::default();
    characters.apply_character(&mut character_first);
    maps.apply(&mut MinimapContext::default(), &mut character_first);

    let mut map_first = PlayerContext::default();
    maps.apply(&mut MinimapContext::default(), &mut map_first);
    characters.apply_character(&mut map_first);

    assert_eq!(character_first, map_first);
    assert!(map_first.config.rune_platforms_pathing);
    assert_eq!(map_first.config.jump_key, KeyKind::C);
}

#[test]
fn the_last_selected_character_is_preferred() {
    let characters = vec![
        Character {
            id: Some(1),
            ..Default::default()
        },
        Character {
            id: Some(2),
            ..Default::default()
        },
    ];
    assert_eq!(preferred_character(&characters, Some(2)), Some(1));
    assert_eq!(preferred_character(&characters, Some(3)), Some(0));
    assert_eq!(preferred_character(&characters, None), Some(0));
    assert_eq!(preferred_character(&Vec::new(), Some(2)), None);
    assert_eq!(character_position(&characters, Some(1)), Some(0));
    assert_eq!(character_position(&characters, None), None);
}
