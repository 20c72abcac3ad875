use komari::keys::{KeyBinding, KeyKind, LinkKeyBinding, LinkKeyKind};
use komari::maps::{map_position, preset_position, same_name, MinimapData};
use komari::models::{Action, ActionCondition, ActionKey};

fn key(key: KeyBinding) -> Action {
    Action::Key(ActionKey {
        key,
        condition: ActionCondition::Any,
        ..Default::default()
    })
}

#[test]
fn a_written_preset_reads_back() {
    let mut map = MinimapData::new_named("Map".to_string(), 10, 20);
    map.insert_preset("one".to_string(), vec![key(KeyBinding::A)]);
    map.insert_preset("two".to_string(), vec![key(KeyBinding::B)]);
    map.insert_preset("one".to_string(), vec![key(KeyBinding::C), key(KeyBinding::D)]);

    assert_eq!(
        map.preset_actions(&"one".to_string()),
        Some(vec![key(KeyBinding::C), key(KeyBinding::D)])
    );
    assert_eq!(
        map.preset_actions(&"two".to_string()),
        Some(vec![key(KeyBinding::B)])
    );
    assert_eq!(map.preset_actions(&"three".to_string()), None);
    assert_eq!(map.find_preset(&"two".to_string()), Some(1));
    assert_eq!(map.actions.len(), 2);
}

#[test]
fn creating_an_existing_preset_is_refused() {
    let mut map = MinimapData::default();
    assert!(map.create_preset("p".to_string()));
    map.insert_preset("p".to_string(), vec![key(KeyBinding::A)]);
    assert!(!map.create_preset("p".to_string()));
    assert_eq!(
        map.preset_actions(&"p".to_string()),
        Some(vec![key(KeyBinding::A)])
    );
    assert!(map.create_preset("q".to_string()));
    assert_eq!(map.preset_actions(&"q".to_string()), Some(Vec::new()));
}

#[test]
fn deleting_a_preset_keeps_the_others() {
    let mut map = MinimapData::default();
    map.insert_preset("a".to_string(), vec![key(KeyBinding::A)]);
    map.insert_preset("b".to_string(), vec![key(KeyBinding::B)]);
    assert!(map.delete_preset(&"a".to_string()));
    assert!(!map.delete_preset(&"a".to_string()));
    assert_eq!(map.preset_actions(&"a".to_string()), None);
    assert_eq!(
        map.preset_actions(&"b".to_string()),
        Some(vec![key(KeyBinding::B)])
    );
}

#[test]
fn preset_names_in_order() {
    let mut map = MinimapData::default();
    map.insert_preset("x".to_string(), Vec::new());
    map.insert_preset("y".to_string(), Vec::new());
    let names = map.preset_names();
    assert_eq!(names, vec!["x".to_string(), "y".to_string()]);
    assert_eq!(preset_position(&names, &"y".to_string()), Some(1));
    assert_eq!(preset_position(&names, &"z".to_string()), None);
    assert!(same_name(&"x".to_string(), &"x".to_string()));
    assert!(!same_name(&"x".to_string(), &"X".to_string()));
}

#[test]
fn new_map_is_empty() {
    let map = MinimapData::new_named("Field".to_string(), 30, 40);
    assert_eq!(map.name, "Field");
    assert_eq!((map.width, map.height), (30, 40));
    assert!(map.platforms.is_empty());
    assert!(map.actions.is_empty());
    assert_eq!(map.id, None);
}

#[test]
fn keys_round_trip() {
    for kind in [
        KeyKind::A,
        KeyKind::Z,
        KeyKind::Zero,
        KeyKind::Nine,
        KeyKind::F12,
        KeyKind::PageDown,
        KeyKind::Tilde,
        KeyKind::Esc,
        KeyKind::Alt,
    ] {
        assert_eq!(kind.to_key_binding().to_key_kind(), kind);
    }
    assert_eq!(KeyBinding::Semicolon.to_key_kind(), KeyKind::Semicolon);
    assert_eq!(KeyKind::Insert.to_key_binding(), KeyBinding::Insert);
}

#[test]
fn link_keys_convert() {
    assert_eq!(
        LinkKeyBinding::Unlinked.to_link_key_kind(),
        LinkKeyKind::Unlinked
    );
    assert_eq!(
        LinkKeyBinding::Along(KeyBinding::Q).to_link_key_kind(),
        LinkKeyKind::Along(KeyKind::Q)
    );
}

#[test]
fn maps_are_found_by_id() {
    let maps = vec![
        MinimapData {
            id: Some(4),
            ..Default::default()
        },
        MinimapData {
            id: Some(9),
            ..Default::default()
        },
        MinimapData::default(),
    ];
    assert_eq!(map_position(&maps, Some(9)), Some(1));
    assert_eq!(map_position(&maps, Some(5)), None);
    assert_eq!(map_position(&maps, None), Some(2));
}
