use komari::action_list::{
    add_action, delete_action, edit_action, filter_actions, find_last_linked_action_index,
    find_linked_action_range, import_actions, map_insert_index_local_to_global, move_action,
    update_valid_platform_end,
};
use komari::keys::KeyBinding;
use komari::models::{Action, ActionCondition, ActionKey, ActionMove, Platform, Position};

fn key(key: KeyBinding, condition: ActionCondition) -> Action {
    Action::Key(ActionKey {
        key,
        condition,
        ..Default::default()
    })
}

fn keys(actions: &[Action]) -> Vec<(KeyBinding, ActionCondition)> {
    actions
        .iter()
        .map(|action| match action {
            Action::Key(k) => (k.key, k.condition),
            Action::Move(m) => (KeyBinding::Zero, m.condition),
        })
        .collect()
}

/// A, B(linked), C(linked), D(every 1s), E(linked), F
fn sample() -> Vec<Action> {
    vec![
        key(KeyBinding::A, ActionCondition::Any),
        key(KeyBinding::B, ActionCondition::Linked),
        key(KeyBinding::C, ActionCondition::Linked),
        key(KeyBinding::D, ActionCondition::EveryMillis(1000)),
        key(KeyBinding::E, ActionCondition::Linked),
        key(KeyBinding::F, ActionCondition::Any),
    ]
}

#[test]
fn linked_range_covers_the_following_linked_actions() {
    let actions = sample();
    assert_eq!(find_linked_action_range(&actions, 0), Some(1..3));
    assert_eq!(find_linked_action_range(&actions, 3), Some(4..5));
    assert_eq!(find_linked_action_range(&actions, 5), None);
    assert_eq!(find_linked_action_range(&actions, 1), Some(2..3));
    assert_eq!(find_linked_action_range(&actions, 2), None);
    assert_eq!(find_linked_action_range(&actions, 40), None);
}

#[test]
fn last_linked_index_ends_the_last_group_of_the_kind() {
    let actions = sample();
    assert_eq!(
        find_last_linked_action_index(&actions, ActionCondition::Any),
        Some(5)
    );
    assert_eq!(
        find_last_linked_action_index(&actions, ActionCondition::EveryMillis(5)),
        Some(4)
    );
    assert_eq!(
        find_last_linked_action_index(&actions, ActionCondition::ErdaShowerOffCooldown),
        None
    );
}

#[test]
fn filter_keeps_groups_with_their_indices() {
    let filtered = filter_actions(sample(), ActionCondition::Any);
    let indices: Vec<usize> = filtered.iter().map(|(_, i)| *i).collect();
    assert_eq!(indices, vec![0, 1, 2, 5]);
    assert_eq!(filtered[1].0, key(KeyBinding::B, ActionCondition::Linked));

    let timed = filter_actions(sample(), ActionCondition::EveryMillis(0));
    let indices: Vec<usize> = timed.iter().map(|(_, i)| *i).collect();
    assert_eq!(indices, vec![3, 4]);
}

#[test]
fn local_insert_positions_map_to_global_ones() {
    let filtered = filter_actions(sample(), ActionCondition::EveryMillis(0));
    assert_eq!(map_insert_index_local_to_global(filtered.clone(), 0), 3);
    assert_eq!(map_insert_index_local_to_global(filtered.clone(), 1), 4);
    assert_eq!(map_insert_index_local_to_global(filtered, 2), 5);
    assert_eq!(map_insert_index_local_to_global(Vec::new(), 0), 0);
}

#[test]
fn platform_end_is_made_valid() {
    let mut platform = Platform {
        x_start: 10,
        x_end: 4,
        y: 2,
    };
    update_valid_platform_end(&mut platform);
    assert_eq!(
        platform,
        Platform {
            x_start: 10,
            x_end: 11,
            y: 2
        }
    );

    let mut wide = Platform {
        x_start: 1,
        x_end: 8,
        y: 2,
    };
    update_valid_platform_end(&mut wide);
    assert_eq!(wide.x_end, 8);
}

#[test]
fn import_drops_headless_linked_actions() {
    let imported = vec![
        key(KeyBinding::X, ActionCondition::Linked),
        key(KeyBinding::Y, ActionCondition::Any),
        key(KeyBinding::Z, ActionCondition::Linked),
    ];
    let result = import_actions(vec![key(KeyBinding::A, ActionCondition::Any)], &imported);
    assert_eq!(
        keys(&result),
        vec![
            (KeyBinding::A, ActionCondition::Any),
            (KeyBinding::Y, ActionCondition::Any),
            (KeyBinding::Z, ActionCondition::Linked),
        ]
    );
}

#[test]
fn linked_action_joins_the_last_group_of_its_list() {
    let result = add_action(
        sample(),
        key(KeyBinding::G, ActionCondition::Linked),
        ActionCondition::EveryMillis(0),
    );
    assert_eq!(result.len(), 7);
    assert_eq!(keys(&result)[5], (KeyBinding::G, ActionCondition::Linked));
    assert_eq!(keys(&result)[6], (KeyBinding::F, ActionCondition::Any));

    let appended = add_action(
        sample(),
        key(KeyBinding::G, ActionCondition::Any),
        ActionCondition::Any,
    );
    assert_eq!(keys(&appended)[6], (KeyBinding::G, ActionCondition::Any));
}

#[test]
fn edit_replaces_or_refuses() {
    let edited = edit_action(sample(), key(KeyBinding::Q, ActionCondition::Any), 2).unwrap();
    assert_eq!(keys(&edited)[2], (KeyBinding::Q, ActionCondition::Any));
    assert_eq!(edited.len(), 6);
    assert!(edit_action(sample(), key(KeyBinding::Q, ActionCondition::Any), 6).is_none());
}

#[test]
fn deleting_a_head_promotes_the_next_action() {
    let result = delete_action(sample(), 3).unwrap();
    assert_eq!(
        keys(&result),
        vec![
            (KeyBinding::A, ActionCondition::Any),
            (KeyBinding::B, ActionCondition::Linked),
            (KeyBinding::C, ActionCondition::Linked),
            (KeyBinding::E, ActionCondition::EveryMillis(1000)),
            (KeyBinding::F, ActionCondition::Any),
        ]
    );

    let linked = delete_action(sample(), 1).unwrap();
    assert_eq!(keys(&linked)[1], (KeyBinding::C, ActionCondition::Linked));
    assert!(delete_action(sample(), 6).is_none());
}

#[test]
fn moving_in_place_changes_nothing() {
    let result = move_action(sample(), 5, ActionCondition::Any, 3, 5, ActionCondition::Any);
    assert_eq!(result, sample());
}

#[test]
fn moving_between_lists_takes_the_target_condition() {
    let result = move_action(
        sample(),
        5,
        ActionCondition::Any,
        0,
        3,
        ActionCondition::EveryMillis(1000),
    );
    assert_eq!(result.len(), 6);
    assert_eq!(
        keys(&result)[3],
        (KeyBinding::F, ActionCondition::EveryMillis(1000))
    );
    assert_eq!(
        keys(&result)[4],
        (KeyBinding::D, ActionCondition::EveryMillis(1000))
    );

    let down = move_action(
        sample(),
        0,
        ActionCondition::Any,
        2,
        6,
        ActionCondition::EveryMillis(1000),
    );
    assert_eq!(keys(&down)[5], (KeyBinding::A, ActionCondition::EveryMillis(1000)));
}

#[test]
fn move_actions_keep_their_position() {
    let moved = Action::Move(ActionMove {
        position: Position {
            x: 5,
            x_random_range: 0,
            y: 9,
            allow_adjusting: false,
        },
        condition: ActionCondition::Any,
        wait_after_move_millis: 0,
    });
    let result = move_action(
        vec![moved, key(KeyBinding::A, ActionCondition::Any)],
        0,
        ActionCondition::Any,
        0,
        2,
        ActionCondition::ErdaShowerOffCooldown,
    );
    match result[1] {
        Action::Move(m) => {
            assert_eq!(m.position.x, 5);
            assert_eq!(m.condition, ActionCondition::ErdaShowerOffCooldown);
        }
        Action::Key(_) => panic!("expected a move action"),
    }
}
