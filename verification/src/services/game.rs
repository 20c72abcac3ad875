//! Events from the database and the keyboard, and what the bot does about them.

use vstd::prelude::*;

use crate::keys::{key_binding_of, KeyBinding, KeyKind};
use crate::maps::MinimapData;
use crate::models::{Character, Settings};
use crate::services::localization::Localization;
use crate::services::operation::OperationEffects;
use crate::services::rotator::RotatorBuildArgs;
use crate::services::Event;

verus! {

/// An event that the game service raises.
#[derive(Clone, Debug, PartialEq, Eq)]
pub enum GameEvent {
    ToggleOperation,
    MapUpdated(Option<MinimapData>),
    CharacterUpdated(Option<Character>),
    SettingsUpdated(Settings),
    LocalizationUpdated(Localization),
    NavigationPathsUpdated,
}

impl Event for GameEvent {

}

/// A change written to the database.
#[derive(Clone, Debug, PartialEq, Eq)]
pub enum DatabaseEvent {
    MapUpdated(MinimapData),
    MapDeleted(i64),
    NavigationPathsUpdated,
    NavigationPathsDeleted,
    SettingsUpdated(Settings),
    LocalizationUpdated(Localization),
    CharacterUpdated(Character),
    CharacterDeleted(i64),
}

/// Whether a database event carries the ids that updates always have.
pub open spec fn database_event_has_ids(event: DatabaseEvent) -> bool {
    match event {
        DatabaseEvent::MapUpdated(map) => map.id is Some,
        DatabaseEvent::CharacterUpdated(character) => character.id is Some,
        _ => true,
    }
}

/// The game event that a database change gives rise to, given the ids of
/// the map and character in use: a change to another map or character is
/// ignored.
pub open spec fn game_event_for(
    event: DatabaseEvent,
    map_id: Option<i64>,
    character_id: Option<i64>,
) -> Option<GameEvent> {
    match event {
        DatabaseEvent::MapUpdated(map) => if map.id == map_id {
            Some(GameEvent::MapUpdated(Some(map)))
        } else {
            None
        },
        DatabaseEvent::MapDeleted(id) => if Some(id) == map_id {
            Some(GameEvent::MapUpdated(None))
        } else {
            None
        },
        DatabaseEvent::NavigationPathsUpdated => Some(GameEvent::NavigationPathsUpdated),
        DatabaseEvent::NavigationPathsDeleted => Some(GameEvent::NavigationPathsUpdated),
        DatabaseEvent::SettingsUpdated(settings) => Some(GameEvent::SettingsUpdated(settings)),
        DatabaseEvent::LocalizationUpdated(l) => Some(GameEvent::LocalizationUpdated(l)),
        DatabaseEvent::CharacterUpdated(c) => if c.id == character_id {
            Some(GameEvent::CharacterUpdated(Some(c)))
        } else {
            None
        },
        DatabaseEvent::CharacterDeleted(id) => if Some(id) == character_id {
            Some(GameEvent::CharacterUpdated(None))
        } else {
            None
        },
    }
}

fn same_id(a: Option<i64>, b: Option<i64>) -> (r: bool)
    ensures
        r == (a == b),
{
    match (a, b) {
        (Some(x), Some(y)) => x == y,
        (None, None) => true,
        _ => false,
    }
}

/// Turns a database change into a game event, given the ids of the map and
/// character in use.
pub fn poll_database(event: DatabaseEvent, map_id: Option<i64>, character_id: Option<i64>) -> (r:
    Option<GameEvent>)
    requires
        database_event_has_ids(event),
    ensures
        r == game_event_for(event, map_id, character_id),
{
    match event {
        DatabaseEvent::MapUpdated(map) => {
            if same_id(map.id, map_id) {
                Some(GameEvent::MapUpdated(Some(map)))
            } else {
                None
            }
        },
        DatabaseEvent::MapDeleted(id) => {
            if same_id(Some(id), map_id) {
                Some(GameEvent::MapUpdated(None))
            } else {
                None
            }
        },
        DatabaseEvent::NavigationPathsUpdated | DatabaseEvent::NavigationPathsDeleted => Some(
            GameEvent::NavigationPathsUpdated,
        ),
        DatabaseEvent::SettingsUpdated(settings) => Some(GameEvent::SettingsUpdated(settings)),
        DatabaseEvent::LocalizationUpdated(l) => Some(GameEvent::LocalizationUpdated(l)),
        DatabaseEvent::CharacterUpdated(character) => {
            if same_id(character.id, character_id) {
                Some(GameEvent::CharacterUpdated(Some(character)))
            } else {
                None
            }
        },
        DatabaseEvent::CharacterDeleted(id) => {
            if same_id(Some(id), character_id) {
                Some(GameEvent::CharacterUpdated(None))
            } else {
                None
            }
        },
    }
}

/// What becomes of a key that the user pressed.
#[derive(Clone, Copy, Debug, PartialEq, Eq, Structural)]
pub enum KeyOutcome {
    /// The key toggles the bot's operation.
    ToggleOperation,
    /// The key goes on to the key listeners.
    Forward(KeyBinding),
}

/// What becomes of `received`: the enabled toggle key toggles the bot's
/// operation, any other key goes on to the key listeners.
pub open spec fn key_outcome(received: KeyKind, settings: Settings) -> KeyOutcome {
    if settings.toggle_actions_key.enabled && settings.toggle_actions_key.key == key_binding_of(
        received,
    ) {
        KeyOutcome::ToggleOperation
    } else {
        KeyOutcome::Forward(key_binding_of(received))
    }
}

/// Decides what becomes of a key that the user pressed.
pub fn poll_key(received: KeyKind, settings: &Settings) -> (r: KeyOutcome)
    ensures
        r == key_outcome(received, *settings),
{
    let key = received.to_key_binding();
    if settings.toggle_actions_key.enabled && settings.toggle_actions_key.key == key {
        KeyOutcome::ToggleOperation
    } else {
        KeyOutcome::Forward(key)
    }
}

/// What a game event asks of the caller, in order.
#[derive(Clone, Debug, PartialEq, Eq)]
pub enum GameEffect {
    /// Carry out an operation request.
    Operation(OperationEffects),
    /// Apply the new settings to the operation, the input and the capture.
    ApplySettings,
    /// Update the remote control from the new settings.
    UpdateControl,
    /// Build the rotator from these arguments.
    BuildRotator(RotatorBuildArgs),
    /// Have the navigator recompute its paths.
    MarkNavigatorDirty,
}

} // verus!
