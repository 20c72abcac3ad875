//! How the user edits a character's fixed actions, a map's platforms and a
//! map's rotation.

use vstd::prelude::*;

use crate::action_list::update_valid_platform_end;
use crate::keys::KeyBinding;
use crate::maps::{MinimapData, MobbingKey, RotationMode};
use crate::models::{
    ActionCondition, ActionConfiguration, ActionConfigurationCondition, ActionKey, Bound, Platform,
    Position, Settings,
};

verus! {

/// Adds a fixed action at the end.
pub fn add_fixed_action(actions: &mut Vec<ActionConfiguration>, action: ActionConfiguration)
    ensures
        final(actions)@ == old(actions)@.push(action),
{
    actions.push(action);
}

/// Replaces the fixed action at `index`.
pub fn edit_fixed_action(
    actions: &mut Vec<ActionConfiguration>,
    index: usize,
    action: ActionConfiguration,
)
    requires
        index < old(actions)@.len(),
    ensures
        final(actions)@ == old(actions)@.update(index as int, action),
{
    actions.set(index, action);
}

/// Deletes the fixed action at `index`.
pub fn delete_fixed_action(actions: &mut Vec<ActionConfiguration>, index: usize)
    requires
        index < old(actions)@.len(),
    ensures
        final(actions)@ == old(actions)@.remove(index as int),
{
    actions.remove(index);
}

/// Enables or disables the fixed action at `index`.
pub fn toggle_fixed_action(actions: &mut Vec<ActionConfiguration>, index: usize, enabled: bool)
    requires
        index < old(actions)@.len(),
    ensures
        final(actions)@ == old(actions)@.update(
            index as int,
            ActionConfiguration { enabled, ..old(actions)@[index as int] },
        ),
{
    let action = ActionConfiguration { enabled, ..actions[index] };
    actions.set(index, action);
}

/// The fixed actions after moving the one at `from` to the position `to`; an
/// action moved to the top loses its link.
pub open spec fn fixed_moved(s: Seq<ActionConfiguration>, from: int, to: int) -> Seq<
    ActionConfiguration,
> {
    let action = s[from];
    let rest = s.remove(from);
    let insert = if from >= to {
        to
    } else {
        to - 1
    };
    let insert = if insert < rest.len() {
        insert
    } else {
        rest.len() as int
    };
    let action = if to == 0 {
        ActionConfiguration { condition: ActionConfigurationCondition::EveryMillis(0), ..action }
    } else {
        action
    };
    rest.insert(insert, action)
}

/// Moves the fixed action at `from` to the position `to`.
pub fn move_fixed_action(actions: &mut Vec<ActionConfiguration>, from: usize, to: usize)
    requires
        from < old(actions)@.len(),
    ensures
        final(actions)@ == fixed_moved(old(actions)@, from as int, to as int),
{
    let action = actions.remove(from);
    let insert_index = if from >= to {
        to
    } else {
        to - 1
    };
    let insert_index = if insert_index < actions.len() {
        insert_index
    } else {
        actions.len()
    };
    let action = if to == 0 {
        ActionConfiguration { condition: ActionConfigurationCondition::default(), ..action }
    } else {
        action
    };
    actions.insert(insert_index, action);
}

/// Adds a platform to the map.
pub fn add_platform(map: &mut MinimapData, platform: Platform)
    ensures
        final(map).platforms@ == old(map).platforms@.push(platform),
        *final(map) == (MinimapData { platforms: final(map).platforms, ..*old(map) }),
{
    map.platforms.push(platform);
}

/// Replaces the platform at `index`; `false` where there is none.
pub fn edit_platform(map: &mut MinimapData, index: usize, platform: Platform) -> (r: bool)
    ensures
        r == (index < old(map).platforms@.len()),
        r ==> final(map).platforms@ == old(map).platforms@.update(index as int, platform),
        !r ==> *final(map) == *old(map),
        *final(map) == (MinimapData { platforms: final(map).platforms, ..*old(map) }),
{
    if index >= map.platforms.len() {
        return false;
    }
    map.platforms.set(index, platform);
    true
}

/// Deletes the platform at `index`.
pub fn delete_platform(map: &mut MinimapData, index: usize)
    requires
        index < old(map).platforms@.len(),
    ensures
        final(map).platforms@ == old(map).platforms@.remove(index as int),
        *final(map) == (MinimapData { platforms: final(map).platforms, ..*old(map) }),
{
    map.platforms.remove(index);
}

/// Sets the map's mobbing key.
pub fn edit_mobbing_key(map: &mut MinimapData, key: MobbingKey)
    ensures
        *final(map) == (MinimapData { rotation_mobbing_key: key, ..*old(map) }),
{
    map.rotation_mobbing_key = key;
}

/// Sets the bound of the map's mobbing mode; `false` where the mode has no bound.
pub fn edit_mobbing_bound(map: &mut MinimapData, bound: Bound) -> (r: bool)
    ensures
        r == (old(map).rotation_mode is AutoMobbing || old(map).rotation_mode is PingPong),
        *final(map) == match old(map).rotation_mode {
            RotationMode::AutoMobbing => MinimapData { rotation_auto_mob_bound: bound, ..*old(map) },
            RotationMode::PingPong => MinimapData { rotation_ping_pong_bound: bound, ..*old(map) },
            _ => *old(map),
        },
{
    match map.rotation_mode {
        RotationMode::StartToEnd | RotationMode::StartToEndThenReverse => false,
        RotationMode::AutoMobbing => {
            map.rotation_auto_mob_bound = bound;
            true
        },
        RotationMode::PingPong => {
            map.rotation_ping_pong_bound = bound;
            true
        },
    }
}

/// The bound that the map's mobbing mode uses.
pub fn mobbing_bound(map: &MinimapData) -> (b: Bound)
    requires
        map.rotation_mode is AutoMobbing || map.rotation_mode is PingPong,
    ensures
        b == if map.rotation_mode is AutoMobbing {
            map.rotation_auto_mob_bound
        } else {
            map.rotation_ping_pong_bound
        },
{
    match map.rotation_mode {
        RotationMode::AutoMobbing => map.rotation_auto_mob_bound,
        _ => map.rotation_ping_pong_bound,
    }
}

/// Whether the mobbing key cannot be edited: only the mobbing modes use one.
pub fn mobbing_key_disabled(mode: RotationMode) -> (b: bool)
    ensures
        b == !(mode is AutoMobbing || mode is PingPong),
{
    !matches!(mode, RotationMode::AutoMobbing | RotationMode::PingPong)
}

/// The platform being recorded from key presses, and the platform to add, if any.
#[derive(Clone, Copy, Debug, PartialEq, Eq, Structural)]
pub struct PlatformRecording {
    pub platform: Platform,
    pub added: Option<Platform>,
}

/// A platform at least one unit wide.
pub open spec fn widened(p: Platform) -> Platform {
    Platform {
        x_end: if p.x_end <= p.x_start {
            (p.x_start + 1) as i32
        } else {
            p.x_end
        },
        ..p
    }
}

/// What a key press does to the platform being recorded at the player's
/// position `(x, y)`: the start key sets its start, the end key its end, the
/// add key adds it.
pub open spec fn platform_key_step(
    platform: Platform,
    key: KeyBinding,
    settings: Settings,
    x: i32,
    y: i32,
) -> PlatformRecording {
    if settings.platform_start_key.enabled && settings.platform_start_key.key == key {
        PlatformRecording {
            platform: Platform { y, ..widened(Platform { x_start: x, ..platform }) },
            added: None,
        }
    } else if settings.platform_end_key.enabled && settings.platform_end_key.key == key {
        PlatformRecording {
            platform: Platform { y, ..widened(Platform { x_end: x, ..platform }) },
            added: None,
        }
    } else if settings.platform_add_key.enabled && settings.platform_add_key.key == key {
        PlatformRecording { platform: widened(platform), added: Some(widened(platform)) }
    } else {
        PlatformRecording { platform, added: None }
    }
}

/// Whether a platform can be widened without overflow.
pub open spec fn can_widen(p: Platform) -> bool {
    p.x_end > p.x_start || p.x_start < i32::MAX
}

/// Whether a key press at `x` can be recorded without overflow: the platform
/// that the key makes can be widened.
pub open spec fn can_record(platform: Platform, key: KeyBinding, settings: Settings, x: i32) -> bool {
    if settings.platform_start_key.enabled && settings.platform_start_key.key == key {
        can_widen(Platform { x_start: x, ..platform })
    } else if settings.platform_end_key.enabled && settings.platform_end_key.key == key {
        can_widen(Platform { x_end: x, ..platform })
    } else if settings.platform_add_key.enabled && settings.platform_add_key.key == key {
        can_widen(platform)
    } else {
        true
    }
}

/// Records a platform from a key press at the player's position `(x, y)`.
pub fn record_platform_key(
    platform: Platform,
    key: KeyBinding,
    settings: &Settings,
    x: i32,
    y: i32,
) -> (r: PlatformRecording)
    requires
        can_record(platform, key, *settings, x),
    ensures
        r == platform_key_step(platform, key, *settings, x, y),
{
    let mut platform = platform;
    if settings.platform_start_key.enabled && settings.platform_start_key.key == key {
        platform.x_start = x;
        update_valid_platform_end(&mut platform);
        platform.y = y;
        return PlatformRecording { platform, added: None };
    }
    if settings.platform_end_key.enabled && settings.platform_end_key.key == key {
        platform.x_end = x;
        update_valid_platform_end(&mut platform);
        platform.y = y;
        return PlatformRecording { platform, added: None };
    }
    if settings.platform_add_key.enabled && settings.platform_add_key.key == key {
        update_valid_platform_end(&mut platform);
        return PlatformRecording { platform, added: Some(platform) };
    }
    PlatformRecording { platform, added: None }
}

/// A recorded platform is always at least one unit wide once a key has set
/// its start or its end, or added it.
pub proof fn recorded_platforms_are_wide(
    platform: Platform,
    key: KeyBinding,
    settings: Settings,
    x: i32,
    y: i32,
)
    requires
        can_record(platform, key, settings, x),
    ensures
        ({
            let r = platform_key_step(platform, key, settings, x, y);
            &&& r.added matches Some(p) ==> p.x_start < p.x_end
            &&& r.platform != platform ==> r.platform.x_start < r.platform.x_end
        }),
{
}

/// A key action with its condition set from the "linked" choice: linked, or
/// the condition of the list that it is edited in; the choice to queue it to
/// the front is cleared either way.
pub fn set_key_linked(action: ActionKey, linked: bool, list_condition: ActionCondition) -> (r:
    ActionKey)
    ensures
        r == (ActionKey {
            condition: if linked {
                ActionCondition::Linked
            } else {
                list_condition
            },
            queue_to_front: None,
            ..action
        }),
{
    ActionKey {
        condition: if linked {
            ActionCondition::Linked
        } else {
            list_condition
        },
        queue_to_front: None,
        ..action
    }
}

/// A key action placed at the origin, or not placed at all.
pub fn set_key_positioned(action: ActionKey, positioned: bool) -> (r: ActionKey)
    ensures
        r == (ActionKey {
            position: if positioned {
                Some(Position { x: 0, x_random_range: 0, y: 0, allow_adjusting: false })
            } else {
                None
            },
            ..action
        }),
{
    ActionKey {
        position: if positioned {
            Some(Position { x: 0, x_random_range: 0, y: 0, allow_adjusting: false })
        } else {
            None
        },
        ..action
    }
}

/// A key action moved to `(x, y)` where it is placed; an action that is not
/// placed stays unplaced.
pub fn set_key_position(action: ActionKey, x: i32, y: i32) -> (r: ActionKey)
    ensures
        r == (ActionKey {
            position: match action.position {
                Some(p) => Some(Position { x, y, ..p }),
                None => None,
            },
            ..action
        }),
{
    ActionKey {
        position: match action.position {
            Some(p) => Some(Position { x, y, ..p }),
            None => None,
        },
        ..action
    }
}

/// Whether an action of `condition` may be queued to the front of the
/// priority queue: timed actions and Erda Shower actions.
pub fn can_queue_to_front(condition: ActionCondition) -> (b: bool)
    ensures
        b == (condition is EveryMillis || condition is ErdaShowerOffCooldown),
{
    matches!(condition, ActionCondition::EveryMillis(_) | ActionCondition::ErdaShowerOffCooldown)
}

/// A fixed action with its condition set from the "linked" choice: linked,
/// or the condition `own` that it had when its editing began.
pub fn set_configuration_linked(
    action: ActionConfiguration,
    linked: bool,
    own: ActionConfigurationCondition,
) -> (r: ActionConfiguration)
    ensures
        r == (ActionConfiguration {
            condition: if linked {
                ActionConfigurationCondition::Linked
            } else {
                own
            },
            ..action
        }),
{
    ActionConfiguration {
        condition: if linked {
            ActionConfigurationCondition::Linked
        } else {
            own
        },
        ..action
    }
}

} // verus!
