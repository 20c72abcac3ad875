//! The character in use and what it sets in the player's configuration.

use vstd::prelude::*;

use crate::keys::{key_binding_of, key_kind_of, key_round_trip, KeyBindingConfiguration, KeyKind};
use crate::models::{Character, PotionMode};
use crate::player::{PlayerConfig, PlayerContext};

verus! {

/// The key of an optional key binding.
pub open spec fn optional_key_kind(c: Option<KeyBindingConfiguration>) -> Option<KeyKind> {
    match c {
        Some(c) => Some(key_kind_of(c.key)),
        None => None,
    }
}

fn optional_key(c: Option<KeyBindingConfiguration>) -> (r: Option<KeyKind>)
    ensures
        r == optional_key_kind(c),
{
    match c {
        Some(c) => Some(c.key.to_key_kind()),
        None => None,
    }
}

/// The health percentage below which a potion is used: only when the potion
/// key is enabled and potions go by health.
pub open spec fn potion_threshold(c: Character) -> Option<u32> {
    if !c.potion_key.enabled {
        None
    } else {
        match c.potion_mode {
            PotionMode::EveryMillis(_) => None,
            PotionMode::Percentage(percent) => Some(percent),
        }
    }
}

/// `config` with the fields that a character sets taken from `c`.
pub open spec fn config_from_character(config: PlayerConfig, c: Character) -> PlayerConfig {
    PlayerConfig {
        link_key_timing_millis: c.link_key_timing_millis,
        disable_double_jumping: c.disable_double_jumping,
        disable_adjusting: c.disable_adjusting,
        disable_teleport_on_fall: c.disable_teleport_on_fall,
        up_jump_is_flight: c.up_jump_is_flight,
        up_jump_specific_key_should_jump: c.up_jump_specific_key_should_jump,
        interact_key: key_kind_of(c.interact_key.key),
        grappling_key: optional_key_kind(c.ropelift_key),
        teleport_key: optional_key_kind(c.teleport_key),
        jump_key: key_kind_of(c.jump_key.key),
        up_jump_key: optional_key_kind(c.up_jump_key),
        cash_shop_key: optional_key_kind(c.cash_shop_key),
        familiar_key: optional_key_kind(c.familiar_menu_key),
        to_town_key: optional_key_kind(c.to_town_key),
        change_channel_key: optional_key_kind(c.change_channel_key),
        potion_key: key_kind_of(c.potion_key.key),
        use_potion_below_percent: potion_threshold(c),
        update_health_millis: Some(c.health_update_millis),
        generic_booster_key: key_kind_of(c.generic_booster_key.key),
        hexa_booster_key: key_kind_of(c.hexa_booster_key.key),
        ..config
    }
}

/// Applying the same character again leaves the player's configuration as
/// applying it once did.
pub proof fn applying_a_character_again_changes_nothing(config: PlayerConfig, c: Character)
    ensures
        config_from_character(config_from_character(config, c), c) == config_from_character(
            config,
            c,
        ),
{
}

/// Each key of the player's configuration is pressed through the character's
/// binding for that same action: reading the configured key back as a binding
/// gives the character's binding, an optional key is set exactly when the
/// character has that binding, a potion threshold is set exactly when the
/// potion key is enabled and potions go by health, the movement options are the
/// character's, and the map-side options are left as they were.
pub proof fn each_configured_key_is_the_characters_own(config: PlayerConfig, c: Character)
    ensures
        key_binding_of(config_from_character(config, c).interact_key) == c.interact_key.key,
        key_binding_of(config_from_character(config, c).jump_key) == c.jump_key.key,
        key_binding_of(config_from_character(config, c).potion_key) == c.potion_key.key,
        key_binding_of(config_from_character(config, c).generic_booster_key) == c.generic_booster_key.key,
        key_binding_of(config_from_character(config, c).hexa_booster_key) == c.hexa_booster_key.key,
        config_from_character(config, c).grappling_key is Some <==> c.ropelift_key is Some,
        c.ropelift_key matches Some(b) ==> key_binding_of(config_from_character(config, c).grappling_key.unwrap()) == b.key,
        config_from_character(config, c).teleport_key is Some <==> c.teleport_key is Some,
        c.teleport_key matches Some(b) ==> key_binding_of(config_from_character(config, c).teleport_key.unwrap()) == b.key,
        config_from_character(config, c).up_jump_key is Some <==> c.up_jump_key is Some,
        c.up_jump_key matches Some(b) ==> key_binding_of(config_from_character(config, c).up_jump_key.unwrap()) == b.key,
        config_from_character(config, c).cash_shop_key is Some <==> c.cash_shop_key is Some,
        c.cash_shop_key matches Some(b) ==> key_binding_of(config_from_character(config, c).cash_shop_key.unwrap()) == b.key,
        config_from_character(config, c).familiar_key is Some <==> c.familiar_menu_key is Some,
        c.familiar_menu_key matches Some(b) ==> key_binding_of(config_from_character(config, c).familiar_key.unwrap()) == b.key,
        config_from_character(config, c).to_town_key is Some <==> c.to_town_key is Some,
        c.to_town_key matches Some(b) ==> key_binding_of(config_from_character(config, c).to_town_key.unwrap()) == b.key,
        config_from_character(config, c).change_channel_key is Some <==> c.change_channel_key is Some,
        c.change_channel_key matches Some(b) ==> key_binding_of(config_from_character(config, c).change_channel_key.unwrap()) == b.key,
        config_from_character(config, c).use_potion_below_percent is Some <==> c.potion_key.enabled
            && c.potion_mode is Percentage,
        c.potion_key.enabled ==> (c.potion_mode matches PotionMode::Percentage(p)
            ==> config_from_character(config, c).use_potion_below_percent == Some(p)),
        config_from_character(config, c).update_health_millis == Some(c.health_update_millis),
        config_from_character(config, c).link_key_timing_millis == c.link_key_timing_millis,
        config_from_character(config, c).disable_double_jumping == c.disable_double_jumping,
        config_from_character(config, c).disable_adjusting == c.disable_adjusting,
        config_from_character(config, c).disable_teleport_on_fall == c.disable_teleport_on_fall,
        config_from_character(config, c).up_jump_is_flight == c.up_jump_is_flight,
        config_from_character(config, c).up_jump_specific_key_should_jump
            == c.up_jump_specific_key_should_jump,
        config_from_character(config, c).rune_platforms_pathing == config.rune_platforms_pathing,
        config_from_character(config, c).auto_mob_platforms_pathing == config.auto_mob_platforms_pathing,
        config_from_character(config, c).auto_mob_platforms_bound == config.auto_mob_platforms_bound,
{
    key_round_trip(c.interact_key.key);
    key_round_trip(c.jump_key.key);
    key_round_trip(c.potion_key.key);
    key_round_trip(c.generic_booster_key.key);
    key_round_trip(c.hexa_booster_key.key);
    if let Some(b) = c.ropelift_key {
        key_round_trip(b.key);
    }
    if let Some(b) = c.teleport_key {
        key_round_trip(b.key);
    }
    if let Some(b) = c.up_jump_key {
        key_round_trip(b.key);
    }
    if let Some(b) = c.cash_shop_key {
        key_round_trip(b.key);
    }
    if let Some(b) = c.familiar_menu_key {
        key_round_trip(b.key);
    }
    if let Some(b) = c.to_town_key {
        key_round_trip(b.key);
    }
    if let Some(b) = c.change_channel_key {
        key_round_trip(b.key);
    }
}

/// Handles character-related requests.
pub trait CharacterService {
    /// The character in use.
    fn character(&self) -> Option<&Character>;

    /// Sets the character to use.
    fn update_character(&mut self, character: Option<Character>);

    /// Updates `player_context` from the character in use.
    fn apply_character(&self, player_context: &mut PlayerContext);
}

/// The character service of the bot.
#[derive(Debug)]
pub struct DefaultCharacterService {
    character: Option<Character>,
}

impl DefaultCharacterService {
    /// The character that this service holds.
    pub closed spec fn current(&self) -> Option<Character> {
        self.character
    }

    /// A service with no character.
    pub fn new() -> (s: Self)
        ensures
            s.current() is None,
    {
        DefaultCharacterService { character: None }
    }
}

impl CharacterService for DefaultCharacterService {
    fn character(&self) -> (r: Option<&Character>)
        ensures
            r == match self.current() {
                Some(c) => Some(&c),
                None => None::<&Character>,
            },
    {
        match &self.character {
            Some(c) => Some(c),
            None => None,
        }
    }

    fn update_character(&mut self, character: Option<Character>)
        ensures
            final(self).current() == character,
    {
        self.character = character;
    }

    fn apply_character(&self, player_context: &mut PlayerContext)
        ensures
            final(player_context).config == match self.current() {
                Some(c) => config_from_character(old(player_context).config, c),
                None => old(player_context).config,
            },
    {
        if let Some(character) = &self.character {
            let config = player_context.config;
            player_context.config = PlayerConfig {
                link_key_timing_millis: character.link_key_timing_millis,
                disable_double_jumping: character.disable_double_jumping,
                disable_adjusting: character.disable_adjusting,
                disable_teleport_on_fall: character.disable_teleport_on_fall,
                up_jump_is_flight: character.up_jump_is_flight,
                up_jump_specific_key_should_jump: character.up_jump_specific_key_should_jump,
                interact_key: character.interact_key.key.to_key_kind(),
                grappling_key: optional_key(character.ropelift_key),
                teleport_key: optional_key(character.teleport_key),
                jump_key: character.jump_key.key.to_key_kind(),
                up_jump_key: optional_key(character.up_jump_key),
                cash_shop_key: optional_key(character.cash_shop_key),
                familiar_key: optional_key(character.familiar_menu_key),
                to_town_key: optional_key(character.to_town_key),
                change_channel_key: optional_key(character.change_channel_key),
                potion_key: character.potion_key.key.to_key_kind(),
                use_potion_below_percent: match (
                    character.potion_key.enabled,
                    character.potion_mode,
                ) {
                    (false, _) | (_, PotionMode::EveryMillis(_)) => None,
                    (_, PotionMode::Percentage(percent)) => Some(percent),
                },
                update_health_millis: Some(character.health_update_millis),
                generic_booster_key: character.generic_booster_key.key.to_key_kind(),
                hexa_booster_key: character.hexa_booster_key.key.to_key_kind(),
                ..config
            };
        }
    }
}

} // verus!

verus! {

impl Default for DefaultCharacterService {
    fn default() -> (s: Self)
        ensures
            s.current() is None,
    {
        DefaultCharacterService::new()
    }
}

} // verus!
