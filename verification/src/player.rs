//! The player's configuration, which the services fill in from the character
//! and map in use.

use vstd::prelude::*;

use crate::keys::KeyKind;

verus! {

/// How the player behaves and which keys it uses.
#[derive(Clone, Copy, Debug, PartialEq, Eq, Structural)]
pub struct PlayerConfig {
    pub link_key_timing_millis: u64,
    pub disable_double_jumping: bool,
    pub disable_adjusting: bool,
    pub disable_teleport_on_fall: bool,
    pub up_jump_is_flight: bool,
    pub up_jump_specific_key_should_jump: bool,
    pub interact_key: KeyKind,
    pub grappling_key: Option<KeyKind>,
    pub teleport_key: Option<KeyKind>,
    pub jump_key: KeyKind,
    pub up_jump_key: Option<KeyKind>,
    pub cash_shop_key: Option<KeyKind>,
    pub familiar_key: Option<KeyKind>,
    pub to_town_key: Option<KeyKind>,
    pub change_channel_key: Option<KeyKind>,
    pub potion_key: KeyKind,
    /// Uses a potion when health drops below this whole percentage.
    pub use_potion_below_percent: Option<u32>,
    pub update_health_millis: Option<u64>,
    pub generic_booster_key: KeyKind,
    pub hexa_booster_key: KeyKind,
    pub rune_platforms_pathing: bool,
    pub rune_platforms_pathing_up_jump_only: bool,
    pub auto_mob_platforms_pathing: bool,
    pub auto_mob_platforms_pathing_up_jump_only: bool,
    pub auto_mob_platforms_bound: bool,
    pub auto_mob_use_key_when_pathing: bool,
    pub auto_mob_use_key_when_pathing_update_millis: u64,
}

/// The configuration that every unset field takes.
pub open spec fn default_player_config() -> PlayerConfig {
    PlayerConfig {
        link_key_timing_millis: 0,
        disable_double_jumping: false,
        disable_adjusting: false,
        disable_teleport_on_fall: false,
        up_jump_is_flight: false,
        up_jump_specific_key_should_jump: false,
        interact_key: KeyKind::A,
        grappling_key: None,
        teleport_key: None,
        jump_key: KeyKind::A,
        up_jump_key: None,
        cash_shop_key: None,
        familiar_key: None,
        to_town_key: None,
        change_channel_key: None,
        potion_key: KeyKind::A,
        use_potion_below_percent: None,
        update_health_millis: None,
        generic_booster_key: KeyKind::A,
        hexa_booster_key: KeyKind::A,
        rune_platforms_pathing: false,
        rune_platforms_pathing_up_jump_only: false,
        auto_mob_platforms_pathing: false,
        auto_mob_platforms_pathing_up_jump_only: false,
        auto_mob_platforms_bound: false,
        auto_mob_use_key_when_pathing: false,
        auto_mob_use_key_when_pathing_update_millis: 0,
    }
}

impl Default for PlayerConfig {
    fn default() -> (c: Self)
        ensures
            c == default_player_config(),
    {
        PlayerConfig {
            link_key_timing_millis: 0,
            disable_double_jumping: false,
            disable_adjusting: false,
            disable_teleport_on_fall: false,
            up_jump_is_flight: false,
            up_jump_specific_key_should_jump: false,
            interact_key: KeyKind::A,
            grappling_key: None,
            teleport_key: None,
            jump_key: KeyKind::A,
            up_jump_key: None,
            cash_shop_key: None,
            familiar_key: None,
            to_town_key: None,
            change_channel_key: None,
            potion_key: KeyKind::A,
            use_potion_below_percent: None,
            update_health_millis: None,
            generic_booster_key: KeyKind::A,
            hexa_booster_key: KeyKind::A,
            rune_platforms_pathing: false,
            rune_platforms_pathing_up_jump_only: false,
            auto_mob_platforms_pathing: false,
            auto_mob_platforms_pathing_up_jump_only: false,
            auto_mob_platforms_bound: false,
            auto_mob_use_key_when_pathing: false,
            auto_mob_use_key_when_pathing_update_millis: 0,
        }
    }
}

/// The part of the player's context that the services configure.
#[derive(Clone, Copy, Debug, PartialEq, Eq, Structural)]
pub struct PlayerContext {
    pub config: PlayerConfig,
}

impl Default for PlayerContext {
    fn default() -> (c: Self)
        ensures
            c.config == default_player_config(),
    {
        PlayerContext { config: PlayerConfig::default() }
    }
}

} // verus!
