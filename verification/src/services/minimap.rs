//! The map in use and what it sets in the minimap and player contexts.

use vstd::prelude::*;

use crate::maps::{is_new_map, MinimapData};
use crate::minimap::{Minimap, MinimapContext, MinimapEntity};
use crate::models::Platform;
use crate::player::{PlayerConfig, PlayerContext};

verus! {

/// `config` with the fields that a map sets taken from `m`.
pub open spec fn config_from_map(config: PlayerConfig, m: MinimapData) -> PlayerConfig {
    PlayerConfig {
        rune_platforms_pathing: m.rune_platforms_pathing,
        rune_platforms_pathing_up_jump_only: m.rune_platforms_pathing_up_jump_only,
        auto_mob_platforms_pathing: m.auto_mob_platforms_pathing,
        auto_mob_platforms_pathing_up_jump_only: m.auto_mob_platforms_pathing_up_jump_only,
        auto_mob_platforms_bound: m.auto_mob_platforms_bound,
        auto_mob_use_key_when_pathing: m.auto_mob_use_key_when_pathing,
        auto_mob_use_key_when_pathing_update_millis: m.auto_mob_use_key_when_pathing_update_millis,
        ..config
    }
}

/// Applying the same map again leaves the player's configuration as applying
/// it once did.
pub proof fn applying_a_map_again_changes_nothing(config: PlayerConfig, m: MinimapData)
    ensures
        config_from_map(config_from_map(config, m), m) == config_from_map(config, m),
{
}

/// Handles minimap-related requests.
pub trait MinimapService {
    /// Creates the data of a new map named `name` from the detected minimap.
    fn create(&self, minimap_state: Minimap, name: String) -> Option<MinimapData>;

    /// The map in use.
    fn minimap(&self) -> Option<&MinimapData>;

    /// The action preset in use.
    fn preset(&self) -> Option<String>;

    /// Sets the map and preset to use.
    fn update_minimap_preset(&mut self, minimap: Option<MinimapData>, preset: Option<String>);

    /// Updates the minimap and player contexts from the map in use.
    fn apply(&self, minimap_context: &mut MinimapContext, player_context: &mut PlayerContext);

    /// Starts detecting the minimap again.
    fn redetect(&self, minimap: &mut MinimapEntity);
}

/// The minimap service of the bot.
#[derive(Debug)]
pub struct DefaultMinimapService {
    minimap: Option<MinimapData>,
    preset: Option<String>,
}

/// The name of a preset, as characters.
pub open spec fn preset_view(p: Option<String>) -> Option<Seq<char>> {
    match p {
        Some(s) => Some(s@),
        None => None,
    }
}

impl DefaultMinimapService {
    /// The map that this service holds.
    pub closed spec fn current_minimap(&self) -> Option<MinimapData> {
        self.minimap
    }

    /// The preset that this service holds.
    pub open spec fn current_preset(&self) -> Option<Seq<char>> {
        preset_view(self.preset_option())
    }

    /// The preset that this service holds.
    pub closed spec fn preset_option(&self) -> Option<String> {
        self.preset
    }

    /// A service with no map and no preset.
    pub fn new() -> (s: Self)
        ensures
            s.current_minimap() is None,
            s.current_preset() is None,
    {
        DefaultMinimapService { minimap: None, preset: None }
    }

    /// A service holding `minimap` and `preset`.
    pub fn with_minimap(minimap: Option<MinimapData>, preset: Option<String>) -> (s: Self)
        ensures
            s.current_minimap() == minimap,
            s.current_preset() == preset_view(preset),
    {
        DefaultMinimapService { minimap, preset }
    }
}

impl Default for DefaultMinimapService {
    fn default() -> (s: Self)
        ensures
            s.current_minimap() is None,
            s.current_preset() is None,
    {
        DefaultMinimapService::new()
    }
}

fn copy_platforms(platforms: &Vec<Platform>) -> (r: Vec<Platform>)
    ensures
        r@ == platforms@,
{
    let mut out: Vec<Platform> = Vec::new();
    let mut i: usize = 0;
    while i < platforms.len()
        invariant
            i <= platforms@.len(),
            out@ == platforms@.subrange(0, i as int),
        decreases platforms@.len() - i,
    {
        out.push(platforms[i]);
        i += 1;
    }
    assert(out@ =~= platforms@);
    out
}

impl MinimapService for DefaultMinimapService {
    fn create(&self, minimap_state: Minimap, name: String) -> (r: Option<MinimapData>)
        ensures
            match minimap_state {
                Minimap::Idle(idle) => r matches Some(m) && is_new_map(
                    m,
                    name@,
                    idle.bbox.width,
                    idle.bbox.height,
                ),
                Minimap::Detecting => r is None,
            },
    {
        match minimap_state {
            Minimap::Idle(idle) => Some(
                MinimapData::new_named(name, idle.bbox.width, idle.bbox.height),
            ),
            Minimap::Detecting => None,
        }
    }

    fn minimap(&self) -> (r: Option<&MinimapData>)
        ensures
            r == match self.current_minimap() {
                Some(m) => Some(&m),
                None => None::<&MinimapData>,
            },
    {
        match &self.minimap {
            Some(m) => Some(m),
            None => None,
        }
    }

    fn preset(&self) -> (r: Option<String>)
        ensures
            preset_view(r) == self.current_preset(),
            r == self.preset_option(),
    {
        match &self.preset {
            Some(p) => Some(p.clone()),
            None => None,
        }
    }

    fn update_minimap_preset(&mut self, minimap: Option<MinimapData>, preset: Option<String>)
        ensures
            final(self).current_minimap() == minimap,
            final(self).current_preset() == preset_view(preset),
    {
        self.minimap = minimap;
        self.preset = preset;
    }

    fn apply(&self, minimap_context: &mut MinimapContext, player_context: &mut PlayerContext)
        ensures
            final(minimap_context).platforms_view() == match self.current_minimap() {
                Some(m) => m.platforms@,
                None => Seq::<Platform>::empty(),
            },
            final(player_context).config == match self.current_minimap() {
                Some(m) => config_from_map(old(player_context).config, m),
                None => old(player_context).config,
            },
    {
        let platforms = match &self.minimap {
            Some(data) => copy_platforms(&data.platforms),
            None => Vec::new(),
        };
        minimap_context.set_platforms(platforms);
        if let Some(minimap) = &self.minimap {
            let config = player_context.config;
            player_context.config = PlayerConfig {
                rune_platforms_pathing: minimap.rune_platforms_pathing,
                rune_platforms_pathing_up_jump_only: minimap.rune_platforms_pathing_up_jump_only,
                auto_mob_platforms_pathing: minimap.auto_mob_platforms_pathing,
                auto_mob_platforms_pathing_up_jump_only:
                    minimap.auto_mob_platforms_pathing_up_jump_only,
                auto_mob_platforms_bound: minimap.auto_mob_platforms_bound,
                auto_mob_use_key_when_pathing: minimap.auto_mob_use_key_when_pathing,
                auto_mob_use_key_when_pathing_update_millis:
                    minimap.auto_mob_use_key_when_pathing_update_millis,
                ..config
            };
        }
    }

    fn redetect(&self, minimap: &mut MinimapEntity)
        ensures
            final(minimap).state == Minimap::Detecting,
            final(minimap).context == old(minimap).context,
    {
        minimap.state = Minimap::Detecting;
    }
}

} // verus!
