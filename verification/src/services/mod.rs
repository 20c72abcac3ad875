//! Services that hold the character and map in use and apply them, and the
//! decisions that the event handlers make.

pub mod character;
pub mod control;
pub mod game;
pub mod localization;
pub mod minimap;
pub mod navigator;
pub mod operation;
pub mod rotator;
pub mod ui;
pub mod world;

use vstd::prelude::*;

verus! {

/// An event that the bot's services raise and its handlers handle.
pub trait Event {

}

} // verus!

use crate::maps::{is_new_map, MinimapData};
use crate::minimap::{Minimap, MinimapContext, MinimapEntity};
use crate::models::{Character, Settings};
use crate::player::{PlayerConfig, PlayerContext};
use character::{config_from_character, CharacterService, DefaultCharacterService};
use game::{GameEffect, GameEvent};
use localization::{DefaultLocalizationService, Localization, LocalizationService};
use minimap::{config_from_map, preset_view, DefaultMinimapService, MinimapService};
use operation::{
    apply_effects, stops, BotOperationUpdate, DefaultOperationService, OperationEffects,
    OperationService,
};
use rotator::{
    build_args_spec, character_actions, character_buffs, map_actions, DefaultRotatorService,
    RotatorBuildArgs, RotatorService,
};
use ui::{DefaultUiService, Request, UiEvent, UiService};

verus! {

/// The bot's services, together with the settings in use.
#[derive(Debug)]
pub struct Services {
    pub minimap: DefaultMinimapService,
    pub character: DefaultCharacterService,
    pub rotator: DefaultRotatorService,
    pub operation: DefaultOperationService,
    pub localization: DefaultLocalizationService,
    pub ui: DefaultUiService,
    pub settings: Settings,
}

/// What the caller carries out after the map in use changed.
#[derive(Clone, Debug, PartialEq, Eq)]
pub struct MapUpdate {
    /// Build the rotator from these arguments.
    pub rotator: RotatorBuildArgs,
    /// Have the navigator recompute its paths toward this destination.
    pub navigator_destination: Option<i64>,
}

/// What the caller carries out after the character in use changed.
#[derive(Clone, Debug, PartialEq, Eq)]
pub struct CharacterUpdate {
    /// Build the rotator from these arguments.
    pub rotator: RotatorBuildArgs,
    /// Update which buffs are enabled from the new character.
    pub refresh_buffs: bool,
}

impl Services {
    /// Services with no map, no character, no actions and nothing queued.
    pub fn new(settings: Settings, localization: Localization) -> (s: Self)
        ensures
            s.minimap.current_minimap() is None,
            s.minimap.current_preset() is None,
            s.character.current() is None,
            s.rotator.actions_view().len() == 0,
            s.rotator.buffs_view().len() == 0,
            !s.operation.pending(),
            s.localization.current() == localization,
            s.ui.pending_character() is None,
            s.ui.pending_map() is None,
            s.settings == settings,
    {
        Services {
            minimap: DefaultMinimapService::new(),
            character: DefaultCharacterService::new(),
            rotator: DefaultRotatorService::new(),
            operation: DefaultOperationService::new(),
            localization: DefaultLocalizationService::new(localization),
            ui: DefaultUiService::new(),
            settings,
        }
    }

    /// Applies an operation update from the user, which needs a map and a
    /// character; `None` where one of them is missing.
    pub fn update_operation(&mut self, update: BotOperationUpdate) -> (r: Option<OperationEffects>)
        ensures
            (old(self).minimap.current_minimap() is None || old(self).character.current() is None)
                ==> r is None && final(self).operation.pending() == old(self).operation.pending(),
            (old(self).minimap.current_minimap() is Some && old(self).character.current() is Some)
                ==> r == Some(apply_effects(old(self).settings, update, old(self).operation.pending()))
                && final(self).operation.pending() == (old(self).operation.pending() && !stops(
                update,
            )),
            final(self).minimap == old(self).minimap,
            final(self).character == old(self).character,
            final(self).rotator == old(self).rotator,
            final(self).localization == old(self).localization,
            final(self).ui == old(self).ui,
            final(self).settings == old(self).settings,
    {
        if self.minimap.minimap().is_none() || self.character.character().is_none() {
            return None;
        }
        Some(self.operation.apply(&self.settings, update))
    }

    /// The ids of the map and the character in use, against which database
    /// events are matched.
    pub fn ids_in_use(&self) -> (r: (Option<i64>, Option<i64>))
        ensures
            r.0 == match self.minimap.current_minimap() {
                Some(m) => m.id,
                None => None,
            },
            r.1 == match self.character.current() {
                Some(c) => c.id,
                None => None,
            },
    {
        let map_id = match self.minimap.minimap() {
            Some(m) => m.id,
            None => None,
        };
        let character_id = match self.character.character() {
            Some(c) => c.id,
            None => None,
        };
        (map_id, character_id)
    }

    /// Creates the data of a new map from the detected minimap.
    pub fn create_map(&self, minimap_state: Minimap, name: String) -> (r: Option<MinimapData>)
        ensures
            match minimap_state {
                Minimap::Idle(idle) => r matches Some(m) && is_new_map(
                    m,
                    name@,
                    idle.bbox.width,
                    idle.bbox.height,
                ),
                Minimap::Detecting => r is None,
            },
    {
        self.minimap.create(minimap_state, name)
    }

    /// Uses `map` with `preset`: configures the minimap and the player from the
    /// map, rebuilds the actions and gives what the rotator is built from.
    pub fn update_map(
        &mut self,
        minimap_context: &mut MinimapContext,
        player_context: &mut PlayerContext,
        preset: Option<String>,
        map: Option<MinimapData>,
    ) -> (r: MapUpdate)
        ensures
            final(self).minimap.current_minimap() == map,
            final(self).minimap.current_preset() == preset_view(preset),
            final(minimap_context).platforms_view() == match map {
                Some(m) => m.platforms@,
                None => Seq::empty(),
            },
            final(player_context).config == match map {
                Some(m) => config_from_map(old(player_context).config, m),
                None => old(player_context).config,
            },
            final(self).rotator.actions_view() == match old(self).character.current() {
                Some(c) => character_actions(c),
                None => Seq::empty(),
            } + map_actions(map, preset_view(preset)),
            final(self).rotator.buffs_view() == old(self).rotator.buffs_view(),
            build_args_spec(
                r.rotator,
                final(self).rotator.actions_view(),
                final(self).rotator.buffs_view(),
                map,
                old(self).character.current(),
                old(self).settings,
            ),
            r.navigator_destination == match map {
                Some(m) => m.paths_id_index,
                None => None,
            },
            final(self).character == old(self).character,
            final(self).operation == old(self).operation,
            final(self).localization == old(self).localization,
            final(self).ui == old(self).ui,
            final(self).settings == old(self).settings,
    {
        self.minimap.update_minimap_preset(map, preset);
        self.minimap.apply(minimap_context, player_context);
        let preset = self.minimap.preset();
        let map = self.minimap.minimap();
        let character = self.character.character();
        self.rotator.update_actions(map, preset, character);
        let rotator = self.rotator.apply(map, character, &self.settings);
        let navigator_destination = match map {
            Some(m) => m.paths_id_index,
            None => None,
        };
        MapUpdate { rotator, navigator_destination }
    }

    /// Uses `character`: configures the player from it, rebuilds the actions
    /// and buffs and gives what the rotator is built from.
    pub fn update_character(&mut self, player_context: &mut PlayerContext, character: Option<
        Character,
    >) -> (r: CharacterUpdate)
        ensures
            final(self).character.current() == character,
            final(player_context).config == match character {
                Some(c) => config_from_character(old(player_context).config, c),
                None => old(player_context).config,
            },
            final(self).rotator.actions_view() == match character {
                Some(c) => character_actions(c),
                None => Seq::empty(),
            } + map_actions(old(self).minimap.current_minimap(), old(self).minimap.current_preset()),
            final(self).rotator.buffs_view() == match character {
                Some(c) => character_buffs(c),
                None => Seq::empty(),
            },
            build_args_spec(
                r.rotator,
                final(self).rotator.actions_view(),
                final(self).rotator.buffs_view(),
                old(self).minimap.current_minimap(),
                character,
                old(self).settings,
            ),
            r.refresh_buffs == character is Some,
            final(self).minimap == old(self).minimap,
            final(self).operation == old(self).operation,
            final(self).localization == old(self).localization,
            final(self).ui == old(self).ui,
            final(self).settings == old(self).settings,
    {
        self.character.update_character(character);
        self.character.apply_character(player_context);
        let character = self.character.character();
        let map = self.minimap.minimap();
        let preset = self.minimap.preset();
        self.rotator.update_actions(map, preset, character);
        self.rotator.update_buffs(character);
        let rotator = self.rotator.apply(map, character, &self.settings);
        CharacterUpdate { rotator, refresh_buffs: character.is_some() }
    }
}

} // verus!

verus! {

/// A map and a character set different parts of the player's
/// configuration, so the order in which they are applied does not matter.
pub proof fn map_and_character_apply_in_either_order(
    config: PlayerConfig,
    m: MinimapData,
    c: Character,
)
    ensures
        config_from_map(config_from_character(config, c), m) == config_from_character(
            config_from_map(config, m),
            c,
        ),
{
}

/// Decides what the bot does about game events.
#[derive(Clone, Copy, Debug)]
pub struct GameEventHandler;

impl GameEventHandler {
    /// Handles `event`, given whether the bot is halting; gives what the caller
    /// carries out, in order.
    pub fn handle(&mut self, services: &mut Services, event: GameEvent, halting: bool) -> (r: Vec<
        GameEffect,
    >)
        ensures
            match event {
                GameEvent::ToggleOperation => {
                    &&& r@ == seq![
                        GameEffect::Operation(
                            apply_effects(
                                old(services).settings,
                                if halting {
                                    BotOperationUpdate::Run
                                } else {
                                    BotOperationUpdate::TemporaryHalt
                                },
                                old(services).operation.pending(),
                            ),
                        ),
                    ]
                    &&& final(services).operation.pending() == (old(services).operation.pending()
                        && halting)
                    &&& final(services).minimap == old(services).minimap
                    &&& final(services).character == old(services).character
                    &&& final(services).rotator == old(services).rotator
                    &&& final(services).localization == old(services).localization
                    &&& final(services).ui == old(services).ui
                    &&& final(services).settings == old(services).settings
                },
                GameEvent::MapUpdated(map) => {
                    &&& r@.len() == 0
                    &&& final(services).ui.pending_map() == Some(
                        (old(services).minimap.preset_option(), map),
                    )
                    &&& final(services).ui.pending_character() == old(
                        services,
                    ).ui.pending_character()
                    &&& final(services).minimap == old(services).minimap
                    &&& final(services).character == old(services).character
                    &&& final(services).rotator == old(services).rotator
                    &&& final(services).operation == old(services).operation
                    &&& final(services).localization == old(services).localization
                    &&& final(services).settings == old(services).settings
                },
                GameEvent::CharacterUpdated(c) => {
                    &&& r@.len() == 0
                    &&& final(services).ui.pending_character() == Some(c)
                    &&& final(services).ui.pending_map() == old(services).ui.pending_map()
                    &&& final(services).minimap == old(services).minimap
                    &&& final(services).character == old(services).character
                    &&& final(services).rotator == old(services).rotator
                    &&& final(services).operation == old(services).operation
                    &&& final(services).localization == old(services).localization
                    &&& final(services).settings == old(services).settings
                },
                GameEvent::SettingsUpdated(settings) => {
                    &&& final(services).settings == settings
                    &&& final(services).minimap == old(services).minimap
                    &&& final(services).character == old(services).character
                    &&& final(services).rotator == old(services).rotator
                    &&& final(services).operation == old(services).operation
                    &&& final(services).localization == old(services).localization
                    &&& final(services).ui == old(services).ui
                    &&& r@.len() == 3
                    &&& r@[0] == GameEffect::ApplySettings
                    &&& r@[1] == GameEffect::UpdateControl
                    &&& (r@[2] matches GameEffect::BuildRotator(args) && build_args_spec(
                        args,
                        old(services).rotator.actions_view(),
                        old(services).rotator.buffs_view(),
                        old(services).minimap.current_minimap(),
                        old(services).character.current(),
                        settings,
                    ))
                },
                GameEvent::LocalizationUpdated(l) => {
                    &&& r@.len() == 0
                    &&& final(services).localization.current() == l
                    &&& final(services).minimap == old(services).minimap
                    &&& final(services).character == old(services).character
                    &&& final(services).rotator == old(services).rotator
                    &&& final(services).operation == old(services).operation
                    &&& final(services).ui == old(services).ui
                    &&& final(services).settings == old(services).settings
                },
                GameEvent::NavigationPathsUpdated => {
                    &&& r@ == seq![GameEffect::MarkNavigatorDirty]
                    &&& *final(services) == *old(services)
                },
            },
    {
        let mut effects: Vec<GameEffect> = Vec::new();
        match event {
            GameEvent::ToggleOperation => {
                let update = if halting {
                    BotOperationUpdate::Run
                } else {
                    BotOperationUpdate::TemporaryHalt
                };
                let e = services.operation.apply(&services.settings, update);
                effects.push(GameEffect::Operation(e));
            },
            GameEvent::MapUpdated(map) => {
                let preset = services.minimap.preset();
                services.ui.queue_update_map(preset, map);
            },
            GameEvent::CharacterUpdated(character) => {
                services.ui.queue_update_character(character);
            },
            GameEvent::SettingsUpdated(settings) => {
                services.settings = settings;
                effects.push(GameEffect::ApplySettings);
                effects.push(GameEffect::UpdateControl);
                let args = services.rotator.apply(
                    services.minimap.minimap(),
                    services.character.character(),
                    &services.settings,
                );
                effects.push(GameEffect::BuildRotator(args));
            },
            GameEvent::LocalizationUpdated(localization) => {
                services.localization.update_localization(localization);
            },
            GameEvent::NavigationPathsUpdated => {
                effects.push(GameEffect::MarkNavigatorDirty);
            },
        }
        effects
    }
}

} // verus!

verus! {

/// The answer to a user interface request that the bot carries out itself.
#[derive(Clone, Debug, PartialEq, Eq)]
pub enum Response {
    UpdateOperation,
    CreateMinimap(Option<MinimapData>),
    UpdateMinimap,
    UpdateCharacter,
    RedetectMinimap,
}

/// What a user interface request asks of the caller, in order.
#[derive(Clone, Debug, PartialEq, Eq)]
pub enum UiEffect {
    /// Carry out an operation request.
    Operation(OperationEffects),
    /// Build the rotator from these arguments.
    BuildRotator(RotatorBuildArgs),
    /// Have the navigator recompute its paths toward this destination.
    NavigatorDestination(Option<i64>),
    /// Have the navigator recompute its paths.
    MarkNavigatorDirty,
    /// Update which buffs are enabled from the character in use.
    RefreshBuffs,
}

/// The outcome of a user interface request.
#[derive(Clone, Debug, PartialEq, Eq)]
pub struct UiOutcome {
    /// The answer, for the requests that the bot carries out itself.
    pub response: Option<Response>,
    /// Whether the answer goes back to the user interface.
    pub send_response: bool,
    /// What the caller carries out, in order.
    pub effects: Vec<UiEffect>,
    /// A request that reads or writes the screen, the windows or images, which
    /// the caller carries out and answers.
    pub forwarded: Option<Request>,
}

/// The request of a user interface event.
pub open spec fn request_of(event: UiEvent) -> Request {
    match event {
        UiEvent::External { request } => request,
        UiEvent::Internal { request } => request,
    }
}

/// Decides what the bot does about user interface requests.
#[derive(Clone, Copy, Debug)]
pub struct UiEventHandler;

impl UiEventHandler {
    /// Handles `event` on the services, the minimap and the player.
    pub fn handle(
        &mut self,
        services: &mut Services,
        minimap: &mut MinimapEntity,
        player_context: &mut PlayerContext,
        event: UiEvent,
    ) -> (r: UiOutcome)
        ensures
            r.send_response == (event is External),
            match request_of(event) {
                Request::UpdateOperation(update) => {
                    &&& r.response == Some(Response::UpdateOperation)
                    &&& r.forwarded is None
                    &&& if old(services).minimap.current_minimap() is Some && old(
                        services,
                    ).character.current() is Some {
                        r.effects@ == seq![
                            UiEffect::Operation(
                                apply_effects(
                                    old(services).settings,
                                    update,
                                    old(services).operation.pending(),
                                ),
                            ),
                        ]
                    } else {
                        r.effects@.len() == 0
                    }
                    &&& final(services).minimap == old(services).minimap
                    &&& final(services).character == old(services).character
                    &&& final(services).rotator == old(services).rotator
                    &&& final(services).localization == old(services).localization
                    &&& final(services).ui == old(services).ui
                    &&& final(services).settings == old(services).settings
                    &&& *final(minimap) == *old(minimap)
                    &&& *final(player_context) == *old(player_context)
                },
                Request::CreateMinimap(name) => {
                    &&& (r.response matches Some(Response::CreateMinimap(m)) && match old(
                        minimap,
                    ).state {
                        Minimap::Idle(idle) => m matches Some(data) && is_new_map(
                            data,
                            name@,
                            idle.bbox.width,
                            idle.bbox.height,
                        ),
                        Minimap::Detecting => m is None,
                    })
                    &&& r.effects@.len() == 0
                    &&& r.forwarded is None
                    &&& *final(services) == *old(services)
                    &&& *final(minimap) == *old(minimap)
                    &&& *final(player_context) == *old(player_context)
                },
                Request::UpdateMinimap(preset, map) => {
                    &&& r.response == Some(Response::UpdateMinimap)
                    &&& r.forwarded is None
                    &&& final(services).minimap.current_minimap() == map
                    &&& final(services).minimap.current_preset() == preset_view(preset)
                    &&& final(services).rotator.actions_view() == match old(
                        services,
                    ).character.current() {
                        Some(c) => character_actions(c),
                        None => Seq::empty(),
                    } + map_actions(map, preset_view(preset))
                    &&& final(services).character == old(services).character
                    &&& final(services).rotator.buffs_view() == old(services).rotator.buffs_view()
                    &&& final(services).operation == old(services).operation
                    &&& final(services).localization == old(services).localization
                    &&& final(services).ui == old(services).ui
                    &&& final(services).settings == old(services).settings
                    &&& final(minimap).state == old(minimap).state
                    &&& final(minimap).context.platforms_view() == match map {
                        Some(m) => m.platforms@,
                        None => Seq::empty(),
                    }
                    &&& final(player_context).config == match map {
                        Some(m) => config_from_map(old(player_context).config, m),
                        None => old(player_context).config,
                    }
                    &&& r.effects@.len() == 2
                    &&& (r.effects@[0] matches UiEffect::BuildRotator(args) && build_args_spec(
                        args,
                        final(services).rotator.actions_view(),
                        old(services).rotator.buffs_view(),
                        map,
                        old(services).character.current(),
                        old(services).settings,
                    ))
                    &&& r.effects@[1] == UiEffect::NavigatorDestination(
                        match map {
                            Some(m) => m.paths_id_index,
                            None => None,
                        },
                    )
                },
                Request::UpdateCharacter(character) => {
                    &&& r.response == Some(Response::UpdateCharacter)
                    &&& r.forwarded is None
                    &&& final(services).character.current() == character
                    &&& final(player_context).config == match character {
                        Some(c) => config_from_character(old(player_context).config, c),
                        None => old(player_context).config,
                    }
                    &&& final(services).rotator.buffs_view() == match character {
                        Some(c) => character_buffs(c),
                        None => Seq::empty(),
                    }
                    &&& final(services).rotator.actions_view() == match character {
                        Some(c) => character_actions(c),
                        None => Seq::empty(),
                    } + map_actions(
                        old(services).minimap.current_minimap(),
                        old(services).minimap.current_preset(),
                    )
                    &&& final(services).minimap == old(services).minimap
                    &&& final(services).operation == old(services).operation
                    &&& final(services).localization == old(services).localization
                    &&& final(services).ui == old(services).ui
                    &&& final(services).settings == old(services).settings
                    &&& *final(minimap) == *old(minimap)
                    &&& r.effects@.len() == if character is Some {
                        2int
                    } else {
                        1int
                    }
                    &&& (character is Some ==> r.effects@[0] == UiEffect::RefreshBuffs)
                    &&& (r.effects@.last() matches UiEffect::BuildRotator(args) && build_args_spec(
                        args,
                        final(services).rotator.actions_view(),
                        final(services).rotator.buffs_view(),
                        old(services).minimap.current_minimap(),
                        character,
                        old(services).settings,
                    ))
                },
                Request::RedetectMinimap => {
                    &&& r.response == Some(Response::RedetectMinimap)
                    &&& r.forwarded is None
                    &&& final(minimap).state == Minimap::Detecting
                    &&& final(minimap).context == old(minimap).context
                    &&& *final(services) == *old(services)
                    &&& *final(player_context) == *old(player_context)
                    &&& r.effects@ == seq![UiEffect::MarkNavigatorDirty]
                },
                other => {
                    &&& r.response is None
                    &&& r.forwarded == Some(other)
                    &&& r.effects@.len() == 0
                    &&& *final(services) == *old(services)
                    &&& *final(minimap) == *old(minimap)
                    &&& *final(player_context) == *old(player_context)
                },
            },
    {
        let send_response = matches!(event, UiEvent::External { .. });
        let request = match event {
            UiEvent::External { request } => request,
            UiEvent::Internal { request } => request,
        };
        let mut effects: Vec<UiEffect> = Vec::new();
        match request {
            Request::UpdateOperation(update) => {
                if let Some(e) = services.update_operation(update) {
                    effects.push(UiEffect::Operation(e));
                }
                UiOutcome {
                    response: Some(Response::UpdateOperation),
                    send_response,
                    effects,
                    forwarded: None,
                }
            },
            Request::CreateMinimap(name) => {
                let created = services.create_map(minimap.state, name);
                UiOutcome {
                    response: Some(Response::CreateMinimap(created)),
                    send_response,
                    effects,
                    forwarded: None,
                }
            },
            Request::UpdateMinimap(preset, map) => {
                let update = services.update_map(&mut minimap.context, player_context, preset, map);
                effects.push(UiEffect::BuildRotator(update.rotator));
                effects.push(UiEffect::NavigatorDestination(update.navigator_destination));
                UiOutcome {
                    response: Some(Response::UpdateMinimap),
                    send_response,
                    effects,
                    forwarded: None,
                }
            },
            Request::UpdateCharacter(character) => {
                let update = services.update_character(player_context, character);
                if update.refresh_buffs {
                    effects.push(UiEffect::RefreshBuffs);
                }
                effects.push(UiEffect::BuildRotator(update.rotator));
                UiOutcome {
                    response: Some(Response::UpdateCharacter),
                    send_response,
                    effects,
                    forwarded: None,
                }
            },
            Request::RedetectMinimap => {
                services.minimap.redetect(minimap);
                effects.push(UiEffect::MarkNavigatorDirty);
                UiOutcome {
                    response: Some(Response::RedetectMinimap),
                    send_response,
                    effects,
                    forwarded: None,
                }
            },
            other => UiOutcome { response: None, send_response, effects, forwarded: Some(other) },
        }
    }
}

} // verus!
