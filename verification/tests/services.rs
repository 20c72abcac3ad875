use komari::geometry::Rect;
use komari::keyboard::binding_of_lowercase;
use komari::keys::{KeyBinding, KeyBindingConfiguration, KeyKind};
use komari::maps::MinimapData;
use komari::minimap::{Minimap, MinimapContext, MinimapEntity, MinimapIdle};
use komari::models::{Character, Settings};
use komari::player::PlayerContext;
use komari::services::control::{
    bot_action_key, bot_token_to_start, reply_text, BotAction, CommandKind, ControlCommand,
    ControlEventHandler, ControlFacts, ControlReply, PlayerAction,
};
use komari::services::game::{poll_database, poll_key, DatabaseEvent, GameEffect, GameEvent, KeyOutcome};
use komari::services::localization::{DefaultLocalizationService, Localization, LocalizationService};
use komari::services::minimap::MinimapService;
use komari::services::navigator::{
    decode_snapshot, grayscale_snapshot_or_same, DefaultNavigatorService, NavigationPath,
    NavigatorService, SnapshotCapture,
};
use komari::services::operation::{
    BotOperationUpdate, DefaultOperationService, OperationChange, OperationEvent,
    OperationService,
};
use komari::services::ui::{DefaultUiService, Request, UiEvent, UiService};
use komari::services::world::{
    NotificationKind, WorldCommand, WorldEvent, WorldEventHandler, WorldFacts,
};
use komari::services::{GameEventHandler, Response, Services, UiEffect, UiEventHandler};

fn idle_minimap() -> MinimapEntity {
    MinimapEntity {
        state: Minimap::Idle(MinimapIdle {
            bbox: Rect {
                x: 0,
                y: 0,
                width: 40,
                height: 30,
            },
        }),
        context: MinimapContext::default(),
    }
}

#[test]
fn queued_halt_fires_once_its_timer_runs_out() {
    let mut service = DefaultOperationService::default();
    assert_eq!(service.poll(true, false), None);
    service.queue_halt();
    assert!(service.has_pending_halt());
    assert_eq!(service.poll(false, false), None);
    assert_eq!(service.poll(true, false), Some(OperationEvent::Halt));
    assert!(!service.has_pending_halt());

    service.queue_halt();
    assert_eq!(service.poll(true, true), None);
    assert!(!service.has_pending_halt());
}

#[test]
fn stopping_clears_the_queued_halt() {
    let settings = Settings {
        cycle_run_stop: true,
        cycle_run_duration_millis: 10,
        cycle_stop_duration_millis: 20,
        ..Default::default()
    };
    let mut service = DefaultOperationService::default();
    service.queue_halt();
    let run = service.apply(&settings, BotOperationUpdate::Run);
    assert_eq!(run.clear_states, None);
    assert!(!run.abort_pending_halt);
    assert!(service.has_pending_halt());
    assert_eq!(
        run.operation,
        OperationChange::Update {
            update: BotOperationUpdate::Run,
            cycle_run_stop: true,
            cycle_run_duration_millis: 10,
            cycle_stop_duration_millis: 20,
        }
    );

    let halt = service.apply(&settings, BotOperationUpdate::Halt);
    assert_eq!(halt.clear_states, Some(true));
    assert!(halt.abort_pending_halt);
    assert!(!service.has_pending_halt());

    service.queue_halt();
    let to_town = service.halt(false, true);
    assert_eq!(to_town.operation, OperationChange::SetHalting);
    assert_eq!(to_town.clear_states, Some(false));
    assert!(to_town.inject_panic_to_town);
    assert!(to_town.abort_pending_halt);
    let again = service.halt(true, false);
    assert_eq!(again.operation, OperationChange::Keep);
    assert!(!again.abort_pending_halt);
}

fn facts(halting: bool, stop_on_player_die: bool, stop_on_fail: bool) -> WorldFacts {
    WorldFacts {
        halting,
        stop_on_player_die,
        stop_on_fail_or_change_map: stop_on_fail,
        panicking_to_channel: false,
    }
}

#[test]
fn world_events_become_commands() {
    let mut handler = WorldEventHandler;
    assert_eq!(
        handler.handle(WorldEvent::CycledToHalt, facts(false, false, false)),
        vec![WorldCommand::Halt { go_to_town: true }]
    );
    assert_eq!(
        handler.handle(WorldEvent::PlayerDied, facts(false, true, false)),
        vec![WorldCommand::Halt { go_to_town: false }]
    );
    assert!(handler
        .handle(WorldEvent::PlayerDied, facts(false, false, false))
        .is_empty());
    assert_eq!(
        handler.handle(WorldEvent::MinimapChanged, facts(false, false, true)),
        vec![
            WorldCommand::Notify(NotificationKind::FailOrMapChange),
            WorldCommand::QueueHalt
        ]
    );
    assert_eq!(
        handler.handle(WorldEvent::CaptureFailed, facts(false, false, true)),
        vec![
            WorldCommand::ApplyOperation(BotOperationUpdate::TemporaryHalt),
            WorldCommand::Notify(NotificationKind::FailOrMapChange)
        ]
    );
    assert_eq!(
        handler.handle(WorldEvent::LieDetectorAppeared, facts(true, false, false)),
        vec![WorldCommand::Notify(NotificationKind::LieDetectorAppear)]
    );
}

#[test]
fn halting_bot_ignores_failures() {
    let mut handler = WorldEventHandler;
    assert!(handler
        .handle(WorldEvent::MinimapChanged, facts(true, true, true))
        .is_empty());
    assert!(handler
        .handle(WorldEvent::CaptureFailed, facts(true, true, true))
        .is_empty());
}

fn control_facts(halting: bool, has_map_and_character: bool) -> ControlFacts {
    ControlFacts {
        halting,
        has_map_and_character,
        jump_key: KeyKind::Space,
        chat_max_length: 5,
    }
}

#[test]
fn control_commands_get_replies() {
    let mut handler = ControlEventHandler;
    assert_eq!(
        handler.handle(CommandKind::Start, control_facts(false, true)).reply,
        Some(ControlReply::AlreadyRunning)
    );
    assert_eq!(
        handler.handle(CommandKind::Start, control_facts(true, false)).reply,
        Some(ControlReply::NoMapOrCharacter)
    );
    let started = handler.handle(CommandKind::Start, control_facts(true, true));
    assert_eq!(started.reply, Some(ControlReply::Started));
    assert_eq!(
        started.command,
        Some(ControlCommand::ApplyOperation(BotOperationUpdate::Run))
    );
    let chat = handler.handle(
        CommandKind::Chat {
            content: "hello!".to_string(),
        },
        control_facts(false, true),
    );
    assert_eq!(chat.reply, Some(ControlReply::ChatTooLong { max_length: 5 }));
    assert_eq!(chat.command, None);
    let short = handler.handle(
        CommandKind::Chat {
            content: "hi".to_string(),
        },
        control_facts(false, true),
    );
    assert_eq!(
        short.command,
        Some(ControlCommand::InjectAction(PlayerAction::Chat(
            "hi".to_string()
        )))
    );
    let jump = handler.handle(
        CommandKind::Action {
            action: BotAction::DoubleJump,
            count: 2,
        },
        control_facts(false, true),
    );
    assert_eq!(
        jump.command,
        Some(ControlCommand::InjectAction(PlayerAction::Key(
            bot_action_key(BotAction::DoubleJump, KeyKind::Space, 2)
        )))
    );
    assert_eq!(
        bot_action_key(BotAction::Crouch, KeyKind::Space, 1).key,
        KeyKind::Down
    );
}

#[test]
fn discord_bot_starts_only_with_a_token() {
    assert_eq!(bot_token_to_start(&Settings::default()), None);
    let settings = Settings {
        discord_bot_access_token: "discord-bot-token".to_string(),
        ..Default::default()
    };
    assert_eq!(
        bot_token_to_start(&settings),
        Some("discord-bot-token".to_string())
    );
}

#[test]
fn database_events_for_the_map_and_character_in_use() {
    let map = MinimapData {
        id: Some(3),
        ..Default::default()
    };
    assert_eq!(
        poll_database(DatabaseEvent::MapUpdated(map.clone()), Some(3), None),
        Some(GameEvent::MapUpdated(Some(map.clone())))
    );
    assert_eq!(
        poll_database(DatabaseEvent::MapUpdated(map), Some(4), None),
        None
    );
    assert_eq!(
        poll_database(DatabaseEvent::CharacterDeleted(9), None, Some(9)),
        Some(GameEvent::CharacterUpdated(None))
    );
    assert_eq!(
        poll_database(DatabaseEvent::NavigationPathsDeleted, None, None),
        Some(GameEvent::NavigationPathsUpdated)
    );
}

#[test]
fn toggle_key_toggles_operation() {
    let settings = Settings {
        toggle_actions_key: KeyBindingConfiguration {
            key: KeyBinding::F9,
            enabled: true,
        },
        ..Default::default()
    };
    assert_eq!(poll_key(KeyKind::F9, &settings), KeyOutcome::ToggleOperation);
    assert_eq!(
        poll_key(KeyKind::F8, &settings),
        KeyOutcome::Forward(KeyBinding::F8)
    );
    assert_eq!(
        poll_key(KeyKind::F9, &Settings::default()),
        KeyOutcome::Forward(KeyBinding::F9)
    );
}

#[test]
fn ui_service_hands_out_queued_updates() {
    let mut service = DefaultUiService::default();
    assert_eq!(service.poll(), None);
    service.queue_update_map(Some("p".to_string()), None);
    service.queue_update_character(None);
    assert_eq!(
        service.poll(),
        Some(UiEvent::Internal {
            request: Request::UpdateCharacter(None)
        })
    );
    assert_eq!(
        service.poll(),
        Some(UiEvent::Internal {
            request: Request::UpdateMinimap(Some("p".to_string()), None)
        })
    );
    assert_eq!(service.poll(), None);
}

#[test]
fn localization_is_replaced() {
    let mut service = DefaultLocalizationService::new(Localization::default());
    let updated = Localization {
        timer_base: Some("AAAA".to_string()),
        ..Default::default()
    };
    service.update_localization(updated.clone());
    assert_eq!(service.localization(), &updated);
}

#[test]
fn navigation_snapshots_are_base64() {
    let capture = SnapshotCapture {
        minimap_png: vec![1, 2, 3],
        name_png: b"Man".to_vec(),
        name_bbox: Rect {
            x: 0,
            y: 0,
            width: 12,
            height: 5,
        },
    };
    let service = DefaultNavigatorService;
    let path = service.create_path(Some(capture.clone())).unwrap();
    assert_eq!(path.minimap_snapshot_base64, "AQID");
    assert_eq!(path.name_snapshot_base64, "TWFu");
    assert_eq!(
        (path.name_snapshot_width, path.name_snapshot_height),
        (12, 5)
    );
    assert!(service.create_path(None).is_none());

    let old = NavigationPath {
        minimap_snapshot_base64: String::new(),
        name_snapshot_base64: String::new(),
        name_snapshot_width: 0,
        name_snapshot_height: 0,
    };
    assert_eq!(service.recapture_path(None, old.clone()), old);
    assert_eq!(service.recapture_path(Some(capture), old), path);
}

#[test]
fn snapshots_decode_and_convert() {
    assert_eq!(decode_snapshot(&"AQID".to_string()), Some(vec![1, 2, 3]));
    assert_eq!(decode_snapshot(&"not base64!".to_string()), None);
    assert_eq!(
        grayscale_snapshot_or_same("AQID".to_string(), Some(vec![255])),
        "/w=="
    );
    assert_eq!(
        grayscale_snapshot_or_same("AQID".to_string(), None),
        "AQID"
    );
}

#[test]
fn operation_needs_a_map_and_a_character() {
    let mut services = Services::new(Settings::default(), Localization::default());
    assert_eq!(services.update_operation(BotOperationUpdate::Run), None);

    let mut minimap = idle_minimap();
    let mut player = PlayerContext::default();
    services.update_map(
        &mut minimap.context,
        &mut player,
        None,
        Some(MinimapData::default()),
    );
    let update = services.update_character(&mut player, Some(Character::default()));
    assert!(update.refresh_buffs);
    assert!(services
        .update_operation(BotOperationUpdate::Run)
        .is_some());
}

#[test]
fn game_events_are_handled() {
    let mut services = Services::new(Settings::default(), Localization::default());
    let mut handler = GameEventHandler;

    let toggled = handler.handle(&mut services, GameEvent::ToggleOperation, true);
    match &toggled[..] {
        [GameEffect::Operation(effects)] => {
            assert!(matches!(
                effects.operation,
                OperationChange::Update {
                    update: BotOperationUpdate::Run,
                    ..
                }
            ));
        }
        _ => panic!("expected one operation effect"),
    }

    let settings = Settings {
        enable_rune_solving: true,
        ..Default::default()
    };
    let effects = handler.handle(
        &mut services,
        GameEvent::SettingsUpdated(settings.clone()),
        false,
    );
    assert_eq!(services.settings, settings);
    assert_eq!(effects.len(), 3);
    assert_eq!(effects[0], GameEffect::ApplySettings);
    assert_eq!(effects[1], GameEffect::UpdateControl);
    match &effects[2] {
        GameEffect::BuildRotator(args) => assert!(args.enable_rune_solving),
        _ => panic!("expected the rotator's arguments"),
    }

    assert!(handler
        .handle(&mut services, GameEvent::CharacterUpdated(None), false)
        .is_empty());
    assert_eq!(
        services.ui.poll(),
        Some(UiEvent::Internal {
            request: Request::UpdateCharacter(None)
        })
    );
    assert_eq!(
        handler.handle(&mut services, GameEvent::NavigationPathsUpdated, false),
        vec![GameEffect::MarkNavigatorDirty]
    );
}

#[test]
fn ui_requests_are_answered_or_forwarded() {
    let mut services = Services::new(Settings::default(), Localization::default());
    let mut handler = UiEventHandler;
    let mut minimap = idle_minimap();
    let mut player = PlayerContext::default();

    let created = handler.handle(
        &mut services,
        &mut minimap,
        &mut player,
        UiEvent::External {
            request: Request::CreateMinimap("New".to_string()),
        },
    );
    assert!(created.send_response);
    let map = match created.response {
        Some(Response::CreateMinimap(Some(map))) => map,
        _ => panic!("expected a new map"),
    };
    assert_eq!((map.width, map.height), (40, 30));

    let updated = handler.handle(
        &mut services,
        &mut minimap,
        &mut player,
        UiEvent::Internal {
            request: Request::UpdateMinimap(None, Some(map.clone())),
        },
    );
    assert!(!updated.send_response);
    assert_eq!(updated.response, Some(Response::UpdateMinimap));
    assert_eq!(updated.effects.len(), 2);
    assert_eq!(updated.effects[1], UiEffect::NavigatorDestination(None));
    assert_eq!(services.minimap.minimap(), Some(&map));

    let redetected = handler.handle(
        &mut services,
        &mut minimap,
        &mut player,
        UiEvent::External {
            request: Request::RedetectMinimap,
        },
    );
    assert_eq!(redetected.effects, vec![UiEffect::MarkNavigatorDirty]);
    assert_eq!(minimap.state, Minimap::Detecting);

    let forwarded = handler.handle(
        &mut services,
        &mut minimap,
        &mut player,
        UiEvent::External {
            request: Request::QueryCaptureHandles,
        },
    );
    assert_eq!(forwarded.response, None);
    assert_eq!(forwarded.forwarded, Some(Request::QueryCaptureHandles));
}

#[test]
fn ids_of_the_map_and_character_in_use() {
    let mut services = Services::new(Settings::default(), Localization::default());
    assert_eq!(services.ids_in_use(), (None, None));
    let mut minimap = idle_minimap();
    let mut player = PlayerContext::default();
    services.update_map(
        &mut minimap.context,
        &mut player,
        None,
        Some(MinimapData {
            id: Some(7),
            ..Default::default()
        }),
    );
    services.update_character(
        &mut player,
        Some(Character {
            id: Some(2),
            ..Default::default()
        }),
    );
    assert_eq!(services.ids_in_use(), (Some(7), Some(2)));
}

#[test]
fn status_report_lists_state_and_operation() {
    assert_eq!(
        komari::services::control::status_text("Idle", "Running"),
        "- State: ``Idle``\n- Operation: ``Running``"
    );
}

#[test]
fn paths_are_built_from_snapshot_text() {
    let path = komari::services::navigator::path_from_snapshots(
        "AQID".to_string(),
        "TWFu".to_string(),
        Rect {
            x: 5,
            y: 6,
            width: 7,
            height: 8,
        },
    );
    assert_eq!(path.minimap_snapshot_base64, "AQID");
    assert_eq!(path.name_snapshot_base64, "TWFu");
    assert_eq!((path.name_snapshot_width, path.name_snapshot_height), (7, 8));
}

#[test]
fn lowercase_forms_name_keys() {
    assert_eq!(binding_of_lowercase("a"), Some(KeyBinding::A));
    assert_eq!(binding_of_lowercase("/"), Some(KeyBinding::Slash));
    assert_eq!(binding_of_lowercase("A"), None);
    assert_eq!(binding_of_lowercase(""), None);
}

#[test]
fn replies_read_as_messages() {
    assert_eq!(reply_text(ControlReply::AlreadyRunning), "Bot already running.");
    assert_eq!(
        reply_text(ControlReply::NoMapOrCharacter),
        "No map or character data set."
    );
    assert_eq!(reply_text(ControlReply::Started), "Bot started running.");
    assert_eq!(reply_text(ControlReply::Stopped), "Bot stopped running.");
    assert_eq!(
        reply_text(ControlReply::SuspendAttempted),
        "Bot attempted to suspend."
    );
    assert_eq!(
        reply_text(ControlReply::ChatTooLong { max_length: 100 }),
        "Message length must be less than 100 characters."
    );
    assert_eq!(reply_text(ControlReply::ChatQueued), "Queued a chat action.");
    assert_eq!(
        reply_text(ControlReply::ActionQueued {
            action: BotAction::Jump,
            count: 3
        }),
        "Queued `Jump` x 3"
    );
}

#[test]
fn queued_character_update_comes_before_the_map() {
    let mut service = DefaultUiService::default();
    service.queue_update_character(Some(Character::default()));
    assert_eq!(
        service.poll(),
        Some(UiEvent::Internal {
            request: Request::UpdateCharacter(Some(Character::default()))
        })
    );
    assert_eq!(service.poll(), None);
}

#[test]
fn only_canonical_base64_decodes() {
    assert_eq!(decode_snapshot(&"TWFu".to_string()), Some(b"Man".to_vec()));
    assert_eq!(decode_snapshot(&"".to_string()), Some(Vec::new()));
    // Non-zero trailing bits and missing padding are refused.
    assert_eq!(decode_snapshot(&"/x==".to_string()), None);
    assert_eq!(decode_snapshot(&"/w".to_string()), None);
}
