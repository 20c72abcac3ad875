use komari::geometry::Rect;
use komari::maps::MinimapData;
use komari::minimap::{Minimap, MinimapContext, MinimapEntity, MinimapIdle};
use komari::models::Platform;
use komari::player::PlayerContext;
use komari::services::minimap::{DefaultMinimapService, MinimapService};

fn mock_idle_minimap() -> Minimap {
    Minimap::Idle(MinimapIdle {
        bbox: Rect {
            x: 0,
            y: 0,
            width: 100,
            height: 100,
        },
    })
}

fn mock_minimap_data() -> MinimapData {
    MinimapData {
        name: "MapData".to_string(),
        width: 100,
        height: 100,
        rune_platforms_pathing: true,
        rune_platforms_pathing_up_jump_only: true,
        auto_mob_platforms_pathing: true,
        auto_mob_platforms_bound: true,
        ..Default::default()
    }
}

#[test]
fn create_returns_some_when_idle_minimap() {
    let service = DefaultMinimapService::default();

    let result = service.create(mock_idle_minimap(), "MapData".to_string());

    assert!(result.is_some());
    assert_eq!(
        result.unwrap(),
        MinimapData {
            name: "MapData".to_string(),
            width: 100,
            height: 100,
            ..Default::default()
        }
    );
}

#[test]
fn create_returns_none_when_not_idle_minimap() {
    let service = DefaultMinimapService::default();

    let result = service.create(Minimap::Detecting, "ShouldNotExist".to_string());

    assert!(result.is_none());
}

#[test]
fn set_minimap_and_preset() {
    let mut service = DefaultMinimapService::default();
    let minimap = mock_minimap_data();
    let preset = Some("custom".to_string());

    service.update_minimap_preset(Some(minimap.clone()), preset.clone());

    assert_eq!(service.minimap(), Some(&minimap));
    assert_eq!(service.preset(), preset);
}

#[test]
fn redetect_sets_minimap_to_detecting() {
    let service = DefaultMinimapService::default();
    let mut minimap = MinimapEntity {
        state: mock_idle_minimap(),
        context: MinimapContext::default(),
    };

    service.redetect(&mut minimap);

    assert!(matches!(minimap.state, Minimap::Detecting));
}

#[test]
fn update_reset_minimap_state_platforms() {
    let service = DefaultMinimapService::default();
    let mut player_context = PlayerContext::default();
    let mut minimap = MinimapEntity {
        state: mock_idle_minimap(),
        context: MinimapContext::default(),
    };
    minimap.context.set_platforms(vec![Platform {
        x_start: 3,
        x_end: 3,
        y: 10,
    }]);

    service.apply(&mut minimap.context, &mut player_context);

    assert!(service.minimap().is_none());
    assert!(service.preset().is_none());
    assert!(minimap.context.platforms().is_empty());
}

#[test]
fn update_keep_player_config() {
    let service = DefaultMinimapService::default();
    let mut minimap_context = MinimapContext::default();
    let mut player_context = PlayerContext::default();
    player_context.config.rune_platforms_pathing = true;
    player_context.config.rune_platforms_pathing_up_jump_only = true;

    service.apply(&mut minimap_context, &mut player_context);
    assert!(player_context.config.rune_platforms_pathing);
    assert!(player_context.config.rune_platforms_pathing_up_jump_only);
}

#[test]
fn update_change_player_config() {
    let service =
        DefaultMinimapService::with_minimap(Some(mock_minimap_data()), Some("preset".to_string()));
    let mut minimap_context = MinimapContext::default();
    let mut player_state = PlayerContext::default();

    service.apply(&mut minimap_context, &mut player_state);

    assert!(player_state.config.rune_platforms_pathing);
    assert!(player_state.config.rune_platforms_pathing_up_jump_only);
    assert!(player_state.config.auto_mob_platforms_pathing);
    assert!(player_state.config.auto_mob_platforms_bound);
}

#[test]
fn apply_copies_the_map_platforms() {
    let mut data = mock_minimap_data();
    data.platforms = vec![
        Platform {
            x_start: 1,
            x_end: 9,
            y: 4,
        },
        Platform {
            x_start: 12,
            x_end: 30,
            y: 7,
        },
    ];
    let service = DefaultMinimapService::with_minimap(Some(data.clone()), None);
    let mut minimap_context = MinimapContext::default();
    let mut player_state = PlayerContext::default();

    service.apply(&mut minimap_context, &mut player_state);

    assert_eq!(minimap_context.platforms(), &data.platforms);
}
