use komari::capture::{
    client_texture_box, compact_rows, convert_coordinate_in, is_capturable_window,
    is_class_matched, CaptureError, HandleCache, ScreenPoint, SendWrapper, TextureBox, WindowRect,
    WS_DISABLED_BIT, WS_EX_TOOLWINDOW_BIT,
};
use komari::display::{
    action_positions, bgra_to_rgba, rotation_bound_and_type, shown_platforms_bound, ActionView,
};
use komari::maps::{MinimapData, RotationMode};
use komari::models::{Action, ActionCondition, ActionKey, ActionMove, Bound, Position};

fn rect(left: i32, top: i32, right: i32, bottom: i32) -> WindowRect {
    WindowRect {
        left,
        top,
        right,
        bottom,
    }
}

#[test]
fn client_area_box_inside_the_frame() {
    let result = client_texture_box(
        rect(0, 0, 800, 600),
        rect(100, 50, 916, 689),
        ScreenPoint { x: 108, y: 81 },
        816,
        639,
    );
    assert_eq!(
        result,
        Ok(TextureBox {
            left: 8,
            top: 31,
            right: 808,
            bottom: 631,
            front: 0,
            back: 1
        })
    );
}

#[test]
fn empty_client_area_is_refused() {
    let result = client_texture_box(
        rect(0, 0, 0, 600),
        rect(0, 0, 10, 10),
        ScreenPoint { x: 0, y: 0 },
        10,
        10,
    );
    assert_eq!(result, Err(CaptureError::WindowInvalidSize));
}

#[test]
fn surface_smaller_than_offset_gives_one_texel() {
    let result = client_texture_box(
        rect(0, 0, 50, 50),
        rect(0, 0, 10, 10),
        ScreenPoint { x: 20, y: 3 },
        10,
        100,
    )
    .unwrap();
    assert_eq!((result.left, result.right), (20, 21));
    assert_eq!((result.top, result.bottom), (3, 53));
}

#[test]
fn coordinates_relative_to_an_area() {
    let c = convert_coordinate_in(ScreenPoint { x: 150, y: 90 }, rect(100, 40, 900, 640));
    assert_eq!((c.x, c.y, c.width, c.height), (50, 50, 800, 600));
}

#[test]
fn padded_rows_are_compacted() {
    // Two rows of one pixel each, padded to 8 bytes a row.
    let buffer = vec![1, 2, 3, 4, 0, 0, 0, 0, 5, 6, 7, 8, 0, 0, 0, 0];
    assert_eq!(
        compact_rows(&buffer, 1, 2, 8),
        vec![1, 2, 3, 4, 5, 6, 7, 8]
    );
    // Rows of two pixels fill the pitch: the buffer is taken as it is.
    assert_eq!(compact_rows(&buffer, 2, 2, 8), buffer);
}

#[test]
fn class_names_match_by_prefix() {
    assert!(is_class_matched("MapleStoryClassTW", "MapleStoryClass"));
    assert!(!is_class_matched("", ""));
    assert!(!is_class_matched("Maple", "MapleStoryClass"));
    assert!(!is_class_matched("OtherClass", "MapleStory"));
}

#[test]
fn handle_cache_keeps_a_matching_handle() {
    let mut cache: HandleCache<u64> = HandleCache::new();
    assert!(cache.needs_query());
    cache.fill(Some(42));
    cache.fill(Some(7));
    assert_eq!(cache.candidate(), Some(42));
    assert_eq!(cache.confirm(true), Some(42));
    assert_eq!(cache.confirm(false), None);
    assert!(cache.needs_query());

    let wrapper = SendWrapper::new(5u32);
    assert_eq!(*wrapper.duplicate().as_inner(), 5);
}

#[test]
fn capturable_windows() {
    assert!(is_capturable_window(true, 0, 0, 0, 5));
    assert!(!is_capturable_window(false, 0, 0, 0, 5));
    assert!(!is_capturable_window(true, 1, 0, 0, 5));
    assert!(!is_capturable_window(true, 0, WS_DISABLED_BIT, 0, 5));
    assert!(!is_capturable_window(true, 0, 0, WS_EX_TOOLWINDOW_BIT, 5));
    assert!(!is_capturable_window(true, 0, 0, 0, 0));
}

#[test]
fn rotation_bound_by_mode() {
    let auto = Bound {
        x: 1,
        y: 1,
        width: 5,
        height: 5,
    };
    let ping = Bound {
        x: 2,
        y: 2,
        width: 6,
        height: 6,
    };
    let detected = Bound {
        x: 0,
        y: 0,
        width: 9,
        height: 9,
    };
    let mut map = MinimapData {
        rotation_auto_mob_bound: auto,
        rotation_ping_pong_bound: ping,
        ..Default::default()
    };
    assert_eq!(rotation_bound_and_type(&map, Some(detected)), None);
    map.rotation_mode = RotationMode::AutoMobbing;
    assert_eq!(
        rotation_bound_and_type(&map, None),
        Some((auto, RotationMode::AutoMobbing))
    );
    assert_eq!(
        rotation_bound_and_type(&map, Some(detected)),
        Some((detected, RotationMode::AutoMobbing))
    );
    map.rotation_mode = RotationMode::PingPong;
    assert_eq!(
        rotation_bound_and_type(&map, Some(detected)),
        Some((ping, RotationMode::PingPong))
    );
}

#[test]
fn positions_of_moves_and_placed_keys() {
    let position = Position {
        x: 4,
        x_random_range: 0,
        y: 6,
        allow_adjusting: false,
    };
    let actions = vec![
        Action::Move(ActionMove {
            position,
            condition: ActionCondition::Any,
            wait_after_move_millis: 0,
        }),
        Action::Key(ActionKey::default()),
        Action::Key(ActionKey {
            position: Some(Position { x: 9, ..position }),
            condition: ActionCondition::Linked,
            ..Default::default()
        }),
    ];
    assert_eq!(
        action_positions(&actions),
        vec![
            ActionView {
                x: 4,
                y: 6,
                condition: ActionCondition::Any
            },
            ActionView {
                x: 9,
                y: 6,
                condition: ActionCondition::Linked
            },
        ]
    );
}

#[test]
fn bgra_pixels_become_opaque_rgba() {
    assert_eq!(
        bgra_to_rgba(&[1, 2, 3, 0, 10, 20, 30, 40]),
        vec![3, 2, 1, 255, 30, 20, 10, 255]
    );
}

#[test]
fn platforms_bound_shown_only_when_the_map_uses_it() {
    let detected = Some(Bound {
        x: 1,
        y: 2,
        width: 3,
        height: 4,
    });
    let mut map = MinimapData::default();
    assert_eq!(shown_platforms_bound(Some(&map), detected), None);
    map.auto_mob_platforms_bound = true;
    assert_eq!(shown_platforms_bound(Some(&map), detected), detected);
    assert_eq!(shown_platforms_bound(None, detected), None);
}
