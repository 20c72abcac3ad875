use komari::geometry::{Point, Rect};
use komari::skill::{
    anchor_match, get_anchor, observation_needed, run_system, DetectionUpdate, Observation,
    ObservationNeeded, Pixel, Skill, SkillEntity, SkillKind,
};

fn test_rect() -> Rect {
    Rect {
        x: 0,
        y: 0,
        width: 100,
        height: 100,
    }
}

fn skill_in(state: Skill) -> SkillEntity {
    SkillEntity {
        kind: SkillKind::ErdaShower,
        state,
    }
}

/// Runs the system with a finished detection whose best match scored `score`.
fn detection_failed(score: f64) -> Observation {
    Observation::Detection(DetectionUpdate::NotFound {
        below_threshold: score < 0.52,
    })
}

#[test]
fn run_system_detecting_to_idle() {
    let rect = test_rect();
    let mut skill = skill_in(Skill::Detecting);

    run_system(
        &mut skill,
        false,
        Observation::Detection(DetectionUpdate::Pending),
    );
    assert_eq!(skill.state, Skill::Detecting);
    run_system(
        &mut skill,
        false,
        Observation::Detection(DetectionUpdate::Found(get_anchor(rect), Pixel::all(255))),
    );

    match skill.state {
        Skill::Idle(point, pixel) => {
            assert_eq!(point, Point { x: 50, y: 50 });
            assert_eq!(pixel, Pixel::all(255));
        }
        _ => panic!(),
    }
}

#[test]
fn run_system_idle_to_cooldown() {
    let rect = test_rect();
    let mut skill = skill_in(Skill::Idle(get_anchor(rect), Pixel::all(255)));

    run_system(
        &mut skill,
        false,
        Observation::AnchorPixel(Some(Pixel::all(200))),
    );

    assert!(matches!(skill.state, Skill::Cooldown));
}

#[test]
fn run_system_cooldown_to_detecting() {
    let mut skill = skill_in(Skill::Cooldown);

    run_system(&mut skill, false, detection_failed(0.51));

    assert!(matches!(skill.state, Skill::Detecting));
}

#[test]
fn run_system_cooldown_to_idle() {
    let rect = test_rect();
    let mut skill = skill_in(Skill::Cooldown);

    run_system(
        &mut skill,
        false,
        Observation::Detection(DetectionUpdate::Found(get_anchor(rect), Pixel::all(255))),
    );

    match skill.state {
        Skill::Idle(point, pixel) => {
            assert_eq!(point, Point { x: 50, y: 50 });
            assert_eq!(pixel, Pixel::all(255));
        }
        _ => panic!(),
    }
}

#[test]
fn run_system_cooldown_to_cooldown() {
    let mut skill = skill_in(Skill::Cooldown);

    run_system(&mut skill, false, detection_failed(0.52));

    assert!(matches!(skill.state, Skill::Cooldown));
}

#[test]
fn idle_stays_idle_within_tolerance() {
    let anchor = Pixel::all(200);
    let point = Point { x: 3, y: 4 };
    let mut skill = skill_in(Skill::Idle(point, anchor));

    // Average channel distance (45 + 45 + 45) / 3 = 45 is still a match.
    run_system(
        &mut skill,
        false,
        Observation::AnchorPixel(Some(Pixel {
            b: 155,
            g: 245,
            r: 155,
            a: 0,
        })),
    );
    assert_eq!(skill.state, Skill::Idle(point, anchor));
}

#[test]
fn unreadable_anchor_detects_again() {
    let mut skill = skill_in(Skill::Idle(Point { x: 1, y: 1 }, Pixel::all(9)));
    run_system(&mut skill, false, Observation::AnchorPixel(None));
    assert_eq!(skill.state, Skill::Detecting);
}

#[test]
fn cash_shop_freezes_the_skill() {
    let mut skill = skill_in(Skill::Cooldown);
    run_system(
        &mut skill,
        true,
        Observation::Detection(DetectionUpdate::Found(Point { x: 1, y: 1 }, Pixel::all(1))),
    );
    assert_eq!(skill.state, Skill::Cooldown);
    assert_eq!(
        observation_needed(Skill::Cooldown, true),
        ObservationNeeded::Nothing
    );
    assert_eq!(
        observation_needed(Skill::Idle(Point { x: 7, y: 8 }, Pixel::all(1)), false),
        ObservationNeeded::AnchorPixel(Point { x: 7, y: 8 })
    );
}

#[test]
fn anchor_matching_uses_the_color_channels() {
    assert!(anchor_match(Pixel::all(10), Pixel::all(10)));
    assert!(!anchor_match(Pixel::all(0), Pixel::all(46)));
    assert!(anchor_match(
        Pixel {
            b: 0,
            g: 0,
            r: 0,
            a: 0
        },
        Pixel {
            b: 0,
            g: 0,
            r: 0,
            a: 255
        }
    ));
    assert_eq!(SkillKind::ErdaShower.index(), 0);
}
