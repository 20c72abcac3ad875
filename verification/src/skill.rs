//! Skills whose cooldown the bot tracks by watching a pixel of their icon.
//!
//! A skill is first detected on screen; the color of its icon's center is
//! then kept as an anchor. While that pixel keeps its color the skill is off
//! cooldown; when it changes, the skill is on cooldown until detected again.

use vstd::prelude::*;

use crate::geometry::{rect_center, rect_fits, Point, Rect};

verus! {

/// A pixel's blue, green, red and alpha channels.
#[derive(Clone, Copy, Debug, PartialEq, Eq, Structural)]
pub struct Pixel {
    pub b: u8,
    pub g: u8,
    pub r: u8,
    pub a: u8,
}

impl Pixel {
    /// A pixel whose channels all have `value`.
    pub fn all(value: u8) -> (p: Pixel)
        ensures
            p == (Pixel { b: value, g: value, r: value, a: value }),
    {
        Pixel { b: value, g: value, r: value, a: value }
    }
}

/// The state of a tracked skill.
#[derive(Clone, Copy, Debug, PartialEq, Eq, Structural)]
pub enum Skill {
    Detecting,
    /// Off cooldown, with the anchor point and its color.
    Idle(Point, Pixel),
    Cooldown,
}

/// A skill that the bot tracks.
#[derive(Clone, Copy, Debug, PartialEq, Eq, Structural)]
pub enum SkillKind {
    ErdaShower,
}

impl SkillKind {
    /// How many skills the bot tracks.
    pub const COUNT: usize = 1;

    /// The index of this skill among the tracked skills.
    pub fn index(self) -> (i: usize)
        ensures
            i < SkillKind::COUNT,
    {
        match self {
            SkillKind::ErdaShower => 0,
        }
    }
}

/// A tracked skill and its state.
#[derive(Clone, Copy, Debug, PartialEq, Eq, Structural)]
pub struct SkillEntity {
    pub kind: SkillKind,
    pub state: Skill,
}

/// How far two channels are apart.
pub open spec fn channel_distance(a: u8, b: u8) -> int {
    if a >= b {
        a - b
    } else {
        b - a
    }
}

/// Whether `pixel` still has the color of `anchor`: the average distance of
/// the blue, green and red channels is at most 45.
pub open spec fn anchor_matches(anchor: Pixel, pixel: Pixel) -> bool {
    (channel_distance(anchor.b, pixel.b) + channel_distance(anchor.g, pixel.g) + channel_distance(
        anchor.r,
        pixel.r,
    )) / 3 <= 45
}

fn abs_diff(a: u8, b: u8) -> (d: u32)
    ensures
        d == channel_distance(a, b),
{
    if a >= b {
        (a - b) as u32
    } else {
        (b - a) as u32
    }
}

/// Whether `pixel` still has the color of `anchor`.
pub fn anchor_match(anchor: Pixel, pixel: Pixel) -> (r: bool)
    ensures
        r == anchor_matches(anchor, pixel),
{
    let b = abs_diff(anchor.b, pixel.b);
    let g = abs_diff(anchor.g, pixel.g);
    let r = abs_diff(anchor.r, pixel.r);
    let avg = (b + g + r) / 3;
    avg <= 45
}

/// The anchor point of a detected skill icon: the center of its box.
pub fn get_anchor(bbox: Rect) -> (p: Point)
    requires
        rect_fits(bbox),
    ensures
        p == rect_center(bbox),
{
    bbox.center()
}

/// What detecting a skill's icon gave.
#[derive(Clone, Copy, Debug, PartialEq, Eq, Structural)]
pub enum DetectionUpdate {
    /// The detection has not finished.
    Pending,
    /// The icon was found, with its anchor point and color.
    Found(Point, Pixel),
    /// The icon was not found; `below_threshold` when its best match scored below 0.52.
    NotFound { below_threshold: bool },
}

/// What the skill system needs to know to update a skill.
#[derive(Clone, Copy, Debug, PartialEq, Eq, Structural)]
pub enum Observation {
    /// The color at the anchor point, if it could be read.
    AnchorPixel(Option<Pixel>),
    /// The latest detection update.
    Detection(DetectionUpdate),
}

/// What the skill system needs to know about a skill in `state`.
#[derive(Clone, Copy, Debug, PartialEq, Eq, Structural)]
pub enum ObservationNeeded {
    /// Nothing: the player is in the cash shop.
    Nothing,
    /// The color at this point.
    AnchorPixel(Point),
    /// A detection update.
    Detection,
}

/// What to observe about a skill in `state`.
pub open spec fn needed_for(state: Skill, player_in_cash_shop: bool) -> ObservationNeeded {
    if player_in_cash_shop {
        ObservationNeeded::Nothing
    } else {
        match state {
            Skill::Idle(point, _) => ObservationNeeded::AnchorPixel(point),
            _ => ObservationNeeded::Detection,
        }
    }
}

/// What to observe about a skill in `state`.
pub fn observation_needed(state: Skill, player_in_cash_shop: bool) -> (r: ObservationNeeded)
    ensures
        r == needed_for(state, player_in_cash_shop),
{
    if player_in_cash_shop {
        ObservationNeeded::Nothing
    } else {
        match state {
            Skill::Idle(point, _) => ObservationNeeded::AnchorPixel(point),
            _ => ObservationNeeded::Detection,
        }
    }
}

/// The next state of a skill in `state` given what was observed; a mismatched
/// observation changes nothing.
pub open spec fn next_skill(state: Skill, player_in_cash_shop: bool, observation: Observation) -> Skill {
    if player_in_cash_shop {
        state
    } else {
        match (state, observation) {
            (Skill::Idle(point, anchor), Observation::AnchorPixel(pixel)) => match pixel {
                None => Skill::Detecting,
                Some(pixel) => if anchor_matches(pixel, anchor) {
                    Skill::Idle(point, anchor)
                } else {
                    Skill::Cooldown
                },
            },
            (Skill::Idle(_, _), Observation::Detection(_)) => state,
            (_, Observation::Detection(update)) => match update {
                DetectionUpdate::Pending => state,
                DetectionUpdate::Found(point, pixel) => Skill::Idle(point, pixel),
                DetectionUpdate::NotFound { below_threshold } => if below_threshold {
                    Skill::Detecting
                } else {
                    state
                },
            },
            (_, Observation::AnchorPixel(_)) => state,
        }
    }
}

/// Updates `skill` from what was observed about it.
pub fn run_system(skill: &mut SkillEntity, player_in_cash_shop: bool, observation: Observation)
    ensures
        final(skill).state == next_skill(old(skill).state, player_in_cash_shop, observation),
        final(skill).kind == old(skill).kind,
{
    if player_in_cash_shop {
        return ;
    }
    match (skill.state, observation) {
        (Skill::Idle(point, anchor), Observation::AnchorPixel(pixel)) => {
            skill.state = match pixel {
                None => Skill::Detecting,
                Some(pixel) => if anchor_match(pixel, anchor) {
                    Skill::Idle(point, anchor)
                } else {
                    Skill::Cooldown
                },
            };
        },
        (Skill::Idle(_, _), Observation::Detection(_)) => {},
        (_, Observation::Detection(update)) => match update {
            DetectionUpdate::Pending => {},
            DetectionUpdate::Found(point, pixel) => {
                skill.state = Skill::Idle(point, pixel);
            },
            DetectionUpdate::NotFound { below_threshold } => {
                if below_threshold {
                    skill.state = Skill::Detecting;
                }
            },
        },
        (_, Observation::AnchorPixel(_)) => {},
    }
}

/// An off-cooldown skill stays off cooldown while its anchor keeps its color,
/// and only a color change puts it on cooldown.
pub proof fn idle_stays_idle_while_anchor_matches(point: Point, anchor: Pixel, pixel: Pixel)
    ensures
        anchor_matches(pixel, anchor) ==> next_skill(
            Skill::Idle(point, anchor),
            false,
            Observation::AnchorPixel(Some(pixel)),
        ) == Skill::Idle(point, anchor),
        !anchor_matches(pixel, anchor) ==> next_skill(
            Skill::Idle(point, anchor),
            false,
            Observation::AnchorPixel(Some(pixel)),
        ) == Skill::Cooldown,
{
}

/// A pixel always matches itself as an anchor.
pub proof fn anchor_matches_itself(pixel: Pixel)
    ensures
        anchor_matches(pixel, pixel),
{
}

/// A pixel matches an anchor exactly when its blue, green and red channels
/// together are at most 137 away from the anchor's, that is, when their
/// average distance is at most 45; alpha plays no part.
pub proof fn anchor_match_weighs_the_three_colors(anchor: Pixel, pixel: Pixel)
    ensures
        anchor_matches(anchor, pixel) <==> (if anchor.b >= pixel.b {
            anchor.b - pixel.b
        } else {
            pixel.b - anchor.b
        }) + (if anchor.g >= pixel.g {
            anchor.g - pixel.g
        } else {
            pixel.g - anchor.g
        }) + (if anchor.r >= pixel.r {
            anchor.r - pixel.r
        } else {
            pixel.r - anchor.r
        }) <= 137,
{
}

/// The color channels count alike: exchanging blue with red, or green with
/// red, in both the anchor and the pixel leaves the match as it was, and so
/// does any change of alpha.
pub proof fn anchor_match_treats_channels_alike(anchor: Pixel, pixel: Pixel, a1: u8, a2: u8)
    ensures
        anchor_matches(anchor, pixel) == anchor_matches(
            Pixel { b: anchor.r, r: anchor.b, ..anchor },
            Pixel { b: pixel.r, r: pixel.b, ..pixel },
        ),
        anchor_matches(anchor, pixel) == anchor_matches(
            Pixel { g: anchor.r, r: anchor.g, ..anchor },
            Pixel { g: pixel.r, r: pixel.g, ..pixel },
        ),
        anchor_matches(anchor, pixel) == anchor_matches(
            Pixel { a: a1, ..anchor },
            Pixel { a: a2, ..pixel },
        ),
{
}

/// An off-cooldown skill whose anchor pixel changed in a single color channel
/// by `d` goes on cooldown exactly when `d` is more than 137.
pub proof fn one_channel_change_puts_skill_on_cooldown(point: Point, anchor: Pixel, pixel: Pixel)
    requires
        (pixel.b == anchor.b && pixel.g == anchor.g) || (pixel.b == anchor.b && pixel.r
            == anchor.r) || (pixel.g == anchor.g && pixel.r == anchor.r),
    ensures
        ({
            let d = (pixel.b - anchor.b) + (pixel.g - anchor.g) + (pixel.r - anchor.r);
            let dist = if d >= 0 {
                d
            } else {
                -d
            };
            next_skill(Skill::Idle(point, anchor), false, Observation::AnchorPixel(Some(pixel)))
                == if dist > 137 {
                Skill::Cooldown
            } else {
                Skill::Idle(point, anchor)
            }
        }),
{
}

} // verus!
