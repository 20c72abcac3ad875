//! What the minimap view draws: the rotation's bound, the actions' positions
//! and the minimap's pixels.

use vstd::prelude::*;

use crate::maps::{MinimapData, RotationMode};
use crate::models::{Action, ActionCondition, Bound};

verus! {

/// The bound that the minimap view draws for `map`, with the mode it
/// belongs to: the detected platforms' bound, where there is one, stands for
/// the auto-mobbing bound.
pub open spec fn shown_rotation_bound(map: MinimapData, platforms_bound: Option<Bound>) -> Option<
    (Bound, RotationMode),
> {
    match map.rotation_mode {
        RotationMode::StartToEnd | RotationMode::StartToEndThenReverse => None,
        RotationMode::AutoMobbing => Some(
            (
                match platforms_bound {
                    Some(b) => b,
                    None => map.rotation_auto_mob_bound,
                },
                RotationMode::AutoMobbing,
            ),
        ),
        RotationMode::PingPong => Some((map.rotation_ping_pong_bound, RotationMode::PingPong)),
    }
}

/// The bound that the minimap view draws for `map`, with its mode.
pub fn rotation_bound_and_type(map: &MinimapData, platforms_bound: Option<Bound>) -> (r: Option<
    (Bound, RotationMode),
>)
    ensures
        r == shown_rotation_bound(*map, platforms_bound),
{
    match map.rotation_mode {
        RotationMode::StartToEnd | RotationMode::StartToEndThenReverse => None,
        RotationMode::AutoMobbing => Some(
            (
                match platforms_bound {
                    Some(b) => b,
                    None => map.rotation_auto_mob_bound,
                },
                RotationMode::AutoMobbing,
            ),
        ),
        RotationMode::PingPong => Some((map.rotation_ping_pong_bound, RotationMode::PingPong)),
    }
}

/// The bound of the detected platforms that the state shows: only where the
/// map in use bounds auto-mobbing by its platforms.
pub fn shown_platforms_bound(map: Option<&MinimapData>, detected: Option<Bound>) -> (r: Option<
    Bound,
>)
    ensures
        r == match map {
            Some(m) => if m.auto_mob_platforms_bound {
                detected
            } else {
                None
            },
            None => None,
        },
{
    match map {
        Some(m) => if m.auto_mob_platforms_bound {
            detected
        } else {
            None
        },
        None => None,
    }
}

/// Where an action is drawn, with its condition.
#[derive(Clone, Copy, Debug, PartialEq, Eq, Structural)]
pub struct ActionView {
    pub x: i32,
    pub y: i32,
    pub condition: ActionCondition,
}

/// Where `action` is drawn: moves always, keys when they have a position.
pub open spec fn action_view(action: Action) -> Option<ActionView> {
    match action {
        Action::Move(m) => Some(
            ActionView { x: m.position.x, y: m.position.y, condition: m.condition },
        ),
        Action::Key(k) => match k.position {
            Some(p) => Some(ActionView { x: p.x, y: p.y, condition: k.condition }),
            None => None,
        },
    }
}

/// The drawn positions of the first `n` actions of `s`, in order.
pub open spec fn action_views(s: Seq<Action>, n: int) -> Seq<ActionView>
    decreases n,
{
    if n <= 0 {
        Seq::empty()
    } else {
        match action_view(s[n - 1]) {
            Some(v) => action_views(s, n - 1).push(v),
            None => action_views(s, n - 1),
        }
    }
}

/// The positions at which the actions are drawn.
pub fn action_positions(actions: &Vec<Action>) -> (r: Vec<ActionView>)
    ensures
        r@ == action_views(actions@, actions@.len() as int),
{
    let mut views: Vec<ActionView> = Vec::new();
    let mut i: usize = 0;
    while i < actions.len()
        invariant
            i <= actions@.len(),
            views@ == action_views(actions@, i as int),
        decreases actions@.len() - i,
    {
        match actions[i] {
            Action::Move(m) => {
                views.push(ActionView { x: m.position.x, y: m.position.y, condition: m.condition });
            },
            Action::Key(k) => {
                if let Some(p) = k.position {
                    views.push(ActionView { x: p.x, y: p.y, condition: k.condition });
                }
            },
        }
        i += 1;
    }
    views
}

/// The RGBA pixels of the BGRA pixels in `bgra`, fully opaque.
pub open spec fn rgba_of(bgra: Seq<u8>) -> Seq<u8> {
    Seq::new(
        bgra.len(),
        |i: int|
            {
                let base = i - i % 4;
                if i % 4 == 0 {
                    bgra[base + 2]
                } else if i % 4 == 1 {
                    bgra[base + 1]
                } else if i % 4 == 2 {
                    bgra[base]
                } else {
                    255u8
                }
            },
    )
}

/// Converts BGRA pixels to fully opaque RGBA pixels.
pub fn bgra_to_rgba(bgra: &[u8]) -> (r: Vec<u8>)
    requires
        bgra@.len() % 4 == 0,
    ensures
        r@ == rgba_of(bgra@),
{
    let mut out: Vec<u8> = Vec::new();
    let mut i: usize = 0;
    while i < bgra.len()
        invariant
            i <= bgra@.len(),
            i % 4 == 0,
            bgra@.len() % 4 == 0,
            out@ == rgba_of(bgra@).subrange(0, i as int),
        decreases bgra@.len() - i,
    {
        let b = bgra[i];
        let g = bgra[i + 1];
        let r = bgra[i + 2];
        out.push(r);
        out.push(g);
        out.push(b);
        out.push(255);
        proof {
            let full = rgba_of(bgra@);
            assert(full[i as int] == r);
            assert(full[i + 1] == g);
            assert(full[i + 2] == b);
            assert(full[i + 3] == 255u8);
            assert(out@ =~= full.subrange(0, i + 4));
        }
        i += 4;
    }
    assert(out@ =~= rgba_of(bgra@));
    out
}

} // verus!
