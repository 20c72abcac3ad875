//! What the bot knows of the minimap on screen.

use vstd::prelude::*;

use crate::geometry::Rect;
use crate::models::Platform;

verus! {

/// The detected minimap.
#[derive(Clone, Copy, Debug, PartialEq, Eq, Structural)]
pub struct MinimapIdle {
    /// Where the minimap is on screen.
    pub bbox: Rect,
}

/// The state of minimap detection.
#[derive(Clone, Copy, Debug, PartialEq, Eq, Structural)]
pub enum Minimap {
    Detecting,
    Idle(MinimapIdle),
}

/// The platforms that pathing uses on the current minimap.
#[derive(Clone, Debug, PartialEq, Eq)]
pub struct MinimapContext {
    platforms: Vec<Platform>,
}

impl MinimapContext {
    /// The platforms in use.
    pub closed spec fn platforms_view(&self) -> Seq<Platform> {
        self.platforms@
    }

    /// A context with no platforms.
    pub fn new() -> (c: Self)
        ensures
            c.platforms_view().len() == 0,
    {
        MinimapContext { platforms: Vec::new() }
    }

    /// Replaces the platforms in use.
    pub fn set_platforms(&mut self, platforms: Vec<Platform>)
        ensures
            final(self).platforms_view() == platforms@,
    {
        self.platforms = platforms;
    }

    /// The platforms in use.
    pub fn platforms(&self) -> (r: &Vec<Platform>)
        ensures
            r@ == self.platforms_view(),
    {
        &self.platforms
    }
}

impl Default for MinimapContext {
    fn default() -> (c: Self)
        ensures
            c.platforms_view().len() == 0,
    {
        MinimapContext::new()
    }
}

/// The minimap's detection state and pathing context.
#[derive(Clone, Debug, PartialEq, Eq)]
pub struct MinimapEntity {
    pub state: Minimap,
    pub context: MinimapContext,
}

} // verus!
