//! Requests from the user interface, and what the bot does about those that
//! change the map, the character or the operation.

use vstd::prelude::*;

use crate::maps::MinimapData;
use crate::models::Character;
use crate::services::operation::BotOperationUpdate;
use crate::services::Event;

verus! {

/// A request that the user interface makes of the bot. Requests that read
/// or write the screen, the windows or images are carried out by the caller.
#[derive(Clone, Debug, PartialEq, Eq)]
pub enum Request {
    UpdateOperation(BotOperationUpdate),
    CreateMinimap(String),
    UpdateMinimap(Option<String>, Option<MinimapData>),
    UpdateCharacter(Option<Character>),
    RedetectMinimap,
    CreateNavigationPath,
    NavigationSnapshotAsGrayscale(String),
    GameStateReceiver,
    KeyReceiver,
    RefreshCaptureHandles,
    QueryCaptureHandles,
    SelectCaptureHandle(Option<usize>),
    SaveCaptureImage(bool),
}

/// A request from the user interface, or one that the bot queued itself.
#[derive(Clone, Debug, PartialEq, Eq)]
pub enum UiEvent {
    External { request: Request },
    Internal { request: Request },
}

impl Event for UiEvent {

}

/// Handles user-interface-related requests.
pub trait UiService {
    /// Polls for a request that the bot queued itself.
    fn poll(&mut self) -> Option<UiEvent>;

    /// Queues a character update.
    fn queue_update_character(&mut self, character: Option<Character>);

    /// Queues a map update.
    fn queue_update_map(&mut self, preset: Option<String>, map: Option<MinimapData>);
}

/// The user interface service of the bot.
#[derive(Debug)]
pub struct DefaultUiService {
    pending_character_update: Option<Option<Character>>,
    pending_map_update: Option<(Option<String>, Option<MinimapData>)>,
}

impl DefaultUiService {
    /// The queued character update.
    pub closed spec fn pending_character(&self) -> Option<Option<Character>> {
        self.pending_character_update
    }

    /// The queued map update.
    pub closed spec fn pending_map(&self) -> Option<(Option<String>, Option<MinimapData>)> {
        self.pending_map_update
    }

    /// A service with nothing queued.
    pub fn new() -> (s: Self)
        ensures
            s.pending_character() is None,
            s.pending_map() is None,
    {
        DefaultUiService { pending_character_update: None, pending_map_update: None }
    }
}

impl Default for DefaultUiService {
    fn default() -> (s: Self)
        ensures
            s.pending_character() is None,
            s.pending_map() is None,
    {
        DefaultUiService::new()
    }
}

/// What polling hands out, given the queued character and map updates, and
/// what stays queued: the character update first, then the map update. The
/// requests of the user interface itself come only when nothing is queued.
pub open spec fn poll_step(
    character: Option<Option<Character>>,
    map: Option<(Option<String>, Option<MinimapData>)>,
) -> (Option<UiEvent>, Option<Option<Character>>, Option<(Option<String>, Option<MinimapData>)>) {
    match character {
        Some(c) => (Some(UiEvent::Internal { request: Request::UpdateCharacter(c) }), None, map),
        None => match map {
            Some((p, m)) => (Some(UiEvent::Internal { request: Request::UpdateMinimap(p, m) }), None, None),
            None => (None, None, None),
        },
    }
}

/// A queued character update is handed out by the next poll and only once:
/// with no map update queued, the poll after it finds nothing queued and
/// leaves the turn to the user interface's requests.
pub proof fn queued_character_update_comes_first(
    c: Option<Character>,
    map: Option<(Option<String>, Option<MinimapData>)>,
)
    ensures
        poll_step(Some(c), map).0 == Some(UiEvent::Internal { request: Request::UpdateCharacter(c) }),
        poll_step(Some(c), map).1 is None,
        poll_step(Some(c), map).2 == map,
        map is None ==> poll_step(poll_step(Some(c), map).1, poll_step(Some(c), map).2).0 is None,
{
}

impl UiService for DefaultUiService {
    fn poll(&mut self) -> (r: Option<UiEvent>)
        ensures
            (r, final(self).pending_character(), final(self).pending_map()) == poll_step(
                old(self).pending_character(),
                old(self).pending_map(),
            ),
            match old(self).pending_character() {
                Some(c) => r == Some(UiEvent::Internal { request: Request::UpdateCharacter(c) })
                    && final(self).pending_character() is None && final(self).pending_map()
                    == old(self).pending_map(),
                None => match old(self).pending_map() {
                    Some((p, m)) => r == Some(
                        UiEvent::Internal { request: Request::UpdateMinimap(p, m) },
                    ) && final(self).pending_map() is None && final(self).pending_character() is None,
                    None => r is None && final(self).pending_map() is None
                        && final(self).pending_character() is None,
                },
            },
    {
        if let Some(character) = self.pending_character_update.take() {
            return Some(UiEvent::Internal { request: Request::UpdateCharacter(character) });
        }
        if let Some((preset, map)) = self.pending_map_update.take() {
            return Some(UiEvent::Internal { request: Request::UpdateMinimap(preset, map) });
        }
        None
    }

    fn queue_update_character(&mut self, character: Option<Character>)
        ensures
            final(self).pending_character() == Some(character),
            final(self).pending_map() == old(self).pending_map(),
    {
        self.pending_character_update = Some(character);
    }

    fn queue_update_map(&mut self, preset: Option<String>, map: Option<MinimapData>)
        ensures
            final(self).pending_map() == Some((preset, map)),
            final(self).pending_character() == old(self).pending_character(),
    {
        self.pending_map_update = Some((preset, map));
    }
}

} // verus!
