//! Running and halting the bot.
//!
//! The halt that a map change queues waits on a timer; the timer is the
//! caller's, which reports when it has run out.

use vstd::prelude::*;

use crate::models::Settings;
use crate::services::Event;

verus! {

/// How long a queued halt waits, in seconds.
pub const PENDING_HALT_SECS: u64 = 12;

/// A change of the bot's operation that the user or a handler asks for.
#[derive(Clone, Copy, Debug, PartialEq, Eq, Structural)]
pub enum BotOperationUpdate {
    Run,
    Halt,
    TemporaryHalt,
}

/// An event that the operation service raises.
#[derive(Clone, Copy, Debug, PartialEq, Eq, Structural)]
pub enum OperationEvent {
    Halt,
}

impl Event for OperationEvent {

}

/// What becomes of the bot's current operation.
#[derive(Clone, Copy, Debug, PartialEq, Eq, Structural)]
pub enum OperationChange {
    /// The operation stays as it is.
    Keep,
    /// The operation takes `update` under the cycling settings.
    Update {
        update: BotOperationUpdate,
        cycle_run_stop: bool,
        cycle_run_duration_millis: u64,
        cycle_stop_duration_millis: u64,
    },
    /// The operation becomes halting.
    SetHalting,
}

/// What the caller carries out after an operation request.
#[derive(Clone, Copy, Debug, PartialEq, Eq, Structural)]
pub struct OperationEffects {
    pub operation: OperationChange,
    /// Reset the rotator's queue and abort the player's actions, leaving the
    /// player idle when the flag is set.
    pub clear_states: Option<bool>,
    /// Abort the timer of the queued halt.
    pub abort_pending_halt: bool,
    /// Make the player panic to town.
    pub inject_panic_to_town: bool,
}

/// Handles operation-related requests.
pub trait OperationService {
    /// Polls for a pending event, given whether the queued halt's timer has run
    /// out and whether the navigator's last point was available or completed.
    fn poll(
        &mut self,
        timer_finished: bool,
        last_point_available_or_completed: bool,
    ) -> Option<OperationEvent>;

    /// Applies `update` under `settings`.
    fn apply(&mut self, settings: &Settings, update: BotOperationUpdate) -> OperationEffects;

    /// Halts the bot, going to town if asked; `halting` tells whether it is halting already.
    fn halt(&mut self, halting: bool, go_to_town: bool) -> OperationEffects;

    /// Queues a halt; the caller starts its timer.
    fn queue_halt(&mut self);
}

/// The operation service of the bot.
#[derive(Debug)]
pub struct DefaultOperationService {
    pending_halt: bool,
}

impl DefaultOperationService {
    /// Whether a halt is queued.
    pub closed spec fn pending(&self) -> bool {
        self.pending_halt
    }

    /// A service with no halt queued.
    pub fn new() -> (s: Self)
        ensures
            !s.pending(),
    {
        DefaultOperationService { pending_halt: false }
    }

    /// Whether a halt is queued.
    pub fn has_pending_halt(&self) -> (b: bool)
        ensures
            b == self.pending(),
    {
        self.pending_halt
    }
}

impl Default for DefaultOperationService {
    fn default() -> (s: Self)
        ensures
            !s.pending(),
    {
        DefaultOperationService::new()
    }
}

/// What applying `update` under `settings` asks of the caller, given whether a
/// halt is queued.
pub open spec fn apply_effects(settings: Settings, update: BotOperationUpdate, pending: bool) -> OperationEffects {
    OperationEffects {
        operation: OperationChange::Update {
            update,
            cycle_run_stop: settings.cycle_run_stop,
            cycle_run_duration_millis: settings.cycle_run_duration_millis,
            cycle_stop_duration_millis: settings.cycle_stop_duration_millis,
        },
        clear_states: if stops(update) {
            Some(true)
        } else {
            None
        },
        abort_pending_halt: stops(update) && pending,
        inject_panic_to_town: false,
    }
}

/// Whether `update` stops the bot.
pub open spec fn stops(update: BotOperationUpdate) -> bool {
    update is Halt || update is TemporaryHalt
}

impl OperationService for DefaultOperationService {
    fn poll(&mut self, timer_finished: bool, last_point_available_or_completed: bool) -> (r:
        Option<OperationEvent>)
        ensures
            old(self).pending() && timer_finished ==> {
                &&& !final(self).pending()
                &&& r == if last_point_available_or_completed {
                    None::<OperationEvent>
                } else {
                    Some(OperationEvent::Halt)
                }
            },
            !(old(self).pending() && timer_finished) ==> final(self).pending() == old(
                self,
            ).pending() && r is None,
    {
        if self.pending_halt && timer_finished {
            self.pending_halt = false;
            if !last_point_available_or_completed {
                return Some(OperationEvent::Halt);
            }
        }
        None
    }

    fn apply(&mut self, settings: &Settings, update: BotOperationUpdate) -> (e: OperationEffects)
        ensures
            e == apply_effects(*settings, update, old(self).pending()),
            final(self).pending() == (old(self).pending() && !stops(update)),
    {
        let stop = matches!(update, BotOperationUpdate::Halt | BotOperationUpdate::TemporaryHalt);
        let abort = stop && self.pending_halt;
        if stop {
            self.pending_halt = false;
        }
        OperationEffects {
            operation: OperationChange::Update {
                update,
                cycle_run_stop: settings.cycle_run_stop,
                cycle_run_duration_millis: settings.cycle_run_duration_millis,
                cycle_stop_duration_millis: settings.cycle_stop_duration_millis,
            },
            clear_states: if stop {
                Some(true)
            } else {
                None
            },
            abort_pending_halt: abort,
            inject_panic_to_town: false,
        }
    }

    fn halt(&mut self, halting: bool, go_to_town: bool) -> (e: OperationEffects)
        ensures
            e.operation == if halting {
                OperationChange::Keep
            } else {
                OperationChange::SetHalting
            },
            e.clear_states == Some(!go_to_town),
            e.abort_pending_halt == old(self).pending(),
            e.inject_panic_to_town == go_to_town,
            !final(self).pending(),
    {
        let abort = self.pending_halt;
        self.pending_halt = false;
        OperationEffects {
            operation: if halting {
                OperationChange::Keep
            } else {
                OperationChange::SetHalting
            },
            clear_states: Some(!go_to_town),
            abort_pending_halt: abort,
            inject_panic_to_town: go_to_town,
        }
    }

    fn queue_halt(&mut self)
        ensures
            final(self).pending(),
    {
        self.pending_halt = true;
    }
}

} // verus!
