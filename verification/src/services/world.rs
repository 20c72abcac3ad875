//! What the bot does about events of the game world.

use vstd::prelude::*;

use crate::services::operation::BotOperationUpdate;
use crate::services::Event;

verus! {

/// An event of the game world.
#[derive(Clone, Copy, Debug, PartialEq, Eq, Structural)]
pub enum WorldEvent {
    CycledToHalt,
    PlayerDied,
    MinimapChanged,
    CaptureFailed,
    LieDetectorAppeared,
}

impl Event for WorldEvent {

}

/// A notification that the user gets.
#[derive(Clone, Copy, Debug, PartialEq, Eq, Structural)]
pub enum NotificationKind {
    FailOrMapChange,
    LieDetectorAppear,
}

/// What the world event handler asks of the other services, in order.
#[derive(Clone, Copy, Debug, PartialEq, Eq, Structural)]
pub enum WorldCommand {
    /// Halt the bot, going to town if asked.
    Halt { go_to_town: bool },
    /// Queue a halt.
    QueueHalt,
    /// Apply an operation update.
    ApplyOperation(BotOperationUpdate),
    /// Schedule a notification.
    Notify(NotificationKind),
}

/// What the world event handler reads of the bot's state.
#[derive(Clone, Copy, Debug, PartialEq, Eq, Structural)]
pub struct WorldFacts {
    /// The bot is halting.
    pub halting: bool,
    /// The settings ask to stop when the player dies.
    pub stop_on_player_die: bool,
    /// The settings ask to stop when something fails or the map changes.
    pub stop_on_fail_or_change_map: bool,
    /// The player is panicking to change channel.
    pub panicking_to_channel: bool,
}

/// Receives world events.
pub trait WorldService {
    /// Polls for a pending world event.
    fn poll(&mut self) -> Option<WorldEvent>;
}

/// The commands that `event` gives rise to.
pub open spec fn world_commands(event: WorldEvent, facts: WorldFacts) -> Seq<WorldCommand> {
    match event {
        WorldEvent::CycledToHalt => seq![WorldCommand::Halt { go_to_town: true }],
        WorldEvent::PlayerDied => if facts.stop_on_player_die {
            seq![WorldCommand::Halt { go_to_town: false }]
        } else {
            seq![]
        },
        WorldEvent::MinimapChanged => if facts.halting {
            seq![]
        } else if !facts.stop_on_fail_or_change_map || facts.panicking_to_channel {
            seq![WorldCommand::Notify(NotificationKind::FailOrMapChange)]
        } else {
            seq![WorldCommand::Notify(NotificationKind::FailOrMapChange), WorldCommand::QueueHalt]
        },
        WorldEvent::CaptureFailed => if facts.halting {
            seq![]
        } else if facts.stop_on_fail_or_change_map {
            seq![
                WorldCommand::ApplyOperation(BotOperationUpdate::TemporaryHalt),
                WorldCommand::Notify(NotificationKind::FailOrMapChange),
            ]
        } else {
            seq![WorldCommand::Notify(NotificationKind::FailOrMapChange)]
        },
        WorldEvent::LieDetectorAppeared => seq![
            WorldCommand::Notify(NotificationKind::LieDetectorAppear),
        ],
    }
}

/// Decides what the bot does about world events.
#[derive(Clone, Copy, Debug)]
pub struct WorldEventHandler;

impl WorldEventHandler {
    /// The commands that `event` gives rise to, in the order to carry them out.
    pub fn handle(&mut self, event: WorldEvent, facts: WorldFacts) -> (r: Vec<WorldCommand>)
        ensures
            r@ == world_commands(event, facts),
    {
        let mut commands: Vec<WorldCommand> = Vec::new();
        match event {
            WorldEvent::CycledToHalt => {
                commands.push(WorldCommand::Halt { go_to_town: true });
            },
            WorldEvent::PlayerDied => {
                if facts.stop_on_player_die {
                    commands.push(WorldCommand::Halt { go_to_town: false });
                }
            },
            WorldEvent::MinimapChanged => {
                if !facts.halting {
                    commands.push(WorldCommand::Notify(NotificationKind::FailOrMapChange));
                    if facts.stop_on_fail_or_change_map && !facts.panicking_to_channel {
                        commands.push(WorldCommand::QueueHalt);
                    }
                }
            },
            WorldEvent::CaptureFailed => {
                if !facts.halting {
                    if facts.stop_on_fail_or_change_map {
                        commands.push(
                            WorldCommand::ApplyOperation(BotOperationUpdate::TemporaryHalt),
                        );
                    }
                    commands.push(WorldCommand::Notify(NotificationKind::FailOrMapChange));
                }
            },
            WorldEvent::LieDetectorAppeared => {
                commands.push(WorldCommand::Notify(NotificationKind::LieDetectorAppear));
            },
        }
        proof {
            assert(commands@ =~= world_commands(event, facts));
        }
        commands
    }
}

/// While the bot is halting, a map change or a capture failure changes nothing.
pub proof fn halting_ignores_failures(event: WorldEvent, facts: WorldFacts)
    requires
        facts.halting,
        event is MinimapChanged || event is CaptureFailed,
    ensures
        world_commands(event, facts).len() == 0,
{
}

/// The bot stops only when the user asked it to: a halt is queued only on a
/// map change while the settings ask to stop on a failure or map change (and
/// the bot is neither halting nor panicking to another channel), the bot halts
/// temporarily only on a capture failure under that same setting, it halts in
/// place only when the player died and the settings ask to stop then, and it
/// goes to town only when its cycle ends. The user is told of a failure or map
/// change exactly when one comes while the bot is not halting, and of a lie
/// detector exactly when one appears.
pub proof fn the_bot_stops_only_when_asked(event: WorldEvent, facts: WorldFacts)
    ensures
        world_commands(event, facts).contains(WorldCommand::QueueHalt) <==> {
            &&& event is MinimapChanged
            &&& !facts.halting
            &&& facts.stop_on_fail_or_change_map
            &&& !facts.panicking_to_channel
        },
        world_commands(event, facts).contains(
            WorldCommand::ApplyOperation(BotOperationUpdate::TemporaryHalt),
        ) <==> {
            &&& event is CaptureFailed
            &&& !facts.halting
            &&& facts.stop_on_fail_or_change_map
        },
        world_commands(event, facts).contains(WorldCommand::Halt { go_to_town: false }) <==> {
            &&& event is PlayerDied
            &&& facts.stop_on_player_die
        },
        world_commands(event, facts).contains(WorldCommand::Halt { go_to_town: true })
            <==> event is CycledToHalt,
        world_commands(event, facts).contains(
            WorldCommand::Notify(NotificationKind::LieDetectorAppear),
        ) <==> event is LieDetectorAppeared,
        world_commands(event, facts).contains(
            WorldCommand::Notify(NotificationKind::FailOrMapChange),
        ) <==> (event is MinimapChanged || event is CaptureFailed) && !facts.halting,
{
    let r = world_commands(event, facts);
    match event {
        WorldEvent::PlayerDied => {
            if facts.stop_on_player_die {
                assert(r[0] == WorldCommand::Halt { go_to_town: false });
            }
        },
        WorldEvent::MinimapChanged => {
            if !facts.halting {
                assert(r[0] == WorldCommand::Notify(NotificationKind::FailOrMapChange));
                if facts.stop_on_fail_or_change_map && !facts.panicking_to_channel {
                    assert(r[1] == WorldCommand::QueueHalt);
                }
            }
        },
        WorldEvent::CaptureFailed => {
            if !facts.halting {
                if facts.stop_on_fail_or_change_map {
                    assert(r[0] == WorldCommand::ApplyOperation(BotOperationUpdate::TemporaryHalt));
                    assert(r[1] == WorldCommand::Notify(NotificationKind::FailOrMapChange));
                } else {
                    assert(r[0] == WorldCommand::Notify(NotificationKind::FailOrMapChange));
                }
            }
        },
        WorldEvent::CycledToHalt => {
            assert(r[0] == WorldCommand::Halt { go_to_town: true });
        },
        WorldEvent::LieDetectorAppeared => {
            assert(r[0] == WorldCommand::Notify(NotificationKind::LieDetectorAppear));
        },
    }
}

} // verus!
