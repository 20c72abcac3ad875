//! What the bot does about commands from its remote control (a chat bot).

use vstd::prelude::*;

use crate::keys::{KeyKind, LinkKeyKind};
use crate::models::{ActionKeyDirection, ActionKeyWith, Position, Settings, WaitAfterBuffered};
use crate::services::operation::BotOperationUpdate;
use crate::utils::{decimal, decimal_string};

verus! {

/// An action that the remote control can make the player do.
#[derive(Clone, Copy, Debug, PartialEq, Eq, Structural)]
pub enum BotAction {
    Jump,
    DoubleJump,
    Crouch,
}

/// A command of the remote control.
#[derive(Clone, Debug, PartialEq, Eq)]
pub enum CommandKind {
    Start,
    Stop { go_to_town: bool },
    Suspend,
    Status,
    Chat { content: String },
    Action { action: BotAction, count: u32 },
}

/// A key use that the player carries out, timed in game ticks.
#[derive(Clone, Copy, Debug, PartialEq, Eq, Structural)]
pub struct PlayerKey {
    pub key: KeyKind,
    pub key_hold_ticks: u32,
    pub key_hold_buffered_to_wait_after: bool,
    pub link_key: LinkKeyKind,
    pub count: u32,
    pub position: Option<Position>,
    pub direction: ActionKeyDirection,
    pub with: ActionKeyWith,
    pub wait_before_use_ticks: u32,
    pub wait_before_use_ticks_random_range: u32,
    pub wait_after_use_ticks: u32,
    pub wait_after_use_ticks_random_range: u32,
    pub wait_after_buffered: WaitAfterBuffered,
}

/// An action injected into the player's queue.
#[derive(Clone, Debug, PartialEq, Eq)]
pub enum PlayerAction {
    Key(PlayerKey),
    Chat(String),
}

/// The reply that the remote control gets.
#[derive(Clone, Copy, Debug, PartialEq, Eq, Structural)]
pub enum ControlReply {
    AlreadyRunning,
    NoMapOrCharacter,
    Started,
    Stopped,
    SuspendAttempted,
    /// A chat message must have fewer characters than `max_length`.
    ChatTooLong { max_length: usize },
    ChatQueued,
    ActionQueued { action: BotAction, count: u32 },
}

/// What the handler asks of the other services.
#[derive(Clone, Debug, PartialEq, Eq)]
pub enum ControlCommand {
    ApplyOperation(BotOperationUpdate),
    Halt { go_to_town: bool },
    /// Reply with the player's state and the current frame.
    ReportStatus,
    InjectAction(PlayerAction),
}

/// The decision about a command: the immediate reply and what to do.
#[derive(Clone, Debug, PartialEq, Eq)]
pub struct ControlDecision {
    pub reply: Option<ControlReply>,
    pub command: Option<ControlCommand>,
}

/// What the control handler reads of the bot's state.
#[derive(Clone, Copy, Debug, PartialEq, Eq, Structural)]
pub struct ControlFacts {
    pub halting: bool,
    pub has_map_and_character: bool,
    pub jump_key: KeyKind,
    /// The number of characters a chat message must stay under.
    pub chat_max_length: usize,
}

/// The key use that makes the player do `action` `count` times.
pub open spec fn bot_action_key_spec(action: BotAction, jump_key: KeyKind, count: u32) -> PlayerKey {
    match action {
        BotAction::Jump => PlayerKey {
            key: jump_key,
            key_hold_ticks: 0,
            key_hold_buffered_to_wait_after: false,
            link_key: LinkKeyKind::Unlinked,
            count,
            position: None,
            direction: ActionKeyDirection::Any,
            with: ActionKeyWith::Any,
            wait_before_use_ticks: 0,
            wait_before_use_ticks_random_range: 5,
            wait_after_use_ticks: 15,
            wait_after_use_ticks_random_range: 0,
            wait_after_buffered: WaitAfterBuffered::Disabled,
        },
        BotAction::DoubleJump => PlayerKey {
            key: jump_key,
            key_hold_ticks: 0,
            key_hold_buffered_to_wait_after: false,
            link_key: LinkKeyKind::Before(jump_key),
            count,
            position: None,
            direction: ActionKeyDirection::Any,
            with: ActionKeyWith::Any,
            wait_before_use_ticks: 0,
            wait_before_use_ticks_random_range: 0,
            wait_after_use_ticks: 0,
            wait_after_use_ticks_random_range: 55,
            wait_after_buffered: WaitAfterBuffered::Disabled,
        },
        BotAction::Crouch => PlayerKey {
            key: KeyKind::Down,
            key_hold_ticks: 4,
            key_hold_buffered_to_wait_after: false,
            link_key: LinkKeyKind::Unlinked,
            count,
            position: None,
            direction: ActionKeyDirection::Any,
            with: ActionKeyWith::Any,
            wait_before_use_ticks: 0,
            wait_before_use_ticks_random_range: 0,
            wait_after_use_ticks: 10,
            wait_after_use_ticks_random_range: 0,
            wait_after_buffered: WaitAfterBuffered::Disabled,
        },
    }
}

/// The key use that makes the player do `action` `count` times; the jump
/// actions use the player's jump key.
pub fn bot_action_key(action: BotAction, jump_key: KeyKind, count: u32) -> (k: PlayerKey)
    ensures
        k == bot_action_key_spec(action, jump_key, count),
{
    match action {
        BotAction::Jump => PlayerKey {
            key: jump_key,
            key_hold_ticks: 0,
            key_hold_buffered_to_wait_after: false,
            link_key: LinkKeyKind::Unlinked,
            count,
            position: None,
            direction: ActionKeyDirection::Any,
            with: ActionKeyWith::Any,
            wait_before_use_ticks: 0,
            wait_before_use_ticks_random_range: 5,
            wait_after_use_ticks: 15,
            wait_after_use_ticks_random_range: 0,
            wait_after_buffered: WaitAfterBuffered::Disabled,
        },
        BotAction::DoubleJump => PlayerKey {
            key: jump_key,
            key_hold_ticks: 0,
            key_hold_buffered_to_wait_after: false,
            link_key: LinkKeyKind::Before(jump_key),
            count,
            position: None,
            direction: ActionKeyDirection::Any,
            with: ActionKeyWith::Any,
            wait_before_use_ticks: 0,
            wait_before_use_ticks_random_range: 0,
            wait_after_use_ticks: 0,
            wait_after_use_ticks_random_range: 55,
            wait_after_buffered: WaitAfterBuffered::Disabled,
        },
        BotAction::Crouch => PlayerKey {
            key: KeyKind::Down,
            key_hold_ticks: 4,
            key_hold_buffered_to_wait_after: false,
            link_key: LinkKeyKind::Unlinked,
            count,
            position: None,
            direction: ActionKeyDirection::Any,
            with: ActionKeyWith::Any,
            wait_before_use_ticks: 0,
            wait_before_use_ticks_random_range: 0,
            wait_after_use_ticks: 10,
            wait_after_use_ticks_random_range: 0,
            wait_after_buffered: WaitAfterBuffered::Disabled,
        },
    }
}

/// Receives the remote control's commands and keeps it configured.
pub trait ControlService {
    /// Polls for a pending command.
    fn poll(&mut self) -> Option<CommandKind>;

    /// Updates the remote control from `settings`.
    fn update(&mut self, settings: &Settings);
}

/// The access token with which the remote control is started, if any.
pub fn bot_token_to_start(settings: &Settings) -> (r: Option<String>)
    ensures
        match r {
            Some(t) => settings.discord_bot_access_token@.len() > 0 && t@
                == settings.discord_bot_access_token@,
            None => settings.discord_bot_access_token@.len() == 0,
        },
{
    if settings.discord_bot_access_token.as_str().unicode_len() == 0 {
        None
    } else {
        Some(settings.discord_bot_access_token.clone())
    }
}

/// The status report of the bot: its player's state and its operation.
pub open spec fn status_text_of(state: Seq<char>, operation: Seq<char>) -> Seq<char> {
    "- State: ``"@ + state + "``\n- Operation: ``"@ + operation + "``"@
}

/// Formats the status report of the bot from its player's state and its operation.
pub fn status_text(state: &str, operation: &str) -> (r: String)
    ensures
        r@ == status_text_of(state@, operation@),
{
    let text = String::from_str("- State: ``");
    let text = text.concat(state);
    let text = text.concat("``\n- Operation: ``");
    let text = text.concat(operation);
    let text = text.concat("``");
    proof {
        reveal_strlit("- State: ``");
        reveal_strlit("``\n- Operation: ``");
        reveal_strlit("``");
    }
    text
}

/// The name of a bot action in a reply.
pub open spec fn bot_action_label(action: BotAction) -> Seq<char> {
    match action {
        BotAction::Jump => "Jump"@,
        BotAction::DoubleJump => "DoubleJump"@,
        BotAction::Crouch => "Crouch"@,
    }
}

fn bot_action_text(action: BotAction) -> (r: &'static str)
    ensures
        r@ == bot_action_label(action),
{
    match action {
        BotAction::Jump => "Jump",
        BotAction::DoubleJump => "DoubleJump",
        BotAction::Crouch => "Crouch",
    }
}

/// The text of a reply to a remote command.
pub open spec fn reply_text_of(reply: ControlReply) -> Seq<char> {
    match reply {
        ControlReply::AlreadyRunning => "Bot already running."@,
        ControlReply::NoMapOrCharacter => "No map or character data set."@,
        ControlReply::Started => "Bot started running."@,
        ControlReply::Stopped => "Bot stopped running."@,
        ControlReply::SuspendAttempted => "Bot attempted to suspend."@,
        ControlReply::ChatTooLong { max_length } => "Message length must be less than "@ + decimal(
            max_length as nat,
        ) + " characters."@,
        ControlReply::ChatQueued => "Queued a chat action."@,
        ControlReply::ActionQueued { action, count } => "Queued `"@ + bot_action_label(action)
            + "` x "@ + decimal(count as nat),
    }
}

/// The text of a reply to a remote command.
pub fn reply_text(reply: ControlReply) -> (r: String)
    ensures
        r@ == reply_text_of(reply),
{
    match reply {
        ControlReply::AlreadyRunning => String::from_str("Bot already running."),
        ControlReply::NoMapOrCharacter => String::from_str("No map or character data set."),
        ControlReply::Started => String::from_str("Bot started running."),
        ControlReply::Stopped => String::from_str("Bot stopped running."),
        ControlReply::SuspendAttempted => String::from_str("Bot attempted to suspend."),
        ControlReply::ChatTooLong { max_length } => {
            let text = String::from_str("Message length must be less than ");
            let text = text.concat(decimal_string(max_length as u128).as_str());
            text.concat(" characters.")
        },
        ControlReply::ChatQueued => String::from_str("Queued a chat action."),
        ControlReply::ActionQueued { action, count } => {
            let text = String::from_str("Queued `");
            let text = text.concat(bot_action_text(action));
            let text = text.concat("` x ");
            text.concat(decimal_string(count as u128).as_str())
        },
    }
}

/// Decides what the bot does about the remote control's commands.
#[derive(Clone, Copy, Debug)]
pub struct ControlEventHandler;

impl ControlEventHandler {
    /// The reply to `kind` and what it makes the bot do.
    pub fn handle(&mut self, kind: CommandKind, facts: ControlFacts) -> (d: ControlDecision)
        ensures
            match kind {
                CommandKind::Start => if !facts.halting {
                    d.reply == Some(ControlReply::AlreadyRunning) && d.command is None
                } else if !facts.has_map_and_character {
                    d.reply == Some(ControlReply::NoMapOrCharacter) && d.command is None
                } else {
                    d.reply == Some(ControlReply::Started) && d.command == Some(
                        ControlCommand::ApplyOperation(BotOperationUpdate::Run),
                    )
                },
                CommandKind::Stop { go_to_town } => d.reply == Some(ControlReply::Stopped)
                    && d.command == Some(ControlCommand::Halt { go_to_town }),
                CommandKind::Suspend => d.reply == Some(ControlReply::SuspendAttempted)
                    && d.command == Some(
                    ControlCommand::ApplyOperation(BotOperationUpdate::TemporaryHalt),
                ),
                CommandKind::Status => d.reply is None && d.command == Some(
                    ControlCommand::ReportStatus,
                ),
                CommandKind::Chat { content } => if content@.len() >= facts.chat_max_length {
                    d.reply == Some(ControlReply::ChatTooLong { max_length: facts.chat_max_length })
                        && d.command is None
                } else {
                    d.reply == Some(ControlReply::ChatQueued) && (d.command matches Some(
                        ControlCommand::InjectAction(PlayerAction::Chat(c)),
                    ) && c@ == content@)
                },
                CommandKind::Action { action, count } => d.reply == Some(
                    ControlReply::ActionQueued { action, count },
                ) && d.command == Some(
                    ControlCommand::InjectAction(
                        PlayerAction::Key(bot_action_key_spec(action, facts.jump_key, count)),
                    ),
                ),
            },
    {
        match kind {
            CommandKind::Start => {
                if !facts.halting {
                    return ControlDecision { reply: Some(ControlReply::AlreadyRunning), command: None };
                }
                if !facts.has_map_and_character {
                    return ControlDecision {
                        reply: Some(ControlReply::NoMapOrCharacter),
                        command: None,
                    };
                }
                ControlDecision {
                    reply: Some(ControlReply::Started),
                    command: Some(ControlCommand::ApplyOperation(BotOperationUpdate::Run)),
                }
            },
            CommandKind::Stop { go_to_town } => ControlDecision {
                reply: Some(ControlReply::Stopped),
                command: Some(ControlCommand::Halt { go_to_town }),
            },
            CommandKind::Suspend => ControlDecision {
                reply: Some(ControlReply::SuspendAttempted),
                command: Some(ControlCommand::ApplyOperation(BotOperationUpdate::TemporaryHalt)),
            },
            CommandKind::Status => ControlDecision {
                reply: None,
                command: Some(ControlCommand::ReportStatus),
            },
            CommandKind::Chat { content } => {
                if content.as_str().unicode_len() >= facts.chat_max_length {
                    return ControlDecision {
                        reply: Some(ControlReply::ChatTooLong { max_length: facts.chat_max_length }),
                        command: None,
                    };
                }
                ControlDecision {
                    reply: Some(ControlReply::ChatQueued),
                    command: Some(ControlCommand::InjectAction(PlayerAction::Chat(content))),
                }
            },
            CommandKind::Action { action, count } => ControlDecision {
                reply: Some(ControlReply::ActionQueued { action, count }),
                command: Some(
                    ControlCommand::InjectAction(
                        PlayerAction::Key(bot_action_key(action, facts.jump_key, count)),
                    ),
                ),
            },
        }
    }
}

} // verus!
