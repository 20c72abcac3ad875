//! Decision logic of a game automation bot: services that turn characters,
//! maps and settings into player configuration and rotation plans, event
//! handlers that decide what each event does, and the action list editing
//! rules of the user interface.

pub mod keys;
pub mod models;
pub mod action_list;
pub mod maps;
pub mod player;
pub mod services;
pub mod geometry;
pub mod minimap;
pub mod buff;
pub mod skill;
pub mod capture;
pub mod utils;
pub mod keyboard;
pub mod editing;
pub mod tracker;
pub mod display;
pub mod debug;
pub mod i18n;
