//! Verified core of the Fluid simulation framework: entity storage, event
//! routing, undo history, widget registry and the debugger/builder logic.
pub mod keyed;
pub mod ecs;
pub mod text;
pub mod command;
pub mod scene;
pub mod widgets;
pub mod event_bus;
pub mod debugger;
pub mod report;
pub mod builder;
pub mod app_state;
pub mod debug_server;
pub mod ui;
pub mod prefs;
pub mod plugin;
pub mod sim_bridge;
pub mod compute;
pub mod threading;
pub mod viewport;
pub mod import;
pub mod input;
pub mod menus;
pub mod grid;
