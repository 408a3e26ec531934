//! The window, workspace, pane and terminal model of cmux on Linux, with the
//! control protocol that drives it.

pub mod actions;
pub mod answer_actions;
pub mod answer_debug;
pub mod answer_notifications;
pub mod answer_palette;
pub mod answer_panes;
pub mod answer_surfaces;
pub mod answer_system;
pub mod answer_windows;
pub mod answer_workspaces;
pub mod capabilities;
pub mod config;
pub mod dispatch;
pub mod display;
pub mod doubles;
pub mod encoding;
pub mod host;
pub mod ids;
pub mod json;
pub mod keys;
pub mod laws_attention;
pub mod laws_changes;
pub mod laws_commands;
pub mod laws_directions;
pub mod laws_dispatch;
pub mod laws_display;
pub mod laws_focus;
pub mod laws_host;
pub mod laws_keys;
pub mod laws_layout;
pub mod laws_listings;
pub mod laws_methods;
pub mod laws_named;
pub mod laws_names;
pub mod laws_order;
pub mod laws_palette;
pub mod laws_panes;
pub mod laws_protocol;
pub mod laws_ranking;
pub mod laws_requests;
pub mod laws_routes;
pub mod laws_shortcuts;
pub mod laws_states;
pub mod laws_tabs;
pub mod laws_targets;
pub mod laws_typing;
pub mod laws_workspaces;
pub mod layout;
pub mod methods;
pub mod model;
pub mod palette;
pub mod palette_rows;
pub mod palette_search;
pub mod params;
pub mod registry;
pub mod reply;
pub mod shortcuts;
pub mod snapshot;
pub mod sound_changes;
pub mod sound_operations;
pub mod sound_snapshots;
pub mod sound_states;
pub mod sound_surfaces;
pub mod sound_tabs;
pub mod sound_workspaces;
pub mod state;
pub mod state_focus;
pub mod state_surfaces;
pub mod state_text;
pub mod state_windows;
pub mod surface;
pub mod terminal;
pub mod text;
pub mod watch;
pub mod workspace;
pub mod workspace_ops;
