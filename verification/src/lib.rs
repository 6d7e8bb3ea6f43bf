pub mod strings;
pub mod dashboard;
pub mod flat;
pub mod grid_ops;
pub mod ha;
pub mod query;
pub mod sort;
pub mod editor;
pub mod card_ops;
pub mod laws;
pub mod actions;
pub mod screens;
pub mod search;
pub mod refresh;
pub mod builder;
pub mod config;
pub mod persist;
pub mod rest;
pub mod layout;
pub mod media_meta;
pub mod wizard;
pub mod card_edit;
pub mod edit_keys;
pub mod detail_keys;
pub mod menu;
pub mod graph_flow;
pub mod browse;
pub mod workspace;
pub mod dash_nav;
pub mod app_keys;
pub mod session;
pub mod overlay;
pub mod dashboard_file;
pub mod mouse;
pub mod input_modal;
pub mod retain;
pub mod editor_route;
pub mod focus;
