//! The verified core of a terminal-workspace host: the control plane's
//! workspace model, the simulated shell of its terminal surfaces, session
//! layouts, and the socket path rules.
pub mod seqs;
pub mod text;
pub mod paths;
pub mod socket_path;
pub mod layout_state;
pub mod split_tree;
pub mod browser_page;
pub mod shortcut;
pub mod capture;
pub mod cli;
pub mod commands;
pub mod browser_cli;
pub mod workflows;
pub mod control;
pub mod json;
pub mod handles;
pub mod host_paths;
