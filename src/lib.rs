//! A quick launcher's core: the row model that plugins answer with, the
//! plugin host that routes queries and gathers answers, the clipboard
//! history with its optimistic-concurrency save protocol, fuzzy ranking,
//! entry actions, and the decisions of the OS hotkey and clipboard service.

pub mod actions;
pub mod calc_plugin;
pub mod clip_store;
pub mod clipboard_plugin;
pub mod clock;
pub mod host;
pub mod os_service;
pub mod plugin;
pub mod ranking;
pub mod row;
pub mod text;
