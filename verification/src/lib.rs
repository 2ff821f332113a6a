//! Quota monitor core: settings, launch planning, tray texts and the
//! App Server session state machine.
pub mod text;
pub mod models;
pub mod settings;
pub mod launcher;
pub mod ui;
pub mod service;
pub mod worker_laws;
