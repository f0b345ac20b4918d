pub mod text;
pub mod theme;
pub mod config;
pub mod app;
pub mod files;
pub mod laws;
pub mod input;
pub mod ui;
pub mod layout;
