pub mod app;
pub mod background;
pub mod config;
pub mod error;
pub mod text;
pub mod ui;
