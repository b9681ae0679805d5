pub mod app;
pub mod handler;
pub mod state;
pub mod ui;
