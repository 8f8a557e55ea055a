pub mod app;
pub mod cli;
pub mod clipboard;
pub mod history;
pub mod ipc;
pub mod laws;
pub mod path;
pub mod text;
