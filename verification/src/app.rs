//! The applet's state, the events it reacts to, and the decisions it takes.
pub mod model;
pub mod subscription;
pub mod update;
pub mod view;
