//! Decision logic of a transient drag-proxy window: what the proxy view
//! shows, which items a drag session carries, and when the window closes
//! or the process ends.

pub mod app;
pub mod args;
pub mod decimal;
pub mod drag_session;
pub mod drag_view;
pub mod geometry;
pub mod icon;
pub mod window;
