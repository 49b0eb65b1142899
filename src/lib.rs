//! Lifecycle of one window and its GPU presentation surface: the window is
//! created once, its surface is negotiated and configured at the window's
//! size, and the configuration follows every resize that has a non-zero size.
pub mod config;
pub mod lifecycle;
pub mod gpu;
pub mod game;
