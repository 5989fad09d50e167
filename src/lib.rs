//! A bridge that lets a GTK GL drawing area act as the display target of a
//! browser engine: GL context bookkeeping, window geometry, the loop pump that
//! drives the engine from the host loop, and the view lifecycle delegate.
pub mod geometry;
pub mod context;
pub mod pump;
pub mod view;
pub mod bridge;
