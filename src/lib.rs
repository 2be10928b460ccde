//! A month of mood ratings: the per-day mood grid widget, its geometry and
//! hit testing, and the application state that mirrors the grid into the
//! persisted day-to-moods mapping.
pub mod application;
pub mod layout;
pub mod mood;
pub mod widget;
