//! Core logic of a desktop client for a federated link-aggregator network.
//!
//! The crate models the data a client holds (instances, session, display
//! preferences, posts) and the state machines that drive it: a feed
//! controller that pages through post listings with an opaque cursor and
//! assembles display cards, a settings panel that handles instance
//! selection, theme choice and login, and the application shell that ties
//! the two together. All I/O (network requests, settings storage) is left
//! to the embedding program, which performs the actions the reducers
//! return and feeds the outcomes back in as events.

pub mod api;
pub mod app;
pub mod feed;
pub mod panel;
pub mod posts;
pub mod settings;
pub mod theme;
