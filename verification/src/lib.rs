//! View-state machine and fetch orchestration for a terminal browser of a
//! graph database server: databases, collections, named graphs and sampled
//! documents.
//!
//! The library decides; the host performs. A key press goes to
//! [`browser::DatabaseBrowser::handle_key`], which either changes the state
//! itself or hands back a [`view::Request`] for one read against the server.
//! The host performs that read and gives the answer to
//! [`browser::DatabaseBrowser::complete`], which completes the transition
//! or, when the read failed, leaves the state as it was. What both do is
//! said once, over mathematical values, in [`machine`].

pub mod browser;
pub mod data;
pub mod display;
pub mod gateway;
pub mod listing;
pub mod machine;
pub mod menu;
pub mod modal;
pub mod selection;
pub mod text;
pub mod view;
