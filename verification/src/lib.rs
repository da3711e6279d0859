//! Keeps a bar's workspace buttons in step with a compositor.
//!
//! The library holds the rules of the synchronisation engine: how a snapshot
//! of workspaces becomes a row of labels, which replies and notifications
//! matter, and in which order freshly fetched snapshots are handed to the
//! consumer. Opening sockets, waiting for notifications and drawing widgets
//! are left to the program around it, which feeds the library plain values
//! and carries out the directives it returns.

pub mod decimal;
pub mod display;
pub mod display_laws;
pub mod icons;
pub mod panel;
pub mod protocol;
pub mod relay;
pub mod subscriber;
pub mod subscriber_laws;
pub mod workspace;
