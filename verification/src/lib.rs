//! Core of a small desktop-application shell: it describes the menu bar,
//! routes menu activations to handlers, exposes named commands to an embedded
//! frontend view, selects logging sinks by build profile, and sequences
//! startup. The windowing layer itself is an outside collaborator; this
//! library computes every decision the shell makes and hands the results to
//! that layer as plain values.

pub mod boot;
pub mod bridge;
pub mod devtools;
pub mod dispatch;
pub mod logsel;
pub mod menu;
pub mod profile;
pub mod strutil;
