//! A keyboard-driven directory browser: the navigation and incremental-search
//! state machine behind a simple file listing.
//!
//! The library owns the browsing state (listing, selection cursor, scroll
//! offset, search buffer) and the policy that updates it on each key event:
//! clamping of the cursor and the scroll offset, forward wrapless prefix
//! search, and the decision when to change the working directory. Directory
//! enumeration and drawing stay with the host, which feeds listings in as
//! plain values and carries out the actions the controller hands back.

pub mod laws;
pub mod nav;
pub mod state;
pub mod text;
