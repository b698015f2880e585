//! Scrobbling logic for Apple Music plays to Last.fm: the scrobble state
//! machine, the signed Last.fm request builder, configuration rules and the
//! launchd agent description.
pub mod auth;
pub mod clock;
pub mod config;
pub mod daemon;
pub mod error;
pub mod params;
pub mod player;
pub mod scrobbler;
pub mod state;
pub mod text;

use vstd::prelude::*;

verus! {

} // verus!
