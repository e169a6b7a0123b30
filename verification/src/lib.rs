//! Core logic of a keyboard-first terminal client for a music service:
//! the playback queue, navigation, the Home projection, synced lyrics,
//! animation timing, preferences and diagnostic reports.

use vstd::prelude::*;

pub mod app;
pub mod artwork;
pub mod clock;
pub mod config;
pub mod doctor;
pub mod event;
pub mod home;
pub mod lyrics;
pub mod models;
pub mod player;
pub mod provider;
pub mod text;
pub mod ui;
pub mod visualizer;

verus! {

} // verus!
