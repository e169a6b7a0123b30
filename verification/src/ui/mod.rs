//! Pure decisions behind the interface: layout breakpoints, reveal stages
//! and the presentation state the renderer keeps.

pub mod layout;
pub mod marquee;
pub mod splash;
pub mod state;
pub mod theme;
pub mod track_line;
pub mod width;
