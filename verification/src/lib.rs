//! A terminal-style portfolio front end: an animated introduction sequence
//! followed by a navigable menu and content browser.
//!
//! The crate holds the application state machine (intro phases, menu
//! navigation, content scrolling) and the pure view-selection logic (which
//! text block, which colors, which panel is focused). Drawing the resulting
//! description to a screen is left to the embedding program.

pub mod color;
pub mod state;
pub mod view;

pub use color::{Background, Color};
pub use state::{App, AppStatus, KeyCode};
pub use view::{ContentLine, IntroArt, IntroView, ListLayout, PanelStyle};
