//! A segment player's transport engine: time windows over a decoded track,
//! the stages that turn transport intent into samples or silence, and the
//! control state that the control side and the render side share.
//!
//! A caller writes intents into a [`Song`]: play a span, stop, pause, set the
//! volume. The render path owns a [`Pipeline`] over the decoded track and
//! pulls samples from it without end; it takes the intents over when it
//! synchronises, and it publishes its position back. Nothing here blocks,
//! waits or touches a device: the program around the library decides when
//! to pull, when to synchronise and when to publish.
//!
//! `model` says what each of these steps does to the state of both sides,
//! and `laws` proves what follows for every order in which they can happen.

pub mod span;
pub mod timecode;
pub mod volume;
pub mod controls;
pub mod sample;
pub mod source;
pub mod sources;
pub mod model;
pub mod pipeline;
pub mod song;
pub mod loader;
pub mod console;
pub mod laws;

pub use crate::controls::Controls;
pub use crate::loader::{LoadError, SongMsg};
pub use crate::pipeline::{assemble, Pipeline};
pub use crate::sample::Sample;
pub use crate::song::Song;
pub use crate::source::{DirectAccess, FloatWindow, Inspectable, Resettable, Source};
pub use crate::span::TimeSpan;
