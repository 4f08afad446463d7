//! Per-window capture for Wayland, without raising the window and without stealing the focus.
//!
//! The library decides what a capture does; a program around it talks to the compositor, to shared
//! memory and to files. [`run::Run`] is that decision as a state machine: it takes in what the
//! compositor says ([`state::Event`]) and says what is to be done next ([`run::Action`]).
//!
//! - [`text`]: substrings, decimal numbers and lists.
//! - [`command`]: the command line.
//! - [`state`]: what the compositor has said so far.
//! - [`selection`]: which window a selector picks, and how windows are shown.
//! - [`frame`]: the pixel format, the layout in memory, the way from pixels to an image.
//! - [`image`]: the image as a PNG file.
//! - [`run`]: one run of the program.
//! - [`outcomes`]: what each step of a run does, in plain terms.
//! - [`laws`]: what holds of whole runs.
pub mod command;
pub mod frame;
pub mod image;
pub mod laws;
pub mod outcomes;
pub mod run;
pub mod selection;
pub mod state;
pub mod text;
