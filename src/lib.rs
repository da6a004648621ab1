//! A terminal quiz: a fixed bank of questions, free-text answers checked
//! against expected strings, hints on request, and a scrolling transcript.
//!
//! The library holds the quiz's state machine and its key dispatch; drawing
//! the screen and writing the answer log are left to the program around it.

pub mod text;
pub mod quiz;
pub mod bank;
pub mod laws;
