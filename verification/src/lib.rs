//! Locating a visual pattern on a desktop and acting on where it is.
//!
//! The library holds the decisions: the coordinate model of display areas,
//! the multi-scale search for a template in a captured frame, the polling
//! loop that waits for a pattern until a deadline, what an action does with
//! a match, and the arithmetic of pointer and keyboard input. Capturing the
//! screen, correlating pixels, reading the clock and injecting input are
//! left to the caller, who reports what happened and is told what to do
//! next.

pub mod region;
pub mod score;
pub mod matcher;
pub mod poller;
pub mod dispatch;
pub mod pointer;
pub mod keyboard;
pub mod ocr;
