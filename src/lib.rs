//! A terminal typing trainer: the typing-session engine, the screen state
//! machine that routes key presses, and the speed and accuracy arithmetic.
//! Terminal drawing, the results database and the event loop live outside
//! this library and talk to it through plain values.

pub mod stats;
pub mod text;
pub mod words;
pub mod keys;
pub mod typingtest;
pub mod app;
