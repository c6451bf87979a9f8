//! Media capture and assembly: the decisions behind recording, exporting
//! and serving video with an external encoder.
//!
//! The library never starts a process or touches a file. It turns requests
//! into argument lists for the encoder and the prober, reads what these
//! tools print, keeps the state of the one recording and of each export
//! job, and shapes the responses of the streaming range server. Its caller
//! runs the tools and hands back what came of them. All times are whole
//! milliseconds.

pub mod clip;
pub mod devices;
pub mod diagnostics;
pub mod drive;
pub mod export;
pub mod import;
pub mod invocation;
pub mod job;
pub mod json;
pub mod lines;
pub mod millis;
pub mod probe;
pub mod range;
pub mod routing;
pub mod session;
pub mod text;
pub mod tools;
pub mod transcript;
pub mod trial;
pub mod waveform;
