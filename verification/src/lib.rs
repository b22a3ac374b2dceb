//! Verified core of a real-time audio spectrum analyser: argument handling,
//! source and display selection with fallback, the decision logic of the
//! producer, processing and display loops, chunk assembly and bar layout.
pub mod configs;
pub mod args;
pub mod selection;
pub mod setup;
pub mod pipeline;
pub mod chunk;
pub mod layout;
