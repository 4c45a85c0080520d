//! Picks audio files out of a directory listing and decides, frame by frame,
//! when to start a randomly chosen one and how long to wait for the next.

pub mod scan;
pub mod schedule;
