//! A lap-timing engine for motorsport telemetry: it detects crossings of a
//! track's start, sector and finish markers in a stream of GNSS fixes,
//! times laps and sectors, resolves the track being driven, assembles the
//! session, and names and lists what is stored.

pub mod geometry;
pub mod position;
pub mod track;
pub mod laptimer;
pub mod gnss;
pub mod text;
pub mod session;
pub mod bus;
pub mod track_detection;
pub mod active_session;
pub mod storage;
pub mod time_source;
