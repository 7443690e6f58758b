//! Timestamp, timezone and geotag normalisation for photo and video
//! collections: offset codec, metadata probing, file classification,
//! batch command planning and the `process` pipeline's decisions.

pub mod cli;
pub mod command;
pub mod dates;
pub mod download;
pub mod error;
pub mod geotag;
pub mod offset;
pub mod pipeline;
pub mod probe;
pub mod scan;
pub mod text;
pub mod tracks;
pub mod tz;
