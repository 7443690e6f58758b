//! The library's error kinds.

use vstd::prelude::*;

verus! {

/// Why an operation failed.
#[derive(Debug, Clone, Copy, PartialEq, Eq, Structural)]
pub enum PhotoError {
    /// An input path that was named explicitly does not exist.
    NotFound,
    /// Offset or date text that cannot be parsed.
    InvalidFormat,
    /// The metadata carried none of the tags an offset is read from.
    NoOffsetFound,
    /// A shift was asked for with an empty amount.
    EmptyShiftPattern,
    /// An outside tool could not be started or exited with a failure.
    ExternalToolFailure,
    /// A track file in a format other than GPX.
    UnsupportedTrackFormat,
    /// A city name missing from the timezone table.
    UnknownCity,
    /// A path under which no media file was found.
    NoImages,
    /// Geotagging was asked for without any track file.
    NoTracks,
    /// The activity service reports no logged-in user.
    NotLoggedIn,
}

} // verus!
