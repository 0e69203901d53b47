//! The failures that abort a run.

use vstd::prelude::*;

verus! {

/// Why one attempt to fetch a segment failed.
#[derive(Debug, Clone, Copy, PartialEq, Eq, Structural)]
pub enum FailedAttempt {
    /// The server answered with a status outside the 2xx range.
    Status { code: u16 },
    /// The request did not complete.
    Transport,
}

/// Why a run stopped. Network and file system failures are reported by the
/// caller that performs that work.
#[derive(Debug, Clone, Copy, PartialEq, Eq, Structural)]
pub enum FetchError {
    /// The playlist bytes are not a well-formed HLS playlist.
    Parse,
    /// A master playlist lists no variant.
    NoVariant,
    /// A variant of a master playlist refers to another master playlist.
    UnexpectedPlaylistType,
    /// A URL could not be parsed or resolved.
    InvalidUrl,
    /// A media playlist holds no segment.
    EmptyPlaylist,
    /// The first segment signals encryption without a key URI.
    MissingKeyUri,
    /// The first segment signals encryption without an IV.
    MissingIv,
    /// The IV is not a hexadecimal string.
    IvDecode,
    /// The IV does not decode to sixteen bytes.
    IvLength,
    /// A segment body could not be decrypted, or its padding is invalid.
    Decryption,
    /// Every attempt to fetch the segment at `index` failed; `last_cause` is
    /// why the last one did.
    SegmentExhausted { index: usize, last_cause: FailedAttempt },
    /// The payload of the segment at `index` is absent at merge time.
    MissingSegmentFile { index: usize },
    /// No transcoder backend is available.
    NoBackend,
}

} // verus!
