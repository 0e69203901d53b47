//! The settings of a run, as normalized from what the caller passed.

use vstd::prelude::*;

verus! {

/// The normalized settings of a run.
#[derive(Debug, Clone, Copy, PartialEq, Eq, Structural)]
pub struct RunOptions {
    /// Segment fetches allowed in flight at once; at least one.
    pub concurrency: usize,
    /// Attempts allowed per segment; at least one.
    pub max_attempts: u32,
    /// Video bitrate hint in kilobits per second; zero for the encoder default.
    pub video_kbps: u32,
    /// Audio bitrate hint in kilobits per second; zero for the encoder default.
    pub audio_kbps: u32,
}

pub open spec fn at_least_one(x: i32) -> nat {
    if x < 1 {
        1
    } else {
        x as nat
    }
}

pub open spec fn non_negative(x: i32) -> nat {
    if x < 0 {
        0
    } else {
        x as nat
    }
}

impl RunOptions {
    /// Normalize the raw settings: counts below one become one, and negative
    /// bitrates become zero.
    pub fn normalize(concurrency: i32, retries: i32, video_kbps: i32, audio_kbps: i32) -> (r: RunOptions)
        ensures
            r.concurrency == at_least_one(concurrency),
            r.max_attempts == at_least_one(retries),
            r.video_kbps == non_negative(video_kbps),
            r.audio_kbps == non_negative(audio_kbps),
    {
        RunOptions {
            concurrency: if concurrency < 1 { 1 } else { concurrency as usize },
            max_attempts: if retries < 1 { 1 } else { retries as u32 },
            video_kbps: if video_kbps < 0 { 0 } else { video_kbps as u32 },
            audio_kbps: if audio_kbps < 0 { 0 } else { audio_kbps as u32 },
        }
    }
}

} // verus!
