//! Shared media vocabulary: color primaries, transfer functions and the
//! kind of source a request names.

use vstd::prelude::*;

verus! {

/// Chromaticities of the encoded signal.
#[derive(Debug, Clone, Copy, PartialEq, Eq, Structural)]
pub enum ColorPrimaries {
    Unknown,
    Bt709,
    Bt2020,
}

/// Opto-electronic transfer function of the encoded signal.
#[derive(Debug, Clone, Copy, PartialEq, Eq, Structural)]
pub enum TransferFunction {
    Unknown,
    Srgb,
    Bt1886,
    Pq,
    Hlg,
}

/// Where a media request's bytes come from.
#[derive(Debug, Clone, Copy, PartialEq, Eq, Structural)]
pub enum MediaSourceHint {
    Auto,
    LocalFile,
    Http,
}

/// Which decoder produced a frame.
#[derive(Debug, Clone, Copy, PartialEq, Eq, Structural)]
pub enum DecoderBackend {
    Software,
    Hardware,
}

/// A span of media time with nanosecond resolution, the same range as
/// `std::time::Duration`.
#[derive(Debug, Clone, Copy, PartialEq, Eq, Structural)]
pub struct MediaDuration {
    pub secs: u64,
    pub subsec_nanos: u32,
}

/// Nanoseconds in a second.
pub const NANOS_PER_SEC: u32 = 1_000_000_000;

impl MediaDuration {
    /// The span in nanoseconds.
    pub open spec fn nanos(self) -> int {
        self.secs as int * 1_000_000_000 + self.subsec_nanos as int
    }

    /// A well-formed span keeps its sub-second part below one second.
    pub open spec fn wf(self) -> bool {
        self.subsec_nanos < NANOS_PER_SEC
    }

    /// The empty span.
    pub fn zero() -> (r: MediaDuration)
        ensures
            r.wf(),
            r.nanos() == 0,
    {
        MediaDuration { secs: 0, subsec_nanos: 0 }
    }

    /// A span of whole seconds.
    pub fn from_secs(secs: u64) -> (r: MediaDuration)
        ensures
            r.wf(),
            r.nanos() == secs as int * 1_000_000_000,
    {
        MediaDuration { secs, subsec_nanos: 0 }
    }

    /// A span of milliseconds.
    pub fn from_millis(millis: u64) -> (r: MediaDuration)
        ensures
            r.wf(),
            r.nanos() == millis as int * 1_000_000,
    {
        MediaDuration { secs: millis / 1000, subsec_nanos: ((millis % 1000) * 1_000_000) as u32 }
    }

    /// A span of microseconds.
    pub fn from_micros(micros: u64) -> (r: MediaDuration)
        ensures
            r.wf(),
            r.nanos() == micros as int * 1_000,
    {
        MediaDuration { secs: micros / 1_000_000, subsec_nanos: ((micros % 1_000_000) * 1000) as u32 }
    }

    /// Whether the span is empty.
    pub fn is_zero(&self) -> (r: bool)
        ensures
            r == (self.nanos() == 0),
    {
        self.secs == 0 && self.subsec_nanos == 0
    }

    /// Total nanoseconds.
    pub fn as_nanos(&self) -> (r: u128)
        ensures
            r == self.nanos(),
    {
        (self.secs as u128) * 1_000_000_000 + self.subsec_nanos as u128
    }

    /// Whole milliseconds.
    pub fn as_millis(&self) -> (r: u128)
        ensures
            r == self.nanos() / 1_000_000,
    {
        (self.secs as u128) * 1000 + (self.subsec_nanos / 1_000_000) as u128
    }

    /// Whole seconds.
    pub fn as_secs(&self) -> (r: u64)
        ensures
            r == self.secs,
    {
        self.secs
    }
}

} // verus!
