//! What remains of external-subtitle charset handling: detection and
//! transcoding are not part of this build, and an in-memory source serves
//! already-transcoded bytes by range.

use vstd::prelude::*;
use vstd::slice::{slice_subrange, slice_to_vec};

verus! {

/// The result of inspecting a subtitle file's charset.
#[derive(Debug, Clone)]
pub struct CharsetInspection {
    pub detected: &'static str,
    pub utf8: Option<Vec<u8>>,
}

/// Charset transcoding is not part of this build.
pub fn detect_and_transcode(bytes: &[u8]) -> (r: Option<Vec<u8>>)
    ensures
        r is None,
{
    None
}

/// Every input is reported as an unsupported charset.
pub fn inspect(bytes: &[u8]) -> (r: CharsetInspection)
    ensures
        r.detected@ == "unsupported"@,
        r.utf8 is None,
{
    CharsetInspection { detected: "unsupported", utf8: None }
}

/// A byte range of a media source: `length` bytes from `start`, or to the
/// end when `length` is `None`.
#[derive(Debug, Clone, Copy, PartialEq, Eq, Structural)]
pub struct ByteRange {
    pub start: u64,
    pub length: Option<u64>,
}

/// A media source over transcoded subtitle bytes held in memory.
#[derive(Debug)]
pub struct TranscodedMemorySource {
    pub uri: String,
    pub bytes: Vec<u8>,
}

/// The bytes of `data` a range read returns: the range clipped to the data,
/// empty when it starts at or past the end.
pub open spec fn spec_read_range(data: Seq<u8>, range: ByteRange) -> Seq<u8> {
    let start: int = if range.start > usize::MAX { usize::MAX as int } else { range.start as int };
    if start >= data.len() {
        Seq::empty()
    } else {
        let end: int = match range.length {
            None => data.len() as int,
            Some(len) => if start + len < data.len() { start + len } else { data.len() as int },
        };
        data.subrange(start, end)
    }
}

/// Reading `length` bytes from `start` and then the rest from where that
/// read ended gives the same bytes as reading the rest from `start`.
pub proof fn lemma_adjacent_reads_concatenate(data: Seq<u8>, start: u64, length: u64)
    requires
        start + length <= usize::MAX,
    ensures
        spec_read_range(data, ByteRange { start, length: Some(length) })
            + spec_read_range(data, ByteRange { start: (start + length) as u64, length: None })
            == spec_read_range(data, ByteRange { start, length: None }),
{
    let a = spec_read_range(data, ByteRange { start, length: Some(length) });
    let b = spec_read_range(data, ByteRange { start: (start + length) as u64, length: None });
    let c = spec_read_range(data, ByteRange { start, length: None });
    if start >= data.len() {
        assert(a + b =~= c);
    } else if start + length >= data.len() {
        assert(a + b =~= c);
    } else {
        assert(a + b =~= c);
    }
}

impl TranscodedMemorySource {
    pub fn new(uri: String, bytes: Vec<u8>) -> (r: Self)
        ensures
            r.uri == uri,
            r.bytes == bytes,
    {
        TranscodedMemorySource { uri, bytes }
    }

    /// The URI the bytes were read from.
    pub fn uri(&self) -> (r: &str)
        ensures
            r@ == self.uri@,
    {
        self.uri.as_str()
    }

    /// The size of the source, always known.
    pub fn len(&self) -> (r: Option<u64>)
        ensures
            r == Some(self.bytes@.len() as u64),
    {
        Some(self.bytes.len() as u64)
    }

    /// Copies the bytes of `range` that lie inside the source.
    pub fn read_range(&self, range: ByteRange) -> (r: Vec<u8>)
        ensures
            r@ == spec_read_range(self.bytes@, range),
    {
        let len = self.bytes.len();
        let start: usize = if range.start > usize::MAX as u64 { usize::MAX } else { range.start as usize };
        if start >= len {
            return Vec::new();
        }
        let end: usize = match range.length {
            None => len,
            Some(length) => {
                let length: usize = if length > usize::MAX as u64 { usize::MAX } else { length as usize };
                let end = match start.checked_add(length) {
                    Some(v) => v,
                    None => usize::MAX,
                };
                if end < len { end } else { len }
            },
        };
        slice_to_vec(slice_subrange(self.bytes.as_slice(), start, end))
    }
}

} // verus!
