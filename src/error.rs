use vstd::prelude::*;

verus! {

/// Why a compression call failed. Each stage failure carries the diagnostic
/// text of the component that rejected the image.
#[derive(Debug, PartialEq, Eq)]
pub enum CompressError {
    /// The requested quality lies outside `0..=100`.
    InvalidQuality(i32),
    /// The input buffer holds no bytes.
    EmptyInput,
    /// The buffer starts with neither the PNG signature nor the JPEG start-of-image marker.
    UnsupportedFormat,
    /// The pixel decoder rejected the buffer.
    DecodeFailed(String),
    /// Palette generation rejected the pixels.
    QuantizeFailed(String),
    /// Dithered remapping onto the palette failed.
    RemapFailed(String),
    /// The final encoder could not produce a complete stream.
    EncodeFailed(String),
}

/// The category of a `CompressError`, without its diagnostic text.
#[derive(Debug, Clone, Copy, PartialEq, Eq, Structural)]
pub enum ErrorKind {
    InvalidQuality,
    EmptyInput,
    UnsupportedFormat,
    DecodeFailed,
    QuantizeFailed,
    RemapFailed,
    EncodeFailed,
}

pub open spec fn kind_of(e: CompressError) -> ErrorKind {
    match e {
        CompressError::InvalidQuality(_) => ErrorKind::InvalidQuality,
        CompressError::EmptyInput => ErrorKind::EmptyInput,
        CompressError::UnsupportedFormat => ErrorKind::UnsupportedFormat,
        CompressError::DecodeFailed(_) => ErrorKind::DecodeFailed,
        CompressError::QuantizeFailed(_) => ErrorKind::QuantizeFailed,
        CompressError::RemapFailed(_) => ErrorKind::RemapFailed,
        CompressError::EncodeFailed(_) => ErrorKind::EncodeFailed,
    }
}

impl CompressError {
    /// The error's category.
    pub fn kind(&self) -> (k: ErrorKind)
        ensures
            k == kind_of(*self),
    {
        match self {
            CompressError::InvalidQuality(_) => ErrorKind::InvalidQuality,
            CompressError::EmptyInput => ErrorKind::EmptyInput,
            CompressError::UnsupportedFormat => ErrorKind::UnsupportedFormat,
            CompressError::DecodeFailed(_) => ErrorKind::DecodeFailed,
            CompressError::QuantizeFailed(_) => ErrorKind::QuantizeFailed,
            CompressError::RemapFailed(_) => ErrorKind::RemapFailed,
            CompressError::EncodeFailed(_) => ErrorKind::EncodeFailed,
        }
    }
}

/// `r` is the outcome `expected` describes: the same output bytes, or an
/// error of the same category.
pub open spec fn outcome_is(
    r: Result<Vec<u8>, CompressError>,
    expected: Result<Seq<u8>, ErrorKind>,
) -> bool {
    match r {
        Ok(out) => expected == Ok::<Seq<u8>, ErrorKind>(out@),
        Err(e) => expected == Err::<Seq<u8>, ErrorKind>(kind_of(e)),
    }
}

} // verus!
