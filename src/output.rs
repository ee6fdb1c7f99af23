//! What the output side decides on its own: which device sample formats the
//! hardware callback can write.
use vstd::prelude::*;

use crate::error::AudioError;

verus! {

/// A device's native sample representation.
#[derive(Debug, Clone, Copy, PartialEq, Eq, Structural)]
pub enum SampleFormat {
    I8,
    I16,
    I32,
    I64,
    U8,
    U16,
    U32,
    U64,
    F32,
    F64,
    /// Any representation not listed above.
    Other,
}

/// Whether the hardware callback writes samples in `format`: 32-bit float,
/// 16-bit signed and 16-bit unsigned integer.
pub open spec fn writes_format(format: SampleFormat) -> bool {
    format == SampleFormat::F32 || format == SampleFormat::I16 || format == SampleFormat::U16
}

/// Accepts a device format the hardware callback writes and refuses any
/// other as unsupported.
pub fn check_output_format(format: SampleFormat) -> (r: Result<(), AudioError>)
    ensures
        r is Ok <==> writes_format(format),
        r is Err ==> r == Err::<(), AudioError>(AudioError::UnsupportedFormat),
{
    match format {
        SampleFormat::F32 | SampleFormat::I16 | SampleFormat::U16 => Ok(()),
        _ => Err(AudioError::UnsupportedFormat),
    }
}

/// A device's default output configuration.
#[derive(Debug, Clone, Copy, PartialEq, Eq, Structural)]
pub struct OutputConfig {
    /// Frames per second.
    pub sample_rate: u32,
    /// Interleaved channels per frame.
    pub channels: u16,
    /// The native sample representation.
    pub format: SampleFormat,
}

} // verus!
