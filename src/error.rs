use vstd::prelude::*;

verus! {

/// Why a playback operation failed.
#[derive(Debug, Clone, PartialEq, Eq)]
pub enum AudioError {
    /// No output device, or its configuration could not be negotiated.
    DeviceNotAvailable,
    /// The host could not build the output stream.
    StreamBuild(String),
    /// The host could not start the output stream.
    StreamPlay(String),
    /// The host could not pause the output stream.
    StreamPause(String),
    /// The device's default configuration could not be read.
    DeviceConfig(String),
    /// The compressed stream could not be read or decoded.
    Decode(String),
    /// Reading the source failed.
    Io(String),
    /// No demuxer, codec, sample rate or channel layout fits the stream, or the
    /// output's sample format is not one the engine writes.
    UnsupportedFormat,
    /// The source cannot be moved to another position.
    SeekUnsupported,
}

} // verus!
