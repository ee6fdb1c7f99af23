//! Playback core of an audio engine: the sample hand-off between the decode
//! thread and the hardware callback, the decoder's bookkeeping, the capability
//! model of byte sources, and the engine's transport state machine.
pub mod decoder;
pub mod engine;
pub mod error;
pub mod output;
pub mod ring;
pub mod source;
pub mod time;

pub use decoder::{DecodeAction, Decoder, PacketEvent};
pub use engine::{EngineState, PlaybackState, SessionPlan};
pub use error::AudioError;
pub use output::{check_output_format, OutputConfig, SampleFormat};
pub use ring::{Sample, SampleConsumer, SampleProducer, SampleRing, SILENCE};
pub use source::{duration_from_frames, FileSource, NetworkSource, Source};
pub use time::MediaTime;
