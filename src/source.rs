//! Byte sources the decoder reads from: local files, which can always be
//! reopened, and network streams, whose seeking depends on the server.
use vstd::prelude::*;

use crate::error::AudioError;
use crate::time::{MediaTime, NANOS_PER_SEC};

verus! {

/// A capability-tagged source of compressed audio bytes.
///
/// Seeking a source only records the new logical position: the decoder does
/// the real seek on a fresh byte stream.
pub trait Source {
    /// The total duration, where it is known.
    spec fn spec_duration(&self) -> Option<MediaTime>;

    /// Whether the bytes come over the network.
    spec fn spec_is_network(&self) -> bool;

    /// Whether the source can be moved to another position.
    spec fn spec_is_seekable(&self) -> bool;

    /// The logical position.
    spec fn spec_position(&self) -> MediaTime;

    /// The total duration, where it is known.
    fn total_duration(&self) -> (r: Option<MediaTime>)
        ensures
            r == self.spec_duration(),
    ;

    /// Whether the bytes come over the network.
    fn is_network(&self) -> (r: bool)
        ensures
            r == self.spec_is_network(),
    ;

    /// Whether the source can be moved to another position.
    fn is_seekable(&self) -> (r: bool)
        ensures
            r == self.spec_is_seekable(),
    ;

    /// Moves the logical position to `position`; a source that cannot seek
    /// refuses and stays where it is.
    fn seek(&mut self, position: MediaTime) -> (r: Result<(), AudioError>)
        ensures
            r is Ok <==> old(self).spec_is_seekable(),
            r is Ok ==> final(self).spec_position() == position,
            r is Err ==> r == Err::<(), AudioError>(AudioError::SeekUnsupported)
                && final(self).spec_position() == old(self).spec_position(),
            final(self).spec_is_seekable() == old(self).spec_is_seekable(),
            final(self).spec_is_network() == old(self).spec_is_network(),
            final(self).spec_duration() == old(self).spec_duration(),
    ;

    /// The logical position.
    fn current_position(&self) -> (r: MediaTime)
        ensures
            r == self.spec_position(),
    ;
}

/// A local file: always seekable, and reopenable by its path.
pub struct FileSource<F> {
    file: F,
    path: String,
    duration: Option<MediaTime>,
    position: MediaTime,
}

impl<F> FileSource<F> {
    /// The path the file was opened from.
    pub closed spec fn spec_path(&self) -> Seq<char> {
        self.path@
    }

    /// The opened file.
    pub closed spec fn spec_file(&self) -> F {
        self.file
    }

    /// A source over the opened `file`, found at `path`, whose total duration
    /// is `duration` where it is known. Its position is the start.
    pub fn from_opened(file: F, path: String, duration: Option<MediaTime>) -> (r: FileSource<F>)
        ensures
            r.spec_file() == file,
            r.spec_path() == path@,
            r.spec_duration() == duration,
            r.spec_position().total_nanos() == 0,
    {
        FileSource { file, path, duration, position: MediaTime::zero() }
    }

    /// The path the file was opened from; reopening it gives an independent
    /// handle to the same bytes.
    pub fn path(&self) -> (r: &str)
        ensures
            r@ == self.spec_path(),
    {
        self.path.as_str()
    }

    /// The opened file, for the decoder to read.
    pub fn into_file(self) -> (r: F)
        ensures
            r == self.spec_file(),
    {
        self.file
    }
}

impl<F> Source for FileSource<F> {
    closed spec fn spec_duration(&self) -> Option<MediaTime> {
        self.duration
    }

    open spec fn spec_is_network(&self) -> bool {
        false
    }

    open spec fn spec_is_seekable(&self) -> bool {
        true
    }

    closed spec fn spec_position(&self) -> MediaTime {
        self.position
    }

    fn total_duration(&self) -> (r: Option<MediaTime>) {
        self.duration
    }

    fn is_network(&self) -> (r: bool) {
        false
    }

    fn is_seekable(&self) -> (r: bool) {
        true
    }

    fn seek(&mut self, position: MediaTime) -> (r: Result<(), AudioError>) {
        self.position = position;
        Ok(())
    }

    fn current_position(&self) -> (r: MediaTime) {
        self.position
    }
}

/// A stream of bytes over the network. Whether it can seek depends on the
/// server's support for range requests, settled when it is made.
pub struct NetworkSource<R> {
    reader: R,
    url: String,
    supports_range: bool,
    position: MediaTime,
}

impl<R> NetworkSource<R> {
    /// The address the bytes come from; empty where it is not known.
    pub closed spec fn spec_url(&self) -> Seq<char> {
        self.url@
    }

    /// The reader the bytes come through.
    pub closed spec fn spec_reader(&self) -> R {
        self.reader
    }

    /// A stream over `reader` from an unknown address, without range support.
    pub fn new(reader: R) -> (r: NetworkSource<R>)
        ensures
            r.spec_reader() == reader,
            r.spec_url() == Seq::<char>::empty(),
            !r.spec_is_seekable(),
            r.spec_position().total_nanos() == 0,
    {
        NetworkSource { reader, url: String::new(), supports_range: false, position: MediaTime::zero() }
    }

    /// A stream over `reader` from `url`; it can seek exactly when the server
    /// supports range requests.
    pub fn with_url(reader: R, url: String, supports_range: bool) -> (r: NetworkSource<R>)
        ensures
            r.spec_reader() == reader,
            r.spec_url() == url@,
            r.spec_is_seekable() == supports_range,
            r.spec_position().total_nanos() == 0,
    {
        NetworkSource { reader, url, supports_range, position: MediaTime::zero() }
    }

    /// The address the bytes come from.
    pub fn url(&self) -> (r: &str)
        ensures
            r@ == self.spec_url(),
    {
        self.url.as_str()
    }

    /// The reader, for the decoder to read.
    pub fn into_reader(self) -> (r: R)
        ensures
            r == self.spec_reader(),
    {
        self.reader
    }
}

impl<R> Source for NetworkSource<R> {
    open spec fn spec_duration(&self) -> Option<MediaTime> {
        None
    }

    open spec fn spec_is_network(&self) -> bool {
        true
    }

    closed spec fn spec_is_seekable(&self) -> bool {
        self.supports_range
    }

    closed spec fn spec_position(&self) -> MediaTime {
        self.position
    }

    fn total_duration(&self) -> (r: Option<MediaTime>) {
        None
    }

    fn is_network(&self) -> (r: bool) {
        true
    }

    fn is_seekable(&self) -> (r: bool) {
        self.supports_range
    }

    fn seek(&mut self, position: MediaTime) -> (r: Result<(), AudioError>) {
        if !self.supports_range {
            return Err(AudioError::SeekUnsupported);
        }
        self.position = position;
        Ok(())
    }

    fn current_position(&self) -> (r: MediaTime) {
        self.position
    }
}

/// The duration of `n_frames` frames at `sample_rate` frames per second,
/// rounded down to the nanosecond.
pub open spec fn frames_duration_nanos(n_frames: nat, sample_rate: nat) -> nat {
    n_frames * NANOS_PER_SEC as nat / sample_rate
}

/// The total duration of a stream from its frame count and sample rate, as
/// its codec parameters give them; unknown where either is missing or the
/// rate is zero.
pub fn duration_from_frames(n_frames: Option<u64>, sample_rate: Option<u32>) -> (r: Option<
    MediaTime,
>)
    ensures
        r is Some <==> (n_frames is Some && sample_rate is Some && sample_rate->0 > 0),
        r matches Some(d) ==> d.total_nanos() == frames_duration_nanos(
            n_frames->0 as nat,
            sample_rate->0 as nat,
        ),
{
    match (n_frames, sample_rate) {
        (Some(frames), Some(rate)) => {
            if rate == 0 {
                return None;
            }
            let rate64 = rate as u64;
            let secs = frames / rate64;
            let rem = frames % rate64;
            assert(rem * NANOS_PER_SEC < rate64 * NANOS_PER_SEC) by (nonlinear_arith)
                requires
                    rem < rate64,
            ;
            assert(rate64 * NANOS_PER_SEC <= u32::MAX * NANOS_PER_SEC) by (nonlinear_arith)
                requires
                    rate64 <= u32::MAX,
            ;
            let nanos64 = rem * NANOS_PER_SEC as u64 / rate64;
            assert(nanos64 < NANOS_PER_SEC) by (nonlinear_arith)
                requires
                    rem < rate64,
                    nanos64 == rem as int * NANOS_PER_SEC as int / rate64 as int,
                    rate64 > 0,
            ;
            let d = MediaTime::new(secs, nanos64 as u32);
            assert(secs * NANOS_PER_SEC + nanos64 == frames as int * NANOS_PER_SEC as int
                / rate64 as int) by (nonlinear_arith)
                requires
                    secs == frames / rate64,
                    rem == frames % rate64,
                    nanos64 == rem as int * NANOS_PER_SEC as int / rate64 as int,
                    rate64 > 0,
            ;
            Some(d)
        },
        _ => None,
    }
}

} // verus!
