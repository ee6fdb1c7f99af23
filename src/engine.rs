//! The engine's transport: which session is live, what it retains for
//! seeking, and what the control context publishes as the position. The
//! caller performs each returned plan: it builds the ring, spawns the decoder
//! and builds the output stream.
use vstd::prelude::*;

use crate::decoder::{lemma_position_monotonic, position_ms, saturate};
use crate::error::AudioError;
use crate::output::{check_output_format, writes_format, OutputConfig};
use crate::ring::{capacity_for, session_capacity};
use crate::time::MediaTime;

verus! {

/// Where the transport stands.
#[derive(Debug, Clone, Copy, PartialEq, Eq, Structural)]
pub enum PlaybackState {
    /// No session.
    Idle,
    /// A session whose output runs.
    Playing,
    /// A session whose output is stopped.
    Paused,
}

/// What the caller builds for a new session.
#[derive(Debug, Clone, PartialEq, Eq)]
pub struct SessionPlan {
    /// The capacity of the session's fresh ring.
    pub ring_capacity: usize,
    /// Where the decoder starts; the beginning where `None`.
    pub start: Option<MediaTime>,
    /// The position to publish before the decoder is spawned, in milliseconds.
    pub position_ms: u64,
    /// Whether the decoder publishes its position as it goes.
    pub track_position: bool,
    /// Whether the new output stream is started once built.
    pub start_output: bool,
}

/// The transport of an audio engine.
pub struct EngineState {
    config: OutputConfig,
    ring_capacity: usize,
    state: PlaybackState,
    retained: Option<String>,
    position_ms: u64,
}

impl EngineState {
    /// The output configuration sessions are built for.
    pub closed spec fn spec_config(&self) -> OutputConfig {
        self.config
    }

    /// Where the transport stands.
    pub closed spec fn spec_state(&self) -> PlaybackState {
        self.state
    }

    /// The path of the file retained for reopening on seek, if any.
    pub closed spec fn spec_retained(&self) -> Option<Seq<char>> {
        match self.retained {
            Some(p) => Some(p@),
            None => None,
        }
    }

    /// The position the control context last published, in milliseconds.
    pub closed spec fn spec_position_ms(&self) -> nat {
        self.position_ms as nat
    }

    /// The ring capacity of every session.
    pub closed spec fn spec_ring_capacity(&self) -> nat {
        self.ring_capacity as nat
    }

    /// The configuration gives a usable ring, a source is retained only
    /// while a session is live, and an idle transport publishes zero.
    pub open spec fn wf(&self) -> bool {
        &&& config_usable(self.spec_config())
        &&& self.spec_ring_capacity() == session_capacity(
            self.spec_config().sample_rate as nat,
            self.spec_config().channels as nat,
        )
        &&& self.spec_retained() is Some ==> self.spec_state() != PlaybackState::Idle
        &&& self.spec_state() == PlaybackState::Idle ==> self.spec_position_ms() == 0
    }

    /// An idle transport: no session, nothing retained, position zero, and
    /// everything else as it was.
    pub open spec fn is_stopped_from(&self, before: &EngineState) -> bool {
        &&& self.spec_state() == PlaybackState::Idle
        &&& self.spec_retained() is None
        &&& self.spec_position_ms() == 0
        &&& self.spec_config() == before.spec_config()
        &&& self.spec_ring_capacity() == before.spec_ring_capacity()
    }

    /// An idle transport for outputs in `config`. A configuration whose
    /// two-second ring would be empty or too large cannot serve a session.
    pub fn new(config: OutputConfig) -> (r: Result<EngineState, AudioError>)
        ensures
            r is Ok <==> config_usable(config),
            r is Err ==> r == Err::<EngineState, AudioError>(AudioError::DeviceNotAvailable),
            r matches Ok(e) ==> {
                &&& e.wf()
                &&& e.spec_config() == config
                &&& e.spec_state() == PlaybackState::Idle
                &&& e.spec_retained() is None
                &&& e.spec_position_ms() == 0
            },
    {
        match capacity_for(config.sample_rate, config.channels) {
            Some(ring_capacity) => Ok(
                EngineState {
                    config,
                    ring_capacity,
                    state: PlaybackState::Idle,
                    retained: None,
                    position_ms: 0,
                },
            ),
            None => Err(AudioError::DeviceNotAvailable),
        }
    }

    /// The output configuration sessions are built for.
    pub fn config(&self) -> (r: OutputConfig)
        ensures
            r == self.spec_config(),
    {
        self.config
    }

    /// Where the transport stands.
    pub fn state(&self) -> (r: PlaybackState)
        ensures
            r == self.spec_state(),
    {
        self.state
    }

    /// The position the control context last published, in milliseconds.
    pub fn position_ms(&self) -> (r: u64)
        ensures
            r == self.spec_position_ms(),
    {
        self.position_ms
    }

    /// The path of the file to reopen on seek, if one is retained.
    pub fn retained_path(&self) -> (r: Option<&str>)
        ensures
            r is Some <==> self.spec_retained() is Some,
            r matches Some(p) ==> p@ == self.spec_retained()->0,
    {
        match &self.retained {
            Some(p) => Some(p.as_str()),
            None => None,
        }
    }

    /// Ends any session: nothing retained, position zero.
    pub fn stop(&mut self)
        requires
            old(self).wf(),
        ensures
            final(self).wf(),
            final(self).is_stopped_from(old(self)),
    {
        self.state = PlaybackState::Idle;
        self.retained = None;
        self.position_ms = 0;
    }

    /// Starts a new session after ending any live one. `reopen_path` is the
    /// path of a file source, retained so that the session can seek; a
    /// source that cannot be reopened passes `None`, and its session neither
    /// seeks nor tracks its position. An output format the callback cannot
    /// write leaves the transport idle.
    pub fn play(&mut self, reopen_path: Option<String>) -> (r: Result<SessionPlan, AudioError>)
        requires
            old(self).wf(),
        ensures
            final(self).wf(),
            r is Ok <==> writes_format(old(self).spec_config().format),
            r is Err ==> r == Err::<SessionPlan, AudioError>(AudioError::UnsupportedFormat)
                && final(self).is_stopped_from(old(self)),
            r matches Ok(plan) ==> {
                &&& final(self).spec_state() == PlaybackState::Playing
                &&& final(self).spec_retained() == match reopen_path {
                    Some(p) => Some(p@),
                    None => None::<Seq<char>>,
                }
                &&& final(self).spec_position_ms() == 0
                &&& final(self).spec_config() == old(self).spec_config()
                &&& plan.ring_capacity == old(self).spec_ring_capacity()
                &&& plan.start is None
                &&& plan.position_ms == 0
                &&& plan.track_position == reopen_path is Some
                &&& plan.start_output
            },
    {
        self.stop();
        if let Err(e) = check_output_format(self.config.format) {
            return Err(e);
        }
        let track_position = reopen_path.is_some();
        self.retained = reopen_path;
        self.state = PlaybackState::Playing;
        Ok(
            SessionPlan {
                ring_capacity: self.ring_capacity,
                start: None,
                position_ms: 0,
                track_position,
                start_output: true,
            },
        )
    }

    /// A session's pipeline could not be built: the transport goes idle.
    pub fn session_failed(&mut self)
        requires
            old(self).wf(),
        ensures
            final(self).wf(),
            final(self).is_stopped_from(old(self)),
    {
        self.stop();
    }

    /// Pauses a live session; returns whether there was one, whose output
    /// the caller then stops.
    pub fn pause(&mut self) -> (r: bool)
        requires
            old(self).wf(),
        ensures
            final(self).wf(),
            r == (old(self).spec_state() != PlaybackState::Idle),
            final(self).spec_state() == if r {
                PlaybackState::Paused
            } else {
                PlaybackState::Idle
            },
            final(self).spec_retained() == old(self).spec_retained(),
            final(self).spec_position_ms() == old(self).spec_position_ms(),
            final(self).spec_config() == old(self).spec_config(),
    {
        match self.state {
            PlaybackState::Idle => false,
            _ => {
                self.state = PlaybackState::Paused;
                true
            },
        }
    }

    /// Resumes a live session; returns whether there was one, whose output
    /// the caller then starts.
    pub fn resume(&mut self) -> (r: bool)
        requires
            old(self).wf(),
        ensures
            final(self).wf(),
            r == (old(self).spec_state() != PlaybackState::Idle),
            final(self).spec_state() == if r {
                PlaybackState::Playing
            } else {
                PlaybackState::Idle
            },
            final(self).spec_retained() == old(self).spec_retained(),
            final(self).spec_position_ms() == old(self).spec_position_ms(),
            final(self).spec_config() == old(self).spec_config(),
    {
        match self.state {
            PlaybackState::Idle => false,
            _ => {
                self.state = PlaybackState::Playing;
                true
            },
        }
    }

    /// Moves the live session to `target` by rebuilding its pipeline from a
    /// reopened source. Only a session with a retained source can seek;
    /// otherwise nothing changes. The target is published at once, before
    /// the new decoder makes progress, and the session stays playing or
    /// paused as it was.
    pub fn seek(&mut self, target: MediaTime) -> (r: Result<SessionPlan, AudioError>)
        requires
            old(self).wf(),
        ensures
            final(self).wf(),
            r is Ok <==> old(self).spec_retained() is Some,
            r is Err ==> r == Err::<SessionPlan, AudioError>(AudioError::SeekUnsupported)
                && *final(self) == *old(self),
            r matches Ok(plan) ==> {
                &&& final(self).spec_state() == old(self).spec_state()
                &&& final(self).spec_retained() == old(self).spec_retained()
                &&& final(self).spec_config() == old(self).spec_config()
                &&& final(self).spec_position_ms() == saturate(target.millis())
                &&& plan.ring_capacity == old(self).spec_ring_capacity()
                &&& plan.start == Some(target)
                &&& plan.position_ms == saturate(target.millis())
                &&& plan.track_position
                &&& plan.start_output == (old(self).spec_state() == PlaybackState::Playing)
            },
    {
        if self.retained.is_none() {
            return Err(AudioError::SeekUnsupported);
        }
        let position_ms = target.as_millis();
        self.position_ms = position_ms;
        Ok(
            SessionPlan {
                ring_capacity: self.ring_capacity,
                start: Some(target),
                position_ms,
                track_position: true,
                start_output: self.state == PlaybackState::Playing,
            },
        )
    }

    /// Switches to another output configuration, which ends any session. A
    /// configuration that cannot serve a session is refused and nothing
    /// changes.
    pub fn set_output(&mut self, config: OutputConfig) -> (r: Result<(), AudioError>)
        requires
            old(self).wf(),
        ensures
            final(self).wf(),
            r is Ok <==> config_usable(config),
            r is Err ==> r == Err::<(), AudioError>(AudioError::DeviceNotAvailable)
                && *final(self) == *old(self),
            r is Ok ==> {
                &&& final(self).spec_config() == config
                &&& final(self).spec_state() == PlaybackState::Idle
                &&& final(self).spec_retained() is None
                &&& final(self).spec_position_ms() == 0
            },
    {
        match capacity_for(config.sample_rate, config.channels) {
            Some(ring_capacity) => {
                self.config = config;
                self.ring_capacity = ring_capacity;
                self.stop();
                Ok(())
            },
            None => Err(AudioError::DeviceNotAvailable),
        }
    }
}

/// Whether `config` gives a session ring that is neither empty nor too
/// large for a `usize`.
pub open spec fn config_usable(config: OutputConfig) -> bool {
    0 < session_capacity(config.sample_rate as nat, config.channels as nat) <= usize::MAX
}

/// After a seek to `target`, the position readers see is the target before
/// the new decoder decodes anything, and what that decoder, started from the
/// published position, reports afterwards never falls below it.
pub proof fn lemma_seek_publishes_target_first(
    target: MediaTime,
    sample_rate: nat,
    earlier: nat,
    later: nat,
)
    requires
        sample_rate > 0,
        earlier <= later,
    ensures
        saturate(position_ms(saturate(target.millis()), 0, sample_rate)) == saturate(
            target.millis(),
        ),
        saturate(target.millis()) <= saturate(
            position_ms(saturate(target.millis()), earlier, sample_rate),
        ),
        saturate(position_ms(saturate(target.millis()), earlier, sample_rate)) <= saturate(
            position_ms(saturate(target.millis()), later, sample_rate),
        ),
{
    let start = saturate(target.millis());
    lemma_position_monotonic(start, 0, earlier, sample_rate);
    lemma_position_monotonic(start, earlier, later, sample_rate);
}

} // verus!
