//! The recording lifecycle: one session with three states, a sample buffer
//! and at most one live input stream.

use vstd::prelude::*;

verus! {

/// State of the recording session.
#[derive(Debug, Clone, Copy, PartialEq, Eq, Structural)]
pub enum RecordingState {
    Idle,
    Recording,
    Stopping,
}

/// Why a request on the recording session was refused or failed.
#[derive(Debug, Clone, Copy, PartialEq, Eq, Structural)]
pub enum AudioError {
    /// A start was asked while a recording runs or is being stopped.
    AlreadyRecording,
    /// A stop was asked while an earlier stop is not finished.
    AlreadyStopping,
    /// A stop was asked while nothing is recorded.
    NotRecording,
    /// The recording that was stopped holds no sample.
    NoSamplesRecorded,
    /// No input device, or the device gave no stream.
    DeviceUnavailable,
    /// The samples could not be written out.
    WriteFailed,
}

/// The recording session as a value: its state, the samples buffered so far
/// and the handle of the live input stream.
pub struct RecordingSession<H, S> {
    pub state: RecordingState,
    pub samples: Seq<S>,
    pub stream: Option<H>,
}

/// What a caller or the input device does to the session.
pub enum SessionOp<H, S> {
    /// A start request; the value is what opening the input stream gives if
    /// the request gets that far.
    Start(Option<H>),
    /// A block of samples from the device.
    Append(Seq<S>),
    /// A stop request.
    Stop,
    /// The end of a stop, after the samples were written or not.
    FinishStop(bool),
}

/// A stream handle is held exactly while recording, and samples are held only
/// while recording or stopping.
pub open spec fn session_valid<H, S>(s: RecordingSession<H, S>) -> bool {
    &&& s.stream is Some <==> s.state == RecordingState::Recording
    &&& s.samples.len() > 0 ==> s.state != RecordingState::Idle
}

/// The session at process start.
pub open spec fn initial_session<H, S>() -> RecordingSession<H, S> {
    RecordingSession { state: RecordingState::Idle, samples: Seq::empty(), stream: None }
}

/// The session after a start request, and the answer to it.
pub open spec fn start_spec<H, S>(s: RecordingSession<H, S>, opened: Option<H>) -> (
    RecordingSession<H, S>,
    Result<(), AudioError>,
) {
    if s.state != RecordingState::Idle {
        (s, Err(AudioError::AlreadyRecording))
    } else {
        match opened {
            Some(h) => (
                RecordingSession {
                    state: RecordingState::Recording,
                    samples: Seq::empty(),
                    stream: Some(h),
                },
                Ok(()),
            ),
            None => (initial_session(), Err(AudioError::DeviceUnavailable)),
        }
    }
}

/// The session after the device delivered `block`: it is appended while
/// recording, and dropped otherwise.
pub open spec fn append_spec<H, S>(s: RecordingSession<H, S>, block: Seq<S>) -> RecordingSession<
    H,
    S,
> {
    if s.state == RecordingState::Recording {
        RecordingSession { samples: s.samples + block, ..s }
    } else {
        s
    }
}

/// The session after its stream was torn down: no stream is held, and a
/// session that was recording is stopping from then on. Where no stream was
/// held, nothing changes.
pub open spec fn teardown_spec<H, S>(s: RecordingSession<H, S>) -> RecordingSession<H, S> {
    RecordingSession {
        state: if s.state == RecordingState::Recording {
            RecordingState::Stopping
        } else {
            s.state
        },
        samples: s.samples,
        stream: None,
    }
}

/// The session after a stop request, and the answer to it.
pub open spec fn stop_spec<H, S>(s: RecordingSession<H, S>) -> (
    RecordingSession<H, S>,
    Result<(), AudioError>,
) {
    match s.state {
        RecordingState::Idle => (s, Err(AudioError::NotRecording)),
        RecordingState::Stopping => (s, Err(AudioError::AlreadyStopping)),
        RecordingState::Recording => if s.samples.len() == 0 {
            (initial_session(), Err(AudioError::NoSamplesRecorded))
        } else {
            (
                RecordingSession {
                    state: RecordingState::Stopping,
                    samples: s.samples,
                    stream: None,
                },
                Ok(()),
            )
        },
    }
}

/// The session after the end of a stop, and the answer to it.
pub open spec fn finish_stop_spec<H, S>(s: RecordingSession<H, S>, written: bool) -> (
    RecordingSession<H, S>,
    Result<(), AudioError>,
) {
    if s.state != RecordingState::Stopping {
        (s, Err(AudioError::NotRecording))
    } else if written {
        (initial_session(), Ok(()))
    } else {
        (initial_session(), Err(AudioError::WriteFailed))
    }
}

/// The session after one operation.
pub open spec fn apply_op<H, S>(s: RecordingSession<H, S>, op: SessionOp<H, S>) -> RecordingSession<
    H,
    S,
> {
    match op {
        SessionOp::Start(opened) => start_spec(s, opened).0,
        SessionOp::Append(block) => append_spec(s, block),
        SessionOp::Stop => stop_spec(s).0,
        SessionOp::FinishStop(written) => finish_stop_spec(s, written).0,
    }
}

/// The session after a sequence of operations.
pub open spec fn run_ops<H, S>(s: RecordingSession<H, S>, ops: Seq<SessionOp<H, S>>)
    -> RecordingSession<H, S>
    decreases ops.len(),
{
    if ops.len() == 0 {
        s
    } else {
        apply_op(run_ops(s, ops.drop_last()), ops.last())
    }
}

/// No operation leads from a valid session to an invalid one.
pub proof fn lemma_op_keeps_valid<H, S>(s: RecordingSession<H, S>, op: SessionOp<H, S>)
    requires
        session_valid(s),
    ensures
        session_valid(apply_op(s, op)),
{
}

/// Tearing down the stream leaves a valid session valid, and done a second
/// time it changes nothing.
pub proof fn lemma_teardown<H, S>(s: RecordingSession<H, S>)
    requires
        session_valid(s),
    ensures
        session_valid(teardown_spec(s)),
        teardown_spec(teardown_spec(s)) == teardown_spec(s),
        s.stream is None ==> teardown_spec(s) == s,
{
}

/// Whatever is asked of the session and in whatever order, a stream handle is
/// held only while recording: there is never a stream outside the one
/// recording, and never a second recording beside it.
pub proof fn lemma_session_always_valid<H, S>(ops: Seq<SessionOp<H, S>>)
    ensures
        session_valid(run_ops(initial_session::<H, S>(), ops)),
        run_ops(initial_session::<H, S>(), ops).state != RecordingState::Recording ==> run_ops(
            initial_session::<H, S>(),
            ops,
        ).stream is None,
    decreases ops.len(),
{
    if ops.len() > 0 {
        lemma_session_always_valid(ops.drop_last());
        lemma_op_keeps_valid(run_ops(initial_session::<H, S>(), ops.drop_last()), ops.last());
    }
}

/// A stop while idle is refused as not recording, a start while recording as
/// already recording, and of two stops in a row the second as already
/// stopping.
pub proof fn lemma_refusals<H, S>(s: RecordingSession<H, S>, opened: Option<H>)
    ensures
        s.state == RecordingState::Idle ==> stop_spec(s) == (s, Err::<(), AudioError>(AudioError::NotRecording)),
        s.state == RecordingState::Recording ==> start_spec(s, opened) == (
            s,
            Err::<(), AudioError>(AudioError::AlreadyRecording),
        ),
        s.state == RecordingState::Stopping ==> start_spec(s, opened) == (
            s,
            Err::<(), AudioError>(AudioError::AlreadyRecording),
        ),
        s.state == RecordingState::Recording && s.samples.len() > 0 ==> {
            &&& stop_spec(s).1 is Ok
            &&& stop_spec(stop_spec(s).0) == (
                stop_spec(s).0,
                Err::<(), AudioError>(AudioError::AlreadyStopping),
            )
        },
{
}

/// A start that is accepted leaves an empty buffer, whatever the buffer held
/// before, so the samples of a recording are those delivered since its start.
pub proof fn lemma_start_clears_samples<H, S>(
    s: RecordingSession<H, S>,
    handle: H,
    first: Seq<S>,
    second: Seq<S>,
)
    requires
        s.state == RecordingState::Idle,
    ensures
        start_spec(s, Some(handle)).0.samples == Seq::<S>::empty(),
        append_spec(start_spec(s, Some(handle)).0, first).samples == first,
        append_spec(append_spec(start_spec(s, Some(handle)).0, first), second).samples == first
            + second,
{
    assert(Seq::<S>::empty() + first == first);
}

/// Owner of the recording session. `H` is the handle of a live input stream,
/// which stops the stream when it is dropped; `S` is one sample.
pub struct AudioStreamManager<H, S> {
    state: RecordingState,
    samples: Vec<S>,
    active_stream: Option<H>,
}

impl<H, S> View for AudioStreamManager<H, S> {
    type V = RecordingSession<H, S>;

    closed spec fn view(&self) -> RecordingSession<H, S> {
        RecordingSession {
            state: self.state,
            samples: self.samples@,
            stream: self.active_stream,
        }
    }
}

impl<H, S> AudioStreamManager<H, S> {
    #[verifier::type_invariant]
    spec fn inv(self) -> bool {
        session_valid(self@)
    }

    /// An idle session with an empty buffer, where an input device is
    /// present.
    pub fn new(device_present: bool) -> (r: Result<Self, AudioError>)
        ensures
            device_present ==> (r matches Ok(m) && m@ == initial_session::<H, S>()),
            !device_present ==> (r matches Err(e) && e == AudioError::DeviceUnavailable),
    {
        if device_present {
            Ok(
                AudioStreamManager {
                    state: RecordingState::Idle,
                    samples: Vec::new(),
                    active_stream: None,
                },
            )
        } else {
            Err(AudioError::DeviceUnavailable)
        }
    }

    /// The state of the session.
    pub fn state(&self) -> (r: RecordingState)
        ensures
            r == self@.state,
            session_valid(self@),
    {
        proof {
            use_type_invariant(self);
        }
        self.state
    }

    /// Whether a live input stream is held.
    pub fn has_stream(&self) -> (r: bool)
        ensures
            r == self@.stream is Some,
            r == (self@.state == RecordingState::Recording),
    {
        proof {
            use_type_invariant(self);
        }
        self.active_stream.is_some()
    }

    /// The samples buffered so far.
    pub fn samples(&self) -> (r: &Vec<S>)
        ensures
            r@ == self@.samples,
            r@.len() > 0 ==> self@.state != RecordingState::Idle,
    {
        proof {
            use_type_invariant(self);
        }
        &self.samples
    }

    /// Starts a recording. Refused unless the session is idle. Else any stream
    /// left over is torn down and the buffer is emptied and released, and only
    /// then `open` is asked for the input stream: with a stream the session
    /// records, without one it stays idle.
    pub fn start_recording<F: FnOnce() -> Option<H>>(&mut self, open: F) -> (r: Result<
        (),
        AudioError,
    >)
        requires
            open.requires(()),
        ensures
            session_valid(final(self)@),
            old(self)@.state != RecordingState::Idle ==> (final(self)@, r) == start_spec(
                old(self)@,
                None,
            ),
            old(self)@.state == RecordingState::Idle ==> exists|opened: Option<H>|
                #[trigger] open.ensures((), opened) && (final(self)@, r) == start_spec(
                    old(self)@,
                    opened,
                ),
    {
        proof {
            use_type_invariant(&*self);
        }
        match self.state {
            RecordingState::Idle => {},
            _ => {
                return Err(AudioError::AlreadyRecording);
            },
        }
        self.cleanup_stream();
        self.samples = Vec::new();
        let opened = open();
        match opened {
            Some(stream) => {
                *self =
                AudioStreamManager {
                    state: RecordingState::Recording,
                    samples: Vec::new(),
                    active_stream: Some(stream),
                };
                Ok(())
            },
            None => Err(AudioError::DeviceUnavailable),
        }
    }

    /// Takes in a block of samples from the device: appended while
    /// recording (the answer is `true`), dropped otherwise.
    pub fn append_samples(&mut self, block: Vec<S>) -> (r: bool)
        ensures
            session_valid(final(self)@),
            final(self)@ == append_spec(old(self)@, block@),
            r == (old(self)@.state == RecordingState::Recording),
    {
        proof {
            use_type_invariant(&*self);
        }
        match self.state {
            RecordingState::Recording => {
                let mut block = block;
                let mut kept: Vec<S> = Vec::new();
                core::mem::swap(&mut self.samples, &mut kept);
                kept.append(&mut block);
                self.samples = kept;
                true
            },
            _ => {
                assert(self@ == append_spec(self@, block@));
                false
            },
        }
    }

    /// Stops the recording. Refused while idle and while an earlier stop is
    /// not finished. Else the stream is torn down; with an empty buffer the
    /// session is idle again and the stop has failed, with samples it waits,
    /// stopping, for `finish_stop`.
    pub fn stop_recording(&mut self) -> (r: Result<(), AudioError>)
        ensures
            session_valid(final(self)@),
            (final(self)@, r) == stop_spec(old(self)@),
    {
        proof {
            use_type_invariant(&*self);
        }
        match self.state {
            RecordingState::Idle => {
                return Err(AudioError::NotRecording);
            },
            RecordingState::Stopping => {
                return Err(AudioError::AlreadyStopping);
            },
            RecordingState::Recording => {},
        }
        self.cleanup_stream();
        if self.samples.len() == 0 {
            self.samples = Vec::new();
            self.state = RecordingState::Idle;
            Err(AudioError::NoSamplesRecorded)
        } else {
            Ok(())
        }
    }

    /// Ends a stop once the samples were written out, or could not be: the
    /// buffer is emptied and released and the session is idle again either
    /// way.
    pub fn finish_stop(&mut self, written: bool) -> (r: Result<(), AudioError>)
        ensures
            session_valid(final(self)@),
            (final(self)@, r) == finish_stop_spec(old(self)@, written),
    {
        proof {
            use_type_invariant(&*self);
        }
        match self.state {
            RecordingState::Stopping => {},
            _ => {
                return Err(AudioError::NotRecording);
            },
        }
        self.samples = Vec::new();
        self.state = RecordingState::Idle;
        if written {
            Ok(())
        } else {
            Err(AudioError::WriteFailed)
        }
    }

    /// Tears down the live stream, if there is one: the handle is dropped,
    /// which stops the stream, and a session that was recording is stopping
    /// from then on. Without a stream nothing changes.
    fn cleanup_stream(&mut self)
        ensures
            final(self)@ == teardown_spec(old(self)@),
            session_valid(final(self)@),
    {
        proof {
            use_type_invariant(&*self);
        }
        match self.state {
            RecordingState::Recording => {
                let mut kept: Vec<S> = Vec::new();
                core::mem::swap(&mut self.samples, &mut kept);
                *self =
                AudioStreamManager {
                    state: RecordingState::Stopping,
                    samples: kept,
                    active_stream: None,
                };
            },
            _ => {
                self.active_stream = None;
            },
        }
    }
}

} // verus!
