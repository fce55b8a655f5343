//! The capture session: one state that is `Idle` or `Recording`, the samples
//! of the running session, the format they were captured in, and the handle
//! by which the running capture is told to end.
//!
//! The type is generic in the sample (`S`) and in the handle (`C`): the
//! session keeps both and never looks inside either.

use vstd::prelude::*;
use crate::devices::{
    capture_plan, plan_outcome, reported_names, resolve_capture, CapturePlan, HostDevices,
    InputDevice, PlanView,
};
use crate::error::{text_outcome, AudioError, Failure};
use crate::text::{optional_text, texts};
use crate::waveform::{layout, spec_for, spec_outcome, wave_layout, WaveSpec};

verus! {

/// The state of the capture session.
pub struct AudioState<S, C> {
    /// Whether a session is running.
    pub is_recording: bool,
    /// The samples of the latest session, interleaved by channel, in the order
    /// they arrived.
    pub recording_buffer: Vec<S>,
    /// The handle that ends the running capture.
    pub stop_tx: Option<C>,
    /// Sample rate and channel count of the latest session.
    pub format: Option<(u32, u16)>,
    /// Where the inference model lies.
    pub model_path: Option<String>,
}

/// The state of the capture session as a mathematical value.
#[verifier::ext_equal]
pub struct Session<S, C> {
    pub is_recording: bool,
    pub samples: Seq<S>,
    pub stop_tx: Option<C>,
    pub format: Option<(u32, u16)>,
    pub model_path: Option<Seq<char>>,
}

impl<S, C> View for AudioState<S, C> {
    type V = Session<S, C>;

    open spec fn view(&self) -> Session<S, C> {
        Session {
            is_recording: self.is_recording,
            samples: self.recording_buffer@,
            stop_tx: self.stop_tx,
            format: self.format,
            model_path: optional_text(self.model_path),
        }
    }
}

/// What opening the hardware stream gave, with the message as a sequence of
/// characters.
pub open spec fn stream_outcome<C>(stream: Result<C, String>) -> Result<C, Seq<char>> {
    match stream {
        Ok(handle) => Ok(handle),
        Err(detail) => Err(detail@),
    }
}

/// A handle or a failure, with texts as sequences of characters.
pub open spec fn handle_outcome<C>(r: Result<Option<C>, AudioError>) -> Result<
    Option<C>,
    Failure,
> {
    match r {
        Ok(handle) => Ok(handle),
        Err(e) => Err(e@),
    }
}

impl<S, C> Session<S, C> {
    /// The state before anything was recorded.
    pub open spec fn idle() -> Self {
        Session {
            is_recording: false,
            samples: Seq::empty(),
            stop_tx: None,
            format: None,
            model_path: None,
        }
    }

    /// A handle is registered exactly while a session runs, and a running
    /// session has a format.
    pub open spec fn well_formed(self) -> bool {
        &&& self.is_recording <==> self.stop_tx is Some
        &&& self.is_recording ==> self.format is Some
    }

    /// The plan for a start request whose device resolves to `resolution`:
    /// none while a session runs, else the resolution.
    pub open spec fn plan_with(self, resolution: Result<PlanView, Failure>) -> Result<
        PlanView,
        Failure,
    > {
        if self.is_recording {
            Err(Failure::AlreadyRecording)
        } else {
            resolution
        }
    }

    /// The plan for a start request: none while a session runs, else what the
    /// host's devices give.
    pub open spec fn plan(self, host: HostDevices, wanted: Option<Seq<char>>) -> Result<
        PlanView,
        Failure,
    > {
        self.plan_with(capture_plan(host, wanted))
    }

    /// The state once the device is resolved and the format negotiated: the
    /// samples of the earlier session are gone, the format is recorded.
    pub open spec fn prepared(self, plan: PlanView) -> Self {
        Session {
            samples: Seq::empty(),
            format: Some((plan.config.sample_rate, plan.config.channels)),
            ..self
        }
    }

    /// The state after a start request with the given plan and stream.
    ///
    /// A request without a plan changes nothing. With a plan the session is
    /// prepared; it runs, with the stream's handle registered, only where the
    /// stream was opened.
    pub open spec fn started(
        self,
        plan: Result<PlanView, Failure>,
        stream: Result<C, Seq<char>>,
    ) -> Self {
        match plan {
            Err(_) => self,
            Ok(p) => match stream {
                Err(_) => self.prepared(p),
                Ok(handle) => Session {
                    is_recording: true,
                    stop_tx: Some(handle),
                    ..self.prepared(p)
                },
            },
        }
    }

    /// What a start request with the given plan and stream returns: the name
    /// of the device, or the failure of the plan or of the stream.
    pub open spec fn start_outcome(
        self,
        plan: Result<PlanView, Failure>,
        stream: Result<C, Seq<char>>,
    ) -> Result<Seq<char>, Failure> {
        match plan {
            Err(e) => Err(e),
            Ok(p) => match stream {
                Err(detail) => Err(Failure::StreamBuildFailure(detail)),
                Ok(_) => Ok(p.device_name),
            },
        }
    }

    /// The state after a chunk arrived: the chunk stands behind what was
    /// there, unchanged.
    pub open spec fn appended(self, chunk: Seq<S>) -> Self {
        Session { samples: self.samples + chunk, ..self }
    }

    /// The state after a stop request.
    pub open spec fn stopped(self) -> Self {
        if self.is_recording {
            Session { is_recording: false, stop_tx: None, ..self }
        } else {
            self
        }
    }

    /// What a stop request returns: the handle to signal, if one was
    /// registered, or `NotRecording`.
    pub open spec fn stop_outcome(self) -> Result<Option<C>, Failure> {
        if self.is_recording {
            Ok(self.stop_tx)
        } else {
            Err(Failure::NotRecording)
        }
    }

    /// What is written for the samples held: their header, or why nothing is
    /// written.
    pub open spec fn waveform(self) -> Result<WaveSpec, Failure> {
        layout(self.format, self.samples.len())
    }

    /// The state after one event.
    pub open spec fn after(self, event: Event<S, C>) -> Self {
        match event {
            Event::Start { resolution, stream } => self.started(
                self.plan_with(resolution),
                stream,
            ),
            Event::Chunk(chunk) => self.appended(chunk),
            Event::Stop => self.stopped(),
        }
    }

    /// Whether the event is a start request that succeeds in this state.
    pub open spec fn starts(self, event: Event<S, C>) -> bool {
        event matches Event::Start { resolution, stream } && self.start_outcome(
            self.plan_with(resolution),
            stream,
        ) is Ok
    }

    /// The state after a run of events, the first of them first.
    pub open spec fn after_all(self, events: Seq<Event<S, C>>) -> Self
        decreases events.len(),
    {
        if events.len() == 0 {
            self
        } else {
            self.after_all(events.drop_last()).after(events.last())
        }
    }
}

/// What can happen to a session: a start request, for which the device
/// resolved to `resolution` and opening the stream gave `stream`; a chunk of
/// samples from the capture; a stop request.
pub enum Event<S, C> {
    Start { resolution: Result<PlanView, Failure>, stream: Result<C, Seq<char>> },
    Chunk(Seq<S>),
    Stop,
}

impl<S, C> AudioState<S, C> {
    /// A state in which nothing was recorded and no model is configured.
    pub fn new() -> (state: Self)
        ensures
            state@ == Session::<S, C>::idle(),
            state@.well_formed(),
    {
        AudioState {
            is_recording: false,
            recording_buffer: Vec::new(),
            stop_tx: None,
            format: None,
            model_path: None,
        }
    }
}

/// Lists the names of the input devices the host shows, in its order. A device
/// that reported no name is left out. Where the host could not list its
/// devices, its message comes back as an `Io` failure.
pub fn get_input_devices(host: &HostDevices) -> (r: Result<Vec<String>, AudioError>)
    ensures
        match host.inputs {
            Ok(inputs) => r matches Ok(names) && texts(names@) == reported_names(inputs@),
            Err(detail) => r matches Err(e) && e@ == Failure::Io(detail@),
        },
{
    match &host.inputs {
        Err(detail) => Err(AudioError::Io(detail.clone())),
        Ok(inputs) => {
            let mut names: Vec<String> = Vec::new();
            let mut i: usize = 0;
            while i < inputs.len()
                invariant
                    i <= inputs.len(),
                    texts(names@) == reported_names(inputs@.take(i as int)),
                decreases inputs.len() - i,
            {
                proof {
                    lemma_reported_names_step(inputs@, i as int);
                }
                if let Some(name) = &inputs[i].name {
                    names.push(name.clone());
                }
                i += 1;
            }
            assert(inputs@.take(i as int) =~= inputs@);
            Ok(names)
        },
    }
}

/// Taking one more device into account adds its name, if it reported one.
proof fn lemma_reported_names_step(inputs: Seq<InputDevice>, i: int)
    requires
        0 <= i < inputs.len(),
    ensures
        reported_names(inputs.take(i + 1)) == match inputs[i].name {
            Some(name) => reported_names(inputs.take(i)).push(name@),
            None => reported_names(inputs.take(i)),
        },
{
    assert(inputs.take(i + 1).drop_last() =~= inputs.take(i));
    reveal_with_fuel(Seq::filter, 2);
}

/// Decides what a start request would capture from, without changing the
/// state: `AlreadyRecording` while a session runs, else the device the request
/// resolves to and the format negotiated with it.
pub fn plan_capture<S, C>(
    state: &AudioState<S, C>,
    host: &HostDevices,
    device_name: &Option<String>,
) -> (r: Result<CapturePlan, AudioError>)
    ensures
        plan_outcome(r) == state@.plan(*host, optional_text(*device_name)),
{
    if state.is_recording {
        Err(AudioError::AlreadyRecording)
    } else {
        resolve_capture(host, device_name)
    }
}

/// Starts a session on the device that `device_name` resolves to among the
/// host's devices; `stream` says how opening the hardware stream on that
/// device went, and holds the handle that ends the capture.
///
/// Fails with `AlreadyRecording` while a session runs, and with the failure of
/// resolving the device or negotiating its format; the state is then
/// unchanged. Otherwise the samples of the earlier session are dropped and the
/// negotiated format is recorded. Where the stream could not be opened, its
/// message comes back as `StreamBuildFailure` and no session runs. Where it
/// was, the session runs with the handle registered, and the name of the
/// device is returned.
pub fn start_recording<S, C>(
    state: &mut AudioState<S, C>,
    host: &HostDevices,
    device_name: Option<String>,
    stream: Result<C, String>,
) -> (r: Result<String, AudioError>)
    ensures
        final(state)@ == old(state)@.started(
            old(state)@.plan(*host, optional_text(device_name)),
            stream_outcome(stream),
        ),
        text_outcome(r) == old(state)@.start_outcome(
            old(state)@.plan(*host, optional_text(device_name)),
            stream_outcome(stream),
        ),
        old(state)@.well_formed() ==> final(state)@.well_formed(),
{
    let plan = match plan_capture(state, host, &device_name) {
        Err(e) => {
            return Err(e);
        },
        Ok(plan) => plan,
    };
    state.recording_buffer.clear();
    state.format = Some((plan.config.sample_rate, plan.config.channels));
    match stream {
        Err(detail) => Err(AudioError::StreamBuildFailure(detail)),
        Ok(handle) => {
            state.stop_tx = Some(handle);
            state.is_recording = true;
            Ok(plan.device_name)
        },
    }
}

/// Adds a chunk of samples to the session's samples, behind what is there and
/// as it came. Chunks are kept in the order of the calls.
pub fn write_input_data<S: Copy, C>(state: &mut AudioState<S, C>, input: &[S])
    ensures
        final(state)@ == old(state)@.appended(input@),
{
    let mut i: usize = 0;
    while i < input.len()
        invariant
            i <= input.len(),
            state.recording_buffer@ == old(state).recording_buffer@ + input@.take(i as int),
            state.is_recording == old(state).is_recording,
            state.stop_tx == old(state).stop_tx,
            state.format == old(state).format,
            state.model_path == old(state).model_path,
        decreases input.len() - i,
    {
        state.recording_buffer.push(input[i]);
        i += 1;
    }
}

/// Ends the running session and hands back the handle by which the capture
/// is told to end, if one was registered. Fails with `NotRecording`, and
/// changes nothing, where no session runs. The samples and the format stay
/// for the waveform to be written.
pub fn stop_recording<S, C>(state: &mut AudioState<S, C>) -> (r: Result<Option<C>, AudioError>)
    ensures
        final(state)@ == old(state)@.stopped(),
        handle_outcome(r) == old(state)@.stop_outcome(),
        old(state)@.well_formed() ==> final(state)@.well_formed(),
{
    if !state.is_recording {
        return Err(AudioError::NotRecording);
    }
    let handle = state.stop_tx.take();
    state.is_recording = false;
    Ok(handle)
}

/// Decides what is written for the samples of the latest session: a 32-bit
/// floating-point waveform at the recorded rate and channel count. Fails with
/// `NoFormat` where no format was ever recorded, and with `Io` where the
/// samples cannot be stored as a waveform.
pub fn recording_layout<S, C>(state: &AudioState<S, C>) -> (r: Result<WaveSpec, AudioError>)
    ensures
        spec_outcome(r) == state@.waveform(),
{
    wave_layout(state.format, state.recording_buffer.len())
}

/// Decides whether the stored recording can be played: `NoRecordingFound`
/// where none exists.
pub fn play_recording(recording_exists: bool) -> (r: Result<(), AudioError>)
    ensures
        recording_exists ==> r is Ok,
        !recording_exists ==> r == Err::<(), AudioError>(AudioError::NoRecordingFound),
{
    if recording_exists {
        Ok(())
    } else {
        Err(AudioError::NoRecordingFound)
    }
}

/// While no session runs, a stop request fails with `NotRecording` and changes
/// nothing. No session runs in a new state, and none runs after a chunk
/// arrived, after a stop request, or after a start request that failed: so a
/// stop request that no successful start request went before always fails
/// with `NotRecording`.
pub proof fn law_stop_needs_start<S, C>(
    s: Session<S, C>,
    plan: Result<PlanView, Failure>,
    stream: Result<C, Seq<char>>,
    chunk: Seq<S>,
)
    requires
        !s.is_recording,
    ensures
        s.stop_outcome() == Err::<Option<C>, Failure>(Failure::NotRecording),
        s.stopped() == s,
        !Session::<S, C>::idle().is_recording,
        !s.appended(chunk).is_recording,
        !s.stopped().is_recording,
        s.start_outcome(plan, stream) is Err ==> !s.started(plan, stream).is_recording,
{
}

/// While a session runs, a start request fails with `AlreadyRecording` and
/// changes nothing, whatever device it asks for and however the stream went.
pub proof fn law_start_while_recording<S, C>(
    s: Session<S, C>,
    host: HostDevices,
    wanted: Option<Seq<char>>,
    stream: Result<C, Seq<char>>,
)
    requires
        s.is_recording,
    ensures
        s.start_outcome(s.plan(host, wanted), stream) == Err::<Seq<char>, Failure>(
            Failure::AlreadyRecording,
        ),
        s.started(s.plan(host, wanted), stream) == s,
{
}

/// A stop request right after a successful start request succeeds and hands
/// back the handle that the start registered. No sample is held then, and
/// with a format of at least one channel the waveform is written, at the
/// negotiated rate and channel count.
pub proof fn law_stop_right_after_start<S, C>(
    s: Session<S, C>,
    host: HostDevices,
    wanted: Option<Seq<char>>,
    stream: Result<C, Seq<char>>,
)
    requires
        s.start_outcome(s.plan(host, wanted), stream) is Ok,
    ensures
        ({
            let plan = s.plan(host, wanted);
            let running = s.started(plan, stream);
            let config = plan->Ok_0.config;
            &&& running.is_recording
            &&& running.stop_outcome() == Ok::<Option<C>, Failure>(Some(stream->Ok_0))
            &&& !running.stopped().is_recording
            &&& running.stopped().samples.len() == 0
            &&& running.stopped().format == Some((config.sample_rate, config.channels))
            &&& config.channels > 0 ==> running.stopped().waveform() == Ok::<WaveSpec, Failure>(
                spec_for(config.sample_rate, config.channels),
            )
        }),
{
}

/// `NoFormat` is the answer exactly where no format was ever recorded.
pub proof fn law_no_format<S, C>(s: Session<S, C>)
    ensures
        s.waveform() == Err::<WaveSpec, Failure>(Failure::NoFormat) <==> s.format is None,
{
}

/// A successful start request drops the samples of the session before it, so
/// what is written at the next stop holds the chunks of the new session only,
/// in the order they arrived.
pub proof fn law_restart_drops_earlier_samples<S, C>(
    s: Session<S, C>,
    host: HostDevices,
    wanted: Option<Seq<char>>,
    stream: Result<C, Seq<char>>,
    first: Seq<S>,
    second: Seq<S>,
)
    requires
        s.start_outcome(s.plan(host, wanted), stream) is Ok,
    ensures
        ({
            let running = s.started(s.plan(host, wanted), stream);
            &&& running.samples == Seq::<S>::empty()
            &&& running.appended(first).stopped().samples == first
            &&& running.appended(first).appended(second).stopped().samples == first + second
        }),
{
    let running = s.started(s.plan(host, wanted), stream);
}

/// Whatever happened since a new state, the state is well-formed.
pub proof fn law_every_state_well_formed<S, C>(events: Seq<Event<S, C>>)
    ensures
        Session::<S, C>::idle().after_all(events).well_formed(),
    decreases events.len(),
{
    if events.len() > 0 {
        law_every_state_well_formed(events.drop_last());
    }
}

/// As long as no start request has succeeded since a new state, no session
/// runs, and a stop request fails with `NotRecording`.
pub proof fn law_idle_until_a_start_succeeds<S, C>(events: Seq<Event<S, C>>)
    requires
        forall|k: int|
            0 <= k < events.len() ==> !(#[trigger] Session::<S, C>::idle().after_all(
                events.take(k),
            )).starts(events[k]),
    ensures
        !Session::<S, C>::idle().after_all(events).is_recording,
        Session::<S, C>::idle().after_all(events).stop_outcome() == Err::<Option<C>, Failure>(
            Failure::NotRecording,
        ),
    decreases events.len(),
{
    if events.len() > 0 {
        let earlier = events.drop_last();
        assert forall|k: int| 0 <= k < earlier.len() implies !(#[trigger] Session::<
            S,
            C,
        >::idle().after_all(earlier.take(k))).starts(earlier[k]) by {
            assert(earlier.take(k) =~= events.take(k));
        }
        law_idle_until_a_start_succeeds(earlier);
    }
}

/// What is held at any time is what arrived since the latest successful
/// start request, in the order of arrival: a successful start leaves nothing,
/// a chunk goes behind what is there, and nothing else touches the samples.
pub proof fn law_samples_follow_events<S, C>(s: Session<S, C>, event: Event<S, C>)
    ensures
        s.after(event).samples == match event {
            Event::Start { resolution, stream } => if s.plan_with(resolution) is Ok {
                Seq::<S>::empty()
            } else {
                s.samples
            },
            Event::Chunk(chunk) => s.samples + chunk,
            Event::Stop => s.samples,
        },
{
}

/// The format is set by a start request that found its device, and by
/// nothing else: it stays as it is while chunks arrive and when the session
/// is stopped.
pub proof fn law_format_set_at_start_only<S, C>(s: Session<S, C>, event: Event<S, C>)
    ensures
        s.after(event).format == match event {
            Event::Start { resolution, stream } => match s.plan_with(resolution) {
                Ok(plan) => Some((plan.config.sample_rate, plan.config.channels)),
                Err(_) => s.format,
            },
            Event::Chunk(_) => s.format,
            Event::Stop => s.format,
        },
{
}

/// Every event keeps a well-formed state well-formed.
pub proof fn law_well_formed_kept<S, C>(s: Session<S, C>, event: Event<S, C>)
    requires
        s.well_formed(),
    ensures
        s.after(event).well_formed(),
{
}

} // verus!
