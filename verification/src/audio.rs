//! The audio command processor: what each command does to the sink, and how
//! a clip gets from its address onto the sink.
//!
//! The sink itself, the fetch and the decoder belong to the caller. The
//! processor keeps a model of the sink, tells the caller which operations to
//! perform on the real one, and decides after each report how to go on.

use crate::command::{Command, CommandView};
use crate::config::{Config, ConfigView, FULL_VOLUME};
use crate::error::{ErrorView, Fe2IoError};
use vstd::prelude::*;
use vstd::string::*;

verus! {

/// What the processor knows of the sink.
#[derive(Debug, PartialEq, Eq)]
pub struct SinkModel {
    /// The gain, as the bit pattern of an IEEE-754 single.
    pub volume: u32,
    /// The address of the clip that was queued last and has not been
    /// stopped since. The clip may have played to its end meanwhile.
    pub clip: Option<String>,
}

/// A `SinkModel` as mathematical values.
pub struct SinkView {
    pub volume: u32,
    pub clip: Option<Seq<char>>,
}

impl View for SinkModel {
    type V = SinkView;

    open spec fn view(&self) -> SinkView {
        SinkView { volume: self.volume, clip: self.clip.deep_view() }
    }
}

/// One operation on the sink.
#[derive(Debug, PartialEq, Eq)]
pub enum SinkOp {
    /// Set the gain to this bit pattern.
    SetVolume(u32),
    /// Drop whatever is queued or playing.
    Stop,
    /// Wait `delay_ms`, then queue the clip that was decoded from `url`,
    /// skipping as much of it as time has passed since its command was
    /// taken up.
    Append { url: String, delay_ms: u64 },
}

/// A `SinkOp` as mathematical values.
pub enum SinkOpView {
    SetVolume(u32),
    Stop,
    Append { url: Seq<char>, delay_ms: u64 },
}

impl View for SinkOp {
    type V = SinkOpView;

    open spec fn view(&self) -> SinkOpView {
        match self {
            SinkOp::SetVolume(volume) => SinkOpView::SetVolume(*volume),
            SinkOp::Stop => SinkOpView::Stop,
            SinkOp::Append { url, delay_ms } => SinkOpView::Append {
                url: url@,
                delay_ms: *delay_ms,
            },
        }
    }
}

impl DeepView for SinkOp {
    type V = SinkOpView;

    open spec fn deep_view(&self) -> SinkOpView {
        self@
    }
}

/// What the caller reports to the processor.
#[derive(Debug, PartialEq, Eq)]
pub enum AudioEvent {
    /// A command came out of the queue.
    Received(Command),
    /// The queue is closed and empty.
    QueueClosed,
    /// The fetch of `url` was answered with this status; `detail` describes
    /// the answer.
    Responded { url: String, status: u16, detail: String },
    /// The fetch was not answered.
    FetchFailed(String),
    /// The body of the answer for `url` was read and decoded into a clip.
    Loaded { url: String },
    /// The body could not be read.
    BodyFailed(String),
    /// The body is not a clip.
    DecodeFailed(String),
}

/// An `AudioEvent` as mathematical values.
pub enum AudioEventView {
    Received(CommandView),
    QueueClosed,
    Responded { url: Seq<char>, status: u16, detail: Seq<char> },
    FetchFailed(Seq<char>),
    Loaded { url: Seq<char> },
    BodyFailed(Seq<char>),
    DecodeFailed(Seq<char>),
}

impl View for AudioEvent {
    type V = AudioEventView;

    open spec fn view(&self) -> AudioEventView {
        match self {
            AudioEvent::Received(command) => AudioEventView::Received(command@),
            AudioEvent::QueueClosed => AudioEventView::QueueClosed,
            AudioEvent::Responded { url, status, detail } => AudioEventView::Responded {
                url: url@,
                status: *status,
                detail: detail@,
            },
            AudioEvent::FetchFailed(detail) => AudioEventView::FetchFailed(detail@),
            AudioEvent::Loaded { url } => AudioEventView::Loaded { url: url@ },
            AudioEvent::BodyFailed(detail) => AudioEventView::BodyFailed(detail@),
            AudioEvent::DecodeFailed(detail) => AudioEventView::DecodeFailed(detail@),
        }
    }
}

/// What the caller does once the sink operations of a step are done.
#[derive(Debug, PartialEq, Eq)]
pub enum AudioNext {
    /// Take the next command from the queue.
    Receive,
    /// Request the clip at this address.
    Fetch(String),
    /// Read the body of the answer for this address and decode it.
    Load(String),
    /// Stop the unit with this fatal condition.
    Halt(Fe2IoError),
}

/// An `AudioNext` as mathematical values.
pub enum AudioNextView {
    Receive,
    Fetch(Seq<char>),
    Load(Seq<char>),
    Halt(ErrorView),
}

impl View for AudioNext {
    type V = AudioNextView;

    open spec fn view(&self) -> AudioNextView {
        match self {
            AudioNext::Receive => AudioNextView::Receive,
            AudioNext::Fetch(url) => AudioNextView::Fetch(url@),
            AudioNext::Load(url) => AudioNextView::Load(url@),
            AudioNext::Halt(error) => AudioNextView::Halt(error@),
        }
    }
}

/// The processor's answer to one report.
#[derive(Debug, PartialEq, Eq)]
pub struct AudioStep {
    /// The sink once `ops` are performed.
    pub sink: SinkModel,
    /// The operations to perform on the sink, in this order, before `next`.
    pub ops: Vec<SinkOp>,
    /// A recoverable failure to log; the command it belongs to is over.
    pub report: Option<Fe2IoError>,
    /// What to do after that.
    pub next: AudioNext,
}

/// An `AudioStep` as mathematical values.
#[verifier::ext_equal]
pub struct AudioStepView {
    pub sink: SinkView,
    pub ops: Seq<SinkOpView>,
    pub report: Option<ErrorView>,
    pub next: AudioNextView,
}

impl View for AudioStep {
    type V = AudioStepView;

    open spec fn view(&self) -> AudioStepView {
        AudioStepView {
            sink: self.sink@,
            ops: self.ops.deep_view(),
            report: self.report.deep_view(),
            next: self.next@,
        }
    }
}

/// The sink after one operation.
pub open spec fn sink_after_op(sink: SinkView, op: SinkOpView) -> SinkView {
    match op {
        SinkOpView::SetVolume(volume) => SinkView { volume, ..sink },
        SinkOpView::Stop => SinkView { clip: None, ..sink },
        SinkOpView::Append { url, .. } => SinkView { clip: Some(url), ..sink },
    }
}

/// The sink after a list of operations, performed first to last.
pub open spec fn sink_after(sink: SinkView, ops: Seq<SinkOpView>) -> SinkView
    decreases ops.len(),
{
    if ops.len() == 0 {
        sink
    } else {
        sink_after_op(sink_after(sink, ops.drop_last()), ops.last())
    }
}

/// The sink as it is when the unit starts: full volume, nothing queued.
pub open spec fn fresh_sink() -> SinkView {
    SinkView { volume: FULL_VOLUME, clip: None }
}

/// Whether a fetch answered with this status delivered a clip.
pub open spec fn status_is_success(status: u16) -> bool {
    200 <= status <= 299
}

/// A step that touches nothing and goes on with the next command.
pub open spec fn idle_step(sink: SinkView, report: Option<ErrorView>) -> AudioStepView {
    AudioStepView { sink, ops: Seq::empty(), report, next: AudioNextView::Receive }
}

/// What a status token does: the death token restores the default volume,
/// the leave token stops playback, any other token is refused.
pub open spec fn change_status_spec(config: ConfigView, sink: SinkView, token: Seq<char>) -> Result<
    (SinkView, SinkOpView),
    ErrorView,
> {
    if token == config.died_status {
        Ok((SinkView { volume: config.volume, ..sink }, SinkOpView::SetVolume(config.volume)))
    } else if token == config.left_status {
        Ok((SinkView { clip: None, ..sink }, SinkOpView::Stop))
    } else {
        Err(ErrorView::Invalid("Got invalid status type "@ + token))
    }
}

/// How a play command starts: full volume, then silence, then the fetch.
pub open spec fn play_audio_spec(url: Seq<char>) -> AudioStepView {
    AudioStepView {
        sink: fresh_sink(),
        ops: seq![SinkOpView::SetVolume(FULL_VOLUME), SinkOpView::Stop],
        report: None,
        next: AudioNextView::Fetch(url),
    }
}

/// The answer to what came out of the queue.
pub open spec fn handle_audio_inputs_spec(
    config: ConfigView,
    sink: SinkView,
    input: Option<CommandView>,
) -> AudioStepView {
    match input {
        None => AudioStepView {
            sink,
            ops: Seq::empty(),
            report: None,
            next: AudioNextView::Halt(ErrorView::RecvClosed),
        },
        Some(CommandView::PlayAudio(url)) => play_audio_spec(url),
        Some(CommandView::SetStatus(token)) => match change_status_spec(config, sink, token) {
            Ok((changed, op)) => AudioStepView {
                sink: changed,
                ops: seq![op],
                report: None,
                next: AudioNextView::Receive,
            },
            Err(error) => idle_step(sink, Some(error)),
        },
    }
}

/// The answer to each report of the caller.
pub open spec fn audio_loop_spec(
    config: ConfigView,
    sink: SinkView,
    event: AudioEventView,
) -> AudioStepView {
    match event {
        AudioEventView::Received(command) => handle_audio_inputs_spec(config, sink, Some(command)),
        AudioEventView::QueueClosed => handle_audio_inputs_spec(config, sink, None),
        AudioEventView::Responded { url, status, detail } => if status_is_success(status) {
            AudioStepView {
                sink,
                ops: Seq::empty(),
                report: None,
                next: AudioNextView::Load(url),
            }
        } else {
            idle_step(sink, Some(ErrorView::Http(detail)))
        },
        AudioEventView::FetchFailed(detail) => idle_step(sink, Some(ErrorView::Http(detail))),
        AudioEventView::BodyFailed(detail) => idle_step(sink, Some(ErrorView::Http(detail))),
        AudioEventView::DecodeFailed(detail) => idle_step(sink, Some(ErrorView::Decoder(detail))),
        AudioEventView::Loaded { url } => AudioStepView {
            sink: SinkView { clip: Some(url), ..sink },
            ops: seq![SinkOpView::Append { url, delay_ms: config.playback_delay_ms }],
            report: None,
            next: AudioNextView::Receive,
        },
    }
}

/// The sink as it is when the unit starts.
pub fn new_sink() -> (sink: SinkModel)
    ensures
        sink@ == fresh_sink(),
{
    SinkModel { volume: FULL_VOLUME, clip: None }
}

/// Whether a fetch answered with this status delivered a clip.
pub fn is_success(status: u16) -> (success: bool)
    ensures
        success == status_is_success(status),
{
    200 <= status && status <= 299
}

/// Applies a status token to the sink and returns the operation that does
/// the same to the real one. A token that is refused leaves the sink as it
/// is.
pub fn change_status(sink: &mut SinkModel, input: &String, config: &Config) -> (changed: Result<
    SinkOp,
    Fe2IoError,
>)
    ensures
        match changed {
            Ok(op) => change_status_spec(config@, old(sink)@, input@) == Ok::<_, ErrorView>(
                (final(sink)@, op@),
            ),
            Err(error) => {
                &&& change_status_spec(config@, old(sink)@, input@) == Err::<
                    (SinkView, SinkOpView),
                    _,
                >(error@)
                &&& final(sink)@ == old(sink)@
            },
        },
{
    if *input == *config.died_status() {
        let volume: u32 = config.volume();
        sink.volume = volume;
        Ok(SinkOp::SetVolume(volume))
    } else if *input == *config.left_status() {
        sink.clip = None;
        Ok(SinkOp::Stop)
    } else {
        Err(Fe2IoError::Invalid("Got invalid status type ".to_owned().concat(input.as_str())))
    }
}

/// Starts a play command. Whatever the sink held and whatever becomes of
/// the fetch, the sink is at full volume and silent before the fetch is
/// attempted.
pub fn play_audio(input: String) -> (step: AudioStep)
    ensures
        step@ =~= play_audio_spec(input@),
{
    let ops: Vec<SinkOp> = vec![SinkOp::SetVolume(FULL_VOLUME), SinkOp::Stop];
    assert(ops.deep_view() =~= seq![SinkOpView::SetVolume(FULL_VOLUME), SinkOpView::Stop]);
    AudioStep { sink: new_sink(), ops, report: None, next: AudioNext::Fetch(input) }
}

/// A step that touches nothing, logs `report` and goes on with the next command.
fn idle(sink: SinkModel, report: Option<Fe2IoError>) -> (step: AudioStep)
    ensures
        step@ =~= idle_step(sink@, report.deep_view()),
{
    let ops: Vec<SinkOp> = Vec::new();
    assert(ops.deep_view() =~= Seq::<SinkOpView>::empty());
    AudioStep { sink, ops, report, next: AudioNext::Receive }
}

/// Answers what came out of the queue: a command is carried out, a closed
/// queue ends the unit.
pub fn handle_audio_inputs(sink: SinkModel, input: Option<Command>, config: &Config) -> (step:
    AudioStep)
    ensures
        step@ =~= handle_audio_inputs_spec(config@, sink@, input.deep_view()),
{
    match input {
        None => {
            let ops: Vec<SinkOp> = Vec::new();
            assert(ops.deep_view() =~= Seq::<SinkOpView>::empty());
            AudioStep { sink, ops, report: None, next: AudioNext::Halt(Fe2IoError::RecvClosed) }
        },
        Some(Command::PlayAudio(url)) => play_audio(url),
        Some(Command::SetStatus(token)) => {
            let mut sink = sink;
            match change_status(&mut sink, &token, config) {
                Ok(op) => {
                    let ghost op_view = op@;
                    let ops: Vec<SinkOp> = vec![op];
                    assert(ops.deep_view() =~= seq![op_view]);
                    AudioStep { sink, ops, report: None, next: AudioNext::Receive }
                },
                Err(error) => idle(sink, Some(error)),
            }
        },
    }
}

/// Takes the caller's report and returns the next step of the audio unit.
///
/// Only a closed queue stops the unit. A clip that cannot be fetched, read or
/// decoded is reported and the unit goes on with the next command.
pub fn audio_loop(sink: SinkModel, event: AudioEvent, config: &Config) -> (step: AudioStep)
    ensures
        step@ =~= audio_loop_spec(config@, sink@, event@),
{
    match event {
        AudioEvent::Received(command) => handle_audio_inputs(sink, Some(command), config),
        AudioEvent::QueueClosed => handle_audio_inputs(sink, None, config),
        AudioEvent::Responded { url, status, detail } => {
            if is_success(status) {
                let ops: Vec<SinkOp> = Vec::new();
                assert(ops.deep_view() =~= Seq::<SinkOpView>::empty());
                AudioStep { sink, ops, report: None, next: AudioNext::Load(url) }
            } else {
                idle(sink, Some(Fe2IoError::Http(detail)))
            }
        },
        AudioEvent::FetchFailed(detail) => idle(sink, Some(Fe2IoError::Http(detail))),
        AudioEvent::BodyFailed(detail) => idle(sink, Some(Fe2IoError::Http(detail))),
        AudioEvent::DecodeFailed(detail) => idle(sink, Some(Fe2IoError::Decoder(detail))),
        AudioEvent::Loaded { url } => {
            let ghost address = url@;
            let delay_ms: u64 = config.playback_delay_ms();
            let ops: Vec<SinkOp> = vec![SinkOp::Append { url: url.clone(), delay_ms }];
            assert(ops.deep_view() =~= seq![SinkOpView::Append { url: address, delay_ms }]);
            AudioStep {
                sink: SinkModel { volume: sink.volume, clip: Some(url) },
                ops,
                report: None,
                next: AudioNext::Receive,
            }
        },
    }
}

/// The sink of a step is the old sink after the step's operations: the model
/// and the real sink move together.
pub proof fn lemma_ops_account_for_sink(config: ConfigView, sink: SinkView, event: AudioEventView)
    ensures
        audio_loop_spec(config, sink, event).sink == sink_after(
            sink,
            audio_loop_spec(config, sink, event).ops,
        ),
{
    let step = audio_loop_spec(config, sink, event);
    reveal_with_fuel(sink_after, 3);
    if step.ops.len() == 1 {
        assert(step.ops.drop_last() =~= Seq::<SinkOpView>::empty());
    } else if step.ops.len() == 2 {
        assert(step.ops.drop_last() =~= seq![step.ops[0]]);
        assert(step.ops.drop_last().drop_last() =~= Seq::<SinkOpView>::empty());
    }
}

/// Failures are sorted into two kinds. What a step reports is recoverable
/// and the unit goes on; what halts the unit is fatal, and only a closed
/// queue does that.
pub proof fn lemma_failures_are_classified(config: ConfigView, sink: SinkView, event: AudioEventView)
    ensures
        audio_loop_spec(config, sink, event).report matches Some(error) ==> !error.is_fatal()
            && audio_loop_spec(config, sink, event).next == AudioNextView::Receive,
        audio_loop_spec(config, sink, event).next matches AudioNextView::Halt(error)
            ==> error.is_fatal(),
        audio_loop_spec(config, sink, event).next is Halt <==> event is QueueClosed,
{
}

/// A play command silences the sink at full volume before the fetch is
/// asked for, whatever the sink held and whatever the address is.
pub proof fn lemma_play_resets_sink_before_fetch(config: ConfigView, sink: SinkView, url: Seq<char>)
    ensures
        ({
            let step = audio_loop_spec(
                config,
                sink,
                AudioEventView::Received(CommandView::PlayAudio(url)),
            );
            &&& step.ops == seq![SinkOpView::SetVolume(FULL_VOLUME), SinkOpView::Stop]
            &&& step.next == AudioNextView::Fetch(url)
            &&& step.sink == fresh_sink()
            &&& sink_after(sink, step.ops) == step.sink
        }),
{
    lemma_ops_account_for_sink(config, sink, AudioEventView::Received(CommandView::PlayAudio(url)));
}

/// After the death token the volume is the configured default, exactly, and
/// nothing else about the sink has changed.
pub proof fn lemma_death_restores_default_volume(config: ConfigView, sink: SinkView)
    ensures
        ({
            let step = audio_loop_spec(
                config,
                sink,
                AudioEventView::Received(CommandView::SetStatus(config.died_status)),
            );
            &&& step.sink == (SinkView { volume: config.volume, clip: sink.clip })
            &&& step.ops == seq![SinkOpView::SetVolume(config.volume)]
            &&& step.report is None
            &&& step.next == AudioNextView::Receive
        }),
{
}

/// After the leave token the sink holds no clip, and its volume is as before.
pub proof fn lemma_leave_stops_playback(config: ConfigView, sink: SinkView)
    requires
        config.wf(),
    ensures
        ({
            let step = audio_loop_spec(
                config,
                sink,
                AudioEventView::Received(CommandView::SetStatus(config.left_status)),
            );
            &&& step.sink == (SinkView { volume: sink.volume, clip: None })
            &&& step.ops == seq![SinkOpView::Stop]
            &&& step.report is None
            &&& step.next == AudioNextView::Receive
        }),
{
}

/// A clip that cannot be had costs only its own command: when the fetch of a
/// play command fails, is refused, or delivers what cannot be read or
/// decoded, the failure is reported as recoverable, the sink stays silent at
/// full volume, and the unit takes the next command.
pub proof fn lemma_failed_clip_leaves_sink_ready(
    config: ConfigView,
    sink: SinkView,
    url: Seq<char>,
    outcome: AudioEventView,
)
    requires
        outcome matches AudioEventView::Responded { status, .. } ==> !status_is_success(status),
        outcome is Responded || outcome is FetchFailed || outcome is BodyFailed
            || outcome is DecodeFailed,
    ensures
        ({
            let started = audio_loop_spec(
                config,
                sink,
                AudioEventView::Received(CommandView::PlayAudio(url)),
            );
            let ended = audio_loop_spec(config, started.sink, outcome);
            &&& ended.sink == fresh_sink()
            &&& ended.ops == Seq::<SinkOpView>::empty()
            &&& ended.report matches Some(error) && !error.is_fatal()
            &&& ended.next == AudioNextView::Receive
        }),
{
}

/// A clip that can be had ends on the sink: when the caller does what each
/// step asks for and every part succeeds, the address of the play command is
/// the one fetched, the one loaded and the one queued, at full volume and
/// after the configured pause.
pub proof fn lemma_played_clip_is_the_one_asked_for(
    config: ConfigView,
    sink: SinkView,
    url: Seq<char>,
    status: u16,
    detail: Seq<char>,
)
    requires
        status_is_success(status),
    ensures
        ({
            let started = audio_loop_spec(
                config,
                sink,
                AudioEventView::Received(CommandView::PlayAudio(url)),
            );
            let answered = audio_loop_spec(
                config,
                started.sink,
                AudioEventView::Responded { url, status, detail },
            );
            let loaded = audio_loop_spec(config, answered.sink, AudioEventView::Loaded { url });
            &&& started.next == AudioNextView::Fetch(url)
            &&& answered.next == AudioNextView::Load(url)
            &&& answered.ops == Seq::<SinkOpView>::empty()
            &&& answered.report is None
            &&& loaded.ops == seq![
                SinkOpView::Append { url, delay_ms: config.playback_delay_ms },
            ]
            &&& loaded.sink == (SinkView { volume: FULL_VOLUME, clip: Some(url) })
            &&& loaded.next == AudioNextView::Receive
        }),
{
}

} // verus!
