//! The pipeline of one job as a state machine. The driver performs the call
//! that the machine asks for (`Action`), reports how it ended (`Event`), and
//! is told the next call. Packets so travel from the demuxer through the
//! decoder, the filter graph and the encoder to the muxer, each stage is
//! flushed in turn once the input has ended, and the first fatal error ends
//! the job.
//!
//! Three nested loops drain the stages. A drain ends normally where the
//! stage it reads from reports that it has nothing more to hand out now
//! (`LibError::Again`) or at all (`LibError::Eof`), and where the stage it
//! feeds reports `LibError::Again`; every other error is fatal, and so is
//! every error of a write to the container.

use vstd::prelude::*;
use crate::error::{ErrorKind, Failure, LibError};
use crate::transcoder::{
    CodecInfo, DecoderInfo, EncoderInfo, EncoderSettings, Rational, Transcoder, TranscoderParams,
    transcoder_of,
};

verus! {

/// The step of the job after which a drain was started.
#[derive(Clone, Copy, Debug, PartialEq, Eq, Structural)]
pub enum Origin {
    /// A packet was sent to the decoder.
    Packet,
    /// The decoder was told that the input has ended.
    DecoderEof,
    /// The filter graph was flushed.
    FilterFlush,
    /// The encoder was told that the frames have ended.
    EncoderEof,
}

/// The stage that a drain reads from.
#[derive(Clone, Copy, Debug, PartialEq, Eq, Structural)]
pub enum Level {
    /// Frames come out of the decoder and go into the filter graph.
    Decoded,
    /// Frames come out of the filter graph and go into the encoder.
    Filtered,
    /// Packets come out of the encoder and go into the container.
    Encoded,
}

/// What the pipeline is waiting for.
#[derive(Clone, Copy, Debug, PartialEq, Eq, Structural)]
pub enum Phase {
    Created,
    OpeningInput,
    OpeningOutput,
    ProbingInput,
    FindingEncoder,
    OpeningEncoder,
    BuildingGraph,
    CopyingMetadata,
    WritingHeader,
    ReadingPacket,
    SendingPacket,
    /// In a drain, waiting for the stage of `Level` to hand out an item.
    Receiving(Origin, Level),
    /// In a drain, waiting for the next stage to take the item.
    Forwarding(Origin, Level),
    SendingDecoderEof,
    FlushingFilter,
    SendingEncoderEof,
    WritingTrailer,
    Finished,
    Failed(Failure),
}

/// The state of a job's pipeline.
#[derive(Clone, Debug, PartialEq, Eq)]
pub struct Pipeline {
    pub phase: Phase,
    /// What the decoder reported, once the input has been probed.
    pub decoder: Option<DecoderInfo>,
    /// The pipeline's setup, once the encoder has been found.
    pub transcoder: Option<Transcoder>,
}

/// How the call that the pipeline asked for has ended.
#[derive(Clone, Debug, PartialEq, Eq)]
pub enum Event {
    /// The driver is ready for the first call.
    Start,
    /// The call succeeded.
    Done,
    /// The call failed.
    Failed(LibError),
    /// Nothing was found: no audio stream, no encoder of that name.
    Missing,
    /// The input's best audio stream and what its decoder reports.
    InputProbed(DecoderInfo),
    /// The encoder of the requested name, and whether the container wants a
    /// global header.
    EncoderFound { codec: CodecInfo, global_header: bool },
    /// The encoder is open and declares this frame size.
    EncoderOpened { frame_size: u32 },
    /// A packet was read from the input.
    Packet { stream: usize, time_base: Rational },
    /// The input has no more packets.
    EndOfInput,
    /// The stage handed out a frame or a packet.
    Item,
}

/// The call that the driver is to make next.
#[derive(Clone, Copy, Debug, PartialEq, Eq, Structural)]
pub enum Action {
    /// Open the staged input for demuxing.
    OpenInput,
    /// Open the output in the requested container format, with the parsed
    /// codec options where the job has any.
    OpenOutput { with_options: bool },
    /// Pick the input's best audio stream and set up its decoder.
    ProbeInput,
    /// Look up the encoder by the requested name.
    FindEncoder,
    /// Add the output's one stream, configure its encoder with these
    /// settings and the stream's time base with theirs, open the encoder and
    /// copy its parameters to the stream.
    OpenEncoder(EncoderSettings),
    /// Build the filter graph between the decoder and this encoder.
    BuildGraph(EncoderInfo),
    /// Copy the input's metadata to the output.
    CopyMetadata,
    WriteHeader,
    /// Read the next packet of the input.
    ReadPacket,
    /// Rescale the packet's timestamps between the two time bases and send it
    /// to the decoder.
    SendPacket { from: Rational, to: Rational },
    /// Ask the decoder for a frame.
    ReceiveFrame,
    /// Set the frame's presentation timestamp to its timestamp field and
    /// push the frame into the filter graph's source.
    FeedFilter,
    /// Ask the filter graph's sink for a frame.
    PullFrame,
    /// Send the filtered frame to the encoder.
    SendFrame,
    /// Ask the encoder for a packet.
    ReceivePacket,
    /// Give the packet this stream index, rescale its timestamps between the
    /// two time bases and write it interleaved.
    WritePacket { stream: usize, from: Rational, to: Rational },
    SendDecoderEof,
    FlushFilter,
    SendEncoderEof,
    WriteTrailer,
    /// The job is done: the output is complete.
    Succeed,
    /// The job has failed.
    Fail(Failure),
}

/// The pipeline of a job that has not started.
pub open spec fn initial() -> Pipeline {
    Pipeline { phase: Phase::Created, decoder: None, transcoder: None }
}

/// Moves on to `phase` and asks for `action`.
pub open spec fn go(state: Pipeline, phase: Phase, action: Action) -> (Pipeline, Action) {
    (Pipeline { phase, ..state }, action)
}

/// Ends the job with `failure`.
pub open spec fn fail(state: Pipeline, failure: Failure) -> (Pipeline, Action) {
    (Pipeline { phase: Phase::Failed(failure), ..state }, Action::Fail(failure))
}

/// Ends the job because `event` cannot end the call that was asked for.
pub open spec fn unexpected(state: Pipeline) -> (Pipeline, Action) {
    fail(state, Failure { kind: ErrorKind::UnexpectedEvent, code: 0 })
}

/// After a call that either succeeds or fails with `kind`.
pub open spec fn after_call(
    state: Pipeline,
    event: Event,
    kind: ErrorKind,
    phase: Phase,
    action: Action,
) -> (Pipeline, Action) {
    match event {
        Event::Done => go(state, phase, action),
        Event::Failed(cause) => fail(state, Failure { kind, code: cause.code() }),
        _ => unexpected(state),
    }
}

/// The level of the outermost drain that a step of the job starts.
pub open spec fn outermost(origin: Origin) -> Level {
    match origin {
        Origin::Packet => Level::Decoded,
        Origin::DecoderEof => Level::Decoded,
        Origin::FilterFlush => Level::Filtered,
        Origin::EncoderEof => Level::Encoded,
    }
}

/// The call that asks the stage of `level` for an item.
pub open spec fn receive_action(level: Level) -> Action {
    match level {
        Level::Decoded => Action::ReceiveFrame,
        Level::Filtered => Action::PullFrame,
        Level::Encoded => Action::ReceivePacket,
    }
}

/// The call that hands an item of `level` to the next stage.
pub open spec fn forward_action(level: Level, transcoder: Transcoder) -> Action {
    match level {
        Level::Decoded => Action::FeedFilter,
        Level::Filtered => Action::SendFrame,
        Level::Encoded => Action::WritePacket {
            stream: 0,
            from: transcoder.in_time_base,
            to: transcoder.out_time_base,
        },
    }
}

/// The failure of a stage that cannot hand out an item.
pub open spec fn receive_failure(level: Level) -> ErrorKind {
    match level {
        Level::Decoded => ErrorKind::DecodeFailed,
        Level::Filtered => ErrorKind::FilterDrainFailed,
        Level::Encoded => ErrorKind::EncodeFailed,
    }
}

/// The failure of a stage that does not take an item.
pub open spec fn forward_failure(level: Level) -> ErrorKind {
    match level {
        Level::Decoded => ErrorKind::FilterFeedFailed,
        Level::Filtered => ErrorKind::EncoderSendFailed,
        Level::Encoded => ErrorKind::MuxWriteFailed,
    }
}

/// Where the job goes on once the outermost drain of `origin` has ended.
pub open spec fn after_drain(state: Pipeline, origin: Origin) -> (Pipeline, Action) {
    match origin {
        Origin::Packet => go(state, Phase::ReadingPacket, Action::ReadPacket),
        Origin::DecoderEof => go(state, Phase::FlushingFilter, Action::FlushFilter),
        Origin::FilterFlush => go(state, Phase::SendingEncoderEof, Action::SendEncoderEof),
        Origin::EncoderEof => go(state, Phase::WritingTrailer, Action::WriteTrailer),
    }
}

/// The drain of `level` has ended normally: the drain around it goes on, or,
/// where it was the outermost one, the job does.
pub open spec fn end_drain(state: Pipeline, origin: Origin, level: Level) -> (Pipeline, Action) {
    match level {
        Level::Decoded => after_drain(state, origin),
        Level::Filtered => if outermost(origin) == Level::Decoded {
            go(state, Phase::Receiving(origin, Level::Decoded), Action::ReceiveFrame)
        } else {
            after_drain(state, origin)
        },
        Level::Encoded => if outermost(origin) == Level::Encoded {
            after_drain(state, origin)
        } else {
            go(state, Phase::Receiving(origin, Level::Filtered), Action::PullFrame)
        },
    }
}

/// After the stage of `level` was asked for an item.
pub open spec fn after_receive(
    state: Pipeline,
    event: Event,
    origin: Origin,
    level: Level,
    transcoder: Transcoder,
) -> (Pipeline, Action) {
    match event {
        Event::Item => go(
            state,
            Phase::Forwarding(origin, level),
            forward_action(level, transcoder),
        ),
        Event::Failed(LibError::Again) => end_drain(state, origin, level),
        Event::Failed(LibError::Eof) => end_drain(state, origin, level),
        Event::Failed(LibError::Other(code)) => fail(
            state,
            Failure { kind: receive_failure(level), code },
        ),
        _ => unexpected(state),
    }
}

/// After an item of `level` was handed to the next stage.
pub open spec fn after_forward(state: Pipeline, event: Event, origin: Origin, level: Level) -> (
    Pipeline,
    Action,
) {
    match event {
        Event::Done => match level {
            Level::Decoded => go(
                state,
                Phase::Receiving(origin, Level::Filtered),
                Action::PullFrame,
            ),
            Level::Filtered => go(
                state,
                Phase::Receiving(origin, Level::Encoded),
                Action::ReceivePacket,
            ),
            Level::Encoded => go(
                state,
                Phase::Receiving(origin, Level::Encoded),
                Action::ReceivePacket,
            ),
        },
        Event::Failed(cause) => if cause == LibError::Again && level != Level::Encoded {
            end_drain(state, origin, level)
        } else {
            fail(state, Failure { kind: forward_failure(level), code: cause.code() })
        },
        _ => unexpected(state),
    }
}

/// After the encoder was looked up.
pub open spec fn after_lookup(state: Pipeline, event: Event, params: TranscoderParams) -> (
    Pipeline,
    Action,
) {
    match event {
        Event::EncoderFound { codec, global_header } => match transcoder_of(
            state.decoder,
            Some(codec),
            global_header,
            params,
        ) {
            Ok(transcoder) => (
                Pipeline {
                    phase: Phase::OpeningEncoder,
                    decoder: state.decoder,
                    transcoder: Some(transcoder),
                },
                Action::OpenEncoder(transcoder.encoder),
            ),
            Err(failure) => fail(state, failure),
        },
        Event::Missing => fail(state, Failure { kind: ErrorKind::UnknownCodec, code: 0 }),
        _ => unexpected(state),
    }
}

/// After a packet was asked of the input.
pub open spec fn after_read(state: Pipeline, event: Event, transcoder: Transcoder) -> (
    Pipeline,
    Action,
) {
    match event {
        Event::Packet { stream, time_base } => if stream == transcoder.stream {
            go(
                state,
                Phase::SendingPacket,
                Action::SendPacket { from: time_base, to: transcoder.in_time_base },
            )
        } else {
            go(state, Phase::ReadingPacket, Action::ReadPacket)
        },
        Event::EndOfInput => go(state, Phase::SendingDecoderEof, Action::SendDecoderEof),
        _ => unexpected(state),
    }
}

/// The steps that need the pipeline's setup.
pub open spec fn next_built(state: Pipeline, event: Event, transcoder: Transcoder) -> (
    Pipeline,
    Action,
) {
    match state.phase {
        Phase::OpeningEncoder => match event {
            Event::EncoderOpened { frame_size } => go(
                state,
                Phase::BuildingGraph,
                Action::BuildGraph(
                    EncoderInfo {
                        format: transcoder.encoder.format,
                        channel_layout: transcoder.encoder.channel_layout,
                        rate: transcoder.encoder.rate,
                        variable_frame_size: transcoder.variable_frame_size,
                        frame_size,
                    },
                ),
            ),
            Event::Failed(cause) => fail(
                state,
                Failure {
                    kind: if transcoder.encoder.with_options {
                        ErrorKind::CodecOptionRejected
                    } else {
                        ErrorKind::EncoderOpenFailed
                    },
                    code: cause.code(),
                },
            ),
            _ => unexpected(state),
        },
        Phase::BuildingGraph => after_call(
            state,
            event,
            ErrorKind::FilterBuildFailed,
            Phase::CopyingMetadata,
            Action::CopyMetadata,
        ),
        Phase::CopyingMetadata => match event {
            Event::Done => go(state, Phase::WritingHeader, Action::WriteHeader),
            _ => unexpected(state),
        },
        Phase::WritingHeader => after_call(
            state,
            event,
            ErrorKind::MuxHeaderFailed,
            Phase::ReadingPacket,
            Action::ReadPacket,
        ),
        Phase::ReadingPacket => after_read(state, event, transcoder),
        Phase::SendingPacket => after_call(
            state,
            event,
            ErrorKind::DecoderSendFailed,
            Phase::Receiving(Origin::Packet, Level::Decoded),
            Action::ReceiveFrame,
        ),
        Phase::Receiving(origin, level) => after_receive(state, event, origin, level, transcoder),
        Phase::Forwarding(origin, level) => after_forward(state, event, origin, level),
        Phase::SendingDecoderEof => after_call(
            state,
            event,
            ErrorKind::DecoderEofFailed,
            Phase::Receiving(Origin::DecoderEof, Level::Decoded),
            Action::ReceiveFrame,
        ),
        Phase::FlushingFilter => after_call(
            state,
            event,
            ErrorKind::FilterFlushFailed,
            Phase::Receiving(Origin::FilterFlush, Level::Filtered),
            Action::PullFrame,
        ),
        Phase::SendingEncoderEof => after_call(
            state,
            event,
            ErrorKind::EncoderEofFailed,
            Phase::Receiving(Origin::EncoderEof, Level::Encoded),
            Action::ReceivePacket,
        ),
        Phase::WritingTrailer => after_call(
            state,
            event,
            ErrorKind::MuxTrailerFailed,
            Phase::Finished,
            Action::Succeed,
        ),
        _ => unexpected(state),
    }
}

/// The pipeline after `event`, and the call it asks for next.
pub open spec fn next(state: Pipeline, event: Event, params: TranscoderParams) -> (
    Pipeline,
    Action,
) {
    match state.phase {
        Phase::Finished => (state, Action::Succeed),
        Phase::Failed(failure) => (state, Action::Fail(failure)),
        Phase::Created => match event {
            Event::Start => go(state, Phase::OpeningInput, Action::OpenInput),
            _ => unexpected(state),
        },
        Phase::OpeningInput => after_call(
            state,
            event,
            ErrorKind::DemuxOpenFailed,
            Phase::OpeningOutput,
            Action::OpenOutput { with_options: params.codec_opts is Some },
        ),
        Phase::OpeningOutput => after_call(
            state,
            event,
            ErrorKind::MuxOpenFailed,
            Phase::ProbingInput,
            Action::ProbeInput,
        ),
        Phase::ProbingInput => match event {
            Event::InputProbed(decoder) => (
                Pipeline {
                    phase: Phase::FindingEncoder,
                    decoder: Some(decoder),
                    transcoder: state.transcoder,
                },
                Action::FindEncoder,
            ),
            Event::Missing => fail(state, Failure { kind: ErrorKind::NoAudioStream, code: 0 }),
            Event::Failed(cause) => fail(
                state,
                Failure { kind: ErrorKind::DecoderOpenFailed, code: cause.code() },
            ),
            _ => unexpected(state),
        },
        Phase::FindingEncoder => after_lookup(state, event, params),
        _ => match state.transcoder {
            Some(transcoder) => next_built(state, event, transcoder),
            None => unexpected(state),
        },
    }
}

fn proceed(state: Pipeline, phase: Phase, action: Action) -> (out: (Pipeline, Action))
    ensures
        out == go(state, phase, action),
{
    (Pipeline { phase, decoder: state.decoder, transcoder: state.transcoder }, action)
}

fn stop(state: Pipeline, failure: Failure) -> (out: (Pipeline, Action))
    ensures
        out == fail(state, failure),
{
    (
        Pipeline {
            phase: Phase::Failed(failure),
            decoder: state.decoder,
            transcoder: state.transcoder,
        },
        Action::Fail(failure),
    )
}

fn refuse(state: Pipeline) -> (out: (Pipeline, Action))
    ensures
        out == unexpected(state),
{
    stop(state, Failure::new(ErrorKind::UnexpectedEvent))
}

fn call_ended(state: Pipeline, event: Event, kind: ErrorKind, phase: Phase, action: Action) -> (out:
    (Pipeline, Action))
    ensures
        out == after_call(state, event, kind, phase, action),
{
    match event {
        Event::Done => proceed(state, phase, action),
        Event::Failed(cause) => stop(state, Failure::from_library(kind, cause)),
        _ => refuse(state),
    }
}

fn drained(state: Pipeline, origin: Origin) -> (out: (Pipeline, Action))
    ensures
        out == after_drain(state, origin),
{
    match origin {
        Origin::Packet => proceed(state, Phase::ReadingPacket, Action::ReadPacket),
        Origin::DecoderEof => proceed(state, Phase::FlushingFilter, Action::FlushFilter),
        Origin::FilterFlush => proceed(state, Phase::SendingEncoderEof, Action::SendEncoderEof),
        Origin::EncoderEof => proceed(state, Phase::WritingTrailer, Action::WriteTrailer),
    }
}

fn drain_ended(state: Pipeline, origin: Origin, level: Level) -> (out: (Pipeline, Action))
    ensures
        out == end_drain(state, origin, level),
{
    match (origin, level) {
        (Origin::Packet, Level::Filtered) | (Origin::DecoderEof, Level::Filtered) => proceed(
            state,
            Phase::Receiving(origin, Level::Decoded),
            Action::ReceiveFrame,
        ),
        (Origin::Packet, Level::Encoded)
        | (Origin::DecoderEof, Level::Encoded)
        | (Origin::FilterFlush, Level::Encoded) => proceed(
            state,
            Phase::Receiving(origin, Level::Filtered),
            Action::PullFrame,
        ),
        _ => drained(state, origin),
    }
}

fn received(state: Pipeline, event: Event, origin: Origin, level: Level, transcoder: Transcoder) -> (out:
    (Pipeline, Action))
    ensures
        out == after_receive(state, event, origin, level, transcoder),
{
    match event {
        Event::Item => {
            let action = match level {
                Level::Decoded => Action::FeedFilter,
                Level::Filtered => Action::SendFrame,
                Level::Encoded => Action::WritePacket {
                    stream: 0,
                    from: transcoder.in_time_base,
                    to: transcoder.out_time_base,
                },
            };
            proceed(state, Phase::Forwarding(origin, level), action)
        },
        Event::Failed(LibError::Other(code)) => {
            let kind = match level {
                Level::Decoded => ErrorKind::DecodeFailed,
                Level::Filtered => ErrorKind::FilterDrainFailed,
                Level::Encoded => ErrorKind::EncodeFailed,
            };
            stop(state, Failure { kind, code })
        },
        Event::Failed(_) => drain_ended(state, origin, level),
        _ => refuse(state),
    }
}

fn forwarded(state: Pipeline, event: Event, origin: Origin, level: Level) -> (out: (
    Pipeline,
    Action,
))
    ensures
        out == after_forward(state, event, origin, level),
{
    match event {
        Event::Done => match level {
            Level::Decoded => proceed(
                state,
                Phase::Receiving(origin, Level::Filtered),
                Action::PullFrame,
            ),
            _ => proceed(state, Phase::Receiving(origin, Level::Encoded), Action::ReceivePacket),
        },
        Event::Failed(cause) => {
            match (cause, level) {
                (LibError::Again, Level::Decoded) | (LibError::Again, Level::Filtered) => {
                    drain_ended(state, origin, level)
                },
                _ => {
                    let kind = match level {
                        Level::Decoded => ErrorKind::FilterFeedFailed,
                        Level::Filtered => ErrorKind::EncoderSendFailed,
                        Level::Encoded => ErrorKind::MuxWriteFailed,
                    };
                    stop(state, Failure::from_library(kind, cause))
                },
            }
        },
        _ => refuse(state),
    }
}

fn looked_up(state: Pipeline, event: Event, params: &TranscoderParams) -> (out: (Pipeline, Action))
    ensures
        out == after_lookup(state, event, *params),
{
    match event {
        Event::EncoderFound { codec, global_header } => {
            let built = match &state.decoder {
                Some(decoder) => Transcoder::new(Some(decoder), Some(&codec), global_header, params),
                None => Transcoder::new(None, Some(&codec), global_header, params),
            };
            match built {
                Ok(transcoder) => (
                    Pipeline {
                        phase: Phase::OpeningEncoder,
                        decoder: state.decoder,
                        transcoder: Some(transcoder),
                    },
                    Action::OpenEncoder(transcoder.encoder),
                ),
                Err(failure) => stop(state, failure),
            }
        },
        Event::Missing => stop(state, Failure::new(ErrorKind::UnknownCodec)),
        _ => refuse(state),
    }
}

fn packet_read(state: Pipeline, event: Event, transcoder: Transcoder) -> (out: (Pipeline, Action))
    ensures
        out == after_read(state, event, transcoder),
{
    match event {
        Event::Packet { stream, time_base } => {
            if stream == transcoder.stream {
                proceed(
                    state,
                    Phase::SendingPacket,
                    Action::SendPacket { from: time_base, to: transcoder.in_time_base },
                )
            } else {
                proceed(state, Phase::ReadingPacket, Action::ReadPacket)
            }
        },
        Event::EndOfInput => proceed(state, Phase::SendingDecoderEof, Action::SendDecoderEof),
        _ => refuse(state),
    }
}

fn step_built(state: Pipeline, event: Event, transcoder: Transcoder) -> (out: (Pipeline, Action))
    ensures
        out == next_built(state, event, transcoder),
{
    match state.phase {
        Phase::OpeningEncoder => match event {
            Event::EncoderOpened { frame_size } => {
                let info = transcoder.encoder_info(frame_size);
                proceed(state, Phase::BuildingGraph, Action::BuildGraph(info))
            },
            Event::Failed(cause) => {
                let kind = if transcoder.encoder.with_options {
                    ErrorKind::CodecOptionRejected
                } else {
                    ErrorKind::EncoderOpenFailed
                };
                stop(state, Failure::from_library(kind, cause))
            },
            _ => refuse(state),
        },
        Phase::BuildingGraph => call_ended(
            state,
            event,
            ErrorKind::FilterBuildFailed,
            Phase::CopyingMetadata,
            Action::CopyMetadata,
        ),
        Phase::CopyingMetadata => match event {
            Event::Done => proceed(state, Phase::WritingHeader, Action::WriteHeader),
            _ => refuse(state),
        },
        Phase::WritingHeader => call_ended(
            state,
            event,
            ErrorKind::MuxHeaderFailed,
            Phase::ReadingPacket,
            Action::ReadPacket,
        ),
        Phase::ReadingPacket => packet_read(state, event, transcoder),
        Phase::SendingPacket => call_ended(
            state,
            event,
            ErrorKind::DecoderSendFailed,
            Phase::Receiving(Origin::Packet, Level::Decoded),
            Action::ReceiveFrame,
        ),
        Phase::Receiving(origin, level) => received(state, event, origin, level, transcoder),
        Phase::Forwarding(origin, level) => forwarded(state, event, origin, level),
        Phase::SendingDecoderEof => call_ended(
            state,
            event,
            ErrorKind::DecoderEofFailed,
            Phase::Receiving(Origin::DecoderEof, Level::Decoded),
            Action::ReceiveFrame,
        ),
        Phase::FlushingFilter => call_ended(
            state,
            event,
            ErrorKind::FilterFlushFailed,
            Phase::Receiving(Origin::FilterFlush, Level::Filtered),
            Action::PullFrame,
        ),
        Phase::SendingEncoderEof => call_ended(
            state,
            event,
            ErrorKind::EncoderEofFailed,
            Phase::Receiving(Origin::EncoderEof, Level::Encoded),
            Action::ReceivePacket,
        ),
        Phase::WritingTrailer => call_ended(
            state,
            event,
            ErrorKind::MuxTrailerFailed,
            Phase::Finished,
            Action::Succeed,
        ),
        _ => refuse(state),
    }
}

impl Pipeline {
    /// The pipeline of a job that has not started. Its first event is
    /// `Event::Start`.
    pub fn new() -> (state: Pipeline)
        ensures
            state == initial(),
    {
        Pipeline { phase: Phase::Created, decoder: None, transcoder: None }
    }

    /// Whether the job has ended, in success or in failure.
    pub fn is_over(&self) -> (over: bool)
        ensures
            over == (self.phase is Finished || self.phase is Failed),
    {
        match self.phase {
            Phase::Finished => true,
            Phase::Failed(_) => true,
            _ => false,
        }
    }

    /// Takes in how the last call ended and says which call comes next.
    pub fn step(self, event: Event, params: &TranscoderParams) -> (out: (Pipeline, Action))
        ensures
            out == next(self, event, *params),
    {
        match self.phase {
            Phase::Finished => (self, Action::Succeed),
            Phase::Failed(failure) => (self, Action::Fail(failure)),
            Phase::Created => match event {
                Event::Start => proceed(self, Phase::OpeningInput, Action::OpenInput),
                _ => refuse(self),
            },
            Phase::OpeningInput => call_ended(
                self,
                event,
                ErrorKind::DemuxOpenFailed,
                Phase::OpeningOutput,
                Action::OpenOutput { with_options: params.codec_opts.is_some() },
            ),
            Phase::OpeningOutput => call_ended(
                self,
                event,
                ErrorKind::MuxOpenFailed,
                Phase::ProbingInput,
                Action::ProbeInput,
            ),
            Phase::ProbingInput => match event {
                Event::InputProbed(decoder) => (
                    Pipeline {
                        phase: Phase::FindingEncoder,
                        decoder: Some(decoder),
                        transcoder: self.transcoder,
                    },
                    Action::FindEncoder,
                ),
                Event::Missing => stop(self, Failure::new(ErrorKind::NoAudioStream)),
                Event::Failed(cause) => stop(
                    self,
                    Failure::from_library(ErrorKind::DecoderOpenFailed, cause),
                ),
                _ => refuse(self),
            },
            Phase::FindingEncoder => looked_up(self, event, params),
            _ => match self.transcoder {
                Some(transcoder) => step_built(self, event, transcoder),
                None => refuse(self),
            },
        }
    }
}

} // verus!
