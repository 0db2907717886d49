//! What holds of every run of a job's pipeline, whatever the driver reports.

use vstd::prelude::*;
use crate::pipeline::{Action, Event, Level, Origin, Phase, Pipeline, initial, next};
use crate::transcoder::{Rational, TranscoderParams, effective_sample_rate, positive_or};

verus! {

/// The state a job's pipeline is in after the driver has reported `events`,
/// and the calls it has asked for, one for each event.
pub open spec fn run(events: Seq<Event>, params: TranscoderParams) -> (Pipeline, Seq<Action>)
    decreases events.len(),
{
    if events.len() == 0 {
        (initial(), Seq::<Action>::empty())
    } else {
        let before = run(events.drop_last(), params);
        let step = next(before.0, events.last(), params);
        (step.0, before.1.push(step.1))
    }
}

/// How many output streams the calls in `actions` add: opening the encoder
/// adds one, and nothing else adds any.
pub open spec fn streams_added(actions: Seq<Action>) -> nat
    decreases actions.len(),
{
    if actions.len() == 0 {
        0
    } else {
        streams_added(actions.drop_last()) + if actions.last() is OpenEncoder {
            1nat
        } else {
            0nat
        }
    }
}

/// Whether the calls in `actions` write the container header.
pub open spec fn header_written(actions: Seq<Action>) -> bool
    decreases actions.len(),
{
    if actions.len() == 0 {
        false
    } else {
        header_written(actions.drop_last()) || actions.last() == Action::WriteHeader
    }
}

/// How far a job has come: the steps of a job in their order, the flushes of
/// decoder, filter graph and encoder among them.
pub open spec fn progress(phase: Phase) -> nat {
    match phase {
        Phase::Created => 0,
        Phase::OpeningInput => 1,
        Phase::OpeningOutput => 2,
        Phase::ProbingInput => 3,
        Phase::FindingEncoder => 4,
        Phase::OpeningEncoder => 5,
        Phase::BuildingGraph => 6,
        Phase::CopyingMetadata => 7,
        Phase::WritingHeader => 8,
        Phase::ReadingPacket => 9,
        Phase::SendingPacket => 9,
        Phase::Receiving(origin, _) => progress_of_drain(origin),
        Phase::Forwarding(origin, _) => progress_of_drain(origin),
        Phase::SendingDecoderEof => 10,
        Phase::FlushingFilter => 11,
        Phase::SendingEncoderEof => 12,
        Phase::WritingTrailer => 13,
        Phase::Finished => 14,
        Phase::Failed(_) => 15,
    }
}

/// How far a job has come while it drains after the step `origin`.
pub open spec fn progress_of_drain(origin: Origin) -> nat {
    match origin {
        Origin::Packet => 9,
        Origin::DecoderEof => 10,
        Origin::FilterFlush => 11,
        Origin::EncoderEof => 12,
    }
}

spec fn stream_count_fits(state: Pipeline, actions: Seq<Action>) -> bool {
    match state.phase {
        Phase::Created
        | Phase::OpeningInput
        | Phase::OpeningOutput
        | Phase::ProbingInput
        | Phase::FindingEncoder => streams_added(actions) == 0 && !header_written(actions),
        Phase::Failed(_) => streams_added(actions) <= 1 && (header_written(actions)
            ==> streams_added(actions) == 1),
        _ => streams_added(actions) == 1,
    }
}

proof fn lemma_stream_count(events: Seq<Event>, params: TranscoderParams)
    ensures
        stream_count_fits(run(events, params).0, run(events, params).1),
    decreases events.len(),
{
    if events.len() > 0 {
        lemma_stream_count(events.drop_last(), params);
        let before = run(events.drop_last(), params);
        let step = next(before.0, events.last(), params);
        assert(before.1.push(step.1).drop_last() =~= before.1);
    }
}

/// The output has one stream. Whatever the driver reports, a job adds at most
/// one stream to its output; it has added exactly one by the time it writes
/// the header, and still has when it has finished.
pub proof fn output_has_one_stream(events: Seq<Event>, params: TranscoderParams)
    ensures
        streams_added(run(events, params).1) <= 1,
        header_written(run(events, params).1) ==> streams_added(run(events, params).1) == 1,
        run(events, params).0.phase is Finished ==> streams_added(run(events, params).1) == 1,
{
    lemma_stream_count(events, params);
}

/// Every packet that is written to the container carries stream index 0 and
/// is rescaled from the decoder's time base to that of the output stream.
pub proof fn written_packets_are_rescaled(state: Pipeline, event: Event, params: TranscoderParams)
    requires
        next(state, event, params).1 is WritePacket,
    ensures
        state.transcoder is Some,
        next(state, event, params).1 == (Action::WritePacket {
            stream: 0,
            from: state.transcoder->0.in_time_base,
            to: state.transcoder->0.out_time_base,
        }),
{
}

/// Only packets of the chosen audio stream reach the decoder, rescaled from
/// their stream's time base to the decoder's.
pub proof fn sent_packets_belong_to_stream(state: Pipeline, event: Event, params: TranscoderParams)
    requires
        next(state, event, params).1 is SendPacket,
    ensures
        state.phase == Phase::ReadingPacket,
        state.transcoder is Some,
        event is Packet,
        event->stream == state.transcoder->0.stream,
        next(state, event, params).1 == (Action::SendPacket {
            from: event->time_base,
            to: state.transcoder->0.in_time_base,
        }),
{
}

/// A job that has ended stays as it ended: a failed job keeps reporting the
/// failure it ended with, a finished one its success.
pub proof fn ended_job_stays_ended(state: Pipeline, event: Event, params: TranscoderParams)
    ensures
        state.phase is Finished ==> next(state, event, params) == (state, Action::Succeed),
        state.phase matches Phase::Failed(failure) ==> next(state, event, params) == (
            state,
            Action::Fail(failure),
        ),
{
}

/// The call that ends a job agrees with the state it leaves: success is
/// reported on finishing only, and a failure is the one the state records.
pub proof fn end_is_recorded(state: Pipeline, event: Event, params: TranscoderParams)
    ensures
        next(state, event, params).1 == Action::Succeed <==> next(state, event, params).0.phase
            is Finished,
        next(state, event, params).1 matches Action::Fail(failure) ==> next(
            state,
            event,
            params,
        ).0.phase == Phase::Failed(failure),
        next(state, event, params).0.phase matches Phase::Failed(failure) ==> next(
            state,
            event,
            params,
        ).1 == Action::Fail(failure),
{
}

/// A job never goes back: the steps come in their order, so the decoder is
/// flushed only after the input has ended, the filter graph only after the
/// decoder has been drained, the encoder only after the filter graph has, and
/// the trailer is written last.
pub proof fn job_never_goes_back(state: Pipeline, event: Event, params: TranscoderParams)
    ensures
        progress(state.phase) <= progress(next(state, event, params).0.phase),
{
}

/// The pipeline's setup does not change once the encoder has been found.
pub proof fn setup_is_kept(state: Pipeline, event: Event, params: TranscoderParams)
    requires
        !(state.phase is FindingEncoder),
    ensures
        next(state, event, params).0.transcoder == state.transcoder,
{
}

/// A drain ends where the stage it reads from has nothing more to hand out.
pub proof fn drain_ends_without_error(
    state: Pipeline,
    origin: Origin,
    level: Level,
    params: TranscoderParams,
)
    requires
        state.phase == Phase::Receiving(origin, level),
        state.transcoder is Some,
    ensures
        !(next(state, Event::Failed(crate::error::LibError::Again), params).0.phase is Failed),
        !(next(state, Event::Failed(crate::error::LibError::Eof), params).0.phase is Failed),
        next(state, Event::Failed(crate::error::LibError::Again), params) == next(
            state,
            Event::Failed(crate::error::LibError::Eof),
            params,
        ),
{
}

/// Whether `action` is among `actions`.
pub open spec fn asked(actions: Seq<Action>, action: Action) -> bool
    decreases actions.len(),
{
    if actions.len() == 0 {
        false
    } else {
        asked(actions.drop_last(), action) || actions.last() == action
    }
}

/// Whether a pipeline's setup is what the job asked for, given what the
/// decoder reported: it reads the decoder's stream, runs the encoder at the
/// effective sample rate, bit rates and channel layout, and counts the
/// output's time in units of one sample.
pub open spec fn as_requested(pipeline: Pipeline, params: TranscoderParams) -> bool {
    &&& pipeline.decoder matches Some(decoder)
    &&& pipeline.transcoder matches Some(built)
    &&& built.stream == decoder.stream
    &&& built.in_time_base == decoder.time_base
    &&& built.encoder.rate == effective_sample_rate(params.sample_rate, decoder.rate)
    &&& built.encoder.bit_rate == positive_or(params.bit_rate, decoder.bit_rate)
    &&& built.encoder.max_bit_rate == positive_or(params.max_bit_rate, decoder.max_bit_rate)
    &&& built.encoder.channel_layout == params.channel_layout
    &&& built.encoder.time_base == (Rational { num: 1, den: built.encoder.rate })
    &&& built.out_time_base == built.encoder.time_base
}

/// Whether the pipeline has not yet resolved its setup.
pub open spec fn is_setting_up(phase: Phase) -> bool {
    phase is Created || phase is OpeningInput || phase is OpeningOutput || phase is ProbingInput
        || phase is FindingEncoder
}

/// Whether a pipeline's state hangs together: it holds no setup before the
/// encoder has been found, and from then on, unless it has failed, it holds
/// the decoder's readings and the setup that the job asked for.
pub open spec fn is_consistent(state: Pipeline, params: TranscoderParams) -> bool {
    if is_setting_up(state.phase) {
        state.transcoder is None
    } else if state.phase is Failed {
        true
    } else {
        as_requested(state, params)
    }
}

spec fn calls_fit(state: Pipeline, actions: Seq<Action>) -> bool {
    if is_setting_up(state.phase) || state.phase is Failed {
        true
    } else {
        &&& state.transcoder is Some
        &&& asked(actions, Action::OpenEncoder(state.transcoder->0.encoder))
        &&& (state.phase is OpeningEncoder || state.phase is BuildingGraph || state.phase
            is CopyingMetadata || header_written(actions))
        &&& (state.phase is WritingTrailer || state.phase is Finished) ==> asked(
            actions,
            Action::WriteTrailer,
        )
    }
}

/// No step breaks a pipeline's state: whatever the driver reports, a state
/// that hangs together is followed by one that does.
pub proof fn step_keeps_consistency(state: Pipeline, event: Event, params: TranscoderParams)
    requires
        is_consistent(state, params),
    ensures
        is_consistent(next(state, event, params).0, params),
{
}

proof fn lemma_calls_step(
    state: Pipeline,
    actions: Seq<Action>,
    event: Event,
    params: TranscoderParams,
)
    requires
        calls_fit(state, actions),
    ensures
        calls_fit(next(state, event, params).0, actions.push(next(state, event, params).1)),
{
    let step = next(state, event, params);
    let after = actions.push(step.1);
    assert(after.drop_last() =~= actions);
    assert(after.last() == step.1);
    if !is_setting_up(step.0.phase) && !(step.0.phase is Failed) {
        let opening = Action::OpenEncoder(step.0.transcoder->0.encoder);
        if state.phase is FindingEncoder {
            assert(step.1 == opening);
        } else {
            assert(step.0.transcoder == state.transcoder);
            assert(asked(actions, opening));
        }
        assert(asked(after, opening));
        if step.0.phase is WritingTrailer {
            assert(step.1 == Action::WriteTrailer);
        }
        if step.0.phase is WritingHeader {
            assert(step.1 == Action::WriteHeader);
        }
    }
}

proof fn lemma_setup_fits(events: Seq<Event>, params: TranscoderParams)
    ensures
        is_consistent(run(events, params).0, params),
        calls_fit(run(events, params).0, run(events, params).1),
    decreases events.len(),
{
    if events.len() > 0 {
        lemma_setup_fits(events.drop_last(), params);
        let before = run(events.drop_last(), params);
        step_keeps_consistency(before.0, events.last(), params);
        lemma_calls_step(before.0, before.1, events.last(), params);
    }
}

/// Every state that a job's pipeline can reach hangs together.
pub proof fn every_run_is_consistent(events: Seq<Event>, params: TranscoderParams)
    ensures
        is_consistent(run(events, params).0, params),
{
    lemma_setup_fits(events, params);
}

/// A job that succeeds has run as it was asked to. Whatever the driver
/// reports, a pipeline that has finished has opened its encoder with the
/// settings that the request and the decoder's readings resolve to, has
/// written the container's header, and has written its trailer.
pub proof fn finished_job_ran_as_requested(events: Seq<Event>, params: TranscoderParams)
    requires
        run(events, params).0.phase is Finished,
    ensures
        as_requested(run(events, params).0, params),
        asked(
            run(events, params).1,
            Action::OpenEncoder(run(events, params).0.transcoder->0.encoder),
        ),
        header_written(run(events, params).1),
        asked(run(events, params).1, Action::WriteTrailer),
{
    lemma_setup_fits(events, params);
}

} // verus!
