use atranscoder::error::{ErrorKind, Failure, LibError};
use atranscoder::pipeline::{Action, Event, Level, Origin, Phase, Pipeline};
use atranscoder::transcoder::{
    ChannelLayout, CodecInfo, DecoderInfo, EncoderInfo, EncoderSettings, Rational, SampleFormat,
    SampleKind, TranscoderParams,
};

const S16: SampleFormat = SampleFormat { kind: SampleKind::I16, planar: false };
const IN_TB: Rational = Rational { num: 1, den: 44100 };
const OUT_TB: Rational = Rational { num: 1, den: 48000 };

fn request(codec_opts: Option<&str>) -> TranscoderParams {
    TranscoderParams {
        codec: "libopus".to_string(),
        codec_opts: codec_opts.map(|o| o.to_string()),
        bit_rate: None,
        max_bit_rate: None,
        sample_rate: 48000,
        channel_layout: ChannelLayout::Stereo,
    }
}

fn decoder() -> DecoderInfo {
    DecoderInfo {
        stream: 1,
        time_base: IN_TB,
        rate: 44100,
        format: "s16".to_string(),
        channel_layout: 0x4,
        bit_rate: 700_000,
        max_bit_rate: 0,
    }
}

fn codec() -> CodecInfo {
    CodecInfo { is_audio: true, formats: vec![S16], variable_frame_size: false }
}

fn settings(with_options: bool) -> EncoderSettings {
    EncoderSettings {
        global_header: true,
        rate: 48000,
        channel_layout: ChannelLayout::Stereo,
        format: S16,
        bit_rate: 700_000,
        max_bit_rate: 0,
        time_base: OUT_TB,
        with_options,
    }
}

/// Feeds the events to a new pipeline and hands back the calls it asked for.
fn drive(params: &TranscoderParams, events: Vec<Event>) -> (Pipeline, Vec<Action>) {
    let mut state = Pipeline::new();
    let mut actions = Vec::new();
    for event in events {
        let (next, action) = state.step(event, params);
        state = next;
        actions.push(action);
    }
    (state, actions)
}

fn setup_events() -> Vec<Event> {
    vec![
        Event::Start,
        Event::Done,
        Event::Done,
        Event::InputProbed(decoder()),
        Event::EncoderFound { codec: codec(), global_header: true },
        Event::EncoderOpened { frame_size: 960 },
        Event::Done,
        Event::Done,
        Event::Done,
    ]
}

fn after_setup(params: &TranscoderParams) -> Pipeline {
    let (state, _) = drive(params, setup_events());
    assert_eq!(state.phase, Phase::ReadingPacket);
    state
}

fn again() -> Event {
    Event::Failed(LibError::Again)
}

fn eof() -> Event {
    Event::Failed(LibError::Eof)
}

#[test]
fn setup_asks_for_each_call_in_order() {
    let (state, actions) = drive(&request(None), setup_events());
    assert_eq!(
        actions,
        vec![
            Action::OpenInput,
            Action::OpenOutput { with_options: false },
            Action::ProbeInput,
            Action::FindEncoder,
            Action::OpenEncoder(settings(false)),
            Action::BuildGraph(EncoderInfo {
                format: S16,
                channel_layout: ChannelLayout::Stereo,
                rate: 48000,
                variable_frame_size: false,
                frame_size: 960,
            }),
            Action::CopyMetadata,
            Action::WriteHeader,
            Action::ReadPacket,
        ]
    );
    let built = state.transcoder.unwrap();
    assert_eq!(built.stream, 1);
    assert_eq!(built.in_time_base, IN_TB);
    assert_eq!(built.out_time_base, OUT_TB);
    assert_eq!(state.decoder, Some(decoder()));
}

#[test]
fn codec_options_go_to_output_and_encoder() {
    let (_, actions) = drive(&request(Some("vbr=on")), setup_events());
    assert_eq!(actions[1], Action::OpenOutput { with_options: true });
    assert_eq!(actions[4], Action::OpenEncoder(settings(true)));
}

#[test]
fn whole_job_runs_from_first_packet_to_trailer() {
    let params = request(None);
    let mut events = setup_events();
    events.extend(vec![
        // a packet of another stream is skipped
        Event::Packet { stream: 0, time_base: Rational { num: 1, den: 90000 } },
        // a packet of the audio stream goes through all three drains
        Event::Packet { stream: 1, time_base: Rational { num: 1, den: 14112000 } },
        Event::Done,  // packet sent
        Event::Item,  // frame decoded
        Event::Done,  // frame fed to the filter
        Event::Item,  // frame filtered
        Event::Done,  // frame sent to the encoder
        Event::Item,  // packet encoded
        Event::Done,  // packet written
        again(),      // encoder has no more
        again(),      // filter has no more
        again(),      // decoder has no more
        Event::EndOfInput,
        Event::Done,  // decoder told of the end
        eof(),        // decoder drained
        Event::Done,  // filter flushed
        eof(),        // filter drained
        Event::Done,  // encoder told of the end
        Event::Item,  // one last packet
        Event::Done,  // written
        eof(),        // encoder drained
        Event::Done,  // trailer written
    ]);
    let (state, actions) = drive(&params, events);
    assert_eq!(state.phase, Phase::Finished);
    assert_eq!(
        actions[9..].to_vec(),
        vec![
            Action::ReadPacket,
            Action::SendPacket { from: Rational { num: 1, den: 14112000 }, to: IN_TB },
            Action::ReceiveFrame,
            Action::FeedFilter,
            Action::PullFrame,
            Action::SendFrame,
            Action::ReceivePacket,
            Action::WritePacket { stream: 0, from: IN_TB, to: OUT_TB },
            Action::ReceivePacket,
            Action::PullFrame,
            Action::ReceiveFrame,
            Action::ReadPacket,
            Action::SendDecoderEof,
            Action::ReceiveFrame,
            Action::FlushFilter,
            Action::PullFrame,
            Action::SendEncoderEof,
            Action::ReceivePacket,
            Action::WritePacket { stream: 0, from: IN_TB, to: OUT_TB },
            Action::ReceivePacket,
            Action::WriteTrailer,
            Action::Succeed,
        ]
    );
    let opened = actions.iter().filter(|a| matches!(a, Action::OpenEncoder(_))).count();
    assert_eq!(opened, 1);
}

#[test]
fn unknown_codec_fails_the_job() {
    let params = request(None);
    let (state, actions) = drive(
        &params,
        vec![
            Event::Start,
            Event::Done,
            Event::Done,
            Event::InputProbed(decoder()),
            Event::Missing,
        ],
    );
    let failure = Failure { kind: ErrorKind::UnknownCodec, code: 0 };
    assert_eq!(state.phase, Phase::Failed(failure));
    assert_eq!(actions[4], Action::Fail(failure));
    assert!(failure.message().contains("UnknownCodec"));
}

#[test]
fn setup_failures_have_their_kinds() {
    let params = request(None);
    let fails = |events: Vec<Event>| {
        let (state, actions) = drive(&params, events);
        match (state.phase, actions.last().unwrap()) {
            (Phase::Failed(f), Action::Fail(g)) => {
                assert_eq!(f, *g);
                f
            }
            other => panic!("not failed: {:?}", other),
        }
    };
    let broken = || Event::Failed(LibError::Other(-22));
    let kind = |k| Failure { kind: k, code: -22 };
    let plain = |k| Failure { kind: k, code: 0 };
    let mut events = vec![Event::Start];
    events.push(broken());
    assert_eq!(fails(events.clone()), kind(ErrorKind::DemuxOpenFailed));
    events.pop();
    events.extend(vec![Event::Done, broken()]);
    assert_eq!(fails(events.clone()), kind(ErrorKind::MuxOpenFailed));
    events.pop();
    events.extend(vec![Event::Done, Event::Missing]);
    assert_eq!(fails(events.clone()), plain(ErrorKind::NoAudioStream));
    events.pop();
    events.push(broken());
    assert_eq!(fails(events.clone()), kind(ErrorKind::DecoderOpenFailed));
    events.pop();
    events.push(Event::InputProbed(decoder()));
    let mut not_audio = events.clone();
    not_audio.push(Event::EncoderFound {
        codec: CodecInfo { is_audio: false, formats: vec![S16], variable_frame_size: true },
        global_header: false,
    });
    assert_eq!(fails(not_audio), plain(ErrorKind::NotAudioCodec));
    let mut no_format = events.clone();
    no_format.push(Event::EncoderFound {
        codec: CodecInfo { is_audio: true, formats: vec![], variable_frame_size: true },
        global_header: false,
    });
    assert_eq!(fails(no_format), plain(ErrorKind::NoSupportedFormat));
    events.push(Event::EncoderFound { codec: codec(), global_header: true });
    events.push(broken());
    assert_eq!(fails(events.clone()), kind(ErrorKind::EncoderOpenFailed));
    events.pop();
    events.extend(vec![Event::EncoderOpened { frame_size: 0 }, broken()]);
    assert_eq!(fails(events.clone()), kind(ErrorKind::FilterBuildFailed));
    events.pop();
    events.extend(vec![Event::Done, Event::Done, broken()]);
    assert_eq!(fails(events.clone()), kind(ErrorKind::MuxHeaderFailed));
}

#[test]
fn rejected_codec_options_fail_the_job() {
    let params = request(Some("no_such_option=1"));
    let mut events = setup_events();
    events.truncate(5);
    events.push(Event::Failed(LibError::Other(-1414549496)));
    let (state, _) = drive(&params, events);
    assert_eq!(
        state.phase,
        Phase::Failed(Failure { kind: ErrorKind::CodecOptionRejected, code: -1414549496 })
    );
}

#[test]
fn run_failures_have_their_kinds() {
    let params = request(None);
    let broken = || Event::Failed(LibError::Other(-5));
    let from = |phase: Phase| {
        let base = after_setup(&params);
        Pipeline { phase, ..base }
    };
    let fails = |phase: Phase, kind: ErrorKind| {
        let (state, action) = from(phase).step(broken(), &params);
        let failure = Failure { kind, code: -5 };
        assert_eq!(state.phase, Phase::Failed(failure));
        assert_eq!(action, Action::Fail(failure));
    };
    fails(Phase::SendingPacket, ErrorKind::DecoderSendFailed);
    fails(Phase::SendingDecoderEof, ErrorKind::DecoderEofFailed);
    fails(Phase::FlushingFilter, ErrorKind::FilterFlushFailed);
    fails(Phase::SendingEncoderEof, ErrorKind::EncoderEofFailed);
    fails(Phase::WritingTrailer, ErrorKind::MuxTrailerFailed);
    fails(Phase::Receiving(Origin::Packet, Level::Decoded), ErrorKind::DecodeFailed);
    fails(Phase::Receiving(Origin::Packet, Level::Filtered), ErrorKind::FilterDrainFailed);
    fails(Phase::Receiving(Origin::Packet, Level::Encoded), ErrorKind::EncodeFailed);
    fails(Phase::Forwarding(Origin::Packet, Level::Decoded), ErrorKind::FilterFeedFailed);
    fails(Phase::Forwarding(Origin::Packet, Level::Filtered), ErrorKind::EncoderSendFailed);
    fails(Phase::Forwarding(Origin::Packet, Level::Encoded), ErrorKind::MuxWriteFailed);
}

#[test]
fn again_and_end_of_stream_end_a_drain_normally() {
    let params = request(None);
    let base = after_setup(&params);
    for quiet in [LibError::Again, LibError::Eof] {
        let at = |origin, level| Pipeline {
            phase: Phase::Receiving(origin, level),
            decoder: base.decoder.clone(),
            transcoder: base.transcoder,
        };
        let next = |origin, level| {
            let (state, action) = at(origin, level).step(Event::Failed(quiet), &params);
            (state.phase, action)
        };
        // the outermost drain of each step hands over to the next step
        assert_eq!(
            next(Origin::Packet, Level::Decoded),
            (Phase::ReadingPacket, Action::ReadPacket)
        );
        assert_eq!(
            next(Origin::DecoderEof, Level::Decoded),
            (Phase::FlushingFilter, Action::FlushFilter)
        );
        assert_eq!(
            next(Origin::FilterFlush, Level::Filtered),
            (Phase::SendingEncoderEof, Action::SendEncoderEof)
        );
        assert_eq!(
            next(Origin::EncoderEof, Level::Encoded),
            (Phase::WritingTrailer, Action::WriteTrailer)
        );
        // an inner drain hands back to the drain around it
        assert_eq!(
            next(Origin::Packet, Level::Encoded),
            (Phase::Receiving(Origin::Packet, Level::Filtered), Action::PullFrame)
        );
        assert_eq!(
            next(Origin::DecoderEof, Level::Filtered),
            (Phase::Receiving(Origin::DecoderEof, Level::Decoded), Action::ReceiveFrame)
        );
        assert_eq!(
            next(Origin::FilterFlush, Level::Encoded),
            (Phase::Receiving(Origin::FilterFlush, Level::Filtered), Action::PullFrame)
        );
    }
}

#[test]
fn again_from_filter_or_encoder_input_ends_the_drain() {
    let params = request(None);
    let base = after_setup(&params);
    let at = |level| Pipeline {
        phase: Phase::Forwarding(Origin::Packet, level),
        decoder: base.decoder.clone(),
        transcoder: base.transcoder,
    };
    let (state, action) = at(Level::Decoded).step(again(), &params);
    assert_eq!((state.phase, action), (Phase::ReadingPacket, Action::ReadPacket));
    let (state, action) = at(Level::Filtered).step(again(), &params);
    assert_eq!(
        (state.phase, action),
        (Phase::Receiving(Origin::Packet, Level::Decoded), Action::ReceiveFrame)
    );
    // a write to the container that fails is fatal, whatever the error
    let (state, _) = at(Level::Encoded).step(again(), &params);
    assert_eq!(
        state.phase,
        Phase::Failed(Failure { kind: ErrorKind::MuxWriteFailed, code: 0 })
    );
    // the end of the stream is no answer to a frame that is handed over
    let (state, _) = at(Level::Filtered).step(eof(), &params);
    assert_eq!(
        state.phase,
        Phase::Failed(Failure { kind: ErrorKind::EncoderSendFailed, code: 0 })
    );
}

#[test]
fn ended_pipeline_keeps_its_end() {
    let params = request(None);
    let base = after_setup(&params);
    let failure = Failure { kind: ErrorKind::MuxWriteFailed, code: -28 };
    let failed = Pipeline { phase: Phase::Failed(failure), ..base };
    assert!(failed.is_over());
    let (state, action) = failed.step(Event::Done, &params);
    assert_eq!(state.phase, Phase::Failed(failure));
    assert_eq!(action, Action::Fail(failure));
    let finished = Pipeline { phase: Phase::Finished, ..state };
    assert!(finished.is_over());
    let (state, action) = finished.step(Event::Item, &params);
    assert_eq!(state.phase, Phase::Finished);
    assert_eq!(action, Action::Succeed);
    assert!(!Pipeline::new().is_over());
}

#[test]
fn event_that_does_not_fit_fails_the_job() {
    let params = request(None);
    let unexpected = Failure { kind: ErrorKind::UnexpectedEvent, code: 0 };
    let (state, action) = Pipeline::new().step(Event::Done, &params);
    assert_eq!(state.phase, Phase::Failed(unexpected));
    assert_eq!(action, Action::Fail(unexpected));
    let (state, _) = after_setup(&params).step(Event::Item, &params);
    assert_eq!(state.phase, Phase::Failed(unexpected));
    let no_setup = Pipeline { phase: Phase::ReadingPacket, decoder: None, transcoder: None };
    let (state, _) = no_setup.step(Event::EndOfInput, &params);
    assert_eq!(state.phase, Phase::Failed(unexpected));
}
