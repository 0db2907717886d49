use atranscoder::error::{ErrorKind, Failure};
use atranscoder::pipeline::{Action, Event, Pipeline};
use atranscoder::task::{
    callback_delivered, send_error, send_ok, JobAction, JobEvent, JobPhase, JobState, Task,
    TaskParams,
};
use atranscoder::transcoder::{ChannelLayout, TranscoderParams};

const ID: u128 = 0x0123456789abcdef0123456789abcdef;
const ID_TEXT: &str = "01234567-89ab-cdef-0123-456789abcdef";

fn job(url: Option<&str>, callback_url: Option<&str>) -> Task {
    Task::new(
        ID,
        TaskParams {
            format: "ogg".to_string(),
            codec: "libopus".to_string(),
            codec_opts: Some("vbr=on;application=audio".to_string()),
            bit_rate: Some(64000),
            max_bit_rate: None,
            sample_rate: 48000,
            channel_layout: Some("mono".to_string()),
            url: url.map(|u| u.to_string()),
            input_path: "/tmp/x.in.atranscoder".to_string(),
            output_path: "/tmp/x.out.atranscoder".to_string(),
            callback_url: callback_url.map(|u| u.to_string()),
            max_body_size: 1024,
        },
    )
}

fn run(task: &Task, events: Vec<JobEvent>) -> (JobState, Vec<JobAction>) {
    let mut state = JobState::new();
    let mut actions = Vec::new();
    for event in events {
        let (next, action) = task.execute(state, event);
        state = next;
        actions.push(action);
    }
    (state, actions)
}

fn done(n: usize) -> Vec<JobEvent> {
    let mut events = vec![JobEvent::Start];
    events.extend(std::iter::repeat(JobEvent::Done).take(n));
    events
}

#[test]
fn new_job_keeps_id_and_parameters() {
    let task = job(None, None);
    assert_eq!(task.id, ID);
    assert_eq!(task.params.format, "ogg");
    assert_eq!(task.params.max_body_size, 1024);
    assert_eq!(JobState::new(), JobState { phase: JobPhase::Queued, failure: None });
    assert!(!JobState::new().is_over());
}

#[test]
fn uploaded_job_succeeds_and_cleans_up() {
    let task = job(None, Some("http://cb.example/done"));
    let (state, actions) = run(&task, done(4));
    assert_eq!(
        actions,
        vec![
            JobAction::Transcode,
            JobAction::RemoveInput,
            JobAction::PostCallback(None),
            JobAction::RemoveOutput,
            JobAction::Succeed,
        ]
    );
    assert_eq!(state, JobState { phase: JobPhase::Succeeded, failure: None });
    assert!(state.is_over());
}

#[test]
fn job_with_url_fetches_first() {
    let task = job(Some("http://src.example/a.flac"), None);
    let (state, actions) = run(&task, done(4));
    assert_eq!(
        actions,
        vec![
            JobAction::Fetch,
            JobAction::Transcode,
            JobAction::RemoveInput,
            JobAction::RemoveOutput,
            JobAction::Succeed,
        ]
    );
    assert_eq!(state.phase, JobPhase::Succeeded);
}

#[test]
fn job_without_callback_posts_none() {
    for callback in [None, Some("")] {
        let task = job(None, callback);
        assert!(!task.wants_callback());
        let (_, actions) = run(&task, done(3));
        assert_eq!(
            actions,
            vec![
                JobAction::Transcode,
                JobAction::RemoveInput,
                JobAction::RemoveOutput,
                JobAction::Succeed,
            ]
        );
    }
}

#[test]
fn failed_transcode_deletes_both_files_before_the_callback() {
    let task = job(None, Some("http://cb.example/done"));
    let failure = Failure { kind: ErrorKind::UnknownCodec, code: 0 };
    let (state, actions) = run(
        &task,
        vec![
            JobEvent::Start,
            JobEvent::Failed(failure),
            JobEvent::Done,
            JobEvent::Done,
            JobEvent::Done,
        ],
    );
    assert_eq!(
        actions,
        vec![
            JobAction::Transcode,
            JobAction::RemoveInput,
            JobAction::RemoveOutput,
            JobAction::PostCallback(Some(failure)),
            JobAction::Fail(failure),
        ]
    );
    assert_eq!(state, JobState { phase: JobPhase::Failed, failure: Some(failure) });
}

#[test]
fn failed_fetch_skips_the_transcode() {
    let task = job(Some("http://src.example/missing"), Some("http://cb.example/done"));
    let failure = Failure { kind: ErrorKind::SourceFetchFailed, code: 404 };
    let (state, actions) = run(
        &task,
        vec![
            JobEvent::Start,
            JobEvent::Failed(failure),
            JobEvent::Failed(failure),
            JobEvent::Failed(failure),
            JobEvent::Failed(failure),
        ],
    );
    assert_eq!(
        actions,
        vec![
            JobAction::Fetch,
            JobAction::RemoveInput,
            JobAction::RemoveOutput,
            JobAction::PostCallback(Some(failure)),
            JobAction::Fail(failure),
        ]
    );
    assert_eq!(state.phase, JobPhase::Failed);
}

#[test]
fn failures_while_cleaning_up_change_nothing() {
    let task = job(None, Some("http://cb.example/done"));
    let noise = JobEvent::Failed(Failure { kind: ErrorKind::CallbackFailed, code: 503 });
    let (state, actions) = run(&task, vec![JobEvent::Start, JobEvent::Done, noise, noise, noise]);
    assert_eq!(actions.last(), Some(&JobAction::Succeed));
    assert_eq!(state, JobState { phase: JobPhase::Succeeded, failure: None });
}

#[test]
fn ended_job_stays_as_it_ended() {
    let task = job(None, None);
    let (state, _) = run(&task, done(3));
    assert_eq!(task.execute(state, JobEvent::Start), (state, JobAction::Succeed));
    let failure = Failure { kind: ErrorKind::MuxWriteFailed, code: -28 };
    let failed = JobState { phase: JobPhase::Failed, failure: Some(failure) };
    assert_eq!(task.execute(failed, JobEvent::Done), (failed, JobAction::Fail(failure)));
}

#[test]
fn job_that_is_not_started_properly_fails() {
    let task = job(None, None);
    let unexpected = Failure { kind: ErrorKind::UnexpectedEvent, code: 0 };
    let (state, action) = task.execute(JobState::new(), JobEvent::Done);
    assert_eq!(state, JobState { phase: JobPhase::RemovingInput, failure: Some(unexpected) });
    assert_eq!(action, JobAction::RemoveInput);
}

#[test]
fn success_callback_carries_id_and_no_error() {
    let task = job(None, Some("http://cb.example/done"));
    let body = send_ok(&task).unwrap();
    assert_eq!(body.id.as_deref(), Some(ID_TEXT));
    assert_eq!(body.error, None);
    assert_eq!(task.callback_body(None), body);
}

#[test]
fn failure_callback_names_unknown_codec() {
    let task = job(None, Some("http://cb.example/done"));
    let failure = Failure { kind: ErrorKind::UnknownCodec, code: 0 };
    let body = send_error(&task, failure).unwrap();
    assert_eq!(body.id.as_deref(), Some(ID_TEXT));
    assert_eq!(body.error.as_deref(), Some("Couldn't transcode: UnknownCodec"));
}

#[test]
fn failure_callback_mentions_the_status_of_the_source() {
    let task = job(Some("http://src.example/missing"), Some("http://cb.example/done"));
    let failure = Failure { kind: ErrorKind::SourceFetchFailed, code: 404 };
    let body = send_error(&task, failure).unwrap();
    assert_eq!(
        body.error.as_deref(),
        Some("Couldn't download the file: SourceFetchFailed: HTTP 404")
    );
}

#[test]
fn failure_callback_says_that_the_source_exceeds_the_limit() {
    let task = job(Some("http://src.example/huge"), Some("http://cb.example/done"));
    let failure = Failure { kind: ErrorKind::SourceTooLarge, code: 0 };
    let body = send_error(&task, failure).unwrap();
    let text = body.error.unwrap();
    assert!(text.contains("exceeds the limit"));
    assert_eq!(
        text,
        "Couldn't download the file: SourceTooLarge: response body exceeds the limit"
    );
}

#[test]
fn no_callback_body_without_callback_url() {
    let failure = Failure { kind: ErrorKind::UnknownCodec, code: 0 };
    assert_eq!(send_ok(&job(None, None)), None);
    assert_eq!(send_error(&job(None, None), failure), None);
    assert_eq!(send_ok(&job(None, Some(""))), None);
}

#[test]
fn only_status_200_delivers_a_callback() {
    assert_eq!(callback_delivered(200), Ok(()));
    assert_eq!(
        callback_delivered(204),
        Err(Failure { kind: ErrorKind::CallbackFailed, code: 204 })
    );
    assert_eq!(
        callback_delivered(500),
        Err(Failure { kind: ErrorKind::CallbackFailed, code: 500 })
    );
}

#[test]
fn job_parameters_become_pipeline_parameters() {
    let task = job(None, None);
    assert_eq!(
        task.transcoder_params(),
        TranscoderParams {
            codec: "libopus".to_string(),
            codec_opts: Some("vbr=on;application=audio".to_string()),
            bit_rate: Some(64000),
            max_bit_rate: None,
            sample_rate: 48000,
            channel_layout: ChannelLayout::Mono,
        }
    );
}

#[test]
fn job_codec_options_are_parsed() {
    let options = job(None, None).codec_options().unwrap();
    assert_eq!(
        options.entries,
        vec![
            ("vbr".to_string(), "on".to_string()),
            ("application".to_string(), "audio".to_string()),
        ]
    );
    let mut plain = job(None, None);
    plain.params.codec_opts = None;
    assert_eq!(plain.codec_options(), None);
}

#[test]
fn job_drives_its_pipeline() {
    let task = job(None, None);
    let (state, action) = task.transcode(Pipeline::new(), Event::Start);
    assert_eq!(action, Action::OpenInput);
    let (_, action) = task.transcode(state, Event::Done);
    assert_eq!(action, Action::OpenOutput { with_options: true });
}
