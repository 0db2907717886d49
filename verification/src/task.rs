//! Jobs: their parameters, codec options and life cycle.

use vstd::prelude::*;
use crate::dto::ConvertResponse;
use crate::error::{ErrorKind, Failure, message_of};
use crate::job_id::{id_string, id_text};
use crate::pipeline::{Action, Event, Pipeline, next};
use crate::text::{chars_of, clone_text, find, piece, text_of};
use crate::transcoder::{ChannelLayout, TranscoderParams, layout_of};

verus! {

/// Codec options as an ordered list of key/value pairs, ready to be handed to
/// the codec library entry by entry.
#[derive(Clone, Debug, PartialEq, Eq)]
pub struct Dictionary {
    pub entries: Vec<(String, String)>,
}

impl View for Dictionary {
    type V = Seq<(Seq<char>, Seq<char>)>;

    open spec fn view(&self) -> Self::V {
        self.entries.deep_view()
    }
}

/// The key and value of one `key=value` pair: the first `=` separates them.
/// A pair without `=` or with an empty key gives nothing.
pub open spec fn key_value(pair: Seq<char>) -> Option<(Seq<char>, Seq<char>)> {
    match pair.index_of_first('=') {
        Some(at) => if 0 < at < pair.len() {
            Some((pair.take(at), pair.skip(at + 1)))
        } else {
            None
        },
        None => None,
    }
}

/// What one pair adds to the options: itself, or nothing where it is
/// skipped.
pub open spec fn entry_of(pair: Seq<char>) -> Seq<(Seq<char>, Seq<char>)> {
    match key_value(pair) {
        Some(kv) => seq![kv],
        None => seq![],
    }
}

/// The options that `input` holds: its pairs are separated by `;`, and come
/// out in the order in which they stand.
pub open spec fn options_of(input: Seq<char>) -> Seq<(Seq<char>, Seq<char>)>
    decreases input.len(),
{
    match input.index_of_first(';') {
        Some(at) => if 0 <= at < input.len() {
            entry_of(input.take(at)) + options_of(input.skip(at + 1))
        } else {
            seq![]
        },
        None => entry_of(input),
    }
}

/// Parses codec options of the form `k=v;k=v`.
pub fn params_to_avdictionary(input: &str) -> (dict: Dictionary)
    ensures
        dict@ == options_of(input@),
{
    let chars = chars_of(input);
    let n: usize = chars.len();
    let mut entries: Vec<(String, String)> = Vec::new();
    let mut pos: usize = 0;
    let mut done: bool = false;
    proof {
        assert(input@.skip(0) =~= input@);
    }
    while !done
        invariant
            chars@ == input@,
            n == chars.len(),
            pos <= n,
            !done ==> entries.deep_view() + options_of(input@.skip(pos as int)) == options_of(
                input@,
            ),
            done ==> entries.deep_view() == options_of(input@),
        decreases n - pos + if done { 0int } else { 1int },
    {
        let end: usize = find(&chars, pos, n, ';');
        let eq: usize = find(&chars, pos, end, '=');
        let ghost before = entries.deep_view();
        let ghost rest = input@.skip(pos as int);
        let ghost pair = input@.subrange(pos as int, end as int);
        proof {
            if end < n {
                assert(rest.take(end - pos) =~= pair);
                assert(rest.skip(end - pos + 1) =~= input@.skip(end + 1));
            }
        }
        if pos < eq && eq < end {
            let key = piece(input, pos, eq);
            let value = piece(input, eq + 1, end);
            proof {
                assert(pair.take(eq - pos) =~= key@);
                assert(pair.skip(eq - pos + 1) =~= value@);
            }
            entries.push((key, value));
        }
        if end < n {
            assert(entries.deep_view() + options_of(input@.skip(end + 1)) =~= before + options_of(
                rest,
            ));
            pos = end + 1;
        } else {
            done = true;
        }
    }
    Dictionary { entries }
}

/// Whether a key and its value are what the parser lets through: the key is
/// not empty and holds neither `=` nor `;`, and the value holds no `;`.
pub open spec fn is_plain_entry(entry: (Seq<char>, Seq<char>)) -> bool {
    &&& entry.0.len() > 0
    &&& !entry.0.contains('=')
    &&& !entry.0.contains(';')
    &&& !entry.1.contains(';')
}

proof fn lemma_entry_is_plain(pair: Seq<char>)
    requires
        !pair.contains(';'),
    ensures
        forall|i: int| 0 <= i < entry_of(pair).len() ==> is_plain_entry(#[trigger] entry_of(pair)[i]),
{
    pair.index_of_first_ensures('=');
    if key_value(pair) is Some {
        let at = pair.index_of_first('=').unwrap();
        let key = pair.take(at);
        let value = pair.skip(at + 1);
        assert forall|j: int| 0 <= j < key.len() implies key[j] != '=' && key[j] != ';' by {}
        assert forall|j: int| 0 <= j < value.len() implies value[j] != ';' by {}
    }
}

/// Every option that is parsed has a key: no entry has an empty key, no key
/// holds a separator, and no value holds the separator of pairs.
pub proof fn parsed_options_are_plain(input: Seq<char>)
    ensures
        forall|i: int|
            0 <= i < options_of(input).len() ==> is_plain_entry(#[trigger] options_of(input)[i]),
    decreases input.len(),
{
    input.index_of_first_ensures(';');
    match input.index_of_first(';') {
        Some(at) => {
            let pair = input.take(at);
            let rest = input.skip(at + 1);
            assert forall|j: int| 0 <= j < pair.len() implies pair[j] != ';' by {
                assert(pair[j] == input[j]);
            }
            lemma_entry_is_plain(pair);
            parsed_options_are_plain(rest);
            let head = entry_of(pair);
            let tail = options_of(rest);
            assert forall|i: int| 0 <= i < options_of(input).len() implies is_plain_entry(
                #[trigger] options_of(input)[i],
            ) by {
                if i < head.len() {
                    assert(options_of(input)[i] == head[i]);
                } else {
                    assert(options_of(input)[i] == tail[i - head.len()]);
                }
            }
        },
        None => {
            lemma_entry_is_plain(input);
        },
    }
}

/// What a job is to do, and where its files are staged.
#[derive(Clone, Debug, PartialEq, Eq)]
pub struct TaskParams {
    /// Name of the output's container format.
    pub format: String,
    /// Name of the encoder.
    pub codec: String,
    /// Codec options of the form `k=v;k=v`.
    pub codec_opts: Option<String>,
    pub bit_rate: Option<usize>,
    pub max_bit_rate: Option<usize>,
    /// The output's sample rate; 0 or less keeps the input's.
    pub sample_rate: i32,
    /// `mono`, `stereo` or `stereo_downmix`.
    pub channel_layout: Option<String>,
    /// Where the source is fetched from; `None` where it was uploaded.
    pub url: Option<String>,
    pub input_path: String,
    pub output_path: String,
    /// Where the job's end is reported to.
    pub callback_url: Option<String>,
    /// The most bytes that a fetched source may have.
    pub max_body_size: usize,
}

/// A job: its identifier and its parameters.
#[derive(Clone, Debug, PartialEq, Eq)]
pub struct Task {
    pub id: u128,
    pub params: TaskParams,
}

/// Where a job stands.
#[derive(Clone, Copy, Debug, PartialEq, Eq, Structural)]
pub enum JobPhase {
    /// Accepted, not yet picked up.
    Queued,
    /// The source is being fetched from its URL.
    Fetching,
    /// The pipeline is running.
    Transcoding,
    /// The staged input is being deleted.
    RemovingInput,
    /// The staged output is being deleted.
    RemovingOutput,
    /// The callback is being posted.
    PostingCallback,
    Succeeded,
    Failed,
}

/// The state of a job: where it stands, and the failure that ended its work,
/// if one did.
#[derive(Clone, Copy, Debug, PartialEq, Eq, Structural)]
pub struct JobState {
    pub phase: JobPhase,
    pub failure: Option<Failure>,
}

/// How the step that the job asked for has ended.
#[derive(Clone, Copy, Debug, PartialEq, Eq, Structural)]
pub enum JobEvent {
    /// A worker has picked the job up.
    Start,
    /// The step has ended without error.
    Done,
    /// The step has failed.
    Failed(Failure),
}

/// The step that the worker is to take next.
#[derive(Clone, Copy, Debug, PartialEq, Eq, Structural)]
pub enum JobAction {
    /// Fetch the source from the job's URL into the input path, within the
    /// job's size limit.
    Fetch,
    /// Run the pipeline from the input path to the output path.
    Transcode,
    /// Delete the staged input; a failure to do so is ignored.
    RemoveInput,
    /// Delete the staged output; a failure to do so is ignored.
    RemoveOutput,
    /// Post the job's end to the callback URL: success, or this failure. A
    /// failure to deliver is logged and changes nothing.
    PostCallback(Option<Failure>),
    /// The job is over and has succeeded.
    Succeed,
    /// The job is over and has failed.
    Fail(Failure),
}

/// Whether the job's end is to be reported: a callback URL is set and is not
/// empty.
pub open spec fn wants_callback(params: TaskParams) -> bool {
    params.callback_url matches Some(url) && url@.len() > 0
}

/// The state of a job that was accepted.
pub open spec fn queued() -> JobState {
    JobState { phase: JobPhase::Queued, failure: None }
}

/// The failure that an event brings: its own, or that of an event that the
/// step cannot end with.
pub open spec fn failure_of(event: JobEvent) -> Option<Failure> {
    match event {
        JobEvent::Done => None,
        JobEvent::Failed(failure) => Some(failure),
        JobEvent::Start => Some(Failure { kind: ErrorKind::UnexpectedEvent, code: 0 }),
    }
}

/// The work is over, with `failure` or without: the staged input goes first.
pub open spec fn clean_up(failure: Option<Failure>) -> (JobState, JobAction) {
    (JobState { phase: JobPhase::RemovingInput, failure }, JobAction::RemoveInput)
}

/// The job after `event`, and the step it asks for next.
///
/// A job with a URL fetches its source first; then the pipeline runs. However
/// the work ends, both staged files are deleted and the end is reported where
/// a callback is wanted: after a success the input is deleted, the callback
/// posted, and the output deleted last; after a failure both files are
/// deleted before the callback is posted.
pub open spec fn job_next(params: TaskParams, state: JobState, event: JobEvent) -> (
    JobState,
    JobAction,
) {
    match state.phase {
        JobPhase::Queued => match event {
            JobEvent::Start => if params.url is Some {
                (JobState { phase: JobPhase::Fetching, failure: None }, JobAction::Fetch)
            } else {
                (JobState { phase: JobPhase::Transcoding, failure: None }, JobAction::Transcode)
            },
            _ => clean_up(Some(Failure { kind: ErrorKind::UnexpectedEvent, code: 0 })),
        },
        JobPhase::Fetching => match event {
            JobEvent::Done => (
                JobState { phase: JobPhase::Transcoding, failure: None },
                JobAction::Transcode,
            ),
            _ => clean_up(failure_of(event)),
        },
        JobPhase::Transcoding => clean_up(failure_of(event)),
        JobPhase::RemovingInput => if state.failure is None && wants_callback(params) {
            (
                JobState { phase: JobPhase::PostingCallback, failure: None },
                JobAction::PostCallback(None),
            )
        } else {
            (JobState { phase: JobPhase::RemovingOutput, ..state }, JobAction::RemoveOutput)
        },
        JobPhase::PostingCallback => match state.failure {
            None => (JobState { phase: JobPhase::RemovingOutput, ..state }, JobAction::RemoveOutput),
            Some(failure) => (JobState { phase: JobPhase::Failed, ..state }, JobAction::Fail(failure)),
        },
        JobPhase::RemovingOutput => match state.failure {
            None => (JobState { phase: JobPhase::Succeeded, ..state }, JobAction::Succeed),
            Some(failure) => if wants_callback(params) {
                (
                    JobState { phase: JobPhase::PostingCallback, ..state },
                    JobAction::PostCallback(Some(failure)),
                )
            } else {
                (JobState { phase: JobPhase::Failed, ..state }, JobAction::Fail(failure))
            },
        },
        JobPhase::Succeeded => (state, JobAction::Succeed),
        JobPhase::Failed => (
            state,
            JobAction::Fail(
                match state.failure {
                    Some(failure) => failure,
                    None => Failure { kind: ErrorKind::UnexpectedEvent, code: 0 },
                },
            ),
        ),
    }
}

/// What the pipeline is asked for, as the job's parameters put it.
pub open spec fn transcoder_params_of(params: TaskParams) -> TranscoderParams {
    TranscoderParams {
        codec: params.codec,
        codec_opts: params.codec_opts,
        bit_rate: params.bit_rate,
        max_bit_rate: params.max_bit_rate,
        sample_rate: params.sample_rate,
        channel_layout: layout_of(text_of(params.channel_layout)),
    }
}

/// Whether a failure came from fetching the source.
pub open spec fn is_fetch_failure(failure: Failure) -> bool {
    failure.kind == ErrorKind::SourceFetchFailed || failure.kind == ErrorKind::SourceTooLarge
}

/// The error text of a failure callback.
pub open spec fn callback_error_of(failure: Failure) -> Seq<char> {
    if is_fetch_failure(failure) {
        "Couldn't download the file: "@ + message_of(failure)
    } else {
        "Couldn't transcode: "@ + message_of(failure)
    }
}

fn cleaning_up(failure: Option<Failure>) -> (out: (JobState, JobAction))
    ensures
        out == clean_up(failure),
{
    (JobState { phase: JobPhase::RemovingInput, failure }, JobAction::RemoveInput)
}

fn failure_in(event: JobEvent) -> (failure: Option<Failure>)
    ensures
        failure == failure_of(event),
{
    match event {
        JobEvent::Done => None,
        JobEvent::Failed(failure) => Some(failure),
        JobEvent::Start => Some(Failure::new(ErrorKind::UnexpectedEvent)),
    }
}

impl JobState {
    /// The state of a job that was accepted. Its first event is
    /// `JobEvent::Start`.
    pub fn new() -> (state: JobState)
        ensures
            state == queued(),
    {
        JobState { phase: JobPhase::Queued, failure: None }
    }

    /// Whether the job is over.
    pub fn is_over(&self) -> (over: bool)
        ensures
            over == (self.phase is Succeeded || self.phase is Failed),
    {
        match self.phase {
            JobPhase::Succeeded => true,
            JobPhase::Failed => true,
            _ => false,
        }
    }
}

impl Task {
    pub fn new(id: u128, params: TaskParams) -> (task: Task)
        ensures
            task.id == id,
            task.params == params,
    {
        Task { id, params }
    }

    /// Whether the job's end is to be reported to a callback URL.
    pub fn wants_callback(&self) -> (wanted: bool)
        ensures
            wanted == wants_callback(self.params),
    {
        match &self.params.callback_url {
            Some(url) => !url.as_str().is_empty(),
            None => false,
        }
    }

    /// Drives the job: takes in how the last step ended and says which step
    /// comes next.
    pub fn execute(&self, state: JobState, event: JobEvent) -> (out: (JobState, JobAction))
        ensures
            out == job_next(self.params, state, event),
    {
        match state.phase {
            JobPhase::Queued => match event {
                JobEvent::Start => {
                    if self.params.url.is_some() {
                        (JobState { phase: JobPhase::Fetching, failure: None }, JobAction::Fetch)
                    } else {
                        (
                            JobState { phase: JobPhase::Transcoding, failure: None },
                            JobAction::Transcode,
                        )
                    }
                },
                _ => cleaning_up(Some(Failure::new(ErrorKind::UnexpectedEvent))),
            },
            JobPhase::Fetching => match event {
                JobEvent::Done => (
                    JobState { phase: JobPhase::Transcoding, failure: None },
                    JobAction::Transcode,
                ),
                _ => cleaning_up(failure_in(event)),
            },
            JobPhase::Transcoding => cleaning_up(failure_in(event)),
            JobPhase::RemovingInput => {
                if state.failure.is_none() && self.wants_callback() {
                    (
                        JobState { phase: JobPhase::PostingCallback, failure: None },
                        JobAction::PostCallback(None),
                    )
                } else {
                    (
                        JobState { phase: JobPhase::RemovingOutput, failure: state.failure },
                        JobAction::RemoveOutput,
                    )
                }
            },
            JobPhase::PostingCallback => match state.failure {
                None => (
                    JobState { phase: JobPhase::RemovingOutput, failure: state.failure },
                    JobAction::RemoveOutput,
                ),
                Some(failure) => (
                    JobState { phase: JobPhase::Failed, failure: state.failure },
                    JobAction::Fail(failure),
                ),
            },
            JobPhase::RemovingOutput => match state.failure {
                None => (
                    JobState { phase: JobPhase::Succeeded, failure: state.failure },
                    JobAction::Succeed,
                ),
                Some(failure) => {
                    if self.wants_callback() {
                        (
                            JobState { phase: JobPhase::PostingCallback, failure: state.failure },
                            JobAction::PostCallback(Some(failure)),
                        )
                    } else {
                        (
                            JobState { phase: JobPhase::Failed, failure: state.failure },
                            JobAction::Fail(failure),
                        )
                    }
                },
            },
            JobPhase::Succeeded => (state, JobAction::Succeed),
            JobPhase::Failed => match state.failure {
                Some(failure) => (state, JobAction::Fail(failure)),
                None => (state, JobAction::Fail(Failure::new(ErrorKind::UnexpectedEvent))),
            },
        }
    }

    /// What the job asks of the pipeline.
    pub fn transcoder_params(&self) -> (params: TranscoderParams)
        ensures
            params == transcoder_params_of(self.params),
    {
        TranscoderParams {
            codec: self.params.codec.clone(),
            codec_opts: clone_text(&self.params.codec_opts),
            bit_rate: self.params.bit_rate,
            max_bit_rate: self.params.max_bit_rate,
            sample_rate: self.params.sample_rate,
            channel_layout: ChannelLayout::from_token(&self.params.channel_layout),
        }
    }

    /// Drives the job's pipeline: takes in how the last call into the codec
    /// library ended and says which call comes next.
    pub fn transcode(&self, state: Pipeline, event: Event) -> (out: (Pipeline, Action))
        ensures
            out == next(state, event, transcoder_params_of(self.params)),
    {
        let params = self.transcoder_params();
        state.step(event, &params)
    }

    /// The codec options of the job, parsed; they go to the call that opens
    /// the output and to the call that opens the encoder.
    pub fn codec_options(&self) -> (options: Option<Dictionary>)
        ensures
            match self.params.codec_opts {
                Some(text) => options matches Some(dict) && dict@ == options_of(text@),
                None => options is None,
            },
    {
        match &self.params.codec_opts {
            Some(text) => Some(params_to_avdictionary(text.as_str())),
            None => None,
        }
    }

    /// The body of the callback that reports the job's end.
    pub fn callback_body(&self, failure: Option<Failure>) -> (body: ConvertResponse)
        ensures
            body.id matches Some(id) && id@ == id_text(self.id),
            match failure {
                Some(f) => body.error matches Some(text) && text@ == callback_error_of(f),
                None => body.error is None,
            },
    {
        let id = id_string(self.id);
        match failure {
            Some(f) => {
                let mut text = if f.kind == ErrorKind::SourceFetchFailed || f.kind
                    == ErrorKind::SourceTooLarge {
                    String::from_str("Couldn't download the file: ")
                } else {
                    String::from_str("Couldn't transcode: ")
                };
                let message = f.message();
                text.append(message.as_str());
                ConvertResponse::failed(id, text)
            },
            None => ConvertResponse::accepted(id),
        }
    }
}

/// The failure of a callback that was answered with another status than
/// 200.
pub open spec fn delivery_of(status: u16) -> Result<(), Failure> {
    if status == 200 {
        Ok(())
    } else {
        Err(Failure { kind: ErrorKind::CallbackFailed, code: status as i32 })
    }
}

/// The callback that reports the success of `task`: its body, or nothing
/// where the job wants no callback.
pub fn send_ok(task: &Task) -> (body: Option<ConvertResponse>)
    ensures
        wants_callback(task.params) ==> ({
            &&& body matches Some(b)
            &&& b.id matches Some(id)
            &&& id@ == id_text(task.id)
            &&& b.error is None
        }),
        !wants_callback(task.params) ==> body is None,
{
    if task.wants_callback() {
        Some(task.callback_body(None))
    } else {
        None
    }
}

/// The callback that reports the failure of `task`: its body, or nothing
/// where the job wants no callback.
pub fn send_error(task: &Task, failure: Failure) -> (body: Option<ConvertResponse>)
    ensures
        wants_callback(task.params) ==> ({
            &&& body matches Some(b)
            &&& b.id matches Some(id)
            &&& id@ == id_text(task.id)
            &&& b.error matches Some(text)
            &&& text@ == callback_error_of(failure)
        }),
        !wants_callback(task.params) ==> body is None,
{
    if task.wants_callback() {
        Some(task.callback_body(Some(failure)))
    } else {
        None
    }
}

/// Whether a callback was delivered, by the status it was answered with:
/// only 200 counts.
pub fn callback_delivered(status: u16) -> (delivered: Result<(), Failure>)
    ensures
        delivered == delivery_of(status),
{
    if status == 200 {
        Ok(())
    } else {
        Err(Failure { kind: ErrorKind::CallbackFailed, code: status as i32 })
    }
}

} // verus!
