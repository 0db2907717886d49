//! What the HTTP handlers decide: how a request becomes a job, what is
//! answered, and how a finished output is served.

use vstd::prelude::*;
use vstd::slice::slice_subrange;
use crate::dto::{
    CREATED, ConvertRequest, ConvertResponse, ConvertURLRequest, ErrorResponse,
    INTERNAL_SERVER_ERROR, NOT_FOUND,
};
use crate::filepath::{
    in_file_name, in_file_path, joined, joined_is_one_to_one, out_file_name, out_file_path,
    staged_names_are_distinct,
};
use crate::job_id::{id_string, id_text, id_text_is_one_to_one};
use crate::task::{Task, TaskParams};
use crate::text::{clone_text, parse_usize, parsed, setting_of, text_of};

verus! {

/// The most bytes that a request body or a fetched source may have, unless
/// configured otherwise: 1 GiB.
pub const CONTENT_LENGTH_LIMIT: usize = 1024 * 1024 * 1024;

/// How many bytes of an output are read to tell its type.
pub const SNIFF_LEN: usize = 512;

/// What a server needs to know to accept jobs.
#[derive(Clone, Debug, PartialEq, Eq)]
pub struct Server {
    pub max_body_size: usize,
    pub work_dir: String,
}

/// The size limit that a setting stands for: its number where it is one, and
/// the default where it is not set or is no number.
pub open spec fn body_limit_of(setting: Option<Seq<char>>) -> usize {
    match setting {
        Some(text) => match parsed(text, usize::MAX as nat) {
            Some(n) => n as usize,
            None => CONTENT_LENGTH_LIMIT,
        },
        None => CONTENT_LENGTH_LIMIT,
    }
}

/// The type of a file according to its first bytes, as `infer::get` tells
/// it: the MIME type of the first of its matchers that accepts the bytes, or
/// nothing where none does.
pub uninterp spec fn sniffed_mime(head: Seq<u8>) -> Option<Seq<char>>;

/// The content type that an output is served with: the one that was told
/// from its first bytes, or that of arbitrary bytes.
pub open spec fn content_type_of(sniffed: Option<Seq<char>>) -> Seq<char> {
    match sniffed {
        Some(mime) => mime,
        None => "application/octet-stream"@,
    }
}

/// The bytes that are looked at to tell a file's type: the first ones, up to
/// `SNIFF_LEN`.
pub open spec fn sniffed_part(head: Seq<u8>) -> Seq<u8> {
    if head.len() > SNIFF_LEN {
        head.take(SNIFF_LEN as int)
    } else {
        head
    }
}

/// Calls `infer::get` on the bytes and takes the MIME type of what it finds.
/// The result depends on the bytes alone. No more than `SNIFF_LEN` bytes
/// are handed over, which bounds the work of the matchers.
#[verifier::external_body]
fn sniff(head: &[u8]) -> (mime: Option<String>)
    requires
        head@.len() <= SNIFF_LEN,
    ensures
        match sniffed_mime(head@) {
            Some(text) => mime matches Some(m) && m@ == text,
            None => mime is None,
        },
{
    infer::get(head).map(|kind| kind.mime_type().to_string())
}

/// What was found at a job's output path.
#[derive(Clone, Debug, PartialEq, Eq)]
pub enum Staged {
    /// No file is there.
    Missing,
    /// A file is there, but it could not be opened or read.
    Unreadable,
    /// The file's first bytes.
    Head(Vec<u8>),
}

/// Picks the content type for what was told of an output's first bytes.
pub fn content_type(sniffed: Option<String>) -> (mime: String)
    ensures
        mime@ == content_type_of(text_of(sniffed)),
{
    match sniffed {
        Some(mime) => mime,
        None => String::from_str("application/octet-stream"),
    }
}

/// Decides how a request for a job's output is answered: with status 404
/// while there is no output, with status 500 where the output cannot be read
/// or is empty, and else with the output and the content type that its first
/// bytes tell.
pub fn download_file(found: &Staged) -> (reply: Result<String, u16>)
    ensures
        match *found {
            Staged::Missing => reply == Err::<String, u16>(NOT_FOUND),
            Staged::Unreadable => reply == Err::<String, u16>(INTERNAL_SERVER_ERROR),
            Staged::Head(head) => if head@.len() == 0 {
                reply == Err::<String, u16>(INTERNAL_SERVER_ERROR)
            } else {
                reply matches Ok(mime) && mime@ == content_type_of(
                    sniffed_mime(sniffed_part(head@)),
                )
            },
        },
{
    match found {
        Staged::Missing => Err(NOT_FOUND),
        Staged::Unreadable => Err(INTERNAL_SERVER_ERROR),
        Staged::Head(head) => {
            if head.len() == 0 {
                return Err(INTERNAL_SERVER_ERROR);
            }
            let part: &[u8] = if head.len() > SNIFF_LEN {
                slice_subrange(head.as_slice(), 0, SNIFF_LEN)
            } else {
                head.as_slice()
            };
            Ok(content_type(sniff(part)))
        },
    }
}

/// The answer to a request that failed on the server's side.
pub fn error_response(msg: &str) -> (reply: (u16, ConvertResponse))
    ensures
        reply.0 == INTERNAL_SERVER_ERROR,
        reply.1.id is None,
        reply.1.error matches Some(text) && text@ == msg@,
{
    (INTERNAL_SERVER_ERROR, ConvertResponse::rejected(String::from_str(msg)))
}

/// The answer to a request for a path that the server does not serve.
pub fn handler_not_found() -> (reply: (u16, ErrorResponse))
    ensures
        reply.0 == NOT_FOUND,
        reply.1.error@ == "not found"@,
{
    (NOT_FOUND, ErrorResponse { error: String::from_str("not found") })
}

impl Server {
    /// A server that stages its files under `work_dir`. `max_body_size` is
    /// the size limit as it was configured, if it was.
    pub fn new(work_dir: String, max_body_size: Option<&str>) -> (server: Server)
        ensures
            server.work_dir == work_dir,
            server.max_body_size == body_limit_of(setting_of(max_body_size)),
    {
        let limit: usize = match max_body_size {
            Some(text) => match parse_usize(text) {
                Some(n) => n,
                None => CONTENT_LENGTH_LIMIT,
            },
            None => CONTENT_LENGTH_LIMIT,
        };
        Server { max_body_size: limit, work_dir }
    }

    /// Where the input of job `id` is staged.
    pub fn input_path(&self, id: u128) -> (path: String)
        ensures
            path@ == joined(self.work_dir@, in_file_name(id_text(id))),
    {
        in_file_path(self.work_dir.as_str(), id_string(id))
    }

    /// Where the output of job `id` is staged.
    pub fn output_path(&self, id: u128) -> (path: String)
        ensures
            path@ == joined(self.work_dir@, out_file_name(id_text(id))),
    {
        out_file_path(self.work_dir.as_str(), id_string(id))
    }

    /// Accepts a job whose source is fetched from a URL: makes the job that
    /// is to be queued, and the answer to the request.
    pub fn enqueue_url(&self, id: u128, req: &ConvertURLRequest) -> (out: (
        Task,
        (u16, ConvertResponse),
    ))
        ensures
            out.0.id == id,
            out.0.params.format == req.format,
            out.0.params.codec == req.codec,
            out.0.params.codec_opts == req.codec_opts,
            out.0.params.bit_rate == req.bit_rate,
            out.0.params.max_bit_rate == req.max_bit_rate,
            out.0.params.sample_rate == req.sample_rate,
            out.0.params.channel_layout == req.channel_layout,
            out.0.params.callback_url == req.callback_url,
            out.0.params.url == Some(req.url),
            out.0.params.input_path@ == joined(self.work_dir@, in_file_name(id_text(id))),
            out.0.params.output_path@ == joined(self.work_dir@, out_file_name(id_text(id))),
            out.0.params.max_body_size == self.max_body_size,
            out.1.0 == CREATED,
            out.1.1.id matches Some(text) && text@ == id_text(id),
            out.1.1.error is None,
    {
        let params = TaskParams {
            format: req.format.clone(),
            codec: req.codec.clone(),
            codec_opts: clone_text(&req.codec_opts),
            bit_rate: req.bit_rate,
            max_bit_rate: req.max_bit_rate,
            sample_rate: req.sample_rate,
            channel_layout: clone_text(&req.channel_layout),
            url: Some(req.url.clone()),
            input_path: self.input_path(id),
            output_path: self.output_path(id),
            callback_url: clone_text(&req.callback_url),
            max_body_size: self.max_body_size,
        };
        (Task::new(id, params), (CREATED, ConvertResponse::accepted(id_string(id))))
    }

    /// Accepts a job whose source was uploaded. `persisted` says whether the
    /// upload could be moved to the job's input path: where it could not, no
    /// job is made and the request fails.
    pub fn enqueue_file(&self, id: u128, req: &ConvertRequest, persisted: bool) -> (out: (
        Option<Task>,
        (u16, ConvertResponse),
    ))
        ensures
            !persisted ==> {
                &&& out.0 is None
                &&& out.1.0 == INTERNAL_SERVER_ERROR
                &&& out.1.1.id is None
                &&& out.1.1.error matches Some(text) && text@ == "Cannot save the file"@
            },
            persisted ==> {
                &&& out.0 matches Some(task)
                &&& task.id == id
                &&& task.params.format == req.format
                &&& task.params.codec == req.codec
                &&& task.params.codec_opts == req.codec_opts
                &&& task.params.bit_rate == req.bit_rate
                &&& task.params.max_bit_rate == req.max_bit_rate
                &&& task.params.sample_rate == req.sample_rate
                &&& task.params.channel_layout == req.channel_layout
                &&& task.params.callback_url == req.callback_url
                &&& task.params.url is None
                &&& task.params.input_path@ == joined(self.work_dir@, in_file_name(id_text(id)))
                &&& task.params.output_path@ == joined(self.work_dir@, out_file_name(id_text(id)))
                &&& task.params.max_body_size == self.max_body_size
                &&& out.1.0 == CREATED
                &&& out.1.1.id matches Some(text) && text@ == id_text(id)
                &&& out.1.1.error is None
            },
    {
        if !persisted {
            return (None, error_response("Cannot save the file"));
        }
        let params = TaskParams {
            format: req.format.clone(),
            codec: req.codec.clone(),
            codec_opts: clone_text(&req.codec_opts),
            bit_rate: req.bit_rate,
            max_bit_rate: req.max_bit_rate,
            sample_rate: req.sample_rate,
            channel_layout: clone_text(&req.channel_layout),
            url: None,
            input_path: self.input_path(id),
            output_path: self.output_path(id),
            callback_url: clone_text(&req.callback_url),
            max_body_size: self.max_body_size,
        };
        (Some(Task::new(id, params)), (CREATED, ConvertResponse::accepted(id_string(id))))
    }
}

/// Jobs do not share staging files: the input of a job is never the output
/// of a job, and two different jobs have different inputs and different
/// outputs.
pub proof fn staging_paths_are_disjoint(work_dir: Seq<char>, a: u128, b: u128)
    ensures
        joined(work_dir, in_file_name(id_text(a))) != joined(
            work_dir,
            out_file_name(id_text(b)),
        ),
        a != b ==> joined(work_dir, in_file_name(id_text(a))) != joined(
            work_dir,
            in_file_name(id_text(b)),
        ),
        a != b ==> joined(work_dir, out_file_name(id_text(a))) != joined(
            work_dir,
            out_file_name(id_text(b)),
        ),
{
    staged_names_are_distinct(id_text(a), id_text(b));
    if joined(work_dir, in_file_name(id_text(a))) == joined(
        work_dir,
        out_file_name(id_text(b)),
    ) {
        joined_is_one_to_one(work_dir, in_file_name(id_text(a)), out_file_name(id_text(b)));
    }
    if joined(work_dir, in_file_name(id_text(a))) == joined(work_dir, in_file_name(id_text(b))) {
        joined_is_one_to_one(work_dir, in_file_name(id_text(a)), in_file_name(id_text(b)));
        id_text_is_one_to_one(a, b);
    }
    if joined(work_dir, out_file_name(id_text(a))) == joined(
        work_dir,
        out_file_name(id_text(b)),
    ) {
        joined_is_one_to_one(work_dir, out_file_name(id_text(a)), out_file_name(id_text(b)));
        id_text_is_one_to_one(a, b);
    }
}

} // verus!
