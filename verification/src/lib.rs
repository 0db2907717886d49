//! Decision logic of an audio transcoding service: staging paths, job
//! parameters, codec-option parsing, the transcoding pipeline's state machine,
//! the job lifecycle, the worker loop and the work-directory sweeper.

pub mod api_key;
pub mod cleanup;
pub mod config;
pub mod download;
pub mod dto;
pub mod error;
pub mod filepath;
pub mod job_id;
pub mod json_error;
pub mod pipeline;
pub mod pipeline_proofs;
pub mod server;
pub mod task;
pub mod task_proofs;
pub mod text;
pub mod thread_pool;
pub mod transcoder;
