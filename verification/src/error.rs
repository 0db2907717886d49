//! Failures of a job and how they read in a callback.

use vstd::prelude::*;
use crate::text::{decimal, push_decimal, push_signed_decimal, signed_decimal};

verus! {

/// What went wrong with a job. (A request that is not accepted is answered
/// at once with its HTTP status and never becomes a job.)
#[derive(Clone, Copy, Debug, PartialEq, Eq, Structural)]
pub enum ErrorKind {
    /// The source URL could not be fetched.
    SourceFetchFailed,
    /// The source body is larger than the job may fetch.
    SourceTooLarge,
    /// The staged input could not be opened for demuxing.
    DemuxOpenFailed,
    /// The output could not be opened in the requested container format.
    MuxOpenFailed,
    /// The input holds no audio stream.
    NoAudioStream,
    /// No decoder could be set up for the chosen stream.
    DecoderOpenFailed,
    /// No encoder has the requested name.
    UnknownCodec,
    /// The requested encoder does not encode audio.
    NotAudioCodec,
    /// The encoder advertises no sample format.
    NoSupportedFormat,
    /// The encoder refused the codec options.
    CodecOptionRejected,
    /// The encoder could not be opened.
    EncoderOpenFailed,
    /// The filter graph could not be built.
    FilterBuildFailed,
    /// The decoder refused a packet.
    DecoderSendFailed,
    /// The decoder failed while handing out frames.
    DecodeFailed,
    /// The decoder refused the end-of-stream mark.
    DecoderEofFailed,
    /// The filter graph refused a decoded frame.
    FilterFeedFailed,
    /// The filter graph could not be flushed.
    FilterFlushFailed,
    /// The filter graph failed while handing out frames.
    FilterDrainFailed,
    /// The encoder refused a frame.
    EncoderSendFailed,
    /// The encoder failed while handing out packets.
    EncodeFailed,
    /// The encoder refused the end-of-stream mark.
    EncoderEofFailed,
    /// The container header could not be written.
    MuxHeaderFailed,
    /// A packet could not be written to the container.
    MuxWriteFailed,
    /// The container trailer could not be written.
    MuxTrailerFailed,
    /// The callback was not delivered.
    CallbackFailed,
    /// The driver reported something that the current step cannot end with.
    UnexpectedEvent,
}

/// How a failed call into the codec library reads to the pipeline.
#[derive(Clone, Copy, Debug, PartialEq, Eq, Structural)]
pub enum LibError {
    /// Nothing to hand out right now; more input is needed first.
    Again,
    /// The end of the stream has been reached.
    Eof,
    /// Any other error, with the library's code.
    Other(i32),
}

impl LibError {
    /// The number kept with a failure that this error caused: the library's
    /// code where the error carries one, and 0 where it does not.
    pub open spec fn spec_code(self) -> i32 {
        match self {
            LibError::Again => 0i32,
            LibError::Eof => 0i32,
            LibError::Other(code) => code,
        }
    }

    /// The number kept with a failure that this error caused.
    #[verifier::when_used_as_spec(spec_code)]
    pub fn code(self) -> (code: i32)
        ensures
            code == self.spec_code(),
    {
        match self {
            LibError::Again => 0i32,
            LibError::Eof => 0i32,
            LibError::Other(code) => code,
        }
    }
}

/// A failure: its kind and, where there is one, the number that came with it
/// (an HTTP status, a codec library error code; 0 for none).
#[derive(Clone, Copy, Debug, PartialEq, Eq, Structural)]
pub struct Failure {
    pub kind: ErrorKind,
    pub code: i32,
}

/// The name under which a kind of failure is reported.
pub open spec fn name_of(kind: ErrorKind) -> Seq<char> {
    match kind {
        ErrorKind::SourceFetchFailed => "SourceFetchFailed"@,
        ErrorKind::SourceTooLarge => "SourceTooLarge"@,
        ErrorKind::DemuxOpenFailed => "DemuxOpenFailed"@,
        ErrorKind::MuxOpenFailed => "MuxOpenFailed"@,
        ErrorKind::NoAudioStream => "NoAudioStream"@,
        ErrorKind::DecoderOpenFailed => "DecoderOpenFailed"@,
        ErrorKind::UnknownCodec => "UnknownCodec"@,
        ErrorKind::NotAudioCodec => "NotAudioCodec"@,
        ErrorKind::NoSupportedFormat => "NoSupportedFormat"@,
        ErrorKind::CodecOptionRejected => "CodecOptionRejected"@,
        ErrorKind::EncoderOpenFailed => "EncoderOpenFailed"@,
        ErrorKind::FilterBuildFailed => "FilterBuildFailed"@,
        ErrorKind::DecoderSendFailed => "DecoderSendFailed"@,
        ErrorKind::DecodeFailed => "DecodeFailed"@,
        ErrorKind::DecoderEofFailed => "DecoderEofFailed"@,
        ErrorKind::FilterFeedFailed => "FilterFeedFailed"@,
        ErrorKind::FilterFlushFailed => "FilterFlushFailed"@,
        ErrorKind::FilterDrainFailed => "FilterDrainFailed"@,
        ErrorKind::EncoderSendFailed => "EncoderSendFailed"@,
        ErrorKind::EncodeFailed => "EncodeFailed"@,
        ErrorKind::EncoderEofFailed => "EncoderEofFailed"@,
        ErrorKind::MuxHeaderFailed => "MuxHeaderFailed"@,
        ErrorKind::MuxWriteFailed => "MuxWriteFailed"@,
        ErrorKind::MuxTrailerFailed => "MuxTrailerFailed"@,
        ErrorKind::CallbackFailed => "CallbackFailed"@,
        ErrorKind::UnexpectedEvent => "UnexpectedEvent"@,
    }
}

/// What a failure's message says after the name of its kind.
pub open spec fn detail_of(failure: Failure) -> Seq<char> {
    match failure.kind {
        ErrorKind::SourceTooLarge => ": response body exceeds the limit"@,
        ErrorKind::SourceFetchFailed => if failure.code > 0 {
            ": HTTP "@ + decimal(failure.code as nat)
        } else {
            ": request failed"@
        },
        _ => if failure.code != 0 {
            ": error "@ + signed_decimal(failure.code as int)
        } else {
            Seq::<char>::empty()
        },
    }
}

/// The whole message of a failure.
pub open spec fn message_of(failure: Failure) -> Seq<char> {
    name_of(failure.kind) + detail_of(failure)
}

impl ErrorKind {
    /// The name under which this kind of failure is reported.
    pub fn name(self) -> (name: &'static str)
        ensures
            name@ == name_of(self),
    {
        match self {
            ErrorKind::SourceFetchFailed => "SourceFetchFailed",
            ErrorKind::SourceTooLarge => "SourceTooLarge",
            ErrorKind::DemuxOpenFailed => "DemuxOpenFailed",
            ErrorKind::MuxOpenFailed => "MuxOpenFailed",
            ErrorKind::NoAudioStream => "NoAudioStream",
            ErrorKind::DecoderOpenFailed => "DecoderOpenFailed",
            ErrorKind::UnknownCodec => "UnknownCodec",
            ErrorKind::NotAudioCodec => "NotAudioCodec",
            ErrorKind::NoSupportedFormat => "NoSupportedFormat",
            ErrorKind::CodecOptionRejected => "CodecOptionRejected",
            ErrorKind::EncoderOpenFailed => "EncoderOpenFailed",
            ErrorKind::FilterBuildFailed => "FilterBuildFailed",
            ErrorKind::DecoderSendFailed => "DecoderSendFailed",
            ErrorKind::DecodeFailed => "DecodeFailed",
            ErrorKind::DecoderEofFailed => "DecoderEofFailed",
            ErrorKind::FilterFeedFailed => "FilterFeedFailed",
            ErrorKind::FilterFlushFailed => "FilterFlushFailed",
            ErrorKind::FilterDrainFailed => "FilterDrainFailed",
            ErrorKind::EncoderSendFailed => "EncoderSendFailed",
            ErrorKind::EncodeFailed => "EncodeFailed",
            ErrorKind::EncoderEofFailed => "EncoderEofFailed",
            ErrorKind::MuxHeaderFailed => "MuxHeaderFailed",
            ErrorKind::MuxWriteFailed => "MuxWriteFailed",
            ErrorKind::MuxTrailerFailed => "MuxTrailerFailed",
            ErrorKind::CallbackFailed => "CallbackFailed",
            ErrorKind::UnexpectedEvent => "UnexpectedEvent",
        }
    }
}

impl Failure {
    /// A failure of the given kind with no number attached.
    pub fn new(kind: ErrorKind) -> (failure: Failure)
        ensures
            failure == (Failure { kind, code: 0 }),
    {
        Failure { kind, code: 0 }
    }

    /// A failure of the given kind caused by an error of the codec library.
    pub fn from_library(kind: ErrorKind, cause: LibError) -> (failure: Failure)
        ensures
            failure == (Failure { kind, code: cause.code() }),
    {
        Failure { kind, code: cause.code() }
    }

    /// The message of this failure: the name of its kind, then what is known
    /// of its cause.
    pub fn message(&self) -> (text: String)
        ensures
            text@ == message_of(*self),
    {
        let mut text = String::from_str(self.kind.name());
        match self.kind {
            ErrorKind::SourceTooLarge => {
                text.append(": response body exceeds the limit");
            },
            ErrorKind::SourceFetchFailed => {
                if self.code > 0 {
                    text.append(": HTTP ");
                    push_decimal(&mut text, self.code as u64);
                } else {
                    text.append(": request failed");
                }
            },
            _ => {
                if self.code != 0 {
                    text.append(": error ");
                    push_signed_decimal(&mut text, self.code as i64);
                }
            },
        }
        text
    }
}

} // verus!
