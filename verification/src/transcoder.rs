//! What a job's pipeline is built from: the readings of the decoder and of
//! the encoder, the settings the encoder is opened with, and the filter graph
//! between the two.

use vstd::prelude::*;
use crate::error::{ErrorKind, Failure};
use crate::text::{
    hexadecimal, push_hexadecimal, push_signed_decimal, same, signed_decimal, text_of,
};

verus! {

/// Filter description that passes audio through unchanged.
pub const DEFAULT_FILTER_SPEC: &'static str = "anull";

/// A time base: timestamps count units of `num / den` seconds.
#[derive(Clone, Copy, Debug, PartialEq, Eq, Structural)]
pub struct Rational {
    pub num: i32,
    pub den: i32,
}

/// The channel layouts a job can ask for.
#[derive(Clone, Copy, Debug, PartialEq, Eq, Structural)]
pub enum ChannelLayout {
    Mono,
    Stereo,
    StereoDownmix,
}

/// How wide one sample is and whether it is an integer or a float.
#[derive(Clone, Copy, Debug, PartialEq, Eq, Structural)]
pub enum SampleKind {
    U8,
    I16,
    I32,
    I64,
    F32,
    F64,
}

/// A sample format: the kind of sample, and whether the channels lie in
/// planes of their own or interleaved.
#[derive(Clone, Copy, Debug, PartialEq, Eq, Structural)]
pub struct SampleFormat {
    pub kind: SampleKind,
    pub planar: bool,
}

/// The layout that a request's token stands for: `mono`, `stereo` and
/// `stereo_downmix` name themselves, and anything else, or no token, is
/// stereo.
pub open spec fn layout_of(token: Option<Seq<char>>) -> ChannelLayout {
    match token {
        Some(t) => if t == "mono"@ {
            ChannelLayout::Mono
        } else if t == "stereo_downmix"@ {
            ChannelLayout::StereoDownmix
        } else {
            ChannelLayout::Stereo
        },
        None => ChannelLayout::Stereo,
    }
}

impl ChannelLayout {
    /// Resolves the channel layout token of a request.
    pub fn from_token(token: &Option<String>) -> (layout: ChannelLayout)
        ensures
            layout == layout_of(text_of(*token)),
    {
        match token {
            Some(t) => {
                if same(t.as_str(), "mono") {
                    ChannelLayout::Mono
                } else if same(t.as_str(), "stereo_downmix") {
                    ChannelLayout::StereoDownmix
                } else {
                    ChannelLayout::Stereo
                }
            },
            None => ChannelLayout::Stereo,
        }
    }
}

/// What a job asks of the encoder.
#[derive(Clone, Debug, PartialEq, Eq)]
pub struct TranscoderParams {
    pub codec: String,
    pub codec_opts: Option<String>,
    pub bit_rate: Option<usize>,
    pub max_bit_rate: Option<usize>,
    pub sample_rate: i32,
    pub channel_layout: ChannelLayout,
}

/// What the decoder of the chosen audio stream reports.
#[derive(Clone, Debug, PartialEq, Eq)]
pub struct DecoderInfo {
    /// Index of the stream among the input's streams.
    pub stream: usize,
    pub time_base: Rational,
    /// Samples per second, as the codec library holds it.
    pub rate: i32,
    /// Name of the sample format.
    pub format: String,
    /// Bit mask of the channels.
    pub channel_layout: u64,
    pub bit_rate: usize,
    pub max_bit_rate: usize,
}

/// What is known of the encoder that a codec name resolved to.
#[derive(Clone, Debug, PartialEq, Eq)]
pub struct CodecInfo {
    pub is_audio: bool,
    /// The sample formats it declares, in its order.
    pub formats: Vec<SampleFormat>,
    /// Whether it takes frames of any size.
    pub variable_frame_size: bool,
}

/// What the encoder is configured with before it is opened.
#[derive(Clone, Copy, Debug, PartialEq, Eq, Structural)]
pub struct EncoderSettings {
    /// Whether the container wants the codec's global header.
    pub global_header: bool,
    pub rate: i32,
    pub channel_layout: ChannelLayout,
    pub format: SampleFormat,
    pub bit_rate: usize,
    pub max_bit_rate: usize,
    pub time_base: Rational,
    /// Whether the job's codec options go to the open call.
    pub with_options: bool,
}

/// What the opened encoder reports.
#[derive(Clone, Copy, Debug, PartialEq, Eq, Structural)]
pub struct EncoderInfo {
    pub format: SampleFormat,
    pub channel_layout: ChannelLayout,
    pub rate: i32,
    pub variable_frame_size: bool,
    /// Samples per channel in one frame, for an encoder of fixed frame size.
    pub frame_size: u32,
}

/// The pipeline of one job as far as the driver has to know it: which input
/// stream is transcoded, the two time bases between which timestamps are
/// rescaled, and how the encoder is set up.
#[derive(Clone, Copy, Debug, PartialEq, Eq, Structural)]
pub struct Transcoder {
    pub stream: usize,
    pub in_time_base: Rational,
    pub out_time_base: Rational,
    pub encoder: EncoderSettings,
    pub variable_frame_size: bool,
}

/// The requested value where it is present and positive, else the fallback.
pub open spec fn positive_or(requested: Option<usize>, fallback: usize) -> usize {
    match requested {
        Some(value) => if value > 0 {
            value
        } else {
            fallback
        },
        None => fallback,
    }
}

/// The sample rate the encoder runs at: the requested one where it is
/// positive, else the decoder's.
pub open spec fn effective_sample_rate(requested: i32, decoder_rate: i32) -> i32 {
    if requested > 0 {
        requested
    } else {
        decoder_rate
    }
}

/// The settings that a request resolves to, given the decoder and the
/// encoder's first sample format.
pub open spec fn settings_of(
    decoder: DecoderInfo,
    format: SampleFormat,
    global_header: bool,
    params: TranscoderParams,
) -> EncoderSettings {
    let rate = effective_sample_rate(params.sample_rate, decoder.rate);
    EncoderSettings {
        global_header,
        rate,
        channel_layout: params.channel_layout,
        format,
        bit_rate: positive_or(params.bit_rate, decoder.bit_rate),
        max_bit_rate: positive_or(params.max_bit_rate, decoder.max_bit_rate),
        time_base: Rational { num: 1, den: rate },
        with_options: params.codec_opts is Some,
    }
}

/// What setting up a pipeline comes to. It fails where the input has no audio
/// stream, where no encoder has the requested name, where that encoder is not
/// an audio encoder, and where it declares no sample format, in this order.
pub open spec fn transcoder_of(
    input: Option<DecoderInfo>,
    codec: Option<CodecInfo>,
    global_header: bool,
    params: TranscoderParams,
) -> Result<Transcoder, Failure> {
    match input {
        None => Err(Failure { kind: ErrorKind::NoAudioStream, code: 0 }),
        Some(decoder) => match codec {
            None => Err(Failure { kind: ErrorKind::UnknownCodec, code: 0 }),
            Some(c) => if !c.is_audio {
                Err(Failure { kind: ErrorKind::NotAudioCodec, code: 0 })
            } else if c.formats@.len() == 0 {
                Err(Failure { kind: ErrorKind::NoSupportedFormat, code: 0 })
            } else {
                let encoder = settings_of(decoder, c.formats@[0], global_header, params);
                Ok(
                    Transcoder {
                        stream: decoder.stream,
                        in_time_base: decoder.time_base,
                        out_time_base: encoder.time_base,
                        encoder,
                        variable_frame_size: c.variable_frame_size,
                    },
                )
            },
        },
    }
}

fn positive_or_else(requested: Option<usize>, fallback: usize) -> (value: usize)
    ensures
        value == positive_or(requested, fallback),
{
    match requested {
        Some(value) => if value > 0 {
            value
        } else {
            fallback
        },
        None => fallback,
    }
}

impl Transcoder {
    /// Sets up the pipeline of a job from what the input's best audio stream
    /// and the requested encoder report. `input` is `None` where the input
    /// has no audio stream, `codec` where no encoder has the requested name.
    pub fn new(
        input: Option<&DecoderInfo>,
        codec: Option<&CodecInfo>,
        global_header: bool,
        params: &TranscoderParams,
    ) -> (built: Result<Transcoder, Failure>)
        ensures
            built == transcoder_of(
                match input {
                    Some(d) => Some(*d),
                    None => None,
                },
                match codec {
                    Some(c) => Some(*c),
                    None => None,
                },
                global_header,
                *params,
            ),
    {
        let decoder = match input {
            Some(d) => d,
            None => {
                return Err(Failure::new(ErrorKind::NoAudioStream));
            },
        };
        let codec = match codec {
            Some(c) => c,
            None => {
                return Err(Failure::new(ErrorKind::UnknownCodec));
            },
        };
        if !codec.is_audio {
            return Err(Failure::new(ErrorKind::NotAudioCodec));
        }
        if codec.formats.len() == 0 {
            return Err(Failure::new(ErrorKind::NoSupportedFormat));
        }
        let rate: i32 = if params.sample_rate > 0 {
            params.sample_rate
        } else {
            decoder.rate
        };
        let encoder = EncoderSettings {
            global_header,
            rate,
            channel_layout: params.channel_layout,
            format: codec.formats[0],
            bit_rate: positive_or_else(params.bit_rate, decoder.bit_rate),
            max_bit_rate: positive_or_else(params.max_bit_rate, decoder.max_bit_rate),
            time_base: Rational { num: 1, den: rate },
            with_options: params.codec_opts.is_some(),
        };
        Ok(
            Transcoder {
                stream: decoder.stream,
                in_time_base: decoder.time_base,
                out_time_base: encoder.time_base,
                encoder,
                variable_frame_size: codec.variable_frame_size,
            },
        )
    }

    /// What the opened encoder reports, given the frame size it declares.
    pub fn encoder_info(&self, frame_size: u32) -> (info: EncoderInfo)
        ensures
            info == (EncoderInfo {
                format: self.encoder.format,
                channel_layout: self.encoder.channel_layout,
                rate: self.encoder.rate,
                variable_frame_size: self.variable_frame_size,
                frame_size,
            }),
    {
        EncoderInfo {
            format: self.encoder.format,
            channel_layout: self.encoder.channel_layout,
            rate: self.encoder.rate,
            variable_frame_size: self.variable_frame_size,
            frame_size,
        }
    }
}

/// A filter graph to build: an audio buffer source named `in`, an audio
/// buffer sink named `out`, and the filters of `spec` between them.
#[derive(Clone, Debug, PartialEq, Eq)]
pub struct FilterGraph {
    /// Arguments of the source, which describe what the decoder hands out.
    pub source_args: String,
    /// Description of the filters between source and sink.
    pub spec: String,
    pub sink_format: SampleFormat,
    pub sink_layout: ChannelLayout,
    pub sink_rate: i32,
    /// The frame size that the sink is held to once the graph is validated;
    /// `None` leaves it unbounded.
    pub frame_size: Option<u32>,
}

/// The arguments of the buffer source: the decoder's time base, sample rate,
/// sample format name and channel mask as `key=value` pairs separated by `:`.
pub open spec fn source_args_of(decoder: DecoderInfo) -> Seq<char> {
    "time_base="@ + signed_decimal(decoder.time_base.num as int) + "/"@ + signed_decimal(
        decoder.time_base.den as int,
    ) + ":sample_rate="@ + signed_decimal(decoder.rate as int) + ":sample_fmt="@ + decoder.format@
        + ":channel_layout=0x"@ + hexadecimal(decoder.channel_layout as nat)
}

/// The frame size the sink is held to: the encoder's, unless the encoder
/// takes frames of any size.
pub open spec fn sink_frame_size(encoder: EncoderInfo) -> Option<u32> {
    if encoder.variable_frame_size {
        None
    } else {
        Some(encoder.frame_size)
    }
}

/// Plans the filter graph that adapts what `decoder` hands out to what
/// `encoder` takes.
pub fn filter_graph(spec: &str, decoder: &DecoderInfo, encoder: &EncoderInfo) -> (graph:
    FilterGraph)
    ensures
        graph.source_args@ == source_args_of(*decoder),
        graph.spec@ == spec@,
        graph.sink_format == encoder.format,
        graph.sink_layout == encoder.channel_layout,
        graph.sink_rate == encoder.rate,
        graph.frame_size == sink_frame_size(*encoder),
{
    let mut args = String::from_str("time_base=");
    push_signed_decimal(&mut args, decoder.time_base.num as i64);
    args.append("/");
    push_signed_decimal(&mut args, decoder.time_base.den as i64);
    args.append(":sample_rate=");
    push_signed_decimal(&mut args, decoder.rate as i64);
    args.append(":sample_fmt=");
    args.append(decoder.format.as_str());
    args.append(":channel_layout=0x");
    push_hexadecimal(&mut args, decoder.channel_layout);
    FilterGraph {
        source_args: args,
        spec: String::from_str(spec),
        sink_format: encoder.format,
        sink_layout: encoder.channel_layout,
        sink_rate: encoder.rate,
        frame_size: if encoder.variable_frame_size {
            None
        } else {
            Some(encoder.frame_size)
        },
    }
}

/// A job that asks for no sample rate keeps the input's: the encoder then
/// runs at the decoder's rate, and the output stream counts time in units of
/// one sample at that rate.
pub proof fn sample_rate_is_inherited(
    decoder: DecoderInfo,
    codec: CodecInfo,
    global_header: bool,
    params: TranscoderParams,
)
    requires
        params.sample_rate <= 0,
        transcoder_of(Some(decoder), Some(codec), global_header, params) is Ok,
    ensures
        transcoder_of(Some(decoder), Some(codec), global_header, params)->Ok_0.encoder.rate
            == decoder.rate,
        transcoder_of(Some(decoder), Some(codec), global_header, params)->Ok_0.out_time_base
            == (Rational { num: 1, den: decoder.rate }),
{
}

/// A job that asks for a positive sample rate gets it.
pub proof fn sample_rate_is_applied(
    decoder: DecoderInfo,
    codec: CodecInfo,
    global_header: bool,
    params: TranscoderParams,
)
    requires
        params.sample_rate > 0,
        transcoder_of(Some(decoder), Some(codec), global_header, params) is Ok,
    ensures
        transcoder_of(Some(decoder), Some(codec), global_header, params)->Ok_0.encoder.rate
            == params.sample_rate,
{
}

/// A job that asks for no bit rate, or for 0, keeps the input's: the encoder
/// is configured with the decoder's bit rate. The same holds of the maximum
/// bit rate.
pub proof fn bit_rate_is_inherited(
    decoder: DecoderInfo,
    codec: CodecInfo,
    global_header: bool,
    params: TranscoderParams,
)
    requires
        transcoder_of(Some(decoder), Some(codec), global_header, params) is Ok,
    ensures
        (params.bit_rate is None || params.bit_rate == Some(0usize)) ==> transcoder_of(
            Some(decoder),
            Some(codec),
            global_header,
            params,
        )->Ok_0.encoder.bit_rate == decoder.bit_rate,
        (params.max_bit_rate is None || params.max_bit_rate == Some(0usize)) ==> transcoder_of(
            Some(decoder),
            Some(codec),
            global_header,
            params,
        )->Ok_0.encoder.max_bit_rate == decoder.max_bit_rate,
{
}

/// The pipeline reads the chosen stream and runs the encoder as the job
/// asked: with the requested channel layout and the first sample format that
/// the encoder declares.
pub proof fn encoder_follows_request(
    decoder: DecoderInfo,
    codec: CodecInfo,
    global_header: bool,
    params: TranscoderParams,
)
    requires
        transcoder_of(Some(decoder), Some(codec), global_header, params) is Ok,
    ensures
        codec.is_audio,
        codec.formats@.len() > 0,
        ({
            let built = transcoder_of(Some(decoder), Some(codec), global_header, params)->Ok_0;
            &&& built.stream == decoder.stream
            &&& built.in_time_base == decoder.time_base
            &&& built.encoder.channel_layout == params.channel_layout
            &&& built.encoder.format == codec.formats@[0]
            &&& built.encoder.time_base == (Rational { num: 1, den: built.encoder.rate })
            &&& built.out_time_base == built.encoder.time_base
        }),
{
}

} // verus!
