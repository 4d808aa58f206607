use vstd::prelude::*;

use crate::channel::{
    CH_FRONT_LEFT, CH_FRONT_RIGHT,
    chosen_in_layout, in_channel_layout, layout_channels, out_channel_layout, out_layout_for,
    channel_layout_nb_channels,
};

verus! {

/// Sample-format number of signed 16-bit interleaved samples
/// (`AV_SAMPLE_FMT_S16`).
pub const SAMPLE_FMT_S16: i32 = 1i32;

/// Sample rate that the shared resampler converts to.
pub const SHARED_OUT_SAMPLE_RATE: i32 = 48000i32;

/// Channel count that the shared resampler converts to.
pub const SHARED_OUT_CHANNELS: i32 = 2i32;

/// The audio parameters of a decoder context that a resampler is set up from.
#[derive(Clone, Copy, Debug, PartialEq, Eq)]
pub struct AudioCodecParams {
    /// The decoder's channel count.
    pub channels: i32,
    /// The decoder's channel layout.
    pub channel_layout: u64,
    /// `av_get_default_channel_layout(channels)`.
    pub default_layout: i64,
    /// The decoder's sample rate.
    pub sample_rate: i32,
    /// The decoder's sample-format number.
    pub sample_fmt: i32,
}

/// The resampler options that are set, each by its name.
#[derive(Clone, Copy, Debug, PartialEq, Eq)]
pub enum SwrOptionKey {
    InChannelCount,
    InChannelLayout,
    InSampleRate,
    InSampleFmt,
    OutChannelCount,
    OutChannelLayout,
    OutSampleRate,
    OutSampleFmt,
}

/// One option to set on a resampler context, with its value. The two
/// sample-format options are set as sample formats, the others as integers.
#[derive(Clone, Copy, Debug, PartialEq, Eq)]
pub struct SwrOption {
    pub key: SwrOptionKey,
    pub value: i64,
}

/// The name under which a resampler option is set.
pub open spec fn option_name(key: SwrOptionKey) -> Seq<char> {
    match key {
        SwrOptionKey::InChannelCount => "in_channel_count"@,
        SwrOptionKey::InChannelLayout => "in_channel_layout"@,
        SwrOptionKey::InSampleRate => "in_sample_rate"@,
        SwrOptionKey::InSampleFmt => "in_sample_fmt"@,
        SwrOptionKey::OutChannelCount => "out_channel_count"@,
        SwrOptionKey::OutChannelLayout => "out_channel_layout"@,
        SwrOptionKey::OutSampleRate => "out_sample_rate"@,
        SwrOptionKey::OutSampleFmt => "out_sample_fmt"@,
    }
}

/// Whether an option is set as a sample format rather than as an integer.
pub open spec fn is_sample_fmt_option(key: SwrOptionKey) -> bool {
    key == SwrOptionKey::InSampleFmt || key == SwrOptionKey::OutSampleFmt
}

impl SwrOptionKey {
    /// The name under which this option is set on a resampler context.
    pub fn name(&self) -> (n: &'static str)
        ensures
            n@ == option_name(*self),
    {
        match self {
            SwrOptionKey::InChannelCount => "in_channel_count",
            SwrOptionKey::InChannelLayout => "in_channel_layout",
            SwrOptionKey::InSampleRate => "in_sample_rate",
            SwrOptionKey::InSampleFmt => "in_sample_fmt",
            SwrOptionKey::OutChannelCount => "out_channel_count",
            SwrOptionKey::OutChannelLayout => "out_channel_layout",
            SwrOptionKey::OutSampleRate => "out_sample_rate",
            SwrOptionKey::OutSampleFmt => "out_sample_fmt",
        }
    }

    /// Whether this option is set as a sample format.
    pub fn is_sample_fmt(&self) -> (b: bool)
        ensures
            b == is_sample_fmt_option(*self),
    {
        match self {
            SwrOptionKey::InSampleFmt => true,
            SwrOptionKey::OutSampleFmt => true,
            _ => false,
        }
    }
}

/// The options, in the order they are set, that configure a resampler from
/// a decoder to the given output. The output channel count is always set to
/// two, whatever the output layout.
pub open spec fn resampler_options(
    codec: AudioCodecParams,
    in_layout: i32,
    out_layout: u64,
    out_sample_rate: i32,
    out_sample_fmt: i32,
) -> Seq<SwrOption> {
    seq![
        SwrOption { key: SwrOptionKey::InChannelCount, value: codec.channels as i64 },
        SwrOption { key: SwrOptionKey::InChannelLayout, value: in_layout as i64 },
        SwrOption { key: SwrOptionKey::InSampleRate, value: codec.sample_rate as i64 },
        SwrOption { key: SwrOptionKey::InSampleFmt, value: codec.sample_fmt as i64 },
        SwrOption { key: SwrOptionKey::OutChannelCount, value: 2 },
        SwrOption { key: SwrOptionKey::OutChannelLayout, value: out_layout as i64 },
        SwrOption { key: SwrOptionKey::OutSampleRate, value: out_sample_rate as i64 },
        SwrOption { key: SwrOptionKey::OutSampleFmt, value: out_sample_fmt as i64 },
    ]
}

/// Builds the list of options that configure a resampler.
pub fn swr_options(
    codec: &AudioCodecParams,
    in_layout: i32,
    out_layout: u64,
    out_sample_rate: i32,
    out_sample_fmt: i32,
) -> (opts: Vec<SwrOption>)
    ensures
        opts@ == resampler_options(*codec, in_layout, out_layout, out_sample_rate, out_sample_fmt),
{
    let mut opts: Vec<SwrOption> = Vec::new();
    opts.push(SwrOption { key: SwrOptionKey::InChannelCount, value: codec.channels as i64 });
    opts.push(SwrOption { key: SwrOptionKey::InChannelLayout, value: in_layout as i64 });
    opts.push(SwrOption { key: SwrOptionKey::InSampleRate, value: codec.sample_rate as i64 });
    opts.push(SwrOption { key: SwrOptionKey::InSampleFmt, value: codec.sample_fmt as i64 });
    opts.push(SwrOption { key: SwrOptionKey::OutChannelCount, value: 2 });
    opts.push(SwrOption { key: SwrOptionKey::OutChannelLayout, value: out_layout as i64 });
    opts.push(SwrOption { key: SwrOptionKey::OutSampleRate, value: out_sample_rate as i64 });
    opts.push(SwrOption { key: SwrOptionKey::OutSampleFmt, value: out_sample_fmt as i64 });
    assert(opts@ =~= resampler_options(*codec, in_layout, out_layout, out_sample_rate, out_sample_fmt));
    opts
}

/// The options of the shared resampler that `avcodec_resampler` sets up:
/// none when the input layout value is negative, else the options that
/// convert the decoder's audio to stereo signed 16-bit samples at 48 kHz.
pub open spec fn shared_resampler_options(codec: AudioCodecParams) -> Option<Seq<SwrOption>> {
    let in_layout = chosen_in_layout(codec.channels, codec.channel_layout, codec.default_layout);
    if in_layout < 0 {
        None
    } else {
        Some(resampler_options(
            codec,
            in_layout,
            out_layout_for(SHARED_OUT_CHANNELS),
            SHARED_OUT_SAMPLE_RATE,
            SAMPLE_FMT_S16,
        ))
    }
}

/// Decides how `avcodec_resampler` configures the shared resampler: `None`
/// where it gives up before setting any option.
pub fn avcodec_resampler_options(codec: &AudioCodecParams) -> (opts: Option<Vec<SwrOption>>)
    ensures
        opts is None <==> shared_resampler_options(*codec) is None,
        opts matches Some(v) ==> shared_resampler_options(*codec) == Some(v@),
        opts matches Some(v) ==> v@.len() == 8 && v@[0] == (SwrOption {
            key: SwrOptionKey::InChannelCount,
            value: codec.channels as i64,
        }) && v@[4] == (SwrOption { key: SwrOptionKey::OutChannelCount, value: 2 }) && v@[5] == (
        SwrOption { key: SwrOptionKey::OutChannelLayout, value: 3 }) && v@[6] == (SwrOption {
            key: SwrOptionKey::OutSampleRate,
            value: 48000,
        }) && v@[7] == (SwrOption { key: SwrOptionKey::OutSampleFmt, value: 1 }),
{
    let in_layout = in_channel_layout(codec.channels, codec.channel_layout, codec.default_layout);
    if in_layout < 0 {
        return None;
    }
    let out_layout = out_channel_layout(SHARED_OUT_CHANNELS);
    assert(CH_FRONT_LEFT | CH_FRONT_RIGHT == 3u64) by (bit_vector);
    Some(swr_options(codec, in_layout, out_layout, SHARED_OUT_SAMPLE_RATE, SAMPLE_FMT_S16))
}

/// One resampling of a decoded audio frame into a caller's buffer, as
/// `audio_resampling` performs it.
#[derive(Clone, Copy, Debug, PartialEq, Eq)]
pub struct ResampleRequest {
    pub codec: AudioCodecParams,
    /// Samples per channel in the decoded frame.
    pub nb_samples: i32,
    pub out_channels: i32,
    pub out_sample_rate: i32,
    pub out_sample_fmt: i32,
}

/// Where a resampling stands: which outside result it waits for next.
#[derive(Clone, Copy, Debug, PartialEq, Eq)]
pub enum ResampleStage {
    /// Waits for `swr_get_delay` after the context was configured.
    AwaitDelay,
    /// Waits for the rescaled output sample count.
    AwaitSamples,
    /// Waits for the result of `swr_convert`.
    AwaitConversion,
    /// Waits for `av_samples_get_buffer_size`.
    AwaitBufferSize,
    /// Has given its result.
    Finished,
}

/// The state of one resampling.
#[derive(Clone, Copy, Debug, PartialEq, Eq)]
pub struct Resampling {
    pub stage: ResampleStage,
    pub request: ResampleRequest,
    pub in_layout: i32,
    pub out_layout: u64,
    pub out_nb_channels: i32,
}

/// An outside result that the resampling was waiting for.
#[derive(Clone, Copy, Debug, PartialEq, Eq)]
pub enum ResampleEvent {
    /// `swr_get_delay(ctx, in_sample_rate)`.
    Delay(i64),
    /// The rescaled sample count, and whether the resampler context could not
    /// be allocated.
    Samples { out_nb_samples: i64, context_missing: bool },
    /// What `swr_convert` returned.
    Converted(i32),
    /// What `av_samples_get_buffer_size` returned.
    BufferSize(i32),
}

/// What the caller does next.
#[derive(Clone, Copy, Debug, PartialEq, Eq)]
pub enum ResampleAction {
    /// Set the options of `Resampling::options` on the context, initialise
    /// it, and report `swr_get_delay(ctx, in_sample_rate)`.
    Configure,
    /// Report `av_rescale_rnd(a, b, c, AV_ROUND_UP)` and whether the context
    /// is missing.
    Rescale { a: i64, b: i64, c: i64 },
    /// Convert the frame's samples into the buffer and report the result.
    Convert { out_count: i32, in_count: i32 },
    /// Report the buffer size of that many samples.
    MeasureBuffer { channels: i32, samples: i32, fmt: i32 },
    /// Return `result`; free the context first when `free_context` holds.
    Done { result: i32, free_context: bool },
}

/// The failed end of a resampling: -1, the context left as it is.
pub open spec fn failed() -> ResampleAction {
    ResampleAction::Done { result: -1i32, free_context: false }
}

/// The first state and action of a resampling: it fails at once when the
/// input layout value is negative or the frame holds no samples, else it
/// configures the context.
pub open spec fn resample_start(req: ResampleRequest) -> (Resampling, ResampleAction) {
    let in_layout = chosen_in_layout(req.codec.channels, req.codec.channel_layout, req.codec.default_layout);
    let out_layout = out_layout_for(req.out_channels);
    let s = Resampling {
        stage: ResampleStage::AwaitDelay,
        request: req,
        in_layout,
        out_layout,
        out_nb_channels: layout_channels(out_layout) as i32,
    };
    if in_layout < 0 || req.nb_samples <= 0 {
        (Resampling { stage: ResampleStage::Finished, ..s }, failed())
    } else {
        (s, ResampleAction::Configure)
    }
}

/// Whether an event is the one the resampling waits for, and its values
/// cause no overflow in the next step.
pub open spec fn resample_event_fits(s: Resampling, ev: ResampleEvent) -> bool {
    match ev {
        ResampleEvent::Delay(d) => s.stage == ResampleStage::AwaitDelay
            && i64::MIN <= d + s.request.nb_samples <= i64::MAX,
        ResampleEvent::Samples { .. } => s.stage == ResampleStage::AwaitSamples,
        ResampleEvent::Converted(_) => s.stage == ResampleStage::AwaitConversion,
        ResampleEvent::BufferSize(_) => s.stage == ResampleStage::AwaitBufferSize,
    }
}

/// One step of a resampling: each check that fails ends it with -1; the
/// last step returns the buffer size and frees the context.
pub open spec fn resample_step(s: Resampling, ev: ResampleEvent) -> (Resampling, ResampleAction) {
    let done = Resampling { stage: ResampleStage::Finished, ..s };
    match ev {
        ResampleEvent::Delay(d) => (
            Resampling { stage: ResampleStage::AwaitSamples, ..s },
            ResampleAction::Rescale {
                a: (d + s.request.nb_samples) as i64,
                b: s.request.out_sample_rate as i64,
                c: s.request.codec.sample_rate as i64,
            },
        ),
        ResampleEvent::Samples { out_nb_samples, context_missing } => {
            if out_nb_samples <= 0 || context_missing {
                (done, failed())
            } else {
                (
                    Resampling { stage: ResampleStage::AwaitConversion, ..s },
                    ResampleAction::Convert { out_count: out_nb_samples as i32, in_count: s.request.nb_samples },
                )
            }
        },
        ResampleEvent::Converted(ret) => {
            if ret < 0 {
                (done, failed())
            } else {
                (
                    Resampling { stage: ResampleStage::AwaitBufferSize, ..s },
                    ResampleAction::MeasureBuffer {
                        channels: s.out_nb_channels,
                        samples: ret,
                        fmt: s.request.out_sample_fmt,
                    },
                )
            }
        },
        ResampleEvent::BufferSize(size) => {
            if size < 0 {
                (done, failed())
            } else {
                (done, ResampleAction::Done { result: size, free_context: true })
            }
        },
    }
}

impl Resampling {
    /// Starts the resampling of a decoded frame.
    pub fn start(req: ResampleRequest) -> (r: (Resampling, ResampleAction))
        ensures
            r == resample_start(req),
            r.0.request == req,
            r.0.out_nb_channels == channels_for(req.out_channels),
    {
        proof {
            crate::channel::lemma_out_layout_channels(req.out_channels);
        }
        let in_layout = in_channel_layout(req.codec.channels, req.codec.channel_layout, req.codec.default_layout);
        let out_layout = out_channel_layout(req.out_channels);
        let out_nb_channels = channel_layout_nb_channels(out_layout);
        if in_layout < 0 || req.nb_samples <= 0 {
            let s = Resampling { stage: ResampleStage::Finished, request: req, in_layout, out_layout, out_nb_channels };
            return (s, ResampleAction::Done { result: -1, free_context: false });
        }
        let s = Resampling { stage: ResampleStage::AwaitDelay, request: req, in_layout, out_layout, out_nb_channels };
        (s, ResampleAction::Configure)
    }

    /// The options that the `Configure` action sets, in order.
    pub fn options(&self) -> (opts: Vec<SwrOption>)
        ensures
            opts@ == resampler_options(
                self.request.codec,
                self.in_layout,
                self.out_layout,
                self.request.out_sample_rate,
                self.request.out_sample_fmt,
            ),
    {
        swr_options(
            &self.request.codec,
            self.in_layout,
            self.out_layout,
            self.request.out_sample_rate,
            self.request.out_sample_fmt,
        )
    }

    /// Takes the outside result the resampling waited for and decides the
    /// next action.
    pub fn step(self, ev: ResampleEvent) -> (r: (Resampling, ResampleAction))
        requires
            resample_event_fits(self, ev),
        ensures
            r == resample_step(self, ev),
            r.0.request == self.request,
            r.0.out_nb_channels == self.out_nb_channels,
            ev matches ResampleEvent::Delay(d) ==> r.1 == (ResampleAction::Rescale {
                a: (d + self.request.nb_samples) as i64,
                b: self.request.out_sample_rate as i64,
                c: self.request.codec.sample_rate as i64,
            }),
            ev matches ResampleEvent::Samples { out_nb_samples, context_missing } ==> (if out_nb_samples <= 0
                || context_missing {
                r.1 == (ResampleAction::Done { result: -1i32, free_context: false })
            } else {
                r.1 == (ResampleAction::Convert {
                    out_count: out_nb_samples as i32,
                    in_count: self.request.nb_samples,
                })
            }),
            ev matches ResampleEvent::Converted(ret) ==> (ret < 0 ==> r.1 == (ResampleAction::Done {
                result: -1i32,
                free_context: false,
            })),
            ev matches ResampleEvent::BufferSize(size) ==> r.1 == (ResampleAction::Done {
                result: if size < 0 { -1i32 } else { size },
                free_context: size >= 0,
            }),
            ev matches ResampleEvent::Converted(ret) ==> (ret >= 0 ==> r.1 == (ResampleAction::MeasureBuffer {
                channels: self.out_nb_channels,
                samples: ret,
                fmt: self.request.out_sample_fmt,
            })),
    {
        let done = Resampling { stage: ResampleStage::Finished, ..self };
        match ev {
            ResampleEvent::Delay(d) => (
                Resampling { stage: ResampleStage::AwaitSamples, ..self },
                ResampleAction::Rescale {
                    a: d + self.request.nb_samples as i64,
                    b: self.request.out_sample_rate as i64,
                    c: self.request.codec.sample_rate as i64,
                },
            ),
            ResampleEvent::Samples { out_nb_samples, context_missing } => {
                if out_nb_samples <= 0 || context_missing {
                    (done, ResampleAction::Done { result: -1, free_context: false })
                } else {
                    (
                        Resampling { stage: ResampleStage::AwaitConversion, ..self },
                        ResampleAction::Convert {
                            out_count: out_nb_samples as i32,
                            in_count: self.request.nb_samples,
                        },
                    )
                }
            },
            ResampleEvent::Converted(ret) => {
                if ret < 0 {
                    (done, ResampleAction::Done { result: -1, free_context: false })
                } else {
                    (
                        Resampling { stage: ResampleStage::AwaitBufferSize, ..self },
                        ResampleAction::MeasureBuffer {
                            channels: self.out_nb_channels,
                            samples: ret,
                            fmt: self.request.out_sample_fmt,
                        },
                    )
                }
            },
            ResampleEvent::BufferSize(size) => {
                if size < 0 {
                    (done, ResampleAction::Done { result: -1, free_context: false })
                } else {
                    (done, ResampleAction::Done { result: size, free_context: true })
                }
            },
        }
    }
}

/// What `audio_resampling` returns for the given outside results: -1 when
/// the input layout value is negative, the frame holds no samples, the
/// rescaled sample count is not positive, the context is missing, the
/// conversion fails or the buffer size is negative; else the buffer size.
pub open spec fn resample_outcome(
    req: ResampleRequest,
    out_nb_samples: i64,
    context_missing: bool,
    converted: i32,
    buffer_size: i32,
) -> i32 {
    let in_layout = chosen_in_layout(req.codec.channels, req.codec.channel_layout, req.codec.default_layout);
    if in_layout < 0 || req.nb_samples <= 0 {
        -1i32
    } else if out_nb_samples <= 0 || context_missing {
        -1i32
    } else if converted < 0 {
        -1i32
    } else if buffer_size < 0 {
        -1i32
    } else {
        buffer_size
    }
}

/// The last action of a resampling whose caller answers each action with the
/// outside result it asks for.
pub open spec fn drive_resample(
    req: ResampleRequest,
    delay: i64,
    out_nb_samples: i64,
    context_missing: bool,
    converted: i32,
    buffer_size: i32,
) -> ResampleAction {
    let (s0, a0) = resample_start(req);
    if a0 is Done {
        a0
    } else {
        let (s1, _a1) = resample_step(s0, ResampleEvent::Delay(delay));
        let (s2, a2) = resample_step(s1, ResampleEvent::Samples { out_nb_samples, context_missing });
        if a2 is Done {
            a2
        } else {
            let (s3, a3) = resample_step(s2, ResampleEvent::Converted(converted));
            if a3 is Done {
                a3
            } else {
                resample_step(s3, ResampleEvent::BufferSize(buffer_size)).1
            }
        }
    }
}

/// A resampling ends with -1 exactly when one of its checks fails, and
/// with the buffer size otherwise; the context is freed exactly when it
/// succeeds, and the result is then not negative.
pub proof fn lemma_resample_outcome(
    req: ResampleRequest,
    delay: i64,
    out_nb_samples: i64,
    context_missing: bool,
    converted: i32,
    buffer_size: i32,
)
    ensures
        ({
            let r = resample_outcome(req, out_nb_samples, context_missing, converted, buffer_size);
            &&& drive_resample(req, delay, out_nb_samples, context_missing, converted, buffer_size)
                == ResampleAction::Done { result: r, free_context: r >= 0 }
            &&& r == -1 || r >= 0
        }),
{
}

/// The order in which a resampling passes its stages.
pub open spec fn resample_rank(stage: ResampleStage) -> nat {
    match stage {
        ResampleStage::AwaitDelay => 4,
        ResampleStage::AwaitSamples => 3,
        ResampleStage::AwaitConversion => 2,
        ResampleStage::AwaitBufferSize => 1,
        ResampleStage::Finished => 0,
    }
}

/// Every step moves a resampling to a later stage, and it is finished
/// exactly when its action is `Done`; so a resampling takes at most four
/// outside results, and a finished one takes none.
pub proof fn lemma_resample_progress(s: Resampling, ev: ResampleEvent)
    requires
        resample_event_fits(s, ev),
    ensures
        resample_rank(resample_step(s, ev).0.stage) < resample_rank(s.stage),
        (resample_step(s, ev).0.stage == ResampleStage::Finished) == (resample_step(s, ev).1 is Done),
        s.stage != ResampleStage::Finished,
{
}

/// A resampling starts finished exactly when its first action is `Done`.
pub proof fn lemma_resample_start_stage(req: ResampleRequest)
    ensures
        (resample_start(req).0.stage == ResampleStage::Finished) == (resample_start(req).1 is Done),
{
}

/// The channel count of the output layout chosen for a requested channel
/// count: 1 for mono, 2 for stereo, 3 for anything else.
pub open spec fn channels_for(out_channels: i32) -> i32 {
    if out_channels == 1 {
        1
    } else if out_channels == 2 {
        2
    } else {
        3
    }
}

/// Every option carries the value that belongs to its key: the decoder's
/// channel count, input layout value, sample rate and format, two output
/// channels, and the requested output layout, rate and format; each of the
/// eight keys is set once, the input ones first.
pub proof fn lemma_option_values(
    codec: AudioCodecParams,
    in_layout: i32,
    out_layout: u64,
    out_sample_rate: i32,
    out_sample_fmt: i32,
)
    ensures
        ({
            let opts = resampler_options(codec, in_layout, out_layout, out_sample_rate, out_sample_fmt);
            &&& opts.len() == 8
            &&& forall|i: int, j: int| 0 <= i < j < 8 ==> opts[i].key != opts[j].key
            &&& forall|i: int|
                0 <= i < 8 ==> {
                    &&& (#[trigger] opts[i]).key == SwrOptionKey::InChannelCount ==> opts[i].value == codec.channels
                    &&& opts[i].key == SwrOptionKey::InChannelLayout ==> opts[i].value == in_layout
                    &&& opts[i].key == SwrOptionKey::InSampleRate ==> opts[i].value == codec.sample_rate
                    &&& opts[i].key == SwrOptionKey::InSampleFmt ==> opts[i].value == codec.sample_fmt
                    &&& opts[i].key == SwrOptionKey::OutChannelCount ==> opts[i].value == 2
                    &&& opts[i].key == SwrOptionKey::OutChannelLayout ==> opts[i].value == out_layout as i64
                    &&& opts[i].key == SwrOptionKey::OutSampleRate ==> opts[i].value == out_sample_rate
                    &&& opts[i].key == SwrOptionKey::OutSampleFmt ==> opts[i].value == out_sample_fmt
                }
            &&& opts[0].key == SwrOptionKey::InChannelCount
        }),
{
}

/// Whatever its channel layout, the shared resampler is told the decoder's
/// channel count as input channel count, and converts to two channels of
/// front left and right, 48 kHz, signed 16-bit samples.
pub proof fn lemma_shared_resampler_values(codec: AudioCodecParams)
    ensures
        shared_resampler_options(codec) matches Some(opts) ==> {
            &&& opts[0] == (SwrOption { key: SwrOptionKey::InChannelCount, value: codec.channels as i64 })
            &&& opts[4] == (SwrOption { key: SwrOptionKey::OutChannelCount, value: 2 })
            &&& opts[5] == (SwrOption { key: SwrOptionKey::OutChannelLayout, value: 3 })
            &&& opts[6] == (SwrOption { key: SwrOptionKey::OutSampleRate, value: 48000 })
            &&& opts[7] == (SwrOption { key: SwrOptionKey::OutSampleFmt, value: 1 })
        },
{
    assert(CH_FRONT_LEFT | CH_FRONT_RIGHT == 3u64) by (bit_vector);
}

/// After a successful conversion the buffer is measured for the channels of
/// the requested output layout (1 for mono, 2 for stereo, 3 otherwise), for
/// the converted samples and the requested output format.
pub proof fn lemma_measured_channels(
    req: ResampleRequest,
    delay: i64,
    out_nb_samples: i64,
    converted: i32,
)
    requires
        resample_start(req).1 == ResampleAction::Configure,
        out_nb_samples > 0,
        converted >= 0,
    ensures
        ({
            let s0 = resample_start(req).0;
            let s1 = resample_step(s0, ResampleEvent::Delay(delay)).0;
            let s2 = resample_step(s1, ResampleEvent::Samples { out_nb_samples, context_missing: false }).0;
            resample_step(s2, ResampleEvent::Converted(converted)).1 == (ResampleAction::MeasureBuffer {
                channels: channels_for(req.out_channels),
                samples: converted,
                fmt: req.out_sample_fmt,
            })
        }),
{
    crate::channel::lemma_out_layout_channels(req.out_channels);
}

} // verus!
