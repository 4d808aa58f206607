use vstd::prelude::*;

use crate::consts::NOPTS_VALUE;
use crate::pts::{can_correct, chosen_pts, corrected_state, PtsCorrection};
use crate::resample::SAMPLE_FMT_S16;
use crate::stream::{classify_packet, packet_kind, PacketKind};
use crate::subtitle::{last_text_rect, subtitle_text_source, SubtitleKind, SubtitleText};

verus! {

/// Channel count that decoded audio is converted to.
pub const DECODE_OUT_CHANNELS: i32 = 2i32;

/// Whether a timestamp, taken to a double, equals the no-timestamp value
/// taken to a double. Doubles just above -2^63 are 1024 apart and the
/// conversion rounds to nearest, ties to even, so this holds exactly for the
/// values at most 512 above the no-timestamp value.
pub open spec fn reads_as_no_timestamp(p: i64) -> bool {
    p <= NOPTS_VALUE + 512
}

/// The timestamp of a decoded video frame before it is scaled by the stream's
/// time base: the corrected timestamp when the packet had a decoding
/// timestamp (0 where it reads as no timestamp), else 0.
pub open spec fn video_pts_of(s: PtsCorrection, packet_dts_set: bool, frame_pts: i64, frame_dts: i64) -> i64 {
    if packet_dts_set {
        let p = chosen_pts(s, frame_pts, frame_dts);
        if reads_as_no_timestamp(p) { 0 } else { p }
    } else {
        0
    }
}

/// Computes the timestamp of a decoded video frame; the correction counters
/// are updated only when the packet had a decoding timestamp.
pub fn video_frame_pts(corr: &mut PtsCorrection, packet_dts_set: bool, frame_pts: i64, frame_dts: i64) -> (p: i64)
    requires
        packet_dts_set ==> can_correct(*old(corr), frame_pts, frame_dts),
    ensures
        p == video_pts_of(*old(corr), packet_dts_set, frame_pts, frame_dts),
        packet_dts_set ==> *final(corr) == corrected_state(*old(corr), frame_pts, frame_dts),
        !packet_dts_set ==> *final(corr) == *old(corr),
{
    if packet_dts_set {
        let p = corr.guess_correct_pts(frame_pts, frame_dts);
        if p <= NOPTS_VALUE + 512 { 0 } else { p }
    } else {
        0
    }
}

/// The bytes of a frame scaled to 32-bit pixels: four bytes a pixel, width
/// times height pixels.
pub open spec fn video_len_fits(width: i32, height: i32) -> bool {
    i32::MIN <= width * 4 <= i32::MAX && i32::MIN <= (width * 4) * height <= i32::MAX
}

/// Computes the byte length of a frame scaled to 32-bit pixels.
pub fn video_frame_len(width: i32, height: i32) -> (len: i32)
    requires
        video_len_fits(width, height),
    ensures
        len == width * 4 * height,
{
    let line = width * 4;
    line * height
}

/// The error codes that the decoder compares results with:
/// `AVERROR(EAGAIN)`, and what `AVERROR(AVERROR_EOF)` gives.
#[derive(Clone, Copy, Debug, PartialEq, Eq)]
pub struct ErrorCodes {
    pub again: i32,
    pub end_of_stream: i32,
}

/// The streams that a decode call serves.
#[derive(Clone, Copy, Debug, PartialEq, Eq)]
pub struct DecodeStreams {
    pub vstream: isize,
    pub astream: isize,
    pub sstream: isize,
}

/// What a decode call produced.
#[derive(Clone, Copy, Debug, PartialEq, Eq)]
pub enum Output {
    Nothing,
    Video,
    Audio,
    Subtitle,
}

/// Which outside result a decode call waits for next.
#[derive(Clone, Copy, Debug, PartialEq, Eq)]
pub enum DecodeStage {
    AwaitRead,
    AwaitVideoSend,
    AwaitVideoFrame,
    AwaitVideoScale,
    AwaitAudioFrame,
    AwaitAudioSend,
    AwaitAudioDelay,
    AwaitAudioSamples,
    AwaitAudioConversion,
    AwaitAudioBufferSize,
    AwaitSubtitle,
    Finished,
}

/// The state of one decode call (`avcodec_decode`).
#[derive(Clone, Copy, Debug, PartialEq, Eq)]
pub struct Decoding {
    pub stage: DecodeStage,
    pub streams: DecodeStreams,
    pub codes: ErrorCodes,
    /// What reading the packet returned.
    pub read_ret: i32,
    pub packet_pts_set: bool,
    pub packet_dts_set: bool,
    pub output: Output,
    pub got_frame: bool,
    pub video_len: i32,
    pub repeat_pict: i32,
    pub audio_nb_samples: i32,
    pub audio_len: i32,
    pub subtitle: SubtitleText,
}

/// An outside result that the decode call was waiting for.
#[derive(Clone, Debug)]
pub enum DecodeEvent {
    /// `av_read_frame`, with the packet's stream and whether its presentation
    /// and decoding timestamps are set.
    Read { ret: i32, stream_index: i32, pts_set: bool, dts_set: bool },
    /// `avcodec_send_packet` on the video decoder.
    VideoSent(i32),
    /// `avcodec_receive_frame` on the video decoder.
    VideoReceived(i32),
    /// The frame was scaled: the decoder's width and height, and the frame's
    /// `repeat_pict`.
    VideoScaled { width: i32, height: i32, repeat_pict: i32 },
    /// `avcodec_receive_frame` on the audio decoder.
    AudioReceived(i32),
    /// `avcodec_send_packet` on the audio decoder.
    AudioSent(i32),
    /// `swr_get_delay` of the shared resampler, the frame's samples per
    /// channel and the decoder's sample rate.
    AudioDelay { delay: i64, nb_samples: i32, sample_rate: i32 },
    /// The rescaled output sample count.
    AudioSamples(i64),
    /// `swr_convert`.
    AudioConverted(i32),
    /// `av_samples_get_buffer_size`.
    AudioBufferSize(i32),
    /// `avcodec_decode_subtitle2`: bytes used, whether a subtitle came out,
    /// and the kinds of its rectangles.
    SubtitleDecoded { used: i32, got_subtitle: i32, kinds: Vec<SubtitleKind> },
}

/// What a decode call hands back to JavaScript (the timestamps aside).
#[derive(Clone, Copy, Debug, PartialEq, Eq)]
pub enum DecodeReport {
    /// Nothing was decoded.
    Nothing,
    Video { len: i32, repeat_pict: i32 },
    Audio { len: i32 },
    Subtitle(SubtitleText),
    /// Reading the packet returned this nonzero code.
    Error(i32),
}

/// What the caller does next.
#[derive(Clone, Copy, Debug, PartialEq, Eq)]
pub enum DecodeAction {
    ReadPacket,
    SendVideoPacket,
    ReceiveVideoFrame,
    /// Scale the frame into the buffer; its timestamp is corrected when
    /// `correct_pts` holds.
    ScaleVideoFrame { correct_pts: bool },
    ReceiveAudioFrame,
    SendAudioPacket,
    /// Take the frame's timestamp (the packet's when `use_packet_pts`
    /// holds) and report the resampler's delay.
    ResampleAudioFrame { use_packet_pts: bool },
    /// Report `av_rescale_rnd(a, b, c, AV_ROUND_UP)`.
    RescaleAudio { a: i64, b: i64, c: i64 },
    ConvertAudio { out_count: i32, in_count: i32 },
    MeasureAudio { channels: i32, samples: i32, fmt: i32 },
    DecodeSubtitle,
    /// Free the frame (and the subtitle when `free_subtitle` holds) and hand
    /// back the report.
    Finish { report: DecodeReport, free_subtitle: bool },
}

/// The report of a finished decode call: an error when reading did not
/// return 0, else what was decoded.
pub open spec fn report_of(s: Decoding) -> DecodeReport {
    if s.read_ret != 0 {
        DecodeReport::Error(s.read_ret)
    } else {
        match s.output {
            Output::Nothing => DecodeReport::Nothing,
            Output::Video => DecodeReport::Video { len: s.video_len, repeat_pict: s.repeat_pict },
            Output::Audio => DecodeReport::Audio { len: s.audio_len },
            Output::Subtitle => DecodeReport::Subtitle(s.subtitle),
        }
    }
}

/// Ends a decode call.
pub open spec fn finish(s: Decoding, free_subtitle: bool) -> (Decoding, DecodeAction) {
    (
        Decoding { stage: DecodeStage::Finished, ..s },
        DecodeAction::Finish { report: report_of(s), free_subtitle },
    )
}

/// The first state of a decode call, which reads a packet.
pub open spec fn decode_start(streams: DecodeStreams, codes: ErrorCodes) -> (Decoding, DecodeAction) {
    (
        Decoding {
            stage: DecodeStage::AwaitRead,
            streams,
            codes,
            read_ret: 0,
            packet_pts_set: false,
            packet_dts_set: false,
            output: Output::Nothing,
            got_frame: false,
            video_len: 0,
            repeat_pict: 0,
            audio_nb_samples: 0,
            audio_len: 0,
            subtitle: SubtitleText::Empty,
        },
        DecodeAction::ReadPacket,
    )
}

/// The stage at which an event is expected.
pub open spec fn stage_of_event(ev: DecodeEvent) -> DecodeStage {
    match ev {
        DecodeEvent::Read { .. } => DecodeStage::AwaitRead,
        DecodeEvent::VideoSent(_) => DecodeStage::AwaitVideoSend,
        DecodeEvent::VideoReceived(_) => DecodeStage::AwaitVideoFrame,
        DecodeEvent::VideoScaled { .. } => DecodeStage::AwaitVideoScale,
        DecodeEvent::AudioReceived(_) => DecodeStage::AwaitAudioFrame,
        DecodeEvent::AudioSent(_) => DecodeStage::AwaitAudioSend,
        DecodeEvent::AudioDelay { .. } => DecodeStage::AwaitAudioDelay,
        DecodeEvent::AudioSamples(_) => DecodeStage::AwaitAudioSamples,
        DecodeEvent::AudioConverted(_) => DecodeStage::AwaitAudioConversion,
        DecodeEvent::AudioBufferSize(_) => DecodeStage::AwaitAudioBufferSize,
        DecodeEvent::SubtitleDecoded { .. } => DecodeStage::AwaitSubtitle,
    }
}

/// Whether an event is the one the decode call waits for, and its values
/// cause no overflow in the next step.
pub open spec fn decode_event_fits(s: Decoding, ev: DecodeEvent) -> bool {
    &&& s.stage == stage_of_event(ev)
    &&& ev matches DecodeEvent::VideoScaled { width, height, .. } ==> video_len_fits(width, height)
    &&& ev matches DecodeEvent::AudioDelay { delay, nb_samples, .. } ==> i64::MIN <= delay + nb_samples <= i64::MAX
}

/// One step of a decode call.
pub open spec fn decode_step(s: Decoding, ev: DecodeEvent) -> (Decoding, DecodeAction) {
    match ev {
        DecodeEvent::Read { ret, stream_index, pts_set, dts_set } => {
            let t = Decoding { read_ret: ret, packet_pts_set: pts_set, packet_dts_set: dts_set, ..s };
            if ret < 0 {
                finish(t, false)
            } else {
                match packet_kind(stream_index, s.streams.vstream, s.streams.astream, s.streams.sstream) {
                    PacketKind::Video => (
                        Decoding { stage: DecodeStage::AwaitVideoSend, output: Output::Video, ..t },
                        DecodeAction::SendVideoPacket,
                    ),
                    PacketKind::Audio => (
                        Decoding { stage: DecodeStage::AwaitAudioFrame, ..t },
                        DecodeAction::ReceiveAudioFrame,
                    ),
                    PacketKind::Subtitle => (
                        Decoding { stage: DecodeStage::AwaitSubtitle, ..t },
                        DecodeAction::DecodeSubtitle,
                    ),
                    PacketKind::Other => finish(t, false),
                }
            }
        },
        DecodeEvent::VideoSent(ret) => {
            if ret < 0 {
                finish(s, false)
            } else {
                (Decoding { stage: DecodeStage::AwaitVideoFrame, ..s }, DecodeAction::ReceiveVideoFrame)
            }
        },
        DecodeEvent::VideoReceived(ret) => {
            if ret == s.codes.again || ret == s.codes.end_of_stream || ret < 0 {
                finish(s, false)
            } else {
                (
                    Decoding { stage: DecodeStage::AwaitVideoScale, ..s },
                    DecodeAction::ScaleVideoFrame { correct_pts: s.packet_dts_set },
                )
            }
        },
        DecodeEvent::VideoScaled { width, height, repeat_pict } => {
            finish(Decoding { video_len: (width * 4 * height) as i32, repeat_pict, ..s }, false)
        },
        DecodeEvent::AudioReceived(ret) => {
            if ret == 0 || ret == s.codes.again {
                (
                    Decoding { stage: DecodeStage::AwaitAudioSend, got_frame: ret == 0, ..s },
                    DecodeAction::SendAudioPacket,
                )
            } else {
                finish(s, false)
            }
        },
        DecodeEvent::AudioSent(_) => {
            if s.got_frame {
                (
                    Decoding { stage: DecodeStage::AwaitAudioDelay, output: Output::Audio, ..s },
                    DecodeAction::ResampleAudioFrame { use_packet_pts: s.packet_pts_set },
                )
            } else {
                finish(s, false)
            }
        },
        DecodeEvent::AudioDelay { delay, nb_samples, sample_rate } => (
            Decoding { stage: DecodeStage::AwaitAudioSamples, audio_nb_samples: nb_samples, ..s },
            DecodeAction::RescaleAudio {
                a: (delay + nb_samples) as i64,
                b: sample_rate as i64,
                c: sample_rate as i64,
            },
        ),
        DecodeEvent::AudioSamples(n) => (
            Decoding { stage: DecodeStage::AwaitAudioConversion, ..s },
            DecodeAction::ConvertAudio { out_count: n as i32, in_count: s.audio_nb_samples },
        ),
        DecodeEvent::AudioConverted(ret) => (
            Decoding { stage: DecodeStage::AwaitAudioBufferSize, ..s },
            DecodeAction::MeasureAudio { channels: DECODE_OUT_CHANNELS, samples: ret, fmt: SAMPLE_FMT_S16 },
        ),
        DecodeEvent::AudioBufferSize(size) => finish(Decoding { audio_len: size, ..s }, false),
        DecodeEvent::SubtitleDecoded { used, got_subtitle, kinds } => {
            if used < 0 {
                finish(s, false)
            } else if got_subtitle == 1 {
                finish(
                    Decoding { output: Output::Subtitle, subtitle: last_text_rect(kinds@), ..s },
                    true,
                )
            } else {
                finish(s, false)
            }
        },
    }
}

impl Decoding {
    /// Starts a decode call.
    pub fn start(streams: DecodeStreams, codes: ErrorCodes) -> (r: (Decoding, DecodeAction))
        ensures
            r == decode_start(streams, codes),
    {
        (
            Decoding {
                stage: DecodeStage::AwaitRead,
                streams,
                codes,
                read_ret: 0,
                packet_pts_set: false,
                packet_dts_set: false,
                output: Output::Nothing,
                got_frame: false,
                video_len: 0,
                repeat_pict: 0,
                audio_nb_samples: 0,
                audio_len: 0,
                subtitle: SubtitleText::Empty,
            },
            DecodeAction::ReadPacket,
        )
    }

    /// The report of this decode call as it stands.
    pub fn report(&self) -> (r: DecodeReport)
        ensures
            r == report_of(*self),
    {
        if self.read_ret != 0 {
            DecodeReport::Error(self.read_ret)
        } else {
            match self.output {
                Output::Nothing => DecodeReport::Nothing,
                Output::Video => DecodeReport::Video { len: self.video_len, repeat_pict: self.repeat_pict },
                Output::Audio => DecodeReport::Audio { len: self.audio_len },
                Output::Subtitle => DecodeReport::Subtitle(self.subtitle),
            }
        }
    }

    fn finish(self, free_subtitle: bool) -> (r: (Decoding, DecodeAction))
        ensures
            r == finish(self, free_subtitle),
    {
        let report = self.report();
        (Decoding { stage: DecodeStage::Finished, ..self }, DecodeAction::Finish { report, free_subtitle })
    }

    /// Takes the outside result the decode call waited for and decides the
    /// next action.
    pub fn step(self, ev: DecodeEvent) -> (r: (Decoding, DecodeAction))
        requires
            decode_event_fits(self, ev),
        ensures
            r == decode_step(self, ev),
            ev matches DecodeEvent::AudioReceived(ret) ==> (if ret == 0 || ret == self.codes.again {
                r.1 == DecodeAction::SendAudioPacket && r.0.got_frame == (ret == 0)
            } else {
                r.1 is Finish
            }),
            ev matches DecodeEvent::AudioSent(_) ==> (if self.got_frame {
                r.1 == (DecodeAction::ResampleAudioFrame { use_packet_pts: self.packet_pts_set })
                    && r.0.output == Output::Audio
            } else {
                r.1 is Finish
            }),
            ev matches DecodeEvent::AudioDelay { delay, nb_samples, sample_rate } ==> r.1 == (
            DecodeAction::RescaleAudio {
                a: (delay + nb_samples) as i64,
                b: sample_rate as i64,
                c: sample_rate as i64,
            }) && r.0.audio_nb_samples == nb_samples,
            ev matches DecodeEvent::AudioSamples(n) ==> r.1 == (DecodeAction::ConvertAudio {
                out_count: n as i32,
                in_count: self.audio_nb_samples,
            }),
            ev matches DecodeEvent::AudioConverted(ret) ==> r.1 == (DecodeAction::MeasureAudio {
                channels: 2,
                samples: ret,
                fmt: 1,
            }),
            ev matches DecodeEvent::AudioBufferSize(size) ==> r.1 == (DecodeAction::Finish {
                report: if self.read_ret != 0 {
                    DecodeReport::Error(self.read_ret)
                } else if self.output == Output::Audio {
                    DecodeReport::Audio { len: size }
                } else {
                    report_of(self)
                },
                free_subtitle: false,
            }),
            ev matches DecodeEvent::VideoSent(ret) ==> (if ret < 0 {
                r.1 is Finish
            } else {
                r.1 == DecodeAction::ReceiveVideoFrame
            }),
            ev matches DecodeEvent::VideoReceived(ret) ==> (if ret < 0 || ret == self.codes.again || ret
                == self.codes.end_of_stream {
                r.1 is Finish
            } else {
                r.1 == (DecodeAction::ScaleVideoFrame { correct_pts: self.packet_dts_set })
            }),
            ev matches DecodeEvent::SubtitleDecoded { used, got_subtitle, kinds } ==> (if used >= 0
                && got_subtitle == 1 && self.read_ret == 0 {
                r.1 == (DecodeAction::Finish {
                    report: DecodeReport::Subtitle(last_text_rect(kinds@)),
                    free_subtitle: true,
                })
            } else {
                r.1 is Finish
            }),
    {
        match ev {
            DecodeEvent::Read { ret, stream_index, pts_set, dts_set } => {
                let t = Decoding { read_ret: ret, packet_pts_set: pts_set, packet_dts_set: dts_set, ..self };
                if ret < 0 {
                    t.finish(false)
                } else {
                    match classify_packet(stream_index, self.streams.vstream, self.streams.astream, self.streams.sstream) {
                        PacketKind::Video => (
                            Decoding { stage: DecodeStage::AwaitVideoSend, output: Output::Video, ..t },
                            DecodeAction::SendVideoPacket,
                        ),
                        PacketKind::Audio => (
                            Decoding { stage: DecodeStage::AwaitAudioFrame, ..t },
                            DecodeAction::ReceiveAudioFrame,
                        ),
                        PacketKind::Subtitle => (
                            Decoding { stage: DecodeStage::AwaitSubtitle, ..t },
                            DecodeAction::DecodeSubtitle,
                        ),
                        PacketKind::Other => t.finish(false),
                    }
                }
            },
            DecodeEvent::VideoSent(ret) => {
                if ret < 0 {
                    self.finish(false)
                } else {
                    (Decoding { stage: DecodeStage::AwaitVideoFrame, ..self }, DecodeAction::ReceiveVideoFrame)
                }
            },
            DecodeEvent::VideoReceived(ret) => {
                if ret == self.codes.again || ret == self.codes.end_of_stream || ret < 0 {
                    self.finish(false)
                } else {
                    (
                        Decoding { stage: DecodeStage::AwaitVideoScale, ..self },
                        DecodeAction::ScaleVideoFrame { correct_pts: self.packet_dts_set },
                    )
                }
            },
            DecodeEvent::VideoScaled { width, height, repeat_pict } => {
                let len = video_frame_len(width, height);
                Decoding { video_len: len, repeat_pict, ..self }.finish(false)
            },
            DecodeEvent::AudioReceived(ret) => {
                if ret == 0 || ret == self.codes.again {
                    (
                        Decoding { stage: DecodeStage::AwaitAudioSend, got_frame: ret == 0, ..self },
                        DecodeAction::SendAudioPacket,
                    )
                } else {
                    self.finish(false)
                }
            },
            DecodeEvent::AudioSent(_) => {
                if self.got_frame {
                    (
                        Decoding { stage: DecodeStage::AwaitAudioDelay, output: Output::Audio, ..self },
                        DecodeAction::ResampleAudioFrame { use_packet_pts: self.packet_pts_set },
                    )
                } else {
                    self.finish(false)
                }
            },
            DecodeEvent::AudioDelay { delay, nb_samples, sample_rate } => (
                Decoding { stage: DecodeStage::AwaitAudioSamples, audio_nb_samples: nb_samples, ..self },
                DecodeAction::RescaleAudio {
                    a: delay + nb_samples as i64,
                    b: sample_rate as i64,
                    c: sample_rate as i64,
                },
            ),
            DecodeEvent::AudioSamples(n) => (
                Decoding { stage: DecodeStage::AwaitAudioConversion, ..self },
                DecodeAction::ConvertAudio { out_count: n as i32, in_count: self.audio_nb_samples },
            ),
            DecodeEvent::AudioConverted(ret) => (
                Decoding { stage: DecodeStage::AwaitAudioBufferSize, ..self },
                DecodeAction::MeasureAudio { channels: DECODE_OUT_CHANNELS, samples: ret, fmt: SAMPLE_FMT_S16 },
            ),
            DecodeEvent::AudioBufferSize(size) => Decoding { audio_len: size, ..self }.finish(false),
            DecodeEvent::SubtitleDecoded { used, got_subtitle, kinds } => {
                if used < 0 {
                    self.finish(false)
                } else if got_subtitle == 1 {
                    let text = subtitle_text_source(&kinds);
                    Decoding { output: Output::Subtitle, subtitle: text, ..self }.finish(true)
                } else {
                    self.finish(false)
                }
            },
        }
    }
}

/// How many outside results a decode call can still take at a stage.
pub open spec fn decode_rank(stage: DecodeStage) -> nat {
    match stage {
        DecodeStage::AwaitRead => 7,
        DecodeStage::AwaitVideoSend => 3,
        DecodeStage::AwaitVideoFrame => 2,
        DecodeStage::AwaitVideoScale => 1,
        DecodeStage::AwaitAudioFrame => 6,
        DecodeStage::AwaitAudioSend => 5,
        DecodeStage::AwaitAudioDelay => 4,
        DecodeStage::AwaitAudioSamples => 3,
        DecodeStage::AwaitAudioConversion => 2,
        DecodeStage::AwaitAudioBufferSize => 1,
        DecodeStage::AwaitSubtitle => 1,
        DecodeStage::Finished => 0,
    }
}

/// Every step moves a decode call to a later stage, and it is finished
/// exactly when its action is `Finish`: a decode call reads one packet and
/// takes at most seven outside results, and a finished one takes none.
pub proof fn lemma_decode_progress(s: Decoding, ev: DecodeEvent)
    requires
        decode_event_fits(s, ev),
    ensures
        decode_rank(decode_step(s, ev).0.stage) < decode_rank(s.stage),
        (decode_step(s, ev).0.stage == DecodeStage::Finished) == (decode_step(s, ev).1 is Finish),
        s.stage != DecodeStage::Finished,
{
}

/// A decode call starts by reading a packet, with nothing decoded yet.
pub proof fn lemma_decode_start(streams: DecodeStreams, codes: ErrorCodes)
    ensures
        decode_start(streams, codes).1 == DecodeAction::ReadPacket,
        decode_rank(decode_start(streams, codes).0.stage) == 7,
        report_of(decode_start(streams, codes).0) == DecodeReport::Nothing,
{
}

/// Only reading changes what the read returned; a finished decode call
/// reports an error exactly when reading did not return 0, and then the
/// error is what reading returned.
pub proof fn lemma_decode_error_report(s: Decoding, ev: DecodeEvent)
    requires
        decode_event_fits(s, ev),
    ensures
        ({
            let (t, a) = decode_step(s, ev);
            &&& !(ev is Read) ==> t.read_ret == s.read_ret
            &&& ev matches DecodeEvent::Read { ret, .. } ==> t.read_ret == ret
            &&& a matches DecodeAction::Finish { report, .. } ==> {
                &&& report == report_of(t)
                &&& (report is Error) == (t.read_ret != 0)
                &&& report is Error ==> report == DecodeReport::Error(t.read_ret)
            }
        }),
{
}

/// A failed read ends the decode call at once with that error.
pub proof fn lemma_failed_read(s: Decoding, ret: i32, stream_index: i32, pts_set: bool, dts_set: bool)
    requires
        s.stage == DecodeStage::AwaitRead,
        ret < 0,
    ensures
        decode_step(s, DecodeEvent::Read { ret, stream_index, pts_set, dts_set }).1
            == (DecodeAction::Finish { report: DecodeReport::Error(ret), free_subtitle: false }),
{
}

/// A scaled video frame reports four bytes a pixel of the decoder's size.
pub proof fn lemma_video_report(s: Decoding, width: i32, height: i32, repeat_pict: i32)
    requires
        s.stage == DecodeStage::AwaitVideoScale,
        s.read_ret == 0,
        s.output == Output::Video,
        video_len_fits(width, height),
    ensures
        decode_step(s, DecodeEvent::VideoScaled { width, height, repeat_pict }).1 == (DecodeAction::Finish {
            report: DecodeReport::Video { len: (width * 4 * height) as i32, repeat_pict },
            free_subtitle: false,
        }),
{
}

/// Only a decoded subtitle is freed, and only one that was produced.
pub proof fn lemma_subtitle_freed(s: Decoding, ev: DecodeEvent)
    requires
        decode_event_fits(s, ev),
    ensures
        decode_step(s, ev).1 matches DecodeAction::Finish { free_subtitle, .. } ==> (free_subtitle
            <==> (ev matches DecodeEvent::SubtitleDecoded { used, got_subtitle, .. } && used >= 0
            && got_subtitle == 1)),
{
}

/// A packet that was read goes to the decoder of the first selected stream
/// whose index it carries (video, then audio, then subtitle, any index
/// including 0); a packet of no selected stream ends the call with nothing.
pub proof fn lemma_read_routing(s: Decoding, ret: i32, stream_index: i32, pts_set: bool, dts_set: bool)
    requires
        s.stage == DecodeStage::AwaitRead,
        ret >= 0,
    ensures
        ({
            let a = decode_step(s, DecodeEvent::Read { ret, stream_index, pts_set, dts_set }).1;
            let v = s.streams.vstream as i32;
            let au = s.streams.astream as i32;
            let su = s.streams.sstream as i32;
            &&& stream_index == v ==> a == DecodeAction::SendVideoPacket
            &&& stream_index != v && stream_index == au ==> a == DecodeAction::ReceiveAudioFrame
            &&& stream_index != v && stream_index != au && stream_index == su ==> a == DecodeAction::DecodeSubtitle
            &&& stream_index != v && stream_index != au && stream_index != su ==> a is Finish
        }),
{
    crate::stream::lemma_packet_routing(stream_index, s.streams.vstream, s.streams.astream, s.streams.sstream);
}

} // verus!
