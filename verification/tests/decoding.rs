use neon_ffmpeg::decode::{
    video_frame_len, DecodeAction, DecodeEvent, DecodeReport, DecodeStage, DecodeStreams, Decoding, ErrorCodes,
};
use neon_ffmpeg::subtitle::{subtitle_text_source, SubtitleKind, SubtitleText};

const CODES: ErrorCodes = ErrorCodes { again: -11, end_of_stream: 541_478_725 };
const STREAMS: DecodeStreams = DecodeStreams { vstream: 0, astream: 1, sstream: 2 };

fn read(stream_index: i32) -> (Decoding, DecodeAction) {
    let (s, a) = Decoding::start(STREAMS, CODES);
    assert_eq!(a, DecodeAction::ReadPacket);
    s.step(DecodeEvent::Read { ret: 0, stream_index, pts_set: true, dts_set: true })
}

fn finish(report: DecodeReport) -> DecodeAction {
    DecodeAction::Finish { report, free_subtitle: false }
}

#[test]
fn video_frame_decoded() {
    let (s, a) = read(0);
    assert_eq!(a, DecodeAction::SendVideoPacket);
    let (s, a) = s.step(DecodeEvent::VideoSent(0));
    assert_eq!(a, DecodeAction::ReceiveVideoFrame);
    let (s, a) = s.step(DecodeEvent::VideoReceived(0));
    assert_eq!(a, DecodeAction::ScaleVideoFrame { correct_pts: true });
    let (s, a) = s.step(DecodeEvent::VideoScaled { width: 640, height: 480, repeat_pict: 1 });
    assert_eq!(a, finish(DecodeReport::Video { len: 1_228_800, repeat_pict: 1 }));
    assert_eq!(s.stage, DecodeStage::Finished);
}

#[test]
fn video_without_dts_skips_correction() {
    let (s, _) = Decoding::start(STREAMS, CODES);
    let (s, _) = s.step(DecodeEvent::Read { ret: 0, stream_index: 0, pts_set: true, dts_set: false });
    let (s, _) = s.step(DecodeEvent::VideoSent(0));
    assert_eq!(s.step(DecodeEvent::VideoReceived(0)).1, DecodeAction::ScaleVideoFrame { correct_pts: false });
}

#[test]
fn video_errors_still_report_video() {
    let empty = finish(DecodeReport::Video { len: 0, repeat_pict: 0 });
    let (s, _) = read(0);
    assert_eq!(s.step(DecodeEvent::VideoSent(-22)).1, empty);
    let (s, _) = s.step(DecodeEvent::VideoSent(0));
    assert_eq!(s.step(DecodeEvent::VideoReceived(-11)).1, empty);
    assert_eq!(s.step(DecodeEvent::VideoReceived(-541_478_725)).1, empty);
    assert_eq!(s.step(DecodeEvent::VideoReceived(541_478_725)).1, empty);
}

#[test]
fn audio_frame_decoded() {
    let (s, a) = read(1);
    assert_eq!(a, DecodeAction::ReceiveAudioFrame);
    let (s, a) = s.step(DecodeEvent::AudioReceived(0));
    assert_eq!(a, DecodeAction::SendAudioPacket);
    let (s, a) = s.step(DecodeEvent::AudioSent(0));
    assert_eq!(a, DecodeAction::ResampleAudioFrame { use_packet_pts: true });
    let (s, a) = s.step(DecodeEvent::AudioDelay { delay: 5, nb_samples: 1024, sample_rate: 48000 });
    assert_eq!(a, DecodeAction::RescaleAudio { a: 1029, b: 48000, c: 48000 });
    let (s, a) = s.step(DecodeEvent::AudioSamples(1029));
    assert_eq!(a, DecodeAction::ConvertAudio { out_count: 1029, in_count: 1024 });
    let (s, a) = s.step(DecodeEvent::AudioConverted(1024));
    assert_eq!(a, DecodeAction::MeasureAudio { channels: 2, samples: 1024, fmt: 1 });
    let (_, a) = s.step(DecodeEvent::AudioBufferSize(4096));
    assert_eq!(a, finish(DecodeReport::Audio { len: 4096 }));
}

#[test]
fn audio_again_sends_but_reports_nothing() {
    let (s, _) = read(1);
    let (s, a) = s.step(DecodeEvent::AudioReceived(-11));
    assert_eq!(a, DecodeAction::SendAudioPacket);
    assert_eq!(s.step(DecodeEvent::AudioSent(0)).1, finish(DecodeReport::Nothing));
}

#[test]
fn audio_receive_error_reports_nothing() {
    let (s, _) = read(1);
    assert_eq!(s.step(DecodeEvent::AudioReceived(-22)).1, finish(DecodeReport::Nothing));
}

#[test]
fn audio_failed_conversion_reports_buffer_size() {
    let (s, _) = read(1);
    let (s, _) = s.step(DecodeEvent::AudioReceived(0));
    let (s, _) = s.step(DecodeEvent::AudioSent(-22));
    let (s, _) = s.step(DecodeEvent::AudioDelay { delay: 0, nb_samples: 0, sample_rate: 44100 });
    let (s, a) = s.step(DecodeEvent::AudioSamples(1i64 << 32));
    assert_eq!(a, DecodeAction::ConvertAudio { out_count: 0, in_count: 0 });
    let (s, _) = s.step(DecodeEvent::AudioConverted(-22));
    assert_eq!(s.step(DecodeEvent::AudioBufferSize(-22)).1, finish(DecodeReport::Audio { len: -22 }));
}

#[test]
fn subtitle_decoded() {
    let (s, a) = read(2);
    assert_eq!(a, DecodeAction::DecodeSubtitle);
    let kinds = vec![SubtitleKind::Text, SubtitleKind::Bitmap, SubtitleKind::Ass, SubtitleKind::Bitmap];
    let (_, a) = s.step(DecodeEvent::SubtitleDecoded { used: 10, got_subtitle: 1, kinds });
    assert_eq!(
        a,
        DecodeAction::Finish { report: DecodeReport::Subtitle(SubtitleText::Ass(2)), free_subtitle: true }
    );
}

#[test]
fn subtitle_not_produced_or_failed() {
    let (s, _) = read(2);
    let none = finish(DecodeReport::Nothing);
    assert_eq!(s.clone().step(DecodeEvent::SubtitleDecoded { used: -1, got_subtitle: 1, kinds: vec![] }).1, none);
    assert_eq!(s.step(DecodeEvent::SubtitleDecoded { used: 5, got_subtitle: 0, kinds: vec![] }).1, none);
}

#[test]
fn read_errors_and_other_streams() {
    let (s, _) = Decoding::start(STREAMS, CODES);
    assert_eq!(
        s.step(DecodeEvent::Read { ret: -541_478_725, stream_index: 0, pts_set: false, dts_set: false }).1,
        finish(DecodeReport::Error(-541_478_725))
    );
    assert_eq!(read(7).1, finish(DecodeReport::Nothing));
    let (s, _) = Decoding::start(STREAMS, CODES);
    let (s, _) = s.step(DecodeEvent::Read { ret: 1, stream_index: 0, pts_set: false, dts_set: false });
    let (s, _) = s.step(DecodeEvent::VideoSent(0));
    let (s, _) = s.step(DecodeEvent::VideoReceived(0));
    assert_eq!(
        s.step(DecodeEvent::VideoScaled { width: 2, height: 2, repeat_pict: 0 }).1,
        finish(DecodeReport::Error(1))
    );
}

#[test]
fn subtitle_text_sources() {
    assert_eq!(subtitle_text_source(&vec![]), SubtitleText::Empty);
    assert_eq!(subtitle_text_source(&vec![SubtitleKind::Bitmap, SubtitleKind::Blank]), SubtitleText::Empty);
    assert_eq!(subtitle_text_source(&vec![SubtitleKind::Text]), SubtitleText::Plain(0));
    assert_eq!(
        subtitle_text_source(&vec![SubtitleKind::Ass, SubtitleKind::Text, SubtitleKind::Bitmap]),
        SubtitleText::Plain(1)
    );
}

#[test]
fn frame_lengths() {
    assert_eq!(video_frame_len(1920, 1080), 8_294_400);
    assert_eq!(video_frame_len(0, 1080), 0);
}
