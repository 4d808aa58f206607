use neon_ffmpeg::resample::{
    avcodec_resampler_options, AudioCodecParams, ResampleAction, ResampleEvent, ResampleRequest,
    ResampleStage, Resampling, SwrOption, SwrOptionKey,
};

fn codec() -> AudioCodecParams {
    AudioCodecParams { channels: 2, channel_layout: 3, default_layout: 3, sample_rate: 44100, sample_fmt: 8 }
}

fn request() -> ResampleRequest {
    ResampleRequest { codec: codec(), nb_samples: 1024, out_channels: 2, out_sample_rate: 48000, out_sample_fmt: 1 }
}

#[test]
fn option_names() {
    assert_eq!(SwrOptionKey::InChannelCount.name(), "in_channel_count");
    assert_eq!(SwrOptionKey::InChannelLayout.name(), "in_channel_layout");
    assert_eq!(SwrOptionKey::InSampleRate.name(), "in_sample_rate");
    assert_eq!(SwrOptionKey::InSampleFmt.name(), "in_sample_fmt");
    assert_eq!(SwrOptionKey::OutChannelCount.name(), "out_channel_count");
    assert_eq!(SwrOptionKey::OutChannelLayout.name(), "out_channel_layout");
    assert_eq!(SwrOptionKey::OutSampleRate.name(), "out_sample_rate");
    assert_eq!(SwrOptionKey::OutSampleFmt.name(), "out_sample_fmt");
    assert!(SwrOptionKey::InSampleFmt.is_sample_fmt());
    assert!(SwrOptionKey::OutSampleFmt.is_sample_fmt());
    assert!(!SwrOptionKey::OutSampleRate.is_sample_fmt());
}

#[test]
fn shared_resampler_converts_to_stereo_s16_48k() {
    let opts = avcodec_resampler_options(&codec()).unwrap();
    let expected = vec![
        SwrOption { key: SwrOptionKey::InChannelCount, value: 2 },
        SwrOption { key: SwrOptionKey::InChannelLayout, value: 2 },
        SwrOption { key: SwrOptionKey::InSampleRate, value: 44100 },
        SwrOption { key: SwrOptionKey::InSampleFmt, value: 8 },
        SwrOption { key: SwrOptionKey::OutChannelCount, value: 2 },
        SwrOption { key: SwrOptionKey::OutChannelLayout, value: 3 },
        SwrOption { key: SwrOptionKey::OutSampleRate, value: 48000 },
        SwrOption { key: SwrOptionKey::OutSampleFmt, value: 1 },
    ];
    assert_eq!(opts, expected);
}

#[test]
fn shared_resampler_gives_up_on_negative_layout() {
    let c = AudioCodecParams { channels: 5, channel_layout: 3, default_layout: -1, sample_rate: 8000, sample_fmt: 1 };
    assert_eq!(avcodec_resampler_options(&c), None);
    let c = AudioCodecParams { channels: 5, channel_layout: 3, default_layout: 0, sample_rate: 8000, sample_fmt: 1 };
    assert_eq!(avcodec_resampler_options(&c).unwrap()[1], SwrOption { key: SwrOptionKey::InChannelLayout, value: 0 });
}

#[test]
fn resampling_success_run() {
    let (s, a) = Resampling::start(request());
    assert_eq!(a, ResampleAction::Configure);
    assert_eq!(s.out_nb_channels, 2);
    let opts = s.options();
    assert_eq!(opts.len(), 8);
    assert_eq!(opts[5], SwrOption { key: SwrOptionKey::OutChannelLayout, value: 3 });
    let (s, a) = s.step(ResampleEvent::Delay(16));
    assert_eq!(a, ResampleAction::Rescale { a: 1040, b: 48000, c: 44100 });
    let (s, a) = s.step(ResampleEvent::Samples { out_nb_samples: 1132, context_missing: false });
    assert_eq!(a, ResampleAction::Convert { out_count: 1132, in_count: 1024 });
    let (s, a) = s.step(ResampleEvent::Converted(1100));
    assert_eq!(a, ResampleAction::MeasureBuffer { channels: 2, samples: 1100, fmt: 1 });
    let (s, a) = s.step(ResampleEvent::BufferSize(4400));
    assert_eq!(a, ResampleAction::Done { result: 4400, free_context: true });
    assert_eq!(s.stage, ResampleStage::Finished);
}

#[test]
fn resampling_fails_on_bad_layout_or_samples() {
    let mut r = request();
    r.codec = AudioCodecParams { channels: 5, channel_layout: 3, default_layout: -7, sample_rate: 8000, sample_fmt: 1 };
    let (s, a) = Resampling::start(r);
    assert_eq!(a, ResampleAction::Done { result: -1, free_context: false });
    assert_eq!(s.stage, ResampleStage::Finished);
    let mut r = request();
    r.nb_samples = 0;
    assert_eq!(Resampling::start(r).1, ResampleAction::Done { result: -1, free_context: false });
}

#[test]
fn resampling_fails_on_each_later_check() {
    let failed = ResampleAction::Done { result: -1, free_context: false };
    let (s, _) = Resampling::start(request());
    let (s, _) = s.step(ResampleEvent::Delay(0));
    assert_eq!(s.step(ResampleEvent::Samples { out_nb_samples: 0, context_missing: false }).1, failed);
    assert_eq!(s.step(ResampleEvent::Samples { out_nb_samples: 10, context_missing: true }).1, failed);
    let (s, _) = s.step(ResampleEvent::Samples { out_nb_samples: 10, context_missing: false });
    assert_eq!(s.step(ResampleEvent::Converted(-22)).1, failed);
    let (s, _) = s.step(ResampleEvent::Converted(0));
    assert_eq!(s.step(ResampleEvent::BufferSize(-22)).1, failed);
    assert_eq!(s.step(ResampleEvent::BufferSize(0)).1, ResampleAction::Done { result: 0, free_context: true });
}

#[test]
fn resampling_mono_and_surround_layouts() {
    let mut r = request();
    r.out_channels = 1;
    let (s, _) = Resampling::start(r);
    assert_eq!(s.out_layout, 4);
    assert_eq!(s.out_nb_channels, 1);
    r.out_channels = 6;
    let (s, _) = Resampling::start(r);
    assert_eq!(s.out_layout, 7);
    assert_eq!(s.out_nb_channels, 3);
    assert_eq!(s.options()[4], SwrOption { key: SwrOptionKey::OutChannelCount, value: 2 });
}
