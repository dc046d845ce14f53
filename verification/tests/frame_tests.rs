use rtmp_core::av_formats::AVChannelOrder;
use rtmp_core::av_formats::AVPictureType;
use rtmp_core::av_formats::AVPixelFormat;
use rtmp_core::av_formats::AVSampleFormat;
use rtmp_core::frame::AVChannelLayout;
use rtmp_core::frame::AudioChannelLayout;
use rtmp_core::frame::GenericFrame;
use rtmp_core::frame::VideoFrame;
use rtmp_core::rational::Rational;

#[test]
fn test_frame_clone() {
    let mut frame = VideoFrame::new().expect("Failed to create frame");
    frame.set_format(AVPixelFormat::yuv420p().into());

    frame.set_width(16);
    frame.set_height(16);

    frame.alloc_frame_buffer(Some(32)).expect("Failed to allocate frame buffer");

    frame.set_pts(Some(12));
    frame.set_dts(Some(34));
    frame.set_duration(Some(5));
    frame.set_time_base(Rational::new(1, 30));
    frame.set_format(AVPixelFormat::yuv420p().into());

    let cloned_frame = frame.clone();

    assert_eq!(
        format!("{:?}", frame),
        format!("{:?}", cloned_frame),
        "Cloned frame should be equal to the original frame."
    );
}

#[test]
fn test_audio_conversion() {
    let frame = GenericFrame::new().expect("Failed to create frame");
    let mut audio_frame = frame.audio();

    assert!(audio_frame.set_channel_layout_default(2).is_ok());
    assert!(audio_frame.is_audio(), "The frame should be identified as audio.");
    assert!(!audio_frame.is_video(), "The frame should not be identified as video.");
}

#[test]
fn test_set_format() {
    let mut frame = GenericFrame::new().expect("Failed to create frame");
    frame.set_format(AVPixelFormat::yuv420p().into());
    assert_eq!(
        frame.format(),
        AVPixelFormat::yuv420p().0,
        "The format should match the set value."
    );

    frame.set_format(AVPixelFormat::rgb24().into());
    assert_eq!(
        frame.format(),
        AVPixelFormat::rgb24().0,
        "The format should match the updated value."
    );
}

#[test]
fn test_linesize() {
    let mut frame = VideoFrame::new().expect("Failed to create frame");
    frame.set_format(AVPixelFormat::yuv420p().into());
    frame.set_width(1920);
    frame.set_height(1080);

    frame.alloc_frame_buffer(Some(32)).expect("Failed to allocate frame buffer");

    assert!(
        frame.linesize(0).unwrap_or(0) > 0,
        "Linesize should be greater than zero for valid index."
    );

    assert!(
        frame.linesize(100).is_none(),
        "Linesize at an invalid index should return None."
    );
}

#[test]
fn test_sample_aspect_ratio() {
    let frame = GenericFrame::new().expect("Failed to create frame");
    let mut video_frame = frame.video();
    let sample_aspect_ratio = Rational::new(16, 9);
    video_frame.set_sample_aspect_ratio(sample_aspect_ratio);

    assert_eq!(
        video_frame.sample_aspect_ratio(),
        sample_aspect_ratio,
        "Sample aspect ratio should match the set value."
    );
}

#[test]
fn test_pict_type() {
    let frame = GenericFrame::new().expect("Failed to create frame");
    let mut video_frame = frame.video();
    video_frame.set_pict_type(AVPictureType::intra());

    assert_eq!(
        video_frame.pict_type(),
        AVPictureType::intra(),
        "Picture type should match the set value."
    );
}

#[test]
fn test_set_channel_layout_default_invalid_count_error() {
    let frame = GenericFrame::new().expect("Failed to create frame");
    let mut audio_frame = frame.audio();

    assert!(
        audio_frame.set_channel_layout_default(usize::MAX).is_err(),
        "Expected error for invalid channel count."
    );
}

#[test]
fn test_set_channel_layout_custom_invalid_layout_error() {
    let frame = GenericFrame::new().expect("Failed to create frame");
    let mut audio_frame = frame.audio();
    let custom_layout = AudioChannelLayout::wrap(AVChannelLayout {
        order: AVChannelOrder::native().0,
        nb_channels: -1,
        mask: 2,
    });

    assert!(
        audio_frame.set_channel_layout_custom(custom_layout).is_err(),
        "Expected error for invalid custom channel layout"
    );
}

#[test]
fn test_set_channel_layout_custom() {
    let frame = GenericFrame::new().expect("Failed to create frame");
    let mut audio_frame = frame.audio();
    let custom_layout = AudioChannelLayout::wrap(AVChannelLayout {
        order: AVChannelOrder::native().0,
        nb_channels: 2,
        mask: 3,
    });

    assert!(
        audio_frame.set_channel_layout_custom(custom_layout).is_ok(),
        "Failed to set custom channel layout"
    );

    let layout = audio_frame.channel_layout();
    assert_eq!(layout.nb_channels, 2, "Expected channel layout to have 2 channels (stereo).");
    assert_eq!(layout.mask, 3, "Expected channel mask to match AV_CH_LAYOUT_STEREO.");
    assert_eq!(
        AVChannelOrder(layout.order),
        AVChannelOrder::native(),
        "Expected channel order to be AV_CHANNEL_ORDER_NATIVE."
    );
}

#[test]
fn test_nb_samples() {
    let mut frame = GenericFrame::new().expect("Failed to create frame");
    frame.set_format(AVSampleFormat::s16().into());
    let mut audio_frame = frame.audio();
    audio_frame.set_nb_samples(1024);

    assert_eq!(
        audio_frame.nb_samples(),
        1024,
        "The number of samples should match the set value."
    );
}

#[test]
fn test_sample_rate() {
    let mut frame = GenericFrame::new().expect("Failed to create frame");
    frame.set_format(AVSampleFormat::s16().into());
    let mut audio_frame = frame.audio();
    audio_frame.set_sample_rate(44100);

    assert_eq!(
        audio_frame.sample_rate(),
        44100,
        "The sample rate should match the set value."
    );
}

#[test]
fn test_alloc_frame_buffer() {
    let cases = [(None, true), (Some(0), true), (Some(32), true), (Some(-1), false)];

    for alignment in cases {
        let mut frame = GenericFrame::new().expect("Failed to create frame");
        frame.set_format(AVSampleFormat::s16().into());
        let mut audio_frame = frame.audio();
        audio_frame.set_nb_samples(1024);
        audio_frame.set_sample_rate(44100);

        assert!(
            audio_frame.set_channel_layout_default(2).is_ok(),
            "Failed to set default channel layout"
        );

        assert_eq!(
            audio_frame.alloc_frame_buffer(alignment.0).is_ok(),
            alignment.1,
            "Failed to allocate buffer with alignment {:?}",
            alignment
        );
    }
}

#[test]
fn test_alloc_frame_buffer_error() {
    let cases = [None, Some(0), Some(32), Some(-1)];

    for alignment in cases {
        let mut frame = GenericFrame::new().expect("Failed to create frame");
        frame.set_format(AVSampleFormat::s16().into());
        let mut audio_frame = frame.audio();
        audio_frame.set_nb_samples(1024);

        assert!(
            audio_frame.alloc_frame_buffer(alignment).is_err(),
            "Should fail to allocate buffer with invalid frame and alignment {:?}",
            alignment
        );
    }
}
