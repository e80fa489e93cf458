use ntscrs::render_settings::{
    interlaced_output_allowed, pipeline_codec, pixel_formats_for, render_interlacing, Ffv1BitDepth,
    Ffv1Settings, H264Settings, OutputCodec, PixelFormat, RenderInterlaceMode, RenderPipelineCodec,
};
use ntscrs::settings::standard::UseField;

#[test]
fn export_is_interlaced_only_for_interleaved_fields_and_on_request() {
    let all = [
        UseField::Alternating,
        UseField::Upper,
        UseField::Lower,
        UseField::Both,
        UseField::InterleavedUpper,
        UseField::InterleavedLower,
    ];
    for use_field in all {
        assert_eq!(render_interlacing(use_field, false), RenderInterlaceMode::Progressive);
        let expected = match use_field {
            UseField::InterleavedUpper => RenderInterlaceMode::TopFieldFirst,
            UseField::InterleavedLower => RenderInterlaceMode::BottomFieldFirst,
            _ => RenderInterlaceMode::Progressive,
        };
        assert_eq!(render_interlacing(use_field, true), expected);
        assert_eq!(
            interlaced_output_allowed(use_field),
            expected != RenderInterlaceMode::Progressive
        );
    }
}

#[test]
fn h264_starts_with_its_standard_settings() {
    let settings = H264Settings::default();
    assert_eq!(
        settings,
        H264Settings { crf: 23, encode_speed: 5, ten_bit: false, chroma_subsampling: true }
    );
    assert!(settings.is_valid());
    assert_eq!(settings.quantizer(), 27);
    assert_eq!(settings.speed_preset(), 4);
}

#[test]
fn quantizer_and_preset_count_down() {
    let best = H264Settings { crf: 50, encode_speed: 8, ..H264Settings::default() };
    assert!(best.is_valid());
    assert_eq!(best.quantizer(), 0);
    assert_eq!(best.speed_preset(), 1);
    let worst = H264Settings { crf: 0, encode_speed: 0, ..H264Settings::default() };
    assert!(worst.is_valid());
    assert_eq!(worst.quantizer(), 50);
    assert_eq!(worst.speed_preset(), 9);
    assert!(!H264Settings { crf: 51, ..H264Settings::default() }.is_valid());
    assert!(!H264Settings { encode_speed: 9, ..H264Settings::default() }.is_valid());
    assert_eq!(H264Settings { encode_speed: 255, ..worst }.speed_preset(), -246);
}

#[test]
fn codecs_have_their_labels_and_extensions() {
    assert_eq!(OutputCodec::default(), OutputCodec::H264);
    assert_eq!(OutputCodec::H264.label(), "H.264");
    assert_eq!(OutputCodec::Ffv1.label(), "FFV1 (Lossless)");
    assert_eq!(OutputCodec::H264.extension(), "mp4");
    assert_eq!(OutputCodec::Ffv1.extension(), "mkv");
    assert_eq!(Ffv1BitDepth::default(), Ffv1BitDepth::Bits8);
    assert_eq!(Ffv1BitDepth::Bits8.label(), "8-bit");
    assert_eq!(Ffv1BitDepth::Bits10.label(), "10-bit");
    assert_eq!(Ffv1BitDepth::Bits12.label(), "12-bit");
    assert_eq!(Ffv1BitDepth::Bits8.bits(), 8);
    assert_eq!(Ffv1BitDepth::Bits10.bits(), 10);
    assert_eq!(Ffv1BitDepth::Bits12.bits(), 12);
    assert_eq!(
        Ffv1Settings::default(),
        Ffv1Settings { bit_depth: Ffv1BitDepth::Bits8, chroma_subsampling: false }
    );
}

#[test]
fn export_takes_the_settings_of_the_codec_that_was_picked() {
    let h264 = H264Settings { crf: 40, ..H264Settings::default() };
    let ffv1 = Ffv1Settings { bit_depth: Ffv1BitDepth::Bits12, chroma_subsampling: true };
    assert_eq!(pipeline_codec(OutputCodec::H264, &h264, &ffv1), RenderPipelineCodec::H264(h264));
    assert_eq!(pipeline_codec(OutputCodec::Ffv1, &h264, &ffv1), RenderPipelineCodec::Ffv1(ffv1));
}

#[test]
fn pixel_formats_follow_depth_and_subsampling() {
    assert_eq!(pixel_formats_for(8, false), vec![PixelFormat::Y444, PixelFormat::V308, PixelFormat::Iyu2, PixelFormat::Nv24]);
    assert_eq!(pixel_formats_for(8, true), vec![PixelFormat::I420, PixelFormat::Yv12, PixelFormat::Nv12, PixelFormat::Nv21]);
    assert_eq!(pixel_formats_for(10, false), vec![PixelFormat::Y44410be, PixelFormat::Y44410le]);
    assert_eq!(pixel_formats_for(10, true), vec![PixelFormat::I42010be, PixelFormat::I42010le]);
    assert_eq!(pixel_formats_for(12, false), vec![PixelFormat::Y44412be, PixelFormat::Y44412le]);
    assert_eq!(pixel_formats_for(12, true), vec![PixelFormat::I42012be, PixelFormat::I42012le]);
}

#[test]
fn each_codec_is_built_from_its_elements() {
    let h264 = RenderPipelineCodec::H264(H264Settings::default());
    assert_eq!(h264.video_encoder(), "x264enc");
    assert_eq!(h264.audio_encoder(), Some("avenc_aac"));
    assert_eq!(h264.muxer(), Some("mp4mux"));
    assert_eq!(h264.pixel_formats(), vec![PixelFormat::I420, PixelFormat::Yv12, PixelFormat::Nv12, PixelFormat::Nv21]);
    assert!(h264.needs_padding());
    let h264_full = RenderPipelineCodec::H264(H264Settings {
        ten_bit: true,
        chroma_subsampling: false,
        ..H264Settings::default()
    });
    assert_eq!(h264_full.pixel_formats(), vec![PixelFormat::Y44410be, PixelFormat::Y44410le]);
    assert!(!h264_full.needs_padding());
    let ffv1 = RenderPipelineCodec::Ffv1(Ffv1Settings {
        bit_depth: Ffv1BitDepth::Bits12,
        chroma_subsampling: true,
    });
    assert_eq!(ffv1.video_encoder(), "avenc_ffv1");
    assert_eq!(ffv1.audio_encoder(), Some("flacenc"));
    assert_eq!(ffv1.muxer(), Some("matroskamux"));
    assert_eq!(ffv1.pixel_formats(), vec![PixelFormat::I42012be, PixelFormat::I42012le]);
    assert!(!ffv1.needs_padding());
    assert_eq!(
        RenderPipelineCodec::Ffv1(Ffv1Settings::default()).pixel_formats(),
        vec![PixelFormat::Y444, PixelFormat::V308, PixelFormat::Iyu2, PixelFormat::Nv24]
    );
    let png = RenderPipelineCodec::Png;
    assert_eq!(png.video_encoder(), "pngenc");
    assert_eq!(png.audio_encoder(), None);
    assert_eq!(png.muxer(), None);
    assert_eq!(png.pixel_formats(), vec![PixelFormat::Rgb]);
    assert!(!png.needs_padding());
}
