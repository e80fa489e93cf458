//! What the user chooses for an export, and what the export graph is built
//! from for each choice: the encoders, the muxer and the pixel formats.
//!
//! Elements of the graph are named as the media framework knows them.

use crate::settings::standard::UseField;
use vstd::prelude::*;

verus! {

/// Settings of the H.264 encoder.
#[derive(Debug, Clone, Copy, PartialEq, Eq)]
pub struct H264Settings {
    /// Quality, from 0 (worst) to 50 (best).
    pub crf: u8,
    /// Speed of encoding, from 0 (slowest) to 8 (fastest).
    pub encode_speed: u8,
    /// Enable 10-bit color.
    pub ten_bit: bool,
    /// Subsample chroma to 4:2:0.
    pub chroma_subsampling: bool,
}

impl H264Settings {
    /// The settings that an export starts with.
    pub open spec fn standard() -> Self {
        H264Settings { crf: 23, encode_speed: 5, ten_bit: false, chroma_subsampling: true }
    }

    /// The quality and the speed are within what the encoder offers.
    pub open spec fn wf(self) -> bool {
        self.crf <= 50 && self.encode_speed <= 8
    }

    /// Checks [`H264Settings::wf`].
    pub fn is_valid(&self) -> (valid: bool)
        ensures
            valid == self.wf(),
    {
        self.crf <= 50 && self.encode_speed <= 8
    }

    /// The quantizer of the encoder, which counts the other way round: low
    /// numbers are high quality.
    pub fn quantizer(&self) -> (quantizer: u32)
        requires
            self.wf(),
        ensures
            quantizer == 50 - self.crf,
    {
        50 - self.crf as u32
    }

    /// The speed preset of the encoder, from 9 (slowest) down to 1.
    pub fn speed_preset(&self) -> (preset: i32)
        ensures
            preset == 9 - self.encode_speed,
    {
        9 - self.encode_speed as i32
    }
}

impl Default for H264Settings {
    fn default() -> (settings: Self)
        ensures
            settings == Self::standard(),
    {
        H264Settings { crf: 23, encode_speed: 5, ten_bit: false, chroma_subsampling: true }
    }
}

/// Bits per sample of the lossless encoder.
#[derive(Debug, Clone, Copy, PartialEq, Eq, Structural)]
pub enum Ffv1BitDepth {
    Bits8,
    Bits10,
    Bits12,
}

impl Ffv1BitDepth {
    /// The number of bits.
    pub open spec fn depth(self) -> usize {
        match self {
            Ffv1BitDepth::Bits8 => 8,
            Ffv1BitDepth::Bits10 => 10,
            Ffv1BitDepth::Bits12 => 12,
        }
    }

    /// The depth as the user reads it.
    pub open spec fn label_of(self) -> &'static str {
        match self {
            Ffv1BitDepth::Bits8 => "8-bit",
            Ffv1BitDepth::Bits10 => "10-bit",
            Ffv1BitDepth::Bits12 => "12-bit",
        }
    }

    pub fn bits(&self) -> (bits: usize)
        ensures
            bits == self.depth(),
    {
        match self {
            Ffv1BitDepth::Bits8 => 8,
            Ffv1BitDepth::Bits10 => 10,
            Ffv1BitDepth::Bits12 => 12,
        }
    }

    pub fn label(&self) -> (label: &'static str)
        ensures
            label == self.label_of(),
    {
        match self {
            Ffv1BitDepth::Bits8 => "8-bit",
            Ffv1BitDepth::Bits10 => "10-bit",
            Ffv1BitDepth::Bits12 => "12-bit",
        }
    }
}

impl Default for Ffv1BitDepth {
    fn default() -> (depth: Self)
        ensures
            depth == Ffv1BitDepth::Bits8,
    {
        Ffv1BitDepth::Bits8
    }
}

/// Settings of the lossless encoder.
#[derive(Debug, Clone, Copy, PartialEq, Eq)]
pub struct Ffv1Settings {
    pub bit_depth: Ffv1BitDepth,
    /// Subsample chroma to 4:2:0.
    pub chroma_subsampling: bool,
}

impl Default for Ffv1Settings {
    fn default() -> (settings: Self)
        ensures
            settings == (Ffv1Settings { bit_depth: Ffv1BitDepth::Bits8, chroma_subsampling: false }),
    {
        Ffv1Settings { bit_depth: Ffv1BitDepth::Bits8, chroma_subsampling: false }
    }
}

/// The codec that the user picks for an export.
#[derive(Debug, Clone, Copy, PartialEq, Eq, Structural)]
pub enum OutputCodec {
    H264,
    Ffv1,
}

impl OutputCodec {
    /// The codec as the user reads it.
    pub open spec fn label_of(self) -> &'static str {
        match self {
            OutputCodec::H264 => "H.264",
            OutputCodec::Ffv1 => "FFV1 (Lossless)",
        }
    }

    /// The extension of the files that hold the codec.
    pub open spec fn extension_of(self) -> &'static str {
        match self {
            OutputCodec::H264 => "mp4",
            OutputCodec::Ffv1 => "mkv",
        }
    }

    pub fn label(&self) -> (label: &'static str)
        ensures
            label == self.label_of(),
    {
        match self {
            OutputCodec::H264 => "H.264",
            OutputCodec::Ffv1 => "FFV1 (Lossless)",
        }
    }

    pub fn extension(&self) -> (extension: &'static str)
        ensures
            extension == self.extension_of(),
    {
        match self {
            OutputCodec::H264 => "mp4",
            OutputCodec::Ffv1 => "mkv",
        }
    }
}

impl Default for OutputCodec {
    fn default() -> (codec: Self)
        ensures
            codec == OutputCodec::H264,
    {
        OutputCodec::H264
    }
}

/// What an export encodes with: a video codec with its settings, or a single
/// still image.
#[derive(Debug, Clone, Copy, PartialEq, Eq)]
pub enum RenderPipelineCodec {
    H264(H264Settings),
    Ffv1(Ffv1Settings),
    Png,
}

/// The codec of a video export: the one that the user picked, with its own
/// settings. The settings of the other codec are kept for when the user
/// changes their mind.
pub open spec fn codec_of(
    output_codec: OutputCodec,
    h264_settings: H264Settings,
    ffv1_settings: Ffv1Settings,
) -> RenderPipelineCodec {
    match output_codec {
        OutputCodec::H264 => RenderPipelineCodec::H264(h264_settings),
        OutputCodec::Ffv1 => RenderPipelineCodec::Ffv1(ffv1_settings),
    }
}

/// Computes [`codec_of`].
pub fn pipeline_codec(
    output_codec: OutputCodec,
    h264_settings: &H264Settings,
    ffv1_settings: &Ffv1Settings,
) -> (codec: RenderPipelineCodec)
    ensures
        codec == codec_of(output_codec, *h264_settings, *ffv1_settings),
{
    match output_codec {
        OutputCodec::H264 => RenderPipelineCodec::H264(*h264_settings),
        OutputCodec::Ffv1 => RenderPipelineCodec::Ffv1(*ffv1_settings),
    }
}

/// A layout of pixels in memory, as the media framework names it.
#[derive(Debug, Clone, Copy, PartialEq, Eq, Structural)]
pub enum PixelFormat {
    Y444,
    V308,
    Iyu2,
    Nv24,
    I420,
    Yv12,
    Nv12,
    Nv21,
    Y44410be,
    Y44410le,
    I42010be,
    I42010le,
    Y44412be,
    Y44412le,
    I42012be,
    I42012le,
    Rgb,
}

/// The pixel formats that an encoder may be fed for a bit depth of 8, 10 or
/// 12, with the chroma at full resolution or subsampled to 4:2:0, most
/// wanted first.
pub open spec fn formats_for(bit_depth: usize, chroma_subsampling: bool) -> Seq<PixelFormat>
    recommends
        bit_depth == 8 || bit_depth == 10 || bit_depth == 12,
{
    if bit_depth == 8 && !chroma_subsampling {
        seq![PixelFormat::Y444, PixelFormat::V308, PixelFormat::Iyu2, PixelFormat::Nv24]
    } else if bit_depth == 8 {
        seq![PixelFormat::I420, PixelFormat::Yv12, PixelFormat::Nv12, PixelFormat::Nv21]
    } else if bit_depth == 10 && !chroma_subsampling {
        seq![PixelFormat::Y44410be, PixelFormat::Y44410le]
    } else if bit_depth == 10 {
        seq![PixelFormat::I42010be, PixelFormat::I42010le]
    } else if !chroma_subsampling {
        seq![PixelFormat::Y44412be, PixelFormat::Y44412le]
    } else {
        seq![PixelFormat::I42012be, PixelFormat::I42012le]
    }
}

/// Computes [`formats_for`]. There are no formats for other bit depths.
pub fn pixel_formats_for(bit_depth: usize, chroma_subsampling: bool) -> (formats: Vec<PixelFormat>)
    requires
        bit_depth == 8 || bit_depth == 10 || bit_depth == 12,
    ensures
        formats@ == formats_for(bit_depth, chroma_subsampling),
{
    let formats = if bit_depth == 8 && !chroma_subsampling {
        vec![PixelFormat::Y444, PixelFormat::V308, PixelFormat::Iyu2, PixelFormat::Nv24]
    } else if bit_depth == 8 {
        vec![PixelFormat::I420, PixelFormat::Yv12, PixelFormat::Nv12, PixelFormat::Nv21]
    } else if bit_depth == 10 && !chroma_subsampling {
        vec![PixelFormat::Y44410be, PixelFormat::Y44410le]
    } else if bit_depth == 10 {
        vec![PixelFormat::I42010be, PixelFormat::I42010le]
    } else if !chroma_subsampling {
        vec![PixelFormat::Y44412be, PixelFormat::Y44412le]
    } else {
        vec![PixelFormat::I42012be, PixelFormat::I42012le]
    };
    assert(formats@ =~= formats_for(bit_depth, chroma_subsampling));
    formats
}

impl RenderPipelineCodec {
    /// The element that encodes the video.
    pub open spec fn video_encoder_of(self) -> &'static str {
        match self {
            RenderPipelineCodec::H264(_) => "x264enc",
            RenderPipelineCodec::Ffv1(_) => "avenc_ffv1",
            RenderPipelineCodec::Png => "pngenc",
        }
    }

    /// The element that encodes the audio; a still image has none.
    pub open spec fn audio_encoder_of(self) -> Option<&'static str> {
        match self {
            RenderPipelineCodec::H264(_) => Some("avenc_aac"),
            RenderPipelineCodec::Ffv1(_) => Some("flacenc"),
            RenderPipelineCodec::Png => None,
        }
    }

    /// The element that joins video and audio in one file; a still image
    /// goes to its file as it is.
    pub open spec fn muxer_of(self) -> Option<&'static str> {
        match self {
            RenderPipelineCodec::H264(_) => Some("mp4mux"),
            RenderPipelineCodec::Ffv1(_) => Some("matroskamux"),
            RenderPipelineCodec::Png => None,
        }
    }

    /// The pixel formats that the video encoder is fed.
    pub open spec fn formats_of(self) -> Seq<PixelFormat> {
        match self {
            RenderPipelineCodec::H264(settings) => formats_for(
                if settings.ten_bit {
                    10
                } else {
                    8
                },
                settings.chroma_subsampling,
            ),
            RenderPipelineCodec::Ffv1(settings) => formats_for(
                settings.bit_depth.depth(),
                settings.chroma_subsampling,
            ),
            RenderPipelineCodec::Png => seq![PixelFormat::Rgb],
        }
    }

    /// Whether frames are padded to even dimensions before they are
    /// encoded: H.264 cannot take 4:2:0 frames of odd width or height.
    pub open spec fn padded(self) -> bool {
        self matches RenderPipelineCodec::H264(settings) && settings.chroma_subsampling
    }

    pub fn video_encoder(&self) -> (element: &'static str)
        ensures
            element == self.video_encoder_of(),
    {
        match self {
            RenderPipelineCodec::H264(_) => "x264enc",
            RenderPipelineCodec::Ffv1(_) => "avenc_ffv1",
            RenderPipelineCodec::Png => "pngenc",
        }
    }

    pub fn audio_encoder(&self) -> (element: Option<&'static str>)
        ensures
            element == self.audio_encoder_of(),
    {
        match self {
            RenderPipelineCodec::H264(_) => Some("avenc_aac"),
            RenderPipelineCodec::Ffv1(_) => Some("flacenc"),
            RenderPipelineCodec::Png => None,
        }
    }

    pub fn muxer(&self) -> (element: Option<&'static str>)
        ensures
            element == self.muxer_of(),
    {
        match self {
            RenderPipelineCodec::H264(_) => Some("mp4mux"),
            RenderPipelineCodec::Ffv1(_) => Some("matroskamux"),
            RenderPipelineCodec::Png => None,
        }
    }

    pub fn pixel_formats(&self) -> (formats: Vec<PixelFormat>)
        ensures
            formats@ == self.formats_of(),
    {
        match self {
            RenderPipelineCodec::H264(settings) => pixel_formats_for(
                if settings.ten_bit {
                    10
                } else {
                    8
                },
                settings.chroma_subsampling,
            ),
            RenderPipelineCodec::Ffv1(settings) => pixel_formats_for(
                settings.bit_depth.bits(),
                settings.chroma_subsampling,
            ),
            RenderPipelineCodec::Png => {
                let formats = vec![PixelFormat::Rgb];
                assert(formats@ =~= seq![PixelFormat::Rgb]);
                formats
            },
        }
    }

    pub fn needs_padding(&self) -> (padded: bool)
        ensures
            padded == self.padded(),
    {
        match self {
            RenderPipelineCodec::H264(settings) => settings.chroma_subsampling,
            _ => false,
        }
    }
}

/// How the frames of an export are laid out in fields.
#[derive(Debug, Clone, Copy, PartialEq, Eq, Structural)]
pub enum RenderInterlaceMode {
    Progressive,
    TopFieldFirst,
    BottomFieldFirst,
}

/// The layout of an export made with the rows that `use_field` names, where
/// the user asked for interlaced output or did not: interlaced only if asked
/// for and the effect itself works on interleaved fields, with the field
/// first that the effect takes first.
pub open spec fn interlacing_for(use_field: UseField, interlaced: bool) -> RenderInterlaceMode {
    match use_field {
        UseField::InterleavedUpper if interlaced => RenderInterlaceMode::TopFieldFirst,
        UseField::InterleavedLower if interlaced => RenderInterlaceMode::BottomFieldFirst,
        _ => RenderInterlaceMode::Progressive,
    }
}

/// Whether an export can be interlaced at all: only an effect that works on
/// interleaved fields produces them.
pub fn interlaced_output_allowed(use_field: UseField) -> (allowed: bool)
    ensures
        allowed == (use_field is InterleavedUpper || use_field is InterleavedLower),
{
    match use_field {
        UseField::InterleavedUpper | UseField::InterleavedLower => true,
        _ => false,
    }
}

/// Computes [`interlacing_for`].
pub fn render_interlacing(use_field: UseField, interlaced: bool) -> (mode: RenderInterlaceMode)
    ensures
        mode == interlacing_for(use_field, interlaced),
{
    let interlaced = interlaced_output_allowed(use_field) && interlaced;
    match use_field {
        UseField::InterleavedUpper => if interlaced {
            RenderInterlaceMode::TopFieldFirst
        } else {
            RenderInterlaceMode::Progressive
        },
        UseField::InterleavedLower => if interlaced {
            RenderInterlaceMode::BottomFieldFirst
        } else {
            RenderInterlaceMode::Progressive
        },
        _ => RenderInterlaceMode::Progressive,
    }
}

} // verus!
