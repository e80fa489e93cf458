//! The settings of the standard effect: what each can be, what the effect
//! starts with, and how they are laid out for editing.
//!
//! Every enumeration has a stable numeric index, which is what menus and
//! saved presets store: `to_u32` gives the index of a variant and `from_u32`
//! reads it back. Numbers that are not whole are [`Decimal`]s.

pub mod descriptors;
pub mod laws;
pub mod setting_id;

use crate::settings::{
    models_of, Decimal, DescriptorModel, KindModel, SettingDescriptor, SettingKind, SettingsBlock,
    SettingsList,
};
use crate::settings::standard::descriptors::{
    chroma_demodulation_descriptor, chroma_demodulation_model, chroma_lowpass_in_descriptor,
    chroma_lowpass_in_model, chroma_lowpass_out_descriptor, chroma_lowpass_out_model,
    chroma_noise_descriptor, chroma_noise_model, composite_noise_descriptor,
    composite_noise_model, filter_type_descriptor, filter_type_model,
    head_switching_descriptor, head_switching_model, input_luma_filter_descriptor,
    input_luma_filter_model, luma_noise_descriptor, luma_noise_model, ringing_descriptor,
    ringing_model, tracking_noise_descriptor, tracking_noise_model, use_field_descriptor,
    use_field_model, vhs_settings_descriptor, vhs_settings_model,
    video_scanline_phase_shift_descriptor, video_scanline_phase_shift_model,
};
use crate::yiq_fielding::YiqField;
use vstd::prelude::*;

verus! {


/// Which rows of the source image are used.
#[derive(Debug, Clone, Copy, PartialEq, Eq, Structural)]
pub enum UseField {
    Alternating,
    Upper,
    Lower,
    Both,
    InterleavedUpper,
    InterleavedLower,
}

impl UseField {
    /// The numeric index of the variant, in declaration order from zero.
    pub open spec fn index(self) -> u32 {
        match self {
            UseField::Alternating => 0,
            UseField::Upper => 1,
            UseField::Lower => 2,
            UseField::Both => 3,
            UseField::InterleavedUpper => 4,
            UseField::InterleavedLower => 5,
        }
    }

    /// The variant with the given index, if there is one.
    pub open spec fn from_index(n: u32) -> Option<Self> {
        match n {
            0 => Some(UseField::Alternating),
            1 => Some(UseField::Upper),
            2 => Some(UseField::Lower),
            3 => Some(UseField::Both),
            4 => Some(UseField::InterleavedUpper),
            5 => Some(UseField::InterleavedLower),
            _ => None,
        }
    }

    /// The field that frame number `frame_num` is processed with.
    ///
    /// `Alternating` takes the lower field on even frames and the upper field
    /// on odd ones; every other choice names its field directly.
    pub open spec fn yiq_field(self, frame_num: int) -> YiqField {
        match self {
            UseField::Alternating => if frame_num % 2 == 0 {
                YiqField::Lower
            } else {
                YiqField::Upper
            },
            UseField::Upper => YiqField::Upper,
            UseField::Lower => YiqField::Lower,
            UseField::Both => YiqField::Both,
            UseField::InterleavedUpper => YiqField::InterleavedUpper,
            UseField::InterleavedLower => YiqField::InterleavedLower,
        }
    }

    pub fn to_yiq_field(&self, frame_num: usize) -> (field: YiqField)
        ensures
            field == self.yiq_field(frame_num as int),
    {
        match self {
            UseField::Alternating => {
                assert((frame_num & 1 == 0) == (frame_num % 2 == 0)) by (bit_vector);
                if frame_num & 1 == 0 {
                    YiqField::Lower
                } else {
                    YiqField::Upper
                }
            },
            UseField::Upper => YiqField::Upper,
            UseField::Lower => YiqField::Lower,
            UseField::Both => YiqField::Both,
            UseField::InterleavedUpper => YiqField::InterleavedUpper,
            UseField::InterleavedLower => YiqField::InterleavedLower,
        }
    }

    pub fn to_u32(&self) -> (index: Option<u32>)
        ensures
            index == Some(self.index()),
    {
        Some(
            match self {
                UseField::Alternating => 0,
                UseField::Upper => 1,
                UseField::Lower => 2,
                UseField::Both => 3,
                UseField::InterleavedUpper => 4,
                UseField::InterleavedLower => 5,
            },
        )
    }

    pub fn from_u32(n: u32) -> (value: Option<Self>)
        ensures
            value == Self::from_index(n),
    {
        match n {
            0 => Some(UseField::Alternating),
            1 => Some(UseField::Upper),
            2 => Some(UseField::Lower),
            3 => Some(UseField::Both),
            4 => Some(UseField::InterleavedUpper),
            5 => Some(UseField::InterleavedLower),
            _ => None,
        }
    }

    /// Reading an index back gives the variant it came from, and only the
    /// indices of variants can be read back.
    pub proof fn lemma_index_round_trip(self, n: u32)
        ensures
            Self::from_index(self.index()) == Some(self),
            Self::from_index(n) == Some(self) <==> n == self.index(),
            Self::from_index(n) is Some <==> n < 6,
    {
    }
}

/// Which low-pass filter the effect uses throughout.
#[derive(Debug, Clone, Copy, PartialEq, Eq, Structural)]
pub enum FilterType {
    ConstantK,
    Butterworth,
}

impl FilterType {
    /// The numeric index of the variant, in declaration order from zero.
    pub open spec fn index(self) -> u32 {
        match self {
            FilterType::ConstantK => 0,
            FilterType::Butterworth => 1,
        }
    }

    /// The variant with the given index, if there is one.
    pub open spec fn from_index(n: u32) -> Option<Self> {
        match n {
            0 => Some(FilterType::ConstantK),
            1 => Some(FilterType::Butterworth),
            _ => None,
        }
    }


    pub fn to_u32(&self) -> (index: Option<u32>)
        ensures
            index == Some(self.index()),
    {
        Some(
            match self {
                FilterType::ConstantK => 0,
                FilterType::Butterworth => 1,
            },
        )
    }

    pub fn from_u32(n: u32) -> (value: Option<Self>)
        ensures
            value == Self::from_index(n),
    {
        match n {
            0 => Some(FilterType::ConstantK),
            1 => Some(FilterType::Butterworth),
            _ => None,
        }
    }

    /// Reading an index back gives the variant it came from, and only the
    /// indices of variants can be read back.
    pub proof fn lemma_index_round_trip(self, n: u32)
        ensures
            Self::from_index(self.index()) == Some(self),
            Self::from_index(n) == Some(self) <==> n == self.index(),
            Self::from_index(n) is Some <==> n < 2,
    {
    }
}

/// How the input luminance is filtered.
#[derive(Debug, Clone, Copy, PartialEq, Eq, Structural)]
pub enum LumaLowpass {
    Off,
    Box,
    Notch,
}

impl LumaLowpass {
    /// The numeric index of the variant, in declaration order from zero.
    pub open spec fn index(self) -> u32 {
        match self {
            LumaLowpass::Off => 0,
            LumaLowpass::Box => 1,
            LumaLowpass::Notch => 2,
        }
    }

    /// The variant with the given index, if there is one.
    pub open spec fn from_index(n: u32) -> Option<Self> {
        match n {
            0 => Some(LumaLowpass::Off),
            1 => Some(LumaLowpass::Box),
            2 => Some(LumaLowpass::Notch),
            _ => None,
        }
    }


    pub fn to_u32(&self) -> (index: Option<u32>)
        ensures
            index == Some(self.index()),
    {
        Some(
            match self {
                LumaLowpass::Off => 0,
                LumaLowpass::Box => 1,
                LumaLowpass::Notch => 2,
            },
        )
    }

    pub fn from_u32(n: u32) -> (value: Option<Self>)
        ensures
            value == Self::from_index(n),
    {
        match n {
            0 => Some(LumaLowpass::Off),
            1 => Some(LumaLowpass::Box),
            2 => Some(LumaLowpass::Notch),
            _ => None,
        }
    }

    /// Reading an index back gives the variant it came from, and only the
    /// indices of variants can be read back.
    pub proof fn lemma_index_round_trip(self, n: u32)
        ensures
            Self::from_index(self.index()) == Some(self),
            Self::from_index(n) == Some(self) <==> n == self.index(),
            Self::from_index(n) is Some <==> n < 3,
    {
    }
}

/// Phase shift of the chrominance signal from one scanline to the next.
#[derive(Debug, Clone, Copy, PartialEq, Eq, Structural)]
pub enum PhaseShift {
    Degrees0,
    Degrees90,
    Degrees180,
    Degrees270,
}

impl PhaseShift {
    /// The numeric index of the variant, in declaration order from zero.
    pub open spec fn index(self) -> u32 {
        match self {
            PhaseShift::Degrees0 => 0,
            PhaseShift::Degrees90 => 1,
            PhaseShift::Degrees180 => 2,
            PhaseShift::Degrees270 => 3,
        }
    }

    /// The variant with the given index, if there is one.
    pub open spec fn from_index(n: u32) -> Option<Self> {
        match n {
            0 => Some(PhaseShift::Degrees0),
            1 => Some(PhaseShift::Degrees90),
            2 => Some(PhaseShift::Degrees180),
            3 => Some(PhaseShift::Degrees270),
            _ => None,
        }
    }


    pub fn to_u32(&self) -> (index: Option<u32>)
        ensures
            index == Some(self.index()),
    {
        Some(
            match self {
                PhaseShift::Degrees0 => 0,
                PhaseShift::Degrees90 => 1,
                PhaseShift::Degrees180 => 2,
                PhaseShift::Degrees270 => 3,
            },
        )
    }

    pub fn from_u32(n: u32) -> (value: Option<Self>)
        ensures
            value == Self::from_index(n),
    {
        match n {
            0 => Some(PhaseShift::Degrees0),
            1 => Some(PhaseShift::Degrees90),
            2 => Some(PhaseShift::Degrees180),
            3 => Some(PhaseShift::Degrees270),
            _ => None,
        }
    }

    /// Reading an index back gives the variant it came from, and only the
    /// indices of variants can be read back.
    pub proof fn lemma_index_round_trip(self, n: u32)
        ensures
            Self::from_index(self.index()) == Some(self),
            Self::from_index(n) == Some(self) <==> n == self.index(),
            Self::from_index(n) is Some <==> n < 4,
    {
    }
}

/// The recording speed of the emulated tape.
#[derive(Debug, Clone, Copy, PartialEq, Eq, Structural)]
pub enum VHSTapeSpeed {
    NONE,
    SP,
    LP,
    EP,
}

impl VHSTapeSpeed {
    /// The numeric index of the variant, in declaration order from zero.
    pub open spec fn index(self) -> u32 {
        match self {
            VHSTapeSpeed::NONE => 0,
            VHSTapeSpeed::SP => 1,
            VHSTapeSpeed::LP => 2,
            VHSTapeSpeed::EP => 3,
        }
    }

    /// The variant with the given index, if there is one.
    pub open spec fn from_index(n: u32) -> Option<Self> {
        match n {
            0 => Some(VHSTapeSpeed::NONE),
            1 => Some(VHSTapeSpeed::SP),
            2 => Some(VHSTapeSpeed::LP),
            3 => Some(VHSTapeSpeed::EP),
            _ => None,
        }
    }

    /// The filter parameters of the tape speed; `NONE` has none.
    pub open spec fn params(self) -> Option<VHSTapeParams> {
        match self {
            VHSTapeSpeed::NONE => None,
            VHSTapeSpeed::SP => Some(
                VHSTapeParams { luma_cut: 2400000, chroma_cut: 320000, chroma_delay: 4 },
            ),
            VHSTapeSpeed::LP => Some(
                VHSTapeParams { luma_cut: 1900000, chroma_cut: 300000, chroma_delay: 5 },
            ),
            VHSTapeSpeed::EP => Some(
                VHSTapeParams { luma_cut: 1400000, chroma_cut: 280000, chroma_delay: 6 },
            ),
        }
    }

    pub fn filter_params(&self) -> (params: Option<VHSTapeParams>)
        ensures
            params == self.params(),
    {
        match self {
            VHSTapeSpeed::NONE => None,
            VHSTapeSpeed::SP => Some(
                VHSTapeParams { luma_cut: 2400000, chroma_cut: 320000, chroma_delay: 4 },
            ),
            VHSTapeSpeed::LP => Some(
                VHSTapeParams { luma_cut: 1900000, chroma_cut: 300000, chroma_delay: 5 },
            ),
            VHSTapeSpeed::EP => Some(
                VHSTapeParams { luma_cut: 1400000, chroma_cut: 280000, chroma_delay: 6 },
            ),
        }
    }

    pub fn to_u32(&self) -> (index: Option<u32>)
        ensures
            index == Some(self.index()),
    {
        Some(
            match self {
                VHSTapeSpeed::NONE => 0,
                VHSTapeSpeed::SP => 1,
                VHSTapeSpeed::LP => 2,
                VHSTapeSpeed::EP => 3,
            },
        )
    }

    pub fn from_u32(n: u32) -> (value: Option<Self>)
        ensures
            value == Self::from_index(n),
    {
        match n {
            0 => Some(VHSTapeSpeed::NONE),
            1 => Some(VHSTapeSpeed::SP),
            2 => Some(VHSTapeSpeed::LP),
            3 => Some(VHSTapeSpeed::EP),
            _ => None,
        }
    }

    /// Reading an index back gives the variant it came from, and only the
    /// indices of variants can be read back.
    pub proof fn lemma_index_round_trip(self, n: u32)
        ensures
            Self::from_index(self.index()) == Some(self),
            Self::from_index(n) == Some(self) <==> n == self.index(),
            Self::from_index(n) is Some <==> n < 4,
    {
    }
}

/// What a tape speed does to the signal.
#[derive(Debug, Clone, Copy, PartialEq, Eq, Structural)]
pub struct VHSTapeParams {
    /// Cutoff frequency of the luminance, in hertz.
    pub luma_cut: u32,
    /// Cutoff frequency of the chrominance, in hertz.
    pub chroma_cut: u32,
    /// Delay of the chrominance, in samples.
    pub chroma_delay: usize,
}

/// How strongly a chrominance signal is low-pass filtered.
#[derive(Debug, Clone, Copy, PartialEq, Eq, Structural)]
pub enum ChromaLowpass {
    Off,
    Light,
    Full,
}

impl ChromaLowpass {
    /// The numeric index of the variant, in declaration order from zero.
    pub open spec fn index(self) -> u32 {
        match self {
            ChromaLowpass::Off => 0,
            ChromaLowpass::Light => 1,
            ChromaLowpass::Full => 2,
        }
    }

    /// The variant with the given index, if there is one.
    pub open spec fn from_index(n: u32) -> Option<Self> {
        match n {
            0 => Some(ChromaLowpass::Off),
            1 => Some(ChromaLowpass::Light),
            2 => Some(ChromaLowpass::Full),
            _ => None,
        }
    }


    pub fn to_u32(&self) -> (index: Option<u32>)
        ensures
            index == Some(self.index()),
    {
        Some(
            match self {
                ChromaLowpass::Off => 0,
                ChromaLowpass::Light => 1,
                ChromaLowpass::Full => 2,
            },
        )
    }

    pub fn from_u32(n: u32) -> (value: Option<Self>)
        ensures
            value == Self::from_index(n),
    {
        match n {
            0 => Some(ChromaLowpass::Off),
            1 => Some(ChromaLowpass::Light),
            2 => Some(ChromaLowpass::Full),
            _ => None,
        }
    }

    /// Reading an index back gives the variant it came from, and only the
    /// indices of variants can be read back.
    pub proof fn lemma_index_round_trip(self, n: u32)
        ensures
            Self::from_index(self.index()) == Some(self),
            Self::from_index(n) == Some(self) <==> n == self.index(),
            Self::from_index(n) is Some <==> n < 3,
    {
    }
}

/// The filter that separates the chrominance from the composite signal.
#[derive(Debug, Clone, Copy, PartialEq, Eq, Structural)]
pub enum ChromaDemodulationFilter {
    Box,
    Notch,
    OneLineComb,
    TwoLineComb,
}

impl ChromaDemodulationFilter {
    /// The numeric index of the variant, in declaration order from zero.
    pub open spec fn index(self) -> u32 {
        match self {
            ChromaDemodulationFilter::Box => 0,
            ChromaDemodulationFilter::Notch => 1,
            ChromaDemodulationFilter::OneLineComb => 2,
            ChromaDemodulationFilter::TwoLineComb => 3,
        }
    }

    /// The variant with the given index, if there is one.
    pub open spec fn from_index(n: u32) -> Option<Self> {
        match n {
            0 => Some(ChromaDemodulationFilter::Box),
            1 => Some(ChromaDemodulationFilter::Notch),
            2 => Some(ChromaDemodulationFilter::OneLineComb),
            3 => Some(ChromaDemodulationFilter::TwoLineComb),
            _ => None,
        }
    }


    pub fn to_u32(&self) -> (index: Option<u32>)
        ensures
            index == Some(self.index()),
    {
        Some(
            match self {
                ChromaDemodulationFilter::Box => 0,
                ChromaDemodulationFilter::Notch => 1,
                ChromaDemodulationFilter::OneLineComb => 2,
                ChromaDemodulationFilter::TwoLineComb => 3,
            },
        )
    }

    pub fn from_u32(n: u32) -> (value: Option<Self>)
        ensures
            value == Self::from_index(n),
    {
        match n {
            0 => Some(ChromaDemodulationFilter::Box),
            1 => Some(ChromaDemodulationFilter::Notch),
            2 => Some(ChromaDemodulationFilter::OneLineComb),
            3 => Some(ChromaDemodulationFilter::TwoLineComb),
            _ => None,
        }
    }

    /// Reading an index back gives the variant it came from, and only the
    /// indices of variants can be read back.
    pub proof fn lemma_index_round_trip(self, n: u32)
        ensures
            Self::from_index(self.index()) == Some(self),
            Self::from_index(n) == Some(self) <==> n == self.index(),
            Self::from_index(n) is Some <==> n < 4,
    {
    }
}

/// Sharpening of the image, as some VHS decks apply it.
#[derive(Debug, Clone, Copy, PartialEq, Eq)]
pub struct VHSSharpenSettings {
    /// Amount of sharpening.
    pub intensity: Decimal,
    /// Frequency of the sharpening, relative to the cutoff frequency of the tape speed.
    pub frequency: Decimal,
}

impl VHSSharpenSettings {
    /// The settings that the effect starts with.
    pub open spec fn standard() -> Self {
        VHSSharpenSettings {
            intensity: Decimal { millionths: 250_000 },
            frequency: Decimal { millionths: 1_000_000 },
        }
    }
}

impl Default for VHSSharpenSettings {
    fn default() -> (settings: Self)
        ensures
            settings == Self::standard(),
    {
        VHSSharpenSettings {
            intensity: Decimal { millionths: 250_000 },
            frequency: Decimal { millionths: 1_000_000 },
        }
    }
}

/// Horizontal waving of the image.
#[derive(Debug, Clone, Copy, PartialEq, Eq)]
pub struct VHSEdgeWaveSettings {
    /// Strength of the waving, in pixels.
    pub intensity: Decimal,
    /// Speed at which the waves move.
    pub speed: Decimal,
    /// Base wavelength of the waves.
    pub frequency: Decimal,
    /// Octaves of noise.
    pub detail: i32,
}

impl VHSEdgeWaveSettings {
    /// The settings that the effect starts with.
    pub open spec fn standard() -> Self {
        VHSEdgeWaveSettings {
            intensity: Decimal { millionths: 500_000 },
            speed: Decimal { millionths: 4_000_000 },
            frequency: Decimal { millionths: 50_000 },
            detail: 2,
        }
    }
}

impl Default for VHSEdgeWaveSettings {
    fn default() -> (settings: Self)
        ensures
            settings == Self::standard(),
    {
        VHSEdgeWaveSettings {
            intensity: Decimal { millionths: 500_000 },
            speed: Decimal { millionths: 4_000_000 },
            frequency: Decimal { millionths: 50_000 },
            detail: 2,
        }
    }
}

/// Emulation of a VHS tape.
#[derive(Debug, Clone, PartialEq, Eq)]
pub struct VHSSettings {
    /// Recording speed of the tape.
    pub tape_speed: VHSTapeSpeed,
    /// Chance that a scanline loses its chrominance altogether.
    pub chroma_loss: Decimal,
    /// Sharpening, if enabled.
    pub sharpen: Option<VHSSharpenSettings>,
    /// Edge waving, if enabled.
    pub edge_wave: Option<VHSEdgeWaveSettings>,
}

impl VHSSettings {
    /// The settings that the effect starts with.
    pub open spec fn standard() -> Self {
        VHSSettings {
            tape_speed: VHSTapeSpeed::LP,
            chroma_loss: Decimal { millionths: 25 },
            sharpen: Some(VHSSharpenSettings::standard()),
            edge_wave: Some(VHSEdgeWaveSettings::standard()),
        }
    }
}

impl Default for VHSSettings {
    fn default() -> (settings: Self)
        ensures
            settings == Self::standard(),
    {
        VHSSettings {
            tape_speed: VHSTapeSpeed::LP,
            chroma_loss: Decimal { millionths: 25 },
            sharpen: Some(VHSSharpenSettings::default()),
            edge_wave: Some(VHSEdgeWaveSettings::default()),
        }
    }
}

/// Head switching that starts in the middle of a scanline.
#[derive(Debug, Clone, Copy, PartialEq, Eq)]
pub struct HeadSwitchingMidLineSettings {
    /// Horizontal position at which the switch starts.
    pub position: Decimal,
    /// How much that position jitters.
    pub jitter: Decimal,
}

impl HeadSwitchingMidLineSettings {
    /// The settings that the effect starts with.
    pub open spec fn standard() -> Self {
        HeadSwitchingMidLineSettings {
            position: Decimal { millionths: 950_000 },
            jitter: Decimal { millionths: 30_000 },
        }
    }
}

impl Default for HeadSwitchingMidLineSettings {
    fn default() -> (settings: Self)
        ensures
            settings == Self::standard(),
    {
        HeadSwitchingMidLineSettings {
            position: Decimal { millionths: 950_000 },
            jitter: Decimal { millionths: 30_000 },
        }
    }
}

/// Head-switching artifacts at the bottom of the image.
#[derive(Debug, Clone, PartialEq, Eq)]
pub struct HeadSwitchingSettings {
    /// Total height of the artifact, in scanlines.
    pub height: u32,
    /// How much of the artifact is off-screen.
    pub offset: u32,
    /// How far the artifact shifts rows horizontally.
    pub horiz_shift: Decimal,
    /// The start in mid-line, if enabled.
    pub mid_line: Option<HeadSwitchingMidLineSettings>,
}

impl HeadSwitchingSettings {
    /// The settings that the effect starts with.
    pub open spec fn standard() -> Self {
        HeadSwitchingSettings {
            height: 8,
            offset: 3,
            horiz_shift: Decimal { millionths: 72_000_000 },
            mid_line: Some(HeadSwitchingMidLineSettings::standard()),
        }
    }
}

impl Default for HeadSwitchingSettings {
    fn default() -> (settings: Self)
        ensures
            settings == Self::standard(),
    {
        HeadSwitchingSettings {
            height: 8,
            offset: 3,
            horiz_shift: Decimal { millionths: 72_000_000 },
            mid_line: Some(HeadSwitchingMidLineSettings::default()),
        }
    }
}

/// Noise from a VHS tracking error.
#[derive(Debug, Clone, Copy, PartialEq, Eq)]
pub struct TrackingNoiseSettings {
    /// Total height of the artifacts, in scanlines.
    pub height: u32,
    /// How much the affected scanlines wave back and forth.
    pub wave_intensity: Decimal,
    /// Frequency of speckles in the artifacts.
    pub snow_intensity: Decimal,
    /// How much the speckles cluster by scanline.
    pub snow_anisotropy: Decimal,
    /// Intensity of the noise that is not speckles.
    pub noise_intensity: Decimal,
}

impl TrackingNoiseSettings {
    /// The settings that the effect starts with.
    pub open spec fn standard() -> Self {
        TrackingNoiseSettings {
            height: 12,
            wave_intensity: Decimal { millionths: 15_000_000 },
            snow_intensity: Decimal { millionths: 25_000 },
            snow_anisotropy: Decimal { millionths: 250_000 },
            noise_intensity: Decimal { millionths: 250_000 },
        }
    }
}

impl Default for TrackingNoiseSettings {
    fn default() -> (settings: Self)
        ensures
            settings == Self::standard(),
    {
        TrackingNoiseSettings {
            height: 12,
            wave_intensity: Decimal { millionths: 15_000_000 },
            snow_intensity: Decimal { millionths: 25_000 },
            snow_anisotropy: Decimal { millionths: 250_000 },
            noise_intensity: Decimal { millionths: 250_000 },
        }
    }
}

/// Ringing artifacts, made with a notch filter.
#[derive(Debug, Clone, Copy, PartialEq, Eq)]
pub struct RingingSettings {
    /// Frequency of the ringing, in rings per pixel.
    pub frequency: Decimal,
    /// Power of the notch filter.
    pub power: Decimal,
    /// Intensity of the ringing.
    pub intensity: Decimal,
}

impl RingingSettings {
    /// The settings that the effect starts with.
    pub open spec fn standard() -> Self {
        RingingSettings {
            frequency: Decimal { millionths: 450_000 },
            power: Decimal { millionths: 4_000_000 },
            intensity: Decimal { millionths: 4_000_000 },
        }
    }
}

impl Default for RingingSettings {
    fn default() -> (settings: Self)
        ensures
            settings == Self::standard(),
    {
        RingingSettings {
            frequency: Decimal { millionths: 450_000 },
            power: Decimal { millionths: 4_000_000 },
            intensity: Decimal { millionths: 4_000_000 },
        }
    }
}

/// Fractal noise added to a signal.
#[derive(Debug, Clone, Copy, PartialEq, Eq)]
pub struct FbmNoiseSettings {
    /// Base wavelength of the noise, in pixels.
    pub frequency: Decimal,
    /// Intensity of the noise.
    pub intensity: Decimal,
    /// Octaves of noise.
    pub detail: u32,
}

impl FbmNoiseSettings {
    /// The settings that the effect starts with.
    pub open spec fn standard() -> Self {
        FbmNoiseSettings {
            frequency: Decimal { millionths: 0 },
            intensity: Decimal { millionths: 0 },
            detail: 0,
        }
    }
}

impl Default for FbmNoiseSettings {
    fn default() -> (settings: Self)
        ensures
            settings == Self::standard(),
    {
        FbmNoiseSettings {
            frequency: Decimal { millionths: 0 },
            intensity: Decimal { millionths: 0 },
            detail: 0,
        }
    }
}

/// All settings of the effect.
#[derive(Debug, Clone, PartialEq, Eq)]
#[non_exhaustive]
pub struct NtscEffect {
    pub random_seed: i32,
    pub use_field: UseField,
    pub filter_type: FilterType,
    pub input_luma_filter: LumaLowpass,
    pub chroma_lowpass_in: ChromaLowpass,
    pub chroma_demodulation: ChromaDemodulationFilter,
    pub luma_smear: Decimal,
    pub composite_preemphasis: Decimal,
    pub video_scanline_phase_shift: PhaseShift,
    pub video_scanline_phase_shift_offset: i32,
    pub head_switching: Option<HeadSwitchingSettings>,
    pub tracking_noise: Option<TrackingNoiseSettings>,
    pub composite_noise: Option<FbmNoiseSettings>,
    pub ringing: Option<RingingSettings>,
    pub luma_noise: Option<FbmNoiseSettings>,
    pub chroma_noise: Option<FbmNoiseSettings>,
    pub snow_intensity: Decimal,
    pub snow_anisotropy: Decimal,
    pub chroma_phase_noise_intensity: Decimal,
    pub chroma_phase_error: Decimal,
    pub chroma_delay_horizontal: Decimal,
    pub chroma_delay_vertical: i32,
    pub vhs_settings: Option<VHSSettings>,
    pub chroma_vert_blend: bool,
    pub chroma_lowpass_out: ChromaLowpass,
    pub bandwidth_scale: Decimal,
}

impl NtscEffect {
    /// The settings that the effect starts with.
    pub open spec fn standard() -> Self {
        NtscEffect {
            random_seed: 0,
            use_field: UseField::InterleavedUpper,
            filter_type: FilterType::Butterworth,
            input_luma_filter: LumaLowpass::Notch,
            chroma_lowpass_in: ChromaLowpass::Full,
            chroma_demodulation: ChromaDemodulationFilter::Notch,
            luma_smear: Decimal { millionths: 500_000 },
            composite_preemphasis: Decimal { millionths: 1_000_000 },
            video_scanline_phase_shift: PhaseShift::Degrees180,
            video_scanline_phase_shift_offset: 0,
            head_switching: Some(HeadSwitchingSettings::standard()),
            tracking_noise: Some(TrackingNoiseSettings::standard()),
            composite_noise: Some(FbmNoiseSettings { frequency: Decimal { millionths: 500_000 }, intensity: Decimal { millionths: 50_000 }, detail: 1 }),
            ringing: Some(RingingSettings::standard()),
            luma_noise: Some(FbmNoiseSettings { frequency: Decimal { millionths: 500_000 }, intensity: Decimal { millionths: 10_000 }, detail: 1 }),
            chroma_noise: Some(FbmNoiseSettings { frequency: Decimal { millionths: 50_000 }, intensity: Decimal { millionths: 100_000 }, detail: 2 }),
            snow_intensity: Decimal { millionths: 250 },
            snow_anisotropy: Decimal { millionths: 500_000 },
            chroma_phase_noise_intensity: Decimal { millionths: 1_000 },
            chroma_phase_error: Decimal { millionths: 0 },
            chroma_delay_horizontal: Decimal { millionths: 0 },
            chroma_delay_vertical: 0,
            vhs_settings: Some(VHSSettings::standard()),
            chroma_vert_blend: true,
            chroma_lowpass_out: ChromaLowpass::Full,
            bandwidth_scale: Decimal { millionths: 1_000_000 },
        }
    }
}

impl Default for NtscEffect {
    fn default() -> (settings: Self)
        ensures
            settings == Self::standard(),
    {
        NtscEffect {
            random_seed: 0,
            use_field: UseField::InterleavedUpper,
            filter_type: FilterType::Butterworth,
            input_luma_filter: LumaLowpass::Notch,
            chroma_lowpass_in: ChromaLowpass::Full,
            chroma_demodulation: ChromaDemodulationFilter::Notch,
            luma_smear: Decimal { millionths: 500_000 },
            composite_preemphasis: Decimal { millionths: 1_000_000 },
            video_scanline_phase_shift: PhaseShift::Degrees180,
            video_scanline_phase_shift_offset: 0,
            head_switching: Some(HeadSwitchingSettings::default()),
            tracking_noise: Some(TrackingNoiseSettings::default()),
            composite_noise: Some(FbmNoiseSettings { frequency: Decimal { millionths: 500_000 }, intensity: Decimal { millionths: 50_000 }, detail: 1 }),
            ringing: Some(RingingSettings::default()),
            luma_noise: Some(FbmNoiseSettings { frequency: Decimal { millionths: 500_000 }, intensity: Decimal { millionths: 10_000 }, detail: 1 }),
            chroma_noise: Some(FbmNoiseSettings { frequency: Decimal { millionths: 50_000 }, intensity: Decimal { millionths: 100_000 }, detail: 2 }),
            snow_intensity: Decimal { millionths: 250 },
            snow_anisotropy: Decimal { millionths: 500_000 },
            chroma_phase_noise_intensity: Decimal { millionths: 1_000 },
            chroma_phase_error: Decimal { millionths: 0 },
            chroma_delay_horizontal: Decimal { millionths: 0 },
            chroma_delay_vertical: 0,
            vhs_settings: Some(VHSSettings::default()),
            chroma_vert_blend: true,
            chroma_lowpass_out: ChromaLowpass::Full,
            bandwidth_scale: Decimal { millionths: 1_000_000 },
        }
    }
}

/// [`VHSSettings`] with every block of settings present, enabled or not.
#[derive(Debug, Clone, PartialEq, Eq)]
pub struct VHSSettingsFullSettings {
    pub tape_speed: VHSTapeSpeed,
    pub chroma_loss: Decimal,
    pub sharpen: SettingsBlock<VHSSharpenSettings>,
    pub edge_wave: SettingsBlock<VHSEdgeWaveSettings>,
}

impl VHSSettingsFullSettings {
    /// The full form of `settings`: a block that is present is enabled, and
    /// one that is absent is disabled and holds its standard values.
    pub open spec fn full_of(settings: VHSSettings) -> Self {
        VHSSettingsFullSettings {
            tape_speed: settings.tape_speed,
            chroma_loss: settings.chroma_loss,
            sharpen: SettingsBlock::of(settings.sharpen, VHSSharpenSettings::standard()),
            edge_wave: SettingsBlock::of(settings.edge_wave, VHSEdgeWaveSettings::standard()),
        }
    }

    /// The settings that take effect: those of the enabled blocks.
    pub open spec fn effective(self) -> VHSSettings {
        VHSSettings {
            tape_speed: self.tape_speed,
            chroma_loss: self.chroma_loss,
            sharpen: self.sharpen.enabled_settings(),
            edge_wave: self.edge_wave.enabled_settings(),
        }
    }

    /// Going to the full form and back gives the same settings.
    pub proof fn lemma_full_form_keeps_settings(settings: VHSSettings)
        ensures
            Self::full_of(settings).effective() == settings,
    {
    }
}

impl vstd::std_specs::convert::FromSpecImpl<&VHSSettings> for VHSSettingsFullSettings {
    open spec fn obeys_from_spec() -> bool {
        true
    }

    open spec fn from_spec(value: &VHSSettings) -> Self {
        Self::full_of(*value)
    }
}

impl From<&VHSSettings> for VHSSettingsFullSettings {
    fn from(value: &VHSSettings) -> (full: Self)
        ensures
            full == Self::full_of(*value),
    {
        VHSSettingsFullSettings {
            tape_speed: value.tape_speed,
            chroma_loss: value.chroma_loss,
            sharpen: match &value.sharpen {
                Some(block) => SettingsBlock { enabled: true, settings: *block },
                None => SettingsBlock { enabled: false, settings: VHSSharpenSettings::default() },
            },
            edge_wave: match &value.edge_wave {
                Some(block) => SettingsBlock { enabled: true, settings: *block },
                None => SettingsBlock { enabled: false, settings: VHSEdgeWaveSettings::default() },
            },
        }
    }
}

impl vstd::std_specs::convert::FromSpecImpl<&VHSSettingsFullSettings> for VHSSettings {
    open spec fn obeys_from_spec() -> bool {
        true
    }

    open spec fn from_spec(value: &VHSSettingsFullSettings) -> Self {
        value.effective()
    }
}

impl From<&VHSSettingsFullSettings> for VHSSettings {
    fn from(value: &VHSSettingsFullSettings) -> (settings: Self)
        ensures
            settings == value.effective(),
    {
        VHSSettings {
            tape_speed: value.tape_speed,
            chroma_loss: value.chroma_loss,
            sharpen: if value.sharpen.enabled {
                Some(value.sharpen.settings)
            } else {
                None
            },
            edge_wave: if value.edge_wave.enabled {
                Some(value.edge_wave.settings)
            } else {
                None
            },
        }
    }
}

impl Default for VHSSettingsFullSettings {
    fn default() -> (full: Self)
        ensures
            full == Self::full_of(VHSSettings::standard()),
    {
        VHSSettingsFullSettings::from(&VHSSettings::default())
    }
}

/// [`HeadSwitchingSettings`] with every block of settings present, enabled or
/// not.
#[derive(Debug, Clone, PartialEq, Eq)]
pub struct HeadSwitchingSettingsFullSettings {
    pub height: u32,
    pub offset: u32,
    pub horiz_shift: Decimal,
    pub mid_line: SettingsBlock<HeadSwitchingMidLineSettings>,
}

impl HeadSwitchingSettingsFullSettings {
    /// The full form of `settings`: a block that is present is enabled, and
    /// one that is absent is disabled and holds its standard values.
    pub open spec fn full_of(settings: HeadSwitchingSettings) -> Self {
        HeadSwitchingSettingsFullSettings {
            height: settings.height,
            offset: settings.offset,
            horiz_shift: settings.horiz_shift,
            mid_line: SettingsBlock::of(settings.mid_line, HeadSwitchingMidLineSettings::standard()),
        }
    }

    /// The settings that take effect: those of the enabled blocks.
    pub open spec fn effective(self) -> HeadSwitchingSettings {
        HeadSwitchingSettings {
            height: self.height,
            offset: self.offset,
            horiz_shift: self.horiz_shift,
            mid_line: self.mid_line.enabled_settings(),
        }
    }

    /// Going to the full form and back gives the same settings.
    pub proof fn lemma_full_form_keeps_settings(settings: HeadSwitchingSettings)
        ensures
            Self::full_of(settings).effective() == settings,
    {
    }
}

impl vstd::std_specs::convert::FromSpecImpl<&HeadSwitchingSettings> for HeadSwitchingSettingsFullSettings {
    open spec fn obeys_from_spec() -> bool {
        true
    }

    open spec fn from_spec(value: &HeadSwitchingSettings) -> Self {
        Self::full_of(*value)
    }
}

impl From<&HeadSwitchingSettings> for HeadSwitchingSettingsFullSettings {
    fn from(value: &HeadSwitchingSettings) -> (full: Self)
        ensures
            full == Self::full_of(*value),
    {
        HeadSwitchingSettingsFullSettings {
            height: value.height,
            offset: value.offset,
            horiz_shift: value.horiz_shift,
            mid_line: match &value.mid_line {
                Some(block) => SettingsBlock { enabled: true, settings: *block },
                None => SettingsBlock { enabled: false, settings: HeadSwitchingMidLineSettings::default() },
            },
        }
    }
}

impl vstd::std_specs::convert::FromSpecImpl<&HeadSwitchingSettingsFullSettings> for HeadSwitchingSettings {
    open spec fn obeys_from_spec() -> bool {
        true
    }

    open spec fn from_spec(value: &HeadSwitchingSettingsFullSettings) -> Self {
        value.effective()
    }
}

impl From<&HeadSwitchingSettingsFullSettings> for HeadSwitchingSettings {
    fn from(value: &HeadSwitchingSettingsFullSettings) -> (settings: Self)
        ensures
            settings == value.effective(),
    {
        HeadSwitchingSettings {
            height: value.height,
            offset: value.offset,
            horiz_shift: value.horiz_shift,
            mid_line: if value.mid_line.enabled {
                Some(value.mid_line.settings)
            } else {
                None
            },
        }
    }
}

impl Default for HeadSwitchingSettingsFullSettings {
    fn default() -> (full: Self)
        ensures
            full == Self::full_of(HeadSwitchingSettings::standard()),
    {
        HeadSwitchingSettingsFullSettings::from(&HeadSwitchingSettings::default())
    }
}

/// [`NtscEffect`] with every block of settings present, enabled or not. This
/// is the form in which the settings are edited: a block that is switched off
/// keeps its values.
#[derive(Debug, Clone, PartialEq, Eq)]
pub struct NtscEffectFullSettings {
    pub random_seed: i32,
    pub use_field: UseField,
    pub filter_type: FilterType,
    pub input_luma_filter: LumaLowpass,
    pub chroma_lowpass_in: ChromaLowpass,
    pub chroma_demodulation: ChromaDemodulationFilter,
    pub luma_smear: Decimal,
    pub composite_preemphasis: Decimal,
    pub video_scanline_phase_shift: PhaseShift,
    pub video_scanline_phase_shift_offset: i32,
    pub head_switching: SettingsBlock<HeadSwitchingSettingsFullSettings>,
    pub tracking_noise: SettingsBlock<TrackingNoiseSettings>,
    pub composite_noise: SettingsBlock<FbmNoiseSettings>,
    pub ringing: SettingsBlock<RingingSettings>,
    pub luma_noise: SettingsBlock<FbmNoiseSettings>,
    pub chroma_noise: SettingsBlock<FbmNoiseSettings>,
    pub snow_intensity: Decimal,
    pub snow_anisotropy: Decimal,
    pub chroma_phase_noise_intensity: Decimal,
    pub chroma_phase_error: Decimal,
    pub chroma_delay_horizontal: Decimal,
    pub chroma_delay_vertical: i32,
    pub vhs_settings: SettingsBlock<VHSSettingsFullSettings>,
    pub chroma_vert_blend: bool,
    pub chroma_lowpass_out: ChromaLowpass,
    pub bandwidth_scale: Decimal,
}

impl NtscEffectFullSettings {
    /// The full form of `settings`: a block that is present is enabled, and
    /// one that is absent is disabled and holds its standard values.
    pub open spec fn full_of(settings: NtscEffect) -> Self {
        NtscEffectFullSettings {
            random_seed: settings.random_seed,
            use_field: settings.use_field,
            filter_type: settings.filter_type,
            input_luma_filter: settings.input_luma_filter,
            chroma_lowpass_in: settings.chroma_lowpass_in,
            chroma_demodulation: settings.chroma_demodulation,
            luma_smear: settings.luma_smear,
            composite_preemphasis: settings.composite_preemphasis,
            video_scanline_phase_shift: settings.video_scanline_phase_shift,
            video_scanline_phase_shift_offset: settings.video_scanline_phase_shift_offset,
            head_switching: SettingsBlock::of(
                match settings.head_switching {
                    Some(block) => Some(HeadSwitchingSettingsFullSettings::full_of(block)),
                    None => None,
                },
                HeadSwitchingSettingsFullSettings::full_of(HeadSwitchingSettings::standard()),
            ),
            tracking_noise: SettingsBlock::of(settings.tracking_noise, TrackingNoiseSettings::standard()),
            composite_noise: SettingsBlock::of(settings.composite_noise, FbmNoiseSettings::standard()),
            ringing: SettingsBlock::of(settings.ringing, RingingSettings::standard()),
            luma_noise: SettingsBlock::of(settings.luma_noise, FbmNoiseSettings::standard()),
            chroma_noise: SettingsBlock::of(settings.chroma_noise, FbmNoiseSettings::standard()),
            snow_intensity: settings.snow_intensity,
            snow_anisotropy: settings.snow_anisotropy,
            chroma_phase_noise_intensity: settings.chroma_phase_noise_intensity,
            chroma_phase_error: settings.chroma_phase_error,
            chroma_delay_horizontal: settings.chroma_delay_horizontal,
            chroma_delay_vertical: settings.chroma_delay_vertical,
            vhs_settings: SettingsBlock::of(
                match settings.vhs_settings {
                    Some(block) => Some(VHSSettingsFullSettings::full_of(block)),
                    None => None,
                },
                VHSSettingsFullSettings::full_of(VHSSettings::standard()),
            ),
            chroma_vert_blend: settings.chroma_vert_blend,
            chroma_lowpass_out: settings.chroma_lowpass_out,
            bandwidth_scale: settings.bandwidth_scale,
        }
    }

    /// The settings that take effect: those of the enabled blocks.
    pub open spec fn effective(self) -> NtscEffect {
        NtscEffect {
            random_seed: self.random_seed,
            use_field: self.use_field,
            filter_type: self.filter_type,
            input_luma_filter: self.input_luma_filter,
            chroma_lowpass_in: self.chroma_lowpass_in,
            chroma_demodulation: self.chroma_demodulation,
            luma_smear: self.luma_smear,
            composite_preemphasis: self.composite_preemphasis,
            video_scanline_phase_shift: self.video_scanline_phase_shift,
            video_scanline_phase_shift_offset: self.video_scanline_phase_shift_offset,
            head_switching: match self.head_switching.enabled_settings() {
                Some(block) => Some(block.effective()),
                None => None,
            },
            tracking_noise: self.tracking_noise.enabled_settings(),
            composite_noise: self.composite_noise.enabled_settings(),
            ringing: self.ringing.enabled_settings(),
            luma_noise: self.luma_noise.enabled_settings(),
            chroma_noise: self.chroma_noise.enabled_settings(),
            snow_intensity: self.snow_intensity,
            snow_anisotropy: self.snow_anisotropy,
            chroma_phase_noise_intensity: self.chroma_phase_noise_intensity,
            chroma_phase_error: self.chroma_phase_error,
            chroma_delay_horizontal: self.chroma_delay_horizontal,
            chroma_delay_vertical: self.chroma_delay_vertical,
            vhs_settings: match self.vhs_settings.enabled_settings() {
                Some(block) => Some(block.effective()),
                None => None,
            },
            chroma_vert_blend: self.chroma_vert_blend,
            chroma_lowpass_out: self.chroma_lowpass_out,
            bandwidth_scale: self.bandwidth_scale,
        }
    }

    /// Going to the full form and back gives the same settings.
    pub proof fn lemma_full_form_keeps_settings(settings: NtscEffect)
        ensures
            Self::full_of(settings).effective() == settings,
    {
        if let Some(block) = settings.head_switching {
            HeadSwitchingSettingsFullSettings::lemma_full_form_keeps_settings(block);
        }
        if let Some(block) = settings.vhs_settings {
            VHSSettingsFullSettings::lemma_full_form_keeps_settings(block);
        }
    }
}

impl vstd::std_specs::convert::FromSpecImpl<&NtscEffect> for NtscEffectFullSettings {
    open spec fn obeys_from_spec() -> bool {
        true
    }

    open spec fn from_spec(value: &NtscEffect) -> Self {
        Self::full_of(*value)
    }
}

impl From<&NtscEffect> for NtscEffectFullSettings {
    fn from(value: &NtscEffect) -> (full: Self)
        ensures
            full == Self::full_of(*value),
    {
        NtscEffectFullSettings {
            random_seed: value.random_seed,
            use_field: value.use_field,
            filter_type: value.filter_type,
            input_luma_filter: value.input_luma_filter,
            chroma_lowpass_in: value.chroma_lowpass_in,
            chroma_demodulation: value.chroma_demodulation,
            luma_smear: value.luma_smear,
            composite_preemphasis: value.composite_preemphasis,
            video_scanline_phase_shift: value.video_scanline_phase_shift,
            video_scanline_phase_shift_offset: value.video_scanline_phase_shift_offset,
            head_switching: match &value.head_switching {
                Some(block) => SettingsBlock { enabled: true, settings: HeadSwitchingSettingsFullSettings::from(block) },
                None => SettingsBlock {
                    enabled: false,
                    settings: HeadSwitchingSettingsFullSettings::from(&HeadSwitchingSettings::default()),
                },
            },
            tracking_noise: match &value.tracking_noise {
                Some(block) => SettingsBlock { enabled: true, settings: *block },
                None => SettingsBlock { enabled: false, settings: TrackingNoiseSettings::default() },
            },
            composite_noise: match &value.composite_noise {
                Some(block) => SettingsBlock { enabled: true, settings: *block },
                None => SettingsBlock { enabled: false, settings: FbmNoiseSettings::default() },
            },
            ringing: match &value.ringing {
                Some(block) => SettingsBlock { enabled: true, settings: *block },
                None => SettingsBlock { enabled: false, settings: RingingSettings::default() },
            },
            luma_noise: match &value.luma_noise {
                Some(block) => SettingsBlock { enabled: true, settings: *block },
                None => SettingsBlock { enabled: false, settings: FbmNoiseSettings::default() },
            },
            chroma_noise: match &value.chroma_noise {
                Some(block) => SettingsBlock { enabled: true, settings: *block },
                None => SettingsBlock { enabled: false, settings: FbmNoiseSettings::default() },
            },
            snow_intensity: value.snow_intensity,
            snow_anisotropy: value.snow_anisotropy,
            chroma_phase_noise_intensity: value.chroma_phase_noise_intensity,
            chroma_phase_error: value.chroma_phase_error,
            chroma_delay_horizontal: value.chroma_delay_horizontal,
            chroma_delay_vertical: value.chroma_delay_vertical,
            vhs_settings: match &value.vhs_settings {
                Some(block) => SettingsBlock { enabled: true, settings: VHSSettingsFullSettings::from(block) },
                None => SettingsBlock {
                    enabled: false,
                    settings: VHSSettingsFullSettings::from(&VHSSettings::default()),
                },
            },
            chroma_vert_blend: value.chroma_vert_blend,
            chroma_lowpass_out: value.chroma_lowpass_out,
            bandwidth_scale: value.bandwidth_scale,
        }
    }
}

impl vstd::std_specs::convert::FromSpecImpl<&NtscEffectFullSettings> for NtscEffect {
    open spec fn obeys_from_spec() -> bool {
        true
    }

    open spec fn from_spec(value: &NtscEffectFullSettings) -> Self {
        value.effective()
    }
}

impl From<&NtscEffectFullSettings> for NtscEffect {
    fn from(value: &NtscEffectFullSettings) -> (settings: Self)
        ensures
            settings == value.effective(),
    {
        NtscEffect {
            random_seed: value.random_seed,
            use_field: value.use_field,
            filter_type: value.filter_type,
            input_luma_filter: value.input_luma_filter,
            chroma_lowpass_in: value.chroma_lowpass_in,
            chroma_demodulation: value.chroma_demodulation,
            luma_smear: value.luma_smear,
            composite_preemphasis: value.composite_preemphasis,
            video_scanline_phase_shift: value.video_scanline_phase_shift,
            video_scanline_phase_shift_offset: value.video_scanline_phase_shift_offset,
            head_switching: if value.head_switching.enabled {
                Some(HeadSwitchingSettings::from(&value.head_switching.settings))
            } else {
                None
            },
            tracking_noise: if value.tracking_noise.enabled {
                Some(value.tracking_noise.settings)
            } else {
                None
            },
            composite_noise: if value.composite_noise.enabled {
                Some(value.composite_noise.settings)
            } else {
                None
            },
            ringing: if value.ringing.enabled {
                Some(value.ringing.settings)
            } else {
                None
            },
            luma_noise: if value.luma_noise.enabled {
                Some(value.luma_noise.settings)
            } else {
                None
            },
            chroma_noise: if value.chroma_noise.enabled {
                Some(value.chroma_noise.settings)
            } else {
                None
            },
            snow_intensity: value.snow_intensity,
            snow_anisotropy: value.snow_anisotropy,
            chroma_phase_noise_intensity: value.chroma_phase_noise_intensity,
            chroma_phase_error: value.chroma_phase_error,
            chroma_delay_horizontal: value.chroma_delay_horizontal,
            chroma_delay_vertical: value.chroma_delay_vertical,
            vhs_settings: if value.vhs_settings.enabled {
                Some(VHSSettings::from(&value.vhs_settings.settings))
            } else {
                None
            },
            chroma_vert_blend: value.chroma_vert_blend,
            chroma_lowpass_out: value.chroma_lowpass_out,
            bandwidth_scale: value.bandwidth_scale,
        }
    }
}

impl Default for NtscEffectFullSettings {
    fn default() -> (full: Self)
        ensures
            full == Self::full_of(NtscEffect::standard()),
    {
        NtscEffectFullSettings::from(&NtscEffect::default())
    }
}

/// The values that the standard effect starts with, in their full form.
pub open spec fn standard_defaults() -> NtscEffectFullSettings {
    NtscEffectFullSettings::full_of(NtscEffect::standard())
}


/// The settings of the standard effect for an effect that starts with
/// `default_settings`, in the order in which they are shown.
pub open spec fn settings_for(default_settings: NtscEffectFullSettings) -> Seq<DescriptorModel> {
    seq![
        DescriptorModel {
            label: "Random seed",
            description: None,
            kind: KindModel::IntRange {
                min: i32::MIN,
                max: i32::MAX,
                default_value: default_settings.random_seed,
            },
            id: setting_id::RANDOM_SEED,
        },
        use_field_model(default_settings),
        filter_type_model(default_settings),
        input_luma_filter_model(default_settings),
        chroma_lowpass_in_model(default_settings),
        DescriptorModel {
            label: "Composite preemphasis",
            description: Some("Boost high frequencies in the NTSC signal, sharpening the image and intensifying colors."),
            kind: KindModel::FloatRange {
                min: Decimal { millionths: -1_000_000i64 },
                max: Decimal { millionths: 2_000_000 },
                logarithmic: false,
                default_value: default_settings.composite_preemphasis,
            },
            id: setting_id::COMPOSITE_PREEMPHASIS,
        },
        composite_noise_model(default_settings),
        DescriptorModel {
            label: "Snow",
            description: Some("Frequency of random speckles in the image."),
            kind: KindModel::FloatRange {
                min: Decimal { millionths: 0 },
                max: Decimal { millionths: 100_000_000 },
                logarithmic: true,
                default_value: default_settings.snow_intensity,
            },
            id: setting_id::SNOW_INTENSITY,
        },
        DescriptorModel {
            label: "Snow anisotropy",
            description: Some("Determines whether the speckles are placed truly randomly or concentrated in certain rows."),
            kind: KindModel::Percentage {
                logarithmic: false,
                default_value: default_settings.snow_anisotropy,
            },
            id: setting_id::SNOW_ANISOTROPY,
        },
        video_scanline_phase_shift_model(default_settings),
        DescriptorModel {
            label: "Scanline phase shift offset",
            description: None,
            kind: KindModel::IntRange {
                min: 0,
                max: 4,
                default_value: default_settings.video_scanline_phase_shift_offset,
            },
            id: setting_id::VIDEO_SCANLINE_PHASE_SHIFT_OFFSET,
        },
        chroma_demodulation_model(default_settings),
        DescriptorModel {
            label: "Luma smear",
            description: None,
            kind: KindModel::FloatRange {
                min: Decimal { millionths: 0 },
                max: Decimal { millionths: 1_000_000 },
                logarithmic: false,
                default_value: default_settings.luma_smear,
            },
            id: setting_id::LUMA_SMEAR,
        },
        head_switching_model(default_settings),
        tracking_noise_model(default_settings),
        ringing_model(default_settings),
        luma_noise_model(default_settings),
        chroma_noise_model(default_settings),
        DescriptorModel {
            label: "Chroma phase error",
            description: Some("Phase error for the chrominance signal."),
            kind: KindModel::Percentage {
                logarithmic: false,
                default_value: default_settings.chroma_phase_error,
            },
            id: setting_id::CHROMA_PHASE_ERROR,
        },
        DescriptorModel {
            label: "Chroma phase noise",
            description: Some("Noise applied per-scanline to the phase of the chrominance signal."),
            kind: KindModel::Percentage {
                logarithmic: true,
                default_value: default_settings.chroma_phase_noise_intensity,
            },
            id: setting_id::CHROMA_PHASE_NOISE_INTENSITY,
        },
        DescriptorModel {
            label: "Chroma delay (horizontal)",
            description: Some("Horizontal offset of the chrominance signal."),
            kind: KindModel::FloatRange {
                min: Decimal { millionths: -40_000_000i64 },
                max: Decimal { millionths: 40_000_000 },
                logarithmic: false,
                default_value: default_settings.chroma_delay_horizontal,
            },
            id: setting_id::CHROMA_DELAY_HORIZONTAL,
        },
        DescriptorModel {
            label: "Chroma delay (vertical)",
            description: Some("Vertical offset of the chrominance signal. Usually increases with VHS generation loss."),
            kind: KindModel::IntRange {
                min: -20i32,
                max: 20,
                default_value: default_settings.chroma_delay_vertical,
            },
            id: setting_id::CHROMA_DELAY_VERTICAL,
        },
        vhs_settings_model(default_settings),
        DescriptorModel {
            label: "Vertically blend chroma",
            description: Some("Vertically blend each scanline's chrominance with the scanline above it."),
            kind: KindModel::Boolean { default_value: default_settings.chroma_vert_blend },
            id: setting_id::CHROMA_VERT_BLEND,
        },
        chroma_lowpass_out_model(default_settings),
        DescriptorModel {
            label: "Bandwidth scale",
            description: Some("Horizontally scale the effect by this amount. For 480p video, leave this at 1.0 for the most physically-accurate result."),
            kind: KindModel::FloatRange {
                min: Decimal { millionths: 125_000 },
                max: Decimal { millionths: 8_000_000 },
                logarithmic: false,
                default_value: default_settings.bandwidth_scale,
            },
            id: setting_id::BANDWIDTH_SCALE,
        },
    ]
}

/// The settings of the standard effect.
pub open spec fn standard_settings() -> Seq<DescriptorModel> {
    settings_for(standard_defaults())
}

impl SettingsList {
    /// Construct a list of all the effect settings. This isn't meant to be
    /// mutated: create one instance of it and use that for the whole
    /// application or plugin.
    pub fn new() -> (list: Self)
        ensures
            list.model() == standard_settings(),
    {
        let default_settings = NtscEffectFullSettings::default();
        let v = vec![
            SettingDescriptor {
                label: "Random seed",
                description: None,
                kind: SettingKind::IntRange {
                    min: i32::MIN,
                    max: i32::MAX,
                    default_value: default_settings.random_seed,
                },
                id: setting_id::RANDOM_SEED,
            },
            use_field_descriptor(&default_settings),
            filter_type_descriptor(&default_settings),
            input_luma_filter_descriptor(&default_settings),
            chroma_lowpass_in_descriptor(&default_settings),
            SettingDescriptor {
                label: "Composite preemphasis",
                description: Some("Boost high frequencies in the NTSC signal, sharpening the image and intensifying colors."),
                kind: SettingKind::FloatRange {
                    min: Decimal { millionths: -1_000_000i64 },
                    max: Decimal { millionths: 2_000_000 },
                    logarithmic: false,
                    default_value: default_settings.composite_preemphasis,
                },
                id: setting_id::COMPOSITE_PREEMPHASIS,
            },
            composite_noise_descriptor(&default_settings),
            SettingDescriptor {
                label: "Snow",
                description: Some("Frequency of random speckles in the image."),
                kind: SettingKind::FloatRange {
                    min: Decimal { millionths: 0 },
                    max: Decimal { millionths: 100_000_000 },
                    logarithmic: true,
                    default_value: default_settings.snow_intensity,
                },
                id: setting_id::SNOW_INTENSITY,
            },
            SettingDescriptor {
                label: "Snow anisotropy",
                description: Some("Determines whether the speckles are placed truly randomly or concentrated in certain rows."),
                kind: SettingKind::Percentage {
                    logarithmic: false,
                    default_value: default_settings.snow_anisotropy,
                },
                id: setting_id::SNOW_ANISOTROPY,
            },
            video_scanline_phase_shift_descriptor(&default_settings),
            SettingDescriptor {
                label: "Scanline phase shift offset",
                description: None,
                kind: SettingKind::IntRange {
                    min: 0,
                    max: 4,
                    default_value: default_settings.video_scanline_phase_shift_offset,
                },
                id: setting_id::VIDEO_SCANLINE_PHASE_SHIFT_OFFSET,
            },
            chroma_demodulation_descriptor(&default_settings),
            SettingDescriptor {
                label: "Luma smear",
                description: None,
                kind: SettingKind::FloatRange {
                    min: Decimal { millionths: 0 },
                    max: Decimal { millionths: 1_000_000 },
                    logarithmic: false,
                    default_value: default_settings.luma_smear,
                },
                id: setting_id::LUMA_SMEAR,
            },
            head_switching_descriptor(&default_settings),
            tracking_noise_descriptor(&default_settings),
            ringing_descriptor(&default_settings),
            luma_noise_descriptor(&default_settings),
            chroma_noise_descriptor(&default_settings),
            SettingDescriptor {
                label: "Chroma phase error",
                description: Some("Phase error for the chrominance signal."),
                kind: SettingKind::Percentage {
                    logarithmic: false,
                    default_value: default_settings.chroma_phase_error,
                },
                id: setting_id::CHROMA_PHASE_ERROR,
            },
            SettingDescriptor {
                label: "Chroma phase noise",
                description: Some("Noise applied per-scanline to the phase of the chrominance signal."),
                kind: SettingKind::Percentage {
                    logarithmic: true,
                    default_value: default_settings.chroma_phase_noise_intensity,
                },
                id: setting_id::CHROMA_PHASE_NOISE_INTENSITY,
            },
            SettingDescriptor {
                label: "Chroma delay (horizontal)",
                description: Some("Horizontal offset of the chrominance signal."),
                kind: SettingKind::FloatRange {
                    min: Decimal { millionths: -40_000_000i64 },
                    max: Decimal { millionths: 40_000_000 },
                    logarithmic: false,
                    default_value: default_settings.chroma_delay_horizontal,
                },
                id: setting_id::CHROMA_DELAY_HORIZONTAL,
            },
            SettingDescriptor {
                label: "Chroma delay (vertical)",
                description: Some("Vertical offset of the chrominance signal. Usually increases with VHS generation loss."),
                kind: SettingKind::IntRange {
                    min: -20,
                    max: 20,
                    default_value: default_settings.chroma_delay_vertical,
                },
                id: setting_id::CHROMA_DELAY_VERTICAL,
            },
            vhs_settings_descriptor(&default_settings),
            SettingDescriptor {
                label: "Vertically blend chroma",
                description: Some("Vertically blend each scanline's chrominance with the scanline above it."),
                kind: SettingKind::Boolean { default_value: default_settings.chroma_vert_blend },
                id: setting_id::CHROMA_VERT_BLEND,
            },
            chroma_lowpass_out_descriptor(&default_settings),
            SettingDescriptor {
                label: "Bandwidth scale",
                description: Some("Horizontally scale the effect by this amount. For 480p video, leave this at 1.0 for the most physically-accurate result."),
                kind: SettingKind::FloatRange {
                    min: Decimal { millionths: 125_000 },
                    max: Decimal { millionths: 8_000_000 },
                    logarithmic: false,
                    default_value: default_settings.bandwidth_scale,
                },
                id: setting_id::BANDWIDTH_SCALE,
            },
        ];
        assert(models_of(v@) =~= settings_for(default_settings));
        SettingsList { settings: v }
    }
}

} // verus!
