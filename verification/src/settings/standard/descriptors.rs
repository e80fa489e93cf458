//! The enumerations and the groups among the settings of the standard
//! effect, one by one: what each says, and the descriptor that says it.
//!
//! What a setting starts with is read from the settings that the effect
//! starts with, so that the two cannot drift apart.

use crate::settings::standard::{
    setting_id, ChromaDemodulationFilter, ChromaLowpass, FilterType, LumaLowpass,
    NtscEffectFullSettings, PhaseShift, UseField, VHSTapeSpeed,
};
use crate::settings::{
    models_of, Decimal, DescriptorModel, KindModel, MenuItem, SettingDescriptor, SettingKind,
};
use vstd::prelude::*;

verus! {

/// The setting "Use field".
pub open spec fn use_field_model(default_settings: NtscEffectFullSettings) -> DescriptorModel {
    DescriptorModel {
        label: "Use field",
        description: Some("Choose which rows (\"fields\" in NTSC parlance) of the source image will be used."),
        kind: KindModel::Enumeration {
            options: seq![
                MenuItem {
                    label: "Alternating",
                    description: Some("Skip every other row, alternating between skipping even and odd rows."),
                    index: UseField::Alternating.index(),
                },
                MenuItem {
                    label: "Upper only",
                    description: Some("Skip every lower row, keeping the upper ones."),
                    index: UseField::Upper.index(),
                },
                MenuItem {
                    label: "Lower only",
                    description: Some("Skip every upper row, keeping the lower ones."),
                    index: UseField::Lower.index(),
                },
                MenuItem {
                    label: "Interleaved (upper first)",
                    description: Some("Treat the video as interlaced, with the upper field as the earlier frame."),
                    index: UseField::InterleavedUpper.index(),
                },
                MenuItem {
                    label: "Interleaved (lower first)",
                    description: Some("Treat the video as interlaced, with the lower field as the earlier frame."),
                    index: UseField::InterleavedLower.index(),
                },
                MenuItem {
                    label: "Both",
                    description: Some("Use all rows; don't skip any."),
                    index: UseField::Both.index(),
                },
            ],
            default_value: default_settings.use_field.index(),
        },
        id: setting_id::USE_FIELD,
    }
}

/// The descriptor that says [`use_field_model`].
pub(crate) fn use_field_descriptor(default_settings: &NtscEffectFullSettings) -> (descriptor:
    SettingDescriptor)
    ensures
        descriptor.model() == use_field_model(*default_settings),
{
    let options = vec![
        MenuItem {
            label: "Alternating",
            description: Some("Skip every other row, alternating between skipping even and odd rows."),
            index: UseField::Alternating.to_u32().unwrap(),
        },
        MenuItem {
            label: "Upper only",
            description: Some("Skip every lower row, keeping the upper ones."),
            index: UseField::Upper.to_u32().unwrap(),
        },
        MenuItem {
            label: "Lower only",
            description: Some("Skip every upper row, keeping the lower ones."),
            index: UseField::Lower.to_u32().unwrap(),
        },
        MenuItem {
            label: "Interleaved (upper first)",
            description: Some("Treat the video as interlaced, with the upper field as the earlier frame."),
            index: UseField::InterleavedUpper.to_u32().unwrap(),
        },
        MenuItem {
            label: "Interleaved (lower first)",
            description: Some("Treat the video as interlaced, with the lower field as the earlier frame."),
            index: UseField::InterleavedLower.to_u32().unwrap(),
        },
        MenuItem {
            label: "Both",
            description: Some("Use all rows; don't skip any."),
            index: UseField::Both.to_u32().unwrap(),
        },
    ];
    assert(options@ =~= use_field_model(*default_settings).kind->Enumeration_options);
    SettingDescriptor {
        label: "Use field",
        description: Some("Choose which rows (\"fields\" in NTSC parlance) of the source image will be used."),
        kind: SettingKind::Enumeration {
            options,
            default_value: default_settings.use_field.to_u32().unwrap(),
        },
        id: setting_id::USE_FIELD,
    }
}

/// The setting "Lowpass filter type".
pub open spec fn filter_type_model(default_settings: NtscEffectFullSettings) -> DescriptorModel {
    DescriptorModel {
        label: "Lowpass filter type",
        description: Some("The low-pass filter to use throughout the effect."),
        kind: KindModel::Enumeration {
            options: seq![
                MenuItem {
                    label: "Constant K (blurry)",
                    description: Some("Simple constant-k filter. Produces longer, blurry results."),
                    index: FilterType::ConstantK.index(),
                },
                MenuItem {
                    label: "Butterworth (sharper)",
                    description: Some("Filter with a sharper falloff. Produces sharpened, less blurry results."),
                    index: FilterType::Butterworth.index(),
                },
            ],
            default_value: default_settings.filter_type.index(),
        },
        id: setting_id::FILTER_TYPE,
    }
}

/// The descriptor that says [`filter_type_model`].
pub(crate) fn filter_type_descriptor(default_settings: &NtscEffectFullSettings) -> (descriptor:
    SettingDescriptor)
    ensures
        descriptor.model() == filter_type_model(*default_settings),
{
    let options = vec![
        MenuItem {
            label: "Constant K (blurry)",
            description: Some("Simple constant-k filter. Produces longer, blurry results."),
            index: FilterType::ConstantK.to_u32().unwrap(),
        },
        MenuItem {
            label: "Butterworth (sharper)",
            description: Some("Filter with a sharper falloff. Produces sharpened, less blurry results."),
            index: FilterType::Butterworth.to_u32().unwrap(),
        },
    ];
    assert(options@ =~= filter_type_model(*default_settings).kind->Enumeration_options);
    SettingDescriptor {
        label: "Lowpass filter type",
        description: Some("The low-pass filter to use throughout the effect."),
        kind: SettingKind::Enumeration {
            options,
            default_value: default_settings.filter_type.to_u32().unwrap(),
        },
        id: setting_id::FILTER_TYPE,
    }
}

/// The setting "Input luma filter".
pub open spec fn input_luma_filter_model(default_settings: NtscEffectFullSettings) -> DescriptorModel {
    DescriptorModel {
        label: "Input luma filter",
        description: Some("Filter the input luminance to decrease rainbow artifacts."),
        kind: KindModel::Enumeration {
            options: seq![
                MenuItem {
                    label: "Notch",
                    description: Some("Apply a notch filter to the input luminance signal. Sharp, but has ringing artifacts."),
                    index: LumaLowpass::Notch.index(),
                },
                MenuItem {
                    label: "Box",
                    description: Some("Apply a simple box filter to the input luminance signal."),
                    index: LumaLowpass::Box.index(),
                },
                MenuItem {
                    label: "None",
                    description: Some("Do not filter the luminance signal. Adds rainbow artifacts."),
                    index: LumaLowpass::Off.index(),
                },
            ],
            default_value: default_settings.input_luma_filter.index(),
        },
        id: setting_id::INPUT_LUMA_FILTER,
    }
}

/// The descriptor that says [`input_luma_filter_model`].
pub(crate) fn input_luma_filter_descriptor(default_settings: &NtscEffectFullSettings) -> (descriptor:
    SettingDescriptor)
    ensures
        descriptor.model() == input_luma_filter_model(*default_settings),
{
    let options = vec![
        MenuItem {
            label: "Notch",
            description: Some("Apply a notch filter to the input luminance signal. Sharp, but has ringing artifacts."),
            index: LumaLowpass::Notch.to_u32().unwrap(),
        },
        MenuItem {
            label: "Box",
            description: Some("Apply a simple box filter to the input luminance signal."),
            index: LumaLowpass::Box.to_u32().unwrap(),
        },
        MenuItem {
            label: "None",
            description: Some("Do not filter the luminance signal. Adds rainbow artifacts."),
            index: LumaLowpass::Off.to_u32().unwrap(),
        },
    ];
    assert(options@ =~= input_luma_filter_model(*default_settings).kind->Enumeration_options);
    SettingDescriptor {
        label: "Input luma filter",
        description: Some("Filter the input luminance to decrease rainbow artifacts."),
        kind: SettingKind::Enumeration {
            options,
            default_value: default_settings.input_luma_filter.to_u32().unwrap(),
        },
        id: setting_id::INPUT_LUMA_FILTER,
    }
}

/// The setting "Chroma low-pass in".
pub open spec fn chroma_lowpass_in_model(default_settings: NtscEffectFullSettings) -> DescriptorModel {
    DescriptorModel {
        label: "Chroma low-pass in",
        description: Some("Apply a low-pass filter to the input chroma signal."),
        kind: KindModel::Enumeration {
            options: seq![
                MenuItem {
                    label: "Full",
                    description: Some("Full-intensity low-pass filter."),
                    index: ChromaLowpass::Full.index(),
                },
                MenuItem {
                    label: "Light",
                    description: Some("Less intense low-pass filter."),
                    index: ChromaLowpass::Light.index(),
                },
                MenuItem {
                    label: "None",
                    description: Some("No low-pass filter."),
                    index: ChromaLowpass::Off.index(),
                },
            ],
            default_value: default_settings.chroma_lowpass_in.index(),
        },
        id: setting_id::CHROMA_LOWPASS_IN,
    }
}

/// The descriptor that says [`chroma_lowpass_in_model`].
pub(crate) fn chroma_lowpass_in_descriptor(default_settings: &NtscEffectFullSettings) -> (descriptor:
    SettingDescriptor)
    ensures
        descriptor.model() == chroma_lowpass_in_model(*default_settings),
{
    let options = vec![
        MenuItem {
            label: "Full",
            description: Some("Full-intensity low-pass filter."),
            index: ChromaLowpass::Full.to_u32().unwrap(),
        },
        MenuItem {
            label: "Light",
            description: Some("Less intense low-pass filter."),
            index: ChromaLowpass::Light.to_u32().unwrap(),
        },
        MenuItem {
            label: "None",
            description: Some("No low-pass filter."),
            index: ChromaLowpass::Off.to_u32().unwrap(),
        },
    ];
    assert(options@ =~= chroma_lowpass_in_model(*default_settings).kind->Enumeration_options);
    SettingDescriptor {
        label: "Chroma low-pass in",
        description: Some("Apply a low-pass filter to the input chroma signal."),
        kind: SettingKind::Enumeration {
            options,
            default_value: default_settings.chroma_lowpass_in.to_u32().unwrap(),
        },
        id: setting_id::CHROMA_LOWPASS_IN,
    }
}

/// The group "Composite noise".
pub open spec fn composite_noise_model(default_settings: NtscEffectFullSettings) -> DescriptorModel {
    DescriptorModel {
        label: "Composite noise",
        description: Some("Noise applied to the composite NTSC signal."),
        kind: KindModel::Group {
            children: seq![
                DescriptorModel {
                    label: "Intensity",
                    description: Some("Intensity of the noise."),
                    kind: KindModel::Percentage {
                        logarithmic: true,
                        default_value: default_settings.composite_noise.settings.intensity,
                    },
                    id: setting_id::COMPOSITE_NOISE_INTENSITY,
                },
                DescriptorModel {
                    label: "Frequency",
                    description: Some("Base wavelength, in pixels, of the noise."),
                    kind: KindModel::FloatRange {
                        min: Decimal { millionths: 0 },
                        max: Decimal { millionths: 1_000_000 },
                        logarithmic: false,
                        default_value: default_settings.composite_noise.settings.frequency,
                    },
                    id: setting_id::COMPOSITE_NOISE_FREQUENCY,
                },
                DescriptorModel {
                    label: "Detail",
                    description: Some("Octaves of noise."),
                    kind: KindModel::IntRange {
                        min: 1,
                        max: 5,
                        default_value: default_settings.composite_noise.settings.detail as i32,
                    },
                    id: setting_id::COMPOSITE_NOISE_DETAIL,
                },
            ],
            default_value: true,
        },
        id: setting_id::COMPOSITE_NOISE,
    }
}

/// The descriptor that says [`composite_noise_model`].
pub(crate) fn composite_noise_descriptor(default_settings: &NtscEffectFullSettings) -> (descriptor:
    SettingDescriptor)
    ensures
        descriptor.model() == composite_noise_model(*default_settings),
{
    let children = vec![
        SettingDescriptor {
            label: "Intensity",
            description: Some("Intensity of the noise."),
            kind: SettingKind::Percentage {
                logarithmic: true,
                default_value: default_settings.composite_noise.settings.intensity,
            },
            id: setting_id::COMPOSITE_NOISE_INTENSITY,
        },
        SettingDescriptor {
            label: "Frequency",
            description: Some("Base wavelength, in pixels, of the noise."),
            kind: SettingKind::FloatRange {
                min: Decimal { millionths: 0 },
                max: Decimal { millionths: 1_000_000 },
                logarithmic: false,
                default_value: default_settings.composite_noise.settings.frequency,
            },
            id: setting_id::COMPOSITE_NOISE_FREQUENCY,
        },
        SettingDescriptor {
            label: "Detail",
            description: Some("Octaves of noise."),
            kind: SettingKind::IntRange {
                min: 1,
                max: 5,
                default_value: default_settings.composite_noise.settings.detail as i32,
            },
            id: setting_id::COMPOSITE_NOISE_DETAIL,
        },
    ];
    assert(models_of(children@) =~= composite_noise_model(*default_settings).kind->Group_children);
    let descriptor = SettingDescriptor {
        label: "Composite noise",
        description: Some("Noise applied to the composite NTSC signal."),
        kind: SettingKind::Group { children, default_value: true },
        id: setting_id::COMPOSITE_NOISE,
    };
    proof {
        descriptor.lemma_group_model();
    }
    descriptor
}

/// The setting "Scanline phase shift".
pub open spec fn video_scanline_phase_shift_model(default_settings: NtscEffectFullSettings) -> DescriptorModel {
    DescriptorModel {
        label: "Scanline phase shift",
        description: Some("Phase shift of the chrominance signal each scanline. Usually 180 degrees."),
        kind: KindModel::Enumeration {
            options: seq![
                MenuItem {
                    label: "0 degrees",
                    description: None,
                    index: PhaseShift::Degrees0.index(),
                },
                MenuItem {
                    label: "90 degrees",
                    description: None,
                    index: PhaseShift::Degrees90.index(),
                },
                MenuItem {
                    label: "180 degrees",
                    description: None,
                    index: PhaseShift::Degrees180.index(),
                },
                MenuItem {
                    label: "270 degrees",
                    description: None,
                    index: PhaseShift::Degrees270.index(),
                },
            ],
            default_value: default_settings.video_scanline_phase_shift.index(),
        },
        id: setting_id::VIDEO_SCANLINE_PHASE_SHIFT,
    }
}

/// The descriptor that says [`video_scanline_phase_shift_model`].
pub(crate) fn video_scanline_phase_shift_descriptor(default_settings: &NtscEffectFullSettings) -> (descriptor:
    SettingDescriptor)
    ensures
        descriptor.model() == video_scanline_phase_shift_model(*default_settings),
{
    let options = vec![
        MenuItem {
            label: "0 degrees",
            description: None,
            index: PhaseShift::Degrees0.to_u32().unwrap(),
        },
        MenuItem {
            label: "90 degrees",
            description: None,
            index: PhaseShift::Degrees90.to_u32().unwrap(),
        },
        MenuItem {
            label: "180 degrees",
            description: None,
            index: PhaseShift::Degrees180.to_u32().unwrap(),
        },
        MenuItem {
            label: "270 degrees",
            description: None,
            index: PhaseShift::Degrees270.to_u32().unwrap(),
        },
    ];
    assert(options@ =~= video_scanline_phase_shift_model(*default_settings).kind->Enumeration_options);
    SettingDescriptor {
        label: "Scanline phase shift",
        description: Some("Phase shift of the chrominance signal each scanline. Usually 180 degrees."),
        kind: SettingKind::Enumeration {
            options,
            default_value: default_settings.video_scanline_phase_shift.to_u32().unwrap(),
        },
        id: setting_id::VIDEO_SCANLINE_PHASE_SHIFT,
    }
}

/// The setting "Chroma demodulation filter".
pub open spec fn chroma_demodulation_model(default_settings: NtscEffectFullSettings) -> DescriptorModel {
    DescriptorModel {
        label: "Chroma demodulation filter",
        description: Some("Filter used to modulate the chrominance (color) data out of the composite NTSC signal."),
        kind: KindModel::Enumeration {
            options: seq![
                MenuItem {
                    label: "Box",
                    description: Some("Simple horizontal box blur."),
                    index: ChromaDemodulationFilter::Box.index(),
                },
                MenuItem {
                    label: "Notch",
                    description: Some("Notch filter. Sharper than a box blur, but with ringing artifacts."),
                    index: ChromaDemodulationFilter::Notch.index(),
                },
                MenuItem {
                    label: "1-line comb",
                    description: Some("Average the current row with the previous one, phase-cancelling the chrominance signals. Only works if the scanline phase shift is 180 degrees."),
                    index: ChromaDemodulationFilter::OneLineComb.index(),
                },
                MenuItem {
                    label: "2-line comb",
                    description: Some("Average the current row with the previous and next ones, phase-cancelling the chrominance signals. Only works if the scanline phase shift is 180 degrees."),
                    index: ChromaDemodulationFilter::TwoLineComb.index(),
                },
            ],
            default_value: default_settings.chroma_demodulation.index(),
        },
        id: setting_id::CHROMA_DEMODULATION,
    }
}

/// The descriptor that says [`chroma_demodulation_model`].
pub(crate) fn chroma_demodulation_descriptor(default_settings: &NtscEffectFullSettings) -> (descriptor:
    SettingDescriptor)
    ensures
        descriptor.model() == chroma_demodulation_model(*default_settings),
{
    let options = vec![
        MenuItem {
            label: "Box",
            description: Some("Simple horizontal box blur."),
            index: ChromaDemodulationFilter::Box.to_u32().unwrap(),
        },
        MenuItem {
            label: "Notch",
            description: Some("Notch filter. Sharper than a box blur, but with ringing artifacts."),
            index: ChromaDemodulationFilter::Notch.to_u32().unwrap(),
        },
        MenuItem {
            label: "1-line comb",
            description: Some("Average the current row with the previous one, phase-cancelling the chrominance signals. Only works if the scanline phase shift is 180 degrees."),
            index: ChromaDemodulationFilter::OneLineComb.to_u32().unwrap(),
        },
        MenuItem {
            label: "2-line comb",
            description: Some("Average the current row with the previous and next ones, phase-cancelling the chrominance signals. Only works if the scanline phase shift is 180 degrees."),
            index: ChromaDemodulationFilter::TwoLineComb.to_u32().unwrap(),
        },
    ];
    assert(options@ =~= chroma_demodulation_model(*default_settings).kind->Enumeration_options);
    SettingDescriptor {
        label: "Chroma demodulation filter",
        description: Some("Filter used to modulate the chrominance (color) data out of the composite NTSC signal."),
        kind: SettingKind::Enumeration {
            options,
            default_value: default_settings.chroma_demodulation.to_u32().unwrap(),
        },
        id: setting_id::CHROMA_DEMODULATION,
    }
}

/// The group "Start mid-line".
pub open spec fn head_switching_start_mid_line_model(default_settings: NtscEffectFullSettings) -> DescriptorModel {
    DescriptorModel {
        label: "Start mid-line",
        description: Some("Start the head-switching artifact mid-scanline, with some static where it begins."),
        kind: KindModel::Group {
            children: seq![
                DescriptorModel {
                    label: "Position",
                    description: Some("Horizontal position at which the head-switching starts."),
                    kind: KindModel::Percentage {
                        logarithmic: false,
                        default_value: default_settings.head_switching.settings.mid_line.settings.position,
                    },
                    id: setting_id::HEAD_SWITCHING_MID_LINE_POSITION,
                },
                DescriptorModel {
                    label: "Jitter",
                    description: Some("How much the head-switching artifact \"jitters\" horizontally."),
                    kind: KindModel::Percentage {
                        logarithmic: true,
                        default_value: default_settings.head_switching.settings.mid_line.settings.jitter,
                    },
                    id: setting_id::HEAD_SWITCHING_MID_LINE_JITTER,
                },
            ],
            default_value: true,
        },
        id: setting_id::HEAD_SWITCHING_START_MID_LINE,
    }
}

/// The descriptor that says [`head_switching_start_mid_line_model`].
pub(crate) fn head_switching_start_mid_line_descriptor(default_settings: &NtscEffectFullSettings) -> (descriptor:
    SettingDescriptor)
    ensures
        descriptor.model() == head_switching_start_mid_line_model(*default_settings),
{
    let children = vec![
        SettingDescriptor {
            label: "Position",
            description: Some("Horizontal position at which the head-switching starts."),
            kind: SettingKind::Percentage {
                logarithmic: false,
                default_value: default_settings.head_switching.settings.mid_line.settings.position,
            },
            id: setting_id::HEAD_SWITCHING_MID_LINE_POSITION,
        },
        SettingDescriptor {
            label: "Jitter",
            description: Some("How much the head-switching artifact \"jitters\" horizontally."),
            kind: SettingKind::Percentage {
                logarithmic: true,
                default_value: default_settings.head_switching.settings.mid_line.settings.jitter,
            },
            id: setting_id::HEAD_SWITCHING_MID_LINE_JITTER,
        },
    ];
    assert(models_of(children@) =~= head_switching_start_mid_line_model(*default_settings).kind->Group_children);
    let descriptor = SettingDescriptor {
        label: "Start mid-line",
        description: Some("Start the head-switching artifact mid-scanline, with some static where it begins."),
        kind: SettingKind::Group { children, default_value: true },
        id: setting_id::HEAD_SWITCHING_START_MID_LINE,
    };
    proof {
        descriptor.lemma_group_model();
    }
    descriptor
}

/// The group "Head switching".
pub open spec fn head_switching_model(default_settings: NtscEffectFullSettings) -> DescriptorModel {
    DescriptorModel {
        label: "Head switching",
        description: Some("Emulate VHS head-switching artifacts at the bottom of the image."),
        kind: KindModel::Group {
            children: seq![
                DescriptorModel {
                    label: "Height",
                    description: Some("Total height of the head-switching artifact."),
                    kind: KindModel::IntRange {
                        min: 0,
                        max: 24,
                        default_value: default_settings.head_switching.settings.height as i32,
                    },
                    id: setting_id::HEAD_SWITCHING_HEIGHT,
                },
                DescriptorModel {
                    label: "Offset",
                    description: Some("How much of the head-switching artifact is off-screen."),
                    kind: KindModel::IntRange {
                        min: 0,
                        max: 24,
                        default_value: default_settings.head_switching.settings.offset as i32,
                    },
                    id: setting_id::HEAD_SWITCHING_OFFSET,
                },
                DescriptorModel {
                    label: "Horizontal shift",
                    description: Some("How much the head-switching artifact shifts rows horizontally."),
                    kind: KindModel::FloatRange {
                        min: Decimal { millionths: -100_000_000i64 },
                        max: Decimal { millionths: 100_000_000 },
                        logarithmic: false,
                        default_value: default_settings.head_switching.settings.horiz_shift,
                    },
                    id: setting_id::HEAD_SWITCHING_HORIZONTAL_SHIFT,
                },
                head_switching_start_mid_line_model(default_settings),
            ],
            default_value: true,
        },
        id: setting_id::HEAD_SWITCHING,
    }
}

/// The descriptor that says [`head_switching_model`].
pub(crate) fn head_switching_descriptor(default_settings: &NtscEffectFullSettings) -> (descriptor:
    SettingDescriptor)
    ensures
        descriptor.model() == head_switching_model(*default_settings),
{
    let children = vec![
        SettingDescriptor {
            label: "Height",
            description: Some("Total height of the head-switching artifact."),
            kind: SettingKind::IntRange {
                min: 0,
                max: 24,
                default_value: default_settings.head_switching.settings.height as i32,
            },
            id: setting_id::HEAD_SWITCHING_HEIGHT,
        },
        SettingDescriptor {
            label: "Offset",
            description: Some("How much of the head-switching artifact is off-screen."),
            kind: SettingKind::IntRange {
                min: 0,
                max: 24,
                default_value: default_settings.head_switching.settings.offset as i32,
            },
            id: setting_id::HEAD_SWITCHING_OFFSET,
        },
        SettingDescriptor {
            label: "Horizontal shift",
            description: Some("How much the head-switching artifact shifts rows horizontally."),
            kind: SettingKind::FloatRange {
                min: Decimal { millionths: -100_000_000i64 },
                max: Decimal { millionths: 100_000_000 },
                logarithmic: false,
                default_value: default_settings.head_switching.settings.horiz_shift,
            },
            id: setting_id::HEAD_SWITCHING_HORIZONTAL_SHIFT,
        },
        head_switching_start_mid_line_descriptor(default_settings),
    ];
    assert(models_of(children@) =~= head_switching_model(*default_settings).kind->Group_children);
    let descriptor = SettingDescriptor {
        label: "Head switching",
        description: Some("Emulate VHS head-switching artifacts at the bottom of the image."),
        kind: SettingKind::Group { children, default_value: true },
        id: setting_id::HEAD_SWITCHING,
    };
    proof {
        descriptor.lemma_group_model();
    }
    descriptor
}

/// The group "Tracking noise".
pub open spec fn tracking_noise_model(default_settings: NtscEffectFullSettings) -> DescriptorModel {
    DescriptorModel {
        label: "Tracking noise",
        description: Some("Emulate noise from VHS tracking error."),
        kind: KindModel::Group {
            children: seq![
                DescriptorModel {
                    label: "Height",
                    description: Some("Total height of the tracking artifacts."),
                    kind: KindModel::IntRange {
                        min: 0,
                        max: 120,
                        default_value: default_settings.tracking_noise.settings.height as i32,
                    },
                    id: setting_id::TRACKING_NOISE_HEIGHT,
                },
                DescriptorModel {
                    label: "Wave intensity",
                    description: Some("How much the affected scanlines \"wave\" back and forth."),
                    kind: KindModel::FloatRange {
                        min: Decimal { millionths: -50_000_000i64 },
                        max: Decimal { millionths: 50_000_000 },
                        logarithmic: false,
                        default_value: default_settings.tracking_noise.settings.wave_intensity,
                    },
                    id: setting_id::TRACKING_NOISE_WAVE_INTENSITY,
                },
                DescriptorModel {
                    label: "Snow intensity",
                    description: Some("Frequency of speckle-type noise in the artifacts."),
                    kind: KindModel::FloatRange {
                        min: Decimal { millionths: 0 },
                        max: Decimal { millionths: 1_000_000 },
                        logarithmic: true,
                        default_value: default_settings.tracking_noise.settings.snow_intensity,
                    },
                    id: setting_id::TRACKING_NOISE_SNOW_INTENSITY,
                },
                DescriptorModel {
                    label: "Snow anisotropy",
                    description: Some("How much the speckles are clustered by scanline."),
                    kind: KindModel::Percentage {
                        logarithmic: false,
                        default_value: default_settings.tracking_noise.settings.snow_intensity,
                    },
                    id: setting_id::TRACKING_NOISE_SNOW_ANISOTROPY,
                },
                DescriptorModel {
                    label: "Noise intensity",
                    description: Some("Intensity of non-speckle noise."),
                    kind: KindModel::Percentage {
                        logarithmic: true,
                        default_value: default_settings.tracking_noise.settings.noise_intensity,
                    },
                    id: setting_id::TRACKING_NOISE_NOISE_INTENSITY,
                },
            ],
            default_value: true,
        },
        id: setting_id::TRACKING_NOISE,
    }
}

/// The descriptor that says [`tracking_noise_model`].
pub(crate) fn tracking_noise_descriptor(default_settings: &NtscEffectFullSettings) -> (descriptor:
    SettingDescriptor)
    ensures
        descriptor.model() == tracking_noise_model(*default_settings),
{
    let children = vec![
        SettingDescriptor {
            label: "Height",
            description: Some("Total height of the tracking artifacts."),
            kind: SettingKind::IntRange {
                min: 0,
                max: 120,
                default_value: default_settings.tracking_noise.settings.height as i32,
            },
            id: setting_id::TRACKING_NOISE_HEIGHT,
        },
        SettingDescriptor {
            label: "Wave intensity",
            description: Some("How much the affected scanlines \"wave\" back and forth."),
            kind: SettingKind::FloatRange {
                min: Decimal { millionths: -50_000_000i64 },
                max: Decimal { millionths: 50_000_000 },
                logarithmic: false,
                default_value: default_settings.tracking_noise.settings.wave_intensity,
            },
            id: setting_id::TRACKING_NOISE_WAVE_INTENSITY,
        },
        SettingDescriptor {
            label: "Snow intensity",
            description: Some("Frequency of speckle-type noise in the artifacts."),
            kind: SettingKind::FloatRange {
                min: Decimal { millionths: 0 },
                max: Decimal { millionths: 1_000_000 },
                logarithmic: true,
                default_value: default_settings.tracking_noise.settings.snow_intensity,
            },
            id: setting_id::TRACKING_NOISE_SNOW_INTENSITY,
        },
        SettingDescriptor {
            label: "Snow anisotropy",
            description: Some("How much the speckles are clustered by scanline."),
            kind: SettingKind::Percentage {
                logarithmic: false,
                default_value: default_settings.tracking_noise.settings.snow_intensity,
            },
            id: setting_id::TRACKING_NOISE_SNOW_ANISOTROPY,
        },
        SettingDescriptor {
            label: "Noise intensity",
            description: Some("Intensity of non-speckle noise."),
            kind: SettingKind::Percentage {
                logarithmic: true,
                default_value: default_settings.tracking_noise.settings.noise_intensity,
            },
            id: setting_id::TRACKING_NOISE_NOISE_INTENSITY,
        },
    ];
    assert(models_of(children@) =~= tracking_noise_model(*default_settings).kind->Group_children);
    let descriptor = SettingDescriptor {
        label: "Tracking noise",
        description: Some("Emulate noise from VHS tracking error."),
        kind: SettingKind::Group { children, default_value: true },
        id: setting_id::TRACKING_NOISE,
    };
    proof {
        descriptor.lemma_group_model();
    }
    descriptor
}

/// The group "Ringing".
pub open spec fn ringing_model(default_settings: NtscEffectFullSettings) -> DescriptorModel {
    DescriptorModel {
        label: "Ringing",
        description: Some("Additional ringing artifacts, simulated with a notch filter."),
        kind: KindModel::Group {
            children: seq![
                DescriptorModel {
                    label: "Frequency",
                    description: Some("Frequency/period of the ringing, in \"rings per pixel\"."),
                    kind: KindModel::Percentage {
                        logarithmic: false,
                        default_value: default_settings.ringing.settings.frequency,
                    },
                    id: setting_id::RINGING_FREQUENCY,
                },
                DescriptorModel {
                    label: "Power",
                    description: Some("The power of the notch filter / how far out the ringing extends."),
                    kind: KindModel::FloatRange {
                        min: Decimal { millionths: 1_000_000 },
                        max: Decimal { millionths: 10_000_000 },
                        logarithmic: false,
                        default_value: default_settings.ringing.settings.power,
                    },
                    id: setting_id::RINGING_POWER,
                },
                DescriptorModel {
                    label: "Scale",
                    description: Some("Intensity of the ringing."),
                    kind: KindModel::FloatRange {
                        min: Decimal { millionths: 0 },
                        max: Decimal { millionths: 10_000_000 },
                        logarithmic: false,
                        default_value: default_settings.ringing.settings.intensity,
                    },
                    id: setting_id::RINGING_SCALE,
                },
            ],
            default_value: true,
        },
        id: setting_id::RINGING,
    }
}

/// The descriptor that says [`ringing_model`].
pub(crate) fn ringing_descriptor(default_settings: &NtscEffectFullSettings) -> (descriptor:
    SettingDescriptor)
    ensures
        descriptor.model() == ringing_model(*default_settings),
{
    let children = vec![
        SettingDescriptor {
            label: "Frequency",
            description: Some("Frequency/period of the ringing, in \"rings per pixel\"."),
            kind: SettingKind::Percentage {
                logarithmic: false,
                default_value: default_settings.ringing.settings.frequency,
            },
            id: setting_id::RINGING_FREQUENCY,
        },
        SettingDescriptor {
            label: "Power",
            description: Some("The power of the notch filter / how far out the ringing extends."),
            kind: SettingKind::FloatRange {
                min: Decimal { millionths: 1_000_000 },
                max: Decimal { millionths: 10_000_000 },
                logarithmic: false,
                default_value: default_settings.ringing.settings.power,
            },
            id: setting_id::RINGING_POWER,
        },
        SettingDescriptor {
            label: "Scale",
            description: Some("Intensity of the ringing."),
            kind: SettingKind::FloatRange {
                min: Decimal { millionths: 0 },
                max: Decimal { millionths: 10_000_000 },
                logarithmic: false,
                default_value: default_settings.ringing.settings.intensity,
            },
            id: setting_id::RINGING_SCALE,
        },
    ];
    assert(models_of(children@) =~= ringing_model(*default_settings).kind->Group_children);
    let descriptor = SettingDescriptor {
        label: "Ringing",
        description: Some("Additional ringing artifacts, simulated with a notch filter."),
        kind: SettingKind::Group { children, default_value: true },
        id: setting_id::RINGING,
    };
    proof {
        descriptor.lemma_group_model();
    }
    descriptor
}

/// The group "Luma noise".
pub open spec fn luma_noise_model(default_settings: NtscEffectFullSettings) -> DescriptorModel {
    DescriptorModel {
        label: "Luma noise",
        description: Some("Noise applied to the luminance signal. Useful for higher-frequency noise than the \"Composite noise\" setting can provide."),
        kind: KindModel::Group {
            children: seq![
                DescriptorModel {
                    label: "Intensity",
                    description: Some("Intensity of the noise."),
                    kind: KindModel::Percentage {
                        logarithmic: true,
                        default_value: default_settings.luma_noise.settings.intensity,
                    },
                    id: setting_id::LUMA_NOISE_INTENSITY,
                },
                DescriptorModel {
                    label: "Frequency",
                    description: Some("Base wavelength, in pixels, of the noise."),
                    kind: KindModel::FloatRange {
                        min: Decimal { millionths: 0 },
                        max: Decimal { millionths: 1_000_000 },
                        logarithmic: false,
                        default_value: default_settings.luma_noise.settings.frequency,
                    },
                    id: setting_id::LUMA_NOISE_FREQUENCY,
                },
                DescriptorModel {
                    label: "Detail",
                    description: Some("Octaves of noise."),
                    kind: KindModel::IntRange {
                        min: 1,
                        max: 5,
                        default_value: default_settings.luma_noise.settings.detail as i32,
                    },
                    id: setting_id::LUMA_NOISE_DETAIL,
                },
            ],
            default_value: true,
        },
        id: setting_id::LUMA_NOISE,
    }
}

/// The descriptor that says [`luma_noise_model`].
pub(crate) fn luma_noise_descriptor(default_settings: &NtscEffectFullSettings) -> (descriptor:
    SettingDescriptor)
    ensures
        descriptor.model() == luma_noise_model(*default_settings),
{
    let children = vec![
        SettingDescriptor {
            label: "Intensity",
            description: Some("Intensity of the noise."),
            kind: SettingKind::Percentage {
                logarithmic: true,
                default_value: default_settings.luma_noise.settings.intensity,
            },
            id: setting_id::LUMA_NOISE_INTENSITY,
        },
        SettingDescriptor {
            label: "Frequency",
            description: Some("Base wavelength, in pixels, of the noise."),
            kind: SettingKind::FloatRange {
                min: Decimal { millionths: 0 },
                max: Decimal { millionths: 1_000_000 },
                logarithmic: false,
                default_value: default_settings.luma_noise.settings.frequency,
            },
            id: setting_id::LUMA_NOISE_FREQUENCY,
        },
        SettingDescriptor {
            label: "Detail",
            description: Some("Octaves of noise."),
            kind: SettingKind::IntRange {
                min: 1,
                max: 5,
                default_value: default_settings.luma_noise.settings.detail as i32,
            },
            id: setting_id::LUMA_NOISE_DETAIL,
        },
    ];
    assert(models_of(children@) =~= luma_noise_model(*default_settings).kind->Group_children);
    let descriptor = SettingDescriptor {
        label: "Luma noise",
        description: Some("Noise applied to the luminance signal. Useful for higher-frequency noise than the \"Composite noise\" setting can provide."),
        kind: SettingKind::Group { children, default_value: true },
        id: setting_id::LUMA_NOISE,
    };
    proof {
        descriptor.lemma_group_model();
    }
    descriptor
}

/// The group "Chroma noise".
pub open spec fn chroma_noise_model(default_settings: NtscEffectFullSettings) -> DescriptorModel {
    DescriptorModel {
        label: "Chroma noise",
        description: Some("Noise applied to the chrominance signal."),
        kind: KindModel::Group {
            children: seq![
                DescriptorModel {
                    label: "Intensity",
                    description: Some("Intensity of the noise."),
                    kind: KindModel::Percentage {
                        logarithmic: true,
                        default_value: default_settings.chroma_noise.settings.intensity,
                    },
                    id: setting_id::CHROMA_NOISE_INTENSITY,
                },
                DescriptorModel {
                    label: "Frequency",
                    description: Some("Base wavelength, in pixels, of the noise."),
                    kind: KindModel::FloatRange {
                        min: Decimal { millionths: 0 },
                        max: Decimal { millionths: 500_000 },
                        logarithmic: false,
                        default_value: default_settings.chroma_noise.settings.frequency,
                    },
                    id: setting_id::CHROMA_NOISE_FREQUENCY,
                },
                DescriptorModel {
                    label: "Detail",
                    description: Some("Octaves of noise."),
                    kind: KindModel::IntRange {
                        min: 1,
                        max: 5,
                        default_value: default_settings.chroma_noise.settings.detail as i32,
                    },
                    id: setting_id::CHROMA_NOISE_DETAIL,
                },
            ],
            default_value: true,
        },
        id: setting_id::CHROMA_NOISE,
    }
}

/// The descriptor that says [`chroma_noise_model`].
pub(crate) fn chroma_noise_descriptor(default_settings: &NtscEffectFullSettings) -> (descriptor:
    SettingDescriptor)
    ensures
        descriptor.model() == chroma_noise_model(*default_settings),
{
    let children = vec![
        SettingDescriptor {
            label: "Intensity",
            description: Some("Intensity of the noise."),
            kind: SettingKind::Percentage {
                logarithmic: true,
                default_value: default_settings.chroma_noise.settings.intensity,
            },
            id: setting_id::CHROMA_NOISE_INTENSITY,
        },
        SettingDescriptor {
            label: "Frequency",
            description: Some("Base wavelength, in pixels, of the noise."),
            kind: SettingKind::FloatRange {
                min: Decimal { millionths: 0 },
                max: Decimal { millionths: 500_000 },
                logarithmic: false,
                default_value: default_settings.chroma_noise.settings.frequency,
            },
            id: setting_id::CHROMA_NOISE_FREQUENCY,
        },
        SettingDescriptor {
            label: "Detail",
            description: Some("Octaves of noise."),
            kind: SettingKind::IntRange {
                min: 1,
                max: 5,
                default_value: default_settings.chroma_noise.settings.detail as i32,
            },
            id: setting_id::CHROMA_NOISE_DETAIL,
        },
    ];
    assert(models_of(children@) =~= chroma_noise_model(*default_settings).kind->Group_children);
    let descriptor = SettingDescriptor {
        label: "Chroma noise",
        description: Some("Noise applied to the chrominance signal."),
        kind: SettingKind::Group { children, default_value: true },
        id: setting_id::CHROMA_NOISE,
    };
    proof {
        descriptor.lemma_group_model();
    }
    descriptor
}

/// The setting "Tape speed".
pub open spec fn vhs_tape_speed_model(default_settings: NtscEffectFullSettings) -> DescriptorModel {
    DescriptorModel {
        label: "Tape speed",
        description: Some("Emulate cutoff of high-frequency data at various VHS recording speeds."),
        kind: KindModel::Enumeration {
            options: seq![
                MenuItem {
                    label: "SP (Standard Play)",
                    description: None,
                    index: VHSTapeSpeed::SP.index(),
                },
                MenuItem {
                    label: "LP (Long Play)",
                    description: None,
                    index: VHSTapeSpeed::LP.index(),
                },
                MenuItem {
                    label: "EP (Extended Play)",
                    description: None,
                    index: VHSTapeSpeed::EP.index(),
                },
                MenuItem {
                    label: "None",
                    description: None,
                    index: 0,
                },
            ],
            default_value: default_settings.vhs_settings.settings.tape_speed.index(),
        },
        id: setting_id::VHS_TAPE_SPEED,
    }
}

/// The descriptor that says [`vhs_tape_speed_model`].
pub(crate) fn vhs_tape_speed_descriptor(default_settings: &NtscEffectFullSettings) -> (descriptor:
    SettingDescriptor)
    ensures
        descriptor.model() == vhs_tape_speed_model(*default_settings),
{
    let options = vec![
        MenuItem {
            label: "SP (Standard Play)",
            description: None,
            index: VHSTapeSpeed::SP.to_u32().unwrap(),
        },
        MenuItem {
            label: "LP (Long Play)",
            description: None,
            index: VHSTapeSpeed::LP.to_u32().unwrap(),
        },
        MenuItem {
            label: "EP (Extended Play)",
            description: None,
            index: VHSTapeSpeed::EP.to_u32().unwrap(),
        },
        MenuItem {
            label: "None",
            description: None,
            index: 0,
        },
    ];
    assert(options@ =~= vhs_tape_speed_model(*default_settings).kind->Enumeration_options);
    SettingDescriptor {
        label: "Tape speed",
        description: Some("Emulate cutoff of high-frequency data at various VHS recording speeds."),
        kind: SettingKind::Enumeration {
            options,
            default_value: default_settings.vhs_settings.settings.tape_speed.to_u32().unwrap(),
        },
        id: setting_id::VHS_TAPE_SPEED,
    }
}

/// The group "Sharpen".
pub open spec fn vhs_sharpen_enabled_model(default_settings: NtscEffectFullSettings) -> DescriptorModel {
    DescriptorModel {
        label: "Sharpen",
        description: Some("Sharpening of the image, as done by some VHS decks."),
        kind: KindModel::Group {
            children: seq![
                DescriptorModel {
                    label: "Intensity",
                    description: Some("Amount of sharpening to apply."),
                    kind: KindModel::FloatRange {
                        min: Decimal { millionths: 0 },
                        max: Decimal { millionths: 5_000_000 },
                        logarithmic: false,
                        default_value: default_settings.vhs_settings.settings.sharpen.settings.intensity,
                    },
                    id: setting_id::VHS_SHARPEN_INTENSITY,
                },
                DescriptorModel {
                    label: "Frequency",
                    description: Some("Frequency / radius of the sharpening, relative to the tape speed's cutoff frequency."),
                    kind: KindModel::FloatRange {
                        min: Decimal { millionths: 500_000 },
                        max: Decimal { millionths: 4_000_000 },
                        logarithmic: false,
                        default_value: default_settings.vhs_settings.settings.sharpen.settings.frequency,
                    },
                    id: setting_id::VHS_SHARPEN_FREQUENCY,
                },
            ],
            default_value: true,
        },
        id: setting_id::VHS_SHARPEN_ENABLED,
    }
}

/// The descriptor that says [`vhs_sharpen_enabled_model`].
pub(crate) fn vhs_sharpen_enabled_descriptor(default_settings: &NtscEffectFullSettings) -> (descriptor:
    SettingDescriptor)
    ensures
        descriptor.model() == vhs_sharpen_enabled_model(*default_settings),
{
    let children = vec![
        SettingDescriptor {
            label: "Intensity",
            description: Some("Amount of sharpening to apply."),
            kind: SettingKind::FloatRange {
                min: Decimal { millionths: 0 },
                max: Decimal { millionths: 5_000_000 },
                logarithmic: false,
                default_value: default_settings.vhs_settings.settings.sharpen.settings.intensity,
            },
            id: setting_id::VHS_SHARPEN_INTENSITY,
        },
        SettingDescriptor {
            label: "Frequency",
            description: Some("Frequency / radius of the sharpening, relative to the tape speed's cutoff frequency."),
            kind: SettingKind::FloatRange {
                min: Decimal { millionths: 500_000 },
                max: Decimal { millionths: 4_000_000 },
                logarithmic: false,
                default_value: default_settings.vhs_settings.settings.sharpen.settings.frequency,
            },
            id: setting_id::VHS_SHARPEN_FREQUENCY,
        },
    ];
    assert(models_of(children@) =~= vhs_sharpen_enabled_model(*default_settings).kind->Group_children);
    let descriptor = SettingDescriptor {
        label: "Sharpen",
        description: Some("Sharpening of the image, as done by some VHS decks."),
        kind: SettingKind::Group { children, default_value: true },
        id: setting_id::VHS_SHARPEN_ENABLED,
    };
    proof {
        descriptor.lemma_group_model();
    }
    descriptor
}

/// The group "Edge wave".
pub open spec fn vhs_edge_wave_enabled_model(default_settings: NtscEffectFullSettings) -> DescriptorModel {
    DescriptorModel {
        label: "Edge wave",
        description: Some("Horizontal waving of the image."),
        kind: KindModel::Group {
            children: seq![
                DescriptorModel {
                    label: "Intensity",
                    description: Some("Horizontal waving of the image, in pixels."),
                    kind: KindModel::FloatRange {
                        min: Decimal { millionths: 0 },
                        max: Decimal { millionths: 20_000_000 },
                        logarithmic: false,
                        default_value: default_settings.vhs_settings.settings.edge_wave.settings.intensity,
                    },
                    id: setting_id::VHS_EDGE_WAVE_INTENSITY,
                },
                DescriptorModel {
                    label: "Speed",
                    description: Some("Speed at which the horizontal waving occurs."),
                    kind: KindModel::FloatRange {
                        min: Decimal { millionths: 0 },
                        max: Decimal { millionths: 10_000_000 },
                        logarithmic: false,
                        default_value: default_settings.vhs_settings.settings.edge_wave.settings.speed,
                    },
                    id: setting_id::VHS_EDGE_WAVE_SPEED,
                },
                DescriptorModel {
                    label: "Frequency",
                    description: Some("Base wavelength for the horizontal waving."),
                    kind: KindModel::FloatRange {
                        min: Decimal { millionths: 0 },
                        max: Decimal { millionths: 500_000 },
                        logarithmic: false,
                        default_value: default_settings.vhs_settings.settings.edge_wave.settings.frequency,
                    },
                    id: setting_id::VHS_EDGE_WAVE_FREQUENCY,
                },
                DescriptorModel {
                    label: "Detail",
                    description: Some("Octaves of noise for the waves."),
                    kind: KindModel::IntRange {
                        min: 1,
                        max: 5,
                        default_value: default_settings.vhs_settings.settings.edge_wave.settings.detail,
                    },
                    id: setting_id::VHS_EDGE_WAVE_DETAIL,
                },
            ],
            default_value: true,
        },
        id: setting_id::VHS_EDGE_WAVE_ENABLED,
    }
}

/// The descriptor that says [`vhs_edge_wave_enabled_model`].
pub(crate) fn vhs_edge_wave_enabled_descriptor(default_settings: &NtscEffectFullSettings) -> (descriptor:
    SettingDescriptor)
    ensures
        descriptor.model() == vhs_edge_wave_enabled_model(*default_settings),
{
    let children = vec![
        SettingDescriptor {
            label: "Intensity",
            description: Some("Horizontal waving of the image, in pixels."),
            kind: SettingKind::FloatRange {
                min: Decimal { millionths: 0 },
                max: Decimal { millionths: 20_000_000 },
                logarithmic: false,
                default_value: default_settings.vhs_settings.settings.edge_wave.settings.intensity,
            },
            id: setting_id::VHS_EDGE_WAVE_INTENSITY,
        },
        SettingDescriptor {
            label: "Speed",
            description: Some("Speed at which the horizontal waving occurs."),
            kind: SettingKind::FloatRange {
                min: Decimal { millionths: 0 },
                max: Decimal { millionths: 10_000_000 },
                logarithmic: false,
                default_value: default_settings.vhs_settings.settings.edge_wave.settings.speed,
            },
            id: setting_id::VHS_EDGE_WAVE_SPEED,
        },
        SettingDescriptor {
            label: "Frequency",
            description: Some("Base wavelength for the horizontal waving."),
            kind: SettingKind::FloatRange {
                min: Decimal { millionths: 0 },
                max: Decimal { millionths: 500_000 },
                logarithmic: false,
                default_value: default_settings.vhs_settings.settings.edge_wave.settings.frequency,
            },
            id: setting_id::VHS_EDGE_WAVE_FREQUENCY,
        },
        SettingDescriptor {
            label: "Detail",
            description: Some("Octaves of noise for the waves."),
            kind: SettingKind::IntRange {
                min: 1,
                max: 5,
                default_value: default_settings.vhs_settings.settings.edge_wave.settings.detail,
            },
            id: setting_id::VHS_EDGE_WAVE_DETAIL,
        },
    ];
    assert(models_of(children@) =~= vhs_edge_wave_enabled_model(*default_settings).kind->Group_children);
    let descriptor = SettingDescriptor {
        label: "Edge wave",
        description: Some("Horizontal waving of the image."),
        kind: SettingKind::Group { children, default_value: true },
        id: setting_id::VHS_EDGE_WAVE_ENABLED,
    };
    proof {
        descriptor.lemma_group_model();
    }
    descriptor
}

/// The group "VHS emulation".
pub open spec fn vhs_settings_model(default_settings: NtscEffectFullSettings) -> DescriptorModel {
    DescriptorModel {
        label: "VHS emulation",
        description: None,
        kind: KindModel::Group {
            children: seq![
                vhs_tape_speed_model(default_settings),
                DescriptorModel {
                    label: "Chroma loss",
                    description: Some("Chance that the chrominance signal is completely lost in each scanline."),
                    kind: KindModel::Percentage {
                        logarithmic: true,
                        default_value: default_settings.vhs_settings.settings.chroma_loss,
                    },
                    id: setting_id::VHS_CHROMA_LOSS,
                },
                vhs_sharpen_enabled_model(default_settings),
                vhs_edge_wave_enabled_model(default_settings),
            ],
            default_value: true,
        },
        id: setting_id::VHS_SETTINGS,
    }
}

/// The descriptor that says [`vhs_settings_model`].
pub(crate) fn vhs_settings_descriptor(default_settings: &NtscEffectFullSettings) -> (descriptor:
    SettingDescriptor)
    ensures
        descriptor.model() == vhs_settings_model(*default_settings),
{
    let children = vec![
        vhs_tape_speed_descriptor(default_settings),
        SettingDescriptor {
            label: "Chroma loss",
            description: Some("Chance that the chrominance signal is completely lost in each scanline."),
            kind: SettingKind::Percentage {
                logarithmic: true,
                default_value: default_settings.vhs_settings.settings.chroma_loss,
            },
            id: setting_id::VHS_CHROMA_LOSS,
        },
        vhs_sharpen_enabled_descriptor(default_settings),
        vhs_edge_wave_enabled_descriptor(default_settings),
    ];
    assert(models_of(children@) =~= vhs_settings_model(*default_settings).kind->Group_children);
    let descriptor = SettingDescriptor {
        label: "VHS emulation",
        description: None,
        kind: SettingKind::Group { children, default_value: true },
        id: setting_id::VHS_SETTINGS,
    };
    proof {
        descriptor.lemma_group_model();
    }
    descriptor
}

/// The setting "Chroma low-pass out".
pub open spec fn chroma_lowpass_out_model(default_settings: NtscEffectFullSettings) -> DescriptorModel {
    DescriptorModel {
        label: "Chroma low-pass out",
        description: Some("Apply a low-pass filter to the output chroma signal."),
        kind: KindModel::Enumeration {
            options: seq![
                MenuItem {
                    label: "Full",
                    description: Some("Full-intensity low-pass filter."),
                    index: ChromaLowpass::Full.index(),
                },
                MenuItem {
                    label: "Light",
                    description: Some("Less intense low-pass filter."),
                    index: ChromaLowpass::Light.index(),
                },
                MenuItem {
                    label: "None",
                    description: Some("No low-pass filter."),
                    index: ChromaLowpass::Off.index(),
                },
            ],
            default_value: default_settings.chroma_lowpass_out.index(),
        },
        id: setting_id::CHROMA_LOWPASS_OUT,
    }
}

/// The descriptor that says [`chroma_lowpass_out_model`].
pub(crate) fn chroma_lowpass_out_descriptor(default_settings: &NtscEffectFullSettings) -> (descriptor:
    SettingDescriptor)
    ensures
        descriptor.model() == chroma_lowpass_out_model(*default_settings),
{
    let options = vec![
        MenuItem {
            label: "Full",
            description: Some("Full-intensity low-pass filter."),
            index: ChromaLowpass::Full.to_u32().unwrap(),
        },
        MenuItem {
            label: "Light",
            description: Some("Less intense low-pass filter."),
            index: ChromaLowpass::Light.to_u32().unwrap(),
        },
        MenuItem {
            label: "None",
            description: Some("No low-pass filter."),
            index: ChromaLowpass::Off.to_u32().unwrap(),
        },
    ];
    assert(options@ =~= chroma_lowpass_out_model(*default_settings).kind->Enumeration_options);
    SettingDescriptor {
        label: "Chroma low-pass out",
        description: Some("Apply a low-pass filter to the output chroma signal."),
        kind: SettingKind::Enumeration {
            options,
            default_value: default_settings.chroma_lowpass_out.to_u32().unwrap(),
        },
        id: setting_id::CHROMA_LOWPASS_OUT,
    }
}

} // verus!
