//! The numbers by which the settings of the standard effect are known.
//!
//! A number, once given, stays with its setting: saved presets refer to it.

use vstd::prelude::*;

verus! {

pub const CHROMA_LOWPASS_IN: u32 = 0;

pub const COMPOSITE_PREEMPHASIS: u32 = 1;

pub const VIDEO_SCANLINE_PHASE_SHIFT: u32 = 2;

pub const VIDEO_SCANLINE_PHASE_SHIFT_OFFSET: u32 = 3;

pub const COMPOSITE_NOISE_INTENSITY: u32 = 4;

pub const CHROMA_NOISE_INTENSITY: u32 = 5;

pub const SNOW_INTENSITY: u32 = 6;

pub const CHROMA_PHASE_NOISE_INTENSITY: u32 = 7;

pub const CHROMA_DELAY_HORIZONTAL: u32 = 8;

pub const CHROMA_DELAY_VERTICAL: u32 = 9;

pub const CHROMA_LOWPASS_OUT: u32 = 10;

pub const HEAD_SWITCHING: u32 = 11;

pub const HEAD_SWITCHING_HEIGHT: u32 = 12;

pub const HEAD_SWITCHING_OFFSET: u32 = 13;

pub const HEAD_SWITCHING_HORIZONTAL_SHIFT: u32 = 14;

pub const TRACKING_NOISE: u32 = 15;

pub const TRACKING_NOISE_HEIGHT: u32 = 16;

pub const TRACKING_NOISE_WAVE_INTENSITY: u32 = 17;

pub const TRACKING_NOISE_SNOW_INTENSITY: u32 = 18;

pub const RINGING: u32 = 19;

pub const RINGING_FREQUENCY: u32 = 20;

pub const RINGING_POWER: u32 = 21;

pub const RINGING_SCALE: u32 = 22;

pub const VHS_SETTINGS: u32 = 23;

pub const VHS_TAPE_SPEED: u32 = 24;

pub const CHROMA_VERT_BLEND: u32 = 25;

pub const VHS_CHROMA_LOSS: u32 = 26;

pub const VHS_SHARPEN_INTENSITY: u32 = 27;

pub const VHS_EDGE_WAVE_INTENSITY: u32 = 28;

pub const VHS_EDGE_WAVE_SPEED: u32 = 29;

pub const USE_FIELD: u32 = 30;

pub const TRACKING_NOISE_NOISE_INTENSITY: u32 = 31;

pub const BANDWIDTH_SCALE: u32 = 32;

pub const CHROMA_DEMODULATION: u32 = 33;

pub const SNOW_ANISOTROPY: u32 = 34;

pub const TRACKING_NOISE_SNOW_ANISOTROPY: u32 = 35;

pub const RANDOM_SEED: u32 = 36;

pub const CHROMA_PHASE_ERROR: u32 = 37;

pub const INPUT_LUMA_FILTER: u32 = 38;

pub const VHS_EDGE_WAVE_ENABLED: u32 = 39;

pub const VHS_EDGE_WAVE_FREQUENCY: u32 = 40;

pub const VHS_EDGE_WAVE_DETAIL: u32 = 41;

pub const CHROMA_NOISE: u32 = 42;

pub const CHROMA_NOISE_FREQUENCY: u32 = 43;

pub const CHROMA_NOISE_DETAIL: u32 = 44;

pub const LUMA_SMEAR: u32 = 45;

pub const FILTER_TYPE: u32 = 46;

pub const VHS_SHARPEN_ENABLED: u32 = 47;

pub const VHS_SHARPEN_FREQUENCY: u32 = 48;

pub const HEAD_SWITCHING_START_MID_LINE: u32 = 49;

pub const HEAD_SWITCHING_MID_LINE_POSITION: u32 = 50;

pub const HEAD_SWITCHING_MID_LINE_JITTER: u32 = 51;

pub const COMPOSITE_NOISE: u32 = 52;

pub const COMPOSITE_NOISE_FREQUENCY: u32 = 53;

pub const COMPOSITE_NOISE_DETAIL: u32 = 54;

pub const LUMA_NOISE: u32 = 55;

pub const LUMA_NOISE_FREQUENCY: u32 = 56;

pub const LUMA_NOISE_INTENSITY: u32 = 57;

pub const LUMA_NOISE_DETAIL: u32 = 58;

/// The name under which the setting with number `id` is saved.
pub open spec fn name_of(id: u32) -> Option<&'static str> {
    match id {
        0 => Some("chroma_lowpass_in"),
        1 => Some("composite_preemphasis"),
        2 => Some("video_scanline_phase_shift"),
        3 => Some("video_scanline_phase_shift_offset"),
        4 => Some("composite_noise_intensity"),
        5 => Some("chroma_noise_intensity"),
        6 => Some("snow_intensity"),
        7 => Some("chroma_phase_noise_intensity"),
        8 => Some("chroma_delay_horizontal"),
        9 => Some("chroma_delay_vertical"),
        10 => Some("chroma_lowpass_out"),
        11 => Some("head_switching"),
        12 => Some("head_switching_height"),
        13 => Some("head_switching_offset"),
        14 => Some("head_switching_horizontal_shift"),
        15 => Some("tracking_noise"),
        16 => Some("tracking_noise_height"),
        17 => Some("tracking_noise_wave_intensity"),
        18 => Some("tracking_noise_snow_intensity"),
        19 => Some("ringing"),
        20 => Some("ringing_frequency"),
        21 => Some("ringing_power"),
        22 => Some("ringing_scale"),
        23 => Some("vhs_settings"),
        24 => Some("vhs_tape_speed"),
        25 => Some("vhs_chroma_vert_blend"),
        26 => Some("vhs_chroma_loss"),
        27 => Some("vhs_sharpen"),
        28 => Some("vhs_edge_wave"),
        29 => Some("vhs_edge_wave_speed"),
        30 => Some("use_field"),
        31 => Some("tracking_noise_noise_intensity"),
        32 => Some("bandwidth_scale"),
        33 => Some("chroma_demodulation"),
        34 => Some("snow_anisotropy"),
        35 => Some("tracking_noise_snow_anisotropy"),
        36 => Some("random_seed"),
        37 => Some("chroma_phase_error"),
        38 => Some("input_luma_filter"),
        39 => Some("vhs_edge_wave_enabled"),
        40 => Some("vhs_edge_wave_frequency"),
        41 => Some("vhs_edge_wave_detail"),
        42 => Some("chroma_noise"),
        43 => Some("chroma_noise_frequency"),
        44 => Some("chroma_noise_detail"),
        45 => Some("luma_smear"),
        46 => Some("filter_type"),
        47 => Some("vhs_sharpen_enabled"),
        48 => Some("vhs_sharpen_frequency"),
        49 => Some("head_switching_start_mid_line"),
        50 => Some("head_switching_mid_line_position"),
        51 => Some("head_switching_mid_line_jitter"),
        52 => Some("composite_noise"),
        53 => Some("composite_noise_frequency"),
        54 => Some("composite_noise_detail"),
        55 => Some("luma_noise"),
        56 => Some("luma_noise_frequency"),
        57 => Some("luma_noise_intensity"),
        58 => Some("luma_noise_detail"),
        _ => None,
    }
}

/// Computes [`name_of`].
pub fn name(id: u32) -> (name: Option<&'static str>)
    ensures
        name == name_of(id),
{
    match id {
        0 => Some("chroma_lowpass_in"),
        1 => Some("composite_preemphasis"),
        2 => Some("video_scanline_phase_shift"),
        3 => Some("video_scanline_phase_shift_offset"),
        4 => Some("composite_noise_intensity"),
        5 => Some("chroma_noise_intensity"),
        6 => Some("snow_intensity"),
        7 => Some("chroma_phase_noise_intensity"),
        8 => Some("chroma_delay_horizontal"),
        9 => Some("chroma_delay_vertical"),
        10 => Some("chroma_lowpass_out"),
        11 => Some("head_switching"),
        12 => Some("head_switching_height"),
        13 => Some("head_switching_offset"),
        14 => Some("head_switching_horizontal_shift"),
        15 => Some("tracking_noise"),
        16 => Some("tracking_noise_height"),
        17 => Some("tracking_noise_wave_intensity"),
        18 => Some("tracking_noise_snow_intensity"),
        19 => Some("ringing"),
        20 => Some("ringing_frequency"),
        21 => Some("ringing_power"),
        22 => Some("ringing_scale"),
        23 => Some("vhs_settings"),
        24 => Some("vhs_tape_speed"),
        25 => Some("vhs_chroma_vert_blend"),
        26 => Some("vhs_chroma_loss"),
        27 => Some("vhs_sharpen"),
        28 => Some("vhs_edge_wave"),
        29 => Some("vhs_edge_wave_speed"),
        30 => Some("use_field"),
        31 => Some("tracking_noise_noise_intensity"),
        32 => Some("bandwidth_scale"),
        33 => Some("chroma_demodulation"),
        34 => Some("snow_anisotropy"),
        35 => Some("tracking_noise_snow_anisotropy"),
        36 => Some("random_seed"),
        37 => Some("chroma_phase_error"),
        38 => Some("input_luma_filter"),
        39 => Some("vhs_edge_wave_enabled"),
        40 => Some("vhs_edge_wave_frequency"),
        41 => Some("vhs_edge_wave_detail"),
        42 => Some("chroma_noise"),
        43 => Some("chroma_noise_frequency"),
        44 => Some("chroma_noise_detail"),
        45 => Some("luma_smear"),
        46 => Some("filter_type"),
        47 => Some("vhs_sharpen_enabled"),
        48 => Some("vhs_sharpen_frequency"),
        49 => Some("head_switching_start_mid_line"),
        50 => Some("head_switching_mid_line_position"),
        51 => Some("head_switching_mid_line_jitter"),
        52 => Some("composite_noise"),
        53 => Some("composite_noise_frequency"),
        54 => Some("composite_noise_detail"),
        55 => Some("luma_noise"),
        56 => Some("luma_noise_frequency"),
        57 => Some("luma_noise_intensity"),
        58 => Some("luma_noise_detail"),
        _ => None,
    }
}

} // verus!
