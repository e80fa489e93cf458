use ntscrs::settings::standard::setting_id;
use ntscrs::settings::standard::{
    ChromaDemodulationFilter, ChromaLowpass, FbmNoiseSettings, FilterType,
    HeadSwitchingMidLineSettings, HeadSwitchingSettings, HeadSwitchingSettingsFullSettings,
    LumaLowpass, NtscEffect, NtscEffectFullSettings, PhaseShift, RingingSettings,
    TrackingNoiseSettings, UseField, VHSEdgeWaveSettings, VHSSettings, VHSSettingsFullSettings,
    VHSSharpenSettings, VHSTapeSpeed,
};
use ntscrs::settings::{Decimal, MenuItem, SettingDescriptor, SettingKind, SettingsBlock, SettingsList};

fn dec(text: &str) -> Decimal {
    let negative = text.starts_with('-');
    let body = text.trim_start_matches('-');
    let (whole, fraction) = match body.split_once('.') {
        Some((w, f)) => (w, f),
        None => (body, ""),
    };
    assert!(fraction.len() <= 6);
    let mut digits = String::from(fraction);
    while digits.len() < 6 {
        digits.push('0');
    }
    let millionths = whole.parse::<i64>().unwrap() * 1_000_000 + digits.parse::<i64>().unwrap();
    Decimal { millionths: if negative { -millionths } else { millionths } }
}

fn as_f32(value: Decimal) -> f32 {
    value.millionths as f32 / 1_000_000.0
}

#[test]
fn decimals_stand_for_the_numbers_as_written() {
    assert_eq!(dec("0.25"), Decimal { millionths: 250_000 });
    assert_eq!(dec("72.0"), Decimal { millionths: 72_000_000 });
    assert_eq!(dec("0.000025"), Decimal { millionths: 25 });
    assert_eq!(dec("-100"), Decimal { millionths: -100_000_000 });
    assert_eq!(as_f32(dec("0.45")), 0.45f32);
    assert_eq!(as_f32(dec("0.000025")), 0.000025f32);
    assert_eq!(as_f32(dec("0.00025")), 0.00025f32);
    assert_eq!(as_f32(dec("0.03")), 0.03f32);
    assert_eq!(as_f32(dec("0.125")), 0.125f32);
}

#[test]
fn small_blocks_start_with_their_standard_values() {
    assert_eq!(
        VHSSharpenSettings::default(),
        VHSSharpenSettings { intensity: dec("0.25"), frequency: dec("1.0") }
    );
    assert_eq!(
        VHSEdgeWaveSettings::default(),
        VHSEdgeWaveSettings {
            intensity: dec("0.5"),
            speed: dec("4.0"),
            frequency: dec("0.05"),
            detail: 2
        }
    );
    assert_eq!(
        HeadSwitchingMidLineSettings::default(),
        HeadSwitchingMidLineSettings { position: dec("0.95"), jitter: dec("0.03") }
    );
    assert_eq!(
        TrackingNoiseSettings::default(),
        TrackingNoiseSettings {
            height: 12,
            wave_intensity: dec("15.0"),
            snow_intensity: dec("0.025"),
            snow_anisotropy: dec("0.25"),
            noise_intensity: dec("0.25"),
        }
    );
    assert_eq!(
        RingingSettings::default(),
        RingingSettings { frequency: dec("0.45"), power: dec("4.0"), intensity: dec("4.0") }
    );
    assert_eq!(
        FbmNoiseSettings::default(),
        FbmNoiseSettings { frequency: dec("0"), intensity: dec("0"), detail: 0 }
    );
}

#[test]
fn vhs_and_head_switching_start_with_every_block_enabled() {
    assert_eq!(
        VHSSettings::default(),
        VHSSettings {
            tape_speed: VHSTapeSpeed::LP,
            chroma_loss: dec("0.000025"),
            sharpen: Some(VHSSharpenSettings::default()),
            edge_wave: Some(VHSEdgeWaveSettings::default()),
        }
    );
    assert_eq!(
        HeadSwitchingSettings::default(),
        HeadSwitchingSettings {
            height: 8,
            offset: 3,
            horiz_shift: dec("72.0"),
            mid_line: Some(HeadSwitchingMidLineSettings::default()),
        }
    );
}

#[test]
fn effect_starts_with_its_standard_values() {
    let effect = NtscEffect::default();
    assert_eq!(effect.random_seed, 0);
    assert_eq!(effect.use_field, UseField::InterleavedUpper);
    assert_eq!(effect.filter_type, FilterType::Butterworth);
    assert_eq!(effect.input_luma_filter, LumaLowpass::Notch);
    assert_eq!(effect.chroma_lowpass_in, ChromaLowpass::Full);
    assert_eq!(effect.chroma_demodulation, ChromaDemodulationFilter::Notch);
    assert_eq!(effect.luma_smear, dec("0.5"));
    assert_eq!(effect.chroma_lowpass_out, ChromaLowpass::Full);
    assert_eq!(effect.composite_preemphasis, dec("1.0"));
    assert_eq!(effect.video_scanline_phase_shift, PhaseShift::Degrees180);
    assert_eq!(effect.video_scanline_phase_shift_offset, 0);
    assert_eq!(effect.head_switching, Some(HeadSwitchingSettings::default()));
    assert_eq!(effect.tracking_noise, Some(TrackingNoiseSettings::default()));
    assert_eq!(effect.ringing, Some(RingingSettings::default()));
    assert_eq!(effect.snow_intensity, dec("0.00025"));
    assert_eq!(effect.snow_anisotropy, dec("0.5"));
    assert_eq!(
        effect.composite_noise,
        Some(FbmNoiseSettings { frequency: dec("0.5"), intensity: dec("0.05"), detail: 1 })
    );
    assert_eq!(
        effect.luma_noise,
        Some(FbmNoiseSettings { frequency: dec("0.5"), intensity: dec("0.01"), detail: 1 })
    );
    assert_eq!(
        effect.chroma_noise,
        Some(FbmNoiseSettings { frequency: dec("0.05"), intensity: dec("0.1"), detail: 2 })
    );
    assert_eq!(effect.chroma_phase_noise_intensity, dec("0.001"));
    assert_eq!(effect.chroma_phase_error, dec("0.0"));
    assert_eq!(effect.chroma_delay_horizontal, dec("0.0"));
    assert_eq!(effect.chroma_delay_vertical, 0);
    assert_eq!(effect.vhs_settings, Some(VHSSettings::default()));
    assert!(effect.chroma_vert_blend);
    assert_eq!(effect.bandwidth_scale, dec("1.0"));
}

#[test]
fn full_form_of_the_standard_effect_has_every_block_enabled() {
    let full = NtscEffectFullSettings::default();
    assert_eq!(full, NtscEffectFullSettings::from(&NtscEffect::default()));
    assert!(full.head_switching.enabled);
    assert!(full.head_switching.settings.mid_line.enabled);
    assert_eq!(full.head_switching.settings.height, 8);
    assert_eq!(full.head_switching.settings.mid_line.settings.position, dec("0.95"));
    assert!(full.tracking_noise.enabled);
    assert!(full.composite_noise.enabled);
    assert!(full.ringing.enabled);
    assert!(full.luma_noise.enabled);
    assert!(full.chroma_noise.enabled);
    assert!(full.vhs_settings.enabled);
    assert!(full.vhs_settings.settings.sharpen.enabled);
    assert!(full.vhs_settings.settings.edge_wave.enabled);
    assert_eq!(full.vhs_settings.settings.tape_speed, VHSTapeSpeed::LP);
    assert_eq!(full.vhs_settings.settings.edge_wave.settings.detail, 2);
    assert_eq!(full.chroma_noise.settings.detail, 2);
    assert_eq!(full.use_field, UseField::InterleavedUpper);
    assert_eq!(NtscEffect::from(&full), NtscEffect::default());
}

#[test]
fn absent_blocks_are_disabled_and_hold_their_standard_values() {
    let mut effect = NtscEffect::default();
    effect.head_switching = None;
    effect.composite_noise = None;
    effect.vhs_settings = Some(VHSSettings { sharpen: None, ..VHSSettings::default() });
    effect.random_seed = -7;
    let full = NtscEffectFullSettings::from(&effect);
    assert_eq!(full.random_seed, -7);
    assert_eq!(
        full.head_switching,
        SettingsBlock {
            enabled: false,
            settings: HeadSwitchingSettingsFullSettings::from(&HeadSwitchingSettings::default()),
        }
    );
    assert_eq!(
        full.composite_noise,
        SettingsBlock { enabled: false, settings: FbmNoiseSettings::default() }
    );
    assert!(full.vhs_settings.enabled);
    assert_eq!(
        full.vhs_settings.settings.sharpen,
        SettingsBlock { enabled: false, settings: VHSSharpenSettings::default() }
    );
    assert!(full.vhs_settings.settings.edge_wave.enabled);
    assert_eq!(NtscEffect::from(&full), effect);
}

#[test]
fn disabled_blocks_do_not_take_effect() {
    let mut full = NtscEffectFullSettings::default();
    full.ringing.enabled = false;
    full.ringing.settings.power = dec("9.5");
    full.vhs_settings.settings.edge_wave.enabled = false;
    full.head_switching.settings.mid_line.enabled = false;
    full.chroma_noise.settings.detail = 4;
    let effect = NtscEffect::from(&full);
    assert_eq!(effect.ringing, None);
    assert_eq!(effect.vhs_settings.as_ref().unwrap().edge_wave, None);
    assert_eq!(
        effect.vhs_settings.as_ref().unwrap().sharpen,
        Some(VHSSharpenSettings::default())
    );
    assert_eq!(effect.head_switching.as_ref().unwrap().mid_line, None);
    assert_eq!(effect.head_switching.as_ref().unwrap().height, 8);
    assert_eq!(effect.chroma_noise.unwrap().detail, 4);
    let vhs = VHSSettings::from(&VHSSettingsFullSettings::default());
    assert_eq!(vhs, VHSSettings::default());
    let head = HeadSwitchingSettings::from(&HeadSwitchingSettingsFullSettings::default());
    assert_eq!(head, HeadSwitchingSettings::default());
}

fn walk<'a>(descriptors: &'a [SettingDescriptor], out: &mut Vec<&'a SettingDescriptor>) {
    for descriptor in descriptors {
        out.push(descriptor);
        if let SettingKind::Group { children, .. } = &descriptor.kind {
            walk(children, out);
        }
    }
}

fn find<'a>(list: &'a SettingsList, id: u32) -> &'a SettingDescriptor {
    let mut all = Vec::new();
    walk(&list.settings, &mut all);
    all.into_iter().find(|d| d.id == id).unwrap()
}

#[test]
fn list_shows_twenty_six_settings_at_the_top() {
    let list = SettingsList::new();
    let labels: Vec<&str> = list.settings.iter().map(|d| d.label).collect();
    assert_eq!(
        labels,
        vec![
            "Random seed",
            "Use field",
            "Lowpass filter type",
            "Input luma filter",
            "Chroma low-pass in",
            "Composite preemphasis",
            "Composite noise",
            "Snow",
            "Snow anisotropy",
            "Scanline phase shift",
            "Scanline phase shift offset",
            "Chroma demodulation filter",
            "Luma smear",
            "Head switching",
            "Tracking noise",
            "Ringing",
            "Luma noise",
            "Chroma noise",
            "Chroma phase error",
            "Chroma phase noise",
            "Chroma delay (horizontal)",
            "Chroma delay (vertical)",
            "VHS emulation",
            "Vertically blend chroma",
            "Chroma low-pass out",
            "Bandwidth scale",
        ]
    );
}

#[test]
fn every_setting_number_occurs_once() {
    let list = SettingsList::new();
    let mut all = Vec::new();
    walk(&list.settings, &mut all);
    assert_eq!(all.len(), 59);
    let mut ids: Vec<u32> = all.iter().map(|d| d.id).collect();
    assert_eq!(&ids[..8], &[36, 30, 46, 38, 0, 1, 52, 4]);
    ids.sort();
    assert_eq!(ids, (0..59).collect::<Vec<u32>>());
    for id in 0..59 {
        assert!(setting_id::name(id).is_some());
    }
    assert_eq!(setting_id::name(59), None);
    assert_eq!(setting_id::name(u32::MAX), None);
}

#[test]
fn setting_numbers_have_their_names() {
    assert_eq!(setting_id::CHROMA_LOWPASS_IN, 0);
    assert_eq!(setting_id::name(setting_id::CHROMA_LOWPASS_IN), Some("chroma_lowpass_in"));
    assert_eq!(setting_id::RANDOM_SEED, 36);
    assert_eq!(setting_id::name(setting_id::RANDOM_SEED), Some("random_seed"));
    assert_eq!(setting_id::name(setting_id::CHROMA_VERT_BLEND), Some("vhs_chroma_vert_blend"));
    assert_eq!(setting_id::name(setting_id::VHS_SHARPEN_INTENSITY), Some("vhs_sharpen"));
    assert_eq!(setting_id::name(setting_id::VHS_EDGE_WAVE_INTENSITY), Some("vhs_edge_wave"));
    assert_eq!(setting_id::LUMA_NOISE_DETAIL, 58);
    assert_eq!(setting_id::name(setting_id::LUMA_NOISE_DETAIL), Some("luma_noise_detail"));
}

#[test]
fn every_setting_starts_within_what_it_offers() {
    let list = SettingsList::new();
    let mut all = Vec::new();
    walk(&list.settings, &mut all);
    for descriptor in all {
        match &descriptor.kind {
            SettingKind::Enumeration { options, default_value } => {
                assert!(options.iter().any(|o| o.index == *default_value), "{}", descriptor.label);
                let mut indices: Vec<u32> = options.iter().map(|o| o.index).collect();
                indices.sort();
                indices.dedup();
                assert_eq!(indices.len(), options.len(), "{}", descriptor.label);
            }
            SettingKind::Percentage { default_value, .. } => {
                assert!((0..=1_000_000).contains(&default_value.millionths));
            }
            SettingKind::IntRange { min, max, default_value } => {
                assert!(min <= default_value && default_value <= max, "{}", descriptor.label);
            }
            SettingKind::FloatRange { min, max, default_value, .. } => {
                assert!(min.millionths <= default_value.millionths, "{}", descriptor.label);
                assert!(default_value.millionths <= max.millionths, "{}", descriptor.label);
            }
            SettingKind::Boolean { .. } => {}
            SettingKind::Group { children, default_value } => {
                assert!(!children.is_empty());
                assert!(*default_value);
            }
        }
    }
}

#[test]
fn use_field_offers_its_six_choices() {
    let list = SettingsList::new();
    let descriptor = find(&list, setting_id::USE_FIELD);
    assert_eq!(descriptor.label, "Use field");
    assert_eq!(
        descriptor.description,
        Some("Choose which rows (\"fields\" in NTSC parlance) of the source image will be used.")
    );
    match &descriptor.kind {
        SettingKind::Enumeration { options, default_value } => {
            assert_eq!(*default_value, 4);
            let shown: Vec<(&str, u32)> = options.iter().map(|o| (o.label, o.index)).collect();
            assert_eq!(
                shown,
                vec![
                    ("Alternating", 0),
                    ("Upper only", 1),
                    ("Lower only", 2),
                    ("Interleaved (upper first)", 4),
                    ("Interleaved (lower first)", 5),
                    ("Both", 3),
                ]
            );
            assert_eq!(
                options[5],
                MenuItem {
                    label: "Both",
                    description: Some("Use all rows; don't skip any."),
                    index: 3
                }
            );
        }
        other => panic!("{:?}", other),
    }
}

#[test]
fn tape_speed_offers_none_last() {
    let list = SettingsList::new();
    let descriptor = find(&list, setting_id::VHS_TAPE_SPEED);
    match &descriptor.kind {
        SettingKind::Enumeration { options, default_value } => {
            assert_eq!(*default_value, VHSTapeSpeed::LP.to_u32().unwrap());
            let shown: Vec<(&str, u32)> = options.iter().map(|o| (o.label, o.index)).collect();
            assert_eq!(
                shown,
                vec![
                    ("SP (Standard Play)", 1),
                    ("LP (Long Play)", 2),
                    ("EP (Extended Play)", 3),
                    ("None", 0),
                ]
            );
        }
        other => panic!("{:?}", other),
    }
}

#[test]
fn ranges_and_defaults_are_those_of_the_effect() {
    let list = SettingsList::new();
    assert_eq!(
        find(&list, setting_id::RANDOM_SEED).kind,
        SettingKind::IntRange { min: i32::MIN, max: i32::MAX, default_value: 0 }
    );
    assert_eq!(
        find(&list, setting_id::COMPOSITE_PREEMPHASIS).kind,
        SettingKind::FloatRange {
            min: dec("-1.0"),
            max: dec("2.0"),
            logarithmic: false,
            default_value: dec("1.0"),
        }
    );
    assert_eq!(
        find(&list, setting_id::SNOW_INTENSITY).kind,
        SettingKind::FloatRange {
            min: dec("0.0"),
            max: dec("100.0"),
            logarithmic: true,
            default_value: dec("0.00025"),
        }
    );
    assert_eq!(
        find(&list, setting_id::HEAD_SWITCHING_HEIGHT).kind,
        SettingKind::IntRange { min: 0, max: 24, default_value: 8 }
    );
    assert_eq!(
        find(&list, setting_id::TRACKING_NOISE_HEIGHT).kind,
        SettingKind::IntRange { min: 0, max: 120, default_value: 12 }
    );
    assert_eq!(
        find(&list, setting_id::TRACKING_NOISE_SNOW_ANISOTROPY).kind,
        SettingKind::Percentage { logarithmic: false, default_value: dec("0.025") }
    );
    assert_eq!(
        find(&list, setting_id::VHS_CHROMA_LOSS).kind,
        SettingKind::Percentage { logarithmic: true, default_value: dec("0.000025") }
    );
    assert_eq!(
        find(&list, setting_id::CHROMA_DELAY_VERTICAL).kind,
        SettingKind::IntRange { min: -20, max: 20, default_value: 0 }
    );
    assert_eq!(
        find(&list, setting_id::BANDWIDTH_SCALE).kind,
        SettingKind::FloatRange {
            min: dec("0.125"),
            max: dec("8.0"),
            logarithmic: false,
            default_value: dec("1.0"),
        }
    );
    assert_eq!(
        find(&list, setting_id::CHROMA_VERT_BLEND).kind,
        SettingKind::Boolean { default_value: true }
    );
    assert_eq!(
        find(&list, setting_id::VHS_EDGE_WAVE_DETAIL).kind,
        SettingKind::IntRange { min: 1, max: 5, default_value: 2 }
    );
}

#[test]
fn groups_hold_their_settings_in_order() {
    let list = SettingsList::new();
    let inside = |id: u32| -> Vec<u32> {
        match &find(&list, id).kind {
            SettingKind::Group { children, .. } => children.iter().map(|d| d.id).collect(),
            other => panic!("{:?}", other),
        }
    };
    assert_eq!(
        inside(setting_id::HEAD_SWITCHING),
        vec![
            setting_id::HEAD_SWITCHING_HEIGHT,
            setting_id::HEAD_SWITCHING_OFFSET,
            setting_id::HEAD_SWITCHING_HORIZONTAL_SHIFT,
            setting_id::HEAD_SWITCHING_START_MID_LINE,
        ]
    );
    assert_eq!(
        inside(setting_id::HEAD_SWITCHING_START_MID_LINE),
        vec![setting_id::HEAD_SWITCHING_MID_LINE_POSITION, setting_id::HEAD_SWITCHING_MID_LINE_JITTER]
    );
    assert_eq!(
        inside(setting_id::VHS_SETTINGS),
        vec![
            setting_id::VHS_TAPE_SPEED,
            setting_id::VHS_CHROMA_LOSS,
            setting_id::VHS_SHARPEN_ENABLED,
            setting_id::VHS_EDGE_WAVE_ENABLED,
        ]
    );
    assert_eq!(
        inside(setting_id::COMPOSITE_NOISE),
        vec![
            setting_id::COMPOSITE_NOISE_INTENSITY,
            setting_id::COMPOSITE_NOISE_FREQUENCY,
            setting_id::COMPOSITE_NOISE_DETAIL,
        ]
    );
}
