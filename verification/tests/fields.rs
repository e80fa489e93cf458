use ntscrs::settings::standard::{
    ChromaDemodulationFilter, ChromaLowpass, FilterType, LumaLowpass, PhaseShift, UseField,
    VHSTapeParams, VHSTapeSpeed,
};
use ntscrs::yiq_fielding::YiqField;

#[test]
fn alternating_takes_lower_on_even_frames_and_upper_on_odd() {
    assert_eq!(UseField::Alternating.to_yiq_field(0), YiqField::Lower);
    assert_eq!(UseField::Alternating.to_yiq_field(1), YiqField::Upper);
    assert_eq!(UseField::Alternating.to_yiq_field(2), YiqField::Lower);
    assert_eq!(UseField::Alternating.to_yiq_field(usize::MAX), YiqField::Upper);
}

#[test]
fn fixed_choices_do_not_depend_on_the_frame() {
    for frame in [0usize, 1, 2, 3, 1000, usize::MAX] {
        assert_eq!(UseField::Upper.to_yiq_field(frame), YiqField::Upper);
        assert_eq!(UseField::Lower.to_yiq_field(frame), YiqField::Lower);
        assert_eq!(UseField::Both.to_yiq_field(frame), YiqField::Both);
        assert_eq!(UseField::InterleavedUpper.to_yiq_field(frame), YiqField::InterleavedUpper);
        assert_eq!(UseField::InterleavedLower.to_yiq_field(frame), YiqField::InterleavedLower);
    }
}

#[test]
fn use_field_indices_follow_the_declaration() {
    let all = [
        UseField::Alternating,
        UseField::Upper,
        UseField::Lower,
        UseField::Both,
        UseField::InterleavedUpper,
        UseField::InterleavedLower,
    ];
    for (i, v) in all.into_iter().enumerate() {
        assert_eq!(v.to_u32(), Some(i as u32));
        assert_eq!(UseField::from_u32(i as u32), Some(v));
    }
    assert_eq!(UseField::from_u32(6), None);
    assert_eq!(UseField::from_u32(u32::MAX), None);
}

#[test]
fn filter_type_indices_follow_the_declaration() {
    let all = [FilterType::ConstantK, FilterType::Butterworth];
    for (i, v) in all.into_iter().enumerate() {
        assert_eq!(v.to_u32(), Some(i as u32));
        assert_eq!(FilterType::from_u32(i as u32), Some(v));
    }
    assert_eq!(FilterType::from_u32(2), None);
}

#[test]
fn luma_lowpass_indices_follow_the_declaration() {
    let all = [LumaLowpass::Off, LumaLowpass::Box, LumaLowpass::Notch];
    for (i, v) in all.into_iter().enumerate() {
        assert_eq!(v.to_u32(), Some(i as u32));
        assert_eq!(LumaLowpass::from_u32(i as u32), Some(v));
    }
    assert_eq!(LumaLowpass::from_u32(3), None);
}

#[test]
fn phase_shift_indices_follow_the_declaration() {
    let all = [
        PhaseShift::Degrees0,
        PhaseShift::Degrees90,
        PhaseShift::Degrees180,
        PhaseShift::Degrees270,
    ];
    for (i, v) in all.into_iter().enumerate() {
        assert_eq!(v.to_u32(), Some(i as u32));
        assert_eq!(PhaseShift::from_u32(i as u32), Some(v));
    }
    assert_eq!(PhaseShift::from_u32(4), None);
}

#[test]
fn tape_speed_indices_follow_the_declaration() {
    let all = [VHSTapeSpeed::NONE, VHSTapeSpeed::SP, VHSTapeSpeed::LP, VHSTapeSpeed::EP];
    for (i, v) in all.into_iter().enumerate() {
        assert_eq!(v.to_u32(), Some(i as u32));
        assert_eq!(VHSTapeSpeed::from_u32(i as u32), Some(v));
    }
    assert_eq!(VHSTapeSpeed::from_u32(4), None);
}

#[test]
fn chroma_lowpass_indices_follow_the_declaration() {
    let all = [ChromaLowpass::Off, ChromaLowpass::Light, ChromaLowpass::Full];
    for (i, v) in all.into_iter().enumerate() {
        assert_eq!(v.to_u32(), Some(i as u32));
        assert_eq!(ChromaLowpass::from_u32(i as u32), Some(v));
    }
    assert_eq!(ChromaLowpass::from_u32(3), None);
}

#[test]
fn chroma_demodulation_indices_follow_the_declaration() {
    let all = [
        ChromaDemodulationFilter::Box,
        ChromaDemodulationFilter::Notch,
        ChromaDemodulationFilter::OneLineComb,
        ChromaDemodulationFilter::TwoLineComb,
    ];
    for (i, v) in all.into_iter().enumerate() {
        assert_eq!(v.to_u32(), Some(i as u32));
        assert_eq!(ChromaDemodulationFilter::from_u32(i as u32), Some(v));
    }
    assert_eq!(ChromaDemodulationFilter::from_u32(4), None);
}

#[test]
fn tape_speeds_have_their_filter_parameters() {
    assert_eq!(VHSTapeSpeed::NONE.filter_params(), None);
    assert_eq!(
        VHSTapeSpeed::SP.filter_params(),
        Some(VHSTapeParams { luma_cut: 2_400_000, chroma_cut: 320_000, chroma_delay: 4 })
    );
    assert_eq!(
        VHSTapeSpeed::LP.filter_params(),
        Some(VHSTapeParams { luma_cut: 1_900_000, chroma_cut: 300_000, chroma_delay: 5 })
    );
    assert_eq!(
        VHSTapeSpeed::EP.filter_params(),
        Some(VHSTapeParams { luma_cut: 1_400_000, chroma_cut: 280_000, chroma_delay: 6 })
    );
}
