//! What holds of the settings of the standard effect as a whole.

use crate::settings::standard::descriptors::{
    chroma_demodulation_model, chroma_lowpass_in_model, chroma_lowpass_out_model,
    chroma_noise_model, composite_noise_model, filter_type_model, head_switching_model,
    head_switching_start_mid_line_model, input_luma_filter_model, luma_noise_model,
    ringing_model, tracking_noise_model, use_field_model, vhs_edge_wave_enabled_model,
    vhs_settings_model, vhs_sharpen_enabled_model, vhs_tape_speed_model,
    video_scanline_phase_shift_model,
};
use crate::settings::standard::{setting_id, standard_defaults, standard_settings};
use crate::settings::{ids_of, lemma_ids_step};
use vstd::prelude::*;

verus! {

proof fn lemma_use_field_valid()
    ensures
        use_field_model(standard_defaults()).valid(),
{
    let options = use_field_model(standard_defaults()).kind->Enumeration_options;
    let default_value = use_field_model(standard_defaults()).kind->Enumeration_default_value;
    assert(options.len() == 6);
    assert(options[3].index == default_value);
}

proof fn lemma_filter_type_valid()
    ensures
        filter_type_model(standard_defaults()).valid(),
{
    let options = filter_type_model(standard_defaults()).kind->Enumeration_options;
    let default_value = filter_type_model(standard_defaults()).kind->Enumeration_default_value;
    assert(options.len() == 2);
    assert(options[1].index == default_value);
}

proof fn lemma_input_luma_filter_valid()
    ensures
        input_luma_filter_model(standard_defaults()).valid(),
{
    let options = input_luma_filter_model(standard_defaults()).kind->Enumeration_options;
    let default_value = input_luma_filter_model(standard_defaults()).kind->Enumeration_default_value;
    assert(options.len() == 3);
    assert(options[0].index == default_value);
}

proof fn lemma_chroma_lowpass_in_valid()
    ensures
        chroma_lowpass_in_model(standard_defaults()).valid(),
{
    let options = chroma_lowpass_in_model(standard_defaults()).kind->Enumeration_options;
    let default_value = chroma_lowpass_in_model(standard_defaults()).kind->Enumeration_default_value;
    assert(options.len() == 3);
    assert(options[0].index == default_value);
}

proof fn lemma_composite_noise_valid()
    ensures
        composite_noise_model(standard_defaults()).valid(),
{
    let children = composite_noise_model(standard_defaults()).kind->Group_children;
    assert(children.len() == 3);
    assert(children[0].valid());
    assert(children[1].valid());
    assert(children[2].valid());
}

proof fn lemma_video_scanline_phase_shift_valid()
    ensures
        video_scanline_phase_shift_model(standard_defaults()).valid(),
{
    let options = video_scanline_phase_shift_model(standard_defaults()).kind->Enumeration_options;
    let default_value = video_scanline_phase_shift_model(standard_defaults()).kind->Enumeration_default_value;
    assert(options.len() == 4);
    assert(options[2].index == default_value);
}

proof fn lemma_chroma_demodulation_valid()
    ensures
        chroma_demodulation_model(standard_defaults()).valid(),
{
    let options = chroma_demodulation_model(standard_defaults()).kind->Enumeration_options;
    let default_value = chroma_demodulation_model(standard_defaults()).kind->Enumeration_default_value;
    assert(options.len() == 4);
    assert(options[1].index == default_value);
}

proof fn lemma_head_switching_start_mid_line_valid()
    ensures
        head_switching_start_mid_line_model(standard_defaults()).valid(),
{
    let children = head_switching_start_mid_line_model(standard_defaults()).kind->Group_children;
    assert(children.len() == 2);
    assert(children[0].valid());
    assert(children[1].valid());
}

proof fn lemma_head_switching_valid()
    ensures
        head_switching_model(standard_defaults()).valid(),
{
    let children = head_switching_model(standard_defaults()).kind->Group_children;
    assert(children.len() == 4);
    assert(children[0].valid());
    assert(children[1].valid());
    assert(children[2].valid());
    lemma_head_switching_start_mid_line_valid();
    assert(children[3].valid());
}

proof fn lemma_tracking_noise_valid()
    ensures
        tracking_noise_model(standard_defaults()).valid(),
{
    let children = tracking_noise_model(standard_defaults()).kind->Group_children;
    assert(children.len() == 5);
    assert(children[0].valid());
    assert(children[1].valid());
    assert(children[2].valid());
    assert(children[3].valid());
    assert(children[4].valid());
}

proof fn lemma_ringing_valid()
    ensures
        ringing_model(standard_defaults()).valid(),
{
    let children = ringing_model(standard_defaults()).kind->Group_children;
    assert(children.len() == 3);
    assert(children[0].valid());
    assert(children[1].valid());
    assert(children[2].valid());
}

proof fn lemma_luma_noise_valid()
    ensures
        luma_noise_model(standard_defaults()).valid(),
{
    let children = luma_noise_model(standard_defaults()).kind->Group_children;
    assert(children.len() == 3);
    assert(children[0].valid());
    assert(children[1].valid());
    assert(children[2].valid());
}

proof fn lemma_chroma_noise_valid()
    ensures
        chroma_noise_model(standard_defaults()).valid(),
{
    let children = chroma_noise_model(standard_defaults()).kind->Group_children;
    assert(children.len() == 3);
    assert(children[0].valid());
    assert(children[1].valid());
    assert(children[2].valid());
}

proof fn lemma_vhs_tape_speed_valid()
    ensures
        vhs_tape_speed_model(standard_defaults()).valid(),
{
    let options = vhs_tape_speed_model(standard_defaults()).kind->Enumeration_options;
    let default_value = vhs_tape_speed_model(standard_defaults()).kind->Enumeration_default_value;
    assert(options.len() == 4);
    assert(options[1].index == default_value);
}

proof fn lemma_vhs_sharpen_enabled_valid()
    ensures
        vhs_sharpen_enabled_model(standard_defaults()).valid(),
{
    let children = vhs_sharpen_enabled_model(standard_defaults()).kind->Group_children;
    assert(children.len() == 2);
    assert(children[0].valid());
    assert(children[1].valid());
}

proof fn lemma_vhs_edge_wave_enabled_valid()
    ensures
        vhs_edge_wave_enabled_model(standard_defaults()).valid(),
{
    let children = vhs_edge_wave_enabled_model(standard_defaults()).kind->Group_children;
    assert(children.len() == 4);
    assert(children[0].valid());
    assert(children[1].valid());
    assert(children[2].valid());
    assert(children[3].valid());
}

proof fn lemma_vhs_settings_valid()
    ensures
        vhs_settings_model(standard_defaults()).valid(),
{
    let children = vhs_settings_model(standard_defaults()).kind->Group_children;
    assert(children.len() == 4);
    lemma_vhs_tape_speed_valid();
    assert(children[0].valid());
    assert(children[1].valid());
    lemma_vhs_sharpen_enabled_valid();
    assert(children[2].valid());
    lemma_vhs_edge_wave_enabled_valid();
    assert(children[3].valid());
}

proof fn lemma_chroma_lowpass_out_valid()
    ensures
        chroma_lowpass_out_model(standard_defaults()).valid(),
{
    let options = chroma_lowpass_out_model(standard_defaults()).kind->Enumeration_options;
    let default_value = chroma_lowpass_out_model(standard_defaults()).kind->Enumeration_default_value;
    assert(options.len() == 3);
    assert(options[0].index == default_value);
}

/// Every setting of the standard effect can be shown and edited as it is
/// described: each enumeration starts with one of its own choices, each
/// number starts within its range, in every group and at every depth.
pub proof fn lemma_standard_settings_are_valid()
    ensures
        forall|i: int| 0 <= i < standard_settings().len() ==> (#[trigger] standard_settings()[i]).valid(),
{
    let settings = standard_settings();
    assert(settings.len() == 26);
    assert(settings[0].valid());
    lemma_use_field_valid();
    assert(settings[1].valid());
    lemma_filter_type_valid();
    assert(settings[2].valid());
    lemma_input_luma_filter_valid();
    assert(settings[3].valid());
    lemma_chroma_lowpass_in_valid();
    assert(settings[4].valid());
    assert(settings[5].valid());
    lemma_composite_noise_valid();
    assert(settings[6].valid());
    assert(settings[7].valid());
    assert(settings[8].valid());
    lemma_video_scanline_phase_shift_valid();
    assert(settings[9].valid());
    assert(settings[10].valid());
    lemma_chroma_demodulation_valid();
    assert(settings[11].valid());
    assert(settings[12].valid());
    lemma_head_switching_valid();
    assert(settings[13].valid());
    lemma_tracking_noise_valid();
    assert(settings[14].valid());
    lemma_ringing_valid();
    assert(settings[15].valid());
    lemma_luma_noise_valid();
    assert(settings[16].valid());
    lemma_chroma_noise_valid();
    assert(settings[17].valid());
    assert(settings[18].valid());
    assert(settings[19].valid());
    assert(settings[20].valid());
    assert(settings[21].valid());
    lemma_vhs_settings_valid();
    assert(settings[22].valid());
    assert(settings[23].valid());
    lemma_chroma_lowpass_out_valid();
    assert(settings[24].valid());
    assert(settings[25].valid());
}

proof fn lemma_composite_noise_ids()
    ensures
        ids_of(composite_noise_model(standard_defaults()).kind->Group_children) == seq![
            setting_id::COMPOSITE_NOISE_INTENSITY, setting_id::COMPOSITE_NOISE_FREQUENCY,
            setting_id::COMPOSITE_NOISE_DETAIL,
        ],
{
    let children = composite_noise_model(standard_defaults()).kind->Group_children;
    assert(children.len() == 3);
    assert(children.subrange(3, 3).len() == 0);
    lemma_ids_step(children, 2);
    assert(ids_of(children.subrange(2, 3)) =~= seq![
        setting_id::COMPOSITE_NOISE_DETAIL,
    ]);
    lemma_ids_step(children, 1);
    assert(ids_of(children.subrange(1, 3)) =~= seq![
        setting_id::COMPOSITE_NOISE_FREQUENCY, setting_id::COMPOSITE_NOISE_DETAIL,
    ]);
    lemma_ids_step(children, 0);
    assert(ids_of(children.subrange(0, 3)) =~= seq![
        setting_id::COMPOSITE_NOISE_INTENSITY, setting_id::COMPOSITE_NOISE_FREQUENCY,
        setting_id::COMPOSITE_NOISE_DETAIL,
    ]);
    assert(children.subrange(0, 3) =~= children);
}

proof fn lemma_head_switching_start_mid_line_ids()
    ensures
        ids_of(head_switching_start_mid_line_model(standard_defaults()).kind->Group_children) == seq![
            setting_id::HEAD_SWITCHING_MID_LINE_POSITION,
            setting_id::HEAD_SWITCHING_MID_LINE_JITTER,
        ],
{
    let children = head_switching_start_mid_line_model(standard_defaults()).kind->Group_children;
    assert(children.len() == 2);
    assert(children.subrange(2, 2).len() == 0);
    lemma_ids_step(children, 1);
    assert(ids_of(children.subrange(1, 2)) =~= seq![
        setting_id::HEAD_SWITCHING_MID_LINE_JITTER,
    ]);
    lemma_ids_step(children, 0);
    assert(ids_of(children.subrange(0, 2)) =~= seq![
        setting_id::HEAD_SWITCHING_MID_LINE_POSITION,
        setting_id::HEAD_SWITCHING_MID_LINE_JITTER,
    ]);
    assert(children.subrange(0, 2) =~= children);
}

proof fn lemma_head_switching_ids()
    ensures
        ids_of(head_switching_model(standard_defaults()).kind->Group_children) == seq![
            setting_id::HEAD_SWITCHING_HEIGHT, setting_id::HEAD_SWITCHING_OFFSET,
            setting_id::HEAD_SWITCHING_HORIZONTAL_SHIFT,
            setting_id::HEAD_SWITCHING_START_MID_LINE,
            setting_id::HEAD_SWITCHING_MID_LINE_POSITION,
            setting_id::HEAD_SWITCHING_MID_LINE_JITTER,
        ],
{
    let children = head_switching_model(standard_defaults()).kind->Group_children;
    assert(children.len() == 4);
    assert(children.subrange(4, 4).len() == 0);
    lemma_head_switching_start_mid_line_ids();
    lemma_ids_step(children, 3);
    assert(ids_of(children.subrange(3, 4)) =~= seq![
        setting_id::HEAD_SWITCHING_START_MID_LINE,
        setting_id::HEAD_SWITCHING_MID_LINE_POSITION,
        setting_id::HEAD_SWITCHING_MID_LINE_JITTER,
    ]);
    lemma_ids_step(children, 2);
    assert(ids_of(children.subrange(2, 4)) =~= seq![
        setting_id::HEAD_SWITCHING_HORIZONTAL_SHIFT, setting_id::HEAD_SWITCHING_START_MID_LINE,
        setting_id::HEAD_SWITCHING_MID_LINE_POSITION,
        setting_id::HEAD_SWITCHING_MID_LINE_JITTER,
    ]);
    lemma_ids_step(children, 1);
    assert(ids_of(children.subrange(1, 4)) =~= seq![
        setting_id::HEAD_SWITCHING_OFFSET, setting_id::HEAD_SWITCHING_HORIZONTAL_SHIFT,
        setting_id::HEAD_SWITCHING_START_MID_LINE,
        setting_id::HEAD_SWITCHING_MID_LINE_POSITION,
        setting_id::HEAD_SWITCHING_MID_LINE_JITTER,
    ]);
    lemma_ids_step(children, 0);
    assert(ids_of(children.subrange(0, 4)) =~= seq![
        setting_id::HEAD_SWITCHING_HEIGHT, setting_id::HEAD_SWITCHING_OFFSET,
        setting_id::HEAD_SWITCHING_HORIZONTAL_SHIFT, setting_id::HEAD_SWITCHING_START_MID_LINE,
        setting_id::HEAD_SWITCHING_MID_LINE_POSITION,
        setting_id::HEAD_SWITCHING_MID_LINE_JITTER,
    ]);
    assert(children.subrange(0, 4) =~= children);
}

proof fn lemma_tracking_noise_ids()
    ensures
        ids_of(tracking_noise_model(standard_defaults()).kind->Group_children) == seq![
            setting_id::TRACKING_NOISE_HEIGHT, setting_id::TRACKING_NOISE_WAVE_INTENSITY,
            setting_id::TRACKING_NOISE_SNOW_INTENSITY,
            setting_id::TRACKING_NOISE_SNOW_ANISOTROPY,
            setting_id::TRACKING_NOISE_NOISE_INTENSITY,
        ],
{
    let children = tracking_noise_model(standard_defaults()).kind->Group_children;
    assert(children.len() == 5);
    assert(children.subrange(5, 5).len() == 0);
    lemma_ids_step(children, 4);
    assert(ids_of(children.subrange(4, 5)) =~= seq![
        setting_id::TRACKING_NOISE_NOISE_INTENSITY,
    ]);
    lemma_ids_step(children, 3);
    assert(ids_of(children.subrange(3, 5)) =~= seq![
        setting_id::TRACKING_NOISE_SNOW_ANISOTROPY, setting_id::TRACKING_NOISE_NOISE_INTENSITY,
    ]);
    lemma_ids_step(children, 2);
    assert(ids_of(children.subrange(2, 5)) =~= seq![
        setting_id::TRACKING_NOISE_SNOW_INTENSITY, setting_id::TRACKING_NOISE_SNOW_ANISOTROPY,
        setting_id::TRACKING_NOISE_NOISE_INTENSITY,
    ]);
    lemma_ids_step(children, 1);
    assert(ids_of(children.subrange(1, 5)) =~= seq![
        setting_id::TRACKING_NOISE_WAVE_INTENSITY, setting_id::TRACKING_NOISE_SNOW_INTENSITY,
        setting_id::TRACKING_NOISE_SNOW_ANISOTROPY, setting_id::TRACKING_NOISE_NOISE_INTENSITY,
    ]);
    lemma_ids_step(children, 0);
    assert(ids_of(children.subrange(0, 5)) =~= seq![
        setting_id::TRACKING_NOISE_HEIGHT, setting_id::TRACKING_NOISE_WAVE_INTENSITY,
        setting_id::TRACKING_NOISE_SNOW_INTENSITY, setting_id::TRACKING_NOISE_SNOW_ANISOTROPY,
        setting_id::TRACKING_NOISE_NOISE_INTENSITY,
    ]);
    assert(children.subrange(0, 5) =~= children);
}

proof fn lemma_ringing_ids()
    ensures
        ids_of(ringing_model(standard_defaults()).kind->Group_children) == seq![
            setting_id::RINGING_FREQUENCY, setting_id::RINGING_POWER,
            setting_id::RINGING_SCALE,
        ],
{
    let children = ringing_model(standard_defaults()).kind->Group_children;
    assert(children.len() == 3);
    assert(children.subrange(3, 3).len() == 0);
    lemma_ids_step(children, 2);
    assert(ids_of(children.subrange(2, 3)) =~= seq![
        setting_id::RINGING_SCALE,
    ]);
    lemma_ids_step(children, 1);
    assert(ids_of(children.subrange(1, 3)) =~= seq![
        setting_id::RINGING_POWER, setting_id::RINGING_SCALE,
    ]);
    lemma_ids_step(children, 0);
    assert(ids_of(children.subrange(0, 3)) =~= seq![
        setting_id::RINGING_FREQUENCY, setting_id::RINGING_POWER, setting_id::RINGING_SCALE,
    ]);
    assert(children.subrange(0, 3) =~= children);
}

proof fn lemma_luma_noise_ids()
    ensures
        ids_of(luma_noise_model(standard_defaults()).kind->Group_children) == seq![
            setting_id::LUMA_NOISE_INTENSITY, setting_id::LUMA_NOISE_FREQUENCY,
            setting_id::LUMA_NOISE_DETAIL,
        ],
{
    let children = luma_noise_model(standard_defaults()).kind->Group_children;
    assert(children.len() == 3);
    assert(children.subrange(3, 3).len() == 0);
    lemma_ids_step(children, 2);
    assert(ids_of(children.subrange(2, 3)) =~= seq![
        setting_id::LUMA_NOISE_DETAIL,
    ]);
    lemma_ids_step(children, 1);
    assert(ids_of(children.subrange(1, 3)) =~= seq![
        setting_id::LUMA_NOISE_FREQUENCY, setting_id::LUMA_NOISE_DETAIL,
    ]);
    lemma_ids_step(children, 0);
    assert(ids_of(children.subrange(0, 3)) =~= seq![
        setting_id::LUMA_NOISE_INTENSITY, setting_id::LUMA_NOISE_FREQUENCY,
        setting_id::LUMA_NOISE_DETAIL,
    ]);
    assert(children.subrange(0, 3) =~= children);
}

proof fn lemma_chroma_noise_ids()
    ensures
        ids_of(chroma_noise_model(standard_defaults()).kind->Group_children) == seq![
            setting_id::CHROMA_NOISE_INTENSITY, setting_id::CHROMA_NOISE_FREQUENCY,
            setting_id::CHROMA_NOISE_DETAIL,
        ],
{
    let children = chroma_noise_model(standard_defaults()).kind->Group_children;
    assert(children.len() == 3);
    assert(children.subrange(3, 3).len() == 0);
    lemma_ids_step(children, 2);
    assert(ids_of(children.subrange(2, 3)) =~= seq![
        setting_id::CHROMA_NOISE_DETAIL,
    ]);
    lemma_ids_step(children, 1);
    assert(ids_of(children.subrange(1, 3)) =~= seq![
        setting_id::CHROMA_NOISE_FREQUENCY, setting_id::CHROMA_NOISE_DETAIL,
    ]);
    lemma_ids_step(children, 0);
    assert(ids_of(children.subrange(0, 3)) =~= seq![
        setting_id::CHROMA_NOISE_INTENSITY, setting_id::CHROMA_NOISE_FREQUENCY,
        setting_id::CHROMA_NOISE_DETAIL,
    ]);
    assert(children.subrange(0, 3) =~= children);
}

proof fn lemma_vhs_sharpen_enabled_ids()
    ensures
        ids_of(vhs_sharpen_enabled_model(standard_defaults()).kind->Group_children) == seq![
            setting_id::VHS_SHARPEN_INTENSITY, setting_id::VHS_SHARPEN_FREQUENCY,
        ],
{
    let children = vhs_sharpen_enabled_model(standard_defaults()).kind->Group_children;
    assert(children.len() == 2);
    assert(children.subrange(2, 2).len() == 0);
    lemma_ids_step(children, 1);
    assert(ids_of(children.subrange(1, 2)) =~= seq![
        setting_id::VHS_SHARPEN_FREQUENCY,
    ]);
    lemma_ids_step(children, 0);
    assert(ids_of(children.subrange(0, 2)) =~= seq![
        setting_id::VHS_SHARPEN_INTENSITY, setting_id::VHS_SHARPEN_FREQUENCY,
    ]);
    assert(children.subrange(0, 2) =~= children);
}

proof fn lemma_vhs_edge_wave_enabled_ids()
    ensures
        ids_of(vhs_edge_wave_enabled_model(standard_defaults()).kind->Group_children) == seq![
            setting_id::VHS_EDGE_WAVE_INTENSITY, setting_id::VHS_EDGE_WAVE_SPEED,
            setting_id::VHS_EDGE_WAVE_FREQUENCY, setting_id::VHS_EDGE_WAVE_DETAIL,
        ],
{
    let children = vhs_edge_wave_enabled_model(standard_defaults()).kind->Group_children;
    assert(children.len() == 4);
    assert(children.subrange(4, 4).len() == 0);
    lemma_ids_step(children, 3);
    assert(ids_of(children.subrange(3, 4)) =~= seq![
        setting_id::VHS_EDGE_WAVE_DETAIL,
    ]);
    lemma_ids_step(children, 2);
    assert(ids_of(children.subrange(2, 4)) =~= seq![
        setting_id::VHS_EDGE_WAVE_FREQUENCY, setting_id::VHS_EDGE_WAVE_DETAIL,
    ]);
    lemma_ids_step(children, 1);
    assert(ids_of(children.subrange(1, 4)) =~= seq![
        setting_id::VHS_EDGE_WAVE_SPEED, setting_id::VHS_EDGE_WAVE_FREQUENCY,
        setting_id::VHS_EDGE_WAVE_DETAIL,
    ]);
    lemma_ids_step(children, 0);
    assert(ids_of(children.subrange(0, 4)) =~= seq![
        setting_id::VHS_EDGE_WAVE_INTENSITY, setting_id::VHS_EDGE_WAVE_SPEED,
        setting_id::VHS_EDGE_WAVE_FREQUENCY, setting_id::VHS_EDGE_WAVE_DETAIL,
    ]);
    assert(children.subrange(0, 4) =~= children);
}

proof fn lemma_vhs_settings_ids()
    ensures
        ids_of(vhs_settings_model(standard_defaults()).kind->Group_children) == seq![
            setting_id::VHS_TAPE_SPEED, setting_id::VHS_CHROMA_LOSS,
            setting_id::VHS_SHARPEN_ENABLED, setting_id::VHS_SHARPEN_INTENSITY,
            setting_id::VHS_SHARPEN_FREQUENCY, setting_id::VHS_EDGE_WAVE_ENABLED,
            setting_id::VHS_EDGE_WAVE_INTENSITY, setting_id::VHS_EDGE_WAVE_SPEED,
            setting_id::VHS_EDGE_WAVE_FREQUENCY, setting_id::VHS_EDGE_WAVE_DETAIL,
        ],
{
    let children = vhs_settings_model(standard_defaults()).kind->Group_children;
    assert(children.len() == 4);
    assert(children.subrange(4, 4).len() == 0);
    lemma_vhs_edge_wave_enabled_ids();
    lemma_ids_step(children, 3);
    assert(ids_of(children.subrange(3, 4)) =~= seq![
        setting_id::VHS_EDGE_WAVE_ENABLED, setting_id::VHS_EDGE_WAVE_INTENSITY,
        setting_id::VHS_EDGE_WAVE_SPEED, setting_id::VHS_EDGE_WAVE_FREQUENCY,
        setting_id::VHS_EDGE_WAVE_DETAIL,
    ]);
    lemma_vhs_sharpen_enabled_ids();
    lemma_ids_step(children, 2);
    assert(ids_of(children.subrange(2, 4)) =~= seq![
        setting_id::VHS_SHARPEN_ENABLED, setting_id::VHS_SHARPEN_INTENSITY,
        setting_id::VHS_SHARPEN_FREQUENCY, setting_id::VHS_EDGE_WAVE_ENABLED,
        setting_id::VHS_EDGE_WAVE_INTENSITY, setting_id::VHS_EDGE_WAVE_SPEED,
        setting_id::VHS_EDGE_WAVE_FREQUENCY, setting_id::VHS_EDGE_WAVE_DETAIL,
    ]);
    lemma_ids_step(children, 1);
    assert(ids_of(children.subrange(1, 4)) =~= seq![
        setting_id::VHS_CHROMA_LOSS, setting_id::VHS_SHARPEN_ENABLED,
        setting_id::VHS_SHARPEN_INTENSITY, setting_id::VHS_SHARPEN_FREQUENCY,
        setting_id::VHS_EDGE_WAVE_ENABLED, setting_id::VHS_EDGE_WAVE_INTENSITY,
        setting_id::VHS_EDGE_WAVE_SPEED, setting_id::VHS_EDGE_WAVE_FREQUENCY,
        setting_id::VHS_EDGE_WAVE_DETAIL,
    ]);
    lemma_ids_step(children, 0);
    assert(ids_of(children.subrange(0, 4)) =~= seq![
        setting_id::VHS_TAPE_SPEED, setting_id::VHS_CHROMA_LOSS,
        setting_id::VHS_SHARPEN_ENABLED, setting_id::VHS_SHARPEN_INTENSITY,
        setting_id::VHS_SHARPEN_FREQUENCY, setting_id::VHS_EDGE_WAVE_ENABLED,
        setting_id::VHS_EDGE_WAVE_INTENSITY, setting_id::VHS_EDGE_WAVE_SPEED,
        setting_id::VHS_EDGE_WAVE_FREQUENCY, setting_id::VHS_EDGE_WAVE_DETAIL,
    ]);
    assert(children.subrange(0, 4) =~= children);
}

proof fn lemma_standard_ids_from_0()
    ensures
        standard_settings().len() == 26,
        ids_of(standard_settings().subrange(0, 26)) == seq![
            setting_id::RANDOM_SEED, setting_id::USE_FIELD, setting_id::FILTER_TYPE,
            setting_id::INPUT_LUMA_FILTER, setting_id::CHROMA_LOWPASS_IN,
            setting_id::COMPOSITE_PREEMPHASIS,
        ] + ids_of(standard_settings().subrange(6, 26)),
{
    let settings = standard_settings();
    assert(settings.len() == 26);
    lemma_ids_step(settings, 5);
    assert(ids_of(settings.subrange(5, 26)) =~= seq![
        setting_id::COMPOSITE_PREEMPHASIS,
    ] + ids_of(settings.subrange(6, 26)));
    lemma_ids_step(settings, 4);
    assert(ids_of(settings.subrange(4, 26)) =~= seq![
        setting_id::CHROMA_LOWPASS_IN, setting_id::COMPOSITE_PREEMPHASIS,
    ] + ids_of(settings.subrange(6, 26)));
    lemma_ids_step(settings, 3);
    assert(ids_of(settings.subrange(3, 26)) =~= seq![
        setting_id::INPUT_LUMA_FILTER, setting_id::CHROMA_LOWPASS_IN,
        setting_id::COMPOSITE_PREEMPHASIS,
    ] + ids_of(settings.subrange(6, 26)));
    lemma_ids_step(settings, 2);
    assert(ids_of(settings.subrange(2, 26)) =~= seq![
        setting_id::FILTER_TYPE, setting_id::INPUT_LUMA_FILTER, setting_id::CHROMA_LOWPASS_IN,
        setting_id::COMPOSITE_PREEMPHASIS,
    ] + ids_of(settings.subrange(6, 26)));
    lemma_ids_step(settings, 1);
    assert(ids_of(settings.subrange(1, 26)) =~= seq![
        setting_id::USE_FIELD, setting_id::FILTER_TYPE, setting_id::INPUT_LUMA_FILTER,
        setting_id::CHROMA_LOWPASS_IN, setting_id::COMPOSITE_PREEMPHASIS,
    ] + ids_of(settings.subrange(6, 26)));
    lemma_ids_step(settings, 0);
    assert(ids_of(settings.subrange(0, 26)) =~= seq![
        setting_id::RANDOM_SEED, setting_id::USE_FIELD, setting_id::FILTER_TYPE,
        setting_id::INPUT_LUMA_FILTER, setting_id::CHROMA_LOWPASS_IN,
        setting_id::COMPOSITE_PREEMPHASIS,
    ] + ids_of(settings.subrange(6, 26)));
}

proof fn lemma_standard_ids_from_6()
    ensures
        standard_settings().len() == 26,
        ids_of(standard_settings().subrange(6, 26)) == seq![
            setting_id::COMPOSITE_NOISE, setting_id::COMPOSITE_NOISE_INTENSITY,
            setting_id::COMPOSITE_NOISE_FREQUENCY, setting_id::COMPOSITE_NOISE_DETAIL,
            setting_id::SNOW_INTENSITY, setting_id::SNOW_ANISOTROPY,
            setting_id::VIDEO_SCANLINE_PHASE_SHIFT,
        ] + ids_of(standard_settings().subrange(10, 26)),
{
    let settings = standard_settings();
    assert(settings.len() == 26);
    lemma_ids_step(settings, 9);
    assert(ids_of(settings.subrange(9, 26)) =~= seq![
        setting_id::VIDEO_SCANLINE_PHASE_SHIFT,
    ] + ids_of(settings.subrange(10, 26)));
    lemma_ids_step(settings, 8);
    assert(ids_of(settings.subrange(8, 26)) =~= seq![
        setting_id::SNOW_ANISOTROPY, setting_id::VIDEO_SCANLINE_PHASE_SHIFT,
    ] + ids_of(settings.subrange(10, 26)));
    lemma_ids_step(settings, 7);
    assert(ids_of(settings.subrange(7, 26)) =~= seq![
        setting_id::SNOW_INTENSITY, setting_id::SNOW_ANISOTROPY,
        setting_id::VIDEO_SCANLINE_PHASE_SHIFT,
    ] + ids_of(settings.subrange(10, 26)));
    lemma_composite_noise_ids();
    lemma_ids_step(settings, 6);
    assert(ids_of(settings.subrange(6, 26)) =~= seq![
        setting_id::COMPOSITE_NOISE, setting_id::COMPOSITE_NOISE_INTENSITY,
        setting_id::COMPOSITE_NOISE_FREQUENCY, setting_id::COMPOSITE_NOISE_DETAIL,
        setting_id::SNOW_INTENSITY, setting_id::SNOW_ANISOTROPY,
        setting_id::VIDEO_SCANLINE_PHASE_SHIFT,
    ] + ids_of(settings.subrange(10, 26)));
}

proof fn lemma_standard_ids_from_10()
    ensures
        standard_settings().len() == 26,
        ids_of(standard_settings().subrange(10, 26)) == seq![
            setting_id::VIDEO_SCANLINE_PHASE_SHIFT_OFFSET, setting_id::CHROMA_DEMODULATION,
            setting_id::LUMA_SMEAR, setting_id::HEAD_SWITCHING,
            setting_id::HEAD_SWITCHING_HEIGHT, setting_id::HEAD_SWITCHING_OFFSET,
            setting_id::HEAD_SWITCHING_HORIZONTAL_SHIFT,
            setting_id::HEAD_SWITCHING_START_MID_LINE,
            setting_id::HEAD_SWITCHING_MID_LINE_POSITION,
            setting_id::HEAD_SWITCHING_MID_LINE_JITTER,
        ] + ids_of(standard_settings().subrange(14, 26)),
{
    let settings = standard_settings();
    assert(settings.len() == 26);
    lemma_head_switching_ids();
    lemma_ids_step(settings, 13);
    assert(ids_of(settings.subrange(13, 26)) =~= seq![
        setting_id::HEAD_SWITCHING, setting_id::HEAD_SWITCHING_HEIGHT,
        setting_id::HEAD_SWITCHING_OFFSET, setting_id::HEAD_SWITCHING_HORIZONTAL_SHIFT,
        setting_id::HEAD_SWITCHING_START_MID_LINE,
        setting_id::HEAD_SWITCHING_MID_LINE_POSITION,
        setting_id::HEAD_SWITCHING_MID_LINE_JITTER,
    ] + ids_of(settings.subrange(14, 26)));
    lemma_ids_step(settings, 12);
    assert(ids_of(settings.subrange(12, 26)) =~= seq![
        setting_id::LUMA_SMEAR, setting_id::HEAD_SWITCHING, setting_id::HEAD_SWITCHING_HEIGHT,
        setting_id::HEAD_SWITCHING_OFFSET, setting_id::HEAD_SWITCHING_HORIZONTAL_SHIFT,
        setting_id::HEAD_SWITCHING_START_MID_LINE,
        setting_id::HEAD_SWITCHING_MID_LINE_POSITION,
        setting_id::HEAD_SWITCHING_MID_LINE_JITTER,
    ] + ids_of(settings.subrange(14, 26)));
    lemma_ids_step(settings, 11);
    assert(ids_of(settings.subrange(11, 26)) =~= seq![
        setting_id::CHROMA_DEMODULATION, setting_id::LUMA_SMEAR, setting_id::HEAD_SWITCHING,
        setting_id::HEAD_SWITCHING_HEIGHT, setting_id::HEAD_SWITCHING_OFFSET,
        setting_id::HEAD_SWITCHING_HORIZONTAL_SHIFT, setting_id::HEAD_SWITCHING_START_MID_LINE,
        setting_id::HEAD_SWITCHING_MID_LINE_POSITION,
        setting_id::HEAD_SWITCHING_MID_LINE_JITTER,
    ] + ids_of(settings.subrange(14, 26)));
    lemma_ids_step(settings, 10);
    assert(ids_of(settings.subrange(10, 26)) =~= seq![
        setting_id::VIDEO_SCANLINE_PHASE_SHIFT_OFFSET, setting_id::CHROMA_DEMODULATION,
        setting_id::LUMA_SMEAR, setting_id::HEAD_SWITCHING, setting_id::HEAD_SWITCHING_HEIGHT,
        setting_id::HEAD_SWITCHING_OFFSET, setting_id::HEAD_SWITCHING_HORIZONTAL_SHIFT,
        setting_id::HEAD_SWITCHING_START_MID_LINE,
        setting_id::HEAD_SWITCHING_MID_LINE_POSITION,
        setting_id::HEAD_SWITCHING_MID_LINE_JITTER,
    ] + ids_of(settings.subrange(14, 26)));
}

proof fn lemma_standard_ids_from_14()
    ensures
        standard_settings().len() == 26,
        ids_of(standard_settings().subrange(14, 26)) == seq![
            setting_id::TRACKING_NOISE, setting_id::TRACKING_NOISE_HEIGHT,
            setting_id::TRACKING_NOISE_WAVE_INTENSITY,
            setting_id::TRACKING_NOISE_SNOW_INTENSITY,
            setting_id::TRACKING_NOISE_SNOW_ANISOTROPY,
            setting_id::TRACKING_NOISE_NOISE_INTENSITY, setting_id::RINGING,
            setting_id::RINGING_FREQUENCY, setting_id::RINGING_POWER,
            setting_id::RINGING_SCALE, setting_id::LUMA_NOISE,
            setting_id::LUMA_NOISE_INTENSITY, setting_id::LUMA_NOISE_FREQUENCY,
            setting_id::LUMA_NOISE_DETAIL,
        ] + ids_of(standard_settings().subrange(17, 26)),
{
    let settings = standard_settings();
    assert(settings.len() == 26);
    lemma_luma_noise_ids();
    lemma_ids_step(settings, 16);
    assert(ids_of(settings.subrange(16, 26)) =~= seq![
        setting_id::LUMA_NOISE, setting_id::LUMA_NOISE_INTENSITY,
        setting_id::LUMA_NOISE_FREQUENCY, setting_id::LUMA_NOISE_DETAIL,
    ] + ids_of(settings.subrange(17, 26)));
    lemma_ringing_ids();
    lemma_ids_step(settings, 15);
    assert(ids_of(settings.subrange(15, 26)) =~= seq![
        setting_id::RINGING, setting_id::RINGING_FREQUENCY, setting_id::RINGING_POWER,
        setting_id::RINGING_SCALE, setting_id::LUMA_NOISE, setting_id::LUMA_NOISE_INTENSITY,
        setting_id::LUMA_NOISE_FREQUENCY, setting_id::LUMA_NOISE_DETAIL,
    ] + ids_of(settings.subrange(17, 26)));
    lemma_tracking_noise_ids();
    lemma_ids_step(settings, 14);
    assert(ids_of(settings.subrange(14, 26)) =~= seq![
        setting_id::TRACKING_NOISE, setting_id::TRACKING_NOISE_HEIGHT,
        setting_id::TRACKING_NOISE_WAVE_INTENSITY, setting_id::TRACKING_NOISE_SNOW_INTENSITY,
        setting_id::TRACKING_NOISE_SNOW_ANISOTROPY, setting_id::TRACKING_NOISE_NOISE_INTENSITY,
        setting_id::RINGING, setting_id::RINGING_FREQUENCY, setting_id::RINGING_POWER,
        setting_id::RINGING_SCALE, setting_id::LUMA_NOISE, setting_id::LUMA_NOISE_INTENSITY,
        setting_id::LUMA_NOISE_FREQUENCY, setting_id::LUMA_NOISE_DETAIL,
    ] + ids_of(settings.subrange(17, 26)));
}

proof fn lemma_standard_ids_from_17()
    ensures
        standard_settings().len() == 26,
        ids_of(standard_settings().subrange(17, 26)) == seq![
            setting_id::CHROMA_NOISE, setting_id::CHROMA_NOISE_INTENSITY,
            setting_id::CHROMA_NOISE_FREQUENCY, setting_id::CHROMA_NOISE_DETAIL,
            setting_id::CHROMA_PHASE_ERROR, setting_id::CHROMA_PHASE_NOISE_INTENSITY,
        ] + ids_of(standard_settings().subrange(20, 26)),
{
    let settings = standard_settings();
    assert(settings.len() == 26);
    lemma_ids_step(settings, 19);
    assert(ids_of(settings.subrange(19, 26)) =~= seq![
        setting_id::CHROMA_PHASE_NOISE_INTENSITY,
    ] + ids_of(settings.subrange(20, 26)));
    lemma_ids_step(settings, 18);
    assert(ids_of(settings.subrange(18, 26)) =~= seq![
        setting_id::CHROMA_PHASE_ERROR, setting_id::CHROMA_PHASE_NOISE_INTENSITY,
    ] + ids_of(settings.subrange(20, 26)));
    lemma_chroma_noise_ids();
    lemma_ids_step(settings, 17);
    assert(ids_of(settings.subrange(17, 26)) =~= seq![
        setting_id::CHROMA_NOISE, setting_id::CHROMA_NOISE_INTENSITY,
        setting_id::CHROMA_NOISE_FREQUENCY, setting_id::CHROMA_NOISE_DETAIL,
        setting_id::CHROMA_PHASE_ERROR, setting_id::CHROMA_PHASE_NOISE_INTENSITY,
    ] + ids_of(settings.subrange(20, 26)));
}

proof fn lemma_standard_ids_from_20()
    ensures
        standard_settings().len() == 26,
        ids_of(standard_settings().subrange(20, 26)) == seq![
            setting_id::CHROMA_DELAY_HORIZONTAL, setting_id::CHROMA_DELAY_VERTICAL,
            setting_id::VHS_SETTINGS, setting_id::VHS_TAPE_SPEED, setting_id::VHS_CHROMA_LOSS,
            setting_id::VHS_SHARPEN_ENABLED, setting_id::VHS_SHARPEN_INTENSITY,
            setting_id::VHS_SHARPEN_FREQUENCY, setting_id::VHS_EDGE_WAVE_ENABLED,
            setting_id::VHS_EDGE_WAVE_INTENSITY, setting_id::VHS_EDGE_WAVE_SPEED,
            setting_id::VHS_EDGE_WAVE_FREQUENCY, setting_id::VHS_EDGE_WAVE_DETAIL,
        ] + ids_of(standard_settings().subrange(23, 26)),
{
    let settings = standard_settings();
    assert(settings.len() == 26);
    lemma_vhs_settings_ids();
    lemma_ids_step(settings, 22);
    assert(ids_of(settings.subrange(22, 26)) =~= seq![
        setting_id::VHS_SETTINGS, setting_id::VHS_TAPE_SPEED, setting_id::VHS_CHROMA_LOSS,
        setting_id::VHS_SHARPEN_ENABLED, setting_id::VHS_SHARPEN_INTENSITY,
        setting_id::VHS_SHARPEN_FREQUENCY, setting_id::VHS_EDGE_WAVE_ENABLED,
        setting_id::VHS_EDGE_WAVE_INTENSITY, setting_id::VHS_EDGE_WAVE_SPEED,
        setting_id::VHS_EDGE_WAVE_FREQUENCY, setting_id::VHS_EDGE_WAVE_DETAIL,
    ] + ids_of(settings.subrange(23, 26)));
    lemma_ids_step(settings, 21);
    assert(ids_of(settings.subrange(21, 26)) =~= seq![
        setting_id::CHROMA_DELAY_VERTICAL, setting_id::VHS_SETTINGS,
        setting_id::VHS_TAPE_SPEED, setting_id::VHS_CHROMA_LOSS,
        setting_id::VHS_SHARPEN_ENABLED, setting_id::VHS_SHARPEN_INTENSITY,
        setting_id::VHS_SHARPEN_FREQUENCY, setting_id::VHS_EDGE_WAVE_ENABLED,
        setting_id::VHS_EDGE_WAVE_INTENSITY, setting_id::VHS_EDGE_WAVE_SPEED,
        setting_id::VHS_EDGE_WAVE_FREQUENCY, setting_id::VHS_EDGE_WAVE_DETAIL,
    ] + ids_of(settings.subrange(23, 26)));
    lemma_ids_step(settings, 20);
    assert(ids_of(settings.subrange(20, 26)) =~= seq![
        setting_id::CHROMA_DELAY_HORIZONTAL, setting_id::CHROMA_DELAY_VERTICAL,
        setting_id::VHS_SETTINGS, setting_id::VHS_TAPE_SPEED, setting_id::VHS_CHROMA_LOSS,
        setting_id::VHS_SHARPEN_ENABLED, setting_id::VHS_SHARPEN_INTENSITY,
        setting_id::VHS_SHARPEN_FREQUENCY, setting_id::VHS_EDGE_WAVE_ENABLED,
        setting_id::VHS_EDGE_WAVE_INTENSITY, setting_id::VHS_EDGE_WAVE_SPEED,
        setting_id::VHS_EDGE_WAVE_FREQUENCY, setting_id::VHS_EDGE_WAVE_DETAIL,
    ] + ids_of(settings.subrange(23, 26)));
}

proof fn lemma_standard_ids_from_23()
    ensures
        standard_settings().len() == 26,
        ids_of(standard_settings().subrange(23, 26)) == seq![
            setting_id::CHROMA_VERT_BLEND, setting_id::CHROMA_LOWPASS_OUT,
            setting_id::BANDWIDTH_SCALE,
        ] + ids_of(standard_settings().subrange(26, 26)),
{
    let settings = standard_settings();
    assert(settings.len() == 26);
    assert(settings.subrange(26, 26).len() == 0);
    lemma_ids_step(settings, 25);
    assert(ids_of(settings.subrange(25, 26)) =~= seq![
        setting_id::BANDWIDTH_SCALE,
    ] + ids_of(settings.subrange(26, 26)));
    lemma_ids_step(settings, 24);
    assert(ids_of(settings.subrange(24, 26)) =~= seq![
        setting_id::CHROMA_LOWPASS_OUT, setting_id::BANDWIDTH_SCALE,
    ] + ids_of(settings.subrange(26, 26)));
    lemma_ids_step(settings, 23);
    assert(ids_of(settings.subrange(23, 26)) =~= seq![
        setting_id::CHROMA_VERT_BLEND, setting_id::CHROMA_LOWPASS_OUT,
        setting_id::BANDWIDTH_SCALE,
    ] + ids_of(settings.subrange(26, 26)));
}

/// The numbers of the settings of the standard effect, in the order in which
/// they are shown.
pub open spec fn standard_ids() -> Seq<u32> {
    seq![
        setting_id::RANDOM_SEED, setting_id::USE_FIELD, setting_id::FILTER_TYPE,
        setting_id::INPUT_LUMA_FILTER, setting_id::CHROMA_LOWPASS_IN,
        setting_id::COMPOSITE_PREEMPHASIS, setting_id::COMPOSITE_NOISE,
        setting_id::COMPOSITE_NOISE_INTENSITY, setting_id::COMPOSITE_NOISE_FREQUENCY,
        setting_id::COMPOSITE_NOISE_DETAIL, setting_id::SNOW_INTENSITY,
        setting_id::SNOW_ANISOTROPY, setting_id::VIDEO_SCANLINE_PHASE_SHIFT,
        setting_id::VIDEO_SCANLINE_PHASE_SHIFT_OFFSET, setting_id::CHROMA_DEMODULATION,
        setting_id::LUMA_SMEAR, setting_id::HEAD_SWITCHING, setting_id::HEAD_SWITCHING_HEIGHT,
        setting_id::HEAD_SWITCHING_OFFSET, setting_id::HEAD_SWITCHING_HORIZONTAL_SHIFT,
        setting_id::HEAD_SWITCHING_START_MID_LINE,
        setting_id::HEAD_SWITCHING_MID_LINE_POSITION,
        setting_id::HEAD_SWITCHING_MID_LINE_JITTER, setting_id::TRACKING_NOISE,
        setting_id::TRACKING_NOISE_HEIGHT, setting_id::TRACKING_NOISE_WAVE_INTENSITY,
        setting_id::TRACKING_NOISE_SNOW_INTENSITY, setting_id::TRACKING_NOISE_SNOW_ANISOTROPY,
        setting_id::TRACKING_NOISE_NOISE_INTENSITY, setting_id::RINGING,
        setting_id::RINGING_FREQUENCY, setting_id::RINGING_POWER, setting_id::RINGING_SCALE,
        setting_id::LUMA_NOISE, setting_id::LUMA_NOISE_INTENSITY,
        setting_id::LUMA_NOISE_FREQUENCY, setting_id::LUMA_NOISE_DETAIL,
        setting_id::CHROMA_NOISE, setting_id::CHROMA_NOISE_INTENSITY,
        setting_id::CHROMA_NOISE_FREQUENCY, setting_id::CHROMA_NOISE_DETAIL,
        setting_id::CHROMA_PHASE_ERROR, setting_id::CHROMA_PHASE_NOISE_INTENSITY,
        setting_id::CHROMA_DELAY_HORIZONTAL, setting_id::CHROMA_DELAY_VERTICAL,
        setting_id::VHS_SETTINGS, setting_id::VHS_TAPE_SPEED, setting_id::VHS_CHROMA_LOSS,
        setting_id::VHS_SHARPEN_ENABLED, setting_id::VHS_SHARPEN_INTENSITY,
        setting_id::VHS_SHARPEN_FREQUENCY, setting_id::VHS_EDGE_WAVE_ENABLED,
        setting_id::VHS_EDGE_WAVE_INTENSITY, setting_id::VHS_EDGE_WAVE_SPEED,
        setting_id::VHS_EDGE_WAVE_FREQUENCY, setting_id::VHS_EDGE_WAVE_DETAIL,
        setting_id::CHROMA_VERT_BLEND, setting_id::CHROMA_LOWPASS_OUT,
        setting_id::BANDWIDTH_SCALE,
    ]
}

/// The place of the setting with number `id` in [`standard_ids`].
pub open spec fn place_of(id: u32) -> int {
    match id {
        36 => 0,
        30 => 1,
        46 => 2,
        38 => 3,
        0 => 4,
        1 => 5,
        52 => 6,
        4 => 7,
        53 => 8,
        54 => 9,
        6 => 10,
        34 => 11,
        2 => 12,
        3 => 13,
        33 => 14,
        45 => 15,
        11 => 16,
        12 => 17,
        13 => 18,
        14 => 19,
        49 => 20,
        50 => 21,
        51 => 22,
        15 => 23,
        16 => 24,
        17 => 25,
        18 => 26,
        35 => 27,
        31 => 28,
        19 => 29,
        20 => 30,
        21 => 31,
        22 => 32,
        55 => 33,
        57 => 34,
        56 => 35,
        58 => 36,
        42 => 37,
        5 => 38,
        43 => 39,
        44 => 40,
        37 => 41,
        7 => 42,
        8 => 43,
        9 => 44,
        23 => 45,
        24 => 46,
        26 => 47,
        47 => 48,
        27 => 49,
        48 => 50,
        39 => 51,
        28 => 52,
        29 => 53,
        40 => 54,
        41 => 55,
        25 => 56,
        10 => 57,
        32 => 58,
        _ => -1,
    }
}

proof fn lemma_places()
    ensures
        forall|i: int| 0 <= i < standard_ids().len() ==> place_of(#[trigger] standard_ids()[i]) == i,
{
    let numbers = standard_ids();
    assert(numbers.len() == 59);
    assert forall|i: int| 0 <= i < numbers.len() implies place_of(#[trigger] numbers[i]) == i by {
        if i == 0 {
            assert(numbers[0] == setting_id::RANDOM_SEED);
        } else if i == 1 {
            assert(numbers[1] == setting_id::USE_FIELD);
        } else if i == 2 {
            assert(numbers[2] == setting_id::FILTER_TYPE);
        } else if i == 3 {
            assert(numbers[3] == setting_id::INPUT_LUMA_FILTER);
        } else if i == 4 {
            assert(numbers[4] == setting_id::CHROMA_LOWPASS_IN);
        } else if i == 5 {
            assert(numbers[5] == setting_id::COMPOSITE_PREEMPHASIS);
        } else if i == 6 {
            assert(numbers[6] == setting_id::COMPOSITE_NOISE);
        } else if i == 7 {
            assert(numbers[7] == setting_id::COMPOSITE_NOISE_INTENSITY);
        } else if i == 8 {
            assert(numbers[8] == setting_id::COMPOSITE_NOISE_FREQUENCY);
        } else if i == 9 {
            assert(numbers[9] == setting_id::COMPOSITE_NOISE_DETAIL);
        } else if i == 10 {
            assert(numbers[10] == setting_id::SNOW_INTENSITY);
        } else if i == 11 {
            assert(numbers[11] == setting_id::SNOW_ANISOTROPY);
        } else if i == 12 {
            assert(numbers[12] == setting_id::VIDEO_SCANLINE_PHASE_SHIFT);
        } else if i == 13 {
            assert(numbers[13] == setting_id::VIDEO_SCANLINE_PHASE_SHIFT_OFFSET);
        } else if i == 14 {
            assert(numbers[14] == setting_id::CHROMA_DEMODULATION);
        } else if i == 15 {
            assert(numbers[15] == setting_id::LUMA_SMEAR);
        } else if i == 16 {
            assert(numbers[16] == setting_id::HEAD_SWITCHING);
        } else if i == 17 {
            assert(numbers[17] == setting_id::HEAD_SWITCHING_HEIGHT);
        } else if i == 18 {
            assert(numbers[18] == setting_id::HEAD_SWITCHING_OFFSET);
        } else if i == 19 {
            assert(numbers[19] == setting_id::HEAD_SWITCHING_HORIZONTAL_SHIFT);
        } else if i == 20 {
            assert(numbers[20] == setting_id::HEAD_SWITCHING_START_MID_LINE);
        } else if i == 21 {
            assert(numbers[21] == setting_id::HEAD_SWITCHING_MID_LINE_POSITION);
        } else if i == 22 {
            assert(numbers[22] == setting_id::HEAD_SWITCHING_MID_LINE_JITTER);
        } else if i == 23 {
            assert(numbers[23] == setting_id::TRACKING_NOISE);
        } else if i == 24 {
            assert(numbers[24] == setting_id::TRACKING_NOISE_HEIGHT);
        } else if i == 25 {
            assert(numbers[25] == setting_id::TRACKING_NOISE_WAVE_INTENSITY);
        } else if i == 26 {
            assert(numbers[26] == setting_id::TRACKING_NOISE_SNOW_INTENSITY);
        } else if i == 27 {
            assert(numbers[27] == setting_id::TRACKING_NOISE_SNOW_ANISOTROPY);
        } else if i == 28 {
            assert(numbers[28] == setting_id::TRACKING_NOISE_NOISE_INTENSITY);
        } else if i == 29 {
            assert(numbers[29] == setting_id::RINGING);
        } else if i == 30 {
            assert(numbers[30] == setting_id::RINGING_FREQUENCY);
        } else if i == 31 {
            assert(numbers[31] == setting_id::RINGING_POWER);
        } else if i == 32 {
            assert(numbers[32] == setting_id::RINGING_SCALE);
        } else if i == 33 {
            assert(numbers[33] == setting_id::LUMA_NOISE);
        } else if i == 34 {
            assert(numbers[34] == setting_id::LUMA_NOISE_INTENSITY);
        } else if i == 35 {
            assert(numbers[35] == setting_id::LUMA_NOISE_FREQUENCY);
        } else if i == 36 {
            assert(numbers[36] == setting_id::LUMA_NOISE_DETAIL);
        } else if i == 37 {
            assert(numbers[37] == setting_id::CHROMA_NOISE);
        } else if i == 38 {
            assert(numbers[38] == setting_id::CHROMA_NOISE_INTENSITY);
        } else if i == 39 {
            assert(numbers[39] == setting_id::CHROMA_NOISE_FREQUENCY);
        } else if i == 40 {
            assert(numbers[40] == setting_id::CHROMA_NOISE_DETAIL);
        } else if i == 41 {
            assert(numbers[41] == setting_id::CHROMA_PHASE_ERROR);
        } else if i == 42 {
            assert(numbers[42] == setting_id::CHROMA_PHASE_NOISE_INTENSITY);
        } else if i == 43 {
            assert(numbers[43] == setting_id::CHROMA_DELAY_HORIZONTAL);
        } else if i == 44 {
            assert(numbers[44] == setting_id::CHROMA_DELAY_VERTICAL);
        } else if i == 45 {
            assert(numbers[45] == setting_id::VHS_SETTINGS);
        } else if i == 46 {
            assert(numbers[46] == setting_id::VHS_TAPE_SPEED);
        } else if i == 47 {
            assert(numbers[47] == setting_id::VHS_CHROMA_LOSS);
        } else if i == 48 {
            assert(numbers[48] == setting_id::VHS_SHARPEN_ENABLED);
        } else if i == 49 {
            assert(numbers[49] == setting_id::VHS_SHARPEN_INTENSITY);
        } else if i == 50 {
            assert(numbers[50] == setting_id::VHS_SHARPEN_FREQUENCY);
        } else if i == 51 {
            assert(numbers[51] == setting_id::VHS_EDGE_WAVE_ENABLED);
        } else if i == 52 {
            assert(numbers[52] == setting_id::VHS_EDGE_WAVE_INTENSITY);
        } else if i == 53 {
            assert(numbers[53] == setting_id::VHS_EDGE_WAVE_SPEED);
        } else if i == 54 {
            assert(numbers[54] == setting_id::VHS_EDGE_WAVE_FREQUENCY);
        } else if i == 55 {
            assert(numbers[55] == setting_id::VHS_EDGE_WAVE_DETAIL);
        } else if i == 56 {
            assert(numbers[56] == setting_id::CHROMA_VERT_BLEND);
        } else if i == 57 {
            assert(numbers[57] == setting_id::CHROMA_LOWPASS_OUT);
        } else if i == 58 {
            assert(numbers[58] == setting_id::BANDWIDTH_SCALE);
        }
    }
}

/// Every setting has a place of its own: the settings of the standard effect
/// carry the numbers of [`standard_ids`], and no number occurs twice.
pub proof fn lemma_standard_ids_are_distinct()
    ensures
        ids_of(standard_settings()) == standard_ids(),
        standard_ids().no_duplicates(),
        forall|i: int| 0 <= i < standard_ids().len() ==> place_of(#[trigger] standard_ids()[i]) == i,
{
    let settings = standard_settings();
    lemma_standard_ids_from_0();
    lemma_standard_ids_from_6();
    lemma_standard_ids_from_10();
    lemma_standard_ids_from_14();
    lemma_standard_ids_from_17();
    lemma_standard_ids_from_20();
    lemma_standard_ids_from_23();
    assert(settings.subrange(26, 26).len() == 0);
    assert(settings.subrange(0, 26) =~= settings);
    assert(ids_of(settings) =~= standard_ids());
    lemma_places();
    let numbers = standard_ids();
    assert forall|i: int, j: int| 0 <= i < numbers.len() && 0 <= j < numbers.len() && i != j implies numbers[i]
        != numbers[j] by {
        assert(place_of(numbers[i]) == i);
        assert(place_of(numbers[j]) == j);
    }
}

} // verus!
