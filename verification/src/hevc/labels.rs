//! Labels and names of settings agree.

use super::modes::{
    HevcEncodeParameterMode,
    HevcEncodePrimaryProbeMode,
    HevcEncodeProbeBeginReferenceSlotMode,
    HevcEncodeProbeBeginSessionParametersMode,
    HevcEncodeProbeCodecInfoMode,
    HevcEncodeProbeControlMode,
    HevcEncodeProbeMaintenance1Mode,
    HevcEncodeProbeNaluMode,
    HevcEncodeProbePictureFlagsMode,
    HevcEncodeProbePictureInfoMode,
    HevcEncodeProbePictureResourceExtentMode,
    HevcEncodeProbeRateControlMode,
    HevcEncodeProbeReferenceIndexMode,
    HevcEncodeProbeReferenceListMode,
    HevcEncodeProbeRpsMode,
    HevcEncodeProbeSessionDpbMode,
    HevcEncodeProbeSetupReferenceSlotMode,
    begin_reference_slot_mode_named,
    begin_session_parameters_mode_named,
    codec_info_mode_named,
    control_mode_named,
    maintenance1_mode_named,
    nalu_mode_named,
    parameter_mode_named,
    picture_flags_mode_named,
    picture_info_mode_named,
    picture_resource_extent_mode_named,
    primary_mode_named,
    rate_control_mode_named,
    reference_index_mode_named,
    reference_list_mode_named,
    rps_mode_named,
    session_dpb_mode_named,
    setup_reference_slot_mode_named,
};
use vstd::prelude::*;

verus! {

/// Every label names its own value.
pub proof fn law_parameter_mode_labels(mode: HevcEncodeParameterMode)
    ensures
        parameter_mode_named(Some(mode.label())) == mode,
{
    let n = mode.label();
    match mode {
        HevcEncodeParameterMode::Sample => {
            assert(n.len() != "sample-no-add"@.len() && n.len() != "sample_no_add"@.len()
                && n.len() != "sample-no-add-info"@.len() && n.len() != "sample_no_add_info"@.len()
                && n.len() != "sample-minimal"@.len()) by {
                reveal_strlit("sample"); reveal_strlit("sample-no-add");
                reveal_strlit("sample_no_add"); reveal_strlit("sample-no-add-info");
                reveal_strlit("sample_no_add_info"); reveal_strlit("sample-minimal");
            }
            assert(n.len() != "sample-vps-only"@.len() && n.len() != "sample_vps_only"@.len()
                && n.len() != "sample-vps"@.len() && n.len() != "vps-only"@.len()
                && n.len() != "vps_only"@.len()) by {
                reveal_strlit("sample"); reveal_strlit("sample-vps-only");
                reveal_strlit("sample_vps_only"); reveal_strlit("sample-vps");
                reveal_strlit("vps-only"); reveal_strlit("vps_only");
            }
            assert(n.len() != "sample-sps-only"@.len() && n.len() != "sample_sps_only"@.len()
                && n.len() != "sample-sps"@.len() && n.len() != "sps-only"@.len()
                && n.len() != "sps_only"@.len()) by {
                reveal_strlit("sample"); reveal_strlit("sample-sps-only");
                reveal_strlit("sample_sps_only"); reveal_strlit("sample-sps");
                reveal_strlit("sps-only"); reveal_strlit("sps_only");
            }
            assert(n.len() != "sample-sps-no-vui"@.len() && n.len() != "sample_sps_no_vui"@.len()
                && n.len() != "sample-sps-no-vui-info"@.len() && n.len() != "sps-no-vui"@.len()
                && n.len() != "sps_no_vui"@.len()) by {
                reveal_strlit("sample"); reveal_strlit("sample-sps-no-vui");
                reveal_strlit("sample_sps_no_vui"); reveal_strlit("sample-sps-no-vui-info");
                reveal_strlit("sps-no-vui"); reveal_strlit("sps_no_vui");
            }
            assert(n.len() != "sample-sps-vui-flag-off"@.len()
                && n.len() != "sample_sps_vui_flag_off"@.len()
                && n.len() != "sample-sps-flag-vui-off"@.len()
                && n.len() != "sps-vui-flag-off"@.len() && n.len() != "sps_vui_flag_off"@.len()) by {
                reveal_strlit("sample"); reveal_strlit("sample-sps-vui-flag-off");
                reveal_strlit("sample_sps_vui_flag_off"); reveal_strlit("sample-sps-flag-vui-off");
                reveal_strlit("sps-vui-flag-off"); reveal_strlit("sps_vui_flag_off");
            }
            assert(n.len() != "sample-sps-no-vui-flag-on"@.len()
                && n.len() != "sample_sps_no_vui_flag_on"@.len()
                && n.len() != "sample-sps-vui-flag-on"@.len()
                && n.len() != "sps-no-vui-flag-on"@.len() && n.len() != "sps_no_vui_flag_on"@.len()) by {
                reveal_strlit("sample"); reveal_strlit("sample-sps-no-vui-flag-on");
                reveal_strlit("sample_sps_no_vui_flag_on");
                reveal_strlit("sample-sps-vui-flag-on"); reveal_strlit("sps-no-vui-flag-on");
                reveal_strlit("sps_no_vui_flag_on");
            }
            assert(n.len() != "sample-sps-no-rps"@.len() && n.len() != "sample_sps_no_rps"@.len()
                && n.len() != "sample-sps-no-ref-sets"@.len() && n.len() != "sps-no-rps"@.len()
                && n.len() != "sps_no_rps"@.len()) by {
                reveal_strlit("sample"); reveal_strlit("sample-sps-no-rps");
                reveal_strlit("sample_sps_no_rps"); reveal_strlit("sample-sps-no-ref-sets");
                reveal_strlit("sps-no-rps"); reveal_strlit("sps_no_rps");
            }
            assert(n.len() != "sample-sps-safe-flags"@.len()
                && n.len() != "sample_sps_safe_flags"@.len()
                && n.len() != "sample-sps-libx265-flags"@.len()
                && n.len() != "sps-safe-flags"@.len() && n.len() != "sps_safe_flags"@.len()) by {
                reveal_strlit("sample"); reveal_strlit("sample-sps-safe-flags");
                reveal_strlit("sample_sps_safe_flags"); reveal_strlit("sample-sps-libx265-flags");
                reveal_strlit("sps-safe-flags"); reveal_strlit("sps_safe_flags");
            }
            assert(n.len() != "sample-sps-level"@.len() && n.len() != "sample_sps_level"@.len()
                && n.len() != "sample-sps-level-idc"@.len() && n.len() != "sps-level"@.len()
                && n.len() != "sps_level"@.len()) by {
                reveal_strlit("sample"); reveal_strlit("sample-sps-level");
                reveal_strlit("sample_sps_level"); reveal_strlit("sample-sps-level-idc");
                reveal_strlit("sps-level"); reveal_strlit("sps_level");
            }
            assert(n.len() != "sample-sps-sub-layer-ordering"@.len()
                && n.len() != "sample_sps_sub_layer_ordering"@.len()
                && n.len() != "sample-sps-ordering"@.len() && n.len() != "sps-ordering"@.len()
                && n.len() != "sps_ordering"@.len()) by {
                reveal_strlit("sample"); reveal_strlit("sample-sps-sub-layer-ordering");
                reveal_strlit("sample_sps_sub_layer_ordering");
                reveal_strlit("sample-sps-ordering"); reveal_strlit("sps-ordering");
                reveal_strlit("sps_ordering");
            }
            assert(n.len() != "sample-sps-level-ordering"@.len()
                && n.len() != "sample_sps_level_ordering"@.len()
                && n.len() != "sample-sps-libx265-shape"@.len()
                && n.len() != "sps-level-ordering"@.len() && n.len() != "sps_level_ordering"@.len()) by {
                reveal_strlit("sample"); reveal_strlit("sample-sps-level-ordering");
                reveal_strlit("sample_sps_level_ordering");
                reveal_strlit("sample-sps-libx265-shape"); reveal_strlit("sps-level-ordering");
                reveal_strlit("sps_level_ordering");
            }
            assert(n.len() != "sample-pps-only"@.len() && n.len() != "sample_pps_only"@.len()
                && n.len() != "sample-pps"@.len() && n.len() != "pps-only"@.len()
                && n.len() != "pps_only"@.len()) by {
                reveal_strlit("sample"); reveal_strlit("sample-pps-only");
                reveal_strlit("sample_pps_only"); reveal_strlit("sample-pps");
                reveal_strlit("pps-only"); reveal_strlit("pps_only");
            }
            assert(n.len() != "empty"@.len() && n.len() != "template"@.len()
                && n.len() != "minimal"@.len() && n.len() != "empty-template"@.len()
                && n.len() != "empty_template"@.len()) by {
                reveal_strlit("sample"); reveal_strlit("empty"); reveal_strlit("template");
                reveal_strlit("minimal"); reveal_strlit("empty-template");
                reveal_strlit("empty_template");
            }
        },
        HevcEncodeParameterMode::SampleNoAddInfo => {},
        HevcEncodeParameterMode::SampleVpsOnly => {
            assert(n.len() != "sample-no-add"@.len() && n.len() != "sample_no_add"@.len()
                && n.len() != "sample-no-add-info"@.len() && n.len() != "sample_no_add_info"@.len()
                && n.len() != "sample-minimal"@.len()) by {
                reveal_strlit("sample-vps-only"); reveal_strlit("sample-no-add");
                reveal_strlit("sample_no_add"); reveal_strlit("sample-no-add-info");
                reveal_strlit("sample_no_add_info"); reveal_strlit("sample-minimal");
            }
        },
        HevcEncodeParameterMode::SampleSpsOnly => {
            assert(n.len() != "sample-no-add"@.len() && n.len() != "sample_no_add"@.len()
                && n.len() != "sample-no-add-info"@.len() && n.len() != "sample_no_add_info"@.len()
                && n.len() != "sample-minimal"@.len()) by {
                reveal_strlit("sample-sps-only"); reveal_strlit("sample-no-add");
                reveal_strlit("sample_no_add"); reveal_strlit("sample-no-add-info");
                reveal_strlit("sample_no_add_info"); reveal_strlit("sample-minimal");
            }
            assert(n[7] != "sample-vps-only"@[7] && n[6] != "sample_vps_only"@[6]
                && n.len() != "sample-vps"@.len() && n.len() != "vps-only"@.len()
                && n.len() != "vps_only"@.len()) by {
                reveal_strlit("sample-sps-only"); reveal_strlit("sample-vps-only");
                reveal_strlit("sample_vps_only"); reveal_strlit("sample-vps");
                reveal_strlit("vps-only"); reveal_strlit("vps_only");
            }
        },
        HevcEncodeParameterMode::SampleSpsNoVui => {
            assert(n.len() != "sample-no-add"@.len() && n.len() != "sample_no_add"@.len()
                && n.len() != "sample-no-add-info"@.len() && n.len() != "sample_no_add_info"@.len()
                && n.len() != "sample-minimal"@.len()) by {
                reveal_strlit("sample-sps-no-vui"); reveal_strlit("sample-no-add");
                reveal_strlit("sample_no_add"); reveal_strlit("sample-no-add-info");
                reveal_strlit("sample_no_add_info"); reveal_strlit("sample-minimal");
            }
            assert(n.len() != "sample-vps-only"@.len() && n.len() != "sample_vps_only"@.len()
                && n.len() != "sample-vps"@.len() && n.len() != "vps-only"@.len()
                && n.len() != "vps_only"@.len()) by {
                reveal_strlit("sample-sps-no-vui"); reveal_strlit("sample-vps-only");
                reveal_strlit("sample_vps_only"); reveal_strlit("sample-vps");
                reveal_strlit("vps-only"); reveal_strlit("vps_only");
            }
            assert(n.len() != "sample-sps-only"@.len() && n.len() != "sample_sps_only"@.len()
                && n.len() != "sample-sps"@.len() && n.len() != "sps-only"@.len()
                && n.len() != "sps_only"@.len()) by {
                reveal_strlit("sample-sps-no-vui"); reveal_strlit("sample-sps-only");
                reveal_strlit("sample_sps_only"); reveal_strlit("sample-sps");
                reveal_strlit("sps-only"); reveal_strlit("sps_only");
            }
        },
        HevcEncodeParameterMode::SampleSpsVuiFlagOff => {
            assert(n.len() != "sample-no-add"@.len() && n.len() != "sample_no_add"@.len()
                && n.len() != "sample-no-add-info"@.len() && n.len() != "sample_no_add_info"@.len()
                && n.len() != "sample-minimal"@.len()) by {
                reveal_strlit("sample-sps-vui-flag-off"); reveal_strlit("sample-no-add");
                reveal_strlit("sample_no_add"); reveal_strlit("sample-no-add-info");
                reveal_strlit("sample_no_add_info"); reveal_strlit("sample-minimal");
            }
            assert(n.len() != "sample-vps-only"@.len() && n.len() != "sample_vps_only"@.len()
                && n.len() != "sample-vps"@.len() && n.len() != "vps-only"@.len()
                && n.len() != "vps_only"@.len()) by {
                reveal_strlit("sample-sps-vui-flag-off"); reveal_strlit("sample-vps-only");
                reveal_strlit("sample_vps_only"); reveal_strlit("sample-vps");
                reveal_strlit("vps-only"); reveal_strlit("vps_only");
            }
            assert(n.len() != "sample-sps-only"@.len() && n.len() != "sample_sps_only"@.len()
                && n.len() != "sample-sps"@.len() && n.len() != "sps-only"@.len()
                && n.len() != "sps_only"@.len()) by {
                reveal_strlit("sample-sps-vui-flag-off"); reveal_strlit("sample-sps-only");
                reveal_strlit("sample_sps_only"); reveal_strlit("sample-sps");
                reveal_strlit("sps-only"); reveal_strlit("sps_only");
            }
            assert(n.len() != "sample-sps-no-vui"@.len() && n.len() != "sample_sps_no_vui"@.len()
                && n.len() != "sample-sps-no-vui-info"@.len() && n.len() != "sps-no-vui"@.len()
                && n.len() != "sps_no_vui"@.len()) by {
                reveal_strlit("sample-sps-vui-flag-off"); reveal_strlit("sample-sps-no-vui");
                reveal_strlit("sample_sps_no_vui"); reveal_strlit("sample-sps-no-vui-info");
                reveal_strlit("sps-no-vui"); reveal_strlit("sps_no_vui");
            }
        },
        HevcEncodeParameterMode::SampleSpsNoVuiFlagOn => {
            assert(n.len() != "sample-no-add"@.len() && n.len() != "sample_no_add"@.len()
                && n.len() != "sample-no-add-info"@.len() && n.len() != "sample_no_add_info"@.len()
                && n.len() != "sample-minimal"@.len()) by {
                reveal_strlit("sample-sps-no-vui-flag-on"); reveal_strlit("sample-no-add");
                reveal_strlit("sample_no_add"); reveal_strlit("sample-no-add-info");
                reveal_strlit("sample_no_add_info"); reveal_strlit("sample-minimal");
            }
            assert(n.len() != "sample-vps-only"@.len() && n.len() != "sample_vps_only"@.len()
                && n.len() != "sample-vps"@.len() && n.len() != "vps-only"@.len()
                && n.len() != "vps_only"@.len()) by {
                reveal_strlit("sample-sps-no-vui-flag-on"); reveal_strlit("sample-vps-only");
                reveal_strlit("sample_vps_only"); reveal_strlit("sample-vps");
                reveal_strlit("vps-only"); reveal_strlit("vps_only");
            }
            assert(n.len() != "sample-sps-only"@.len() && n.len() != "sample_sps_only"@.len()
                && n.len() != "sample-sps"@.len() && n.len() != "sps-only"@.len()
                && n.len() != "sps_only"@.len()) by {
                reveal_strlit("sample-sps-no-vui-flag-on"); reveal_strlit("sample-sps-only");
                reveal_strlit("sample_sps_only"); reveal_strlit("sample-sps");
                reveal_strlit("sps-only"); reveal_strlit("sps_only");
            }
            assert(n.len() != "sample-sps-no-vui"@.len() && n.len() != "sample_sps_no_vui"@.len()
                && n.len() != "sample-sps-no-vui-info"@.len() && n.len() != "sps-no-vui"@.len()
                && n.len() != "sps_no_vui"@.len()) by {
                reveal_strlit("sample-sps-no-vui-flag-on"); reveal_strlit("sample-sps-no-vui");
                reveal_strlit("sample_sps_no_vui"); reveal_strlit("sample-sps-no-vui-info");
                reveal_strlit("sps-no-vui"); reveal_strlit("sps_no_vui");
            }
            assert(n.len() != "sample-sps-vui-flag-off"@.len()
                && n.len() != "sample_sps_vui_flag_off"@.len()
                && n.len() != "sample-sps-flag-vui-off"@.len()
                && n.len() != "sps-vui-flag-off"@.len() && n.len() != "sps_vui_flag_off"@.len()) by {
                reveal_strlit("sample-sps-no-vui-flag-on");
                reveal_strlit("sample-sps-vui-flag-off"); reveal_strlit("sample_sps_vui_flag_off");
                reveal_strlit("sample-sps-flag-vui-off"); reveal_strlit("sps-vui-flag-off");
                reveal_strlit("sps_vui_flag_off");
            }
        },
        HevcEncodeParameterMode::SampleSpsNoRps => {
            assert(n.len() != "sample-no-add"@.len() && n.len() != "sample_no_add"@.len()
                && n.len() != "sample-no-add-info"@.len() && n.len() != "sample_no_add_info"@.len()
                && n.len() != "sample-minimal"@.len()) by {
                reveal_strlit("sample-sps-no-rps"); reveal_strlit("sample-no-add");
                reveal_strlit("sample_no_add"); reveal_strlit("sample-no-add-info");
                reveal_strlit("sample_no_add_info"); reveal_strlit("sample-minimal");
            }
            assert(n.len() != "sample-vps-only"@.len() && n.len() != "sample_vps_only"@.len()
                && n.len() != "sample-vps"@.len() && n.len() != "vps-only"@.len()
                && n.len() != "vps_only"@.len()) by {
                reveal_strlit("sample-sps-no-rps"); reveal_strlit("sample-vps-only");
                reveal_strlit("sample_vps_only"); reveal_strlit("sample-vps");
                reveal_strlit("vps-only"); reveal_strlit("vps_only");
            }
            assert(n.len() != "sample-sps-only"@.len() && n.len() != "sample_sps_only"@.len()
                && n.len() != "sample-sps"@.len() && n.len() != "sps-only"@.len()
                && n.len() != "sps_only"@.len()) by {
                reveal_strlit("sample-sps-no-rps"); reveal_strlit("sample-sps-only");
                reveal_strlit("sample_sps_only"); reveal_strlit("sample-sps");
                reveal_strlit("sps-only"); reveal_strlit("sps_only");
            }
            assert(n[14] != "sample-sps-no-vui"@[14] && n[6] != "sample_sps_no_vui"@[6]
                && n.len() != "sample-sps-no-vui-info"@.len() && n.len() != "sps-no-vui"@.len()
                && n.len() != "sps_no_vui"@.len()) by {
                reveal_strlit("sample-sps-no-rps"); reveal_strlit("sample-sps-no-vui");
                reveal_strlit("sample_sps_no_vui"); reveal_strlit("sample-sps-no-vui-info");
                reveal_strlit("sps-no-vui"); reveal_strlit("sps_no_vui");
            }
            assert(n.len() != "sample-sps-vui-flag-off"@.len()
                && n.len() != "sample_sps_vui_flag_off"@.len()
                && n.len() != "sample-sps-flag-vui-off"@.len()
                && n.len() != "sps-vui-flag-off"@.len() && n.len() != "sps_vui_flag_off"@.len()) by {
                reveal_strlit("sample-sps-no-rps"); reveal_strlit("sample-sps-vui-flag-off");
                reveal_strlit("sample_sps_vui_flag_off"); reveal_strlit("sample-sps-flag-vui-off");
                reveal_strlit("sps-vui-flag-off"); reveal_strlit("sps_vui_flag_off");
            }
            assert(n.len() != "sample-sps-no-vui-flag-on"@.len()
                && n.len() != "sample_sps_no_vui_flag_on"@.len()
                && n.len() != "sample-sps-vui-flag-on"@.len()
                && n.len() != "sps-no-vui-flag-on"@.len() && n.len() != "sps_no_vui_flag_on"@.len()) by {
                reveal_strlit("sample-sps-no-rps"); reveal_strlit("sample-sps-no-vui-flag-on");
                reveal_strlit("sample_sps_no_vui_flag_on");
                reveal_strlit("sample-sps-vui-flag-on"); reveal_strlit("sps-no-vui-flag-on");
                reveal_strlit("sps_no_vui_flag_on");
            }
        },
        HevcEncodeParameterMode::SampleSpsSafeFlags => {
            assert(n.len() != "sample-no-add"@.len() && n.len() != "sample_no_add"@.len()
                && n.len() != "sample-no-add-info"@.len() && n.len() != "sample_no_add_info"@.len()
                && n.len() != "sample-minimal"@.len()) by {
                reveal_strlit("sample-sps-safe-flags"); reveal_strlit("sample-no-add");
                reveal_strlit("sample_no_add"); reveal_strlit("sample-no-add-info");
                reveal_strlit("sample_no_add_info"); reveal_strlit("sample-minimal");
            }
            assert(n.len() != "sample-vps-only"@.len() && n.len() != "sample_vps_only"@.len()
                && n.len() != "sample-vps"@.len() && n.len() != "vps-only"@.len()
                && n.len() != "vps_only"@.len()) by {
                reveal_strlit("sample-sps-safe-flags"); reveal_strlit("sample-vps-only");
                reveal_strlit("sample_vps_only"); reveal_strlit("sample-vps");
                reveal_strlit("vps-only"); reveal_strlit("vps_only");
            }
            assert(n.len() != "sample-sps-only"@.len() && n.len() != "sample_sps_only"@.len()
                && n.len() != "sample-sps"@.len() && n.len() != "sps-only"@.len()
                && n.len() != "sps_only"@.len()) by {
                reveal_strlit("sample-sps-safe-flags"); reveal_strlit("sample-sps-only");
                reveal_strlit("sample_sps_only"); reveal_strlit("sample-sps");
                reveal_strlit("sps-only"); reveal_strlit("sps_only");
            }
            assert(n.len() != "sample-sps-no-vui"@.len() && n.len() != "sample_sps_no_vui"@.len()
                && n.len() != "sample-sps-no-vui-info"@.len() && n.len() != "sps-no-vui"@.len()
                && n.len() != "sps_no_vui"@.len()) by {
                reveal_strlit("sample-sps-safe-flags"); reveal_strlit("sample-sps-no-vui");
                reveal_strlit("sample_sps_no_vui"); reveal_strlit("sample-sps-no-vui-info");
                reveal_strlit("sps-no-vui"); reveal_strlit("sps_no_vui");
            }
            assert(n.len() != "sample-sps-vui-flag-off"@.len()
                && n.len() != "sample_sps_vui_flag_off"@.len()
                && n.len() != "sample-sps-flag-vui-off"@.len()
                && n.len() != "sps-vui-flag-off"@.len() && n.len() != "sps_vui_flag_off"@.len()) by {
                reveal_strlit("sample-sps-safe-flags"); reveal_strlit("sample-sps-vui-flag-off");
                reveal_strlit("sample_sps_vui_flag_off"); reveal_strlit("sample-sps-flag-vui-off");
                reveal_strlit("sps-vui-flag-off"); reveal_strlit("sps_vui_flag_off");
            }
            assert(n.len() != "sample-sps-no-vui-flag-on"@.len()
                && n.len() != "sample_sps_no_vui_flag_on"@.len()
                && n.len() != "sample-sps-vui-flag-on"@.len()
                && n.len() != "sps-no-vui-flag-on"@.len() && n.len() != "sps_no_vui_flag_on"@.len()) by {
                reveal_strlit("sample-sps-safe-flags"); reveal_strlit("sample-sps-no-vui-flag-on");
                reveal_strlit("sample_sps_no_vui_flag_on");
                reveal_strlit("sample-sps-vui-flag-on"); reveal_strlit("sps-no-vui-flag-on");
                reveal_strlit("sps_no_vui_flag_on");
            }
            assert(n.len() != "sample-sps-no-rps"@.len() && n.len() != "sample_sps_no_rps"@.len()
                && n.len() != "sample-sps-no-ref-sets"@.len() && n.len() != "sps-no-rps"@.len()
                && n.len() != "sps_no_rps"@.len()) by {
                reveal_strlit("sample-sps-safe-flags"); reveal_strlit("sample-sps-no-rps");
                reveal_strlit("sample_sps_no_rps"); reveal_strlit("sample-sps-no-ref-sets");
                reveal_strlit("sps-no-rps"); reveal_strlit("sps_no_rps");
            }
        },
        HevcEncodeParameterMode::SampleSpsLevel => {
            assert(n.len() != "sample-no-add"@.len() && n.len() != "sample_no_add"@.len()
                && n.len() != "sample-no-add-info"@.len() && n.len() != "sample_no_add_info"@.len()
                && n.len() != "sample-minimal"@.len()) by {
                reveal_strlit("sample-sps-level"); reveal_strlit("sample-no-add");
                reveal_strlit("sample_no_add"); reveal_strlit("sample-no-add-info");
                reveal_strlit("sample_no_add_info"); reveal_strlit("sample-minimal");
            }
            assert(n.len() != "sample-vps-only"@.len() && n.len() != "sample_vps_only"@.len()
                && n.len() != "sample-vps"@.len() && n.len() != "vps-only"@.len()
                && n.len() != "vps_only"@.len()) by {
                reveal_strlit("sample-sps-level"); reveal_strlit("sample-vps-only");
                reveal_strlit("sample_vps_only"); reveal_strlit("sample-vps");
                reveal_strlit("vps-only"); reveal_strlit("vps_only");
            }
            assert(n.len() != "sample-sps-only"@.len() && n.len() != "sample_sps_only"@.len()
                && n.len() != "sample-sps"@.len() && n.len() != "sps-only"@.len()
                && n.len() != "sps_only"@.len()) by {
                reveal_strlit("sample-sps-level"); reveal_strlit("sample-sps-only");
                reveal_strlit("sample_sps_only"); reveal_strlit("sample-sps");
                reveal_strlit("sps-only"); reveal_strlit("sps_only");
            }
            assert(n.len() != "sample-sps-no-vui"@.len() && n.len() != "sample_sps_no_vui"@.len()
                && n.len() != "sample-sps-no-vui-info"@.len() && n.len() != "sps-no-vui"@.len()
                && n.len() != "sps_no_vui"@.len()) by {
                reveal_strlit("sample-sps-level"); reveal_strlit("sample-sps-no-vui");
                reveal_strlit("sample_sps_no_vui"); reveal_strlit("sample-sps-no-vui-info");
                reveal_strlit("sps-no-vui"); reveal_strlit("sps_no_vui");
            }
            assert(n.len() != "sample-sps-vui-flag-off"@.len()
                && n.len() != "sample_sps_vui_flag_off"@.len()
                && n.len() != "sample-sps-flag-vui-off"@.len() && n[1] != "sps-vui-flag-off"@[1]
                && n[1] != "sps_vui_flag_off"@[1]) by {
                reveal_strlit("sample-sps-level"); reveal_strlit("sample-sps-vui-flag-off");
                reveal_strlit("sample_sps_vui_flag_off"); reveal_strlit("sample-sps-flag-vui-off");
                reveal_strlit("sps-vui-flag-off"); reveal_strlit("sps_vui_flag_off");
            }
            assert(n.len() != "sample-sps-no-vui-flag-on"@.len()
                && n.len() != "sample_sps_no_vui_flag_on"@.len()
                && n.len() != "sample-sps-vui-flag-on"@.len()
                && n.len() != "sps-no-vui-flag-on"@.len() && n.len() != "sps_no_vui_flag_on"@.len()) by {
                reveal_strlit("sample-sps-level"); reveal_strlit("sample-sps-no-vui-flag-on");
                reveal_strlit("sample_sps_no_vui_flag_on");
                reveal_strlit("sample-sps-vui-flag-on"); reveal_strlit("sps-no-vui-flag-on");
                reveal_strlit("sps_no_vui_flag_on");
            }
            assert(n.len() != "sample-sps-no-rps"@.len() && n.len() != "sample_sps_no_rps"@.len()
                && n.len() != "sample-sps-no-ref-sets"@.len() && n.len() != "sps-no-rps"@.len()
                && n.len() != "sps_no_rps"@.len()) by {
                reveal_strlit("sample-sps-level"); reveal_strlit("sample-sps-no-rps");
                reveal_strlit("sample_sps_no_rps"); reveal_strlit("sample-sps-no-ref-sets");
                reveal_strlit("sps-no-rps"); reveal_strlit("sps_no_rps");
            }
            assert(n.len() != "sample-sps-safe-flags"@.len()
                && n.len() != "sample_sps_safe_flags"@.len()
                && n.len() != "sample-sps-libx265-flags"@.len()
                && n.len() != "sps-safe-flags"@.len() && n.len() != "sps_safe_flags"@.len()) by {
                reveal_strlit("sample-sps-level"); reveal_strlit("sample-sps-safe-flags");
                reveal_strlit("sample_sps_safe_flags"); reveal_strlit("sample-sps-libx265-flags");
                reveal_strlit("sps-safe-flags"); reveal_strlit("sps_safe_flags");
            }
        },
        HevcEncodeParameterMode::SampleSpsSubLayerOrdering => {
            assert(n.len() != "sample-no-add"@.len() && n.len() != "sample_no_add"@.len()
                && n.len() != "sample-no-add-info"@.len() && n.len() != "sample_no_add_info"@.len()
                && n.len() != "sample-minimal"@.len()) by {
                reveal_strlit("sample-sps-sub-layer-ordering"); reveal_strlit("sample-no-add");
                reveal_strlit("sample_no_add"); reveal_strlit("sample-no-add-info");
                reveal_strlit("sample_no_add_info"); reveal_strlit("sample-minimal");
            }
            assert(n.len() != "sample-vps-only"@.len() && n.len() != "sample_vps_only"@.len()
                && n.len() != "sample-vps"@.len() && n.len() != "vps-only"@.len()
                && n.len() != "vps_only"@.len()) by {
                reveal_strlit("sample-sps-sub-layer-ordering"); reveal_strlit("sample-vps-only");
                reveal_strlit("sample_vps_only"); reveal_strlit("sample-vps");
                reveal_strlit("vps-only"); reveal_strlit("vps_only");
            }
            assert(n.len() != "sample-sps-only"@.len() && n.len() != "sample_sps_only"@.len()
                && n.len() != "sample-sps"@.len() && n.len() != "sps-only"@.len()
                && n.len() != "sps_only"@.len()) by {
                reveal_strlit("sample-sps-sub-layer-ordering"); reveal_strlit("sample-sps-only");
                reveal_strlit("sample_sps_only"); reveal_strlit("sample-sps");
                reveal_strlit("sps-only"); reveal_strlit("sps_only");
            }
            assert(n.len() != "sample-sps-no-vui"@.len() && n.len() != "sample_sps_no_vui"@.len()
                && n.len() != "sample-sps-no-vui-info"@.len() && n.len() != "sps-no-vui"@.len()
                && n.len() != "sps_no_vui"@.len()) by {
                reveal_strlit("sample-sps-sub-layer-ordering"); reveal_strlit("sample-sps-no-vui");
                reveal_strlit("sample_sps_no_vui"); reveal_strlit("sample-sps-no-vui-info");
                reveal_strlit("sps-no-vui"); reveal_strlit("sps_no_vui");
            }
            assert(n.len() != "sample-sps-vui-flag-off"@.len()
                && n.len() != "sample_sps_vui_flag_off"@.len()
                && n.len() != "sample-sps-flag-vui-off"@.len()
                && n.len() != "sps-vui-flag-off"@.len() && n.len() != "sps_vui_flag_off"@.len()) by {
                reveal_strlit("sample-sps-sub-layer-ordering");
                reveal_strlit("sample-sps-vui-flag-off"); reveal_strlit("sample_sps_vui_flag_off");
                reveal_strlit("sample-sps-flag-vui-off"); reveal_strlit("sps-vui-flag-off");
                reveal_strlit("sps_vui_flag_off");
            }
            assert(n.len() != "sample-sps-no-vui-flag-on"@.len()
                && n.len() != "sample_sps_no_vui_flag_on"@.len()
                && n.len() != "sample-sps-vui-flag-on"@.len()
                && n.len() != "sps-no-vui-flag-on"@.len() && n.len() != "sps_no_vui_flag_on"@.len()) by {
                reveal_strlit("sample-sps-sub-layer-ordering");
                reveal_strlit("sample-sps-no-vui-flag-on");
                reveal_strlit("sample_sps_no_vui_flag_on");
                reveal_strlit("sample-sps-vui-flag-on"); reveal_strlit("sps-no-vui-flag-on");
                reveal_strlit("sps_no_vui_flag_on");
            }
            assert(n.len() != "sample-sps-no-rps"@.len() && n.len() != "sample_sps_no_rps"@.len()
                && n.len() != "sample-sps-no-ref-sets"@.len() && n.len() != "sps-no-rps"@.len()
                && n.len() != "sps_no_rps"@.len()) by {
                reveal_strlit("sample-sps-sub-layer-ordering"); reveal_strlit("sample-sps-no-rps");
                reveal_strlit("sample_sps_no_rps"); reveal_strlit("sample-sps-no-ref-sets");
                reveal_strlit("sps-no-rps"); reveal_strlit("sps_no_rps");
            }
            assert(n.len() != "sample-sps-safe-flags"@.len()
                && n.len() != "sample_sps_safe_flags"@.len()
                && n.len() != "sample-sps-libx265-flags"@.len()
                && n.len() != "sps-safe-flags"@.len() && n.len() != "sps_safe_flags"@.len()) by {
                reveal_strlit("sample-sps-sub-layer-ordering");
                reveal_strlit("sample-sps-safe-flags"); reveal_strlit("sample_sps_safe_flags");
                reveal_strlit("sample-sps-libx265-flags"); reveal_strlit("sps-safe-flags");
                reveal_strlit("sps_safe_flags");
            }
            assert(n.len() != "sample-sps-level"@.len() && n.len() != "sample_sps_level"@.len()
                && n.len() != "sample-sps-level-idc"@.len() && n.len() != "sps-level"@.len()
                && n.len() != "sps_level"@.len()) by {
                reveal_strlit("sample-sps-sub-layer-ordering"); reveal_strlit("sample-sps-level");
                reveal_strlit("sample_sps_level"); reveal_strlit("sample-sps-level-idc");
                reveal_strlit("sps-level"); reveal_strlit("sps_level");
            }
        },
        HevcEncodeParameterMode::SampleSpsLevelOrdering => {
            assert(n.len() != "sample-no-add"@.len() && n.len() != "sample_no_add"@.len()
                && n.len() != "sample-no-add-info"@.len() && n.len() != "sample_no_add_info"@.len()
                && n.len() != "sample-minimal"@.len()) by {
                reveal_strlit("sample-sps-level-ordering"); reveal_strlit("sample-no-add");
                reveal_strlit("sample_no_add"); reveal_strlit("sample-no-add-info");
                reveal_strlit("sample_no_add_info"); reveal_strlit("sample-minimal");
            }
            assert(n.len() != "sample-vps-only"@.len() && n.len() != "sample_vps_only"@.len()
                && n.len() != "sample-vps"@.len() && n.len() != "vps-only"@.len()
                && n.len() != "vps_only"@.len()) by {
                reveal_strlit("sample-sps-level-ordering"); reveal_strlit("sample-vps-only");
                reveal_strlit("sample_vps_only"); reveal_strlit("sample-vps");
                reveal_strlit("vps-only"); reveal_strlit("vps_only");
            }
            assert(n.len() != "sample-sps-only"@.len() && n.len() != "sample_sps_only"@.len()
                && n.len() != "sample-sps"@.len() && n.len() != "sps-only"@.len()
                && n.len() != "sps_only"@.len()) by {
                reveal_strlit("sample-sps-level-ordering"); reveal_strlit("sample-sps-only");
                reveal_strlit("sample_sps_only"); reveal_strlit("sample-sps");
                reveal_strlit("sps-only"); reveal_strlit("sps_only");
            }
            assert(n.len() != "sample-sps-no-vui"@.len() && n.len() != "sample_sps_no_vui"@.len()
                && n.len() != "sample-sps-no-vui-info"@.len() && n.len() != "sps-no-vui"@.len()
                && n.len() != "sps_no_vui"@.len()) by {
                reveal_strlit("sample-sps-level-ordering"); reveal_strlit("sample-sps-no-vui");
                reveal_strlit("sample_sps_no_vui"); reveal_strlit("sample-sps-no-vui-info");
                reveal_strlit("sps-no-vui"); reveal_strlit("sps_no_vui");
            }
            assert(n.len() != "sample-sps-vui-flag-off"@.len()
                && n.len() != "sample_sps_vui_flag_off"@.len()
                && n.len() != "sample-sps-flag-vui-off"@.len()
                && n.len() != "sps-vui-flag-off"@.len() && n.len() != "sps_vui_flag_off"@.len()) by {
                reveal_strlit("sample-sps-level-ordering");
                reveal_strlit("sample-sps-vui-flag-off"); reveal_strlit("sample_sps_vui_flag_off");
                reveal_strlit("sample-sps-flag-vui-off"); reveal_strlit("sps-vui-flag-off");
                reveal_strlit("sps_vui_flag_off");
            }
            assert(n[11] != "sample-sps-no-vui-flag-on"@[11]
                && n[6] != "sample_sps_no_vui_flag_on"@[6]
                && n.len() != "sample-sps-vui-flag-on"@.len()
                && n.len() != "sps-no-vui-flag-on"@.len() && n.len() != "sps_no_vui_flag_on"@.len()) by {
                reveal_strlit("sample-sps-level-ordering");
                reveal_strlit("sample-sps-no-vui-flag-on");
                reveal_strlit("sample_sps_no_vui_flag_on");
                reveal_strlit("sample-sps-vui-flag-on"); reveal_strlit("sps-no-vui-flag-on");
                reveal_strlit("sps_no_vui_flag_on");
            }
            assert(n.len() != "sample-sps-no-rps"@.len() && n.len() != "sample_sps_no_rps"@.len()
                && n.len() != "sample-sps-no-ref-sets"@.len() && n.len() != "sps-no-rps"@.len()
                && n.len() != "sps_no_rps"@.len()) by {
                reveal_strlit("sample-sps-level-ordering"); reveal_strlit("sample-sps-no-rps");
                reveal_strlit("sample_sps_no_rps"); reveal_strlit("sample-sps-no-ref-sets");
                reveal_strlit("sps-no-rps"); reveal_strlit("sps_no_rps");
            }
            assert(n.len() != "sample-sps-safe-flags"@.len()
                && n.len() != "sample_sps_safe_flags"@.len()
                && n.len() != "sample-sps-libx265-flags"@.len()
                && n.len() != "sps-safe-flags"@.len() && n.len() != "sps_safe_flags"@.len()) by {
                reveal_strlit("sample-sps-level-ordering"); reveal_strlit("sample-sps-safe-flags");
                reveal_strlit("sample_sps_safe_flags"); reveal_strlit("sample-sps-libx265-flags");
                reveal_strlit("sps-safe-flags"); reveal_strlit("sps_safe_flags");
            }
            assert(n.len() != "sample-sps-level"@.len() && n.len() != "sample_sps_level"@.len()
                && n.len() != "sample-sps-level-idc"@.len() && n.len() != "sps-level"@.len()
                && n.len() != "sps_level"@.len()) by {
                reveal_strlit("sample-sps-level-ordering"); reveal_strlit("sample-sps-level");
                reveal_strlit("sample_sps_level"); reveal_strlit("sample-sps-level-idc");
                reveal_strlit("sps-level"); reveal_strlit("sps_level");
            }
            assert(n.len() != "sample-sps-sub-layer-ordering"@.len()
                && n.len() != "sample_sps_sub_layer_ordering"@.len()
                && n.len() != "sample-sps-ordering"@.len() && n.len() != "sps-ordering"@.len()
                && n.len() != "sps_ordering"@.len()) by {
                reveal_strlit("sample-sps-level-ordering");
                reveal_strlit("sample-sps-sub-layer-ordering");
                reveal_strlit("sample_sps_sub_layer_ordering");
                reveal_strlit("sample-sps-ordering"); reveal_strlit("sps-ordering");
                reveal_strlit("sps_ordering");
            }
        },
        HevcEncodeParameterMode::SamplePpsOnly => {
            assert(n.len() != "sample-no-add"@.len() && n.len() != "sample_no_add"@.len()
                && n.len() != "sample-no-add-info"@.len() && n.len() != "sample_no_add_info"@.len()
                && n.len() != "sample-minimal"@.len()) by {
                reveal_strlit("sample-pps-only"); reveal_strlit("sample-no-add");
                reveal_strlit("sample_no_add"); reveal_strlit("sample-no-add-info");
                reveal_strlit("sample_no_add_info"); reveal_strlit("sample-minimal");
            }
            assert(n[7] != "sample-vps-only"@[7] && n[6] != "sample_vps_only"@[6]
                && n.len() != "sample-vps"@.len() && n.len() != "vps-only"@.len()
                && n.len() != "vps_only"@.len()) by {
                reveal_strlit("sample-pps-only"); reveal_strlit("sample-vps-only");
                reveal_strlit("sample_vps_only"); reveal_strlit("sample-vps");
                reveal_strlit("vps-only"); reveal_strlit("vps_only");
            }
            assert(n[7] != "sample-sps-only"@[7] && n[6] != "sample_sps_only"@[6]
                && n.len() != "sample-sps"@.len() && n.len() != "sps-only"@.len()
                && n.len() != "sps_only"@.len()) by {
                reveal_strlit("sample-pps-only"); reveal_strlit("sample-sps-only");
                reveal_strlit("sample_sps_only"); reveal_strlit("sample-sps");
                reveal_strlit("sps-only"); reveal_strlit("sps_only");
            }
            assert(n.len() != "sample-sps-no-vui"@.len() && n.len() != "sample_sps_no_vui"@.len()
                && n.len() != "sample-sps-no-vui-info"@.len() && n.len() != "sps-no-vui"@.len()
                && n.len() != "sps_no_vui"@.len()) by {
                reveal_strlit("sample-pps-only"); reveal_strlit("sample-sps-no-vui");
                reveal_strlit("sample_sps_no_vui"); reveal_strlit("sample-sps-no-vui-info");
                reveal_strlit("sps-no-vui"); reveal_strlit("sps_no_vui");
            }
            assert(n.len() != "sample-sps-vui-flag-off"@.len()
                && n.len() != "sample_sps_vui_flag_off"@.len()
                && n.len() != "sample-sps-flag-vui-off"@.len()
                && n.len() != "sps-vui-flag-off"@.len() && n.len() != "sps_vui_flag_off"@.len()) by {
                reveal_strlit("sample-pps-only"); reveal_strlit("sample-sps-vui-flag-off");
                reveal_strlit("sample_sps_vui_flag_off"); reveal_strlit("sample-sps-flag-vui-off");
                reveal_strlit("sps-vui-flag-off"); reveal_strlit("sps_vui_flag_off");
            }
            assert(n.len() != "sample-sps-no-vui-flag-on"@.len()
                && n.len() != "sample_sps_no_vui_flag_on"@.len()
                && n.len() != "sample-sps-vui-flag-on"@.len()
                && n.len() != "sps-no-vui-flag-on"@.len() && n.len() != "sps_no_vui_flag_on"@.len()) by {
                reveal_strlit("sample-pps-only"); reveal_strlit("sample-sps-no-vui-flag-on");
                reveal_strlit("sample_sps_no_vui_flag_on");
                reveal_strlit("sample-sps-vui-flag-on"); reveal_strlit("sps-no-vui-flag-on");
                reveal_strlit("sps_no_vui_flag_on");
            }
            assert(n.len() != "sample-sps-no-rps"@.len() && n.len() != "sample_sps_no_rps"@.len()
                && n.len() != "sample-sps-no-ref-sets"@.len() && n.len() != "sps-no-rps"@.len()
                && n.len() != "sps_no_rps"@.len()) by {
                reveal_strlit("sample-pps-only"); reveal_strlit("sample-sps-no-rps");
                reveal_strlit("sample_sps_no_rps"); reveal_strlit("sample-sps-no-ref-sets");
                reveal_strlit("sps-no-rps"); reveal_strlit("sps_no_rps");
            }
            assert(n.len() != "sample-sps-safe-flags"@.len()
                && n.len() != "sample_sps_safe_flags"@.len()
                && n.len() != "sample-sps-libx265-flags"@.len()
                && n.len() != "sps-safe-flags"@.len() && n.len() != "sps_safe_flags"@.len()) by {
                reveal_strlit("sample-pps-only"); reveal_strlit("sample-sps-safe-flags");
                reveal_strlit("sample_sps_safe_flags"); reveal_strlit("sample-sps-libx265-flags");
                reveal_strlit("sps-safe-flags"); reveal_strlit("sps_safe_flags");
            }
            assert(n.len() != "sample-sps-level"@.len() && n.len() != "sample_sps_level"@.len()
                && n.len() != "sample-sps-level-idc"@.len() && n.len() != "sps-level"@.len()
                && n.len() != "sps_level"@.len()) by {
                reveal_strlit("sample-pps-only"); reveal_strlit("sample-sps-level");
                reveal_strlit("sample_sps_level"); reveal_strlit("sample-sps-level-idc");
                reveal_strlit("sps-level"); reveal_strlit("sps_level");
            }
            assert(n.len() != "sample-sps-sub-layer-ordering"@.len()
                && n.len() != "sample_sps_sub_layer_ordering"@.len()
                && n.len() != "sample-sps-ordering"@.len() && n.len() != "sps-ordering"@.len()
                && n.len() != "sps_ordering"@.len()) by {
                reveal_strlit("sample-pps-only"); reveal_strlit("sample-sps-sub-layer-ordering");
                reveal_strlit("sample_sps_sub_layer_ordering");
                reveal_strlit("sample-sps-ordering"); reveal_strlit("sps-ordering");
                reveal_strlit("sps_ordering");
            }
            assert(n.len() != "sample-sps-level-ordering"@.len()
                && n.len() != "sample_sps_level_ordering"@.len()
                && n.len() != "sample-sps-libx265-shape"@.len()
                && n.len() != "sps-level-ordering"@.len() && n.len() != "sps_level_ordering"@.len()) by {
                reveal_strlit("sample-pps-only"); reveal_strlit("sample-sps-level-ordering");
                reveal_strlit("sample_sps_level_ordering");
                reveal_strlit("sample-sps-libx265-shape"); reveal_strlit("sps-level-ordering");
                reveal_strlit("sps_level_ordering");
            }
        },
        HevcEncodeParameterMode::EmptyTemplate => {
            assert(n.len() != "sample-no-add"@.len() && n.len() != "sample_no_add"@.len()
                && n.len() != "sample-no-add-info"@.len() && n.len() != "sample_no_add_info"@.len()
                && n[0] != "sample-minimal"@[0]) by {
                reveal_strlit("empty-template"); reveal_strlit("sample-no-add");
                reveal_strlit("sample_no_add"); reveal_strlit("sample-no-add-info");
                reveal_strlit("sample_no_add_info"); reveal_strlit("sample-minimal");
            }
            assert(n.len() != "sample-vps-only"@.len() && n.len() != "sample_vps_only"@.len()
                && n.len() != "sample-vps"@.len() && n.len() != "vps-only"@.len()
                && n.len() != "vps_only"@.len()) by {
                reveal_strlit("empty-template"); reveal_strlit("sample-vps-only");
                reveal_strlit("sample_vps_only"); reveal_strlit("sample-vps");
                reveal_strlit("vps-only"); reveal_strlit("vps_only");
            }
            assert(n.len() != "sample-sps-only"@.len() && n.len() != "sample_sps_only"@.len()
                && n.len() != "sample-sps"@.len() && n.len() != "sps-only"@.len()
                && n.len() != "sps_only"@.len()) by {
                reveal_strlit("empty-template"); reveal_strlit("sample-sps-only");
                reveal_strlit("sample_sps_only"); reveal_strlit("sample-sps");
                reveal_strlit("sps-only"); reveal_strlit("sps_only");
            }
            assert(n.len() != "sample-sps-no-vui"@.len() && n.len() != "sample_sps_no_vui"@.len()
                && n.len() != "sample-sps-no-vui-info"@.len() && n.len() != "sps-no-vui"@.len()
                && n.len() != "sps_no_vui"@.len()) by {
                reveal_strlit("empty-template"); reveal_strlit("sample-sps-no-vui");
                reveal_strlit("sample_sps_no_vui"); reveal_strlit("sample-sps-no-vui-info");
                reveal_strlit("sps-no-vui"); reveal_strlit("sps_no_vui");
            }
            assert(n.len() != "sample-sps-vui-flag-off"@.len()
                && n.len() != "sample_sps_vui_flag_off"@.len()
                && n.len() != "sample-sps-flag-vui-off"@.len()
                && n.len() != "sps-vui-flag-off"@.len() && n.len() != "sps_vui_flag_off"@.len()) by {
                reveal_strlit("empty-template"); reveal_strlit("sample-sps-vui-flag-off");
                reveal_strlit("sample_sps_vui_flag_off"); reveal_strlit("sample-sps-flag-vui-off");
                reveal_strlit("sps-vui-flag-off"); reveal_strlit("sps_vui_flag_off");
            }
            assert(n.len() != "sample-sps-no-vui-flag-on"@.len()
                && n.len() != "sample_sps_no_vui_flag_on"@.len()
                && n.len() != "sample-sps-vui-flag-on"@.len()
                && n.len() != "sps-no-vui-flag-on"@.len() && n.len() != "sps_no_vui_flag_on"@.len()) by {
                reveal_strlit("empty-template"); reveal_strlit("sample-sps-no-vui-flag-on");
                reveal_strlit("sample_sps_no_vui_flag_on");
                reveal_strlit("sample-sps-vui-flag-on"); reveal_strlit("sps-no-vui-flag-on");
                reveal_strlit("sps_no_vui_flag_on");
            }
            assert(n.len() != "sample-sps-no-rps"@.len() && n.len() != "sample_sps_no_rps"@.len()
                && n.len() != "sample-sps-no-ref-sets"@.len() && n.len() != "sps-no-rps"@.len()
                && n.len() != "sps_no_rps"@.len()) by {
                reveal_strlit("empty-template"); reveal_strlit("sample-sps-no-rps");
                reveal_strlit("sample_sps_no_rps"); reveal_strlit("sample-sps-no-ref-sets");
                reveal_strlit("sps-no-rps"); reveal_strlit("sps_no_rps");
            }
            assert(n.len() != "sample-sps-safe-flags"@.len()
                && n.len() != "sample_sps_safe_flags"@.len()
                && n.len() != "sample-sps-libx265-flags"@.len() && n[0] != "sps-safe-flags"@[0]
                && n[0] != "sps_safe_flags"@[0]) by {
                reveal_strlit("empty-template"); reveal_strlit("sample-sps-safe-flags");
                reveal_strlit("sample_sps_safe_flags"); reveal_strlit("sample-sps-libx265-flags");
                reveal_strlit("sps-safe-flags"); reveal_strlit("sps_safe_flags");
            }
            assert(n.len() != "sample-sps-level"@.len() && n.len() != "sample_sps_level"@.len()
                && n.len() != "sample-sps-level-idc"@.len() && n.len() != "sps-level"@.len()
                && n.len() != "sps_level"@.len()) by {
                reveal_strlit("empty-template"); reveal_strlit("sample-sps-level");
                reveal_strlit("sample_sps_level"); reveal_strlit("sample-sps-level-idc");
                reveal_strlit("sps-level"); reveal_strlit("sps_level");
            }
            assert(n.len() != "sample-sps-sub-layer-ordering"@.len()
                && n.len() != "sample_sps_sub_layer_ordering"@.len()
                && n.len() != "sample-sps-ordering"@.len() && n.len() != "sps-ordering"@.len()
                && n.len() != "sps_ordering"@.len()) by {
                reveal_strlit("empty-template"); reveal_strlit("sample-sps-sub-layer-ordering");
                reveal_strlit("sample_sps_sub_layer_ordering");
                reveal_strlit("sample-sps-ordering"); reveal_strlit("sps-ordering");
                reveal_strlit("sps_ordering");
            }
            assert(n.len() != "sample-sps-level-ordering"@.len()
                && n.len() != "sample_sps_level_ordering"@.len()
                && n.len() != "sample-sps-libx265-shape"@.len()
                && n.len() != "sps-level-ordering"@.len() && n.len() != "sps_level_ordering"@.len()) by {
                reveal_strlit("empty-template"); reveal_strlit("sample-sps-level-ordering");
                reveal_strlit("sample_sps_level_ordering");
                reveal_strlit("sample-sps-libx265-shape"); reveal_strlit("sps-level-ordering");
                reveal_strlit("sps_level_ordering");
            }
            assert(n.len() != "sample-pps-only"@.len() && n.len() != "sample_pps_only"@.len()
                && n.len() != "sample-pps"@.len() && n.len() != "pps-only"@.len()
                && n.len() != "pps_only"@.len()) by {
                reveal_strlit("empty-template"); reveal_strlit("sample-pps-only");
                reveal_strlit("sample_pps_only"); reveal_strlit("sample-pps");
                reveal_strlit("pps-only"); reveal_strlit("pps_only");
            }
        },
    }
}

/// Every label names its own value.
pub proof fn law_reference_list_mode_labels(mode: HevcEncodeProbeReferenceListMode)
    ensures
        reference_list_mode_named(Some(mode.label())) == mode,
{
    let n = mode.label();
    match mode {
        HevcEncodeProbeReferenceListMode::Sentinel => {
            assert(n.len() != "zero"@.len() && n.len() != "zeroed"@.len() && n.len() != "0"@.len()) by {
                reveal_strlit("sentinel"); reveal_strlit("zero"); reveal_strlit("zeroed");
                reveal_strlit("0");
            }
            assert(n.len() != "null"@.len() && n.len() != "null-pointer"@.len()
                && n.len() != "null-pointers"@.len() && n.len() != "null_pointer"@.len()
                && n.len() != "null_pointers"@.len()) by {
                reveal_strlit("sentinel"); reveal_strlit("null"); reveal_strlit("null-pointer");
                reveal_strlit("null-pointers"); reveal_strlit("null_pointer");
                reveal_strlit("null_pointers");
            }
        },
        HevcEncodeProbeReferenceListMode::Zero => {},
        HevcEncodeProbeReferenceListMode::NullPointers => {
            assert(n.len() != "zero"@.len() && n.len() != "zeroed"@.len() && n.len() != "0"@.len()) by {
                reveal_strlit("null-pointers"); reveal_strlit("zero"); reveal_strlit("zeroed");
                reveal_strlit("0");
            }
        },
    }
}

/// Every label names its own value.
pub proof fn law_control_mode_labels(mode: HevcEncodeProbeControlMode)
    ensures
        control_mode_named(Some(mode.label())) == mode,
{
    let n = mode.label();
    match mode {
        HevcEncodeProbeControlMode::Default => {
            assert(n.len() != "ffmpeg"@.len() && n.len() != "ffmpeg-like"@.len()
                && n.len() != "ffmpeg_like"@.len() && n.len() != "compat"@.len()) by {
                reveal_strlit("default"); reveal_strlit("ffmpeg"); reveal_strlit("ffmpeg-like");
                reveal_strlit("ffmpeg_like"); reveal_strlit("compat");
            }
            assert(n.len() != "none"@.len() && n.len() != "off"@.len() && n[1] != "disable"@[1]
                && n.len() != "disabled"@.len() && n.len() != "no-control"@.len()) by {
                reveal_strlit("default"); reveal_strlit("none"); reveal_strlit("off");
                reveal_strlit("disable"); reveal_strlit("disabled"); reveal_strlit("no-control");
            }
            assert(n.len() != "no_control"@.len()) by {
                reveal_strlit("default"); reveal_strlit("no_control");
            }
        },
        HevcEncodeProbeControlMode::Ffmpeg => {},
        HevcEncodeProbeControlMode::NoControl => {
            assert(n.len() != "ffmpeg"@.len() && n.len() != "ffmpeg-like"@.len()
                && n.len() != "ffmpeg_like"@.len() && n.len() != "compat"@.len()) by {
                reveal_strlit("none"); reveal_strlit("ffmpeg"); reveal_strlit("ffmpeg-like");
                reveal_strlit("ffmpeg_like"); reveal_strlit("compat");
            }
        },
    }
}

/// Every label names its own value.
pub proof fn law_rate_control_mode_labels(mode: HevcEncodeProbeRateControlMode)
    ensures
        rate_control_mode_named(Some(mode.label())) == mode,
{
    let n = mode.label();
    match mode {
        HevcEncodeProbeRateControlMode::Auto => {
            assert(n.len() != "disabled"@.len() && n.len() != "disable"@.len()
                && n.len() != "off"@.len()) by {
                reveal_strlit("auto"); reveal_strlit("disabled"); reveal_strlit("disable");
                reveal_strlit("off");
            }
            assert(n.len() != "cbr"@.len()) by {
                reveal_strlit("auto"); reveal_strlit("cbr");
            }
            assert(n.len() != "vbr"@.len()) by {
                reveal_strlit("auto"); reveal_strlit("vbr");
            }
            assert(n[0] != "none"@[0] && n[0] != "null"@[0]) by {
                reveal_strlit("auto"); reveal_strlit("none"); reveal_strlit("null");
            }
        },
        HevcEncodeProbeRateControlMode::Disabled => {},
        HevcEncodeProbeRateControlMode::Cbr => {
            assert(n.len() != "disabled"@.len() && n.len() != "disable"@.len() && n[0] != "off"@[0]) by {
                reveal_strlit("cbr"); reveal_strlit("disabled"); reveal_strlit("disable");
                reveal_strlit("off");
            }
        },
        HevcEncodeProbeRateControlMode::Vbr => {
            assert(n.len() != "disabled"@.len() && n.len() != "disable"@.len() && n[0] != "off"@[0]) by {
                reveal_strlit("vbr"); reveal_strlit("disabled"); reveal_strlit("disable");
                reveal_strlit("off");
            }
            assert(n[0] != "cbr"@[0]) by {
                reveal_strlit("vbr"); reveal_strlit("cbr");
            }
        },
        HevcEncodeProbeRateControlMode::NoRateControl => {
            assert(n.len() != "disabled"@.len() && n.len() != "disable"@.len()
                && n.len() != "off"@.len()) by {
                reveal_strlit("none"); reveal_strlit("disabled"); reveal_strlit("disable");
                reveal_strlit("off");
            }
            assert(n.len() != "cbr"@.len()) by {
                reveal_strlit("none"); reveal_strlit("cbr");
            }
            assert(n.len() != "vbr"@.len()) by {
                reveal_strlit("none"); reveal_strlit("vbr");
            }
        },
    }
}

/// Every label names its own value.
pub proof fn law_maintenance1_mode_labels(mode: HevcEncodeProbeMaintenance1Mode)
    ensures
        maintenance1_mode_named(Some(mode.label())) == mode,
{
    let n = mode.label();
    match mode {
        HevcEncodeProbeMaintenance1Mode::Auto => {
            assert(n.len() != "on"@.len() && n.len() != "enable"@.len()
                && n.len() != "enabled"@.len() && n.len() != "force-on"@.len()
                && n.len() != "force_on"@.len()) by {
                reveal_strlit("auto"); reveal_strlit("on"); reveal_strlit("enable");
                reveal_strlit("enabled"); reveal_strlit("force-on"); reveal_strlit("force_on");
            }
            assert(n[0] != "true"@[0] && n.len() != "1"@.len()) by {
                reveal_strlit("auto"); reveal_strlit("true"); reveal_strlit("1");
            }
            assert(n.len() != "off"@.len() && n.len() != "disable"@.len()
                && n.len() != "disabled"@.len() && n.len() != "force-off"@.len()
                && n.len() != "force_off"@.len()) by {
                reveal_strlit("auto"); reveal_strlit("off"); reveal_strlit("disable");
                reveal_strlit("disabled"); reveal_strlit("force-off"); reveal_strlit("force_off");
            }
            assert(n.len() != "false"@.len() && n.len() != "0"@.len() && n[0] != "none"@[0]) by {
                reveal_strlit("auto"); reveal_strlit("false"); reveal_strlit("0");
                reveal_strlit("none");
            }
        },
        HevcEncodeProbeMaintenance1Mode::On => {},
        HevcEncodeProbeMaintenance1Mode::Off => {
            assert(n.len() != "on"@.len() && n.len() != "enable"@.len()
                && n.len() != "enabled"@.len() && n.len() != "force-on"@.len()
                && n.len() != "force_on"@.len()) by {
                reveal_strlit("off"); reveal_strlit("on"); reveal_strlit("enable");
                reveal_strlit("enabled"); reveal_strlit("force-on"); reveal_strlit("force_on");
            }
            assert(n.len() != "true"@.len() && n.len() != "1"@.len()) by {
                reveal_strlit("off"); reveal_strlit("true"); reveal_strlit("1");
            }
        },
    }
}

/// Every label names its own value.
pub proof fn law_session_dpb_mode_labels(mode: HevcEncodeProbeSessionDpbMode)
    ensures
        session_dpb_mode_named(Some(mode.label())) == mode,
{
    let n = mode.label();
    match mode {
        HevcEncodeProbeSessionDpbMode::Default => {
            assert(n[0] != "minimal"@[0] && n.len() != "minimal-one"@.len()
                && n.len() != "minimal_1"@.len() && n.len() != "minimal1"@.len()
                && n.len() != "one"@.len()) by {
                reveal_strlit("default"); reveal_strlit("minimal"); reveal_strlit("minimal-one");
                reveal_strlit("minimal_1"); reveal_strlit("minimal1"); reveal_strlit("one");
            }
            assert(n.len() != "1"@.len()) by {
                reveal_strlit("default"); reveal_strlit("1");
            }
        },
        HevcEncodeProbeSessionDpbMode::MinimalOne => {},
    }
}

/// Every label names its own value.
pub proof fn law_begin_session_parameters_mode_labels(mode: HevcEncodeProbeBeginSessionParametersMode)
    ensures
        begin_session_parameters_mode_named(Some(mode.label())) == mode,
{
    let n = mode.label();
    match mode {
        HevcEncodeProbeBeginSessionParametersMode::With => {
            assert(n.len() != "without"@.len() && n[0] != "none"@[0] && n.len() != "off"@.len()
                && n.len() != "disable"@.len() && n.len() != "disabled"@.len()) by {
                reveal_strlit("with"); reveal_strlit("without"); reveal_strlit("none");
                reveal_strlit("off"); reveal_strlit("disable"); reveal_strlit("disabled");
            }
            assert(n.len() != "no-params"@.len() && n.len() != "no_params"@.len()
                && n.len() != "0"@.len()) by {
                reveal_strlit("with"); reveal_strlit("no-params"); reveal_strlit("no_params");
                reveal_strlit("0");
            }
        },
        HevcEncodeProbeBeginSessionParametersMode::Without => {},
    }
}

/// Every label names its own value.
pub proof fn law_primary_mode_labels(mode: HevcEncodePrimaryProbeMode)
    ensures
        primary_mode_named(Some(mode.label())) == mode,
{
    let n = mode.label();
    match mode {
        HevcEncodePrimaryProbeMode::Submit => {
            assert(n.len() != "scope-only"@.len() && n.len() != "scope_only"@.len()
                && n.len() != "scope"@.len() && n.len() != "coding-scope"@.len()
                && n.len() != "coding_scope"@.len()) by {
                reveal_strlit("submit"); reveal_strlit("scope-only"); reveal_strlit("scope_only");
                reveal_strlit("scope"); reveal_strlit("coding-scope");
                reveal_strlit("coding_scope");
            }
            assert(n[0] != "coding"@[0]) by {
                reveal_strlit("submit"); reveal_strlit("coding");
            }
            assert(n.len() != "pre-encode-scope"@.len() && n.len() != "pre_encode_scope"@.len()
                && n.len() != "pre-encode-scope-only"@.len()
                && n.len() != "pre_encode_scope_only"@.len() && n.len() != "pre-scope"@.len()) by {
                reveal_strlit("submit"); reveal_strlit("pre-encode-scope");
                reveal_strlit("pre_encode_scope"); reveal_strlit("pre-encode-scope-only");
                reveal_strlit("pre_encode_scope_only"); reveal_strlit("pre-scope");
            }
            assert(n.len() != "prescope"@.len()) by {
                reveal_strlit("submit"); reveal_strlit("prescope");
            }
            assert(n.len() != "pre-encode"@.len() && n.len() != "pre_encode"@.len()
                && n.len() != "encode-only"@.len() && n.len() != "encode_only"@.len()
                && n[0] != "encode"@[0]) by {
                reveal_strlit("submit"); reveal_strlit("pre-encode"); reveal_strlit("pre_encode");
                reveal_strlit("encode-only"); reveal_strlit("encode_only"); reveal_strlit("encode");
            }
            assert(n.len() != "pre-encode-minimal"@.len() && n.len() != "pre_encode_minimal"@.len()
                && n.len() != "minimal"@.len() && n.len() != "encode-minimal"@.len()
                && n.len() != "encode_minimal"@.len()) by {
                reveal_strlit("submit"); reveal_strlit("pre-encode-minimal");
                reveal_strlit("pre_encode_minimal"); reveal_strlit("minimal");
                reveal_strlit("encode-minimal"); reveal_strlit("encode_minimal");
            }
        },
        HevcEncodePrimaryProbeMode::ScopeOnly => {},
        HevcEncodePrimaryProbeMode::PreEncodeScopeOnly => {
            assert(n.len() != "scope-only"@.len() && n.len() != "scope_only"@.len()
                && n.len() != "scope"@.len() && n.len() != "coding-scope"@.len()
                && n.len() != "coding_scope"@.len()) by {
                reveal_strlit("pre-encode-scope-only"); reveal_strlit("scope-only");
                reveal_strlit("scope_only"); reveal_strlit("scope"); reveal_strlit("coding-scope");
                reveal_strlit("coding_scope");
            }
            assert(n.len() != "coding"@.len()) by {
                reveal_strlit("pre-encode-scope-only"); reveal_strlit("coding");
            }
        },
        HevcEncodePrimaryProbeMode::PreEncode => {
            assert(n[0] != "scope-only"@[0] && n[0] != "scope_only"@[0]
                && n.len() != "scope"@.len() && n.len() != "coding-scope"@.len()
                && n.len() != "coding_scope"@.len()) by {
                reveal_strlit("pre-encode"); reveal_strlit("scope-only");
                reveal_strlit("scope_only"); reveal_strlit("scope"); reveal_strlit("coding-scope");
                reveal_strlit("coding_scope");
            }
            assert(n.len() != "coding"@.len()) by {
                reveal_strlit("pre-encode"); reveal_strlit("coding");
            }
            assert(n.len() != "pre-encode-scope"@.len() && n.len() != "pre_encode_scope"@.len()
                && n.len() != "pre-encode-scope-only"@.len()
                && n.len() != "pre_encode_scope_only"@.len() && n.len() != "pre-scope"@.len()) by {
                reveal_strlit("pre-encode"); reveal_strlit("pre-encode-scope");
                reveal_strlit("pre_encode_scope"); reveal_strlit("pre-encode-scope-only");
                reveal_strlit("pre_encode_scope_only"); reveal_strlit("pre-scope");
            }
            assert(n.len() != "prescope"@.len()) by {
                reveal_strlit("pre-encode"); reveal_strlit("prescope");
            }
        },
        HevcEncodePrimaryProbeMode::PreEncodeMinimal => {
            assert(n.len() != "scope-only"@.len() && n.len() != "scope_only"@.len()
                && n.len() != "scope"@.len() && n.len() != "coding-scope"@.len()
                && n.len() != "coding_scope"@.len()) by {
                reveal_strlit("pre-encode-minimal"); reveal_strlit("scope-only");
                reveal_strlit("scope_only"); reveal_strlit("scope"); reveal_strlit("coding-scope");
                reveal_strlit("coding_scope");
            }
            assert(n.len() != "coding"@.len()) by {
                reveal_strlit("pre-encode-minimal"); reveal_strlit("coding");
            }
            assert(n.len() != "pre-encode-scope"@.len() && n.len() != "pre_encode_scope"@.len()
                && n.len() != "pre-encode-scope-only"@.len()
                && n.len() != "pre_encode_scope_only"@.len() && n.len() != "pre-scope"@.len()) by {
                reveal_strlit("pre-encode-minimal"); reveal_strlit("pre-encode-scope");
                reveal_strlit("pre_encode_scope"); reveal_strlit("pre-encode-scope-only");
                reveal_strlit("pre_encode_scope_only"); reveal_strlit("pre-scope");
            }
            assert(n.len() != "prescope"@.len()) by {
                reveal_strlit("pre-encode-minimal"); reveal_strlit("prescope");
            }
            assert(n.len() != "pre-encode"@.len() && n.len() != "pre_encode"@.len()
                && n.len() != "encode-only"@.len() && n.len() != "encode_only"@.len()
                && n.len() != "encode"@.len()) by {
                reveal_strlit("pre-encode-minimal"); reveal_strlit("pre-encode");
                reveal_strlit("pre_encode"); reveal_strlit("encode-only");
                reveal_strlit("encode_only"); reveal_strlit("encode");
            }
        },
    }
}

/// Every label names its own value.
pub proof fn law_reference_index_mode_labels(mode: HevcEncodeProbeReferenceIndexMode)
    ensures
        reference_index_mode_named(Some(mode.label())) == mode,
{
    let n = mode.label();
    match mode {
        HevcEncodeProbeReferenceIndexMode::MinusOne => {
            assert(n.len() != "zero"@.len() && n.len() != "0"@.len()) by {
                reveal_strlit("minus-one"); reveal_strlit("zero"); reveal_strlit("0");
            }
        },
        HevcEncodeProbeReferenceIndexMode::Zero => {},
    }
}

/// Every label names its own value.
pub proof fn law_rps_mode_labels(mode: HevcEncodeProbeRpsMode)
    ensures
        rps_mode_named(Some(mode.label())) == mode,
{
    let n = mode.label();
    match mode {
        HevcEncodeProbeRpsMode::EmptyStruct => {
            assert(n.len() != "null"@.len() && n.len() != "null-pointers"@.len()
                && n.len() != "null_pointers"@.len()) by {
                reveal_strlit("empty-struct"); reveal_strlit("null");
                reveal_strlit("null-pointers"); reveal_strlit("null_pointers");
            }
        },
        HevcEncodeProbeRpsMode::NullPointers => {},
    }
}

/// Every label names its own value.
pub proof fn law_begin_reference_slot_mode_labels(mode: HevcEncodeProbeBeginReferenceSlotMode)
    ensures
        begin_reference_slot_mode_named(Some(mode.label())) == mode,
{
    let n = mode.label();
    match mode {
        HevcEncodeProbeBeginReferenceSlotMode::SlotMinusOne => {
            assert(n.len() != "none"@.len() && n.len() != "off"@.len()
                && n.len() != "disable"@.len() && n.len() != "disabled"@.len()) by {
                reveal_strlit("slot-minus-one"); reveal_strlit("none"); reveal_strlit("off");
                reveal_strlit("disable"); reveal_strlit("disabled");
            }
            assert(n.len() != "slot-minus-one-no-codec-info"@.len()) by {
                reveal_strlit("slot-minus-one"); reveal_strlit("slot-minus-one-no-codec-info");
            }
        },
        HevcEncodeProbeBeginReferenceSlotMode::SlotMinusOneNoCodecInfo => {
            assert(n.len() != "none"@.len() && n.len() != "off"@.len()
                && n.len() != "disable"@.len() && n.len() != "disabled"@.len()) by {
                reveal_strlit("slot-minus-one-no-codec-info"); reveal_strlit("none");
                reveal_strlit("off"); reveal_strlit("disable"); reveal_strlit("disabled");
            }
        },
        HevcEncodeProbeBeginReferenceSlotMode::NoSlot => {},
    }
}

/// Every label names its own value.
pub proof fn law_setup_reference_slot_mode_labels(mode: HevcEncodeProbeSetupReferenceSlotMode)
    ensures
        setup_reference_slot_mode_named(Some(mode.label())) == mode,
{
    let n = mode.label();
    match mode {
        HevcEncodeProbeSetupReferenceSlotMode::SlotZero => {
            assert(n.len() != "none"@.len() && n.len() != "off"@.len()
                && n.len() != "disable"@.len() && n.len() != "disabled"@.len()) by {
                reveal_strlit("slot-zero"); reveal_strlit("none"); reveal_strlit("off");
                reveal_strlit("disable"); reveal_strlit("disabled");
            }
        },
        HevcEncodeProbeSetupReferenceSlotMode::NoSlot => {},
    }
}

/// Every label names its own value.
pub proof fn law_nalu_mode_labels(mode: HevcEncodeProbeNaluMode)
    ensures
        nalu_mode_named(Some(mode.label())) == mode,
{
    let n = mode.label();
    match mode {
        HevcEncodeProbeNaluMode::SingleSlice => {
            assert(n.len() != "empty"@.len() && n.len() != "none"@.len() && n.len() != "off"@.len()
                && n.len() != "no-slices"@.len() && n.len() != "no_slices"@.len()) by {
                reveal_strlit("single-slice"); reveal_strlit("empty"); reveal_strlit("none");
                reveal_strlit("off"); reveal_strlit("no-slices"); reveal_strlit("no_slices");
            }
        },
        HevcEncodeProbeNaluMode::Empty => {},
    }
}

/// Every label names its own value.
pub proof fn law_codec_info_mode_labels(mode: HevcEncodeProbeCodecInfoMode)
    ensures
        codec_info_mode_named(Some(mode.label())) == mode,
{
    let n = mode.label();
    match mode {
        HevcEncodeProbeCodecInfoMode::WithH265Info => {
            assert(n.len() != "with-h265-info-std-picture-only"@.len()
                && n.len() != "with_h265_info_std_picture_only"@.len()
                && n.len() != "with-h265-info-std-only"@.len()
                && n.len() != "with_h265_info_std_only"@.len()
                && n.len() != "std-picture-only"@.len()) by {
                reveal_strlit("with-h265-info"); reveal_strlit("with-h265-info-std-picture-only");
                reveal_strlit("with_h265_info_std_picture_only");
                reveal_strlit("with-h265-info-std-only"); reveal_strlit("with_h265_info_std_only");
                reveal_strlit("std-picture-only");
            }
            assert(n.len() != "std_picture_only"@.len() && n.len() != "std-only"@.len()
                && n.len() != "std_only"@.len() && n.len() != "std"@.len()) by {
                reveal_strlit("with-h265-info"); reveal_strlit("std_picture_only");
                reveal_strlit("std-only"); reveal_strlit("std_only"); reveal_strlit("std");
            }
            assert(n.len() != "with-h265-info-empty-std-picture"@.len()
                && n.len() != "with_h265_info_empty_std_picture"@.len()
                && n.len() != "with-h265-info-empty-std"@.len()
                && n.len() != "with_h265_info_empty_std"@.len()
                && n.len() != "with-h265-empty-std"@.len()) by {
                reveal_strlit("with-h265-info"); reveal_strlit("with-h265-info-empty-std-picture");
                reveal_strlit("with_h265_info_empty_std_picture");
                reveal_strlit("with-h265-info-empty-std");
                reveal_strlit("with_h265_info_empty_std"); reveal_strlit("with-h265-empty-std");
            }
            assert(n.len() != "with_h265_empty_std"@.len() && n.len() != "empty-std-picture"@.len()
                && n.len() != "empty_std_picture"@.len() && n.len() != "empty-std"@.len()
                && n.len() != "empty_std"@.len()) by {
                reveal_strlit("with-h265-info"); reveal_strlit("with_h265_empty_std");
                reveal_strlit("empty-std-picture"); reveal_strlit("empty_std_picture");
                reveal_strlit("empty-std"); reveal_strlit("empty_std");
            }
            assert(n.len() != "with-h265-info-minimal"@.len()
                && n.len() != "with_h265_info_minimal"@.len()
                && n.len() != "with-h265-minimal"@.len() && n.len() != "with_h265_minimal"@.len()
                && n.len() != "minimal-h265-info"@.len()) by {
                reveal_strlit("with-h265-info"); reveal_strlit("with-h265-info-minimal");
                reveal_strlit("with_h265_info_minimal"); reveal_strlit("with-h265-minimal");
                reveal_strlit("with_h265_minimal"); reveal_strlit("minimal-h265-info");
            }
            assert(n.len() != "minimal_h265_info"@.len() && n.len() != "minimal"@.len()) by {
                reveal_strlit("with-h265-info"); reveal_strlit("minimal_h265_info");
                reveal_strlit("minimal");
            }
            assert(n.len() != "with-h265-info-no-std-picture"@.len()
                && n.len() != "with_h265_info_no_std_picture"@.len()
                && n.len() != "with-h265-info-no-std"@.len()
                && n.len() != "with_h265_info_no_std"@.len() && n.len() != "with-h265-no-std"@.len()) by {
                reveal_strlit("with-h265-info"); reveal_strlit("with-h265-info-no-std-picture");
                reveal_strlit("with_h265_info_no_std_picture");
                reveal_strlit("with-h265-info-no-std"); reveal_strlit("with_h265_info_no_std");
                reveal_strlit("with-h265-no-std");
            }
            assert(n.len() != "with_h265_no_std"@.len() && n[0] != "no-std-picture"@[0]
                && n[0] != "no_std_picture"@[0] && n.len() != "nostd"@.len()) by {
                reveal_strlit("with-h265-info"); reveal_strlit("with_h265_no_std");
                reveal_strlit("no-std-picture"); reveal_strlit("no_std_picture");
                reveal_strlit("nostd");
            }
            assert(n.len() != "without"@.len() && n.len() != "without-h265"@.len()
                && n.len() != "without_h265"@.len() && n.len() != "without-h265-info"@.len()
                && n.len() != "without_h265_info"@.len()) by {
                reveal_strlit("with-h265-info"); reveal_strlit("without");
                reveal_strlit("without-h265"); reveal_strlit("without_h265");
                reveal_strlit("without-h265-info"); reveal_strlit("without_h265_info");
            }
            assert(n.len() != "none"@.len() && n.len() != "off"@.len()
                && n.len() != "disable"@.len() && n.len() != "disabled"@.len()) by {
                reveal_strlit("with-h265-info"); reveal_strlit("none"); reveal_strlit("off");
                reveal_strlit("disable"); reveal_strlit("disabled");
            }
        },
        HevcEncodeProbeCodecInfoMode::WithH265InfoStdPictureOnly => {},
        HevcEncodeProbeCodecInfoMode::WithH265InfoEmptyStdPicture => {
            assert(n.len() != "with-h265-info-std-picture-only"@.len()
                && n.len() != "with_h265_info_std_picture_only"@.len()
                && n.len() != "with-h265-info-std-only"@.len()
                && n.len() != "with_h265_info_std_only"@.len()
                && n.len() != "std-picture-only"@.len()) by {
                reveal_strlit("with-h265-info-empty-std-picture");
                reveal_strlit("with-h265-info-std-picture-only");
                reveal_strlit("with_h265_info_std_picture_only");
                reveal_strlit("with-h265-info-std-only"); reveal_strlit("with_h265_info_std_only");
                reveal_strlit("std-picture-only");
            }
            assert(n.len() != "std_picture_only"@.len() && n.len() != "std-only"@.len()
                && n.len() != "std_only"@.len() && n.len() != "std"@.len()) by {
                reveal_strlit("with-h265-info-empty-std-picture");
                reveal_strlit("std_picture_only"); reveal_strlit("std-only");
                reveal_strlit("std_only"); reveal_strlit("std");
            }
        },
        HevcEncodeProbeCodecInfoMode::WithH265InfoMinimal => {
            assert(n.len() != "with-h265-info-std-picture-only"@.len()
                && n.len() != "with_h265_info_std_picture_only"@.len()
                && n.len() != "with-h265-info-std-only"@.len()
                && n.len() != "with_h265_info_std_only"@.len()
                && n.len() != "std-picture-only"@.len()) by {
                reveal_strlit("with-h265-info-minimal");
                reveal_strlit("with-h265-info-std-picture-only");
                reveal_strlit("with_h265_info_std_picture_only");
                reveal_strlit("with-h265-info-std-only"); reveal_strlit("with_h265_info_std_only");
                reveal_strlit("std-picture-only");
            }
            assert(n.len() != "std_picture_only"@.len() && n.len() != "std-only"@.len()
                && n.len() != "std_only"@.len() && n.len() != "std"@.len()) by {
                reveal_strlit("with-h265-info-minimal"); reveal_strlit("std_picture_only");
                reveal_strlit("std-only"); reveal_strlit("std_only"); reveal_strlit("std");
            }
            assert(n.len() != "with-h265-info-empty-std-picture"@.len()
                && n.len() != "with_h265_info_empty_std_picture"@.len()
                && n.len() != "with-h265-info-empty-std"@.len()
                && n.len() != "with_h265_info_empty_std"@.len()
                && n.len() != "with-h265-empty-std"@.len()) by {
                reveal_strlit("with-h265-info-minimal");
                reveal_strlit("with-h265-info-empty-std-picture");
                reveal_strlit("with_h265_info_empty_std_picture");
                reveal_strlit("with-h265-info-empty-std");
                reveal_strlit("with_h265_info_empty_std"); reveal_strlit("with-h265-empty-std");
            }
            assert(n.len() != "with_h265_empty_std"@.len() && n.len() != "empty-std-picture"@.len()
                && n.len() != "empty_std_picture"@.len() && n.len() != "empty-std"@.len()
                && n.len() != "empty_std"@.len()) by {
                reveal_strlit("with-h265-info-minimal"); reveal_strlit("with_h265_empty_std");
                reveal_strlit("empty-std-picture"); reveal_strlit("empty_std_picture");
                reveal_strlit("empty-std"); reveal_strlit("empty_std");
            }
        },
        HevcEncodeProbeCodecInfoMode::WithH265InfoNoStdPicture => {
            assert(n.len() != "with-h265-info-std-picture-only"@.len()
                && n.len() != "with_h265_info_std_picture_only"@.len()
                && n.len() != "with-h265-info-std-only"@.len()
                && n.len() != "with_h265_info_std_only"@.len()
                && n.len() != "std-picture-only"@.len()) by {
                reveal_strlit("with-h265-info-no-std-picture");
                reveal_strlit("with-h265-info-std-picture-only");
                reveal_strlit("with_h265_info_std_picture_only");
                reveal_strlit("with-h265-info-std-only"); reveal_strlit("with_h265_info_std_only");
                reveal_strlit("std-picture-only");
            }
            assert(n.len() != "std_picture_only"@.len() && n.len() != "std-only"@.len()
                && n.len() != "std_only"@.len() && n.len() != "std"@.len()) by {
                reveal_strlit("with-h265-info-no-std-picture"); reveal_strlit("std_picture_only");
                reveal_strlit("std-only"); reveal_strlit("std_only"); reveal_strlit("std");
            }
            assert(n.len() != "with-h265-info-empty-std-picture"@.len()
                && n.len() != "with_h265_info_empty_std_picture"@.len()
                && n.len() != "with-h265-info-empty-std"@.len()
                && n.len() != "with_h265_info_empty_std"@.len()
                && n.len() != "with-h265-empty-std"@.len()) by {
                reveal_strlit("with-h265-info-no-std-picture");
                reveal_strlit("with-h265-info-empty-std-picture");
                reveal_strlit("with_h265_info_empty_std_picture");
                reveal_strlit("with-h265-info-empty-std");
                reveal_strlit("with_h265_info_empty_std"); reveal_strlit("with-h265-empty-std");
            }
            assert(n.len() != "with_h265_empty_std"@.len() && n.len() != "empty-std-picture"@.len()
                && n.len() != "empty_std_picture"@.len() && n.len() != "empty-std"@.len()
                && n.len() != "empty_std"@.len()) by {
                reveal_strlit("with-h265-info-no-std-picture");
                reveal_strlit("with_h265_empty_std"); reveal_strlit("empty-std-picture");
                reveal_strlit("empty_std_picture"); reveal_strlit("empty-std");
                reveal_strlit("empty_std");
            }
            assert(n.len() != "with-h265-info-minimal"@.len()
                && n.len() != "with_h265_info_minimal"@.len()
                && n.len() != "with-h265-minimal"@.len() && n.len() != "with_h265_minimal"@.len()
                && n.len() != "minimal-h265-info"@.len()) by {
                reveal_strlit("with-h265-info-no-std-picture");
                reveal_strlit("with-h265-info-minimal"); reveal_strlit("with_h265_info_minimal");
                reveal_strlit("with-h265-minimal"); reveal_strlit("with_h265_minimal");
                reveal_strlit("minimal-h265-info");
            }
            assert(n.len() != "minimal_h265_info"@.len() && n.len() != "minimal"@.len()) by {
                reveal_strlit("with-h265-info-no-std-picture"); reveal_strlit("minimal_h265_info");
                reveal_strlit("minimal");
            }
        },
        HevcEncodeProbeCodecInfoMode::WithoutH265Info => {
            assert(n.len() != "with-h265-info-std-picture-only"@.len()
                && n.len() != "with_h265_info_std_picture_only"@.len()
                && n.len() != "with-h265-info-std-only"@.len()
                && n.len() != "with_h265_info_std_only"@.len()
                && n.len() != "std-picture-only"@.len()) by {
                reveal_strlit("without-h265-info");
                reveal_strlit("with-h265-info-std-picture-only");
                reveal_strlit("with_h265_info_std_picture_only");
                reveal_strlit("with-h265-info-std-only"); reveal_strlit("with_h265_info_std_only");
                reveal_strlit("std-picture-only");
            }
            assert(n.len() != "std_picture_only"@.len() && n.len() != "std-only"@.len()
                && n.len() != "std_only"@.len() && n.len() != "std"@.len()) by {
                reveal_strlit("without-h265-info"); reveal_strlit("std_picture_only");
                reveal_strlit("std-only"); reveal_strlit("std_only"); reveal_strlit("std");
            }
            assert(n.len() != "with-h265-info-empty-std-picture"@.len()
                && n.len() != "with_h265_info_empty_std_picture"@.len()
                && n.len() != "with-h265-info-empty-std"@.len()
                && n.len() != "with_h265_info_empty_std"@.len()
                && n.len() != "with-h265-empty-std"@.len()) by {
                reveal_strlit("without-h265-info");
                reveal_strlit("with-h265-info-empty-std-picture");
                reveal_strlit("with_h265_info_empty_std_picture");
                reveal_strlit("with-h265-info-empty-std");
                reveal_strlit("with_h265_info_empty_std"); reveal_strlit("with-h265-empty-std");
            }
            assert(n.len() != "with_h265_empty_std"@.len() && n[0] != "empty-std-picture"@[0]
                && n[0] != "empty_std_picture"@[0] && n.len() != "empty-std"@.len()
                && n.len() != "empty_std"@.len()) by {
                reveal_strlit("without-h265-info"); reveal_strlit("with_h265_empty_std");
                reveal_strlit("empty-std-picture"); reveal_strlit("empty_std_picture");
                reveal_strlit("empty-std"); reveal_strlit("empty_std");
            }
            assert(n.len() != "with-h265-info-minimal"@.len()
                && n.len() != "with_h265_info_minimal"@.len() && n[4] != "with-h265-minimal"@[4]
                && n[4] != "with_h265_minimal"@[4] && n[0] != "minimal-h265-info"@[0]) by {
                reveal_strlit("without-h265-info"); reveal_strlit("with-h265-info-minimal");
                reveal_strlit("with_h265_info_minimal"); reveal_strlit("with-h265-minimal");
                reveal_strlit("with_h265_minimal"); reveal_strlit("minimal-h265-info");
            }
            assert(n[0] != "minimal_h265_info"@[0] && n.len() != "minimal"@.len()) by {
                reveal_strlit("without-h265-info"); reveal_strlit("minimal_h265_info");
                reveal_strlit("minimal");
            }
            assert(n.len() != "with-h265-info-no-std-picture"@.len()
                && n.len() != "with_h265_info_no_std_picture"@.len()
                && n.len() != "with-h265-info-no-std"@.len()
                && n.len() != "with_h265_info_no_std"@.len() && n.len() != "with-h265-no-std"@.len()) by {
                reveal_strlit("without-h265-info"); reveal_strlit("with-h265-info-no-std-picture");
                reveal_strlit("with_h265_info_no_std_picture");
                reveal_strlit("with-h265-info-no-std"); reveal_strlit("with_h265_info_no_std");
                reveal_strlit("with-h265-no-std");
            }
            assert(n.len() != "with_h265_no_std"@.len() && n.len() != "no-std-picture"@.len()
                && n.len() != "no_std_picture"@.len() && n.len() != "nostd"@.len()) by {
                reveal_strlit("without-h265-info"); reveal_strlit("with_h265_no_std");
                reveal_strlit("no-std-picture"); reveal_strlit("no_std_picture");
                reveal_strlit("nostd");
            }
        },
    }
}

/// Every label names its own value.
pub proof fn law_picture_flags_mode_labels(mode: HevcEncodeProbePictureFlagsMode)
    ensures
        picture_flags_mode_named(Some(mode.label())) == mode,
{
    let n = mode.label();
    match mode {
        HevcEncodeProbePictureFlagsMode::Default => {
            assert(n.len() != "non-reference"@.len() && n.len() != "non_reference"@.len()
                && n.len() != "nonref"@.len() && n[0] != "non-ref"@[0] && n[0] != "non_ref"@[0]) by {
                reveal_strlit("default"); reveal_strlit("non-reference");
                reveal_strlit("non_reference"); reveal_strlit("nonref"); reveal_strlit("non-ref");
                reveal_strlit("non_ref");
            }
            assert(n.len() != "p-frame-like"@.len() && n.len() != "p_frame_like"@.len()) by {
                reveal_strlit("default"); reveal_strlit("p-frame-like");
                reveal_strlit("p_frame_like");
            }
        },
        HevcEncodeProbePictureFlagsMode::NonReference => {},
    }
}

/// Every label names its own value.
pub proof fn law_picture_info_mode_labels(mode: HevcEncodeProbePictureInfoMode)
    ensures
        picture_info_mode_named(Some(mode.label())) == mode,
{
    let n = mode.label();
    match mode {
        HevcEncodeProbePictureInfoMode::Default => {
            assert(n[0] != "intra-i"@[0] && n[0] != "intra_i"@[0] && n.len() != "intra"@.len()
                && n.len() != "i"@.len() && n[0] != "i-frame"@[0]) by {
                reveal_strlit("default"); reveal_strlit("intra-i"); reveal_strlit("intra_i");
                reveal_strlit("intra"); reveal_strlit("i"); reveal_strlit("i-frame");
            }
            assert(n[0] != "i_frame"@[0]) by {
                reveal_strlit("default"); reveal_strlit("i_frame");
            }
            assert(n[0] != "inter-p"@[0] && n[0] != "inter_p"@[0] && n.len() != "inter"@.len()
                && n.len() != "p"@.len() && n[0] != "p-frame"@[0]) by {
                reveal_strlit("default"); reveal_strlit("inter-p"); reveal_strlit("inter_p");
                reveal_strlit("inter"); reveal_strlit("p"); reveal_strlit("p-frame");
            }
            assert(n[0] != "p_frame"@[0]) by {
                reveal_strlit("default"); reveal_strlit("p_frame");
            }
            assert(n.len() != "temporal-1"@.len() && n.len() != "temporal_1"@.len()
                && n.len() != "temporal1"@.len() && n.len() != "tid-1"@.len()
                && n.len() != "tid_1"@.len()) by {
                reveal_strlit("default"); reveal_strlit("temporal-1"); reveal_strlit("temporal_1");
                reveal_strlit("temporal1"); reveal_strlit("tid-1"); reveal_strlit("tid_1");
            }
            assert(n.len() != "t1"@.len()) by {
                reveal_strlit("default"); reveal_strlit("t1");
            }
            assert(n.len() != "poc-1"@.len() && n.len() != "poc_1"@.len()
                && n.len() != "poc1"@.len() && n.len() != "poc-plus-one"@.len()
                && n.len() != "poc_plus_one"@.len()) by {
                reveal_strlit("default"); reveal_strlit("poc-1"); reveal_strlit("poc_1");
                reveal_strlit("poc1"); reveal_strlit("poc-plus-one"); reveal_strlit("poc_plus_one");
            }
        },
        HevcEncodeProbePictureInfoMode::IntraI => {},
        HevcEncodeProbePictureInfoMode::InterP => {
            assert(n[3] != "intra-i"@[3] && n[3] != "intra_i"@[3] && n.len() != "intra"@.len()
                && n.len() != "i"@.len() && n[1] != "i-frame"@[1]) by {
                reveal_strlit("inter-p"); reveal_strlit("intra-i"); reveal_strlit("intra_i");
                reveal_strlit("intra"); reveal_strlit("i"); reveal_strlit("i-frame");
            }
            assert(n[1] != "i_frame"@[1]) by {
                reveal_strlit("inter-p"); reveal_strlit("i_frame");
            }
        },
        HevcEncodeProbePictureInfoMode::Temporal1 => {
            assert(n.len() != "intra-i"@.len() && n.len() != "intra_i"@.len()
                && n.len() != "intra"@.len() && n.len() != "i"@.len() && n.len() != "i-frame"@.len()) by {
                reveal_strlit("temporal-1"); reveal_strlit("intra-i"); reveal_strlit("intra_i");
                reveal_strlit("intra"); reveal_strlit("i"); reveal_strlit("i-frame");
            }
            assert(n.len() != "i_frame"@.len()) by {
                reveal_strlit("temporal-1"); reveal_strlit("i_frame");
            }
            assert(n.len() != "inter-p"@.len() && n.len() != "inter_p"@.len()
                && n.len() != "inter"@.len() && n.len() != "p"@.len() && n.len() != "p-frame"@.len()) by {
                reveal_strlit("temporal-1"); reveal_strlit("inter-p"); reveal_strlit("inter_p");
                reveal_strlit("inter"); reveal_strlit("p"); reveal_strlit("p-frame");
            }
            assert(n.len() != "p_frame"@.len()) by {
                reveal_strlit("temporal-1"); reveal_strlit("p_frame");
            }
        },
        HevcEncodeProbePictureInfoMode::Poc1 => {
            assert(n.len() != "intra-i"@.len() && n.len() != "intra_i"@.len()
                && n[0] != "intra"@[0] && n.len() != "i"@.len() && n.len() != "i-frame"@.len()) by {
                reveal_strlit("poc-1"); reveal_strlit("intra-i"); reveal_strlit("intra_i");
                reveal_strlit("intra"); reveal_strlit("i"); reveal_strlit("i-frame");
            }
            assert(n.len() != "i_frame"@.len()) by {
                reveal_strlit("poc-1"); reveal_strlit("i_frame");
            }
            assert(n.len() != "inter-p"@.len() && n.len() != "inter_p"@.len()
                && n[0] != "inter"@[0] && n.len() != "p"@.len() && n.len() != "p-frame"@.len()) by {
                reveal_strlit("poc-1"); reveal_strlit("inter-p"); reveal_strlit("inter_p");
                reveal_strlit("inter"); reveal_strlit("p"); reveal_strlit("p-frame");
            }
            assert(n.len() != "p_frame"@.len()) by {
                reveal_strlit("poc-1"); reveal_strlit("p_frame");
            }
            assert(n.len() != "temporal-1"@.len() && n.len() != "temporal_1"@.len()
                && n.len() != "temporal1"@.len() && n[0] != "tid-1"@[0] && n[0] != "tid_1"@[0]) by {
                reveal_strlit("poc-1"); reveal_strlit("temporal-1"); reveal_strlit("temporal_1");
                reveal_strlit("temporal1"); reveal_strlit("tid-1"); reveal_strlit("tid_1");
            }
            assert(n.len() != "t1"@.len()) by {
                reveal_strlit("poc-1"); reveal_strlit("t1");
            }
        },
    }
}

/// Every label names its own value.
pub proof fn law_picture_resource_extent_mode_labels(mode: HevcEncodeProbePictureResourceExtentMode)
    ensures
        picture_resource_extent_mode_named(Some(mode.label())) == mode,
{
    let n = mode.label();
    match mode {
        HevcEncodeProbePictureResourceExtentMode::Coded => {
            assert(n[0] != "image"@[0] && n.len() != "image-aligned"@.len()
                && n.len() != "image_aligned"@.len() && n.len() != "aligned"@.len()
                && n[0] != "align"@[0]) by {
                reveal_strlit("coded"); reveal_strlit("image"); reveal_strlit("image-aligned");
                reveal_strlit("image_aligned"); reveal_strlit("aligned"); reveal_strlit("align");
            }
            assert(n.len() != "pad"@.len() && n.len() != "padded"@.len() && n.len() != "1"@.len()) by {
                reveal_strlit("coded"); reveal_strlit("pad"); reveal_strlit("padded");
                reveal_strlit("1");
            }
        },
        HevcEncodeProbePictureResourceExtentMode::ImageAligned => {},
    }
}

} // verus!
