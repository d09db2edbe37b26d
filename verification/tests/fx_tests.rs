use reaper_session::fx::{
    get_fx_query_index, get_index_from_query_index, Fx, FxChainView, FxSnapshot, Guid, Track,
};

fn guid(n: u64) -> Guid {
    Guid::new(n, n)
}

fn chain(guids: &[u64]) -> FxChainView {
    FxChainView {
        available: true,
        fxs: guids
            .iter()
            .map(|&g| FxSnapshot {
                guid: guid(g),
                param_count: 3,
                enabled: true,
            })
            .collect(),
    }
}

#[test]
fn query_index_encoding() {
    assert_eq!(get_fx_query_index(4, false), 4);
    assert_eq!(get_fx_query_index(4, true), 0x1000004);
    assert_eq!(get_index_from_query_index(4), (4, false));
    assert_eq!(get_index_from_query_index(0x1000004), (4, true));
}

#[test]
fn query_index_round_trip() {
    for index in [0u32, 1, 77, 0xFFFFFF] {
        for is_input_fx in [false, true] {
            let q = get_fx_query_index(index, is_input_fx);
            assert_eq!(get_index_from_query_index(q), (index, is_input_fx));
        }
    }
}

#[test]
fn lazy_index_is_resolved_by_guid() {
    let track = Track::new(guid(100));
    let mut fx = Fx::from_guid_lazy_index(track, guid(2), false);
    let view = chain(&[1, 2, 3]);
    assert_eq!(fx.get_index(&view), 1);
    assert_eq!(fx.get_query_index(&view), 1);
}

#[test]
fn stale_index_is_corrected_after_reorder() {
    let track = Track::new(guid(100));
    let mut fx = Fx::from_guid_and_index(track, guid(2), 1, false);
    // The chain was reordered: the FX with this GUID now sits at index 2.
    let view = chain(&[1, 3, 2]);
    assert_eq!(fx.get_index(&view), 2);
}

#[test]
fn availability_follows_the_observed_chain() {
    let track = Track::new(guid(100));
    let mut fx = Fx::from_guid_lazy_index(track, guid(9), false);
    assert!(!fx.is_available(&chain(&[1, 2])));
    assert!(fx.is_available(&chain(&[9, 1])));
    let unavailable = FxChainView {
        available: false,
        fxs: Vec::new(),
    };
    assert!(!fx.is_available(&unavailable));
}

#[test]
fn parameters_are_enumerated_in_index_order() {
    let track = Track::new(guid(100));
    let mut fx = Fx::from_guid_lazy_index(track, guid(1), false);
    let view = chain(&[1]);
    assert_eq!(fx.get_parameter_count(&view), 3);
    let params = fx.get_parameters(&view);
    assert_eq!(params.len(), 3);
    for (i, p) in params.iter().enumerate() {
        assert_eq!(p.index, i as u32);
    }
    assert!(fx.is_enabled(&view));
}

#[test]
fn fx_equality_prefers_guids() {
    let track = Track::new(guid(100));
    let a = Fx::from_guid_lazy_index(track, guid(1), false);
    let b = Fx::from_guid_and_index(track, guid(1), 5, false);
    // Both GUID-tracked with the same GUID: equal despite different indexes.
    assert!(a == b);
    let c = Fx::from_guid_lazy_index(track, guid(2), false);
    assert!(a != c);
    // A different chain of the same track is a different FX.
    let d = Fx::from_guid_lazy_index(track, guid(1), true);
    assert!(a != d);
}

#[test]
fn fx_accessors() {
    let track = Track::new(guid(100));
    let fx = Fx::from_guid_lazy_index(track, guid(1), true);
    assert_eq!(fx.get_track(), track);
    assert_eq!(fx.get_guid(), Some(guid(1)));
    assert!(fx.is_input_fx());
    let chain_handle = fx.get_chain();
    assert_eq!(chain_handle.track, track);
    assert!(chain_handle.is_input_fx);
}

#[test]
fn fx_info_parses_a_vst_line() {
    let info = reaper_session::fx::FxInfo::new("<VST \"VSTi: ReaSynth (Cockos)\" reasynth.dll 0 \"\"");
    assert_eq!(info.type_expression, "VST");
    assert_eq!(info.sub_type_expression, "VSTi");
    assert_eq!(info.effect_name, "ReaSynth");
    assert_eq!(info.vendor_name, "Cockos");
    assert_eq!(info.file_name, "reasynth.dll");
}

#[test]
fn fx_info_without_quoted_details_has_empty_fields() {
    let info = reaper_session::fx::FxInfo::new("<JS analysis/hund \"\"");
    assert_eq!(info.type_expression, "JS");
    assert_eq!(info.sub_type_expression, "");
    assert_eq!(info.effect_name, "");
    assert_eq!(info.vendor_name, "");
    assert_eq!(info.file_name, "");
}

#[test]
fn fx_info_without_vendor() {
    let info = reaper_session::fx::FxInfo::new("<VST \"VST: SomeFx\" somefx.dll");
    assert_eq!(info.type_expression, "VST");
    assert_eq!(info.sub_type_expression, "VST");
    assert_eq!(info.effect_name, "SomeFx");
    assert_eq!(info.vendor_name, "");
    assert_eq!(info.file_name, "somefx.dll");
}
