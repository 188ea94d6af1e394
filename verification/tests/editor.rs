use pump_control::editor_size::{EditorSize, MAX_HEIGHT, MAX_WIDTH, MIN_HEIGHT, MIN_WIDTH};
use pump_control::param_ids::{param_from_id, ParamId};
use pump_control::update_counter::UpdateCounter;

const ALL_PARAMS: [ParamId; 18] = [
    ParamId::Enabled,
    ParamId::InputGain,
    ParamId::OutputGain,
    ParamId::Mix,
    ParamId::Depth,
    ParamId::TriggerMode,
    ParamId::SyncRate,
    ParamId::RateHz,
    ParamId::PhaseOffset,
    ParamId::ScThreshold,
    ParamId::ScAttack,
    ParamId::ScRelease,
    ParamId::Multiband,
    ParamId::XoverLow,
    ParamId::XoverHigh,
    ParamId::DepthLow,
    ParamId::DepthMid,
    ParamId::DepthHigh,
];

#[test]
fn editor_opens_at_900_by_560() {
    assert_eq!(EditorSize::new().size(), (900, 560));
}

#[test]
fn host_sizes_are_clamped() {
    let mut s = EditorSize::new();
    assert_eq!(s.set_size(100, 100), (MIN_WIDTH, MIN_HEIGHT));
    assert_eq!(s.size(), (600, 380));
    assert_eq!(s.set_size(5000, 5000), (MAX_WIDTH, MAX_HEIGHT));
    assert_eq!(s.size(), (2560, 1600));
    assert_eq!(s.set_size(1024, 700), (1024, 700));
    assert_eq!(s.set_size(0, 1600), (600, 1600));
}

#[test]
fn editor_resize_requests_out_of_bounds_are_refused() {
    let mut s = EditorSize::new();
    assert!(!s.request_resize(599, 600));
    assert!(!s.request_resize(900, 1601));
    assert!(!s.request_resize(u32::MAX, 0));
    assert_eq!(s.size(), (900, 560));
    assert!(s.request_resize(900, 600));
    assert_eq!(s.size(), (900, 600));
    assert!(s.request_resize(600, 380));
    assert!(s.request_resize(2560, 1600));
    assert_eq!(s.size(), (2560, 1600));
}

#[test]
fn every_param_id_round_trips() {
    for p in ALL_PARAMS {
        assert_eq!(param_from_id(p.id()), Some(p));
    }
    assert_eq!(ParamId::ScThreshold.id(), "sc_threshold");
    assert_eq!(ParamId::RateHz.id(), "rate_hz");
}

#[test]
fn unknown_param_ids_are_refused() {
    assert_eq!(param_from_id("curve_data"), None);
    assert_eq!(param_from_id(""), None);
    assert_eq!(param_from_id("Depth"), None);
    assert_eq!(param_from_id("depth "), None);
}

#[test]
fn packets_go_out_every_fourth_block() {
    let mut c = UpdateCounter::new();
    let sent: Vec<bool> = (0..12).map(|_| c.tick()).collect();
    assert_eq!(
        sent,
        vec![false, false, false, true, false, false, false, true, false, false, false, true]
    );
    assert_eq!(c.count(), 0);
    c.tick();
    assert_eq!(c.count(), 1);
}
