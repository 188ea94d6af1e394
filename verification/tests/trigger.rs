use pump_control::trigger::{PhaseMotion, SyncRate, TickAction, TriggerLogic, TriggerMode};

const ALL_RATES: [SyncRate; 14] = [
    SyncRate::Sixteenth,
    SyncRate::EighthTriplet,
    SyncRate::Eighth,
    SyncRate::DottedEighth,
    SyncRate::QuarterTriplet,
    SyncRate::Quarter,
    SyncRate::DottedQuarter,
    SyncRate::HalfTriplet,
    SyncRate::Half,
    SyncRate::DottedHalf,
    SyncRate::Whole,
    SyncRate::TwoBars,
    SyncRate::FourBars,
    SyncRate::Free,
];

#[test]
fn from_index_maps_the_parameter_range_in_order() {
    for (i, rate) in ALL_RATES.iter().enumerate() {
        assert_eq!(SyncRate::from_index(i as i32), *rate);
    }
}

#[test]
fn from_index_falls_back_to_a_quarter_note() {
    assert_eq!(SyncRate::from_index(-1), SyncRate::Quarter);
    assert_eq!(SyncRate::from_index(14), SyncRate::Quarter);
    assert_eq!(SyncRate::from_index(i32::MIN), SyncRate::Quarter);
    assert_eq!(SyncRate::from_index(i32::MAX), SyncRate::Quarter);
}

#[test]
fn labels_match_the_note_divisions() {
    let expected = [
        "1/16", "1/8T", "1/8", "1/8D", "1/4T", "1/4", "1/4D", "1/2T", "1/2", "1/2D", "1/1",
        "2 bars", "4 bars", "Free",
    ];
    for (rate, label) in ALL_RATES.iter().zip(expected.iter()) {
        assert_eq!(rate.label(), *label);
    }
}

#[test]
fn beats_per_cycle_are_exact_fractions() {
    let expected = [
        (1, 4), (1, 3), (1, 2), (3, 4), (2, 3), (1, 1), (3, 2), (4, 3), (2, 1), (3, 1), (4, 1),
        (8, 1), (16, 1), (1, 1),
    ];
    for (rate, beats) in ALL_RATES.iter().zip(expected.iter()) {
        assert_eq!(rate.to_beats(), *beats);
    }
    let (n, d) = SyncRate::EighthTriplet.to_beats();
    assert_eq!(n as f64 / d as f64, 1.0 / 3.0);
    let (n, d) = SyncRate::HalfTriplet.to_beats();
    assert_eq!(n as f64 / d as f64, 4.0 / 3.0);
}

fn playing_logic() -> TriggerLogic {
    let mut g = TriggerLogic::new();
    g.set_playing(true);
    g
}

#[test]
fn stopped_transport_holds_in_every_mode() {
    let mut g = TriggerLogic::new();
    g.midi_note_on();
    for mode in [TriggerMode::Internal, TriggerMode::Sidechain, TriggerMode::Midi] {
        for rate in ALL_RATES {
            assert_eq!(g.tick(mode, rate, true), TickAction::Hold);
        }
    }
    g.set_playing(true);
    assert_eq!(
        g.tick(TriggerMode::Midi, SyncRate::Quarter, false),
        TickAction::Advance { restart: true, motion: PhaseMotion::Synced }
    );
}

#[test]
fn internal_mode_follows_transport_or_runs_free() {
    let mut g = playing_logic();
    assert_eq!(g.tick(TriggerMode::Internal, SyncRate::Half, true), TickAction::FollowTransport);
    assert_eq!(
        g.tick(TriggerMode::Internal, SyncRate::Free, true),
        TickAction::Advance { restart: false, motion: PhaseMotion::Free }
    );
}

#[test]
fn sidechain_restarts_on_rising_edge_only() {
    let mut g = playing_logic();
    let adv = |restart| TickAction::Advance { restart, motion: PhaseMotion::Synced };
    assert_eq!(g.tick(TriggerMode::Sidechain, SyncRate::Quarter, false), adv(false));
    assert_eq!(g.tick(TriggerMode::Sidechain, SyncRate::Quarter, true), adv(true));
    assert_eq!(g.tick(TriggerMode::Sidechain, SyncRate::Quarter, true), adv(false));
    assert_eq!(g.tick(TriggerMode::Sidechain, SyncRate::Quarter, false), adv(false));
    assert_eq!(g.tick(TriggerMode::Sidechain, SyncRate::Quarter, true), adv(true));
}

#[test]
fn midi_note_restarts_once() {
    let mut g = playing_logic();
    let adv = |restart| TickAction::Advance { restart, motion: PhaseMotion::Free };
    assert_eq!(g.tick(TriggerMode::Midi, SyncRate::Free, false), adv(false));
    g.midi_note_on();
    assert_eq!(g.tick(TriggerMode::Midi, SyncRate::Free, false), adv(true));
    assert_eq!(g.tick(TriggerMode::Midi, SyncRate::Free, false), adv(false));
}

#[test]
fn reset_clears_pending_triggers_but_keeps_transport() {
    let mut g = playing_logic();
    g.tick(TriggerMode::Sidechain, SyncRate::Quarter, true);
    g.midi_note_on();
    g.reset();
    assert!(g.is_playing());
    assert_eq!(
        g.tick(TriggerMode::Midi, SyncRate::Quarter, false),
        TickAction::Advance { restart: false, motion: PhaseMotion::Synced }
    );
    assert_eq!(
        g.tick(TriggerMode::Sidechain, SyncRate::Quarter, true),
        TickAction::Advance { restart: true, motion: PhaseMotion::Synced }
    );
}

#[test]
fn internal_mode_keeps_a_pending_note() {
    let mut g = playing_logic();
    g.midi_note_on();
    g.tick(TriggerMode::Internal, SyncRate::Quarter, false);
    g.tick(TriggerMode::Sidechain, SyncRate::Quarter, false);
    assert_eq!(
        g.tick(TriggerMode::Midi, SyncRate::Quarter, false),
        TickAction::Advance { restart: true, motion: PhaseMotion::Synced }
    );
}
