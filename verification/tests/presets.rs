use pump_control::curve::{find_segment, CurveData, CurvePoint};
use pump_control::presets::{all_presets, load_preset};

fn p(x: u16, y: u16, tension: i16) -> CurvePoint {
    CurvePoint { x, y, tension }
}

#[test]
fn default_pump_is_the_classic_shape() {
    let c = CurveData::default_pump();
    assert_eq!(
        c.points,
        vec![p(0, 1000, 0), p(10, 0, 800), p(50, 0, 0), p(600, 850, -300), p(1000, 1000, 0)]
    );
    assert_eq!(CurveData::default().points, c.points);
}

#[test]
fn catalog_lists_twelve_presets_in_four_categories() {
    let presets = all_presets();
    let names: Vec<&str> = presets.iter().map(|p| p.name).collect();
    assert_eq!(
        names,
        vec![
            "Hardstyle Pump", "Reverse Pump", "Kick Space", "Rawstyle Crush", "Hardcore Pump",
            "Hardcore Stutter", "Gabber Smash", "Frenchcore Pump", "Snare Duck", "Sine LFO",
            "Trance Gate", "Slow Breathe",
        ]
    );
    let cats: Vec<&str> = presets.iter().map(|p| p.category).collect();
    assert_eq!(&cats[..4], &["Hardstyle"; 4]);
    assert_eq!(&cats[4..7], &["Hardcore"; 3]);
    assert_eq!(&cats[7..9], &["Frenchcore"; 2]);
    assert_eq!(&cats[9..], &["Utility"; 3]);
}

#[test]
fn every_preset_loads_by_name() {
    for preset in all_presets() {
        let loaded = load_preset(preset.name).expect("preset must load");
        assert_eq!(loaded.points, preset.curve.points);
    }
}

#[test]
fn hardstyle_pump_is_the_default() {
    assert_eq!(load_preset("Hardstyle Pump").unwrap().points, CurveData::default_pump().points);
}

#[test]
fn unknown_names_load_nothing() {
    assert!(load_preset("Hardstyle").is_none());
    assert!(load_preset("").is_none());
    assert!(load_preset("hardstyle pump").is_none());
    assert!(load_preset("Hardstyle Pump ").is_none());
}

#[test]
fn slow_breathe_points() {
    assert_eq!(
        load_preset("Slow Breathe").unwrap().points,
        vec![p(0, 1000, -400), p(500, 300, -400), p(1000, 1000, 0)]
    );
}

#[test]
fn preset_curves_are_well_formed() {
    for preset in all_presets() {
        let pts = &preset.curve.points;
        assert!(pts.len() >= 2);
        assert_eq!(pts[0].x, 0);
        assert_eq!(pts[pts.len() - 1].x, 1000);
        for w in pts.windows(2) {
            assert!(w[0].x < w[1].x);
        }
        for q in pts {
            assert!(q.y <= 1000 && (-1000..=1000).contains(&q.tension));
        }
    }
}

#[test]
fn find_segment_locates_the_phase() {
    let xs = [0.0f32, 0.01, 0.05, 0.6, 1.0];
    let seg = |phase: f32| find_segment(xs.len(), &|i: usize| xs[i] <= phase);
    assert_eq!(seg(0.0), (0, 1));
    assert_eq!(seg(0.005), (0, 1));
    assert_eq!(seg(0.01), (1, 2));
    assert_eq!(seg(0.3), (2, 3));
    assert_eq!(seg(0.6), (3, 4));
    assert_eq!(seg(0.99), (3, 4));
    assert_eq!(seg(1.0), (3, 4));
    let two = [0.0f32, 1.0];
    assert_eq!(find_segment(2, &|i: usize| two[i] <= 0.5), (0, 1));
}

#[test]
fn find_segment_follows_the_binary_search_on_unsorted_points() {
    // Probes 2 (9 > 3, keep the lower half) and then 1 (1 <= 3), and never
    // looks at the later points that lie at or before the phase.
    let xs = [0u32, 1, 9, 5, 2, 9];
    let probed = std::cell::RefCell::new(Vec::new());
    let r = find_segment(xs.len(), &|i: usize| {
        probed.borrow_mut().push(i);
        xs[i] <= 3
    });
    assert_eq!(r, (1, 2));
    assert_eq!(*probed.borrow(), vec![2, 1]);
}

#[test]
fn thousandths_convert_to_the_f32_of_their_decimal() {
    // Integers up to 1000 are exact in f32 and division rounds correctly, so
    // n / 1000 is the f32 nearest to the decimal n/1000, which is what the
    // decimal literal parses to.
    for n in -1000i32..=1000 {
        let decimal = format!("{}{}.{:03}", if n < 0 { "-" } else { "" }, n.abs() / 1000, n.abs() % 1000);
        assert_eq!(n as f32 / 1000.0, decimal.parse::<f32>().unwrap(), "{decimal}");
    }
    for preset in all_presets() {
        for q in &preset.curve.points {
            assert!(q.x <= 1000 && q.y <= 1000 && q.tension.abs() <= 1000);
        }
    }
}
