//! Built-in curve presets.

use vstd::prelude::*;

use crate::curve::{pt, well_formed_points, default_pump_points, CurveData, CurvePoint};
use crate::text::str_eq;

verus! {

/// A named, categorised curve shipped with the plug-in.
pub struct Preset {
    pub name: &'static str,
    pub category: &'static str,
    pub curve: CurveData,
}

/// What a preset holds, as plain values.
pub struct PresetSpec {
    pub name: Seq<char>,
    pub category: Seq<char>,
    pub points: Seq<CurvePoint>,
}

impl View for Preset {
    type V = PresetSpec;

    open spec fn view(&self) -> PresetSpec {
        PresetSpec { name: self.name@, category: self.category@, points: self.curve.points@ }
    }
}

/// The built-in presets, in the order the browser lists them.
#[verifier::opaque]
pub open spec fn catalog() -> Seq<PresetSpec> {
    seq![
        PresetSpec {
            name: "Hardstyle Pump"@,
            category: "Hardstyle"@,
            points: seq![
                pt(0, 1000, 0),
                pt(10, 0, 800),
                pt(50, 0, 0),
                pt(600, 850, -300i16),
                pt(1000, 1000, 0),
            ],
        },
        PresetSpec {
            name: "Reverse Pump"@,
            category: "Hardstyle"@,
            points: seq![
                pt(0, 0, 0),
                pt(400, 150, 300),
                pt(950, 1000, -800i16),
                pt(990, 1000, 0),
                pt(1000, 0, 0),
            ],
        },
        PresetSpec {
            name: "Kick Space"@,
            category: "Hardstyle"@,
            points: seq![
                pt(0, 1000, 0),
                pt(5, 0, 900),
                pt(200, 0, 0),
                pt(400, 900, -500i16),
                pt(1000, 1000, 0),
            ],
        },
        PresetSpec {
            name: "Rawstyle Crush"@,
            category: "Hardstyle"@,
            points: seq![
                pt(0, 1000, 0),
                pt(8, 0, 950),
                pt(30, 0, 0),
                pt(100, 500, -600i16),
                pt(250, 300, 400),
                pt(500, 700, -200i16),
                pt(1000, 1000, 0),
            ],
        },
        PresetSpec {
            name: "Hardcore Pump"@,
            category: "Hardcore"@,
            points: seq![
                pt(0, 1000, 0),
                pt(5, 0, 900),
                pt(20, 0, 0),
                pt(300, 900, -500i16),
                pt(1000, 1000, 0),
            ],
        },
        PresetSpec {
            name: "Hardcore Stutter"@,
            category: "Hardcore"@,
            points: seq![
                pt(0, 1000, 0),
                pt(10, 0, 500),
                pt(200, 0, 0),
                pt(250, 1000, 500),
                pt(260, 0, 500),
                pt(450, 0, 0),
                pt(500, 1000, 500),
                pt(510, 0, 500),
                pt(700, 0, 0),
                pt(750, 1000, -300i16),
                pt(1000, 1000, 0),
            ],
        },
        PresetSpec {
            name: "Gabber Smash"@,
            category: "Hardcore"@,
            points: seq![
                pt(0, 1000, 0),
                pt(3, 0, 950),
                pt(10, 0, 0),
                pt(150, 1000, -700i16),
                pt(1000, 1000, 0),
            ],
        },
        PresetSpec {
            name: "Frenchcore Pump"@,
            category: "Frenchcore"@,
            points: seq![
                pt(0, 1000, 0),
                pt(6, 0, 900),
                pt(25, 0, 0),
                pt(200, 950, -600i16),
                pt(1000, 1000, 0),
            ],
        },
        PresetSpec {
            name: "Snare Duck"@,
            category: "Frenchcore"@,
            points: seq![
                pt(0, 1000, 0),
                pt(20, 300, 600),
                pt(80, 300, 0),
                pt(300, 900, -400i16),
                pt(1000, 1000, 0),
            ],
        },
        PresetSpec {
            name: "Sine LFO"@,
            category: "Utility"@,
            points: seq![
                pt(0, 1000, -600i16),
                pt(250, 0, -600i16),
                pt(500, 1000, -600i16),
                pt(750, 0, -600i16),
                pt(1000, 1000, 0),
            ],
        },
        PresetSpec {
            name: "Trance Gate"@,
            category: "Utility"@,
            points: seq![
                pt(0, 1000, 0),
                pt(240, 1000, 0),
                pt(250, 0, 0),
                pt(490, 0, 0),
                pt(500, 1000, 0),
                pt(740, 1000, 0),
                pt(750, 0, 0),
                pt(990, 0, 0),
                pt(1000, 1000, 0),
            ],
        },
        PresetSpec {
            name: "Slow Breathe"@,
            category: "Utility"@,
            points: seq![
                pt(0, 1000, -400i16),
                pt(500, 300, -400i16),
                pt(1000, 1000, 0),
            ],
        },
    ]
}

/// The points of the first preset in `presets` named `name`, if any.
pub open spec fn preset_named(presets: Seq<PresetSpec>, name: Seq<char>) -> Option<Seq<CurvePoint>>
    decreases presets.len(),
{
    if presets.len() == 0 {
        None
    } else if presets[0].name == name {
        Some(presets[0].points)
    } else {
        preset_named(presets.drop_first(), name)
    }
}

/// All built-in presets.
pub fn all_presets() -> (r: Vec<Preset>)
    ensures
        r@.len() == catalog().len(),
        forall|i: int| 0 <= i < r@.len() ==> #[trigger] r@[i]@ == catalog()[i],
{
    reveal(catalog);
    vec![
        // Hardstyle
        Preset {
            name: "Hardstyle Pump",
            category: "Hardstyle",
            curve: CurveData {
                points: vec![
                    CurvePoint { x: 0, y: 1000, tension: 0 },
                    CurvePoint { x: 10, y: 0, tension: 800 },
                    CurvePoint { x: 50, y: 0, tension: 0 },
                    CurvePoint { x: 600, y: 850, tension: -300 },
                    CurvePoint { x: 1000, y: 1000, tension: 0 },
                ],
            },
        },
        Preset {
            name: "Reverse Pump",
            category: "Hardstyle",
            curve: CurveData {
                points: vec![
                    CurvePoint { x: 0, y: 0, tension: 0 },
                    CurvePoint { x: 400, y: 150, tension: 300 },
                    CurvePoint { x: 950, y: 1000, tension: -800 },
                    CurvePoint { x: 990, y: 1000, tension: 0 },
                    CurvePoint { x: 1000, y: 0, tension: 0 },
                ],
            },
        },
        Preset {
            name: "Kick Space",
            category: "Hardstyle",
            curve: CurveData {
                points: vec![
                    CurvePoint { x: 0, y: 1000, tension: 0 },
                    CurvePoint { x: 5, y: 0, tension: 900 },
                    CurvePoint { x: 200, y: 0, tension: 0 },
                    CurvePoint { x: 400, y: 900, tension: -500 },
                    CurvePoint { x: 1000, y: 1000, tension: 0 },
                ],
            },
        },
        Preset {
            name: "Rawstyle Crush",
            category: "Hardstyle",
            curve: CurveData {
                points: vec![
                    CurvePoint { x: 0, y: 1000, tension: 0 },
                    CurvePoint { x: 8, y: 0, tension: 950 },
                    CurvePoint { x: 30, y: 0, tension: 0 },
                    CurvePoint { x: 100, y: 500, tension: -600 },
                    CurvePoint { x: 250, y: 300, tension: 400 },
                    CurvePoint { x: 500, y: 700, tension: -200 },
                    CurvePoint { x: 1000, y: 1000, tension: 0 },
                ],
            },
        },
        // Hardcore
        Preset {
            name: "Hardcore Pump",
            category: "Hardcore",
            curve: CurveData {
                points: vec![
                    CurvePoint { x: 0, y: 1000, tension: 0 },
                    CurvePoint { x: 5, y: 0, tension: 900 },
                    CurvePoint { x: 20, y: 0, tension: 0 },
                    CurvePoint { x: 300, y: 900, tension: -500 },
                    CurvePoint { x: 1000, y: 1000, tension: 0 },
                ],
            },
        },
        Preset {
            name: "Hardcore Stutter",
            category: "Hardcore",
            curve: CurveData {
                points: vec![
                    CurvePoint { x: 0, y: 1000, tension: 0 },
                    CurvePoint { x: 10, y: 0, tension: 500 },
                    CurvePoint { x: 200, y: 0, tension: 0 },
                    CurvePoint { x: 250, y: 1000, tension: 500 },
                    CurvePoint { x: 260, y: 0, tension: 500 },
                    CurvePoint { x: 450, y: 0, tension: 0 },
                    CurvePoint { x: 500, y: 1000, tension: 500 },
                    CurvePoint { x: 510, y: 0, tension: 500 },
                    CurvePoint { x: 700, y: 0, tension: 0 },
                    CurvePoint { x: 750, y: 1000, tension: -300 },
                    CurvePoint { x: 1000, y: 1000, tension: 0 },
                ],
            },
        },
        Preset {
            name: "Gabber Smash",
            category: "Hardcore",
            curve: CurveData {
                points: vec![
                    CurvePoint { x: 0, y: 1000, tension: 0 },
                    CurvePoint { x: 3, y: 0, tension: 950 },
                    CurvePoint { x: 10, y: 0, tension: 0 },
                    CurvePoint { x: 150, y: 1000, tension: -700 },
                    CurvePoint { x: 1000, y: 1000, tension: 0 },
                ],
            },
        },
        // Frenchcore
        Preset {
            name: "Frenchcore Pump",
            category: "Frenchcore",
            curve: CurveData {
                points: vec![
                    CurvePoint { x: 0, y: 1000, tension: 0 },
                    CurvePoint { x: 6, y: 0, tension: 900 },
                    CurvePoint { x: 25, y: 0, tension: 0 },
                    CurvePoint { x: 200, y: 950, tension: -600 },
                    CurvePoint { x: 1000, y: 1000, tension: 0 },
                ],
            },
        },
        Preset {
            name: "Snare Duck",
            category: "Frenchcore",
            curve: CurveData {
                points: vec![
                    CurvePoint { x: 0, y: 1000, tension: 0 },
                    CurvePoint { x: 20, y: 300, tension: 600 },
                    CurvePoint { x: 80, y: 300, tension: 0 },
                    CurvePoint { x: 300, y: 900, tension: -400 },
                    CurvePoint { x: 1000, y: 1000, tension: 0 },
                ],
            },
        },
        // Utility
        Preset {
            name: "Sine LFO",
            category: "Utility",
            curve: CurveData {
                points: vec![
                    CurvePoint { x: 0, y: 1000, tension: -600 },
                    CurvePoint { x: 250, y: 0, tension: -600 },
                    CurvePoint { x: 500, y: 1000, tension: -600 },
                    CurvePoint { x: 750, y: 0, tension: -600 },
                    CurvePoint { x: 1000, y: 1000, tension: 0 },
                ],
            },
        },
        Preset {
            name: "Trance Gate",
            category: "Utility",
            curve: CurveData {
                points: vec![
                    CurvePoint { x: 0, y: 1000, tension: 0 },
                    CurvePoint { x: 240, y: 1000, tension: 0 },
                    CurvePoint { x: 250, y: 0, tension: 0 },
                    CurvePoint { x: 490, y: 0, tension: 0 },
                    CurvePoint { x: 500, y: 1000, tension: 0 },
                    CurvePoint { x: 740, y: 1000, tension: 0 },
                    CurvePoint { x: 750, y: 0, tension: 0 },
                    CurvePoint { x: 990, y: 0, tension: 0 },
                    CurvePoint { x: 1000, y: 1000, tension: 0 },
                ],
            },
        },
        Preset {
            name: "Slow Breathe",
            category: "Utility",
            curve: CurveData {
                points: vec![
                    CurvePoint { x: 0, y: 1000, tension: -400 },
                    CurvePoint { x: 500, y: 300, tension: -400 },
                    CurvePoint { x: 1000, y: 1000, tension: 0 },
                ],
            },
        },
    ]
}


/// Skipping presets whose names differ from `name` does not change which
/// preset `name` finds.
proof fn lemma_skip_other_names(presets: Seq<PresetSpec>, name: Seq<char>, i: int)
    requires
        0 <= i <= presets.len(),
        forall|j: int| 0 <= j < i ==> #[trigger] presets[j].name != name,
    ensures
        preset_named(presets, name) == preset_named(presets.skip(i), name),
    decreases i,
{
    if i > 0 {
        assert(presets[0].name != name);
        let rest = presets.drop_first();
        assert forall|j: int| 0 <= j < i - 1 implies #[trigger] rest[j].name != name by {
            assert(rest[j] == presets[j + 1]);
        }
        lemma_skip_other_names(rest, name, i - 1);
        assert(rest.skip(i - 1) =~= presets.skip(i));
    } else {
        assert(presets.skip(0) =~= presets);
    }
}

/// The curve of the built-in preset called `name`, or `None` when no preset
/// has that name.
pub fn load_preset(name: &str) -> (r: Option<CurveData>)
    ensures
        match r {
            Some(c) => preset_named(catalog(), name@) == Some(c.points@),
            None => preset_named(catalog(), name@) is None,
        },
{
    let mut presets = all_presets();
    let n = presets.len();
    let mut i: usize = 0;
    while i < n
        invariant
            n == presets@.len(),
            n == catalog().len(),
            i <= n,
            forall|k: int| 0 <= k < n ==> #[trigger] presets@[k]@ == catalog()[k],
            forall|j: int| 0 <= j < i ==> #[trigger] catalog()[j].name != name@,
        decreases n - i,
    {
        assert(presets@[i as int]@ == catalog()[i as int]);
        if str_eq(presets[i].name, name) {
            proof {
                lemma_skip_other_names(catalog(), name@, i as int);
                assert(catalog().skip(i as int)[0] == catalog()[i as int]);
            }
            let p = presets.remove(i);
            assert(p@ == catalog()[i as int]);
            return Some(p.curve);
        }
        i = i + 1;
    }
    proof {
        lemma_skip_other_names(catalog(), name@, n as int);
        assert(catalog().skip(n as int).len() == 0);
    }
    None
}


/// No two built-in presets share a name.
pub proof fn law_preset_names_distinct()
    ensures
        forall|i: int, j: int|
            0 <= i < catalog().len() && 0 <= j < catalog().len() && i != j
                ==> #[trigger] catalog()[i].name != #[trigger] catalog()[j].name,
{
    reveal(catalog);
    reveal_strlit("Hardstyle Pump");
    reveal_strlit("Reverse Pump");
    reveal_strlit("Kick Space");
    reveal_strlit("Rawstyle Crush");
    reveal_strlit("Hardcore Pump");
    reveal_strlit("Hardcore Stutter");
    reveal_strlit("Gabber Smash");
    reveal_strlit("Frenchcore Pump");
    reveal_strlit("Snare Duck");
    reveal_strlit("Sine LFO");
    reveal_strlit("Trance Gate");
    reveal_strlit("Slow Breathe");
    assert forall|i: int, j: int|
        0 <= i < catalog().len() && 0 <= j < catalog().len() && i != j
            implies #[trigger] catalog()[i].name != #[trigger] catalog()[j].name by {
        assert(catalog()[i].name.len() != catalog()[j].name.len()
            || catalog()[i].name[0] != catalog()[j].name[0]);
    }
}


/// Every built-in preset can be loaded by its own name, and loading it gives
/// its own curve.
pub proof fn law_every_preset_loads_by_name()
    ensures
        forall|i: int|
            0 <= i < catalog().len() ==> preset_named(catalog(), #[trigger] catalog()[i].name)
                == Some(catalog()[i].points),
{
    law_preset_names_distinct();
    assert forall|i: int| 0 <= i < catalog().len() implies preset_named(
        catalog(),
        #[trigger] catalog()[i].name,
    ) == Some(catalog()[i].points) by {
        let name = catalog()[i].name;
        assert forall|j: int| 0 <= j < i implies #[trigger] catalog()[j].name != name by {
            assert(catalog()[j].name != catalog()[i].name);
        }
        lemma_skip_other_names(catalog(), name, i);
        assert(catalog().skip(i)[0] == catalog()[i]);
    }
}

/// Every built-in preset curve is well formed: it runs from phase 0 to
/// phase 1 through strictly increasing positions, with levels in 0..=1 and
/// tensions in -1..=1.
pub proof fn law_presets_well_formed()
    ensures
        forall|i: int| 0 <= i < catalog().len() ==> well_formed_points(#[trigger] catalog()[i].points),
{
    reveal(catalog);
}

/// The default curve is the "Hardstyle Pump" preset, the first one listed.
pub proof fn law_default_pump_is_hardstyle_pump()
    ensures
        catalog()[0].name == "Hardstyle Pump"@,
        catalog()[0].points == default_pump_points(),
        preset_named(catalog(), "Hardstyle Pump"@) == Some(default_pump_points()),
{
    reveal(catalog);
}


/// No two built-in presets hold the same curve: each name loads a shape of
/// its own.
pub proof fn law_preset_curves_distinct()
    ensures
        forall|i: int, j: int|
            0 <= i < catalog().len() && 0 <= j < catalog().len() && i != j
                ==> #[trigger] catalog()[i].points != #[trigger] catalog()[j].points,
{
    reveal(catalog);
    assert forall|i: int, j: int|
        0 <= i < catalog().len() && 0 <= j < catalog().len() && i != j
            implies #[trigger] catalog()[i].points != #[trigger] catalog()[j].points by {
        let a = catalog()[i].points;
        let b = catalog()[j].points;
        assert(a.len() != b.len() || a[0] != b[0] || a[1] != b[1] || a[2] != b[2] || a[3] != b[3]
            || a[4] != b[4]);
    }
}

/// Every preset loops seamlessly: its curve ends at the level it starts at,
/// full volume for all of them except "Reverse Pump", which starts and ends
/// silent.
pub proof fn law_presets_loop_seamlessly()
    ensures
        forall|i: int|
            0 <= i < catalog().len() ==> #[trigger] catalog()[i].points[0].y
                == catalog()[i].points.last().y,
        forall|i: int|
            0 <= i < catalog().len() && i != 1 ==> #[trigger] catalog()[i].points[0].y == 1000,
        catalog()[1].name == "Reverse Pump"@,
        catalog()[1].points[0].y == 0,
{
    reveal(catalog);
}

/// Each name loads the curve it was designed with, in thousandths.
pub proof fn law_presets_as_designed()
    ensures
        preset_named(catalog(), "Hardstyle Pump"@) == Some(seq![pt(0, 1000, 0), pt(10, 0, 800), pt(50, 0, 0), pt(600, 850, -300i16), pt(1000, 1000, 0)]),
        preset_named(catalog(), "Reverse Pump"@) == Some(seq![pt(0, 0, 0), pt(400, 150, 300), pt(950, 1000, -800i16), pt(990, 1000, 0), pt(1000, 0, 0)]),
        preset_named(catalog(), "Kick Space"@) == Some(seq![pt(0, 1000, 0), pt(5, 0, 900), pt(200, 0, 0), pt(400, 900, -500i16), pt(1000, 1000, 0)]),
        preset_named(catalog(), "Rawstyle Crush"@) == Some(seq![pt(0, 1000, 0), pt(8, 0, 950), pt(30, 0, 0), pt(100, 500, -600i16), pt(250, 300, 400), pt(500, 700, -200i16), pt(1000, 1000, 0)]),
        preset_named(catalog(), "Hardcore Pump"@) == Some(seq![pt(0, 1000, 0), pt(5, 0, 900), pt(20, 0, 0), pt(300, 900, -500i16), pt(1000, 1000, 0)]),
        preset_named(catalog(), "Hardcore Stutter"@) == Some(seq![pt(0, 1000, 0), pt(10, 0, 500), pt(200, 0, 0), pt(250, 1000, 500), pt(260, 0, 500), pt(450, 0, 0), pt(500, 1000, 500), pt(510, 0, 500), pt(700, 0, 0), pt(750, 1000, -300i16), pt(1000, 1000, 0)]),
        preset_named(catalog(), "Gabber Smash"@) == Some(seq![pt(0, 1000, 0), pt(3, 0, 950), pt(10, 0, 0), pt(150, 1000, -700i16), pt(1000, 1000, 0)]),
        preset_named(catalog(), "Frenchcore Pump"@) == Some(seq![pt(0, 1000, 0), pt(6, 0, 900), pt(25, 0, 0), pt(200, 950, -600i16), pt(1000, 1000, 0)]),
        preset_named(catalog(), "Snare Duck"@) == Some(seq![pt(0, 1000, 0), pt(20, 300, 600), pt(80, 300, 0), pt(300, 900, -400i16), pt(1000, 1000, 0)]),
        preset_named(catalog(), "Sine LFO"@) == Some(seq![pt(0, 1000, -600i16), pt(250, 0, -600i16), pt(500, 1000, -600i16), pt(750, 0, -600i16), pt(1000, 1000, 0)]),
        preset_named(catalog(), "Trance Gate"@) == Some(seq![pt(0, 1000, 0), pt(240, 1000, 0), pt(250, 0, 0), pt(490, 0, 0), pt(500, 1000, 0), pt(740, 1000, 0), pt(750, 0, 0), pt(990, 0, 0), pt(1000, 1000, 0)]),
        preset_named(catalog(), "Slow Breathe"@) == Some(seq![pt(0, 1000, -400i16), pt(500, 300, -400i16), pt(1000, 1000, 0)]),
{
    law_every_preset_loads_by_name();
    reveal(catalog);
    assert(preset_named(catalog(), catalog()[0].name) == Some(catalog()[0].points));
    assert(preset_named(catalog(), catalog()[1].name) == Some(catalog()[1].points));
    assert(preset_named(catalog(), catalog()[2].name) == Some(catalog()[2].points));
    assert(preset_named(catalog(), catalog()[3].name) == Some(catalog()[3].points));
    assert(preset_named(catalog(), catalog()[4].name) == Some(catalog()[4].points));
    assert(preset_named(catalog(), catalog()[5].name) == Some(catalog()[5].points));
    assert(preset_named(catalog(), catalog()[6].name) == Some(catalog()[6].points));
    assert(preset_named(catalog(), catalog()[7].name) == Some(catalog()[7].points));
    assert(preset_named(catalog(), catalog()[8].name) == Some(catalog()[8].points));
    assert(preset_named(catalog(), catalog()[9].name) == Some(catalog()[9].points));
    assert(preset_named(catalog(), catalog()[10].name) == Some(catalog()[10].points));
    assert(preset_named(catalog(), catalog()[11].name) == Some(catalog()[11].points));
}


/// The browser lists twelve presets in four categories, in this order:
/// four Hardstyle, three Hardcore, two Frenchcore and three Utility curves.
pub proof fn law_catalog_order_and_categories()
    ensures
        catalog().len() == 12,
        catalog()[0].name == "Hardstyle Pump"@ && catalog()[0].category == "Hardstyle"@,
        catalog()[1].name == "Reverse Pump"@ && catalog()[1].category == "Hardstyle"@,
        catalog()[2].name == "Kick Space"@ && catalog()[2].category == "Hardstyle"@,
        catalog()[3].name == "Rawstyle Crush"@ && catalog()[3].category == "Hardstyle"@,
        catalog()[4].name == "Hardcore Pump"@ && catalog()[4].category == "Hardcore"@,
        catalog()[5].name == "Hardcore Stutter"@ && catalog()[5].category == "Hardcore"@,
        catalog()[6].name == "Gabber Smash"@ && catalog()[6].category == "Hardcore"@,
        catalog()[7].name == "Frenchcore Pump"@ && catalog()[7].category == "Frenchcore"@,
        catalog()[8].name == "Snare Duck"@ && catalog()[8].category == "Frenchcore"@,
        catalog()[9].name == "Sine LFO"@ && catalog()[9].category == "Utility"@,
        catalog()[10].name == "Trance Gate"@ && catalog()[10].category == "Utility"@,
        catalog()[11].name == "Slow Breathe"@ && catalog()[11].category == "Utility"@,
{
    reveal(catalog);
}

} // verus!
