//! Identifiers of the parameters that the editor may set.

use vstd::prelude::*;

use crate::text::str_eq;

verus! {

/// A host-automatable parameter, named by the id the editor sends.
#[derive(Debug, Clone, Copy, PartialEq, Eq, Structural)]
pub enum ParamId {
    Enabled,
    InputGain,
    OutputGain,
    Mix,
    Depth,
    TriggerMode,
    SyncRate,
    RateHz,
    PhaseOffset,
    ScThreshold,
    ScAttack,
    ScRelease,
    Multiband,
    XoverLow,
    XoverHigh,
    DepthLow,
    DepthMid,
    DepthHigh,
}

impl ParamId {
    /// The id string of the parameter.
    pub open spec fn id_text(self) -> Seq<char> {
        match self {
            ParamId::Enabled => "enabled"@,
            ParamId::InputGain => "input_gain"@,
            ParamId::OutputGain => "output_gain"@,
            ParamId::Mix => "mix"@,
            ParamId::Depth => "depth"@,
            ParamId::TriggerMode => "trigger_mode"@,
            ParamId::SyncRate => "sync_rate"@,
            ParamId::RateHz => "rate_hz"@,
            ParamId::PhaseOffset => "phase_offset"@,
            ParamId::ScThreshold => "sc_threshold"@,
            ParamId::ScAttack => "sc_attack"@,
            ParamId::ScRelease => "sc_release"@,
            ParamId::Multiband => "multiband"@,
            ParamId::XoverLow => "xover_low"@,
            ParamId::XoverHigh => "xover_high"@,
            ParamId::DepthLow => "depth_low"@,
            ParamId::DepthMid => "depth_mid"@,
            ParamId::DepthHigh => "depth_high"@,
        }
    }

    /// The id string of the parameter, as the host and the editor know it.
    pub fn id(self) -> (r: &'static str)
        ensures
            r@ == self.id_text(),
    {
        match self {
            ParamId::Enabled => "enabled",
            ParamId::InputGain => "input_gain",
            ParamId::OutputGain => "output_gain",
            ParamId::Mix => "mix",
            ParamId::Depth => "depth",
            ParamId::TriggerMode => "trigger_mode",
            ParamId::SyncRate => "sync_rate",
            ParamId::RateHz => "rate_hz",
            ParamId::PhaseOffset => "phase_offset",
            ParamId::ScThreshold => "sc_threshold",
            ParamId::ScAttack => "sc_attack",
            ParamId::ScRelease => "sc_release",
            ParamId::Multiband => "multiband",
            ParamId::XoverLow => "xover_low",
            ParamId::XoverHigh => "xover_high",
            ParamId::DepthLow => "depth_low",
            ParamId::DepthMid => "depth_mid",
            ParamId::DepthHigh => "depth_high",
        }
    }

    /// No two parameters share an id.
    pub proof fn law_ids_distinct(a: ParamId, b: ParamId)
        ensures
            a != b ==> a.id_text() != b.id_text(),
    {
        reveal_strlit("enabled");
        reveal_strlit("input_gain");
        reveal_strlit("output_gain");
        reveal_strlit("mix");
        reveal_strlit("depth");
        reveal_strlit("trigger_mode");
        reveal_strlit("sync_rate");
        reveal_strlit("rate_hz");
        reveal_strlit("phase_offset");
        reveal_strlit("sc_threshold");
        reveal_strlit("sc_attack");
        reveal_strlit("sc_release");
        reveal_strlit("multiband");
        reveal_strlit("xover_low");
        reveal_strlit("xover_high");
        reveal_strlit("depth_low");
        reveal_strlit("depth_mid");
        reveal_strlit("depth_high");
        assert(a != b ==> a.id_text().len() != b.id_text().len() || a.id_text()[0] != b.id_text()[0]
            || a.id_text()[1] != b.id_text()[1] || a.id_text()[6] != b.id_text()[6]);
    }
}

/// The parameter whose id is `id`, if there is one.
pub open spec fn param_named(id: Seq<char>) -> Option<ParamId> {
    if exists|p: ParamId| #[trigger] p.id_text() == id {
        Some(choose|p: ParamId| #[trigger] p.id_text() == id)
    } else {
        None
    }
}

/// The parameter whose id is `id`, or `None` for an id that names no
/// parameter.
pub fn param_from_id(id: &str) -> (r: Option<ParamId>)
    ensures
        r == param_named(id@),
{
    if str_eq(id, "enabled") {
        proof {
            law_id_lookup_round_trip(ParamId::Enabled);
        }
        return Some(ParamId::Enabled);
    }
    if str_eq(id, "input_gain") {
        proof {
            law_id_lookup_round_trip(ParamId::InputGain);
        }
        return Some(ParamId::InputGain);
    }
    if str_eq(id, "output_gain") {
        proof {
            law_id_lookup_round_trip(ParamId::OutputGain);
        }
        return Some(ParamId::OutputGain);
    }
    if str_eq(id, "mix") {
        proof {
            law_id_lookup_round_trip(ParamId::Mix);
        }
        return Some(ParamId::Mix);
    }
    if str_eq(id, "depth") {
        proof {
            law_id_lookup_round_trip(ParamId::Depth);
        }
        return Some(ParamId::Depth);
    }
    if str_eq(id, "trigger_mode") {
        proof {
            law_id_lookup_round_trip(ParamId::TriggerMode);
        }
        return Some(ParamId::TriggerMode);
    }
    if str_eq(id, "sync_rate") {
        proof {
            law_id_lookup_round_trip(ParamId::SyncRate);
        }
        return Some(ParamId::SyncRate);
    }
    if str_eq(id, "rate_hz") {
        proof {
            law_id_lookup_round_trip(ParamId::RateHz);
        }
        return Some(ParamId::RateHz);
    }
    if str_eq(id, "phase_offset") {
        proof {
            law_id_lookup_round_trip(ParamId::PhaseOffset);
        }
        return Some(ParamId::PhaseOffset);
    }
    if str_eq(id, "sc_threshold") {
        proof {
            law_id_lookup_round_trip(ParamId::ScThreshold);
        }
        return Some(ParamId::ScThreshold);
    }
    if str_eq(id, "sc_attack") {
        proof {
            law_id_lookup_round_trip(ParamId::ScAttack);
        }
        return Some(ParamId::ScAttack);
    }
    if str_eq(id, "sc_release") {
        proof {
            law_id_lookup_round_trip(ParamId::ScRelease);
        }
        return Some(ParamId::ScRelease);
    }
    if str_eq(id, "multiband") {
        proof {
            law_id_lookup_round_trip(ParamId::Multiband);
        }
        return Some(ParamId::Multiband);
    }
    if str_eq(id, "xover_low") {
        proof {
            law_id_lookup_round_trip(ParamId::XoverLow);
        }
        return Some(ParamId::XoverLow);
    }
    if str_eq(id, "xover_high") {
        proof {
            law_id_lookup_round_trip(ParamId::XoverHigh);
        }
        return Some(ParamId::XoverHigh);
    }
    if str_eq(id, "depth_low") {
        proof {
            law_id_lookup_round_trip(ParamId::DepthLow);
        }
        return Some(ParamId::DepthLow);
    }
    if str_eq(id, "depth_mid") {
        proof {
            law_id_lookup_round_trip(ParamId::DepthMid);
        }
        return Some(ParamId::DepthMid);
    }
    if str_eq(id, "depth_high") {
        proof {
            law_id_lookup_round_trip(ParamId::DepthHigh);
        }
        return Some(ParamId::DepthHigh);
    }
    None
}

/// Looking up the id of any parameter gives that parameter back.
pub proof fn law_id_lookup_round_trip(p: ParamId)
    ensures
        param_named(p.id_text()) == Some(p),
{
    let q = choose|q: ParamId| #[trigger] q.id_text() == p.id_text();
    ParamId::law_ids_distinct(p, q);
}


/// Each parameter's id is its name as the host knows it, in snake case:
/// the three band depths are "depth_low", "depth_mid" and "depth_high", the
/// two crossover points "xover_low" and "xover_high", and so on for every
/// parameter.
pub proof fn law_ids_are_the_parameter_names()
    ensures
        ParamId::Enabled.id_text() == "enabled"@,
        ParamId::InputGain.id_text() == "input_gain"@,
        ParamId::OutputGain.id_text() == "output_gain"@,
        ParamId::Mix.id_text() == "mix"@,
        ParamId::Depth.id_text() == "depth"@,
        ParamId::TriggerMode.id_text() == "trigger_mode"@,
        ParamId::SyncRate.id_text() == "sync_rate"@,
        ParamId::RateHz.id_text() == "rate_hz"@,
        ParamId::PhaseOffset.id_text() == "phase_offset"@,
        ParamId::ScThreshold.id_text() == "sc_threshold"@,
        ParamId::ScAttack.id_text() == "sc_attack"@,
        ParamId::ScRelease.id_text() == "sc_release"@,
        ParamId::Multiband.id_text() == "multiband"@,
        ParamId::XoverLow.id_text() == "xover_low"@,
        ParamId::XoverHigh.id_text() == "xover_high"@,
        ParamId::DepthLow.id_text() == "depth_low"@,
        ParamId::DepthMid.id_text() == "depth_mid"@,
        ParamId::DepthHigh.id_text() == "depth_high"@,
{
}

/// The band parameters are told apart by their band: the low, mid and high
/// depths share the "depth_" prefix and end in their band's name, and so do
/// the two crossover points with "xover_".
pub proof fn law_band_ids_name_their_band()
    ensures
        ParamId::DepthLow.id_text() == "depth_"@ + "low"@,
        ParamId::DepthMid.id_text() == "depth_"@ + "mid"@,
        ParamId::DepthHigh.id_text() == "depth_"@ + "high"@,
        ParamId::XoverLow.id_text() == "xover_"@ + "low"@,
        ParamId::XoverHigh.id_text() == "xover_"@ + "high"@,
{
    reveal_strlit("depth_low");
    reveal_strlit("depth_mid");
    reveal_strlit("depth_high");
    reveal_strlit("xover_low");
    reveal_strlit("xover_high");
    reveal_strlit("depth_");
    reveal_strlit("xover_");
    reveal_strlit("low");
    reveal_strlit("mid");
    reveal_strlit("high");
    assert(ParamId::DepthLow.id_text() =~= "depth_"@ + "low"@);
    assert(ParamId::DepthMid.id_text() =~= "depth_"@ + "mid"@);
    assert(ParamId::DepthHigh.id_text() =~= "depth_"@ + "high"@);
    assert(ParamId::XoverLow.id_text() =~= "xover_"@ + "low"@);
    assert(ParamId::XoverHigh.id_text() =~= "xover_"@ + "high"@);
}

} // verus!
