//! Trigger modes, musical sync rates and the decision logic of the trigger
//! engine (when the phase is held, restarted, advanced or taken from the
//! transport).

use vstd::prelude::*;

verus! {

/// Trigger modes for the volume shaper.
#[derive(Debug, Clone, Copy, PartialEq, Eq, Structural)]
pub enum TriggerMode {
    Internal,
    Sidechain,
    Midi,
}

/// Musical sync rates (note divisions).
#[derive(Debug, Clone, Copy, PartialEq, Eq, Structural)]
pub enum SyncRate {
    Sixteenth,
    EighthTriplet,
    Eighth,
    DottedEighth,
    QuarterTriplet,
    Quarter,
    DottedQuarter,
    HalfTriplet,
    Half,
    DottedHalf,
    Whole,
    TwoBars,
    FourBars,
    Free,
}

impl SyncRate {
    /// Position of the rate in the parameter's range 0..=13.
    pub open spec fn ordinal(self) -> int {
        match self {
            SyncRate::Sixteenth => 0,
            SyncRate::EighthTriplet => 1,
            SyncRate::Eighth => 2,
            SyncRate::DottedEighth => 3,
            SyncRate::QuarterTriplet => 4,
            SyncRate::Quarter => 5,
            SyncRate::DottedQuarter => 6,
            SyncRate::HalfTriplet => 7,
            SyncRate::Half => 8,
            SyncRate::DottedHalf => 9,
            SyncRate::Whole => 10,
            SyncRate::TwoBars => 11,
            SyncRate::FourBars => 12,
            SyncRate::Free => 13,
        }
    }

    /// Beats (quarter notes) per cycle, as an exact fraction
    /// (numerator, denominator) in lowest terms.
    pub open spec fn beats(self) -> (int, int) {
        match self {
            SyncRate::Sixteenth => (1, 4),
            SyncRate::EighthTriplet => (1, 3),
            SyncRate::Eighth => (1, 2),
            SyncRate::DottedEighth => (3, 4),
            SyncRate::QuarterTriplet => (2, 3),
            SyncRate::Quarter => (1, 1),
            SyncRate::DottedQuarter => (3, 2),
            SyncRate::HalfTriplet => (4, 3),
            SyncRate::Half => (2, 1),
            SyncRate::DottedHalf => (3, 1),
            SyncRate::Whole => (4, 1),
            SyncRate::TwoBars => (8, 1),
            SyncRate::FourBars => (16, 1),
            SyncRate::Free => (1, 1),
        }
    }

    /// The label shown for the rate.
    pub open spec fn label_text(self) -> Seq<char> {
        match self {
            SyncRate::Sixteenth => "1/16"@,
            SyncRate::EighthTriplet => "1/8T"@,
            SyncRate::Eighth => "1/8"@,
            SyncRate::DottedEighth => "1/8D"@,
            SyncRate::QuarterTriplet => "1/4T"@,
            SyncRate::Quarter => "1/4"@,
            SyncRate::DottedQuarter => "1/4D"@,
            SyncRate::HalfTriplet => "1/2T"@,
            SyncRate::Half => "1/2"@,
            SyncRate::DottedHalf => "1/2D"@,
            SyncRate::Whole => "1/1"@,
            SyncRate::TwoBars => "2 bars"@,
            SyncRate::FourBars => "4 bars"@,
            SyncRate::Free => "Free"@,
        }
    }

    /// Every rate has an ordinal in 0..=13, and no two rates share one: the
    /// parameter values 0..=13 name the fourteen rates one to one.
    pub proof fn law_ordinal_is_one_to_one(a: SyncRate, b: SyncRate)
        ensures
            0 <= a.ordinal() <= 13,
            a.ordinal() == b.ordinal() ==> a == b,
    {
    }

    /// Returns the number of beats (quarter notes) per cycle as the exact
    /// fraction `(numerator, denominator)`; the free rate counts one beat,
    /// which it never uses.
    pub fn to_beats(self) -> (r: (u32, u32))
        ensures
            r.0 == self.beats().0,
            r.1 == self.beats().1,
    {
        match self {
            SyncRate::Sixteenth => (1, 4),
            SyncRate::EighthTriplet => (1, 3),
            SyncRate::Eighth => (1, 2),
            SyncRate::DottedEighth => (3, 4),
            SyncRate::QuarterTriplet => (2, 3),
            SyncRate::Quarter => (1, 1),
            SyncRate::DottedQuarter => (3, 2),
            SyncRate::HalfTriplet => (4, 3),
            SyncRate::Half => (2, 1),
            SyncRate::DottedHalf => (3, 1),
            SyncRate::Whole => (4, 1),
            SyncRate::TwoBars => (8, 1),
            SyncRate::FourBars => (16, 1),
            SyncRate::Free => (1, 1),
        }
    }

    /// Convert an integer parameter value (0..=13) to a sync rate; any other
    /// value gives a quarter note.
    pub fn from_index(i: i32) -> (r: Self)
        ensures
            0 <= i <= 13 ==> r.ordinal() == i,
            !(0 <= i <= 13) ==> r == SyncRate::Quarter,
    {
        match i {
            0 => SyncRate::Sixteenth,
            1 => SyncRate::EighthTriplet,
            2 => SyncRate::Eighth,
            3 => SyncRate::DottedEighth,
            4 => SyncRate::QuarterTriplet,
            5 => SyncRate::Quarter,
            6 => SyncRate::DottedQuarter,
            7 => SyncRate::HalfTriplet,
            8 => SyncRate::Half,
            9 => SyncRate::DottedHalf,
            10 => SyncRate::Whole,
            11 => SyncRate::TwoBars,
            12 => SyncRate::FourBars,
            13 => SyncRate::Free,
            _ => SyncRate::Quarter,
        }
    }

    /// The label shown for the rate, such as "1/8T" or "2 bars".
    pub fn label(self) -> (r: &'static str)
        ensures
            r@ == self.label_text(),
    {
        match self {
            SyncRate::Sixteenth => "1/16",
            SyncRate::EighthTriplet => "1/8T",
            SyncRate::Eighth => "1/8",
            SyncRate::DottedEighth => "1/8D",
            SyncRate::QuarterTriplet => "1/4T",
            SyncRate::Quarter => "1/4",
            SyncRate::DottedQuarter => "1/4D",
            SyncRate::HalfTriplet => "1/2T",
            SyncRate::Half => "1/2",
            SyncRate::DottedHalf => "1/2D",
            SyncRate::Whole => "1/1",
            SyncRate::TwoBars => "2 bars",
            SyncRate::FourBars => "4 bars",
            SyncRate::Free => "Free",
        }
    }
}


/// The rates in parameter order, with their labels and beats per cycle:
/// index 0 is a sixteenth note (a quarter beat), index 5 a quarter note (one
/// beat), index 12 four bars (sixteen beats) and index 13 the free rate.
pub proof fn law_sync_rate_table()
    ensures
        SyncRate::Sixteenth.ordinal() == 0 && SyncRate::Sixteenth.label_text() == "1/16"@ && SyncRate::Sixteenth.beats() == (1int, 4int),
        SyncRate::EighthTriplet.ordinal() == 1 && SyncRate::EighthTriplet.label_text() == "1/8T"@ && SyncRate::EighthTriplet.beats() == (1int, 3int),
        SyncRate::Eighth.ordinal() == 2 && SyncRate::Eighth.label_text() == "1/8"@ && SyncRate::Eighth.beats() == (1int, 2int),
        SyncRate::DottedEighth.ordinal() == 3 && SyncRate::DottedEighth.label_text() == "1/8D"@ && SyncRate::DottedEighth.beats() == (3int, 4int),
        SyncRate::QuarterTriplet.ordinal() == 4 && SyncRate::QuarterTriplet.label_text() == "1/4T"@ && SyncRate::QuarterTriplet.beats() == (2int, 3int),
        SyncRate::Quarter.ordinal() == 5 && SyncRate::Quarter.label_text() == "1/4"@ && SyncRate::Quarter.beats() == (1int, 1int),
        SyncRate::DottedQuarter.ordinal() == 6 && SyncRate::DottedQuarter.label_text() == "1/4D"@ && SyncRate::DottedQuarter.beats() == (3int, 2int),
        SyncRate::HalfTriplet.ordinal() == 7 && SyncRate::HalfTriplet.label_text() == "1/2T"@ && SyncRate::HalfTriplet.beats() == (4int, 3int),
        SyncRate::Half.ordinal() == 8 && SyncRate::Half.label_text() == "1/2"@ && SyncRate::Half.beats() == (2int, 1int),
        SyncRate::DottedHalf.ordinal() == 9 && SyncRate::DottedHalf.label_text() == "1/2D"@ && SyncRate::DottedHalf.beats() == (3int, 1int),
        SyncRate::Whole.ordinal() == 10 && SyncRate::Whole.label_text() == "1/1"@ && SyncRate::Whole.beats() == (4int, 1int),
        SyncRate::TwoBars.ordinal() == 11 && SyncRate::TwoBars.label_text() == "2 bars"@ && SyncRate::TwoBars.beats() == (8int, 1int),
        SyncRate::FourBars.ordinal() == 12 && SyncRate::FourBars.label_text() == "4 bars"@ && SyncRate::FourBars.beats() == (16int, 1int),
        SyncRate::Free.ordinal() == 13 && SyncRate::Free.label_text() == "Free"@ && SyncRate::Free.beats() == (1int, 1int),
{
}

/// How the phase moves on a tick where it advances.
#[derive(Debug, Clone, Copy, PartialEq, Eq, Structural)]
pub enum PhaseMotion {
    /// By the free-running rate in Hz.
    Free,
    /// By the tempo and the musical sync rate.
    Synced,
}

/// What the trigger engine does with its phase on one sample.
#[derive(Debug, Clone, Copy, PartialEq, Eq, Structural)]
pub enum TickAction {
    /// The transport is stopped: the phase stays where it is.
    Hold,
    /// The phase is taken from the transport position (internal mode with a
    /// musical rate).
    FollowTransport,
    /// The phase restarts from 0 first when `restart` holds, then advances by
    /// one sample as `motion` says.
    Advance { restart: bool, motion: PhaseMotion },
}

/// The trigger engine's state apart from its phase and rates.
#[derive(Debug, Clone, Copy, PartialEq, Eq, Structural)]
pub struct TriggerFlags {
    /// Whether the host transport is playing.
    pub playing: bool,
    /// Whether the sidechain envelope was above the threshold on the last
    /// sidechain tick.
    pub sc_was_above: bool,
    /// Whether a MIDI note-on is waiting to restart the phase.
    pub midi_retrigger: bool,
}

/// The motion a rate gives: free-running for `Free`, tempo-synced otherwise.
pub open spec fn motion_for(sync_rate: SyncRate) -> PhaseMotion {
    if sync_rate == SyncRate::Free {
        PhaseMotion::Free
    } else {
        PhaseMotion::Synced
    }
}

/// One tick of the trigger engine: the action on the phase and the state
/// after it. `sc_above` is whether the sidechain envelope, updated for this
/// sample, is above the threshold; only the sidechain mode reads it.
pub open spec fn tick_spec(
    s: TriggerFlags,
    mode: TriggerMode,
    sync_rate: SyncRate,
    sc_above: bool,
) -> (TickAction, TriggerFlags) {
    if !s.playing {
        (TickAction::Hold, s)
    } else {
        match mode {
            TriggerMode::Internal => (
                if sync_rate == SyncRate::Free {
                    TickAction::Advance { restart: false, motion: PhaseMotion::Free }
                } else {
                    TickAction::FollowTransport
                },
                s,
            ),
            TriggerMode::Sidechain => (
                TickAction::Advance {
                    restart: sc_above && !s.sc_was_above,
                    motion: motion_for(sync_rate),
                },
                TriggerFlags { sc_was_above: sc_above, ..s },
            ),
            TriggerMode::Midi => (
                TickAction::Advance { restart: s.midi_retrigger, motion: motion_for(sync_rate) },
                TriggerFlags { midi_retrigger: false, ..s },
            ),
        }
    }
}

/// The state after a run of ticks, each given as (mode, sync rate, sidechain
/// above the threshold).
pub open spec fn run_spec(s: TriggerFlags, ticks: Seq<(TriggerMode, SyncRate, bool)>) -> TriggerFlags
    decreases ticks.len(),
{
    if ticks.len() == 0 {
        s
    } else {
        let t = ticks[0];
        run_spec(tick_spec(s, t.0, t.1, t.2).1, ticks.drop_first())
    }
}

/// Decision logic of the trigger engine: transport state, sidechain edge
/// memory and the pending MIDI retrigger.
pub struct TriggerLogic {
    playing: bool,
    sc_was_above: bool,
    midi_retrigger: bool,
}

impl View for TriggerLogic {
    type V = TriggerFlags;

    closed spec fn view(&self) -> TriggerFlags {
        TriggerFlags {
            playing: self.playing,
            sc_was_above: self.sc_was_above,
            midi_retrigger: self.midi_retrigger,
        }
    }
}

impl TriggerLogic {
    /// Trigger logic with the transport stopped and nothing pending.
    pub fn new() -> (g: Self)
        ensures
            g@ == (TriggerFlags { playing: false, sc_was_above: false, midi_retrigger: false }),
    {
        TriggerLogic { playing: false, sc_was_above: false, midi_retrigger: false }
    }

    /// Forget the sidechain edge and any pending MIDI retrigger; the
    /// transport state stays.
    pub fn reset(&mut self)
        ensures
            final(self)@ == (TriggerFlags {
                playing: old(self)@.playing,
                sc_was_above: false,
                midi_retrigger: false,
            }),
    {
        self.sc_was_above = false;
        self.midi_retrigger = false;
    }

    /// Record whether the host transport is playing.
    pub fn set_playing(&mut self, playing: bool)
        ensures
            final(self)@ == (TriggerFlags { playing, ..old(self)@ }),
    {
        self.playing = playing;
    }

    /// Whether the host transport is playing.
    pub fn is_playing(&self) -> (r: bool)
        ensures
            r == self@.playing,
    {
        self.playing
    }

    /// A MIDI note-on: the next MIDI-mode tick restarts the phase.
    pub fn midi_note_on(&mut self)
        ensures
            final(self)@ == (TriggerFlags { midi_retrigger: true, ..old(self)@ }),
    {
        self.midi_retrigger = true;
    }

    /// Decide one sample: what happens to the phase, and update the edge
    /// memory and the pending retrigger.
    pub fn tick(&mut self, mode: TriggerMode, sync_rate: SyncRate, sc_above: bool) -> (r:
        TickAction)
        ensures
            (r, final(self)@) == tick_spec(old(self)@, mode, sync_rate, sc_above),
            old(self)@.playing && mode == TriggerMode::Internal && sync_rate != SyncRate::Free
                ==> r == TickAction::FollowTransport,
            old(self)@.playing && mode != TriggerMode::Internal && sync_rate != SyncRate::Free
                ==> (r matches TickAction::Advance { motion: PhaseMotion::Synced, .. }),
            old(self)@.playing && mode != TriggerMode::Internal && sync_rate == SyncRate::Free
                ==> (r matches TickAction::Advance { motion: PhaseMotion::Free, .. }),
    {
        if !self.playing {
            return TickAction::Hold;
        }
        let motion = if sync_rate == SyncRate::Free {
            PhaseMotion::Free
        } else {
            PhaseMotion::Synced
        };
        match mode {
            TriggerMode::Internal => {
                if sync_rate == SyncRate::Free {
                    TickAction::Advance { restart: false, motion: PhaseMotion::Free }
                } else {
                    TickAction::FollowTransport
                }
            },
            TriggerMode::Sidechain => {
                let restart = sc_above && !self.sc_was_above;
                self.sc_was_above = sc_above;
                TickAction::Advance { restart, motion }
            },
            TriggerMode::Midi => {
                let restart = self.midi_retrigger;
                self.midi_retrigger = false;
                TickAction::Advance { restart, motion }
            },
        }
    }
}

/// A paused host freezes the playhead in every trigger mode: with the
/// transport stopped every tick answers `Hold`, and the flags stay as they are
/// through any run of ticks.
pub proof fn law_stopped_transport_freezes(s: TriggerFlags, ticks: Seq<(TriggerMode, SyncRate, bool)>)
    requires
        !s.playing,
    ensures
        run_spec(s, ticks) == s,
        forall|i: int|
            0 <= i < ticks.len() ==> #[trigger] tick_spec(s, ticks[i].0, ticks[i].1, ticks[i].2)
                == (TickAction::Hold, s),
    decreases ticks.len(),
{
    if ticks.len() > 0 {
        law_stopped_transport_freezes(s, ticks.drop_first());
    }
}

/// While the transport plays, internal mode is locked to the host: with a
/// musical rate every tick follows the transport, with the free rate it
/// advances without restarting, and in neither case does it read the
/// sidechain or answer `Hold`.
pub proof fn law_internal_mode_follows_the_host(
    s: TriggerFlags,
    sync_rate: SyncRate,
    sc_above: bool,
)
    requires
        s.playing,
    ensures
        sync_rate != SyncRate::Free ==> tick_spec(s, TriggerMode::Internal, sync_rate, sc_above).0
            == TickAction::FollowTransport,
        sync_rate == SyncRate::Free ==> tick_spec(s, TriggerMode::Internal, sync_rate, sc_above).0
            == (TickAction::Advance { restart: false, motion: PhaseMotion::Free }),
        tick_spec(s, TriggerMode::Internal, sync_rate, sc_above) == tick_spec(
            s,
            TriggerMode::Internal,
            sync_rate,
            !sc_above,
        ),
        tick_spec(s, TriggerMode::Internal, sync_rate, sc_above).0 != TickAction::Hold,
{
}

/// In sidechain and MIDI mode, while playing, the phase always advances, and
/// how it moves depends on the rate alone: every one of the thirteen musical
/// rates is tempo-synced and only the free rate runs at its rate in Hz. Two
/// musical rates move the phase the same way, in both modes.
pub proof fn law_musical_rates_are_tempo_synced(
    s: TriggerFlags,
    mode: TriggerMode,
    a: SyncRate,
    b: SyncRate,
    sc_above: bool,
)
    requires
        s.playing,
        mode != TriggerMode::Internal,
    ensures
        a != SyncRate::Free ==> (tick_spec(s, mode, a, sc_above).0 matches TickAction::Advance {
            motion: PhaseMotion::Synced,
            ..
        }),
        a == SyncRate::Free ==> (tick_spec(s, mode, a, sc_above).0 matches TickAction::Advance {
            motion: PhaseMotion::Free,
            ..
        }),
        a != SyncRate::Free && b != SyncRate::Free ==> tick_spec(s, mode, a, sc_above) == tick_spec(
            s,
            mode,
            b,
            sc_above,
        ),
        motion_for(a) == PhaseMotion::Synced <==> a != SyncRate::Free,
{
}

/// A run of internal-mode ticks leaves the flags as they were: that mode reads
/// neither the sidechain edge nor the waiting MIDI retrigger.
pub proof fn law_internal_mode_keeps_state(s: TriggerFlags, ticks: Seq<(TriggerMode, SyncRate, bool)>)
    requires
        forall|i: int| 0 <= i < ticks.len() ==> #[trigger] ticks[i].0 == TriggerMode::Internal,
    ensures
        run_spec(s, ticks) == s,
    decreases ticks.len(),
{
    if ticks.len() > 0 {
        assert(ticks[0].0 == TriggerMode::Internal);
        assert forall|i: int| 0 <= i < ticks.drop_first().len() implies #[trigger] ticks.drop_first()[i].0
            == TriggerMode::Internal by {
            assert(ticks.drop_first()[i] == ticks[i + 1]);
        }
        law_internal_mode_keeps_state(s, ticks.drop_first());
    }
}

/// In sidechain mode the phase restarts only on a rising edge: after a tick
/// above the threshold, a further tick above it does not restart, and a tick
/// restarts exactly when the envelope crosses from below to above.
pub proof fn law_sidechain_restarts_on_rising_edge(
    s: TriggerFlags,
    sync_rate: SyncRate,
    first_above: bool,
    second_above: bool,
)
    requires
        s.playing,
    ensures
        ({
            let (a1, s1) = tick_spec(s, TriggerMode::Sidechain, sync_rate, first_above);
            let (a2, s2) = tick_spec(s1, TriggerMode::Sidechain, sync_rate, second_above);
            &&& a1 == TickAction::Advance {
                restart: first_above && !s.sc_was_above,
                motion: motion_for(sync_rate),
            }
            &&& a2 == TickAction::Advance {
                restart: second_above && !first_above,
                motion: motion_for(sync_rate),
            }
            &&& (first_above && second_above ==> a2 == TickAction::Advance {
                restart: false,
                motion: motion_for(sync_rate),
            })
            &&& s2.midi_retrigger == s.midi_retrigger
            &&& s2.playing == s.playing
        }),
{
}

/// A MIDI note-on restarts the phase once: the next MIDI-mode tick while
/// playing restarts it, and the tick after that does not.
pub proof fn law_midi_note_restarts_once(s: TriggerFlags, sync_rate: SyncRate)
    requires
        s.playing,
    ensures
        ({
            let pending = TriggerFlags { midi_retrigger: true, ..s };
            let (a1, s1) = tick_spec(pending, TriggerMode::Midi, sync_rate, false);
            let (a2, s2) = tick_spec(s1, TriggerMode::Midi, sync_rate, false);
            &&& a1 == TickAction::Advance { restart: true, motion: motion_for(sync_rate) }
            &&& a2 == TickAction::Advance { restart: false, motion: motion_for(sync_rate) }
            &&& !s2.midi_retrigger
        }),
{
}

/// A note-on that arrives while the transport is stopped is kept: after any
/// run of stopped ticks, the first MIDI-mode tick once playback resumes
/// restarts the phase.
pub proof fn law_note_on_survives_stopped_transport(
    s: TriggerFlags,
    ticks: Seq<(TriggerMode, SyncRate, bool)>,
    sync_rate: SyncRate,
)
    requires
        !s.playing,
    ensures
        ({
            let pending = TriggerFlags { midi_retrigger: true, ..s };
            let resumed = TriggerFlags { playing: true, ..run_spec(pending, ticks) };
            tick_spec(resumed, TriggerMode::Midi, sync_rate, false).0 == TickAction::Advance {
                restart: true,
                motion: motion_for(sync_rate),
            }
        }),
{
    law_stopped_transport_freezes(TriggerFlags { midi_retrigger: true, ..s }, ticks);
}

/// After a reset, with the transport playing, the first sidechain tick above
/// the threshold restarts the phase and a MIDI-mode tick does not.
pub proof fn law_reset_clears_pending_triggers(s: TriggerFlags, sync_rate: SyncRate)
    requires
        s.playing,
    ensures
        ({
            let r = TriggerFlags { playing: s.playing, sc_was_above: false, midi_retrigger: false };
            &&& tick_spec(r, TriggerMode::Sidechain, sync_rate, true).0 == TickAction::Advance {
                restart: true,
                motion: motion_for(sync_rate),
            }
            &&& tick_spec(r, TriggerMode::Midi, sync_rate, false).0 == TickAction::Advance {
                restart: false,
                motion: motion_for(sync_rate),
            }
        }),
{
}

} // verus!
