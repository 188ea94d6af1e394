//! Verified core of the PumpControl volume shaper: trigger decisions, sync
//! rates, the built-in curve presets, parameter identifiers and the editor's
//! size rules.

pub mod trigger;
mod text;
pub mod curve;
pub mod presets;
pub mod param_ids;
pub mod editor_size;
pub mod update_counter;
