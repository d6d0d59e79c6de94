use vstd::prelude::*;

verus! {

/// Energy granted by each renewal; also the cap a record's energy never exceeds.
pub const ENERGY_PER_SUNRISE: u16 = 2400;

/// Energy a successful interaction costs its actor.
pub const ENERGY_PER_INTERACTION: u16 = 100;

/// Length of the renewal window, in seconds.
pub const SECONDS_PER_DAY: i64 = 86400;

/// A per-identity reputation record.
#[derive(Clone, Copy, Debug, PartialEq, Eq, Structural)]
pub struct Soul {
    /// Identity key of the record's owner; opaque to the engine.
    pub authority: u64,
    /// Cumulative signed reputation score, unbounded in both directions.
    pub karma: i64,
    /// Interaction budget left for the current day.
    pub energy: u16,
    /// Time of the last renewal, in seconds.
    pub sunrise: i64,
}

/// The mathematical image of a record: the same fields over unbounded integers.
pub ghost struct SoulModel {
    pub authority: int,
    pub karma: int,
    pub energy: int,
    pub sunrise: int,
}

impl View for Soul {
    type V = SoulModel;

    open spec fn view(&self) -> SoulModel {
        SoulModel {
            authority: self.authority as int,
            karma: self.karma as int,
            energy: self.energy as int,
            sunrise: self.sunrise as int,
        }
    }
}

/// Well-formedness of a record: its energy never leaves the daily budget's
/// range.
pub open spec fn soul_wf(s: SoulModel) -> bool {
    0 <= s.energy <= ENERGY_PER_SUNRISE as int
}

} // verus!
