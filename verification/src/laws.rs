//! The engine's laws: properties that hold of every record and every
//! transition, stated over the mathematical model and proved once and for
//! all.

use vstd::prelude::*;

use crate::engine::{interaction_applies, renewal_due, spec_create, spec_interact, spec_renew};
use crate::soul::{soul_wf, SoulModel, ENERGY_PER_SUNRISE, SECONDS_PER_DAY};

verus! {

/// Creation establishes the energy invariant: a fresh record's energy lies
/// within the daily budget.
pub proof fn lemma_create_wf(authority: int, now: int)
    ensures
        soul_wf(spec_create(authority, now)),
{
}

/// An interaction keeps both records' energy within the daily budget,
/// whether or not it applies.
pub proof fn lemma_interact_wf(value: int, passive: SoulModel, active: SoulModel, now: int)
    requires
        soul_wf(passive),
        soul_wf(active),
    ensures
        soul_wf(spec_interact(value, passive, active, now).0),
        soul_wf(spec_interact(value, passive, active, now).1),
{
}

/// A renewal keeps the record's energy within the daily budget.
pub proof fn lemma_renew_wf(s: SoulModel, now: int)
    requires
        soul_wf(s),
    ensures
        soul_wf(spec_renew(s, now)),
{
}

/// An interaction that applies moves both parties' karma by the same amount,
/// and that amount is the interaction's own signed value.
pub proof fn lemma_interact_symmetric(value: int, passive: SoulModel, active: SoulModel, now: int)
    requires
        interaction_applies(active, now),
    ensures
        spec_interact(value, passive, active, now).0.karma - passive.karma == value,
        spec_interact(value, passive, active, now).1.karma - active.karma == value,
{
}

/// A renewal that is due resets energy to exactly the full budget and stamps
/// the renewal time, whatever the record held before.
pub proof fn lemma_renew_resets_energy(s: SoulModel, now: int)
    requires
        renewal_due(s, now),
    ensures
        spec_renew(s, now).energy == ENERGY_PER_SUNRISE as int,
        spec_renew(s, now).sunrise == now,
{
}

/// A second renewal within a day of a successful one changes nothing.
pub proof fn lemma_renew_idempotent(s: SoulModel, t1: int, t2: int)
    requires
        renewal_due(s, t1),
        t1 <= t2,
        t2 - t1 < SECONDS_PER_DAY as int,
    ensures
        spec_renew(spec_renew(s, t1), t2) == spec_renew(s, t1),
{
}

/// A record's renewal time never moves backwards.
pub proof fn lemma_renew_monotonic(s: SoulModel, now: int)
    ensures
        s.sunrise <= spec_renew(s, now).sunrise,
{
}

} // verus!
