//! The state-transition engine: pure, deterministic functions that take one
//! or two record snapshots and a single timestamp and produce the updated
//! snapshots, enforcing the gating rules.

use vstd::prelude::*;

use crate::soul::{Soul, SoulModel, ENERGY_PER_INTERACTION, ENERGY_PER_SUNRISE, SECONDS_PER_DAY};

verus! {

/// An interaction applies only while the actor still has energy and its last
/// renewal lies at most a day in the past.
pub open spec fn interaction_applies(active: SoulModel, now: int) -> bool {
    active.energy > 0 && now - active.sunrise <= SECONDS_PER_DAY as int
}

/// Energy left after paying for one interaction, clamped at zero.
pub open spec fn energy_after_spend(e: int) -> int {
    if e >= ENERGY_PER_INTERACTION as int {
        e - ENERGY_PER_INTERACTION as int
    } else {
        0
    }
}

/// The two records after an interaction of the given signed value: first the
/// passive one, then the active one. When the interaction does not apply,
/// both are unchanged.
pub open spec fn spec_interact(
    value: int,
    passive: SoulModel,
    active: SoulModel,
    now: int,
) -> (SoulModel, SoulModel) {
    if interaction_applies(active, now) {
        (
            SoulModel { karma: passive.karma + value, ..passive },
            SoulModel {
                karma: active.karma + value,
                energy: energy_after_spend(active.energy),
                ..active
            },
        )
    } else {
        (passive, active)
    }
}

/// Renewal is due once at least a full day has passed since the last one.
pub open spec fn renewal_due(s: SoulModel, now: int) -> bool {
    now - s.sunrise >= SECONDS_PER_DAY as int
}

/// The record after a renewal attempt: a full budget and a fresh timestamp
/// when due, untouched otherwise.
pub open spec fn spec_renew(s: SoulModel, now: int) -> SoulModel {
    if renewal_due(s, now) {
        SoulModel { energy: ENERGY_PER_SUNRISE as int, sunrise: now, ..s }
    } else {
        s
    }
}

/// A freshly created record: zero karma and a full day's energy.
pub open spec fn spec_create(authority: int, now: int) -> SoulModel {
    SoulModel { authority: authority, karma: 0, energy: ENERGY_PER_SUNRISE as int, sunrise: now }
}

/// Seconds elapsed between a record's last renewal and `now`.
pub fn seconds_since_last_sunrise(last_sunrise: i64, now: i64) -> (r: i64)
    requires
        i64::MIN <= now - last_sunrise <= i64::MAX,
    ensures
        r == now - last_sunrise,
{
    now - last_sunrise
}

/// Initializes the record owned by `authority`: zero karma, a full day's
/// energy, and the renewal clock started at `now`.
pub fn create(authority: u64, now: i64) -> (s: Soul)
    ensures
        s@ == spec_create(authority as int, now as int),
{
    Soul { authority: authority, karma: 0, energy: ENERGY_PER_SUNRISE, sunrise: now }
}

/// Applies one signed interaction: both records' karma moves by `value`, and
/// only the active record pays energy. An actor without energy, or one whose
/// last renewal lies more than a day back, makes the call a no-op.
///
/// Energy is checked only to be positive, not to cover a full interaction's
/// cost, so the decrement is clamped at zero: the budget can never leave its
/// range.
pub fn register_interaction(value: i64, passive_soul: &mut Soul, active_soul: &mut Soul, now: i64)
    requires
        value == 1 || value == -1,
        old(active_soul).energy > 0 ==> i64::MIN <= now - old(active_soul).sunrise <= i64::MAX,
        interaction_applies(old(active_soul)@, now as int) ==> i64::MIN
            <= old(active_soul).karma + value <= i64::MAX,
        interaction_applies(old(active_soul)@, now as int) ==> i64::MIN
            <= old(passive_soul).karma + value <= i64::MAX,
    ensures
        (*final(passive_soul))@ == spec_interact(
            value as int,
            (*old(passive_soul))@,
            (*old(active_soul))@,
            now as int,
        ).0,
        (*final(active_soul))@ == spec_interact(
            value as int,
            (*old(passive_soul))@,
            (*old(active_soul))@,
            now as int,
        ).1,
{
    if active_soul.energy == 0 {
        return ;
    }

    if seconds_since_last_sunrise(active_soul.sunrise, now) > SECONDS_PER_DAY {
        // A renewal is required before any further active interaction.
        return ;
    }

    active_soul.energy = if active_soul.energy >= ENERGY_PER_INTERACTION {
        active_soul.energy - ENERGY_PER_INTERACTION
    } else {
        0
    };

    passive_soul.karma = passive_soul.karma + value;
    active_soul.karma = active_soul.karma + value;
}

/// Records a praising interaction: both parties' karma moves up by one, at
/// the reporter's expense.
pub fn good(reported: &mut Soul, reporter: &mut Soul, now: i64)
    requires
        old(reporter).energy > 0 ==> i64::MIN <= now - old(reporter).sunrise <= i64::MAX,
        interaction_applies(old(reporter)@, now as int) ==> old(reporter).karma < i64::MAX,
        interaction_applies(old(reporter)@, now as int) ==> old(reported).karma < i64::MAX,
    ensures
        (*final(reported))@ == spec_interact(1, (*old(reported))@, (*old(reporter))@, now as int).0,
        (*final(reporter))@ == spec_interact(1, (*old(reported))@, (*old(reporter))@, now as int).1,
{
    register_interaction(1, reported, reporter, now);
}

/// Records an accusing interaction: both parties' karma moves down by one, at
/// the reporter's expense.
pub fn bad(reported: &mut Soul, reporter: &mut Soul, now: i64)
    requires
        old(reporter).energy > 0 ==> i64::MIN <= now - old(reporter).sunrise <= i64::MAX,
        interaction_applies(old(reporter)@, now as int) ==> i64::MIN < old(reporter).karma,
        interaction_applies(old(reporter)@, now as int) ==> i64::MIN < old(reported).karma,
    ensures
        (*final(reported))@ == spec_interact(-1, (*old(reported))@, (*old(reporter))@, now as int).0,
        (*final(reporter))@ == spec_interact(-1, (*old(reported))@, (*old(reporter))@, now as int).1,
{
    register_interaction(-1, reported, reporter, now);
}

/// Renews a record once a day: when a full day has passed since the last
/// renewal, resets energy to the full budget and restarts the clock at
/// `now`; otherwise changes nothing. Leftover energy is discarded, never
/// carried forward.
pub fn sunrise(soul: &mut Soul, now: i64)
    requires
        i64::MIN <= now - old(soul).sunrise <= i64::MAX,
    ensures
        (*final(soul))@ == spec_renew((*old(soul))@, now as int),
{
    if seconds_since_last_sunrise(soul.sunrise, now) < SECONDS_PER_DAY {
        // Renewal is possible only once a full day since the last one.
        return ;
    }

    soul.sunrise = now;
    soul.energy = ENERGY_PER_SUNRISE;
}

} // verus!
