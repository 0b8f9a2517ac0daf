//! Laws of the state machine over whole runs.
//!
//! A run folds [`spec_tick`] over a sequence of cursor readings under a
//! fixed window occupancy.  The proof functions here state the guarantees
//! of the idle policy: the counter climbs by exactly one per unchanged
//! tick, movement resets it, the warning and the suspend each fire on
//! exactly one tick of an uninterrupted idle episode, and the suspend tick
//! resets the counter.

use vstd::prelude::*;

use crate::machine::spec_tick;
use crate::machine::IdleAction;
use crate::machine::Model;
use crate::policy::spec_hibernate_secs;
use crate::policy::spec_warning_secs;

verus! {

/// The session state after the machine has consumed `readings`, one tick
/// per reading, the last element last, under constant window occupancy.
pub open spec fn run_state(m: Model, readings: Seq<Seq<char>>, windows: bool) -> Model
    decreases readings.len(),
{
    if readings.len() == 0 {
        m
    } else {
        spec_tick(run_state(m, readings.drop_last(), windows), readings.last(), windows).0
    }
}

/// The action fired on the tick that consumes `readings[i]`.
pub open spec fn run_action(m: Model, readings: Seq<Seq<char>>, windows: bool, i: int) -> IdleAction
    recommends
        0 <= i < readings.len(),
{
    spec_tick(run_state(m, readings.take(i), windows), readings[i], windows).1
}

/// An unchanged cursor reading whose bumped counter does not hit the
/// suspend threshold increments the idle counter by exactly 1, keeps the
/// stored reading, and never suspends — this holds at the warning tick
/// too, so the counter keeps climbing past a fired warning.
pub proof fn lemma_idle_step(m: Model, pos: Seq<char>, windows: bool)
    requires
        pos == m.last,
        m.idle + 1 != spec_hibernate_secs(windows),
    ensures
        spec_tick(m, pos, windows).0.idle == m.idle + 1,
        spec_tick(m, pos, windows).0.last == m.last,
        spec_tick(m, pos, windows).1 != IdleAction::Suspend,
{
}

/// A changed cursor reading resets the idle counter to 1, stores the new
/// reading, and fires no threshold action on that tick.
pub proof fn lemma_movement_resets(m: Model, pos: Seq<char>, windows: bool)
    requires
        pos != m.last,
    ensures
        spec_tick(m, pos, windows).0.idle == 1,
        spec_tick(m, pos, windows).0.last == pos,
        spec_tick(m, pos, windows).1 == IdleAction::NoAction,
{
}

/// Over any run of unchanged readings that never reaches the suspend
/// threshold — because the counter stays below it throughout, or was
/// already past it — the idle counter increases by exactly 1 per tick:
/// after the run it has grown by the number of ticks, and the stored
/// reading is unchanged.
pub proof fn lemma_idle_climb(m: Model, readings: Seq<Seq<char>>, windows: bool)
    requires
        forall|j: int| 0 <= j < readings.len() ==> readings[j] == m.last,
        spec_hibernate_secs(windows) <= m.idle || m.idle + readings.len() < spec_hibernate_secs(
            windows,
        ),
    ensures
        run_state(m, readings, windows).idle == m.idle + readings.len(),
        run_state(m, readings, windows).last == m.last,
    decreases readings.len(),
{
    if readings.len() > 0 {
        let prefix = readings.drop_last();
        assert(forall|j: int| 0 <= j < prefix.len() ==> prefix[j] == m.last);
        lemma_idle_climb(m, prefix, windows);
        assert(readings.last() == m.last);
    }
}

/// In an idle episode — a run of unchanged readings begun with the counter
/// freshly reset to 1 — the action of a tick is determined by its index
/// alone: the warning fires exactly on the tick where the counter reaches
/// the warning threshold, the suspend exactly where it reaches the suspend
/// threshold.
pub proof fn lemma_tick_action(m: Model, readings: Seq<Seq<char>>, windows: bool, i: int)
    requires
        m.idle == 1,
        forall|j: int| 0 <= j < readings.len() ==> readings[j] == m.last,
        0 <= i < readings.len(),
        i + 2 <= spec_hibernate_secs(windows),
    ensures
        run_action(m, readings, windows, i) == IdleAction::Warn <==> i + 2 == spec_warning_secs(
            windows,
        ),
        run_action(m, readings, windows, i) == IdleAction::Suspend <==> i + 2
            == spec_hibernate_secs(windows),
{
    let prefix = readings.take(i);
    assert(forall|j: int| 0 <= j < prefix.len() ==> prefix[j] == m.last);
    lemma_idle_climb(m, prefix, windows);
    assert(readings[i] == m.last);
}

/// A full idle episode while the workspace has at least one window: from a
/// fresh reset, under unchanged readings, the warning fires on exactly the
/// tick where the counter reaches 1500, the suspend on exactly the tick
/// where it reaches 1800, and the suspend tick resets the counter to 1.
/// Tick index `i` is 0-based, so the counter holds `i + 2` after the bump
/// of tick `i`.
pub proof fn lemma_episode_occupied(m: Model, readings: Seq<Seq<char>>)
    requires
        m.idle == 1,
        forall|j: int| 0 <= j < readings.len() ==> readings[j] == m.last,
        readings.len() == 1799,
    ensures
        forall|i: int|
            0 <= i < 1799 ==> (run_action(m, readings, true, i) == IdleAction::Warn <==> i == 1498),
        forall|i: int|
            0 <= i < 1799 ==> (run_action(m, readings, true, i) == IdleAction::Suspend <==> i
                == 1798),
        run_state(m, readings, true).idle == 1,
        run_state(m, readings, true).last == m.last,
{
    lemma_full_episode(m, readings, true);
}

/// A full idle episode while the workspace has no windows: from a fresh
/// reset, under unchanged readings, the warning fires on exactly the tick
/// where the counter reaches 300, the suspend on exactly the tick where it
/// reaches 600, and the suspend tick resets the counter to 1.
pub proof fn lemma_episode_empty(m: Model, readings: Seq<Seq<char>>)
    requires
        m.idle == 1,
        forall|j: int| 0 <= j < readings.len() ==> readings[j] == m.last,
        readings.len() == 599,
    ensures
        forall|i: int|
            0 <= i < 599 ==> (run_action(m, readings, false, i) == IdleAction::Warn <==> i == 298),
        forall|i: int|
            0 <= i < 599 ==> (run_action(m, readings, false, i) == IdleAction::Suspend <==> i
                == 598),
        run_state(m, readings, false).idle == 1,
        run_state(m, readings, false).last == m.last,
{
    lemma_full_episode(m, readings, false);
}

/// A full idle episode under either occupancy: the run that begins at a
/// fresh reset and is exactly long enough to reach the suspend threshold
/// fires each action on exactly one tick and ends with the counter reset
/// to 1.
pub proof fn lemma_full_episode(m: Model, readings: Seq<Seq<char>>, windows: bool)
    requires
        m.idle == 1,
        forall|j: int| 0 <= j < readings.len() ==> readings[j] == m.last,
        readings.len() + 1 == spec_hibernate_secs(windows),
    ensures
        forall|i: int|
            0 <= i < readings.len() ==> (run_action(m, readings, windows, i) == IdleAction::Warn
                <==> i + 2 == spec_warning_secs(windows)),
        forall|i: int|
            0 <= i < readings.len() ==> (run_action(m, readings, windows, i) == IdleAction::Suspend
                <==> i + 2 == spec_hibernate_secs(windows)),
        run_state(m, readings, windows).idle == 1,
        run_state(m, readings, windows).last == m.last,
{
    assert forall|i: int| 0 <= i < readings.len() implies (run_action(m, readings, windows, i)
        == IdleAction::Warn <==> i + 2 == spec_warning_secs(windows)) && (run_action(
        m,
        readings,
        windows,
        i,
    ) == IdleAction::Suspend <==> i + 2 == spec_hibernate_secs(windows)) by {
        lemma_tick_action(m, readings, windows, i);
    }
    let prefix = readings.drop_last();
    assert(forall|j: int| 0 <= j < prefix.len() ==> prefix[j] == m.last);
    lemma_idle_climb(m, prefix, windows);
    assert(readings.last() == m.last);
}

/// The warning fires at most once per uninterrupted idle episode: in a run
/// of unchanged readings begun at a fresh reset and no longer than the run
/// up to the suspend threshold, any two ticks that fire the warning are
/// the same tick.  A fresh climb can fire it again only after the suspend
/// tick (or a cursor movement) has reset the counter.
pub proof fn lemma_warning_at_most_once(m: Model, readings: Seq<Seq<char>>, windows: bool)
    requires
        m.idle == 1,
        forall|j: int| 0 <= j < readings.len() ==> readings[j] == m.last,
        readings.len() + 1 <= spec_hibernate_secs(windows),
    ensures
        forall|i: int, k: int|
            0 <= i < readings.len() && 0 <= k < readings.len() && run_action(
                m,
                readings,
                windows,
                i,
            ) == IdleAction::Warn && run_action(m, readings, windows, k) == IdleAction::Warn ==> i
                == k,
{
    assert forall|i: int|
        0 <= i < readings.len() && run_action(m, readings, windows, i)
            == IdleAction::Warn implies i + 2 == spec_warning_secs(windows) by {
        lemma_tick_action(m, readings, windows, i);
    }
}

} // verus!
