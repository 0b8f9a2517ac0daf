//! The idle/hibernation state machine.
//!
//! One value of [`Greenland`] holds the whole session state: the number of
//! seconds since the cursor was last seen to move and the raw text of the
//! previous cursor reading.  Each tick the daemon hands the machine the
//! fresh cursor reading and the current window occupancy; the machine
//! updates its state and answers with the [`IdleAction`] that is due.

use vstd::prelude::*;

use crate::policy::spec_hibernate_secs;
use crate::policy::spec_warning_secs;
use crate::policy::HIBERNATE_SECS_EMPTY;
use crate::policy::HIBERNATE_SECS_OCCUPIED;
use crate::policy::WARNING_SECS_EMPTY;
use crate::policy::WARNING_SECS_OCCUPIED;

verus! {

/// The external effect a tick asks the daemon to fire.
#[derive(Clone, Copy, PartialEq, Eq, Debug, Structural)]
pub enum IdleAction {
    /// Nothing is due this tick.
    NoAction,
    /// Display the hibernation warning notification.
    Warn,
    /// Request the operating system suspend.
    Suspend,
}

/// Mathematical model of the session state: the idle counter as an
/// unbounded integer and the previous cursor reading as a character
/// sequence.
pub struct Model {
    /// Seconds elapsed since the cursor was last observed to move.
    pub idle: int,
    /// The most recent raw cursor-position reading.
    pub last: Seq<char>,
}

/// One tick of the state machine on the model: bump the idle counter,
/// compare the fresh cursor reading to the stored one, and either reset on
/// movement or evaluate the two thresholds selected by window occupancy.
/// Thresholds are compared with exact equality: the warning leaves the
/// counter running, the suspend tick resets it to 1.
pub open spec fn spec_tick(m: Model, pos: Seq<char>, windows: bool) -> (Model, IdleAction) {
    let bumped = m.idle + 1;
    if pos != m.last {
        (Model { idle: 1, last: pos }, IdleAction::NoAction)
    } else if bumped == spec_warning_secs(windows) {
        (Model { idle: bumped, last: pos }, IdleAction::Warn)
    } else if bumped == spec_hibernate_secs(windows) {
        (Model { idle: 1, last: pos }, IdleAction::Suspend)
    } else {
        (Model { idle: bumped, last: pos }, IdleAction::NoAction)
    }
}

/// Session state of the idle/hibernation state machine.
pub struct Greenland {
    /// Seconds elapsed since the last cursor position update.
    pub secs_since_cursor_update: u32,

    /// The previous tick's raw cursor-position reading.
    pub last_cursor_pos: String,
}

impl View for Greenland {
    type V = Model;

    open spec fn view(&self) -> Model {
        Model { idle: self.secs_since_cursor_update as int, last: self.last_cursor_pos@ }
    }
}

impl Greenland {
    /// The state invariant: the idle counter is at least 1 (it is created
    /// at 1 and only ever reset to 1 or incremented).
    pub open spec fn wf(self) -> bool {
        1 <= self.secs_since_cursor_update
    }

    /// Fresh session state: one second idle, no cursor reading seen yet.
    pub fn new() -> (g: Greenland)
        ensures
            g.wf(),
            g@.idle == 1,
            g@.last == Seq::<char>::empty(),
    {
        Greenland { secs_since_cursor_update: 1, last_cursor_pos: String::new() }
    }

    /// Decides whether the workspace window-count reading reports at least
    /// one window.  The query answers with the count as text; any reading
    /// other than `"0"` counts as occupied.
    pub fn has_windows(windows_reading: &String) -> (w: bool)
        ensures
            w == (windows_reading@ != "0"@),
    {
        *windows_reading != String::from_str("0")
    }

    /// Stores the fresh cursor reading and reports whether it differs from
    /// the previous one.  Any change in the raw text counts as movement,
    /// regardless of magnitude.
    pub fn has_cursor_moved(&mut self, current_pos: String) -> (moved: bool)
        ensures
            final(self).secs_since_cursor_update == old(self).secs_since_cursor_update,
            final(self).last_cursor_pos@ == current_pos@,
            moved == (current_pos@ != old(self).last_cursor_pos@),
    {
        let moved = current_pos != self.last_cursor_pos;
        self.last_cursor_pos = current_pos;
        moved
    }

    /// Evaluates the two idle thresholds against the already-bumped
    /// counter.  Exactly at the warning threshold the warning fires and the
    /// counter keeps running; exactly at the suspend threshold the suspend
    /// fires and the counter resets to 1; otherwise nothing happens.
    /// Thresholds: 1500/1800 seconds while the workspace has windows,
    /// 300/600 seconds while it has none.
    pub fn try_hibernate(&mut self, windows: bool) -> (action: IdleAction)
        ensures
            final(self).last_cursor_pos == old(self).last_cursor_pos,
            old(self).secs_since_cursor_update == spec_warning_secs(windows) ==> {
                &&& action == IdleAction::Warn
                &&& final(self).secs_since_cursor_update == old(self).secs_since_cursor_update
            },
            old(self).secs_since_cursor_update == spec_hibernate_secs(windows) ==> {
                &&& action == IdleAction::Suspend
                &&& final(self).secs_since_cursor_update == 1
            },
            (old(self).secs_since_cursor_update != spec_warning_secs(windows)
                && old(self).secs_since_cursor_update != spec_hibernate_secs(windows)) ==> {
                &&& action == IdleAction::NoAction
                &&& final(self).secs_since_cursor_update == old(self).secs_since_cursor_update
            },
    {
        let elapsed = self.secs_since_cursor_update;
        let warning_secs: u32 = if windows {
            WARNING_SECS_OCCUPIED
        } else {
            WARNING_SECS_EMPTY
        };
        let hibernate_secs: u32 = if windows {
            HIBERNATE_SECS_OCCUPIED
        } else {
            HIBERNATE_SECS_EMPTY
        };

        if elapsed == warning_secs {
            return IdleAction::Warn;
        }

        if elapsed == hibernate_secs {
            self.secs_since_cursor_update = 1;
            return IdleAction::Suspend;
        }

        IdleAction::NoAction
    }

    /// One tick of the idle/hibernation state machine: bump the idle
    /// counter, store the fresh cursor reading, and on an unchanged reading
    /// evaluate the thresholds selected by the current window occupancy.
    /// The returned action is what the daemon fires this tick.
    pub fn perform_hibernation_check(&mut self, current_pos: String, windows: bool) -> (action:
        IdleAction)
        requires
            old(self).wf(),
            old(self).secs_since_cursor_update < u32::MAX,
        ensures
            final(self).wf(),
            final(self)@ == spec_tick(old(self)@, current_pos@, windows).0,
            action == spec_tick(old(self)@, current_pos@, windows).1,
    {
        self.secs_since_cursor_update = self.secs_since_cursor_update + 1;

        if !self.has_cursor_moved(current_pos) {
            self.try_hibernate(windows)
        } else {
            self.secs_since_cursor_update = 1;
            IdleAction::NoAction
        }
    }
}

impl Default for Greenland {
    /// Same state as [`Greenland::new`]: the daemon starts counting from
    /// one second of idleness with an empty previous reading.
    fn default() -> (g: Greenland)
        ensures
            g.wf(),
            g@.idle == 1,
            g@.last == Seq::<char>::empty(),
    {
        Greenland::new()
    }
}

} // verus!
