//! The cadence of the reconciliation loop: which ticks run the per-server
//! pass and which run the inactivity sweeps, and which sweeps those are.
use vstd::prelude::*;

use crate::config::ConfigDatabases;

verus! {

/// Every this many ticks each server is reconciled.
pub const PASS_EVERY_TICKS: u64 = 20;

/// Every this many ticks the inactive player records are swept.
pub const SWEEP_EVERY_TICKS: u64 = 3600;

/// What a tick has to do.
#[derive(Clone, Copy, Debug, PartialEq, Eq, Structural)]
pub struct TickDuties {
    pub reconcile: bool,
    pub sweep: bool,
}

/// The tick counter of the reconciliation loop.
#[derive(Clone, Copy, Debug, PartialEq, Eq, Structural)]
pub struct ReconciliationClock {
    pub ticks: u64,
}

impl ReconciliationClock {
    /// A clock that has not ticked yet.
    pub fn new() -> (r: ReconciliationClock)
        ensures
            r.ticks == 0,
    {
        ReconciliationClock { ticks: 0 }
    }

    /// Count one tick and say what it has to do.
    pub fn advance(&mut self) -> (r: TickDuties)
        requires
            old(self).ticks < u64::MAX,
        ensures
            final(self).ticks == old(self).ticks + 1,
            r.reconcile == (final(self).ticks % PASS_EVERY_TICKS == 0),
            r.sweep == (final(self).ticks % SWEEP_EVERY_TICKS == 0),
    {
        self.ticks = self.ticks + 1;
        TickDuties {
            reconcile: self.ticks % PASS_EVERY_TICKS == 0,
            sweep: self.ticks % SWEEP_EVERY_TICKS == 0,
        }
    }
}

/// One sweep of the player records: those inactive for `days`, limited to
/// the records that asked not to be tracked when `do_not_track_only`.
#[derive(Clone, Copy, Debug, PartialEq, Eq, Structural)]
pub struct InactivitySweep {
    pub days: u32,
    pub do_not_track_only: bool,
}

/// The sweeps that thresholds call for: the strict one first, then the
/// normal one, each only when its threshold is set and not zero.
pub open spec fn sweeps_spec(strict: Option<u32>, normal: Option<u32>) -> Seq<InactivitySweep> {
    let s = match strict {
        Some(d) => if d != 0 {
            seq![InactivitySweep { days: d, do_not_track_only: true }]
        } else {
            Seq::empty()
        },
        None => Seq::empty(),
    };
    let n = match normal {
        Some(d) => if d != 0 {
            seq![InactivitySweep { days: d, do_not_track_only: false }]
        } else {
            Seq::empty()
        },
        None => Seq::empty(),
    };
    s + n
}

/// The sweeps that `cfg` calls for, in the order they run.
pub fn sweep_plan(cfg: &ConfigDatabases) -> (r: Vec<InactivitySweep>)
    ensures
        r@ == sweeps_spec(cfg.player_db_auto_clear_strict, cfg.player_db_auto_clear_normal),
{
    let mut r: Vec<InactivitySweep> = Vec::new();
    let strict = match cfg.player_db_auto_clear_strict {
        Some(d) => d,
        None => 0,
    };
    let normal = match cfg.player_db_auto_clear_normal {
        Some(d) => d,
        None => 0,
    };
    if strict != 0 {
        r.push(InactivitySweep { days: strict, do_not_track_only: true });
    }
    let ghost after_strict = r@;
    if normal != 0 {
        r.push(InactivitySweep { days: normal, do_not_track_only: false });
    }
    assert(r@ =~= sweeps_spec(cfg.player_db_auto_clear_strict, cfg.player_db_auto_clear_normal));
    r
}

} // verus!
