//! The server state that the ingestion path shares between requests, and
//! the decision when the retention cleanup runs.

use vstd::prelude::*;
use std::sync::atomic::AtomicU64;

verus! {

/// The cleanup of old rows runs at most once per this many seconds.
pub const RETENTION_CLEANUP_INTERVAL_SECS: u64 = 300;

/// Counters and settings shared by all requests.
pub struct AppState {
    /// The key with full read and write access.
    pub master_key: String,
    /// Incremented on each ingested event.
    pub version: AtomicU64,
    /// Incremented on each notification created.
    pub notification_version: AtomicU64,
    /// Unix time, in seconds, at which the last retention cleanup was started.
    pub last_cleanup: AtomicU64,
    /// Events older than this many days are deleted.
    pub retention_events_days: u64,
    /// Sessions idle for more than this many days are deleted.
    pub retention_sessions_days: u64,
    /// Devices unseen for more than this many days are deleted.
    pub retention_devices_days: u64,
}

/// A cleanup is due when at least `RETENTION_CLEANUP_INTERVAL_SECS` seconds
/// have passed since the last one (a clock that went back counts as none).
pub open spec fn cleanup_due(now_secs: u64, last_cleanup: u64) -> bool {
    now_secs >= last_cleanup && now_secs - last_cleanup >= RETENTION_CLEANUP_INTERVAL_SECS
}

/// Decides `cleanup_due`.
pub fn retention_cleanup_due(now_secs: u64, last_cleanup: u64) -> (r: bool)
    ensures
        r == cleanup_due(now_secs, last_cleanup),
{
    now_secs.saturating_sub(last_cleanup) >= RETENTION_CLEANUP_INTERVAL_SECS
}

/// The ages, in days, beyond which the cleanup deletes events, sessions and
/// devices.
#[derive(Clone, Copy, Debug, PartialEq, Eq)]
pub struct RetentionPlan {
    pub events_days: u64,
    pub sessions_days: u64,
    pub devices_days: u64,
}

/// The outcome of asking for a cleanup: the plan, if a cleanup is due, and
/// the time to store as the last cleanup time, if it changes.
#[derive(Clone, Copy, Debug, PartialEq, Eq)]
pub struct CleanupClaim {
    pub plan: Option<RetentionPlan>,
    pub record: Option<u64>,
}

/// The last cleanup time after a request at `now_secs` was served, given
/// the last cleanup time read before it: `now_secs` when a cleanup was due
/// and claimed, else unchanged.
pub open spec fn last_cleanup_after(last_cleanup: u64, now_secs: u64) -> u64 {
    if cleanup_due(now_secs, last_cleanup) {
        now_secs
    } else {
        last_cleanup
    }
}

/// Unix time in seconds, from `chrono::Utc::now().timestamp()`. Nothing is
/// stated of the value: it is the clock's. `Utc::now` panics when the system
/// clock reads before 1970.
#[verifier::external_body]
fn unix_now_secs() -> u64 {
    chrono::Utc::now().timestamp() as u64
}

impl AppState {
    /// The retention settings as a cleanup plan.
    pub open spec fn retention_plan(&self) -> RetentionPlan {
        RetentionPlan {
            events_days: self.retention_events_days,
            sessions_days: self.retention_sessions_days,
            devices_days: self.retention_devices_days,
        }
    }

    /// Decides a cleanup at `now_secs`, given the last cleanup time that was
    /// read: when one is due, the plan is handed out and `now_secs` is to be
    /// stored as the new last cleanup time; otherwise nothing changes.
    pub fn claim_retention_cleanup(&self, last_cleanup: u64, now_secs: u64) -> (r: CleanupClaim)
        ensures
            r.plan is Some <==> cleanup_due(now_secs, last_cleanup),
            r.plan matches Some(p) ==> p == self.retention_plan(),
            r.plan matches Some(p) ==> {
                &&& p.events_days == self.retention_events_days
                &&& p.sessions_days == self.retention_sessions_days
                &&& p.devices_days == self.retention_devices_days
            },
            r.record == (if cleanup_due(now_secs, last_cleanup) {
                Some(now_secs)
            } else {
                None::<u64>
            }),
            (match r.record {
                Some(t) => t,
                None => last_cleanup,
            }) == last_cleanup_after(last_cleanup, now_secs),
    {
        if retention_cleanup_due(now_secs, last_cleanup) {
            CleanupClaim {
                plan: Some(
                    RetentionPlan {
                        events_days: self.retention_events_days,
                        sessions_days: self.retention_sessions_days,
                        devices_days: self.retention_devices_days,
                    },
                ),
                record: Some(now_secs),
            }
        } else {
            CleanupClaim { plan: None, record: None }
        }
    }

    /// Decides a cleanup at the current time, given the last cleanup time
    /// read from `last_cleanup`. When the claim carries a time to record,
    /// the caller stores it into `last_cleanup` and carries the plan out in
    /// the background. Whether one is due is the clock's to say; whatever it
    /// read, the claim is the one `claim_retention_cleanup` gives at that
    /// reading.
    pub fn schedule_retention_cleanup(&self, last_cleanup: u64) -> (r: CleanupClaim)
        ensures
            r.plan is Some <==> r.record is Some,
            r.plan matches Some(p) ==> p == self.retention_plan(),
            r.plan matches Some(p) ==> {
                &&& p.events_days == self.retention_events_days
                &&& p.sessions_days == self.retention_sessions_days
                &&& p.devices_days == self.retention_devices_days
            },
            r.record matches Some(now_secs) ==> cleanup_due(now_secs, last_cleanup),
    {
        let now_secs = unix_now_secs();
        self.claim_retention_cleanup(last_cleanup, now_secs)
    }
}

/// Once a cleanup has been claimed at `claimed_at`, no other is due before
/// `RETENTION_CLEANUP_INTERVAL_SECS` seconds have passed, and one is due
/// from then on.
pub proof fn cleanup_interval_respected(claimed_at: u64, later: u64)
    requires
        claimed_at <= later,
    ensures
        cleanup_due(later, claimed_at) <==> later - claimed_at >= RETENTION_CLEANUP_INTERVAL_SECS,
        later < claimed_at + RETENTION_CLEANUP_INTERVAL_SECS ==> !cleanup_due(later, claimed_at),
{
}

/// Two successive requests, the first at `t1` and the second at `t2 >= t1`,
/// with the last cleanup time recorded as the claims say: if the first one
/// started a cleanup, the second starts one exactly when at least
/// `RETENTION_CLEANUP_INTERVAL_SECS` seconds lie between them. So any two
/// cleanups are at least that far apart.
pub proof fn successive_cleanups_interval_apart(last_cleanup: u64, t1: u64, t2: u64)
    requires
        t1 <= t2,
        cleanup_due(t1, last_cleanup),
    ensures
        last_cleanup_after(last_cleanup, t1) == t1,
        cleanup_due(t2, last_cleanup_after(last_cleanup, t1)) <==> t2 - t1
            >= RETENTION_CLEANUP_INTERVAL_SECS,
{
}

/// The cleanup plan gives each table its own configured retention: events
/// are kept for the events retention, sessions for the sessions retention
/// and devices for the devices retention.
pub proof fn retention_plan_keeps_each_table(state: AppState)
    ensures
        state.retention_plan().events_days == state.retention_events_days,
        state.retention_plan().sessions_days == state.retention_sessions_days,
        state.retention_plan().devices_days == state.retention_devices_days,
{
}

} // verus!
