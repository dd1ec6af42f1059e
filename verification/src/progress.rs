//! The upload progress notification: when it is refreshed and what it says.

use vstd::prelude::*;
use crate::ipc::mib;
use crate::text::{concat3, decimal, u64_to_decimal};

verus! {

/// Tracks an upload's progress notification, refreshing it at most once per
/// whole percent.
#[derive(Debug)]
pub struct ProgressTracker {
    total: u64,
    last_pct: u32,
}

/// One progress report: the percentage shown afterwards, and whether the
/// notification is refreshed.
pub open spec fn progress_step(total: u64, last_pct: u32, pct: u32) -> (u32, bool) {
    if total == 0 || pct == last_pct {
        (last_pct, false)
    } else {
        (pct, true)
    }
}

/// The progress notification's body.
pub open spec fn progress_body_spec(bytes_sent: u64, total: u64, pct: u32) -> Seq<char> {
    decimal(mib(bytes_sent)) + " MB / "@ + decimal(mib(total)) + " MB ("@ + decimal(pct as nat)
        + "%)"@
}

impl ProgressTracker {
    /// The upload's size in bytes.
    pub closed spec fn spec_total(&self) -> u64 {
        self.total
    }

    /// The percentage last shown.
    pub closed spec fn spec_last_pct(&self) -> u32 {
        self.last_pct
    }

    /// Starts tracking an upload of `total` bytes, at 0 %.
    pub fn start(total: u64) -> (r: ProgressTracker)
        ensures
            r.spec_total() == total,
            r.spec_last_pct() == 0,
    {
        ProgressTracker { total, last_pct: 0 }
    }

    /// The upload's size in bytes.
    pub fn total(&self) -> (r: u64)
        ensures
            r == self.spec_total(),
    {
        self.total
    }

    /// The percentage last shown.
    pub fn last_pct(&self) -> (r: u32)
        ensures
            r == self.spec_last_pct(),
    {
        self.last_pct
    }

    /// Records that `bytes_sent` bytes are sent; `pct` is the share sent in
    /// whole percent, at most 100 (computed by the caller from the two byte
    /// counts). Returns the new body where the notification must be
    /// refreshed: never for an upload of unknown size, and not when the
    /// percentage has not changed.
    pub fn update(&mut self, bytes_sent: u64, pct: u32) -> (r: Option<String>)
        requires
            pct <= 100,
        ensures
            final(self).spec_total() == old(self).spec_total(),
            final(self).spec_last_pct() == progress_step(old(self).spec_total(), old(self).spec_last_pct(), pct).0,
            (r is Some) == progress_step(old(self).spec_total(), old(self).spec_last_pct(), pct).1,
            r matches Some(b) ==> b@ == progress_body_spec(bytes_sent, old(self).spec_total(), pct),
    {
        if self.total == 0 {
            return None;
        }
        if pct == self.last_pct {
            return None;
        }
        self.last_pct = pct;
        let done = u64_to_decimal(bytes_sent / 1048576);
        let total = u64_to_decimal(self.total / 1048576);
        let p = u64_to_decimal(pct as u64);
        let mut b = concat3(done.as_str(), " MB / ", total.as_str());
        b.append(" MB (");
        b.append(p.as_str());
        b.append("%)");
        Some(b)
    }

    /// Brings the bar to 100 % before the completion message; returns the
    /// body to show where the notification must be refreshed.
    pub fn finish(&mut self) -> (r: Option<String>)
        ensures
            final(self).spec_total() == old(self).spec_total(),
            old(self).spec_total() > 0 ==> final(self).spec_last_pct() == 100,
            old(self).spec_total() == 0 ==> final(self).spec_last_pct() == old(self).spec_last_pct(),
            r is Some <==> (old(self).spec_total() > 0 && old(self).spec_last_pct() != 100),
    {
        let t = self.total;
        self.update(t, 100)
    }
}

/// Reporting the same percentage twice refreshes the notification at most
/// once: the second report never refreshes it.
pub proof fn law_same_percent_refreshed_once(total: u64, last_pct: u32, pct: u32)
    ensures
        !progress_step(total, progress_step(total, last_pct, pct).0, pct).1,
{
}

} // verus!

verus! {

/// The notification is refreshed exactly when the upload's size is known
/// and the percentage differs from the one shown; the percentage shown then
/// becomes the new one, and otherwise stays. The body reads
/// "<sent MB> MB / <total MB> MB (<pct>%)" in whole MB.
pub proof fn law_refresh_only_on_change(total: u64, last_pct: u32, pct: u32, bytes_sent: u64)
    ensures
        progress_step(total, last_pct, pct).1 <==> (total > 0 && pct != last_pct),
        progress_step(total, last_pct, pct).0 == if total > 0 && pct != last_pct {
            pct
        } else {
            last_pct
        },
        progress_body_spec(bytes_sent, total, pct) == decimal((bytes_sent / 1048576) as nat)
            + " MB / "@ + decimal((total / 1048576) as nat) + " MB ("@ + decimal(pct as nat) + "%)"@,
{
}

} // verus!
