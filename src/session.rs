use vstd::prelude::*;
use crate::bundle::CapBundle;
use crate::cap::CapHandle;
use crate::error::CapError;

verus! {

/// A snapshot of a session's counters, for an outside telemetry sink.
#[derive(Debug, Clone, Copy, PartialEq, Eq, Structural)]
pub struct CSpaceMetrics {
    pub session_id: u64,
    pub max_depth: usize,
    pub derivation_count: usize,
    pub revoke_latency_us: u64,
    pub timestamp_ms: u128,
}

/// A capability derived in a session, with its depth below the root.
#[derive(Debug, Clone, Copy, PartialEq, Eq, Structural)]
pub struct DerivedCap {
    pub cap: CapHandle,
    pub depth: usize,
}

/// The quota-relevant part of a session's state.
pub ghost struct QuotaState {
    pub count: int,
    pub max_derivations: int,
    pub max_depth: int,
    pub revoked: bool,
}

/// Whether a derivation at `depth` may go to the kernel, and if not, why:
/// the depth first, then the count quota, then whether the root was revoked.
pub open spec fn check_mint(q: QuotaState, depth: int) -> Result<(), CapError> {
    if depth > q.max_depth {
        Err(CapError::MaxDepthExceeded)
    } else if q.count >= q.max_derivations {
        Err(CapError::MaxDerivationsExceeded)
    } else if q.revoked {
        Err(CapError::MissingCapability)
    } else {
        Ok(())
    }
}

/// The quota state after one derivation attempt at `depth`, where the kernel
/// derivation, if issued, succeeds exactly when `kernel_ok`.
pub open spec fn quota_after(q: QuotaState, depth: int, kernel_ok: bool) -> QuotaState {
    if check_mint(q, depth) is Ok && kernel_ok {
        QuotaState { count: q.count + 1, ..q }
    } else {
        q
    }
}

/// Whether one derivation attempt produces a capability.
pub open spec fn mint_succeeds(q: QuotaState, depth: int, kernel_ok: bool) -> bool {
    check_mint(q, depth) is Ok && kernel_ok
}

/// The quota state after a run of attempts `(depth, kernel_ok)`, in order.
pub open spec fn quota_run(q: QuotaState, attempts: Seq<(int, bool)>) -> QuotaState
    decreases attempts.len(),
{
    if attempts.len() == 0 {
        q
    } else {
        let last = attempts.last();
        quota_after(quota_run(q, attempts.drop_last()), last.0, last.1)
    }
}

/// How many attempts of a run produce a capability.
pub open spec fn run_successes(q: QuotaState, attempts: Seq<(int, bool)>) -> nat
    decreases attempts.len(),
{
    if attempts.len() == 0 {
        0
    } else {
        let last = attempts.last();
        let before = quota_run(q, attempts.drop_last());
        run_successes(q, attempts.drop_last()) + if mint_succeeds(before, last.0, last.1) {
            1nat
        } else {
            0nat
        }
    }
}

/// Over any run of derivation attempts the count grows by exactly the number
/// of attempts that passed both checks and whose kernel derivation succeeded,
/// the quotas stay as they were, and the count never passes its quota.
pub proof fn lemma_count_is_successes(q: QuotaState, attempts: Seq<(int, bool)>)
    requires
        q.count <= q.max_derivations,
    ensures
        quota_run(q, attempts).count == q.count + run_successes(q, attempts),
        quota_run(q, attempts).count <= q.max_derivations,
        quota_run(q, attempts).max_derivations == q.max_derivations,
        quota_run(q, attempts).max_depth == q.max_depth,
        quota_run(q, attempts).revoked == q.revoked,
    decreases attempts.len(),
{
    if attempts.len() > 0 {
        lemma_count_is_successes(q, attempts.drop_last());
    }
}

/// An attempt deeper than the session allows is refused with
/// `MaxDepthExceeded` and leaves the count as it was.
pub proof fn lemma_too_deep_refused(q: QuotaState, depth: int, kernel_ok: bool)
    requires
        depth > q.max_depth,
    ensures
        check_mint(q, depth) == Err::<(), CapError>(CapError::MaxDepthExceeded),
        quota_after(q, depth, kernel_ok) == q,
{
}

/// Once the count has reached its quota, every further attempt within the
/// depth bound is refused with `MaxDerivationsExceeded` and changes nothing.
pub proof fn lemma_quota_exhausted_refused(q: QuotaState, depth: int, kernel_ok: bool)
    requires
        q.count == q.max_derivations,
        depth <= q.max_depth,
    ensures
        check_mint(q, depth) == Err::<(), CapError>(CapError::MaxDerivationsExceeded),
        quota_after(q, depth, kernel_ok) == q,
{
}

/// After the root is revoked no derivation attempt succeeds.
pub proof fn lemma_revoked_root_refuses(q: QuotaState, depth: int, kernel_ok: bool)
    requires
        q.revoked,
    ensures
        check_mint(q, depth) is Err,
        !mint_succeeds(q, depth, kernel_ok),
        quota_after(q, depth, kernel_ok) == q,
{
}

/// Serialised attempts on a fresh session with quota `k`, each within the
/// depth bound and each with a kernel derivation that would succeed, give
/// exactly `min(n, k)` capabilities, whatever order they came in; every
/// attempt after the first `k` is refused with `MaxDerivationsExceeded`.
pub proof fn lemma_quota_admits_exactly(q: QuotaState, attempts: Seq<(int, bool)>)
    requires
        q.count == 0,
        q.max_derivations >= 0,
        !q.revoked,
        forall|i: int| 0 <= i < attempts.len() ==> #[trigger] attempts[i].0 <= q.max_depth
            && attempts[i].1,
    ensures
        run_successes(q, attempts) == if attempts.len() < q.max_derivations {
            attempts.len() as int
        } else {
            q.max_derivations
        },
        forall|i: int|
            q.max_derivations <= i < attempts.len() ==> check_mint(
                #[trigger] quota_run(q, attempts.take(i)),
                attempts[i].0,
            ) == Err::<(), CapError>(CapError::MaxDerivationsExceeded),
    decreases attempts.len(),
{
    lemma_count_is_successes(q, attempts);
    if attempts.len() > 0 {
        let prefix = attempts.drop_last();
        assert forall|i: int| 0 <= i < prefix.len() implies #[trigger] prefix[i].0 <= q.max_depth
            && prefix[i].1 by {
            assert(prefix[i] == attempts[i]);
        }
        lemma_quota_admits_exactly(q, prefix);
        lemma_count_is_successes(q, prefix);
        assert forall|i: int|
            q.max_derivations <= i < attempts.len() implies check_mint(
                #[trigger] quota_run(q, attempts.take(i)),
                attempts[i].0,
            ) == Err::<(), CapError>(CapError::MaxDerivationsExceeded) by {
            if i < prefix.len() {
                assert(attempts.take(i) =~= prefix.take(i));
                assert(prefix[i] == attempts[i]);
            } else {
                assert(attempts.take(i) =~= prefix);
                assert(attempts[i] == attempts.last());
            }
        }
    }
}

/// Per-session capability-derivation state: the root capability, the
/// derivations made from it, and the quotas that bound them.
pub struct SessionCaps {
    pub session_id: u64,
    pub root_cap: CapHandle,
    pub derived_caps: Vec<DerivedCap>,
    pub bundles: Vec<CapBundle>,
    pub max_depth: usize,
    pub max_derivations: usize,
    pub derivation_count: usize,
    pub created_at_ms: u128,
    pub revoked: bool,
    pub last_revoke_latency_us: u64,
}

impl SessionCaps {
    /// The session's quotas hold, and the derivations it tracks are the live
    /// ones: all of them while the root stands, none once it is revoked.
    pub open spec fn wf(&self) -> bool {
        &&& self.derivation_count <= self.max_derivations
        &&& (forall|i: int|
            0 <= i < self.derived_caps@.len() ==> #[trigger] self.derived_caps@[i].depth
                <= self.max_depth)
        &&& !self.revoked ==> self.derived_caps@.len() == self.derivation_count
        &&& self.revoked ==> self.derived_caps@.len() == 0
    }

    pub open spec fn quota(&self) -> QuotaState {
        QuotaState {
            count: self.derivation_count as int,
            max_derivations: self.max_derivations as int,
            max_depth: self.max_depth as int,
            revoked: self.revoked,
        }
    }

    /// How many capabilities derived in this session are still reachable.
    pub open spec fn live_descendants(&self) -> nat {
        self.derived_caps@.len()
    }

    /// A fresh session with no derivations yet.
    pub fn new(
        session_id: u64,
        root_cap: CapHandle,
        max_depth: usize,
        max_derivations: usize,
        created_at_ms: u128,
    ) -> (r: SessionCaps)
        ensures
            r.wf(),
            r.session_id == session_id,
            r.root_cap == root_cap,
            r.max_depth == max_depth,
            r.max_derivations == max_derivations,
            r.derivation_count == 0,
            r.created_at_ms == created_at_ms,
            !r.revoked,
            r.derived_caps@.len() == 0,
            r.bundles@.len() == 0,
            r.last_revoke_latency_us == 0,
    {
        SessionCaps {
            session_id,
            root_cap,
            derived_caps: Vec::new(),
            bundles: Vec::new(),
            max_depth,
            max_derivations,
            derivation_count: 0,
            created_at_ms,
            revoked: false,
            last_revoke_latency_us: 0,
        }
    }

    /// Derives a capability from `src` at `depth` below the root.
    ///
    /// The depth and count quotas are checked before `derive`, the kernel
    /// copy/mint, is issued; where a check fails, `derive` is not called and
    /// nothing changes. The count goes up only when `derive` returns a handle,
    /// which is then tracked and returned; a kernel error code comes back as
    /// `Sel4Error` with nothing changed.
    pub fn mint_with_depth_check<F: FnOnce(CapHandle) -> Result<CapHandle, u32>>(
        &mut self,
        src: &CapHandle,
        depth: usize,
        derive: F,
    ) -> (r: Result<CapHandle, CapError>)
        requires
            old(self).wf(),
            check_mint(old(self).quota(), depth as int) is Ok ==> derive.requires((*src,)),
        ensures
            final(self).wf(),
            final(self).quota() == quota_after(old(self).quota(), depth as int, r is Ok),
            check_mint(old(self).quota(), depth as int) matches Err(e) ==> r == Err::<
                CapHandle,
                CapError,
            >(e) && *final(self) == *old(self),
            r matches Ok(c) ==> check_mint(old(self).quota(), depth as int) is Ok && derive.ensures(
                (*src,),
                Ok::<CapHandle, u32>(c),
            ) && final(self).derived_caps@ == old(self).derived_caps@.push(
                DerivedCap { cap: c, depth },
            ),
            r matches Err(e) ==> *final(self) == *old(self) && (check_mint(
                old(self).quota(),
                depth as int,
            ) is Ok ==> (e matches CapError::Sel4Error(code) && derive.ensures(
                (*src,),
                Err::<CapHandle, u32>(code),
            ))),
            final(self).session_id == old(self).session_id,
            final(self).root_cap == old(self).root_cap,
            final(self).bundles == old(self).bundles,
    {
        if depth > self.max_depth {
            return Err(CapError::MaxDepthExceeded);
        }
        if self.derivation_count >= self.max_derivations {
            return Err(CapError::MaxDerivationsExceeded);
        }
        if self.revoked {
            return Err(CapError::MissingCapability);
        }
        match derive(*src) {
            Ok(cap) => {
                self.derived_caps.push(DerivedCap { cap, depth });
                self.derivation_count = self.derivation_count + 1;
                Ok(cap)
            },
            Err(code) => Err(CapError::Sel4Error(code)),
        }
    }

    /// Records the outcome of the kernel revoke of the root capability and
    /// its measured latency `latency_us`, which is kept for the metrics
    /// whatever the outcome.
    ///
    /// `kernel_rc` zero means the kernel destroyed every descendant: the
    /// session is torn down. Any other code is `RevokeFailed`, and the
    /// session is not torn down: only the latency changes.
    pub fn revoke_root(&mut self, kernel_rc: u32, latency_us: u64) -> (r: Result<(), CapError>)
        requires
            old(self).wf(),
        ensures
            final(self).wf(),
            final(self).last_revoke_latency_us == latency_us,
            final(self).session_id == old(self).session_id,
            final(self).root_cap == old(self).root_cap,
            final(self).bundles == old(self).bundles,
            final(self).max_depth == old(self).max_depth,
            final(self).max_derivations == old(self).max_derivations,
            final(self).derivation_count == old(self).derivation_count,
            final(self).created_at_ms == old(self).created_at_ms,
            kernel_rc == 0 ==> r is Ok && final(self).revoked && final(self).live_descendants()
                == 0,
            kernel_rc != 0 ==> r == Err::<(), CapError>(CapError::RevokeFailed)
                && final(self).revoked == old(self).revoked && final(self).derived_caps
                == old(self).derived_caps,
    {
        self.last_revoke_latency_us = latency_us;
        if kernel_rc != 0 {
            return Err(CapError::RevokeFailed);
        }
        self.derived_caps = Vec::new();
        self.revoked = true;
        Ok(())
    }

    /// Keeps a bundle granted to this session in its bookkeeping.
    pub fn record_bundle(&mut self, bundle: CapBundle)
        requires
            old(self).wf(),
        ensures
            final(self).wf(),
            final(self).bundles@ == old(self).bundles@.push(bundle),
            final(self).quota() == old(self).quota(),
            final(self).derived_caps == old(self).derived_caps,
            final(self).session_id == old(self).session_id,
            final(self).root_cap == old(self).root_cap,
    {
        self.bundles.push(bundle);
    }

    /// A snapshot of the session's counters taken at `timestamp_ms`.
    pub fn record_metrics(&self, timestamp_ms: u128) -> (m: CSpaceMetrics)
        ensures
            m == (CSpaceMetrics {
                session_id: self.session_id,
                max_depth: self.max_depth,
                derivation_count: self.derivation_count,
                revoke_latency_us: self.last_revoke_latency_us,
                timestamp_ms,
            }),
    {
        CSpaceMetrics {
            session_id: self.session_id,
            max_depth: self.max_depth,
            derivation_count: self.derivation_count,
            revoke_latency_us: self.last_revoke_latency_us,
            timestamp_ms,
        }
    }
}

} // verus!
