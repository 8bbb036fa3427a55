//! The quota tracker: admits an identity while its recorded attempts stay
//! under a fixed ceiling.
//!
//! Each operation takes the storage handle for its whole duration, so the
//! read and the write of one `update_limit` cannot be interleaved with
//! another caller's. Nothing ties a `check_limit` to the `update_limit` that
//! follows it: callers that need both in one step hold the handle across
//! the two calls.
use crate::storage::{Storage, StorageError};
use vstd::prelude::*;

verus! {

/// Whether an identity with the stored counter `usage` (`None`: no attempt
/// recorded) is under `ceiling`.
pub open spec fn admits(ceiling: u64, usage: Option<u64>) -> bool {
    match usage {
        Some(n) => n < ceiling,
        None => true,
    }
}

/// Counter after one more attempt; it stays at `u64::MAX` once there.
pub open spec fn next_usage(usage: Option<u64>) -> u64 {
    match usage {
        Some(n) => if n == u64::MAX { n } else { (n + 1) as u64 },
        None => 1,
    }
}

/// Quota table after one attempt of `id` is recorded.
pub open spec fn recorded(quotas: Map<Seq<char>, u64>, id: Seq<char>) -> Map<Seq<char>, u64> {
    quotas.insert(id, next_usage(quotas.get(id)))
}

/// Quota table after `k` attempts of `id` are recorded one after another.
pub open spec fn recorded_times(quotas: Map<Seq<char>, u64>, id: Seq<char>, k: nat) -> Map<Seq<char>, u64>
    decreases k,
{
    if k == 0 {
        quotas
    } else {
        recorded(recorded_times(quotas, id, (k - 1) as nat), id)
    }
}

/// An identity with no recorded attempt is admitted, whatever the ceiling.
pub proof fn lemma_unseen_admitted(ceiling: u64, quotas: Map<Seq<char>, u64>, id: Seq<char>)
    requires
        !quotas.dom().contains(id),
    ensures
        admits(ceiling, quotas.get(id)),
{
}

/// Starting from no record, `k` recorded attempts leave the counter at `k`.
pub proof fn lemma_recorded_count(quotas: Map<Seq<char>, u64>, id: Seq<char>, k: nat)
    requires
        !quotas.dom().contains(id),
        k <= u64::MAX,
    ensures
        k == 0 ==> recorded_times(quotas, id, k).get(id) is None,
        k > 0 ==> recorded_times(quotas, id, k).get(id) == Some(k as u64),
    decreases k,
{
    if k > 0 {
        lemma_recorded_count(quotas, id, (k - 1) as nat);
    }
}

/// For an identity with no record: after `ceiling - 1` recorded attempts it
/// is still admitted, after `ceiling` it is denied.
pub proof fn lemma_ceiling_reached(ceiling: u64, quotas: Map<Seq<char>, u64>, id: Seq<char>)
    requires
        ceiling > 0,
        !quotas.dom().contains(id),
    ensures
        admits(ceiling, recorded_times(quotas, id, (ceiling - 1) as nat).get(id)),
        !admits(ceiling, recorded_times(quotas, id, ceiling as nat).get(id)),
{
    lemma_recorded_count(quotas, id, (ceiling - 1) as nat);
    lemma_recorded_count(quotas, id, ceiling as nat);
}

/// Two attempts recorded from a counter `n` leave it at `n + 2`: each
/// `update_limit` reads and writes under one exclusive borrow of the store,
/// so neither update is lost.
pub proof fn lemma_records_accumulate(quotas: Map<Seq<char>, u64>, id: Seq<char>, n: u64)
    requires
        quotas.get(id) == Some(n),
        n + 2 <= u64::MAX,
    ensures
        recorded(recorded(quotas, id), id).get(id) == Some((n + 2) as u64),
{
}

/// Fixed-ceiling quota tracker.
pub struct RateLimit {
    max_requests: u64,
    fail_open: bool,
}

impl RateLimit {
    /// Maximum number of recorded attempts an identity may accumulate.
    pub closed spec fn ceiling(&self) -> u64 {
        self.max_requests
    }

    /// Whether a failed read counts as "no attempt recorded yet".
    pub closed spec fn fails_open(&self) -> bool {
        self.fail_open
    }

    /// A tracker with ceiling `max_requests` that treats a failed read as
    /// "no attempt recorded yet" (fail-open).
    pub fn new(max_requests: u64) -> (r: RateLimit)
        ensures
            r.ceiling() == max_requests,
            r.fails_open(),
    {
        RateLimit { max_requests, fail_open: true }
    }

    /// The same tracker with the given failure policy: `true` admits and
    /// restarts the count on a failed read, `false` denies and reports it.
    pub fn with_fail_open(self, fail_open: bool) -> (r: RateLimit)
        ensures
            r.ceiling() == self.ceiling(),
            r.fails_open() == fail_open,
    {
        RateLimit { max_requests: self.max_requests, fail_open }
    }

    /// Admission decision from the outcome of reading the identity's counter.
    pub fn admits_read(&self, read: Result<Option<u64>, StorageError>) -> (r: bool)
        ensures
            r == match read {
                Ok(usage) => admits(self.ceiling(), usage),
                Err(_) => self.fails_open(),
            },
    {
        match read {
            Ok(Some(current_usage)) => current_usage < self.max_requests,
            Ok(None) => true,
            Err(_) => self.fail_open,
        }
    }

    /// Counter to store after reading the identity's counter; `None` where
    /// the read failed and the policy is fail-closed.
    pub fn usage_after_read(&self, read: Result<Option<u64>, StorageError>) -> (r: Option<u64>)
        ensures
            r == match read {
                Ok(usage) => Some(next_usage(usage)),
                Err(_) => if self.fails_open() { Some(1u64) } else { None },
            },
    {
        match read {
            Ok(Some(current_usage)) => Some(current_usage.saturating_add(1)),
            Ok(None) => Some(1),
            Err(_) => if self.fail_open { Some(1) } else { None },
        }
    }

    /// Whether `user_id` may proceed: its stored counter is under the
    /// ceiling, or it has none. A failed read gives the failure policy.
    pub fn check_limit(&self, storage: &Storage, user_id: &str) -> (r: bool)
        ensures
            r == admits(self.ceiling(), storage.quotas().get(user_id@)) || r == self.fails_open(),
            !storage.quotas().dom().contains(user_id@) && self.fails_open() ==> r,
            admits(self.ceiling(), storage.quotas().get(user_id@)) && self.fails_open() ==> r,
            !admits(self.ceiling(), storage.quotas().get(user_id@)) && !self.fails_open() ==> !r,
    {
        let read = storage.get_rate_limit(user_id);
        self.admits_read(read)
    }

    /// Records one attempt of `user_id`: its counter becomes one more, or 1
    /// where it had none. Under fail-open a failed read also stores 1; under
    /// fail-closed it is returned as the error.
    pub fn update_limit(&self, storage: &mut Storage, user_id: &str) -> (r: Result<(), StorageError>)
        ensures
            r is Ok ==> final(storage).quotas() == recorded(old(storage).quotas(), user_id@)
                || (self.fails_open() && final(storage).quotas() == old(storage).quotas().insert(user_id@, 1)),
            r is Ok && !self.fails_open() ==> final(storage).quotas() == recorded(old(storage).quotas(), user_id@),
            r is Err ==> final(storage).quotas() == old(storage).quotas(),
            user_id@.len() == 0 && self.fails_open()
                ==> r == Err::<(), StorageError>(StorageError::ConstraintViolation),
            r == Err::<(), StorageError>(StorageError::ConstraintViolation) ==> user_id@.len() == 0,
            user_id@.len() == 0 ==> r is Err,
            user_id@.len() > 0 && r is Err ==> r->Err_0 == StorageError::Io,
            old(storage).quotas().get(user_id@) == Some(i64::MAX as u64) && !self.fails_open()
                ==> r is Err && final(storage).quotas() == old(storage).quotas(),
            final(storage).jobs() == old(storage).jobs(),
    {
        let read = storage.get_rate_limit(user_id);
        match self.usage_after_read(read) {
            Some(new_usage) => storage.set_rate_limit(user_id, new_usage),
            None => Err(StorageError::Io),
        }
    }
}

} // verus!
