//! The quota gate: one window behind one lock.
//!
//! Every admission check reads, decides and writes while it holds the write
//! lock, so two callers can never both take the last place of a window.

use vstd::prelude::*;
use parking_lot::RawRwLock;
use parking_lot::RwLock;
use parking_lot::RwLockWriteGuard;
use crate::clock::now;
use crate::ratelimiter::{Admission, QuotaPolicy, QuotaStatus, Ratelimiter, RatelimiterError};

verus! {

/// `parking_lot::RawRwLock`, the lock without what it guards. Nothing of
/// it is visible here.
#[verifier::external_type_specification]
#[verifier::external_body]
pub struct ExRawRwLock(RawRwLock);

/// `lock_api::RwLock`, which `parking_lot::RwLock` is a name for. Nothing
/// of it is visible here: what it guards is reached only while the lock is
/// held.
#[verifier::external_type_specification]
#[verifier::external_body]
#[verifier::reject_recursive_types(R)]
#[verifier::reject_recursive_types(T)]
pub struct ExRwLock<R, T: ?Sized>(parking_lot::lock_api::RwLock<R, T>);

/// `parking_lot::RwLockWriteGuard`: the write side of a lock while it is
/// held. The guard type is bounded by a trait of its crate and cannot be
/// declared as it stands, so it is kept behind this struct, which shows
/// nothing of it.
#[verifier::external_body]
struct WriteGuard<'a> {
    inner: RwLockWriteGuard<'a, Ratelimiter>,
}

/// `RwLock::new`: a lock that guards `w`.
#[verifier::external_body]
fn lock_new(w: Ratelimiter) -> RwLock<Ratelimiter> {
    RwLock::new(w)
}

/// `RwLock::write`: waits until no one else holds the lock and takes it
/// for writing. The lock is given back when the guard is dropped.
#[verifier::external_body]
fn lock_write<'a>(lock: &'a RwLock<Ratelimiter>) -> WriteGuard<'a> {
    WriteGuard { inner: lock.write() }
}

/// `DerefMut::deref_mut` of the write guard: the guarded window, for as
/// long as the guard is borrowed. Which window that is depends on who held
/// the lock before, so nothing is claimed of it.
#[verifier::external_body]
fn guarded<'g, 'a>(guard: &'g mut WriteGuard<'a>) -> &'g mut Ratelimiter {
    &mut *guard.inner
}

/// `RwLock::read` and a copy of what the read guard shows: the window as
/// it is at some moment at which no one writes it.
#[verifier::external_body]
fn lock_read(lock: &RwLock<Ratelimiter>) -> Ratelimiter {
    *lock.read()
}

/// A quota window together with its policy, shared by all who ask.
pub struct QuotaGate {
    policy: QuotaPolicy,
    window: RwLock<Ratelimiter>,
}

impl QuotaGate {
    /// The policy this gate holds. It never changes.
    pub closed spec fn policy(&self) -> QuotaPolicy {
        self.policy
    }

    /// A gate whose first window begins at `now` and is unused.
    pub fn new(policy: QuotaPolicy, now: u64) -> (gate: QuotaGate)
        ensures
            gate.policy() == policy,
    {
        QuotaGate { policy, window: lock_new(Ratelimiter::new(now)) }
    }

    /// Serves one request arriving at `now`: takes the write lock, lets the
    /// window decide and count, and gives the lock back. The answer is the
    /// one that the window found under the lock gives to a request at `now`;
    /// which window that is depends on the requests served before.
    pub fn try_admit_at(&self, now: u64) -> (res: Admission)
        ensures
            exists|w: Ratelimiter| res == #[trigger] w.verdict(self.policy(), now),
            res matches Admission::Rejected { retry_after } ==> 0 < retry_after
                <= self.policy().window,
    {
        self.serve_at(now).0
    }

    /// Serves one request arriving at `now` and looks at the window before
    /// the write lock is given back: the answer, and a copy of the window as
    /// the request left it. Both are of the one window that was found under
    /// the lock, so that no other caller comes between the answer and the
    /// copy.
    pub fn serve_at(&self, now: u64) -> (res: (Admission, Ratelimiter))
        ensures
            exists|w: Ratelimiter|
                res.0 == #[trigger] w.verdict(self.policy(), now) && res.1 == w.after(
                    self.policy(),
                    now,
                ),
            res.0 matches Admission::Rejected { retry_after } ==> 0 < retry_after
                <= self.policy().window,
    {
        let mut guard = lock_write(&self.window);
        let window = guarded(&mut guard);
        let ghost found = *window;
        let answer = window.try_admit(&self.policy, now);
        let left = *window;
        assert(answer == found.verdict(self.policy(), now) && left == found.after(
            self.policy(),
            now,
        ));
        (answer, left)
    }

    /// Serves one request arriving now, by the wall clock.
    pub fn try_admit(&self) -> (res: Admission)
        ensures
            exists|w: Ratelimiter, at: u64| res == #[trigger] w.verdict(self.policy(), at),
            res matches Admission::Rejected { retry_after } ==> 0 < retry_after
                <= self.policy().window,
    {
        self.try_admit_at(now())
    }

    /// A copy of the window as it is at the moment.
    pub fn snapshot(&self) -> Ratelimiter {
        lock_read(&self.window)
    }

    /// Reports on the window at `now`. Only the read lock is taken, and
    /// nothing is written.
    pub fn status_at(&self, now: u64) -> (s: QuotaStatus)
        ensures
            exists|w: Ratelimiter| s == #[trigger] w.status_at(self.policy(), now),
            s.limit == self.policy().max_requests,
            s.resets_in <= self.policy().window,
    {
        let w = lock_read(&self.window);
        let s = w.status(&self.policy, now);
        assert(s == w.status_at(self.policy(), now));
        s
    }

    /// Reports on the window as it is now, by the wall clock.
    pub fn status(&self) -> (s: QuotaStatus)
        ensures
            exists|w: Ratelimiter, at: u64| s == #[trigger] w.status_at(self.policy(), at),
            s.limit == self.policy().max_requests,
            s.resets_in <= self.policy().window,
    {
        self.status_at(now())
    }

    /// Hands out the policy this gate holds.
    pub fn get_policy(&self) -> (policy: QuotaPolicy)
        ensures
            policy == self.policy(),
    {
        self.policy
    }
}

/// What a guarded request is told: it passes when it was admitted, it is
/// over quota when it was rejected, and state is missing when there was no
/// gate to ask.
pub open spec fn pass_of(asked: Option<Admission>) -> Result<(), RatelimiterError> {
    match asked {
        Some(admission) => admission.as_result(),
        None => Err(RatelimiterError::State),
    }
}

/// Decides whether a guarded request passes, from what it was told when it
/// asked for admission, if there was anyone to ask.
pub fn pass(asked: Option<Admission>) -> (res: Result<(), RatelimiterError>)
    ensures
        res == pass_of(asked),
{
    match asked {
        Some(admission) => admission.into_result(),
        None => Err(RatelimiterError::State),
    }
}

/// Asks the shared gate, if there is one, to serve a request arriving at
/// `now`. A missing gate is an error of its own and never a rejection.
pub fn try_admit_shared(gate: Option<&QuotaGate>, now: u64) -> (res: Result<
    Admission,
    RatelimiterError,
>)
    ensures
        gate is None <==> res == Err::<Admission, RatelimiterError>(RatelimiterError::State),
        gate is Some <==> res is Ok,
        res matches Ok(admission) ==> exists|w: Ratelimiter|
            admission == #[trigger] w.verdict(gate->0.policy(), now),
        res matches Ok(Admission::Rejected { retry_after }) ==> 0 < retry_after
            <= gate->0.policy().window,
{
    match gate {
        Some(gate) => Ok(gate.try_admit_at(now)),
        None => Err(RatelimiterError::State),
    }
}

impl Ratelimiter {
    /// Guards a request arriving at `now` with the shared gate. The request
    /// passes only if there is a gate and it admits the request. It is then
    /// given a copy of the window as it left it, taken before the write lock
    /// was given back: the window that admitted it, with the request counted.
    /// A request that does not pass was either rejected by a window that had
    /// no place for it, or found no gate to ask.
    pub fn from_request(gate: Option<&QuotaGate>, now: u64) -> (res: Result<
        Ratelimiter,
        RatelimiterError,
    >)
        ensures
            gate is None <==> res == Err::<Ratelimiter, RatelimiterError>(RatelimiterError::State),
            gate is Some ==> res is Ok || res == Err::<Ratelimiter, RatelimiterError>(
                RatelimiterError::OverQuota,
            ),
            res matches Ok(r) ==> exists|w: Ratelimiter|
                w.admits(gate->0.policy(), now) && r == #[trigger] w.after(gate->0.policy(), now),
            res matches Ok(r) ==> 1 <= r.requests && (gate->0.policy().wf() ==> r.wf(
                gate->0.policy(),
            )),
            res == Err::<Ratelimiter, RatelimiterError>(RatelimiterError::OverQuota)
                ==> exists|w: Ratelimiter| !#[trigger] w.admits(gate->0.policy(), now),
    {
        match gate {
            Some(gate) => {
                let (answer, left) = gate.serve_at(now);
                let ghost found = choose|w: Ratelimiter|
                    answer == #[trigger] w.verdict(gate.policy(), now) && left == w.after(
                        gate.policy(),
                        now,
                    );
                match pass(Some(answer)) {
                    Ok(()) => {
                        assert(found.admits(gate.policy(), now));
                        assert(left == found.after(gate.policy(), now));
                        Ok(left)
                    },
                    Err(e) => {
                        assert(!found.admits(gate.policy(), now));
                        Err(e)
                    },
                }
            },
            None => Err(RatelimiterError::State),
        }
    }
}

} // verus!
