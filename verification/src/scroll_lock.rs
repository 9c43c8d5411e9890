//! Reference-counted body scroll locking.
//!
//! The first lock snapshots the body's styles and fixes it in place; the
//! last release restores exactly that snapshot. The browser bindings read
//! and write the styles; this module counts references, keeps the snapshot
//! and decides when the body is fixed and restored.
use vstd::prelude::*;

verus! {

/// Errors that can occur while applying or restoring scroll locking.
#[derive(Debug, Clone, PartialEq, Eq)]
pub enum ScrollLockError {
    WindowUnavailable,
    DocumentUnavailable,
    BodyUnavailable,
    StyleUnavailable,
}

/// Result type used by scroll lock helpers.
pub type ScrollLockResult<T> = Result<T, ScrollLockError>;

/// Guard for one scroll lock reference. It carries no data: where no
/// browser document exists it stands for nothing at all (see
/// [`crate::scroll_lock_host`]), and in a browser it is handed back to
/// [`ScrollLockState::drop_guard`].
#[derive(Debug)]
pub struct ScrollLockGuard;

/// The reference count of a document's scroll lock, and the snapshot of
/// the body taken when the first reference fixed it in place.
#[derive(Debug)]
pub struct ScrollLockState<S> {
    count: usize,
    snapshot: Option<S>,
}

/// The mathematical value of a [`ScrollLockState`].
pub struct ScrollLockModel<S> {
    pub count: nat,
    pub snapshot: Option<S>,
}

/// No reference held and no snapshot kept.
pub open spec fn unlocked<S>() -> ScrollLockModel<S> {
    ScrollLockModel { count: 0, snapshot: None }
}

/// The count after a successful acquire.
pub open spec fn acquired_count(count: nat) -> nat {
    count + 1
}

/// The count after a release: one less, and never below zero.
pub open spec fn released_count(count: nat) -> nat {
    if count == 0 {
        0
    } else {
        (count - 1) as nat
    }
}

/// A successful acquire: the first reference keeps `snapshot`, the taking
/// of which fixed the body; later references keep the snapshot they found.
pub open spec fn acquire_spec<S>(m: ScrollLockModel<S>, snapshot: S) -> ScrollLockModel<S> {
    if m.count == 0 {
        ScrollLockModel { count: 1, snapshot: Some(snapshot) }
    } else {
        ScrollLockModel { count: m.count + 1, snapshot: m.snapshot }
    }
}

/// A release: the new state, and the snapshot that must be restored. Only
/// the release of the last reference hands the snapshot back; an extra
/// release changes nothing.
pub open spec fn release_spec<S>(m: ScrollLockModel<S>) -> (ScrollLockModel<S>, Option<S>) {
    if m.count == 0 {
        (m, None)
    } else if m.count == 1 {
        (unlocked(), m.snapshot)
    } else {
        (ScrollLockModel { count: (m.count - 1) as nat, snapshot: m.snapshot }, None)
    }
}

impl<S> ScrollLockState<S> {
    /// A document without references keeps no snapshot.
    #[verifier::type_invariant]
    spec fn snapshot_only_while_locked(self) -> bool {
        self.count == 0 ==> self.snapshot is None
    }

    /// The number of references held and the snapshot kept.
    pub closed spec fn model(&self) -> ScrollLockModel<S> {
        ScrollLockModel { count: self.count as nat, snapshot: self.snapshot }
    }

    /// The number of references held.
    pub open spec fn count_spec(&self) -> nat {
        self.model().count
    }

    /// A document without references keeps no snapshot. The type invariant
    /// makes this hold of every state; each function below states it.
    pub open spec fn wf(&self) -> bool {
        self.model().count == 0 ==> self.model().snapshot is None
    }

    /// An unlocked document.
    pub fn new() -> (r: Self)
        ensures
            r.model() == unlocked::<S>(),
            r.wf(),
    {
        ScrollLockState { count: 0, snapshot: None }
    }

    /// Returns the number of references held.
    pub fn count(&self) -> (r: usize)
        ensures
            r == self.count_spec(),
            self.wf(),
    {
        proof {
            use_type_invariant(self);
        }
        self.count
    }

    /// Whether the next acquire must snapshot and fix the body: no
    /// reference is held yet.
    pub fn needs_apply(&self) -> (r: bool)
        ensures
            r == (self.count_spec() == 0),
            self.wf(),
    {
        proof {
            use_type_invariant(self);
        }
        self.count == 0
    }

    /// Drops a guard: it gives back its reference, as
    /// [`scroll_lock_release`] does.
    pub fn drop_guard(&mut self, guard: ScrollLockGuard) -> (r: Option<S>)
        ensures
            (final(self).model(), r) == release_spec(old(self).model()),
            final(self).wf(),
    {
        let _ = guard;
        scroll_lock_release(self)
    }
}

/// Acquires the scroll lock of a browser document: takes one reference.
/// `applied` is the outcome of snapshotting and fixing the body, which only
/// the first reference performs (`None` when it was not performed); later
/// references ignore it. When fixing the body failed, nothing is held and
/// its error is returned. A first reference taken without a snapshot holds
/// the lock with nothing to restore.
pub fn scroll_lock_acquire<S>(
    state: &mut ScrollLockState<S>,
    applied: Option<ScrollLockResult<S>>,
) -> (r: ScrollLockResult<ScrollLockGuard>)
    requires
        old(state).count_spec() < usize::MAX,
    ensures
        old(state).count_spec() == 0 ==> (applied matches Some(Err(e)) ==> r == Err::<
            ScrollLockGuard,
            ScrollLockError,
        >(e) && final(state).model() == old(state).model()),
        old(state).count_spec() == 0 ==> (applied matches Some(Ok(snapshot)) ==> r is Ok
            && final(state).model() == acquire_spec(old(state).model(), snapshot)),
        old(state).count_spec() == 0 && applied is None ==> r is Ok && final(state).model() == (
        ScrollLockModel::<S> { count: 1, snapshot: None }),
        old(state).count_spec() > 0 ==> r is Ok && final(state).model() == (ScrollLockModel::<S> {
            count: acquired_count(old(state).count_spec()),
            snapshot: old(state).model().snapshot,
        }),
        old(state).wf(),
        final(state).wf(),
{
    proof {
        use_type_invariant(&*state);
    }
    if state.count == 0 {
        match applied {
            Some(Err(e)) => {
                return Err(e);
            },
            Some(Ok(snapshot)) => {
                *state = ScrollLockState { count: 1, snapshot: Some(snapshot) };
                return Ok(ScrollLockGuard);
            },
            None => {},
        }
    }
    state.count = state.count + 1;
    Ok(ScrollLockGuard)
}

/// Releases one reference of a browser document's scroll lock; extra
/// releases are ignored. Returns the snapshot to restore when the last
/// reference was given back: exactly the one the first reference took.
pub fn scroll_lock_release<S>(state: &mut ScrollLockState<S>) -> (r: Option<S>)
    ensures
        (final(state).model(), r) == release_spec(old(state).model()),
        old(state).wf(),
        final(state).wf(),
{
    proof {
        use_type_invariant(&*state);
    }
    if state.count == 0 {
        return None;
    }
    if state.count == 1 {
        let mut released = ScrollLockState { count: 0, snapshot: None };
        core::mem::swap(state, &mut released);
        return released.snapshot;
    }
    state.count = state.count - 1;
    None
}

/// `k` references taken one after another.
pub open spec fn acquired_times(count: nat, k: nat) -> nat
    decreases k,
{
    if k == 0 {
        count
    } else {
        acquired_count(acquired_times(count, (k - 1) as nat))
    }
}

/// `k` releases one after another.
pub open spec fn released_times(count: nat, k: nat) -> nat
    decreases k,
{
    if k == 0 {
        count
    } else {
        released_count(released_times(count, (k - 1) as nat))
    }
}

/// The lock is held until every acquired reference has been released:
/// after `k` acquires and `k` releases the count is back where it started,
/// after fewer releases the body is still locked, and releasing more than
/// was acquired leaves it unlocked rather than below zero.
pub proof fn lemma_scroll_lock_balanced(count: nat, k: nat, j: nat)
    ensures
        acquired_times(count, k) == count + k,
        released_times(count + k, k) == count,
        j < k ==> released_times(count + k, j) > 0,
        released_times(count, count + j) == 0,
    decreases k + j,
{
    lemma_acquired_times(count, k);
    lemma_released_times(count + k, k);
    lemma_released_times(count + k, j);
    lemma_released_times(count, count + j);
}

proof fn lemma_acquired_times(count: nat, k: nat)
    ensures
        acquired_times(count, k) == count + k,
    decreases k,
{
    if k > 0 {
        lemma_acquired_times(count, (k - 1) as nat);
    }
}

proof fn lemma_released_times(count: nat, k: nat)
    ensures
        released_times(count, k) == if k <= count {
            (count - k) as nat
        } else {
            0
        },
    decreases k,
{
    if k > 0 {
        lemma_released_times(count, (k - 1) as nat);
    }
}

/// The state after successful acquires with `snapshots`, one by one.
pub open spec fn acquired_all<S>(m: ScrollLockModel<S>, snapshots: Seq<S>) -> ScrollLockModel<S>
    decreases snapshots.len(),
{
    if snapshots.len() == 0 {
        m
    } else {
        acquire_spec(acquired_all(m, snapshots.drop_last()), snapshots.last())
    }
}

/// The state after `k` releases, one by one.
pub open spec fn released_n<S>(m: ScrollLockModel<S>, k: nat) -> ScrollLockModel<S>
    decreases k,
{
    if k == 0 {
        m
    } else {
        release_spec(released_n(m, (k - 1) as nat)).0
    }
}

proof fn lemma_acquired_all_locked<S>(m: ScrollLockModel<S>, snapshots: Seq<S>)
    requires
        m.count > 0,
    ensures
        acquired_all(m, snapshots) == (ScrollLockModel {
            count: m.count + snapshots.len(),
            snapshot: m.snapshot,
        }),
    decreases snapshots.len(),
{
    if snapshots.len() > 0 {
        lemma_acquired_all_locked(m, snapshots.drop_last());
    }
}

proof fn lemma_released_n_locked<S>(m: ScrollLockModel<S>, k: nat)
    requires
        0 < m.count,
        k <= m.count,
    ensures
        k < m.count ==> released_n(m, k) == (ScrollLockModel {
            count: (m.count - k) as nat,
            snapshot: m.snapshot,
        }),
        k == m.count ==> released_n(m, k) == unlocked::<S>(),
    decreases k,
{
    if k > 0 {
        lemma_released_n_locked(m, (k - 1) as nat);
    }
}

/// A lock restores exactly what its first reference found: after the first
/// acquire took `first` and any number of later acquires (whose snapshots
/// are ignored), every release but the last restores nothing, the last one
/// hands back `first` and unlocks, and a release beyond that changes nothing.
pub proof fn lemma_scroll_lock_restores_first_snapshot<S>(first: S, later: Seq<S>)
    ensures
        ({
            let locked = acquired_all(acquire_spec(unlocked(), first), later);
            &&& locked == (ScrollLockModel { count: later.len() + 1, snapshot: Some(first) })
            &&& forall|j: nat|
                j < later.len() ==> #[trigger] release_spec(released_n(locked, j)).1 is None
            &&& release_spec(released_n(locked, later.len())).1 == Some(first)
            &&& released_n(locked, later.len() + 1) == unlocked::<S>()
            &&& release_spec(unlocked::<S>()) == (unlocked::<S>(), None::<S>)
        }),
{
    let start = acquire_spec(unlocked(), first);
    lemma_acquired_all_locked(start, later);
    let locked = acquired_all(start, later);
    assert forall|j: nat| j < later.len() implies #[trigger] release_spec(
        released_n(locked, j),
    ).1 is None by {
        lemma_released_n_locked(locked, j);
    }
    lemma_released_n_locked(locked, later.len());
    lemma_released_n_locked(locked, later.len() + 1);
}

} // verus!
