use std::sync::Arc;
use vstd::prelude::*;
use vstd::rwlock::{RwLock, RwLockPredicate};

verus! {

/// anyhow's `Error`, the error that loaders and metadata parsers report. The
/// library only carries it, behind an `Arc`, and never looks inside.
#[verifier::external_type_specification]
#[verifier::external_body]
pub struct ExAnyhowError(anyhow::Error);

/// A load failure, shared read-only by every reader of the cell that holds it.
pub type SharedError = Arc<anyhow::Error>;

/// The terminal outcome of one load: the shared payload or the shared error.
pub type Outcome<T> = Result<Arc<T>, SharedError>;

/// What a cell holds: `None` while the load is pending.
pub type AssetState<T> = Option<Outcome<T>>;

/// The lock of a cell admits every state; what keeps a resolved cell
/// unchanged is that the only write goes through `settle`.
pub struct AnyState;

impl<V> RwLockPredicate<V> for AnyState {
    open spec fn inv(self, v: V) -> bool {
        true
    }
}

/// What a tracker reads of a load: `None` while pending, `Some(Ok(()))` once
/// loaded, `Some(Err(e))` once failed with the shared error `e`.
pub type Status = Option<Result<(), SharedError>>;

/// The state a cell moves to when a value arrives: a pending cell takes the
/// value, a resolved cell keeps what it has.
pub open spec fn settle_spec<X>(state: Option<X>, value: X) -> Option<X> {
    match state {
        Some(_) => state,
        None => Some(value),
    }
}

/// The state after a series of values arrive one after the other.
pub open spec fn settle_all<X>(state: Option<X>, values: Seq<X>) -> Option<X>
    decreases values.len(),
{
    if values.len() == 0 {
        state
    } else {
        settle_all(settle_spec(state, values[0]), values.drop_first())
    }
}

/// Of the transition function: once a state is `Some`, no series of later
/// values moves it, whatever they are.
pub proof fn lemma_write_once<X>(state: Option<X>, values: Seq<X>)
    requires
        state is Some,
    ensures
        settle_all(state, values) == state,
    decreases values.len(),
{
    if values.len() > 0 {
        lemma_write_once(settle_spec(state, values[0]), values.drop_first());
    }
}

/// The single transition of a cell (see `settle_spec`).
pub fn settle<X>(state: Option<X>, value: X) -> (r: Option<X>)
    ensures
        r == settle_spec(state, value),
{
    match state {
        Some(_) => state,
        None => Some(value),
    }
}

/// The status of an outcome, without its payload.
pub open spec fn status_spec<T>(outcome: Outcome<T>) -> Result<(), SharedError> {
    match outcome {
        Ok(_) => Ok(()),
        Err(e) => Err(e),
    }
}

/// The status of an outcome; the error, if any, is the very one the outcome
/// holds.
pub fn status_of<T>(outcome: &Outcome<T>) -> (r: Result<(), SharedError>)
    ensures
        r == status_spec(*outcome),
{
    match outcome {
        Ok(_) => Ok(()),
        Err(e) => Err(Arc::clone(e)),
    }
}

/// A copy of a state that shares the payload and the error with the original
/// rather than duplicating them.
pub fn snapshot<T>(state: &AssetState<T>) -> (r: AssetState<T>)
    ensures
        r == *state,
{
    match state {
        Some(Ok(v)) => Some(Ok(Arc::clone(v))),
        Some(Err(e)) => Some(Err(Arc::clone(e))),
        None => None,
    }
}

/// A copy of a status that shares its error with the original.
pub fn copy_status(st: &Status) -> (r: Status)
    ensures
        r == *st,
{
    match st {
        Some(Ok(u)) => Some(Ok(*u)),
        Some(Err(e)) => Some(Err(Arc::clone(e))),
        None => None,
    }
}

/// Wraps the result of a load so that it can be shared by every reader.
pub fn share<T>(result: Result<T, anyhow::Error>) -> (r: Outcome<T>)
    ensures
        match result {
            Ok(v) => r matches Ok(p) && *p == v,
            Err(e) => r matches Err(p) && *p == e,
        },
{
    match result {
        Ok(v) => Ok(Arc::new(v)),
        Err(e) => Err(Arc::new(e)),
    }
}

/// A shared cell of the status of one load, with no payload: what a tracker
/// keeps of a handle.
pub struct Progress(Arc<RwLock<Status, AnyState>>);

impl Progress {
    /// The status of the load now.
    pub fn read(&self) -> (r: Status) {
        let h = self.0.acquire_read();
        let r = copy_status(h.borrow());
        h.release_read();
        r
    }
}

/// A handle to a resource that is loaded in the background. Clones share its
/// cells: they all observe the same outcome. The outcome cell is written
/// before the status cell, each once.
pub struct Asset<T> {
    outcome: Arc<RwLock<AssetState<T>, AnyState>>,
    status: Arc<RwLock<Status, AnyState>>,
}

impl<T> Asset<T> {
    /// The cells this handle reads.
    pub closed spec fn cells(&self) -> (RwLock<AssetState<T>, AnyState>, RwLock<Status, AnyState>) {
        (*self.outcome, *self.status)
    }

    /// Whether two handles share their cells.
    pub open spec fn same_cell(&self, other: &Asset<T>) -> bool {
        self.cells() == other.cells()
    }

    /// Whether a status cell belongs to this handle.
    pub closed spec fn reports_to(&self, p: Progress) -> bool {
        *p.0 == *self.status
    }

    /// A handle whose load has not finished: it reads `None` until it is
    /// resolved.
    pub fn pending() -> (r: Self) {
        Asset {
            outcome: Arc::new(RwLock::new(None, Ghost(AnyState))),
            status: Arc::new(RwLock::new(None, Ghost(AnyState))),
        }
    }

    /// A snapshot of the cell: `None` while pending, else the outcome, whose
    /// payload or error is shared with every other reader.
    pub fn get(&self) -> (r: AssetState<T>) {
        let h = self.outcome.acquire_read();
        let r = snapshot(h.borrow());
        h.release_read();
        r
    }

    /// The status cell of this handle.
    pub fn progress(&self) -> (r: Progress)
        ensures
            self.reports_to(r),
    {
        Progress(Arc::clone(&self.status))
    }

    /// Records the outcome of the load. The first outcome recorded is final:
    /// each cell takes `settle(state, value)`, which leaves a resolved cell as
    /// it is. The status cell is held for the whole write, so a tracker that
    /// reads it afterwards never lags behind a reader of the outcome.
    pub fn resolve(&self, result: Result<T, anyhow::Error>) {
        let outcome = share(result);
        let st = status_of(&outcome);
        let (status, ws) = self.status.acquire_write();
        let (state, wo) = self.outcome.acquire_write();
        wo.release_write(settle(state, outcome));
        ws.release_write(settle(status, st));
    }
}

impl<T> Clone for Asset<T> {
    /// Another handle on the same cells; no new load is started.
    fn clone(&self) -> (r: Self)
        ensures
            r.same_cell(self),
    {
        Asset { outcome: Arc::clone(&self.outcome), status: Arc::clone(&self.status) }
    }
}

/// Side data that a composite resource parses from the raw bytes of its source.
pub trait Metadata: Sized {
    fn load(raw: &[u8]) -> Result<Self, anyhow::Error>;
}

} // verus!
