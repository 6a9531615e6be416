use crate::asset::{Asset, Progress, SharedError, Status};
use std::sync::Arc;
use vstd::prelude::*;

verus! {

/// The aggregate of a scan over statuses in order: the number of loaded
/// entries, or the error of the first failed entry.
pub open spec fn tally(obs: Seq<Status>) -> Result<nat, SharedError>
    decreases obs.len(),
{
    if obs.len() == 0 {
        Ok(0)
    } else {
        match tally(obs.drop_last()) {
            Err(e) => Err(e),
            Ok(n) => match obs.last() {
                Some(Ok(_)) => Ok(n + 1),
                Some(Err(e)) => Err(e),
                None => Ok(n),
            },
        }
    }
}

/// The number of loaded entries among `obs`.
pub open spec fn count_loaded(obs: Seq<Status>) -> nat
    decreases obs.len(),
{
    if obs.len() == 0 {
        0
    } else {
        count_loaded(obs.drop_last()) + if obs.last() matches Some(Ok(_)) { 1nat } else { 0nat }
    }
}

/// Whether a status is a failure.
pub open spec fn is_failed(st: Status) -> bool {
    st matches Some(Err(_))
}

/// Whether `read` is what a scan of `len` entries reads: at most one status
/// per entry, none failed but the last, and fewer than `len` only where the
/// last one failed.
pub open spec fn is_scan(read: Seq<Status>, len: nat) -> bool {
    &&& read.len() <= len
    &&& forall|k: int| 0 <= k < read.len() - 1 ==> !is_failed(#[trigger] read[k])
    &&& read.len() < len ==> read.len() > 0 && is_failed(read.last())
}

/// An executable count seen as a value of `tally`.
pub open spec fn as_tally(r: Result<usize, SharedError>) -> Result<nat, SharedError> {
    match r {
        Ok(n) => Ok(n as nat),
        Err(e) => Err(e),
    }
}

/// Entries after the first failure do not matter: once a prefix of the scan
/// fails, the whole scan fails with the same error, whatever follows.
pub proof fn lemma_failure_stops_scan(head: Seq<Status>, rest: Seq<Status>)
    requires
        tally(head) is Err,
    ensures
        tally(head + rest) == tally(head),
    decreases rest.len(),
{
    if rest.len() > 0 {
        lemma_failure_stops_scan(head, rest.drop_last());
        assert((head + rest).drop_last() =~= head + rest.drop_last());
    }
}

/// Without a failed entry the scan succeeds with the number of loaded entries;
/// pending entries count for nothing.
pub proof fn lemma_count_without_failure(obs: Seq<Status>)
    requires
        forall|i: int| 0 <= i < obs.len() ==> !is_failed(#[trigger] obs[i]),
    ensures
        tally(obs) == Ok::<nat, SharedError>(count_loaded(obs)),
    decreases obs.len(),
{
    if obs.len() > 0 {
        lemma_count_without_failure(obs.drop_last());
        assert(!is_failed(obs[obs.len() - 1]));
    }
}

/// A scan that stopped early tallies as the whole list would: whatever the
/// entries after the first failure hold, `tally` of what was read equals
/// `tally` of the statuses of all entries.
pub proof fn lemma_scan_tallies_all(read: Seq<Status>, all: Seq<Status>)
    requires
        is_scan(read, all.len()),
        read =~= all.take(read.len() as int),
    ensures
        tally(read) == tally(all),
{
    if read.len() == all.len() {
        assert(read =~= all);
    } else {
        assert(is_failed(read.last()));
        assert(tally(read) is Err);
        lemma_failure_stops_scan(read, all.skip(read.len() as int));
        assert(read + all.skip(read.len() as int) =~= all);
    }
}

/// The scan of `num_loaded` over statuses that were already read.
pub fn tally_statuses(statuses: &Vec<Status>) -> (r: Result<usize, SharedError>)
    ensures
        as_tally(r) == tally(statuses@),
{
    let mut n: usize = 0;
    let mut i: usize = 0;
    while i < statuses.len()
        invariant
            i <= statuses@.len(),
            n <= i,
            tally(statuses@.take(i as int)) == Ok::<nat, SharedError>(n as nat),
        decreases statuses@.len() - i,
    {
        assert(statuses@.take(i + 1).drop_last() =~= statuses@.take(i as int));
        match &statuses[i] {
            Some(Ok(())) => {
                n = n + 1;
            },
            Some(Err(e)) => {
                proof {
                    lemma_failure_stops_scan(
                        statuses@.take(i + 1),
                        statuses@.skip(i + 1),
                    );
                    assert(statuses@.take(i + 1) + statuses@.skip(i + 1) =~= statuses@);
                }
                return Err(Arc::clone(e));
            },
            None => {},
        }
        i = i + 1;
    }
    assert(statuses@.take(i as int) =~= statuses@);
    Ok(n)
}

/// An append-only collection of handles of any payload types, which reports
/// how many of them have loaded and whether one has failed.
pub struct AssetLoadTracker {
    assets: Vec<Progress>,
}

impl AssetLoadTracker {
    /// The number of entries added so far.
    pub closed spec fn spec_len(&self) -> nat {
        self.assets@.len()
    }

    /// An empty tracker.
    pub fn new() -> (r: Self)
        ensures
            r.spec_len() == 0,
    {
        AssetLoadTracker { assets: Vec::new() }
    }

    /// The status cell of the entry at `i`.
    pub closed spec fn entry(&self, i: int) -> Progress {
        self.assets@[i]
    }

    /// Appends the status cell of `asset`; the tracker keeps no payload.
    pub fn add<T>(&mut self, asset: &Asset<T>)
        requires
            old(self).spec_len() < usize::MAX,
        ensures
            final(self).spec_len() == old(self).spec_len() + 1,
            forall|i: int| 0 <= i < old(self).spec_len() ==> #[trigger] final(self).entry(i) == old(self).entry(i),
            asset.reports_to(final(self).entry(old(self).spec_len() as int)),
    {
        self.assets.push(asset.progress());
    }

    /// The number of entries added so far.
    pub fn len(&self) -> (r: usize)
        ensures
            r == self.spec_len(),
    {
        self.assets.len()
    }

    /// Reads each entry's status once, in the order of insertion, stopping
    /// after the first failed one: the statuses read, the scan that
    /// `num_loaded` tallies.
    pub fn read_statuses(&self) -> (read: Vec<Status>)
        ensures
            is_scan(read@, self.spec_len()),
    {
        let mut read: Vec<Status> = Vec::new();
        let mut i: usize = 0;
        while i < self.assets.len()
            invariant
                i <= self.assets@.len(),
                read@.len() == i,
                forall|k: int| 0 <= k < i ==> !is_failed(#[trigger] read@[k]),
            decreases self.assets@.len() - i,
        {
            let st = self.assets[i].read();
            let failed = st.is_some() && st.as_ref().unwrap().is_err();
            read.push(st);
            if failed {
                return read;
            }
            i = i + 1;
        }
        read
    }

    /// Reads each entry's status once, in the order of insertion, and tallies
    /// them: the number of loaded entries, or the error of the first failed
    /// entry, after which no entry is read. The result is `tally` of the
    /// statuses read, as `tally_statuses` computes it.
    pub fn num_loaded(&self) -> (r: Result<usize, SharedError>)
        ensures
            exists|read: Seq<Status>| is_scan(read, self.spec_len()) && as_tally(r) == tally(read),
    {
        let read = self.read_statuses();
        tally_statuses(&read)
    }
}

} // verus!
