use vstd::prelude::*;

use crate::backend_mecha_function::BackEndMechaFunction;
use crate::mecha::{mecha_from_raw, raw_wf, Mecha, MechaError};

verus! {

/// How many records a batch refill fetches unless the accessor was built
/// with another batch size.
pub const CACHE_SIZE: usize = 5;

/// The end of the window a refill at `offset` covers once the fresh total
/// `total` is known: `min(offset + batch, total)`, never below the already
/// cached length `len` (positions below `len` are present and are not
/// fetched again).
pub open spec fn window_end(offset: int, batch: int, total: int, len: int) -> int {
    let cap = if offset + batch < total {
        offset + batch
    } else {
        total
    };
    if cap < len {
        len
    } else {
        cap
    }
}

/// The record the source `src` defines for `position`.
pub open spec fn source_record<F: BackEndMechaFunction>(src: F, position: int) -> Mecha {
    mecha_from_raw(src.raw_at(position))
}

/// Position `position` of source `src` both fetches successfully and
/// constructs a record: the only way it can enter the cached prefix.
pub open spec fn position_ok<F: BackEndMechaFunction>(src: F, position: int) -> bool {
    src.fetch_ok(position) && raw_wf(src.raw_at(position))
}

/// Every position in `lo .. hi` of source `src` fetches and constructs
/// successfully.
pub open spec fn range_ok<F: BackEndMechaFunction>(src: F, lo: int, hi: int) -> bool {
    forall|p: int| lo <= p < hi ==> position_ok(src, p)
}

/// A lazy, cache-backed sequential accessor over a remote record source.
///
/// The accessor owns an append-only local prefix of the collection
/// (`mecha_list`, covering positions `0 .. mecha_list.len()`), a cursor
/// (`index`, the position of the next record to produce), and the total
/// count as last observed from the source (`total_length`, zero until the
/// first refill). Records are produced one at a time in ordinal order;
/// whenever the cursor runs past the cached prefix, one batch of at most
/// `batch_size` records is fetched and appended.
pub struct CachedMechaCollection<F: BackEndMechaFunction> {
    mecha_list: Vec<Mecha>,
    index: usize,
    total_length: usize,
    batch_size: usize,
    backend_func: F,
    /// Every position ever passed to the source's per-position getter.
    fetched: Ghost<Set<int>>,
}

impl<F: BackEndMechaFunction> CachedMechaCollection<F> {
    /// The record source the accessor reads from.
    pub closed spec fn backend(&self) -> F {
        self.backend_func
    }

    /// The materialized prefix of the collection.
    pub closed spec fn cached(&self) -> Seq<Mecha> {
        self.mecha_list@
    }

    /// The position of the next record to produce.
    pub closed spec fn cursor(&self) -> int {
        self.index as int
    }

    /// The total count as last observed from the source (zero before the
    /// first refill).
    pub closed spec fn observed_total(&self) -> int {
        self.total_length as int
    }

    /// The total count the source itself reports.
    pub open spec fn src_total(&self) -> nat {
        self.backend().total_count()
    }

    /// The configured batch size.
    pub closed spec fn batch(&self) -> int {
        self.batch_size as int
    }

    /// The set of positions whose raw data was ever requested from the
    /// source.
    pub closed spec fn requested(&self) -> Set<int> {
        self.fetched@
    }

    /// Well-formedness, established by the constructors and preserved by
    /// every operation:
    /// - the cached prefix holds exactly the source's records for positions
    ///   `0 .. cached().len()`, in order;
    /// - the prefix never outgrows the source, and never outgrows the
    ///   observed total except while that total is still the unknown zero
    ///   of a fresh accessor (whose prefix is empty);
    /// - the cursor sits inside the prefix until the collection is
    ///   exhausted;
    /// - the requested positions are the cached ones, plus at most the one
    ///   position on which a failed refill stopped.
    pub open spec fn wf(&self) -> bool {
        &&& self.batch() >= 1
        &&& self.src_total() < usize::MAX as nat
        &&& self.cached().len() <= self.src_total()
        &&& (self.observed_total() == self.src_total() as int
            && self.cached().len() <= self.observed_total())
            || (self.observed_total() == 0 && self.cached().len() == 0)
        &&& forall|p: int| 0 <= p < self.cached().len() ==> #[trigger] position_ok(self.backend(), p)
        &&& forall|p: int|
            0 <= p < self.cached().len() ==> #[trigger] self.cached()[p] == source_record(self.backend(), p)
        &&& self.cursor() <= self.cached().len() || self.cursor() > self.src_total() as int
        &&& forall|p: int| 0 <= p < self.cached().len() ==> self.requested().contains(p)
        &&& forall|p: int|
            self.requested().contains(p) ==> 0 <= p <= self.cached().len()
    }

    /// Build an accessor with an empty cached prefix, cursor 0, and an
    /// as-yet-unknown (zero) total, fetching in batches of `CACHE_SIZE`.
    /// No remote calls are made.
    ///
    /// The source may not report `usize::MAX` records: the cursor, a
    /// `usize`, must be able to step one past the last position.
    pub fn new(backend_function: F) -> (r: Self)
        requires
            backend_function.total_count() < usize::MAX as nat,
        ensures
            r.wf(),
            r.backend() == backend_function,
            r.cached().len() == 0,
            r.cursor() == 0,
            r.observed_total() == 0,
            r.batch() == CACHE_SIZE as int,
            r.requested() == Set::<int>::empty(),
    {
        CachedMechaCollection {
            mecha_list: Vec::new(),
            index: 0,
            total_length: 0,
            batch_size: CACHE_SIZE,
            backend_func: backend_function,
            fetched: Ghost(Set::empty()),
        }
    }

    /// Like [`Self::new`], with an explicit batch size, so that callers and
    /// tests can pick a small window deterministically.
    pub fn with_batch_size(backend_function: F, batch_size: usize) -> (r: Self)
        requires
            batch_size >= 1,
            backend_function.total_count() < usize::MAX as nat,
        ensures
            r.wf(),
            r.backend() == backend_function,
            r.cached().len() == 0,
            r.cursor() == 0,
            r.observed_total() == 0,
            r.batch() == batch_size as int,
            r.requested() == Set::<int>::empty(),
    {
        CachedMechaCollection {
            mecha_list: Vec::new(),
            index: 0,
            total_length: 0,
            batch_size,
            backend_func: backend_function,
            fetched: Ghost(Set::empty()),
        }
    }

    /// Batch refill: re-query the total count from the source (the freshest
    /// value always wins), then fetch and append every record in the window
    /// `offset .. min(offset + batch, total)` that is not already cached.
    /// Positions below the cached length are present and are never fetched
    /// again. A refill past the cached prefix would tear a hole in it, so
    /// `offset` may not exceed the cached length.
    ///
    /// When triggered at the cached length `len` it appends exactly
    /// `min(batch, total - len)` records (none if `len >= total`). If any
    /// position in the window fails to fetch, or its raw data is malformed,
    /// the whole refill fails: the error is returned, and the prefix keeps
    /// exactly the positions before the first failing one.
    pub fn load_mecha_from_backend(&mut self, offset: usize) -> (r: Result<(), MechaError>)
        requires
            old(self).wf(),
            offset <= old(self).cached().len(),
        ensures
            final(self).wf(),
            final(self).backend() == old(self).backend(),
            final(self).cursor() == old(self).cursor(),
            final(self).batch() == old(self).batch(),
            final(self).observed_total() == old(self).src_total() as int,
            final(self).cached().len() >= old(self).cached().len(),
            forall|p: int|
                0 <= p < old(self).cached().len()
                    ==> #[trigger] final(self).cached()[p] == old(self).cached()[p],
            forall|p: int|
                old(self).cached().len() <= p < final(self).cached().len()
                    ==> #[trigger] final(self).cached()[p] == source_record(old(self).backend(), p),
            ({
                let len0 = old(self).cached().len() as int;
                let w = window_end(
                    offset as int,
                    old(self).batch(),
                    old(self).src_total() as int,
                    len0,
                );
                &&& (r is Ok <==> range_ok(old(self).backend(), len0, w))
                &&& (r is Ok ==> final(self).cached().len() == w
                    && final(self).requested()
                        == old(self).requested().union(Set::new(|p: int| len0 <= p < w)))
                &&& (r is Err ==> {
                    let stop = final(self).cached().len() as int;
                    &&& len0 <= stop < w
                    &&& range_ok(old(self).backend(), len0, stop)
                    &&& !position_ok(old(self).backend(), stop)
                    &&& (old(self).backend().fetch_ok(stop)
                        ==> r->Err_0 == MechaError::MalformedData)
                    &&& final(self).requested()
                        == old(self).requested().union(Set::new(|p: int| len0 <= p <= stop))
                })
            }),
    {
        let total = self.backend_func.get_total_mecha_owned();
        self.total_length = total;

        let mut end: usize = if total - offset > self.batch_size {
            offset + self.batch_size
        } else {
            total
        };
        let mut i: usize = self.mecha_list.len();
        if end < i {
            end = i;
        }
        proof {
            assert(self.fetched@ =~= old(self).requested().union(
                Set::new(|p: int| old(self).cached().len() <= p < i as int),
            ));
        }
        while i < end
            invariant
                old(self).wf(),
                offset <= old(self).cached().len(),
                self.backend() == old(self).backend(),
                self.index == old(self).index,
                self.batch_size == old(self).batch_size,
                self.total_length == total,
                total as nat == self.backend_func.total_count(),
                end as int == window_end(
                    offset as int,
                    self.batch_size as int,
                    total as int,
                    old(self).cached().len() as int,
                ),
                end <= total,
                old(self).cached().len() <= i,
                i <= end,
                i == self.mecha_list@.len(),
                forall|p: int|
                    0 <= p < old(self).cached().len()
                        ==> #[trigger] self.mecha_list@[p] == old(self).cached()[p],
                forall|p: int|
                    old(self).cached().len() <= p < i ==> #[trigger] position_ok(self.backend(), p),
                forall|p: int|
                    old(self).cached().len() <= p < i
                        ==> #[trigger] self.mecha_list@[p] == source_record(self.backend(), p),
                self.fetched@ == old(self).requested().union(
                    Set::new(|p: int| old(self).cached().len() <= p < i),
                ),
            decreases end - i,
        {
            let raw_result = self.backend_func.get_mecha_characteristics_by_id(i);
            self.fetched = Ghost(self.fetched@.insert(i as int));
            proof {
                assert(self.fetched@ =~= old(self).requested().union(
                    Set::new(|p: int| old(self).cached().len() <= p < i as int + 1),
                ));
            }
            match raw_result {
                Ok(raw) => {
                    match Mecha::new_from_blockchain(raw) {
                        Ok(mecha_instance) => {
                            self.mecha_list.push(mecha_instance);
                            proof {
                                assert(position_ok(self.backend(), i as int));
                                assert(self.mecha_list@[i as int]
                                    == source_record(self.backend(), i as int));
                            }
                        },
                        Err(e) => {
                            proof {
                                assert(!position_ok(old(self).backend(), i as int));
                                assert(self.fetched@ =~= old(self).requested().union(
                                    Set::new(
                                        |p: int|
                                            old(self).cached().len() <= p
                                                <= self.mecha_list@.len() as int,
                                    ),
                                ));
                            }
                            return Err(e);
                        },
                    }
                },
                Err(e) => {
                    proof {
                        assert(!position_ok(old(self).backend(), i as int));
                        assert(self.fetched@ =~= old(self).requested().union(
                            Set::new(
                                |p: int|
                                    old(self).cached().len() <= p
                                        <= self.mecha_list@.len() as int,
                            ),
                        ));
                    }
                    return Err(e);
                },
            }
            i = i + 1;
        }
        Ok(())
    }

    /// Produce the next record of the collection, or signal
    /// end-of-sequence with `Ok(None)`.
    ///
    /// The boundary convention is: the sequence is exhausted once the
    /// cursor is strictly greater than the total count as last observed (so
    /// the call at cursor == total still refreshes the total before
    /// signalling the end), and a refill is triggered as soon as the cursor
    /// reaches the cached length (positions `0 .. len` are the cached
    /// ones).
    ///
    /// If the cursor has passed the total count as last observed, the
    /// sequence is exhausted and nothing changes. Otherwise, if the cursor
    /// has run past the cached prefix, one batch refill is performed first;
    /// a refill failure is returned as the error, with the cursor left in
    /// place. Then the record at the cursor is copied out (end-of-sequence
    /// if even the fresh total does not cover the cursor) and the cursor
    /// moves one step forward.
    ///
    /// The cursor never moves backwards, and each non-failing call made
    /// before exhaustion advances it by exactly one.
    pub fn next(&mut self) -> (r: Result<Option<Mecha>, MechaError>)
        requires
            old(self).wf(),
        ensures
            final(self).wf(),
            final(self).backend() == old(self).backend(),
            final(self).batch() == old(self).batch(),
            final(self).cursor() >= old(self).cursor(),
            final(self).cached().len() >= old(self).cached().len(),
            forall|p: int|
                0 <= p < old(self).cached().len()
                    ==> #[trigger] final(self).cached()[p] == old(self).cached()[p],
            forall|p: int|
                old(self).cached().len() <= p < final(self).cached().len()
                    ==> #[trigger] final(self).cached()[p] == source_record(old(self).backend(), p),
            old(self).cursor() > old(self).observed_total()
                ==> r == Ok::<Option<Mecha>, MechaError>(None) && *final(self) == *old(self),
            old(self).cursor() <= old(self).observed_total() && !(r is Err)
                ==> final(self).cursor() == old(self).cursor() + 1,
            r is Err ==> final(self).cursor() == old(self).cursor(),
            r matches Ok(Some(m))
                ==> m == source_record(old(self).backend(), old(self).cursor())
                    && position_ok(old(self).backend(), old(self).cursor()),
            old(self).cursor() <= old(self).observed_total() ==> ({
                let i = old(self).cursor();
                let len0 = old(self).cached().len() as int;
                let w = window_end(i, old(self).batch(), old(self).src_total() as int, len0);
                &&& (i < len0 ==> r == Ok::<Option<Mecha>, MechaError>(Some(
                    old(self).cached()[i],
                )) && final(self).cached() == old(self).cached()
                    && final(self).observed_total() == old(self).observed_total()
                    && final(self).requested() == old(self).requested())
                &&& (i == len0 ==> {
                    &&& (r is Err <==> !range_ok(old(self).backend(), i, w))
                    &&& final(self).observed_total() == old(self).src_total() as int
                    &&& (range_ok(old(self).backend(), i, w) ==> {
                        &&& final(self).cached().len() == w
                        &&& final(self).requested() == old(self).requested().union(
                            Set::new(|p: int| i <= p < w),
                        )
                        &&& (i < old(self).src_total() as int
                            ==> r == Ok::<Option<Mecha>, MechaError>(Some(
                                source_record(old(self).backend(), i),
                            )))
                        &&& (i == old(self).src_total() as int
                            ==> r == Ok::<Option<Mecha>, MechaError>(None))
                    })
                    &&& (!range_ok(old(self).backend(), i, w) ==> {
                        let stop = final(self).cached().len() as int;
                        &&& i <= stop < w
                        &&& range_ok(old(self).backend(), i, stop)
                        &&& !position_ok(old(self).backend(), stop)
                        &&& (old(self).backend().fetch_ok(stop)
                            ==> r->Err_0 == MechaError::MalformedData)
                        &&& final(self).requested() == old(self).requested().union(
                            Set::new(|p: int| i <= p <= stop),
                        )
                    })
                })
            }),
    {
        if self.index > self.total_length {
            return Ok(None);
        }
        if self.index >= self.mecha_list.len() {
            match self.load_mecha_from_backend(self.index) {
                Ok(()) => {},
                Err(e) => {
                    return Err(e);
                },
            }
        }
        let ghost prior = *self;
        if self.index < self.mecha_list.len() {
            let mecha_instance = self.mecha_list[self.index].clone();
            self.index = self.index + 1;
            proof {
                assert(self.backend() == prior.backend());
                assert(self.cached() == prior.cached());
                assert(self.requested() == prior.requested());
                assert(self.observed_total() == prior.observed_total());
                assert(self.batch() == prior.batch());
            }
            Ok(Some(mecha_instance))
        } else {
            self.index = self.index + 1;
            proof {
                assert(self.backend() == prior.backend());
                assert(self.cached() == prior.cached());
                assert(self.requested() == prior.requested());
                assert(self.observed_total() == prior.observed_total());
                assert(self.batch() == prior.batch());
            }
            Ok(None)
        }
    }

    /// Drain a freshly constructed accessor: call [`Self::next`] until
    /// end-of-sequence, collecting every produced record.
    ///
    /// For a source of total count `N` whose positions all fetch and
    /// construct, this terminates after exactly `N` productions and hands
    /// back the records of positions `0, 1, .., N - 1` in that order.
    /// Otherwise it stops with the error of the first failing position,
    /// having cached exactly the positions before it.
    pub fn drain(&mut self) -> (r: Result<Vec<Mecha>, MechaError>)
        requires
            old(self).wf(),
            old(self).cursor() == 0,
            old(self).cached().len() == 0,
            old(self).observed_total() == 0,
        ensures
            final(self).wf(),
            final(self).backend() == old(self).backend(),
            r is Ok <==> range_ok(old(self).backend(), 0, old(self).src_total() as int),
            r matches Ok(v) ==> v@.len() == old(self).src_total()
                && (forall|k: int|
                    0 <= k < v@.len()
                        ==> #[trigger] v@[k] == source_record(old(self).backend(), k)),
            r is Err ==> final(self).cached().len() < old(self).src_total()
                && range_ok(old(self).backend(), 0, final(self).cached().len() as int)
                && !position_ok(old(self).backend(), final(self).cached().len() as int),
    {
        let mut produced: Vec<Mecha> = Vec::new();
        loop
            invariant
                self.wf(),
                self.backend() == old(self).backend(),
                self.cursor() == produced@.len(),
                produced@.len() <= self.src_total(),
                self.cursor() <= self.cached().len(),
                (self.observed_total() == 0 && self.cursor() == 0)
                    || self.observed_total() == self.src_total() as int,
                forall|k: int|
                    0 <= k < produced@.len()
                        ==> #[trigger] produced@[k] == source_record(old(self).backend(), k),
            decreases self.src_total() + 1 - self.cursor(),
        {
            match self.next() {
                Ok(Some(mecha_instance)) => {
                    produced.push(mecha_instance);
                },
                Ok(None) => {
                    return Ok(produced);
                },
                Err(e) => {
                    return Err(e);
                },
            }
        }
    }

    /// How many records are materialized locally.
    pub fn cached_count(&self) -> (r: usize)
        ensures
            r as int == self.cached().len(),
    {
        self.mecha_list.len()
    }

    /// The total count as last observed from the source.
    pub fn observed_total_count(&self) -> (r: usize)
        ensures
            r as int == self.observed_total(),
    {
        self.total_length
    }
}

/// No duplicate fetch: over any run in which every refill succeeded, the
/// requested positions are exactly the cached ones. A refill only ever
/// requests positions at or past the cached length, and those have never
/// been requested before, so the source's per-position getter is invoked
/// at most once per distinct ordinal position.
pub proof fn lemma_no_duplicate_fetch<F: BackEndMechaFunction>(
    c: CachedMechaCollection<F>,
    lo: int,
    hi: int,
)
    requires
        c.wf(),
        c.requested() =~= Set::new(|p: int| 0 <= p < c.cached().len()),
        c.cached().len() <= lo,
    ensures
        forall|p: int| lo <= p < hi ==> !c.requested().contains(p),
{
}

/// Ordinal order: in a well-formed accessor the cached prefix lists the
/// collection in position order — the record at index `p` is the source's
/// record for position `p` — so records are handed out along positions
/// `0, 1, 2, ..` with none skipped and none repeated.
pub proof fn lemma_ordinal_order<F: BackEndMechaFunction>(c: CachedMechaCollection<F>)
    requires
        c.wf(),
    ensures
        forall|p: int|
            0 <= p < c.cached().len()
                ==> #[trigger] c.cached()[p] == source_record(c.backend(), p),
{
}

} // verus!
