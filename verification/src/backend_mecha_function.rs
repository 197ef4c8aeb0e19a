use vstd::prelude::*;

use crate::mecha::{MechaError, MechaRawData};

verus! {

/// The capability a remote record source must supply: the current size of
/// the collection, and the raw data for one zero-based ordinal position.
///
/// Calls are queries: they take `&self`, and a given source value always
/// answers the same way, which is what lets the accessor treat repeated
/// calls as idempotent. The three spec functions are the abstract content
/// of a source; each executable method is pinned to them by its contract,
/// so every implementation, the in-memory test double included, is held to
/// the same story.
pub trait BackEndMechaFunction {
    /// How many records the source currently holds. Valid ordinal
    /// positions are `0 .. total_count() - 1`.
    spec fn total_count(&self) -> nat;

    /// Whether the raw-data query succeeds for `position`.
    spec fn fetch_ok(&self, position: int) -> bool;

    /// The raw data the source returns for `position` when the query
    /// succeeds.
    spec fn raw_at(&self, position: int) -> MechaRawData;

    /// Query the current total number of records.
    fn get_total_mecha_owned(&self) -> (r: usize)
        ensures
            r as nat == self.total_count(),
    ;

    /// Query the raw data for one ordinal position. The result for a
    /// position at or past `total_count()` is undefined, so such calls are
    /// ruled out.
    fn get_mecha_characteristics_by_id(&self, position: usize) -> (r: Result<MechaRawData, MechaError>)
        requires
            (position as nat) < self.total_count(),
        ensures
            r is Ok <==> self.fetch_ok(position as int),
            r is Ok ==> r->Ok_0 == self.raw_at(position as int),
    ;
}

} // verus!
