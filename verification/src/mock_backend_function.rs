use vstd::prelude::*;

use crate::backend_mecha_function::BackEndMechaFunction;
use crate::mecha::{MechaError, MechaRawData};

verus! {

/// A deterministic in-memory record source. It backs the tests, so that no
/// real remote calls are needed, and it doubles as the one verified
/// implementation of the source capability: each entry is either the raw
/// data for that position or a position whose fetch fails.
pub struct MockBackend {
    entries: Vec<Option<MechaRawData>>,
}

impl MockBackend {
    /// The sequence of entries, one per ordinal position.
    pub closed spec fn entries_view(&self) -> Seq<Option<MechaRawData>> {
        self.entries@
    }

    /// An empty source: no records at all.
    pub fn new() -> (r: Self)
        ensures
            r.entries_view().len() == 0,
    {
        MockBackend { entries: Vec::new() }
    }

    /// Append one record whose raw data carries `name`.
    pub fn generate_new_mecha(&mut self, name: String)
        ensures
            final(self).entries_view()
                == old(self).entries_view().push(Some((MechaRawData { name: name }))),
    {
        self.entries.push(Some(MechaRawData { name }));
    }

    /// Append a position whose raw-data query fails.
    pub fn generate_unavailable_position(&mut self)
        ensures
            final(self).entries_view()
                == old(self).entries_view().push(None::<MechaRawData>),
    {
        self.entries.push(None);
    }
}

impl BackEndMechaFunction for MockBackend {
    open spec fn total_count(&self) -> nat {
        self.entries_view().len()
    }

    open spec fn fetch_ok(&self, position: int) -> bool {
        0 <= position < self.entries_view().len() && self.entries_view()[position] is Some
    }

    open spec fn raw_at(&self, position: int) -> MechaRawData {
        self.entries_view()[position]->0
    }

    fn get_total_mecha_owned(&self) -> (r: usize) {
        self.entries.len()
    }

    fn get_mecha_characteristics_by_id(&self, position: usize) -> (r: Result<MechaRawData, MechaError>) {
        match &self.entries[position] {
            Some(raw) => Ok(raw.clone()),
            None => Err(MechaError::SourceFailure),
        }
    }
}

} // verus!
