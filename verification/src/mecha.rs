use vstd::prelude::*;

verus! {

/// The raw characteristics a record source hands out for one ordinal
/// position. A record is constructed from this and nothing else.
#[derive(Debug)]
pub struct MechaRawData {
    pub name: String,
}

/// Why a fetch or a construction step failed. End-of-sequence is not an
/// error and is signalled separately, by `Ok(None)` from the accessor.
#[derive(Clone, Copy, Debug, PartialEq, Eq, Structural)]
pub enum MechaError {
    /// The record source could not deliver the raw data for a position.
    SourceFailure,
    /// The raw data was malformed: a mecha must carry a non-empty name.
    MalformedData,
}

/// One immutable record of the remote collection.
#[derive(Debug)]
pub struct Mecha {
    pub name: String,
}

/// Raw data is well formed exactly when it carries a non-empty name.
pub open spec fn raw_wf(raw: MechaRawData) -> bool {
    raw.name@.len() > 0
}

/// The record that well-formed raw data constructs.
pub open spec fn mecha_from_raw(raw: MechaRawData) -> Mecha {
    Mecha { name: raw.name }
}

impl Clone for MechaRawData {
    fn clone(&self) -> (r: Self)
        ensures
            r == *self,
    {
        MechaRawData { name: self.name.clone() }
    }
}

impl Clone for Mecha {
    fn clone(&self) -> (r: Self)
        ensures
            r == *self,
    {
        Mecha { name: self.name.clone() }
    }
}

impl Mecha {
    /// Construct a record from raw source data. This is a pure conversion;
    /// it fails exactly when the raw data is malformed.
    pub fn new_from_blockchain(raw: MechaRawData) -> (r: Result<Mecha, MechaError>)
        ensures
            r is Ok <==> raw_wf(raw),
            r is Ok ==> r->Ok_0 == mecha_from_raw(raw),
            r is Err ==> r->Err_0 == MechaError::MalformedData,
    {
        if raw.name.as_str().unicode_len() == 0 {
            Err(MechaError::MalformedData)
        } else {
            Ok(Mecha { name: raw.name })
        }
    }
}

} // verus!
