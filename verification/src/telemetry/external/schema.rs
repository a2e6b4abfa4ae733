//! The record type of the removed event mappings.
use vstd::prelude::*;

verus! {

/// An exported record: carries no data.
#[derive(Debug, Clone, Copy, Default, PartialEq, Eq, Structural)]
pub struct ExternalRecord;

/// Every event maps to no record.
pub fn map_event<E>(_event: &E) -> (res: Option<ExternalRecord>)
    ensures
        res is None,
{
    None
}

} // verus!
