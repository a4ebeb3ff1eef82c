//! The command type: an immutable description of one pending write.

use vstd::prelude::*;
use crate::model::{Currency, InstrumentAny};

verus! {

/// One pending write. Every command is an upsert keyed by a natural identity:
/// the generic key, the currency code, or the instrument identifier.
#[derive(Clone, Debug)]
pub enum DatabaseQuery {
    Add(String, Vec<u8>),
    AddCurrency(Currency),
    AddInstrument(InstrumentAny),
}

/// Whether a later command `b` writes the same storage slot (same table, same
/// key) as `a`, and so would overwrite it.
pub open spec fn overwrites(b: DatabaseQuery, a: DatabaseQuery) -> bool {
    match (b, a) {
        (DatabaseQuery::Add(kb, _), DatabaseQuery::Add(ka, _)) => kb@ == ka@,
        (DatabaseQuery::AddCurrency(cb), DatabaseQuery::AddCurrency(ca)) => cb.code@ == ca.code@,
        (DatabaseQuery::AddInstrument(ib), DatabaseQuery::AddInstrument(ia)) => ib.id_view()
            == ia.id_view(),
        _ => false,
    }
}

} // verus!
