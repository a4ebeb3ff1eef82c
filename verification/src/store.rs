//! The storage gateway and the read path, over an in-memory relational state.
//!
//! Storage is three tables of keyed rows: generic key/blob entries, currencies
//! keyed by code, and instruments keyed by identifier. Every write is an
//! upsert: one atomic operation per command, conflicting identity overwrites.
//! The meaning of the state is a [`StoreModel`], three mathematical mappings;
//! every operation's contract is stated against it.

use vstd::prelude::*;
use vstd::string::StringExecFns;
use crate::assoc::{assoc_map, keys_unique, lemma_assoc_map_contains, lemma_assoc_map_index,
    lemma_assoc_map_push, lemma_assoc_map_update};
use crate::command::DatabaseQuery;
use crate::model::{Currency, InstrumentAny, InstrumentId};

verus! {

/// The rows of the generic table, as key/value views.
pub open spec fn general_pairs(s: Seq<(String, Vec<u8>)>) -> Seq<(Seq<char>, Seq<u8>)> {
    s.map(|i: int, p: (String, Vec<u8>)| (p.0@, p.1@))
}

/// The rows of the currency table, keyed by code.
pub open spec fn currency_pairs(s: Seq<Currency>) -> Seq<(Seq<char>, Currency)> {
    s.map(|i: int, c: Currency| (c.code@, c))
}

/// The rows of the instrument tables, keyed by instrument identifier.
pub open spec fn instrument_pairs(s: Seq<InstrumentAny>) -> Seq<(Seq<char>, InstrumentAny)> {
    s.map(|i: int, x: InstrumentAny| (x.id_view(), x))
}

/// What the store means: a mapping per table, keyed by natural identity.
#[verifier::ext_equal]
pub struct StoreModel {
    pub general: Map<Seq<char>, Seq<u8>>,
    pub currencies: Map<Seq<char>, Currency>,
    pub instruments: Map<Seq<char>, InstrumentAny>,
}

/// The state of a freshly created store: every table empty.
pub open spec fn empty_model() -> StoreModel {
    StoreModel {
        general: Map::empty(),
        currencies: Map::empty(),
        instruments: Map::empty(),
    }
}

/// One command as one atomic upsert against the mapping its key lives in.
pub open spec fn apply_one(m: StoreModel, cmd: DatabaseQuery) -> StoreModel {
    match cmd {
        DatabaseQuery::Add(k, v) => StoreModel {
            general: m.general.insert(k@, v@),
            currencies: m.currencies,
            instruments: m.instruments,
        },
        DatabaseQuery::AddCurrency(c) => StoreModel {
            general: m.general,
            currencies: m.currencies.insert(c.code@, c),
            instruments: m.instruments,
        },
        DatabaseQuery::AddInstrument(x) => StoreModel {
            general: m.general,
            currencies: m.currencies,
            instruments: m.instruments.insert(x.id_view(), x),
        },
    }
}

/// A whole sequence of commands applied in order, first to last.
pub open spec fn apply_all(m: StoreModel, cmds: Seq<DatabaseQuery>) -> StoreModel
    decreases cmds.len(),
{
    if cmds.len() == 0 {
        m
    } else {
        apply_all(apply_one(m, cmds[0]), cmds.subrange(1, cmds.len() as int))
    }
}

/// Flush boundaries do not matter: applying two batches one after the other
/// is applying their concatenation.
pub proof fn lemma_apply_all_append(m: StoreModel, a: Seq<DatabaseQuery>, b: Seq<DatabaseQuery>)
    ensures
        apply_all(m, a + b) == apply_all(apply_all(m, a), b),
    decreases a.len(),
{
    if a.len() == 0 {
        assert(a + b =~= b);
    } else {
        assert((a + b)[0] == a[0]);
        assert((a + b).subrange(1, (a + b).len() as int) =~= a.subrange(1, a.len() as int) + b);
        lemma_apply_all_append(apply_one(m, a[0]), a.subrange(1, a.len() as int), b);
    }
}

/// In-memory storage: the tables the gateway writes and the read path reads.
pub struct CacheStore {
    general: Vec<(String, Vec<u8>)>,
    currencies: Vec<Currency>,
    instruments: Vec<InstrumentAny>,
}

impl CacheStore {
    /// Each table holds at most one row per key.
    pub closed spec fn wf(&self) -> bool {
        &&& keys_unique(general_pairs(self.general@))
        &&& keys_unique(currency_pairs(self.currencies@))
        &&& keys_unique(instrument_pairs(self.instruments@))
    }

    /// The mappings the tables currently hold.
    pub closed spec fn model(&self) -> StoreModel {
        StoreModel {
            general: assoc_map(general_pairs(self.general@)),
            currencies: assoc_map(currency_pairs(self.currencies@)),
            instruments: assoc_map(instrument_pairs(self.instruments@)),
        }
    }

    pub fn new() -> (r: Self)
        ensures
            r.wf(),
            r.model() == empty_model(),
    {
        let r = CacheStore { general: Vec::new(), currencies: Vec::new(), instruments: Vec::new() };
        proof {
            assert(r.model() =~~= empty_model());
        }
        r
    }

    fn find_general(&self, key: &String) -> (r: Option<usize>)
        ensures
            match r {
                Some(i) => i < self.general@.len() && self.general@[i as int].0@ == key@,
                None => forall|j: int| 0 <= j < self.general@.len() ==> self.general@[j].0@ != key@,
            },
    {
        let mut i: usize = 0;
        while i < self.general.len()
            invariant
                i <= self.general@.len(),
                forall|j: int| 0 <= j < i ==> self.general@[j].0@ != key@,
            decreases self.general@.len() - i,
        {
            if self.general[i].0 == *key {
                return Some(i);
            }
            i += 1;
        }
        None
    }

    fn find_currency(&self, code: &String) -> (r: Option<usize>)
        ensures
            match r {
                Some(i) => i < self.currencies@.len() && self.currencies@[i as int].code@ == code@,
                None => forall|j: int|
                    0 <= j < self.currencies@.len() ==> self.currencies@[j].code@ != code@,
            },
    {
        let mut i: usize = 0;
        while i < self.currencies.len()
            invariant
                i <= self.currencies@.len(),
                forall|j: int| 0 <= j < i ==> self.currencies@[j].code@ != code@,
            decreases self.currencies@.len() - i,
        {
            if self.currencies[i].code == *code {
                return Some(i);
            }
            i += 1;
        }
        None
    }

    fn find_instrument(&self, id: &InstrumentId) -> (r: Option<usize>)
        ensures
            match r {
                Some(i) => i < self.instruments@.len() && self.instruments@[i as int].id_view()
                    == id.value@,
                None => forall|j: int|
                    0 <= j < self.instruments@.len() ==> self.instruments@[j].id_view()
                        != id.value@,
            },
    {
        let mut i: usize = 0;
        while i < self.instruments.len()
            invariant
                i <= self.instruments@.len(),
                forall|j: int| 0 <= j < i ==> self.instruments@[j].id_view() != id.value@,
            decreases self.instruments@.len() - i,
        {
            if self.instruments[i].id().value == id.value {
                return Some(i);
            }
            i += 1;
        }
        None
    }

    fn upsert_general(&mut self, key: String, value: Vec<u8>)
        requires
            old(self).wf(),
        ensures
            final(self).wf(),
            final(self).model() == apply_one(old(self).model(), DatabaseQuery::Add(key, value)),
    {
        let ghost s = general_pairs(old(self).general@);
        match self.find_general(&key) {
            Some(i) => {
                self.general[i] = (key, value);
                proof {
                    lemma_assoc_map_update(s, i as int, value@);
                    assert(general_pairs(self.general@) =~= s.update(i as int, (s[i as int].0,
                        value@)));
                }
            },
            None => {
                self.general.push((key, value));
                proof {
                    lemma_assoc_map_push(s, key@, value@);
                    assert(general_pairs(self.general@) =~= s.push((key@, value@)));
                    assert(keys_unique(general_pairs(self.general@)));
                }
            },
        }
    }

    fn upsert_currency(&mut self, currency: Currency)
        requires
            old(self).wf(),
        ensures
            final(self).wf(),
            final(self).model() == apply_one(
                old(self).model(),
                DatabaseQuery::AddCurrency(currency),
            ),
    {
        let ghost s = currency_pairs(old(self).currencies@);
        match self.find_currency(&currency.code) {
            Some(i) => {
                self.currencies[i] = currency;
                proof {
                    lemma_assoc_map_update(s, i as int, currency);
                    assert(currency_pairs(self.currencies@) =~= s.update(i as int, (s[i as int].0,
                        currency)));
                }
            },
            None => {
                self.currencies.push(currency);
                proof {
                    lemma_assoc_map_push(s, currency.code@, currency);
                    assert(currency_pairs(self.currencies@) =~= s.push((currency.code@, currency)));
                    assert(keys_unique(currency_pairs(self.currencies@)));
                }
            },
        }
    }

    fn upsert_instrument(&mut self, instrument: InstrumentAny)
        requires
            old(self).wf(),
        ensures
            final(self).wf(),
            final(self).model() == apply_one(
                old(self).model(),
                DatabaseQuery::AddInstrument(instrument),
            ),
    {
        let ghost s = instrument_pairs(old(self).instruments@);
        let id = instrument.id().clone();
        match self.find_instrument(&id) {
            Some(i) => {
                self.instruments[i] = instrument;
                proof {
                    lemma_assoc_map_update(s, i as int, instrument);
                    assert(instrument_pairs(self.instruments@) =~= s.update(i as int, (s[i
                        as int].0, instrument)));
                }
            },
            None => {
                self.instruments.push(instrument);
                proof {
                    lemma_assoc_map_push(s, instrument.id_view(), instrument);
                    assert(instrument_pairs(self.instruments@) =~= s.push((instrument.id_view(),
                        instrument)));
                    assert(keys_unique(instrument_pairs(self.instruments@)));
                }
            },
        }
    }

    /// Execute one command as its single atomic storage operation. The
    /// instrument dispatch inside is exhaustive over the eight variants.
    pub fn apply(&mut self, cmd: DatabaseQuery)
        requires
            old(self).wf(),
        ensures
            final(self).wf(),
            final(self).model() == apply_one(old(self).model(), cmd),
    {
        match cmd {
            DatabaseQuery::Add(key, value) => self.upsert_general(key, value),
            DatabaseQuery::AddCurrency(currency) => self.upsert_currency(currency),
            DatabaseQuery::AddInstrument(instrument) => self.upsert_instrument(instrument),
        }
    }

    /// Full scan of the generic table: the key/blob mapping, one row per key.
    pub fn load(&self) -> (r: Vec<(String, Vec<u8>)>)
        requires
            self.wf(),
        ensures
            keys_unique(general_pairs(r@)),
            assoc_map(general_pairs(r@)) == self.model().general,
    {
        let mut out: Vec<(String, Vec<u8>)> = Vec::new();
        let mut i: usize = 0;
        while i < self.general.len()
            invariant
                i <= self.general@.len(),
                out@.len() == i,
                forall|j: int|
                    0 <= j < i ==> out@[j].0@ == self.general@[j].0@ && out@[j].1@
                        == self.general@[j].1@,
            decreases self.general@.len() - i,
        {
            let p = &self.general[i];
            out.push((p.0.clone(), clone_bytes(&p.1)));
            i += 1;
        }
        proof {
            assert(general_pairs(out@) =~= general_pairs(self.general@));
        }
        out
    }

    /// Point read of a currency by code; absence is an empty result.
    pub fn load_currency(&self, code: &str) -> (r: Option<Currency>)
        requires
            self.wf(),
        ensures
            match r {
                Some(c) => self.model().currencies.contains_key(code@) && c
                    == self.model().currencies[code@],
                None => !self.model().currencies.contains_key(code@),
            },
    {
        let needle = String::from_str(code);
        match self.find_currency(&needle) {
            Some(i) => {
                proof {
                    lemma_assoc_map_index(currency_pairs(self.currencies@), i as int);
                }
                Some(self.currencies[i].clone())
            },
            None => {
                proof {
                    lemma_assoc_map_contains(currency_pairs(self.currencies@), code@);
                }
                None
            },
        }
    }

    /// Full read of the currency table.
    pub fn load_currencies(&self) -> (r: Vec<Currency>)
        requires
            self.wf(),
        ensures
            keys_unique(currency_pairs(r@)),
            assoc_map(currency_pairs(r@)) == self.model().currencies,
    {
        let mut out: Vec<Currency> = Vec::new();
        let mut i: usize = 0;
        while i < self.currencies.len()
            invariant
                i <= self.currencies@.len(),
                out@ =~= self.currencies@.subrange(0, i as int),
            decreases self.currencies@.len() - i,
        {
            out.push(self.currencies[i].clone());
            i += 1;
        }
        proof {
            assert(out@ =~= self.currencies@);
        }
        out
    }

    /// Point read of an instrument by identifier, reconstructed as whichever
    /// variant was stored; absence is an empty result.
    pub fn load_instrument(&self, instrument_id: &InstrumentId) -> (r: Option<InstrumentAny>)
        requires
            self.wf(),
        ensures
            match r {
                Some(x) => self.model().instruments.contains_key(instrument_id.value@) && x
                    == self.model().instruments[instrument_id.value@],
                None => !self.model().instruments.contains_key(instrument_id.value@),
            },
    {
        match self.find_instrument(instrument_id) {
            Some(i) => {
                proof {
                    lemma_assoc_map_index(instrument_pairs(self.instruments@), i as int);
                }
                Some(self.instruments[i].clone())
            },
            None => {
                proof {
                    lemma_assoc_map_contains(instrument_pairs(self.instruments@),
                        instrument_id.value@);
                }
                None
            },
        }
    }

    /// Full read across all instrument tables.
    pub fn load_instruments(&self) -> (r: Vec<InstrumentAny>)
        requires
            self.wf(),
        ensures
            keys_unique(instrument_pairs(r@)),
            assoc_map(instrument_pairs(r@)) == self.model().instruments,
    {
        let mut out: Vec<InstrumentAny> = Vec::new();
        let mut i: usize = 0;
        while i < self.instruments.len()
            invariant
                i <= self.instruments@.len(),
                out@ =~= self.instruments@.subrange(0, i as int),
            decreases self.instruments@.len() - i,
        {
            out.push(self.instruments[i].clone());
            i += 1;
        }
        proof {
            assert(out@ =~= self.instruments@);
        }
        out
    }
}

/// Copy a blob byte for byte.
fn clone_bytes(v: &Vec<u8>) -> (r: Vec<u8>)
    ensures
        r@ == v@,
{
    let mut out: Vec<u8> = Vec::new();
    let mut i: usize = 0;
    while i < v.len()
        invariant
            i <= v@.len(),
            out@ =~= v@.subrange(0, i as int),
        decreases v@.len() - i,
    {
        out.push(v[i]);
        i += 1;
    }
    proof {
        assert(out@ =~= v@);
    }
    out
}

/// Flush an entire buffer to storage in arrival order, front to back: the
/// state afterwards is exactly the buffered commands folded over the state
/// before, and the buffer is empty.
pub fn drain_buffer(store: &mut CacheStore, buffer: &mut Vec<DatabaseQuery>)
    requires
        old(store).wf(),
    ensures
        final(store).wf(),
        final(store).model() == apply_all(old(store).model(), old(buffer)@),
        final(buffer)@.len() == 0,
{
    while buffer.len() > 0
        invariant
            store.wf(),
            apply_all(store.model(), buffer@) == apply_all(old(store).model(), old(buffer)@),
        decreases buffer@.len(),
    {
        let ghost prev = buffer@;
        let cmd = buffer.remove(0);
        proof {
            assert(buffer@ =~= prev.subrange(1, prev.len() as int));
        }
        store.apply(cmd);
    }
}

} // verus!
