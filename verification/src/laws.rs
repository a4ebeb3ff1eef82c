//! Properties of the storage semantics, stated and proved once for every
//! state and every command sequence.

use vstd::prelude::*;
use crate::command::{overwrites, DatabaseQuery};
use crate::queue::{enqueue_spec, CommandQueue, EnqueueResult};
use crate::store::{apply_all, apply_one, StoreModel};

verus! {

/// Backpressure, not drop: an offered command is never silently lost. Either
/// it is appended to the pending sequence and acknowledged, or the queue is
/// untouched and the command is handed back — because the queue is at
/// capacity (the producer must wait) or closed (a send error).
pub proof fn lemma_no_silent_loss(
    pre: CommandQueue,
    post: CommandQueue,
    cmd: DatabaseQuery,
    r: EnqueueResult,
)
    requires
        pre.wf(),
        post.wf(),
        enqueue_spec(pre, post, cmd, r),
    ensures
        post.pending() == pre.pending().push(cmd) && r == EnqueueResult::Accepted || post.pending()
            == pre.pending() && (r == EnqueueResult::Full(cmd) || r == EnqueueResult::Closed(cmd)),
        post.pending().len() <= post.capacity_spec(),
{
}

/// Upsert idempotence: applying an identical command twice yields the same
/// observable storage state as applying it once.
pub proof fn lemma_upsert_idempotent(m: StoreModel, cmd: DatabaseQuery)
    ensures
        apply_one(apply_one(m, cmd), cmd) == apply_one(m, cmd),
{
    assert(apply_one(apply_one(m, cmd), cmd) =~~= apply_one(m, cmd));
}

/// Read-after-flush consistency: once a command is applied, a read of its
/// key or identifier reflects the new value exactly.
pub proof fn lemma_read_after_flush(m: StoreModel, cmd: DatabaseQuery)
    ensures
        match cmd {
            DatabaseQuery::Add(k, v) => apply_one(m, cmd).general.contains_key(k@) && apply_one(
                m,
                cmd,
            ).general[k@] == v@,
            DatabaseQuery::AddCurrency(c) => apply_one(m, cmd).currencies.contains_key(c.code@)
                && apply_one(m, cmd).currencies[c.code@] == c,
            DatabaseQuery::AddInstrument(x) => apply_one(m, cmd).instruments.contains_key(
                x.id_view(),
            ) && apply_one(m, cmd).instruments[x.id_view()] == x,
        },
{
}

/// A storage slot that no command in `cmds` writes is left exactly as it was.
pub proof fn lemma_untouched_slot(m: StoreModel, cmds: Seq<DatabaseQuery>, target: DatabaseQuery)
    requires
        forall|j: int| 0 <= j < cmds.len() ==> !overwrites(cmds[j], target),
    ensures
        match target {
            DatabaseQuery::Add(k, _) => apply_all(m, cmds).general.contains_key(k@)
                == m.general.contains_key(k@) && (m.general.contains_key(k@) ==> apply_all(
                m,
                cmds,
            ).general[k@] == m.general[k@]),
            DatabaseQuery::AddCurrency(c) => apply_all(m, cmds).currencies.contains_key(c.code@)
                == m.currencies.contains_key(c.code@) && (m.currencies.contains_key(c.code@)
                ==> apply_all(m, cmds).currencies[c.code@] == m.currencies[c.code@]),
            DatabaseQuery::AddInstrument(x) => apply_all(m, cmds).instruments.contains_key(
                x.id_view(),
            ) == m.instruments.contains_key(x.id_view()) && (m.instruments.contains_key(x.id_view())
                ==> apply_all(m, cmds).instruments[x.id_view()] == m.instruments[x.id_view()]),
        },
    decreases cmds.len(),
{
    if cmds.len() > 0 {
        let rest = cmds.subrange(1, cmds.len() as int);
        assert(!overwrites(cmds[0], target));
        assert(forall|j: int| 0 <= j < rest.len() ==> rest[j] == cmds[j + 1]);
        lemma_untouched_slot(apply_one(m, cmds[0]), rest, target);
    }
}

/// Ordering, observed per key: the command that wrote a slot last is the one
/// a read of that slot reflects after the whole sequence is applied.
pub proof fn lemma_last_write_wins(m: StoreModel, cmds: Seq<DatabaseQuery>, i: int)
    requires
        0 <= i < cmds.len(),
        forall|j: int| i < j < cmds.len() ==> !overwrites(cmds[j], cmds[i]),
    ensures
        match cmds[i] {
            DatabaseQuery::Add(k, v) => apply_all(m, cmds).general.contains_key(k@) && apply_all(
                m,
                cmds,
            ).general[k@] == v@,
            DatabaseQuery::AddCurrency(c) => apply_all(m, cmds).currencies.contains_key(c.code@)
                && apply_all(m, cmds).currencies[c.code@] == c,
            DatabaseQuery::AddInstrument(x) => apply_all(m, cmds).instruments.contains_key(
                x.id_view(),
            ) && apply_all(m, cmds).instruments[x.id_view()] == x,
        },
    decreases i,
{
    let rest = cmds.subrange(1, cmds.len() as int);
    assert(forall|j: int| 0 <= j < rest.len() ==> rest[j] == cmds[j + 1]);
    if i == 0 {
        lemma_read_after_flush(m, cmds[0]);
        lemma_untouched_slot(apply_one(m, cmds[0]), rest, cmds[0]);
    } else {
        lemma_last_write_wins(apply_one(m, cmds[0]), rest, i - 1);
        assert(rest[i - 1] == cmds[i]);
    }
}

} // verus!
