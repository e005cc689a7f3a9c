//! Properties of the storage model that relate several operations: what a
//! listing shows right after an insert, what a retention pass may and may
//! not delete, and what deleting or re-probing a target leaves behind.

use vstd::prelude::*;

use crate::store::CpuRow;
use crate::store::UrlRow;
use crate::store::UrlData;
use crate::store::cpu_table_wf;
use crate::store::url_table_wf;
use crate::store::retained_cpu;
use crate::store::without_url;
use crate::store::with_url_status;
use crate::store::row_with_status;
use crate::store::history_rows;
use crate::store::url_entry_matches;
use crate::store::RETENTION_SECS;
use crate::store::HISTORY_LIMIT;

verus! {

/// A sample just inserted is the first entry of the next history listing.
pub proof fn lemma_insert_round_trip(rows: Seq<CpuRow>, row: CpuRow)
    ensures
        history_rows(rows.push(row)).len() >= 1,
        history_rows(rows.push(row))[0] == row,
{
}

/// A history listing never exceeds the cap, and runs newest first: ids
/// strictly descend, and creation times never increase.
pub proof fn lemma_history_bounded_sorted(rows: Seq<CpuRow>, next_id: u32)
    requires
        cpu_table_wf(rows, next_id),
    ensures
        history_rows(rows).len() <= HISTORY_LIMIT,
        forall|a: int, b: int|
            #![trigger history_rows(rows)[a], history_rows(rows)[b]]
            0 <= a < b < history_rows(rows).len() ==> history_rows(rows)[a].id
                > history_rows(rows)[b].id && history_rows(rows)[a].created_at
                >= history_rows(rows)[b].created_at,
{
    let h = history_rows(rows);
    assert forall|a: int, b: int|
        #![trigger h[a], h[b]]
        0 <= a < b < h.len() implies h[a].id > h[b].id && h[a].created_at
        >= h[b].created_at by {
        let i = rows.len() - 1 - b;
        let j = rows.len() - 1 - a;
        assert(rows[i].id < rows[j].id && rows[i].created_at <= rows[j].created_at);
    }
}

/// When no two rows share a creation time — samples taken in distinct
/// seconds — the history listing is strictly descending in creation time.
pub proof fn lemma_history_strictly_sorted(rows: Seq<CpuRow>, next_id: u32)
    requires
        cpu_table_wf(rows, next_id),
        forall|i: int, j: int|
            #![trigger rows[i], rows[j]]
            0 <= i < j < rows.len() ==> rows[i].created_at != rows[j].created_at,
    ensures
        forall|a: int, b: int|
            #![trigger history_rows(rows)[a], history_rows(rows)[b]]
            0 <= a < b < history_rows(rows).len() ==> history_rows(rows)[a].created_at
                > history_rows(rows)[b].created_at,
{
    let h = history_rows(rows);
    assert forall|a: int, b: int|
        #![trigger h[a], h[b]]
        0 <= a < b < h.len() implies h[a].created_at > h[b].created_at by {
        let i = rows.len() - 1 - b;
        let j = rows.len() - 1 - a;
        assert(rows[i].created_at <= rows[j].created_at);
        assert(rows[i].created_at != rows[j].created_at);
    }
}

/// The retention pass never deletes a row whose age is within the window.
pub proof fn lemma_flush_spares_recent(rows: Seq<CpuRow>, now: u64, i: int)
    requires
        0 <= i < rows.len(),
        rows[i].created_at + RETENTION_SECS >= now,
    ensures
        retained_cpu(rows, now).contains(rows[i]),
    decreases rows.len(),
{
    let f = retained_cpu(rows, now);
    let rest = retained_cpu(rows.drop_last(), now);
    if i == rows.len() - 1 {
        assert(f[f.len() - 1] == rows[i]);
    } else {
        lemma_flush_spares_recent(rows.drop_last(), now, i);
        let k = choose|k: int| 0 <= k < rest.len() && rest[k] == rows.drop_last()[i];
        assert(f[k] == rows[i]);
    }
}

/// Run twice at the same instant with no rows added in between, the
/// retention pass deletes nothing the second time.
pub proof fn lemma_flush_idempotent(rows: Seq<CpuRow>, now: u64)
    ensures
        retained_cpu(retained_cpu(rows, now), now) == retained_cpu(rows, now),
    decreases rows.len(),
{
    if rows.len() == 0 {
    } else {
        let rest = retained_cpu(rows.drop_last(), now);
        lemma_flush_idempotent(rows.drop_last(), now);
        if rows.last().created_at + RETENTION_SECS >= now {
            crate::store::lemma_retained_cpu_push(rest, rows.last(), now);
        }
    }
}

/// A target just created is listed exactly once: it is the last row, no
/// earlier row carries its id, and a listing reports its status as unset.
pub proof fn lemma_create_listed_once(rows: Seq<UrlRow>, next_id: i32, r: UrlRow)
    requires
        url_table_wf(rows, next_id),
        r.id == next_id,
        r.status_code is None,
    ensures
        rows.push(r).len() == rows.len() + 1,
        rows.push(r)[rows.len() as int] == r,
        forall|i: int| 0 <= i < rows.len() ==> (#[trigger] rows.push(r)[i]).id != r.id,
        forall|d: UrlData| #[trigger] url_entry_matches(d, r) ==> d.status_code == 0,
{
}

/// Writing a probe outcome back changes exactly the probed target's
/// status code and nothing else.
pub proof fn lemma_update_sets_status(rows: Seq<UrlRow>, id: i32, code: i32)
    ensures
        with_url_status(rows, id, code).len() == rows.len(),
        forall|i: int|
            0 <= i < rows.len() && rows[i].id == id ==> #[trigger] with_url_status(
                rows,
                id,
                code,
            )[i] == row_with_status(rows[i], code),
        forall|i: int|
            0 <= i < rows.len() && rows[i].id != id ==> #[trigger] with_url_status(
                rows,
                id,
                code,
            )[i] == rows[i],
{
}

/// After a deletion, no surviving row carries the deleted id.
pub proof fn lemma_delete_removes(rows: Seq<UrlRow>, id: i32, i: int)
    requires
        0 <= i < without_url(rows, id).len(),
    ensures
        without_url(rows, id)[i].id != id,
    decreases rows.len(),
{
    if rows.len() > 0 {
        let rest = without_url(rows.drop_last(), id);
        if i < rest.len() {
            lemma_delete_removes(rows.drop_last(), id, i);
        }
    }
}

/// Deleting an id that no row carries leaves the table unchanged.
pub proof fn lemma_delete_absent_noop(rows: Seq<UrlRow>, id: i32)
    requires
        forall|i: int| 0 <= i < rows.len() ==> (#[trigger] rows[i]).id != id,
    ensures
        without_url(rows, id) == rows,
    decreases rows.len(),
{
    if rows.len() == 0 {
        assert(without_url(rows, id) =~= rows);
    } else {
        lemma_delete_absent_noop(rows.drop_last(), id);
        assert(rows[rows.len() - 1].id != id);
        assert(without_url(rows, id) =~= rows);
    }
}

/// Two distinct rows of a well-formed CPU table never share an id: each
/// insert persists exactly one row, under an id no other row carries.
pub proof fn lemma_cpu_ids_unique(rows: Seq<CpuRow>, next_id: u32, i: int, j: int)
    requires
        cpu_table_wf(rows, next_id),
        0 <= i < rows.len(),
        0 <= j < rows.len(),
        i != j,
    ensures
        rows[i].id != rows[j].id,
{
}

} // verus!
