//! The storage model: the rows the daemon persists and the operations the
//! three actors perform on them, each under a single exclusive lease.
//!
//! The store keeps two tables. The `cpu` table is an append-only log of CPU
//! samples, trimmed by the retention job; the `urls` table holds the probe
//! targets, whose only mutable field is the last observed status code. Row
//! ids are assigned monotonically and creation times are taken from the
//! caller's clock at insert time, so both tables stay sorted by id and by
//! creation time.

use vstd::prelude::*;

use crate::digits::dec_str;
use crate::digits::u64_to_string;

verus! {

/// How long a CPU sample is retained, in seconds (five minutes).
pub const RETENTION_SECS: u64 = 300;

/// How many rows a CPU history listing may return at most.
pub const HISTORY_LIMIT: usize = 30;

/// One persisted CPU sample.
pub struct CpuRow {
    pub id: u32,
    pub total_cpus: u32,
    pub total_cpu_usage: u32,
    pub cores_usage: String,
    pub created_at: u64,
}

/// One persisted URL probe target. `status_code` is `None` until a probe
/// outcome has been written back.
pub struct UrlRow {
    pub id: i32,
    pub url: String,
    pub status_code: Option<i32>,
    pub created_at: u64,
}

/// A URL target as the listing operation reports it: a target that has
/// never been probed appears with status code 0, and the creation time
/// appears as its decimal rendering.
pub struct UrlData {
    pub id: i32,
    pub url: String,
    pub status_code: i32,
    pub created_at: String,
}

/// Well-formedness of the CPU table: ids strictly increase and stay below
/// the next id to be assigned, and creation times never decrease.
pub open spec fn cpu_table_wf(rows: Seq<CpuRow>, next_id: u32) -> bool {
    &&& forall|i: int, j: int|
        #![trigger rows[i], rows[j]]
        0 <= i < j < rows.len() ==> rows[i].id < rows[j].id && rows[i].created_at
            <= rows[j].created_at
    &&& forall|i: int| 0 <= i < rows.len() ==> (#[trigger] rows[i].id) < next_id
}

/// Well-formedness of the URL table, in the same sense.
pub open spec fn url_table_wf(rows: Seq<UrlRow>, next_id: i32) -> bool {
    &&& forall|i: int, j: int|
        #![trigger rows[i], rows[j]]
        0 <= i < j < rows.len() ==> rows[i].id < rows[j].id && rows[i].created_at
            <= rows[j].created_at
    &&& forall|i: int| 0 <= i < rows.len() ==> (#[trigger] rows[i].id) < next_id
}

/// The CPU rows that survive a retention pass at time `now`: exactly those
/// whose age is within the retention window.
pub open spec fn retained_cpu(rows: Seq<CpuRow>, now: u64) -> Seq<CpuRow>
    decreases rows.len(),
{
    if rows.len() == 0 {
        Seq::empty()
    } else {
        let rest = retained_cpu(rows.drop_last(), now);
        if rows.last().created_at + RETENTION_SECS >= now {
            rest.push(rows.last())
        } else {
            rest
        }
    }
}

/// The URL rows left after deleting the target with the given id.
pub open spec fn without_url(rows: Seq<UrlRow>, id: i32) -> Seq<UrlRow>
    decreases rows.len(),
{
    if rows.len() == 0 {
        Seq::empty()
    } else {
        let rest = without_url(rows.drop_last(), id);
        if rows.last().id != id {
            rest.push(rows.last())
        } else {
            rest
        }
    }
}

/// The given row with its status code replaced.
pub open spec fn row_with_status(r: UrlRow, code: i32) -> UrlRow {
    UrlRow { id: r.id, url: r.url, status_code: Some(code), created_at: r.created_at }
}

/// The URL table after writing a probe outcome back to the target with the
/// given id: every row keeps its place, and only the matching row changes.
pub open spec fn with_url_status(rows: Seq<UrlRow>, id: i32, code: i32) -> Seq<UrlRow> {
    Seq::new(rows.len(), |i: int| if rows[i].id == id {
        row_with_status(rows[i], code)
    } else {
        rows[i]
    })
}

/// The rows a history listing reports: the most recent rows, newest first,
/// capped at `HISTORY_LIMIT`.
pub open spec fn history_rows(rows: Seq<CpuRow>) -> Seq<CpuRow> {
    let n: int = if rows.len() <= HISTORY_LIMIT {
        rows.len() as int
    } else {
        HISTORY_LIMIT as int
    };
    Seq::new(n as nat, |i: int| rows[rows.len() - 1 - i])
}

/// How a history entry reports a stored CPU row.
pub open spec fn hist_entry_matches(e: (u32, u32, u32, String, String), row: CpuRow) -> bool {
    &&& e.0 == row.id
    &&& e.1 == row.total_cpus
    &&& e.2 == row.total_cpu_usage
    &&& e.3 == row.cores_usage
    &&& e.4@ == dec_str(row.created_at as nat)
}

/// How a URL listing entry reports a stored URL row.
pub open spec fn url_entry_matches(d: UrlData, row: UrlRow) -> bool {
    &&& d.id == row.id
    &&& d.url == row.url
    &&& d.status_code == (match row.status_code {
        Some(c) => c,
        None => 0,
    })
    &&& d.created_at@ == dec_str(row.created_at as nat)
}

/// The in-memory store shared by the request handlers, the retention job
/// and the health-check job. Each public method is one logical unit of
/// work, performed under the caller's exclusive lease.
pub struct Store {
    pub cpu: Vec<CpuRow>,
    pub urls: Vec<UrlRow>,
    pub next_cpu_id: u32,
    pub next_url_id: i32,
}

impl Store {
    pub open spec fn wf(self) -> bool {
        &&& cpu_table_wf(self.cpu@, self.next_cpu_id)
        &&& url_table_wf(self.urls@, self.next_url_id)
    }

    /// The creation time of the newest CPU row, or 0 when the table is
    /// empty; inserts require the caller's clock not to run behind it.
    pub open spec fn latest_cpu_time(self) -> u64 {
        if self.cpu@.len() == 0 {
            0
        } else {
            self.cpu@.last().created_at
        }
    }

    /// The creation time of the newest URL row, or 0 when the table is empty.
    pub open spec fn latest_url_time(self) -> u64 {
        if self.urls@.len() == 0 {
            0
        } else {
            self.urls@.last().created_at
        }
    }

    pub fn new() -> (s: Store)
        ensures
            s.wf(),
            s.cpu@ == Seq::<CpuRow>::empty(),
            s.urls@ == Seq::<UrlRow>::empty(),
            s.next_cpu_id == 1,
            s.next_url_id == 1,
    {
        Store { cpu: Vec::new(), urls: Vec::new(), next_cpu_id: 1, next_url_id: 1 }
    }

    /// Insert one CPU sample, assigning it the next id and the caller's
    /// clock reading as its creation time, and return the assigned id.
    pub fn save_cpu_info(
        &mut self,
        total_cpus: u32,
        total_cpu_usage: u32,
        cores_usage: String,
        now: u64,
    ) -> (id: u32)
        requires
            old(self).wf(),
            now >= old(self).latest_cpu_time(),
            old(self).next_cpu_id < u32::MAX,
        ensures
            final(self).wf(),
            id == old(self).next_cpu_id,
            final(self).cpu@ == old(self).cpu@.push(
                (CpuRow {
                    id: old(self).next_cpu_id,
                    total_cpus,
                    total_cpu_usage,
                    cores_usage,
                    created_at: now,
                }),
            ),
            final(self).urls@ == old(self).urls@,
            final(self).next_cpu_id == old(self).next_cpu_id + 1,
            final(self).next_url_id == old(self).next_url_id,
    {
        let id = self.next_cpu_id;
        let row = CpuRow { id, total_cpus, total_cpu_usage, cores_usage, created_at: now };
        self.cpu.push(row);
        self.next_cpu_id = id + 1;
        proof {
            let orig = old(self).cpu@;
            let rows = self.cpu@;
            assert forall|i: int, j: int|
                #![trigger rows[i], rows[j]]
                0 <= i < j < rows.len() implies rows[i].id < rows[j].id && rows[i].created_at
                <= rows[j].created_at by {
                if j < orig.len() {
                    assert(rows[i] == orig[i] && rows[j] == orig[j]);
                } else {
                    assert(rows[i] == orig[i]);
                    if i < orig.len() - 1 {
                        assert(orig[i].created_at <= orig[orig.len() - 1].created_at);
                    }
                }
            }
        }
        id
    }

    /// Delete the CPU samples whose age at time `now` exceeds the retention
    /// window; deleting none is not an error.
    pub fn flush_cpu_info(&mut self, now: u64)
        requires
            old(self).wf(),
        ensures
            final(self).wf(),
            final(self).cpu@ == retained_cpu(old(self).cpu@, now),
            final(self).urls@ == old(self).urls@,
            final(self).next_cpu_id == old(self).next_cpu_id,
            final(self).next_url_id == old(self).next_url_id,
    {
        let ghost orig = self.cpu@;
        let mut kept: Vec<CpuRow> = Vec::new();
        while self.cpu.len() > 0
            invariant
                self.cpu@.len() <= orig.len(),
                self.cpu@ == orig.subrange(
                    orig.len() - self.cpu@.len(),
                    orig.len() as int,
                ),
                kept@ == retained_cpu(
                    orig.subrange(0, orig.len() - self.cpu@.len()),
                    now,
                ),
                self.urls@ == old(self).urls@,
                self.next_cpu_id == old(self).next_cpu_id,
                self.next_url_id == old(self).next_url_id,
            decreases self.cpu@.len(),
        {
            let ghost k = orig.len() - self.cpu@.len();
            let row = self.cpu.remove(0);
            proof {
                assert(row == orig[k]);
                assert(self.cpu@ =~= orig.subrange(k + 1, orig.len() as int));
                lemma_retained_cpu_push(orig.subrange(0, k), orig[k], now);
                assert(orig.subrange(0, k + 1).drop_last() =~= orig.subrange(0, k));
                assert(orig.subrange(0, k).push(orig[k]) =~= orig.subrange(0, k + 1));
            }
            let keep = if now <= RETENTION_SECS {
                true
            } else {
                row.created_at >= now - RETENTION_SECS
            };
            if keep {
                kept.push(row);
            }
        }
        proof {
            assert(orig.subrange(0, orig.len() as int) =~= orig);
            lemma_retained_cpu_wf(orig, old(self).next_cpu_id, now);
        }
        self.cpu = kept;
    }

    /// List the most recent CPU samples, newest first, at most
    /// `HISTORY_LIMIT` of them; each entry carries the row's id, the sampled
    /// values, and the creation time rendered in decimal.
    pub fn get_cpu_history(&self) -> (r: Vec<(u32, u32, u32, String, String)>)
        ensures
            r@.len() == history_rows(self.cpu@).len(),
            forall|i: int|
                0 <= i < r@.len() ==> hist_entry_matches(
                    #[trigger] r@[i],
                    history_rows(self.cpu@)[i],
                ),
    {
        let mut r: Vec<(u32, u32, u32, String, String)> = Vec::new();
        let n = self.cpu.len();
        let count = if n <= HISTORY_LIMIT {
            n
        } else {
            HISTORY_LIMIT
        };
        let mut i: usize = 0;
        while i < count
            invariant
                n == self.cpu@.len(),
                count == history_rows(self.cpu@).len(),
                count <= n,
                i <= count,
                r@.len() == i,
                forall|k: int|
                    0 <= k < i as int ==> hist_entry_matches(
                        #[trigger] r@[k],
                        history_rows(self.cpu@)[k],
                    ),
            decreases count - i,
        {
            let row = &self.cpu[n - 1 - i];
            let entry = (
                row.id,
                row.total_cpus,
                row.total_cpu_usage,
                row.cores_usage.clone(),
                u64_to_string(row.created_at),
            );
            r.push(entry);
            i = i + 1;
        }
        r
    }

    /// List every URL target, in insertion order, as the API reports it.
    pub fn get_urls(&self) -> (r: Vec<UrlData>)
        ensures
            r@.len() == self.urls@.len(),
            forall|i: int|
                0 <= i < r@.len() ==> url_entry_matches(#[trigger] r@[i], self.urls@[i]),
    {
        let mut r: Vec<UrlData> = Vec::new();
        let mut i: usize = 0;
        while i < self.urls.len()
            invariant
                i <= self.urls@.len(),
                r@.len() == i,
                forall|k: int|
                    0 <= k < i as int ==> url_entry_matches(#[trigger] r@[k], self.urls@[k]),
            decreases self.urls@.len() - i,
        {
            let row = &self.urls[i];
            let status = match row.status_code {
                Some(c) => c,
                None => 0,
            };
            let entry = UrlData {
                id: row.id,
                url: row.url.clone(),
                status_code: status,
                created_at: u64_to_string(row.created_at),
            };
            r.push(entry);
            i = i + 1;
        }
        r
    }

    /// Insert one URL target, assigning it the next id and the caller's
    /// clock reading as its creation time, and return the assigned id.
    pub fn create_url(&mut self, url: String, status_code: Option<i32>, now: u64) -> (id: i32)
        requires
            old(self).wf(),
            now >= old(self).latest_url_time(),
            old(self).next_url_id < i32::MAX,
        ensures
            final(self).wf(),
            id == old(self).next_url_id,
            final(self).urls@ == old(self).urls@.push(
                (UrlRow { id: old(self).next_url_id, url, status_code, created_at: now }),
            ),
            final(self).cpu@ == old(self).cpu@,
            final(self).next_url_id == old(self).next_url_id + 1,
            final(self).next_cpu_id == old(self).next_cpu_id,
    {
        let id = self.next_url_id;
        let row = UrlRow { id, url, status_code, created_at: now };
        self.urls.push(row);
        self.next_url_id = id + 1;
        proof {
            let orig = old(self).urls@;
            let rows = self.urls@;
            assert forall|i: int, j: int|
                #![trigger rows[i], rows[j]]
                0 <= i < j < rows.len() implies rows[i].id < rows[j].id && rows[i].created_at
                <= rows[j].created_at by {
                if j < orig.len() {
                    assert(rows[i] == orig[i] && rows[j] == orig[j]);
                } else {
                    assert(rows[i] == orig[i]);
                    if i < orig.len() - 1 {
                        assert(orig[i].created_at <= orig[orig.len() - 1].created_at);
                    }
                }
            }
        }
        id
    }

    /// Write a probe outcome back to the target with the given id. A
    /// missing id leaves the table unchanged: the write is non-fatal, as a
    /// concurrent deletion may have overtaken it.
    pub fn update_url_status(&mut self, id: i32, status_code: i32)
        requires
            old(self).wf(),
        ensures
            final(self).wf(),
            final(self).urls@ == with_url_status(old(self).urls@, id, status_code),
            final(self).cpu@ == old(self).cpu@,
            final(self).next_cpu_id == old(self).next_cpu_id,
            final(self).next_url_id == old(self).next_url_id,
    {
        let ghost orig = self.urls@;
        let mut updated: Vec<UrlRow> = Vec::new();
        while self.urls.len() > 0
            invariant
                self.urls@.len() <= orig.len(),
                self.urls@ == orig.subrange(
                    orig.len() - self.urls@.len(),
                    orig.len() as int,
                ),
                updated@.len() == orig.len() - self.urls@.len(),
                forall|k: int|
                    0 <= k < updated@.len() ==> #[trigger] updated@[k] == with_url_status(
                        orig,
                        id,
                        status_code,
                    )[k],
                self.cpu@ == old(self).cpu@,
                self.next_cpu_id == old(self).next_cpu_id,
                self.next_url_id == old(self).next_url_id,
            decreases self.urls@.len(),
        {
            let ghost k = orig.len() - self.urls@.len();
            let row = self.urls.remove(0);
            proof {
                assert(row == orig[k]);
                assert(self.urls@ =~= orig.subrange(k + 1, orig.len() as int));
            }
            if row.id == id {
                updated.push(UrlRow {
                    id: row.id,
                    url: row.url,
                    status_code: Some(status_code),
                    created_at: row.created_at,
                });
            } else {
                updated.push(row);
            }
        }
        proof {
            assert(updated@ =~= with_url_status(orig, id, status_code));
            let rows = with_url_status(orig, id, status_code);
            assert forall|i: int, j: int|
                #![trigger rows[i], rows[j]]
                0 <= i < j < rows.len() implies rows[i].id < rows[j].id && rows[i].created_at
                <= rows[j].created_at by {
                assert(orig[i].id < orig[j].id && orig[i].created_at <= orig[j].created_at);
            }
            assert forall|i: int| 0 <= i < rows.len() implies (#[trigger] rows[i].id)
                < old(self).next_url_id by {
                assert(orig[i].id < old(self).next_url_id);
            }
        }
        self.urls = updated;
    }

    /// Delete the URL target with the given id; deleting an absent id is a
    /// no-op, not an error.
    pub fn delete_url(&mut self, id: i32)
        requires
            old(self).wf(),
        ensures
            final(self).wf(),
            final(self).urls@ == without_url(old(self).urls@, id),
            final(self).cpu@ == old(self).cpu@,
            final(self).next_cpu_id == old(self).next_cpu_id,
            final(self).next_url_id == old(self).next_url_id,
    {
        let ghost orig = self.urls@;
        let mut kept: Vec<UrlRow> = Vec::new();
        while self.urls.len() > 0
            invariant
                self.urls@.len() <= orig.len(),
                self.urls@ == orig.subrange(
                    orig.len() - self.urls@.len(),
                    orig.len() as int,
                ),
                kept@ == without_url(orig.subrange(0, orig.len() - self.urls@.len()), id),
                self.cpu@ == old(self).cpu@,
                self.next_cpu_id == old(self).next_cpu_id,
                self.next_url_id == old(self).next_url_id,
            decreases self.urls@.len(),
        {
            let ghost k = orig.len() - self.urls@.len();
            let row = self.urls.remove(0);
            proof {
                assert(row == orig[k]);
                assert(self.urls@ =~= orig.subrange(k + 1, orig.len() as int));
                lemma_without_url_push(orig.subrange(0, k), orig[k], id);
                assert(orig.subrange(0, k + 1).drop_last() =~= orig.subrange(0, k));
                assert(orig.subrange(0, k).push(orig[k]) =~= orig.subrange(0, k + 1));
            }
            if row.id != id {
                kept.push(row);
            }
        }
        proof {
            assert(orig.subrange(0, orig.len() as int) =~= orig);
            lemma_without_url_wf(orig, old(self).next_url_id, id);
        }
        self.urls = kept;
    }
}

/// Appending a row and then filtering by age is filtering first and then
/// appending the row when it is young enough.
pub proof fn lemma_retained_cpu_push(rows: Seq<CpuRow>, x: CpuRow, now: u64)
    ensures
        retained_cpu(rows.push(x), now) == if x.created_at + RETENTION_SECS >= now {
            retained_cpu(rows, now).push(x)
        } else {
            retained_cpu(rows, now)
        },
{
    assert(rows.push(x).drop_last() =~= rows);
    assert(rows.push(x).last() == x);
}

/// Every row a retention pass keeps stands at some index of the original
/// table.
proof fn lemma_retained_cpu_elem(rows: Seq<CpuRow>, now: u64, i: int)
    requires
        0 <= i < retained_cpu(rows, now).len(),
    ensures
        exists|j: int| 0 <= j < rows.len() && rows[j] == retained_cpu(rows, now)[i],
    decreases rows.len(),
{
    let f = retained_cpu(rows, now);
    if rows.len() > 0 {
        let rest = retained_cpu(rows.drop_last(), now);
        if i < rest.len() {
            lemma_retained_cpu_elem(rows.drop_last(), now, i);
            let j = choose|j: int| 0 <= j < rows.drop_last().len() && rows.drop_last()[j]
                == rest[i];
            assert(rows[j] == f[i]);
        } else {
            assert(rows[rows.len() - 1] == f[i]);
        }
    }
}

/// Two rows a retention pass keeps, in order, stand at two indices of the
/// original table in the same order.
proof fn lemma_retained_cpu_ordered(rows: Seq<CpuRow>, now: u64, a: int, b: int)
    requires
        0 <= a < b < retained_cpu(rows, now).len(),
    ensures
        exists|i: int, j: int|
            0 <= i < j < rows.len() && rows[i] == retained_cpu(rows, now)[a] && rows[j]
                == retained_cpu(rows, now)[b],
    decreases rows.len(),
{
    let f = retained_cpu(rows, now);
    if rows.len() > 0 {
        let rest = retained_cpu(rows.drop_last(), now);
        if b < rest.len() {
            lemma_retained_cpu_ordered(rows.drop_last(), now, a, b);
            let (i, j) = choose|i: int, j: int|
                0 <= i < j < rows.drop_last().len() && rows.drop_last()[i] == rest[a]
                    && rows.drop_last()[j] == rest[b];
            assert(rows[i] == f[a] && rows[j] == f[b]);
        } else {
            lemma_retained_cpu_elem(rows.drop_last(), now, a);
            let i = choose|i: int| 0 <= i < rows.drop_last().len() && rows.drop_last()[i]
                == rest[a];
            assert(rows[i] == f[a] && rows[rows.len() - 1] == f[b]);
        }
    }
}

/// A retention pass keeps the table well formed.
proof fn lemma_retained_cpu_wf(rows: Seq<CpuRow>, next_id: u32, now: u64)
    requires
        cpu_table_wf(rows, next_id),
    ensures
        cpu_table_wf(retained_cpu(rows, now), next_id),
{
    let f = retained_cpu(rows, now);
    assert forall|a: int, b: int|
        #![trigger f[a], f[b]]
        0 <= a < b < f.len() implies f[a].id < f[b].id && f[a].created_at
        <= f[b].created_at by {
        lemma_retained_cpu_ordered(rows, now, a, b);
    }
    assert forall|a: int| 0 <= a < f.len() implies (#[trigger] f[a].id) < next_id by {
        lemma_retained_cpu_elem(rows, now, a);
    }
}

/// Appending a row and then deleting by id is deleting first and then
/// appending the row when its id differs.
proof fn lemma_without_url_push(rows: Seq<UrlRow>, x: UrlRow, id: i32)
    ensures
        without_url(rows.push(x), id) == if x.id != id {
            without_url(rows, id).push(x)
        } else {
            without_url(rows, id)
        },
{
    assert(rows.push(x).drop_last() =~= rows);
    assert(rows.push(x).last() == x);
}

/// Every row a deletion keeps stands at some index of the original table.
proof fn lemma_without_url_elem(rows: Seq<UrlRow>, id: i32, i: int)
    requires
        0 <= i < without_url(rows, id).len(),
    ensures
        exists|j: int| 0 <= j < rows.len() && rows[j] == without_url(rows, id)[i],
    decreases rows.len(),
{
    let f = without_url(rows, id);
    if rows.len() > 0 {
        let rest = without_url(rows.drop_last(), id);
        if i < rest.len() {
            lemma_without_url_elem(rows.drop_last(), id, i);
            let j = choose|j: int| 0 <= j < rows.drop_last().len() && rows.drop_last()[j]
                == rest[i];
            assert(rows[j] == f[i]);
        } else {
            assert(rows[rows.len() - 1] == f[i]);
        }
    }
}

/// Two rows a deletion keeps, in order, stand at two indices of the
/// original table in the same order.
proof fn lemma_without_url_ordered(rows: Seq<UrlRow>, id: i32, a: int, b: int)
    requires
        0 <= a < b < without_url(rows, id).len(),
    ensures
        exists|i: int, j: int|
            0 <= i < j < rows.len() && rows[i] == without_url(rows, id)[a] && rows[j]
                == without_url(rows, id)[b],
    decreases rows.len(),
{
    let f = without_url(rows, id);
    if rows.len() > 0 {
        let rest = without_url(rows.drop_last(), id);
        if b < rest.len() {
            lemma_without_url_ordered(rows.drop_last(), id, a, b);
            let (i, j) = choose|i: int, j: int|
                0 <= i < j < rows.drop_last().len() && rows.drop_last()[i] == rest[a]
                    && rows.drop_last()[j] == rest[b];
            assert(rows[i] == f[a] && rows[j] == f[b]);
        } else {
            lemma_without_url_elem(rows.drop_last(), id, a);
            let i = choose|i: int| 0 <= i < rows.drop_last().len() && rows.drop_last()[i]
                == rest[a];
            assert(rows[i] == f[a] && rows[rows.len() - 1] == f[b]);
        }
    }
}

/// A deletion keeps the table well formed.
proof fn lemma_without_url_wf(rows: Seq<UrlRow>, next_id: i32, id: i32)
    requires
        url_table_wf(rows, next_id),
    ensures
        url_table_wf(without_url(rows, id), next_id),
{
    let f = without_url(rows, id);
    assert forall|a: int, b: int|
        #![trigger f[a], f[b]]
        0 <= a < b < f.len() implies f[a].id < f[b].id && f[a].created_at
        <= f[b].created_at by {
        lemma_without_url_ordered(rows, id, a, b);
    }
    assert forall|a: int| 0 <= a < f.len() implies (#[trigger] f[a].id) < next_id by {
        lemma_without_url_elem(rows, id, a);
    }
}

} // verus!
