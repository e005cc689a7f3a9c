//! The exact JSON texts the API answers with, as spec-level character
//! sequences, and verified builders for each.

use vstd::prelude::*;
use vstd::string::*;

use crate::digits::dec_str;
use crate::digits::dec_str_signed;
use crate::digits::u32_to_string;
use crate::digits::u64_to_string;
use crate::digits::i32_to_string;
use crate::store::CpuRow;
use crate::store::UrlRow;
use crate::store::UrlData;
use crate::store::hist_entry_matches;
use crate::store::url_entry_matches;

verus! {

/// The memory endpoint's body, over the three sampled values in
/// megabytes.
pub open spec fn memory_body(total: u64, used: u64, free: u64) -> Seq<char> {
    "{\"total_memory\": "@ + dec_str(total as nat) + ",\"used_memory\": "@ + dec_str(used as nat)
        + ",\"free_memory\": "@ + dec_str(free as nat) + "}"@
}

pub fn build_memory_body(total: u64, used: u64, free: u64) -> (r: String)
    ensures
        r@ == memory_body(total, used, free),
{
    let mut s = "{\"total_memory\": ".to_owned();
    s.append(u64_to_string(total).as_str());
    s.append(",\"used_memory\": ");
    s.append(u64_to_string(used).as_str());
    s.append(",\"free_memory\": ");
    s.append(u64_to_string(free).as_str());
    s.append("}");
    s
}

/// The CPU endpoint's body: the freshly sampled values, with the per-core
/// list embedded as the sampler rendered it.
pub open spec fn cpu_body(total_cpus: u32, total_cpu_usage: u32, cores: Seq<char>) -> Seq<char> {
    "{\"total_cpus\": "@ + dec_str(total_cpus as nat) + ",\"total_cpu_usage\": "@ + dec_str(
        total_cpu_usage as nat,
    ) + ",\"cores_usage\": "@ + cores + "}"@
}

pub fn build_cpu_body(total_cpus: u32, total_cpu_usage: u32, cores: &str) -> (r: String)
    ensures
        r@ == cpu_body(total_cpus, total_cpu_usage, cores@),
{
    let mut s = "{\"total_cpus\": ".to_owned();
    s.append(u32_to_string(total_cpus).as_str());
    s.append(",\"total_cpu_usage\": ");
    s.append(u32_to_string(total_cpu_usage).as_str());
    s.append(",\"cores_usage\": ");
    s.append(cores);
    s.append("}");
    s
}

/// The uptime endpoint's body, around the boot-time text.
pub open spec fn uptime_body(data: Seq<char>) -> Seq<char> {
    "{\"data\": \""@ + data + "\"}"@
}

pub fn build_uptime_body(data: &str) -> (r: String)
    ensures
        r@ == uptime_body(data@),
{
    let mut s = "{\"data\": \"".to_owned();
    s.append(data);
    s.append("\"}");
    s
}

/// One history entry, over the stored row.
pub open spec fn history_entry_body(row: CpuRow) -> Seq<char> {
    "{\"id\": "@ + dec_str(row.id as nat) + ", \"total_cpus\": "@ + dec_str(row.total_cpus as nat)
        + ", \"total_cpu_usage\": "@ + dec_str(row.total_cpu_usage as nat) + ", \"cores_usage\": "@
        + row.cores_usage@ + ", \"created_at\": \""@ + dec_str(row.created_at as nat) + "\"}"@
}

/// The history entries joined with commas.
pub open spec fn joined_history(rows: Seq<CpuRow>) -> Seq<char>
    decreases rows.len(),
{
    if rows.len() == 0 {
        Seq::empty()
    } else if rows.len() == 1 {
        history_entry_body(rows[0])
    } else {
        joined_history(rows.drop_last()) + ","@ + history_entry_body(rows.last())
    }
}

/// The history endpoint's body, over the rows the listing reports.
pub open spec fn cpu_history_body(rows: Seq<CpuRow>) -> Seq<char> {
    "{\"data\": ["@ + joined_history(rows) + "]}"@
}

fn build_history_entry(e: &(u32, u32, u32, String, String)) -> (r: String)
    ensures
        forall|row: CpuRow| hist_entry_matches(*e, row) ==> r@ == #[trigger] history_entry_body(
            row,
        ),
{
    let mut s = "{\"id\": ".to_owned();
    s.append(u32_to_string(e.0).as_str());
    s.append(", \"total_cpus\": ");
    s.append(u32_to_string(e.1).as_str());
    s.append(", \"total_cpu_usage\": ");
    s.append(u32_to_string(e.2).as_str());
    s.append(", \"cores_usage\": ");
    s.append(e.3.as_str());
    s.append(", \"created_at\": \"");
    s.append(e.4.as_str());
    s.append("\"}");
    s
}

/// Join the history entries the listing produced into the endpoint's
/// body, given the rows they report.
pub fn build_history_body(
    entries: &Vec<(u32, u32, u32, String, String)>,
    Ghost(rows): Ghost<Seq<CpuRow>>,
) -> (r: String)
    requires
        entries@.len() == rows.len(),
        forall|i: int|
            0 <= i < rows.len() ==> hist_entry_matches(#[trigger] entries@[i], rows[i]),
    ensures
        r@ == cpu_history_body(rows),
{
    let mut s = "{\"data\": [".to_owned();
    let mut i: usize = 0;
    while i < entries.len()
        invariant
            entries@.len() == rows.len(),
            forall|k: int|
                0 <= k < rows.len() ==> hist_entry_matches(#[trigger] entries@[k], rows[k]),
            i <= entries@.len(),
            s@ == "{\"data\": ["@ + joined_history(rows.subrange(0, i as int)),
        decreases entries@.len() - i,
    {
        if i > 0 {
            s.append(",");
        }
        let entry = build_history_entry(&entries[i]);
        s.append(entry.as_str());
        proof {
            let pre = rows.subrange(0, i as int);
            let post = rows.subrange(0, i as int + 1);
            assert(post.drop_last() =~= pre);
            assert(post.last() == rows[i as int]);
            assert(entry@ == history_entry_body(rows[i as int]));
        }
        i = i + 1;
    }
    proof {
        assert(rows.subrange(0, rows.len() as int) =~= rows);
    }
    s.append("]}");
    s
}

/// One URL listing entry, over the stored row; a target never probed is
/// reported with status code 0.
pub open spec fn url_entry_body(row: UrlRow) -> Seq<char> {
    "{\"id\": "@ + dec_str_signed(row.id as int) + ", \"url\": \""@ + row.url@
        + "\", \"status_code\": \""@ + dec_str_signed(
        (match row.status_code {
            Some(c) => c,
            None => 0,
        }) as int,
    ) + "\", \"created_at\": \""@ + dec_str(row.created_at as nat) + "\"}"@
}

/// The URL entries joined with commas.
pub open spec fn joined_urls(rows: Seq<UrlRow>) -> Seq<char>
    decreases rows.len(),
{
    if rows.len() == 0 {
        Seq::empty()
    } else if rows.len() == 1 {
        url_entry_body(rows[0])
    } else {
        joined_urls(rows.drop_last()) + ","@ + url_entry_body(rows.last())
    }
}

/// The URL listing endpoint's body, over the stored rows.
pub open spec fn urls_body(rows: Seq<UrlRow>) -> Seq<char> {
    "{\"data\": ["@ + joined_urls(rows) + "]}"@
}

fn build_url_entry(d: &UrlData) -> (r: String)
    ensures
        forall|row: UrlRow| url_entry_matches(*d, row) ==> r@ == #[trigger] url_entry_body(row),
{
    let mut s = "{\"id\": ".to_owned();
    s.append(i32_to_string(d.id).as_str());
    s.append(", \"url\": \"");
    s.append(d.url.as_str());
    s.append("\", \"status_code\": \"");
    s.append(i32_to_string(d.status_code).as_str());
    s.append("\", \"created_at\": \"");
    s.append(d.created_at.as_str());
    s.append("\"}");
    s
}

/// Join the URL listing entries into the endpoint's body, given the rows
/// they report.
pub fn build_urls_body(entries: &Vec<UrlData>, Ghost(rows): Ghost<Seq<UrlRow>>) -> (r: String)
    requires
        entries@.len() == rows.len(),
        forall|i: int| 0 <= i < rows.len() ==> url_entry_matches(#[trigger] entries@[i], rows[i]),
    ensures
        r@ == urls_body(rows),
{
    let mut s = "{\"data\": [".to_owned();
    let mut i: usize = 0;
    while i < entries.len()
        invariant
            entries@.len() == rows.len(),
            forall|k: int|
                0 <= k < rows.len() ==> url_entry_matches(#[trigger] entries@[k], rows[k]),
            i <= entries@.len(),
            s@ == "{\"data\": ["@ + joined_urls(rows.subrange(0, i as int)),
        decreases entries@.len() - i,
    {
        if i > 0 {
            s.append(",");
        }
        let entry = build_url_entry(&entries[i]);
        s.append(entry.as_str());
        proof {
            let pre = rows.subrange(0, i as int);
            let post = rows.subrange(0, i as int + 1);
            assert(post.drop_last() =~= pre);
            assert(post.last() == rows[i as int]);
            assert(entry@ == url_entry_body(rows[i as int]));
        }
        i = i + 1;
    }
    proof {
        assert(rows.subrange(0, rows.len() as int) =~= rows);
    }
    s.append("]}");
    s
}

/// The creation endpoint's confirmation, around the created URL.
pub open spec fn post_ok_body(url: Seq<char>) -> Seq<char> {
    "{\"message\": \"URL criada com sucesso\", \"url\": \""@ + url + "\"}"@
}

pub fn build_post_ok_body(url: &str) -> (r: String)
    ensures
        r@ == post_ok_body(url@),
{
    let mut s = "{\"message\": \"URL criada com sucesso\", \"url\": \"".to_owned();
    s.append(url);
    s.append("\"}");
    s
}

/// The creation endpoint's error envelope for a body without a usable
/// `url` field.
pub open spec fn post_err_body() -> Seq<char> {
    "{\"error\": \"JSON inválido ou campo 'url' ausente\"}"@
}

pub fn build_post_err_body() -> (r: String)
    ensures
        r@ == post_err_body(),
{
    "{\"error\": \"JSON inválido ou campo 'url' ausente\"}".to_owned()
}

/// The deletion endpoint's confirmation, around the deleted id.
pub open spec fn delete_ok_body(id: int) -> Seq<char> {
    "{\"message\": \"URL com ID "@ + dec_str_signed(id) + " deletada com sucesso\"}"@
}

pub fn build_delete_ok_body(id: i32) -> (r: String)
    ensures
        r@ == delete_ok_body(id as int),
{
    let mut s = "{\"message\": \"URL com ID ".to_owned();
    s.append(i32_to_string(id).as_str());
    s.append(" deletada com sucesso\"}");
    s
}

/// The deletion endpoint's envelope for a body that is not JSON at all.
pub open spec fn delete_bad_json_body() -> Seq<char> {
    "{\"error\": \"JSON inválido\"}"@
}

pub fn build_delete_bad_json_body() -> (r: String)
    ensures
        r@ == delete_bad_json_body(),
{
    "{\"error\": \"JSON inválido\"}".to_owned()
}

/// The deletion endpoint's envelope for a JSON body without an integer
/// id.
pub open spec fn delete_bad_id_body() -> Seq<char> {
    "{\"error\": \"ID inválido ou ausente\"}"@
}

pub fn build_delete_bad_id_body() -> (r: String)
    ensures
        r@ == delete_bad_id_body(),
{
    "{\"error\": \"ID inválido ou ausente\"}".to_owned()
}

} // verus!
