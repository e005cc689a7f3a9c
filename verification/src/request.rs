//! Request handling: one handler per routed behaviour, and the
//! dispatcher that ties them together. Each handler takes the plain
//! values its behaviour needs — the sampled metrics, the request body,
//! the caller's clock — performs at most one storage operation, and
//! produces the exact answer the API sends.

use vstd::prelude::*;
use vstd::string::*;
use vstd::pervasive::unreached;

use crate::bodies::build_memory_body;
use crate::bodies::build_cpu_body;
use crate::bodies::build_uptime_body;
use crate::bodies::build_history_body;
use crate::bodies::build_urls_body;
use crate::bodies::build_post_ok_body;
use crate::bodies::build_post_err_body;
use crate::bodies::build_delete_ok_body;
use crate::bodies::build_delete_bad_json_body;
use crate::bodies::build_delete_bad_id_body;
use crate::bodies::memory_body;
use crate::bodies::cpu_body;
use crate::bodies::uptime_body;
use crate::bodies::cpu_history_body;
use crate::bodies::urls_body;
use crate::bodies::post_ok_body;
use crate::bodies::post_err_body;
use crate::bodies::delete_ok_body;
use crate::bodies::delete_bad_json_body;
use crate::bodies::delete_bad_id_body;
use crate::jsonio::json_accepts;
use crate::jsonio::json_id_field;
use crate::jsonio::parse_id_field;
use crate::metrics::CpuInfo;
use crate::metrics::print_memory_info;
use crate::response::HttpResponse;
use crate::response::request_options;
use crate::response::response;
use crate::response::json_response;
use crate::response::fallback_response;
use crate::response::cors_headers;
use crate::response::full_headers;
use crate::routes::Method;
use crate::routes::Route;
use crate::routes::route;
use crate::routes::spec_route;
use crate::store::Store;
use crate::store::CpuRow;
use crate::store::history_rows;
use crate::store::without_url;
use crate::urlparse::url_field;
use crate::urlparse::extract_url;

verus! {

/// Both tables and both id counters as they were.
pub open spec fn store_unchanged(a: Store, b: Store) -> bool {
    &&& b.cpu@ == a.cpu@
    &&& b.urls@ == a.urls@
    &&& b.next_cpu_id == a.next_cpu_id
    &&& b.next_url_id == a.next_url_id
}

/// Everything a request handler may need from outside the store: one
/// memory reading in bytes, one CPU reading, and the boot-time text.
pub struct SystemSnapshot {
    pub mem_total: u64,
    pub mem_used: u64,
    pub mem_free: u64,
    pub cpu: CpuInfo,
    pub uptime: String,
}

/// Relies on String::from_utf8: it succeeds exactly on valid UTF-8 and
/// decodes it.
#[verifier::external_body]
pub(crate) fn bytes_to_string(body: &[u8]) -> (r: Option<String>)
    ensures
        r is Some <==> vstd::utf8::valid_utf8(body@),
        (match r {
            Some(s) => s@ == vstd::utf8::decode_utf8(body@),
            None => !vstd::utf8::valid_utf8(body@),
        }),
{
    match String::from_utf8(body.to_vec()) {
        Ok(s) => Some(s),
        Err(_) => None,
    }
}

/// Answer a memory request: report the sampled reading in megabytes;
/// nothing is persisted.
pub fn handle_memory(total: u64, used: u64, free: u64) -> (r: HttpResponse)
    ensures
        r.status == 200,
        r.headers@ == full_headers(),
        r.body@ == memory_body(total / 1024 / 1024, used / 1024 / 1024, free / 1024 / 1024),
{
    let m = print_memory_info(total, used, free);
    json_response(build_memory_body(m[0], m[1], m[2]))
}

/// Answer a CPU request: persist the sampled reading as one new row and
/// report the freshly sampled values, not the stored row.
pub fn handle_cpu(store: &mut Store, cpu: CpuInfo, now: u64) -> (r: HttpResponse)
    requires
        old(store).wf(),
        now >= old(store).latest_cpu_time(),
        old(store).next_cpu_id < u32::MAX,
    ensures
        final(store).wf(),
        r.status == 200,
        r.headers@ == full_headers(),
        r.body@ == cpu_body(cpu.total_cpus, cpu.total_cpu_usage, cpu.cores_usage@),
        final(store).cpu@ == old(store).cpu@.push(
            (CpuRow {
                id: old(store).next_cpu_id,
                total_cpus: cpu.total_cpus,
                total_cpu_usage: cpu.total_cpu_usage,
                cores_usage: cpu.cores_usage,
                created_at: now,
            }),
        ),
        final(store).urls@ == old(store).urls@,
        final(store).next_cpu_id == old(store).next_cpu_id + 1,
        final(store).next_url_id == old(store).next_url_id,
{
    let body = build_cpu_body(cpu.total_cpus, cpu.total_cpu_usage, cpu.cores_usage.as_str());
    store.save_cpu_info(cpu.total_cpus, cpu.total_cpu_usage, cpu.cores_usage, now);
    json_response(body)
}

/// Answer an uptime request around the boot-time text the collaborator
/// reported.
pub fn handle_uptime(uptime: &str) -> (r: HttpResponse)
    ensures
        r.status == 200,
        r.headers@ == full_headers(),
        r.body@ == uptime_body(uptime@),
{
    json_response(build_uptime_body(uptime))
}

/// Answer a history request: the most recent samples, newest first.
pub fn handle_cpu_history(store: &Store) -> (r: HttpResponse)
    ensures
        r.status == 200,
        r.headers@ == full_headers(),
        r.body@ == cpu_history_body(history_rows(store.cpu@)),
{
    let entries = store.get_cpu_history();
    let body = build_history_body(&entries, Ghost(history_rows(store.cpu@)));
    json_response(body)
}

/// Answer a target-listing request.
pub fn handle_urls_list(store: &Store) -> (r: HttpResponse)
    ensures
        r.status == 200,
        r.headers@ == full_headers(),
        r.body@ == urls_body(store.urls@),
{
    let entries = store.get_urls();
    let body = build_urls_body(&entries, Ghost(store.urls@));
    json_response(body)
}

/// Answer a target-creation request: when the body carries a `url`
/// field, persist a new target with its status unset and confirm with a
/// 200; a body without a usable field is a 400 with the error envelope,
/// and changes nothing.
pub fn handle_urls_post(store: &mut Store, body: &str, now: u64) -> (r: HttpResponse)
    requires
        old(store).wf(),
        now >= old(store).latest_url_time(),
        old(store).next_url_id < i32::MAX,
    ensures
        final(store).wf(),
        r.headers@ == full_headers(),
        (match url_field(body@) {
            Some(u) => {
                &&& r.status == 200
                &&& r.body@ == post_ok_body(u)
                &&& final(store).urls@.len() == old(store).urls@.len() + 1
                &&& final(store).urls@.subrange(0, old(store).urls@.len() as int)
                    == old(store).urls@
                &&& final(store).urls@.last().id == old(store).next_url_id
                &&& final(store).urls@.last().url@ == u
                &&& final(store).urls@.last().status_code is None
                &&& final(store).urls@.last().created_at == now
                &&& final(store).cpu@ == old(store).cpu@
                &&& final(store).next_url_id == old(store).next_url_id + 1
                &&& final(store).next_cpu_id == old(store).next_cpu_id
            },
            None => {
                &&& r.status == 400
                &&& r.body@ == post_err_body()
                &&& store_unchanged(*old(store), *final(store))
            },
        }),
{
    match extract_url(body) {
        Some(u) => {
            let msg = build_post_ok_body(u.as_str());
            store.create_url(u, None, now);
            proof {
                let orig = old(store).urls@;
                assert(store.urls@.subrange(0, orig.len() as int) =~= orig);
            }
            json_response(msg)
        },
        None => {
            let msg = build_post_err_body();
            response(msg.as_str(), 400)
        },
    }
}

/// Answer a target-deletion request: a body that is not JSON is a 500, a
/// JSON body without an integer id is a 400, and an integer id — taken
/// modulo 32 bits, as the API always did — deletes the matching target,
/// absent or not, and confirms with a 200.
pub fn handle_urls_delete(store: &mut Store, body: &[u8]) -> (r: HttpResponse)
    requires
        old(store).wf(),
    ensures
        final(store).wf(),
        r.headers@ == full_headers(),
        final(store).cpu@ == old(store).cpu@,
        final(store).next_cpu_id == old(store).next_cpu_id,
        final(store).next_url_id == old(store).next_url_id,
        !json_accepts(body@) ==> r.status == 500 && r.body@ == delete_bad_json_body()
            && final(store).urls@ == old(store).urls@,
        json_accepts(body@) && json_id_field(body@) is None ==> r.status == 400 && r.body@
            == delete_bad_id_body() && final(store).urls@ == old(store).urls@,
        (match json_id_field(body@) {
            Some(i) => json_accepts(body@) ==> r.status == 200 && r.body@ == delete_ok_body(
                (i as i32) as int,
            ) && final(store).urls@ == without_url(old(store).urls@, i as i32),
            None => true,
        }),
{
    match parse_id_field(body) {
        None => {
            let msg = build_delete_bad_json_body();
            response(msg.as_str(), 500)
        },
        Some(None) => {
            let msg = build_delete_bad_id_body();
            response(msg.as_str(), 400)
        },
        Some(Some(i)) => {
            let id = #[verifier::truncate] (i as i32);
            store.delete_url(id);
            let msg = build_delete_ok_body(id);
            response(msg.as_str(), 200)
        },
    }
}

/// Decode one request, route it, run the routed behaviour against the
/// store and the sampled readings, and produce the answer. This is the
/// whole per-request decision; reading the request off the wire and
/// writing the answer back stay with the transport layer.
pub fn received_request(
    store: &mut Store,
    method: Method,
    path: &str,
    body: &[u8],
    sys: SystemSnapshot,
    now: u64,
) -> (r: HttpResponse)
    requires
        old(store).wf(),
        spec_route(method, path@) == Route::Cpu ==> now >= old(store).latest_cpu_time()
            && old(store).next_cpu_id < u32::MAX,
        spec_route(method, path@) == Route::UrlsCreate ==> now >= old(store).latest_url_time()
            && old(store).next_url_id < i32::MAX && vstd::utf8::valid_utf8(body@),
    ensures
        final(store).wf(),
        (match spec_route(method, path@) {
            Route::Preflight => {
                &&& store_unchanged(*old(store), *final(store))
                &&& r.status == 204
                &&& r.body@ == Seq::<char>::empty()
                &&& r.headers@ == cors_headers()
            },
            Route::Memory => {
                &&& store_unchanged(*old(store), *final(store))
                &&& r.status == 200
                &&& r.headers@ == full_headers()
                &&& r.body@ == memory_body(
                    sys.mem_total / 1024 / 1024,
                    sys.mem_used / 1024 / 1024,
                    sys.mem_free / 1024 / 1024,
                )
            },
            Route::Cpu => {
                &&& r.status == 200
                &&& r.headers@ == full_headers()
                &&& r.body@ == cpu_body(
                    sys.cpu.total_cpus,
                    sys.cpu.total_cpu_usage,
                    sys.cpu.cores_usage@,
                )
                &&& final(store).cpu@ == old(store).cpu@.push(
                    (CpuRow {
                        id: old(store).next_cpu_id,
                        total_cpus: sys.cpu.total_cpus,
                        total_cpu_usage: sys.cpu.total_cpu_usage,
                        cores_usage: sys.cpu.cores_usage,
                        created_at: now,
                    }),
                )
                &&& final(store).urls@ == old(store).urls@
                &&& final(store).next_cpu_id == old(store).next_cpu_id + 1
                &&& final(store).next_url_id == old(store).next_url_id
            },
            Route::Uptime => {
                &&& store_unchanged(*old(store), *final(store))
                &&& r.status == 200
                &&& r.headers@ == full_headers()
                &&& r.body@ == uptime_body(sys.uptime@)
            },
            Route::CpuHistory => {
                &&& store_unchanged(*old(store), *final(store))
                &&& r.status == 200
                &&& r.headers@ == full_headers()
                &&& r.body@ == cpu_history_body(history_rows(old(store).cpu@))
            },
            Route::UrlsList => {
                &&& store_unchanged(*old(store), *final(store))
                &&& r.status == 200
                &&& r.headers@ == full_headers()
                &&& r.body@ == urls_body(old(store).urls@)
            },
            Route::UrlsCreate => {
                &&& r.headers@ == full_headers()
                &&& (match url_field(vstd::utf8::decode_utf8(body@)) {
                    Some(u) => {
                        &&& r.status == 200
                        &&& r.body@ == post_ok_body(u)
                        &&& final(store).urls@.len() == old(store).urls@.len() + 1
                        &&& final(store).urls@.subrange(0, old(store).urls@.len() as int)
                            == old(store).urls@
                        &&& final(store).urls@.last().id == old(store).next_url_id
                        &&& final(store).urls@.last().url@ == u
                        &&& final(store).urls@.last().status_code is None
                        &&& final(store).urls@.last().created_at == now
                        &&& final(store).cpu@ == old(store).cpu@
                        &&& final(store).next_url_id == old(store).next_url_id + 1
                        &&& final(store).next_cpu_id == old(store).next_cpu_id
                    },
                    None => {
                        &&& r.status == 400
                        &&& r.body@ == post_err_body()
                        &&& store_unchanged(*old(store), *final(store))
                    },
                })
            },
            Route::UrlsDelete => {
                &&& r.headers@ == full_headers()
                &&& final(store).cpu@ == old(store).cpu@
                &&& final(store).next_cpu_id == old(store).next_cpu_id
                &&& final(store).next_url_id == old(store).next_url_id
                &&& (!json_accepts(body@) ==> r.status == 500 && r.body@
                    == delete_bad_json_body() && final(store).urls@ == old(store).urls@)
                &&& (json_accepts(body@) && json_id_field(body@) is None ==> r.status == 400
                    && r.body@ == delete_bad_id_body() && final(store).urls@
                    == old(store).urls@)
                &&& (match json_id_field(body@) {
                    Some(i) => json_accepts(body@) ==> r.status == 200 && r.body@
                        == delete_ok_body((i as i32) as int) && final(store).urls@
                        == without_url(old(store).urls@, i as i32),
                    None => true,
                })
            },
            Route::Fallback => {
                &&& store_unchanged(*old(store), *final(store))
                &&& r.status == 200
                &&& r.body@ == "Hello, World!"@
                &&& r.headers@ == cors_headers()
            },
        }),
{
    let routed = route(method, path);
    match routed {
        Route::Preflight => request_options(),
        Route::Memory => handle_memory(sys.mem_total, sys.mem_used, sys.mem_free),
        Route::Cpu => handle_cpu(store, sys.cpu, now),
        Route::Uptime => handle_uptime(sys.uptime.as_str()),
        Route::CpuHistory => handle_cpu_history(store),
        Route::UrlsList => handle_urls_list(store),
        Route::UrlsCreate => match bytes_to_string(body) {
            Some(s) => handle_urls_post(store, s.as_str(), now),
            None => unreached(),
        },
        Route::UrlsDelete => handle_urls_delete(store, body),
        Route::Fallback => fallback_response(),
    }
}

} // verus!
