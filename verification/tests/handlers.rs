use hostmon::metrics::CpuInfo;
use hostmon::probe::apply_probe_outcome;
use hostmon::probe::probe_status;
use hostmon::request::handle_cpu;
use hostmon::request::handle_cpu_history;
use hostmon::request::handle_memory;
use hostmon::request::handle_uptime;
use hostmon::request::handle_urls_delete;
use hostmon::request::handle_urls_list;
use hostmon::request::handle_urls_post;
use hostmon::request::received_request;
use hostmon::request::SystemSnapshot;
use hostmon::response::HeaderKind;
use hostmon::routes::Method;
use hostmon::store::Store;

fn snapshot() -> SystemSnapshot {
    SystemSnapshot {
        mem_total: 3 * 1024 * 1024 * 1024,
        mem_used: 1024 * 1024 * 1024,
        mem_free: 2 * 1024 * 1024 * 1024,
        cpu: CpuInfo { total_cpus: 8, total_cpu_usage: 42, cores_usage: "[40, 44]".to_string() },
        uptime: "2024-01-01 10:00:00".to_string(),
    }
}

#[test]
fn memory_endpoint_reports_megabytes() {
    let r = handle_memory(3 * 1024 * 1024 * 1024, 1024 * 1024 * 1024, 2 * 1024 * 1024 * 1024);
    assert_eq!(r.status, 200);
    assert_eq!(
        r.body,
        "{\"total_memory\": 3072,\"used_memory\": 1024,\"free_memory\": 2048}"
    );
    assert_eq!(
        r.headers,
        vec![
            HeaderKind::ContentTypeJson,
            HeaderKind::AllowOrigin,
            HeaderKind::AllowMethods,
            HeaderKind::AllowHeaders,
        ]
    );
}

#[test]
fn cpu_endpoint_persists_and_reports_the_sample() {
    let mut store = Store::new();
    let cpu = CpuInfo { total_cpus: 8, total_cpu_usage: 42, cores_usage: "[40, 44]".to_string() };
    let r = handle_cpu(&mut store, cpu, 77);
    assert_eq!(r.status, 200);
    assert_eq!(
        r.body,
        "{\"total_cpus\": 8,\"total_cpu_usage\": 42,\"cores_usage\": [40, 44]}"
    );
    assert_eq!(store.cpu.len(), 1);
    assert_eq!(store.cpu[0].id, 1);
    assert_eq!(store.cpu[0].created_at, 77);
}

#[test]
fn uptime_endpoint_quotes_the_boot_time() {
    let r = handle_uptime("2024-01-01 10:00:00");
    assert_eq!(r.status, 200);
    assert_eq!(r.body, "{\"data\": \"2024-01-01 10:00:00\"}");
}

#[test]
fn history_endpoint_renders_the_rows_newest_first() {
    let mut store = Store::new();
    store.save_cpu_info(8, 10, "[10]".to_string(), 100);
    store.save_cpu_info(8, 20, "[20]".to_string(), 200);
    let r = handle_cpu_history(&store);
    assert_eq!(r.status, 200);
    assert_eq!(
        r.body,
        "{\"data\": [\
         {\"id\": 2, \"total_cpus\": 8, \"total_cpu_usage\": 20, \"cores_usage\": [20], \"created_at\": \"200\"},\
         {\"id\": 1, \"total_cpus\": 8, \"total_cpu_usage\": 10, \"cores_usage\": [10], \"created_at\": \"100\"}\
         ]}"
    );
}

#[test]
fn history_endpoint_on_empty_store() {
    let store = Store::new();
    let r = handle_cpu_history(&store);
    assert_eq!(r.body, "{\"data\": []}");
}

#[test]
fn urls_endpoint_renders_the_targets() {
    let mut store = Store::new();
    store.create_url("http://one.example".to_string(), None, 5);
    store.update_url_status(1, 200);
    let r = handle_urls_list(&store);
    assert_eq!(
        r.body,
        "{\"data\": [{\"id\": 1, \"url\": \"http://one.example\", \"status_code\": \"200\", \"created_at\": \"5\"}]}"
    );
}

#[test]
fn post_without_url_field_is_a_400_with_the_error_envelope() {
    let mut store = Store::new();
    let r = handle_urls_post(&mut store, "{\"name\": \"x\"}", 5);
    assert_eq!(r.status, 400);
    assert_eq!(r.body, "{\"error\": \"JSON inválido ou campo 'url' ausente\"}");
    assert_eq!(store.urls.len(), 0);
}

#[test]
fn post_error_through_the_dispatcher_is_a_400() {
    let mut store = Store::new();
    let r = received_request(&mut store, Method::Post, "/urls", b"{}", snapshot(), 5);
    assert_eq!(r.status, 400);
    assert_eq!(r.body, "{\"error\": \"JSON inválido ou campo 'url' ausente\"}");
    assert_eq!(store.urls.len(), 0);
}

#[test]
fn delete_with_unparsable_body_is_a_500() {
    let mut store = Store::new();
    store.create_url("http://one.example".to_string(), None, 5);
    let r = handle_urls_delete(&mut store, b"not json at all");
    assert_eq!(r.status, 500);
    assert_eq!(r.body, "{\"error\": \"JSON inválido\"}");
    assert_eq!(store.urls.len(), 1);
}

#[test]
fn delete_without_integer_id_is_a_400() {
    let mut store = Store::new();
    store.create_url("http://one.example".to_string(), None, 5);
    let r = handle_urls_delete(&mut store, b"{\"id\": \"seven\"}");
    assert_eq!(r.status, 400);
    assert_eq!(r.body, "{\"error\": \"ID inválido ou ausente\"}");
    let r2 = handle_urls_delete(&mut store, b"{\"name\": 3}");
    assert_eq!(r2.status, 400);
    assert_eq!(store.urls.len(), 1);
}

#[test]
fn delete_with_integer_id_removes_and_confirms() {
    let mut store = Store::new();
    store.create_url("http://one.example".to_string(), None, 5);
    let r = handle_urls_delete(&mut store, b"{\"id\": 1}");
    assert_eq!(r.status, 200);
    assert_eq!(r.body, "{\"message\": \"URL com ID 1 deletada com sucesso\"}");
    assert_eq!(store.urls.len(), 0);
    assert_eq!(
        r.headers,
        vec![
            HeaderKind::ContentTypeJson,
            HeaderKind::AllowOrigin,
            HeaderKind::AllowMethods,
            HeaderKind::AllowHeaders,
        ]
    );
}

#[test]
fn probe_outcomes_map_to_status_codes() {
    assert_eq!(probe_status(Some(503)), 503);
    assert_eq!(probe_status(Some(200)), 200);
    assert_eq!(probe_status(None), 404);
}

#[test]
fn probe_failure_writes_the_sentinel() {
    let mut store = Store::new();
    store.create_url("http://example.invalid".to_string(), None, 5);
    apply_probe_outcome(&mut store, 1, None);
    let listing = store.get_urls();
    assert_eq!(listing[0].status_code, 404);
}

#[test]
fn probe_success_writes_the_observed_status() {
    let mut store = Store::new();
    store.create_url("http://one.example".to_string(), None, 5);
    apply_probe_outcome(&mut store, 1, Some(204));
    let listing = store.get_urls();
    assert_eq!(listing[0].status_code, 204);
}

#[test]
fn memory_and_uptime_through_the_dispatcher() {
    let mut store = Store::new();
    let r = received_request(&mut store, Method::Get, "/memory", b"", snapshot(), 1);
    assert_eq!(r.status, 200);
    assert_eq!(
        r.body,
        "{\"total_memory\": 3072,\"used_memory\": 1024,\"free_memory\": 2048}"
    );
    let r = received_request(&mut store, Method::Get, "/uptime", b"", snapshot(), 2);
    assert_eq!(r.body, "{\"data\": \"2024-01-01 10:00:00\"}");
    assert!(store.cpu.is_empty() && store.urls.is_empty());
}

#[test]
fn preflight_answers_any_options_request() {
    let mut store = Store::new();
    let r = received_request(&mut store, Method::Options, "/anything", b"", snapshot(), 1);
    assert_eq!(r.status, 204);
    assert_eq!(r.body, "");
    assert_eq!(
        r.headers,
        vec![HeaderKind::AllowOrigin, HeaderKind::AllowMethods, HeaderKind::AllowHeaders]
    );
}

#[test]
fn unrouted_requests_get_the_placeholder_with_cors() {
    let mut store = Store::new();
    let r = received_request(&mut store, Method::Get, "/nothing", b"", snapshot(), 1);
    assert_eq!(r.status, 200);
    assert_eq!(r.body, "Hello, World!");
    assert_eq!(
        r.headers,
        vec![HeaderKind::AllowOrigin, HeaderKind::AllowMethods, HeaderKind::AllowHeaders]
    );
}

#[test]
fn end_to_end_create_probe_list_delete() {
    let mut store = Store::new();

    // Create the target through the API.
    let r = received_request(
        &mut store,
        Method::Post,
        "/urls",
        b"{\"url\":\"http://example.invalid\"}",
        snapshot(),
        10,
    );
    assert_eq!(r.status, 200);
    assert_eq!(
        r.body,
        "{\"message\": \"URL criada com sucesso\", \"url\": \"http://example.invalid\"}"
    );

    // One health-check tick later the unreachable target carries the
    // failure sentinel.
    apply_probe_outcome(&mut store, 1, None);
    let r = received_request(&mut store, Method::Get, "/urls", b"", snapshot(), 11);
    assert_eq!(
        r.body,
        "{\"data\": [{\"id\": 1, \"url\": \"http://example.invalid\", \"status_code\": \"404\", \"created_at\": \"10\"}]}"
    );

    // Delete it and confirm.
    let r = received_request(&mut store, Method::Delete, "/urls", b"{\"id\": 1}", snapshot(), 12);
    assert_eq!(r.status, 200);
    assert_eq!(r.body, "{\"message\": \"URL com ID 1 deletada com sucesso\"}");

    // It is gone from later listings.
    let r = received_request(&mut store, Method::Get, "/urls", b"", snapshot(), 13);
    assert_eq!(r.body, "{\"data\": []}");
}

#[test]
fn cpu_request_through_the_dispatcher_persists_one_row() {
    let mut store = Store::new();
    let r = received_request(&mut store, Method::Get, "/cpu", b"", snapshot(), 50);
    assert_eq!(r.status, 200);
    assert_eq!(
        r.body,
        "{\"total_cpus\": 8,\"total_cpu_usage\": 42,\"cores_usage\": [40, 44]}"
    );
    assert_eq!(store.cpu.len(), 1);
    let r = received_request(&mut store, Method::Get, "/cpu/history", b"", snapshot(), 51);
    assert_eq!(
        r.body,
        "{\"data\": [{\"id\": 1, \"total_cpus\": 8, \"total_cpu_usage\": 42, \"cores_usage\": [40, 44], \"created_at\": \"50\"}]}"
    );
}
