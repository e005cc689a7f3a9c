use hostmon::store::Store;

#[test]
fn insert_then_history_round_trip() {
    let mut store = Store::new();
    let id = store.save_cpu_info(8, 42, "[1, 2]".to_string(), 100);
    assert_eq!(id, 1);
    let history = store.get_cpu_history();
    assert_eq!(history.len(), 1);
    let (hid, cpus, usage, cores, created) = history[0].clone();
    assert_eq!(hid, 1);
    assert_eq!(cpus, 8);
    assert_eq!(usage, 42);
    assert_eq!(cores, "[1, 2]");
    assert_eq!(created, "100");
}

#[test]
fn flush_keeps_rows_within_the_window() {
    let mut store = Store::new();
    store.save_cpu_info(4, 10, "[10]".to_string(), 100);
    store.save_cpu_info(4, 20, "[20]".to_string(), 250);
    // At 400 the first row is exactly five minutes old: still kept.
    store.flush_cpu_info(400);
    assert_eq!(store.cpu.len(), 2);
    // At 401 the first row has aged out; the second has not.
    store.flush_cpu_info(401);
    assert_eq!(store.cpu.len(), 1);
    assert_eq!(store.cpu[0].total_cpu_usage, 20);
}

#[test]
fn flush_twice_deletes_nothing_the_second_time() {
    let mut store = Store::new();
    store.save_cpu_info(4, 10, "[10]".to_string(), 100);
    store.save_cpu_info(4, 20, "[20]".to_string(), 900);
    store.flush_cpu_info(1000);
    let after_first: Vec<u32> = store.cpu.iter().map(|r| r.id).collect();
    store.flush_cpu_info(1000);
    let after_second: Vec<u32> = store.cpu.iter().map(|r| r.id).collect();
    assert_eq!(after_first, after_second);
    assert_eq!(after_second, vec![2]);
}

#[test]
fn history_is_capped_and_newest_first() {
    let mut store = Store::new();
    for i in 0..35u64 {
        store.save_cpu_info(4, i as u32, format!("[{}]", i), 1000 + i);
    }
    let history = store.get_cpu_history();
    assert_eq!(history.len(), 30);
    // Newest first: the last insert leads.
    assert_eq!(history[0].0, 35);
    assert_eq!(history[0].4, "1034");
    for w in history.windows(2) {
        assert!(w[0].0 > w[1].0);
        let a: u64 = w[0].4.parse().unwrap();
        let b: u64 = w[1].4.parse().unwrap();
        assert!(a >= b);
    }
}

#[test]
fn created_url_listed_once_with_status_unset() {
    let mut store = Store::new();
    store.create_url("http://one.example".to_string(), None, 5);
    store.create_url("http://two.example".to_string(), None, 6);
    let listing = store.get_urls();
    assert_eq!(listing.len(), 2);
    let hits: Vec<_> = listing.iter().filter(|d| d.url == "http://one.example").collect();
    assert_eq!(hits.len(), 1);
    assert_eq!(hits[0].id, 1);
    assert_eq!(hits[0].status_code, 0);
    assert_eq!(hits[0].created_at, "5");
}

#[test]
fn update_sets_only_the_probed_target() {
    let mut store = Store::new();
    store.create_url("http://one.example".to_string(), None, 5);
    store.create_url("http://two.example".to_string(), None, 6);
    store.update_url_status(2, 503);
    let listing = store.get_urls();
    assert_eq!(listing[0].status_code, 0);
    assert_eq!(listing[1].status_code, 503);
}

#[test]
fn update_of_absent_id_changes_nothing() {
    let mut store = Store::new();
    store.create_url("http://one.example".to_string(), None, 5);
    store.update_url_status(9, 200);
    let listing = store.get_urls();
    assert_eq!(listing.len(), 1);
    assert_eq!(listing[0].status_code, 0);
}

#[test]
fn delete_removes_target_from_listings() {
    let mut store = Store::new();
    store.create_url("http://one.example".to_string(), None, 5);
    store.create_url("http://two.example".to_string(), None, 6);
    store.delete_url(1);
    let listing = store.get_urls();
    assert_eq!(listing.len(), 1);
    assert_eq!(listing[0].id, 2);
    assert!(listing.iter().all(|d| d.id != 1));
}

#[test]
fn delete_of_absent_id_is_a_noop() {
    let mut store = Store::new();
    store.create_url("http://one.example".to_string(), None, 5);
    store.delete_url(7);
    let listing = store.get_urls();
    assert_eq!(listing.len(), 1);
    assert_eq!(listing[0].id, 1);
}

#[test]
fn many_inserts_one_row_each_no_duplicate_ids() {
    let mut store = Store::new();
    for i in 0..50u32 {
        store.save_cpu_info(4, i, "[0]".to_string(), 10);
    }
    assert_eq!(store.cpu.len(), 50);
    let mut ids: Vec<u32> = store.cpu.iter().map(|r| r.id).collect();
    ids.sort();
    ids.dedup();
    assert_eq!(ids.len(), 50);
}
