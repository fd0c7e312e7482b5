use voice_vibe_local::asr_worker::{worker_line, worker_proxy_assignments, WorkerLine, WorkerPool};
use voice_vibe_local::settings::get_settings;

#[test]
fn an_idle_worker_stops_only_after_its_ttl() {
    let mut pool = WorkerPool::new();
    assert!(pool.before_request());
    assert_eq!(pool.generation, 1);
    let (generation, ttl) = pool.after_success(10_000, Some("meeting_full"));
    assert_eq!((generation, ttl), (1, 60));
    assert!(!pool.idle_shutdown(generation, ttl, 69_999));
    assert!(!pool.before_request());
    let (_, ttl) = pool.after_success(20_000, Some("dictation"));
    assert_eq!(ttl, 1200);
    assert!(!pool.idle_shutdown(generation, 60, 75_000));
    assert!(pool.idle_shutdown(generation, 60, 80_000));
    assert!(!pool.running);
    assert!(pool.before_request());
    assert_eq!(pool.generation, 2);
}

#[test]
fn a_failed_request_cancels_the_old_workers_shutdown() {
    let mut pool = WorkerPool::new();
    pool.before_request();
    let (generation, ttl) = pool.after_success(0, None);
    pool.after_failure();
    assert!(!pool.running);
    assert_eq!(pool.generation, 2);
    pool.before_request();
    assert_eq!(pool.generation, 3);
    pool.after_success(0, None);
    assert!(!pool.idle_shutdown(generation, ttl, 1_000_000));
    assert!(pool.running);
}

#[test]
fn worker_output_lines_are_read_until_the_reply() {
    assert!(matches!(worker_line("loading model..."), WorkerLine::Skip));
    assert!(matches!(
        worker_line(r#"  {"ok":true,"result":{"text":"hi"}}  "#),
        WorkerLine::Reply(ref t) if t == r#"{"ok":true,"result":{"text":"hi"}}"#
    ));
    assert!(matches!(
        worker_line(r#"{"ok":false}"#),
        WorkerLine::Failed(ref e) if e == "SIDECAR_ERROR: Python ASR worker failed"
    ));
    assert!(matches!(
        worker_line("{broken"),
        WorkerLine::Invalid(ref e) if e.starts_with("Invalid ASR worker JSON response: ") && e.ends_with("; line={broken")
    ));
}

#[test]
fn the_worker_gets_https_from_http_only_where_https_is_unset() {
    let rows = vec![
        ("http_proxy".to_string(), "http://h:1".to_string()),
        ("all_proxy".to_string(), " ".to_string()),
    ];
    let settings = get_settings(&rows, false);
    let a = worker_proxy_assignments(&settings);
    assert_eq!(a.len(), 6);
    assert_eq!(a[1].value.as_deref(), Some("http://h:1"));
    assert_eq!(a[3].key, "HTTPS_PROXY");
    assert_eq!(a[3].value.as_deref(), Some("http://h:1"));
    assert_eq!(a[4].value, None);
}
