use std::sync::mpsc::channel;
use std::sync::{Arc, Mutex};
use std::time::{Duration, Instant};

use eggricesoy::http::REQUEST_BUFFER_SIZE;
use eggricesoy::{
    create_worker_pool, listener_settings, reply_for_read, settle_listener, Options, STATUS_RESPONSE,
};

#[test]
fn settings_join_address_and_size_pool() {
    let mut o = Options::defaults("svc");
    o.http_ip = "127.0.0.1".to_string();
    o.http_port = "0".to_string();
    o.http_pool_size = "2".to_string();
    let s = listener_settings(&o);
    assert_eq!(s.bind_addr, "127.0.0.1:0");
    assert_eq!(s.pool_size, 2);
    let d = listener_settings(&Options::defaults("svc"));
    assert_eq!(d.bind_addr, "0.0.0.0:3000");
    assert_eq!(d.pool_size, 3);
    o.http_pool_size = "-1".to_string();
    assert_eq!(listener_settings(&o).pool_size, 3);
}

#[test]
fn reply_is_fixed_page_after_any_read() {
    let expected = "HTTP/1.1 200 OK\r\nContent-Type: text/html; charset=UTF-8\r\n\r\n<html><body>ok</body></html>\r\n";
    assert_eq!(STATUS_RESPONSE, expected);
    assert_eq!(reply_for_read(Some(0)), Some(expected));
    assert_eq!(reply_for_read(Some(REQUEST_BUFFER_SIZE)), Some(expected));
    assert_eq!(reply_for_read(None), None);
    assert_eq!(REQUEST_BUFFER_SIZE, 4096);
}

#[test]
fn failed_listener_leaves_no_handle() {
    let (handle, msg) = settle_listener::<u32>(Err("Address already in use".to_string()));
    assert_eq!(handle, None);
    assert_eq!(
        msg.as_deref(),
        Some("Failed to create status http server: Address already in use")
    );
    let (handle, msg) = settle_listener::<u32>(Ok(7));
    assert_eq!(handle, Some(7));
    assert_eq!(msg, None);
}

#[test]
fn worker_pool_is_fixed_and_queues_excess_work() {
    let mut o = Options::defaults("svc");
    o.http_pool_size = "2".to_string();
    let pool = create_worker_pool(&listener_settings(&o));
    assert_eq!(pool.max_count(), 2);
    let (release, gate) = channel::<()>();
    let gate = Arc::new(Mutex::new(gate));
    let (done_tx, done_rx) = channel::<()>();
    for _ in 0..5 {
        let gate = gate.clone();
        let done = done_tx.clone();
        pool.execute(move || {
            let _ = gate.lock().unwrap().recv();
            let _ = done.send(());
        });
    }
    let start = Instant::now();
    while pool.queued_count() != 3 && start.elapsed() < Duration::from_secs(10) {
        std::hint::spin_loop();
    }
    assert_eq!(pool.queued_count(), 3);
    assert!(pool.active_count() <= 2);
    assert_eq!(pool.max_count(), 2);
    for _ in 0..5 {
        release.send(()).unwrap();
    }
    for _ in 0..5 {
        done_rx.recv_timeout(Duration::from_secs(10)).unwrap();
    }
    pool.join();
    assert_eq!(pool.queued_count(), 0);
}

#[test]
fn invalid_pool_size_gives_three_workers() {
    let mut o = Options::defaults("svc");
    for bad in ["0", "", "two", "-2"] {
        o.http_pool_size = bad.to_string();
        let pool = create_worker_pool(&listener_settings(&o));
        assert_eq!(pool.max_count(), 3);
        pool.join();
    }
    o.http_pool_size = "5".to_string();
    assert_eq!(create_worker_pool(&listener_settings(&o)).max_count(), 5);
}
