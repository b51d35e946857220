//! Concurrent use of the library: many tasks call the handler at once,
//! and a session that fails leaves the others' exchanges untouched. The
//! handler touches no shared mutable state, so no synchronization is
//! used anywhere here.

use hyper_microservice::http::Request;
use hyper_microservice::router::handle;
use hyper_microservice::session::{session_step, SessionAction, SessionEvent};

fn request(method: &str, path: &str) -> Request {
    Request { method: method.to_string(), path: path.to_string() }
}

fn runtime() -> tokio::runtime::Runtime {
    tokio::runtime::Builder::new_multi_thread().worker_threads(8).build().unwrap()
}

#[test]
fn hundred_concurrent_callers_get_independent_responses() {
    let baseline_ok = handle(&request("GET", "/"));
    let baseline_miss = handle(&request("GET", "/missing"));
    runtime().block_on(async {
        let mut handles = Vec::new();
        for client in 0..100u32 {
            handles.push(tokio::task::spawn(async move {
                let ok = handle(&request("GET", "/"));
                let miss = handle(&request("GET", &format!("/missing/{}", client)));
                (ok, miss)
            }));
        }
        for join_handle in handles {
            let (ok, miss) = join_handle.await.unwrap();
            assert_eq!(ok.status, baseline_ok.status);
            assert_eq!(ok.headers, baseline_ok.headers);
            assert_eq!(ok.body, baseline_ok.body);
            assert_eq!(miss.status, baseline_miss.status);
            assert_eq!(miss.body, baseline_miss.body);
        }
    });
}

#[test]
fn failing_session_does_not_disturb_the_others() {
    let baseline = handle(&request("GET", "/"));
    runtime().block_on(async {
        let mut handles = Vec::new();
        for _client in 0..20u32 {
            handles.push(tokio::task::spawn(async move {
                session_step(SessionEvent::Decoded(request("GET", "/")))
            }));
        }
        // One session observes a malformed preamble: its whole reaction
        // is to close itself.
        let bad = tokio::task::spawn(async move {
            session_step(SessionEvent::ProtocolViolation)
        });
        assert!(matches!(bad.await.unwrap(), SessionAction::Close));
        for join_handle in handles {
            match join_handle.await.unwrap() {
                SessionAction::Send(resp) => {
                    assert_eq!(resp.status, baseline.status);
                    assert_eq!(resp.headers, baseline.headers);
                    assert_eq!(resp.body, baseline.body);
                }
                SessionAction::Close => panic!("a decoded request must be answered"),
            }
        }
    });
}
