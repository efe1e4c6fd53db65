//! Decisions of the status listener: where it binds, how many workers serve
//! it, what a connection is answered, and what becomes of a failed start.

use vstd::prelude::*;
use vstd::string::*;

use threadpool::ThreadPool;

use crate::options::Options;

verus! {

/// Size of the buffer a request is read into; bytes beyond it are ignored.
pub const REQUEST_BUFFER_SIZE: usize = 4096;

/// Name of the worker threads that serve status connections.
pub const WORKER_THREAD_NAME: &'static str = "status-http.handler";

/// Name of the thread that runs the accept loop.
pub const LISTENER_THREAD_NAME: &'static str = "status-http";

/// The one reply of the status listener.
pub const STATUS_RESPONSE: &'static str = "HTTP/1.1 200 OK\r\nContent-Type: text/html; charset=UTF-8\r\n\r\n<html><body>ok</body></html>\r\n";

/// Where the listener binds and how many workers serve it.
#[derive(Clone, Debug)]
pub struct ListenerSettings {
    /// `ip:port`, as given by `http-ip` and `http-port`.
    pub bind_addr: String,
    /// Number of workers, always positive.
    pub pool_size: usize,
}

/// Message recorded when the listener could not start.
pub open spec fn start_failed_message(cause: Seq<char>) -> Seq<char> {
    "Failed to create status http server: "@ + cause
}

#[verifier::external_type_specification]
#[verifier::external_body]
pub struct ExThreadPool(ThreadPool);

/// The number of workers a pool was built with.
pub uninterp spec fn pool_workers(p: ThreadPool) -> nat;

/// Relies on threadpool's `Builder`: `num_threads` asserts that the count is
/// positive; `build` records it as the pool's worker count and starts that
/// many workers, each named `thread_name` (std panics on a thread name that
/// holds a NUL character).
#[verifier::external_body]
fn build_pool(size: usize, thread_name: String) -> (r: ThreadPool)
    requires
        size > 0,
        forall|i: int| 0 <= i < thread_name@.len() ==> thread_name@[i] != '\0',
    ensures
        pool_workers(r) == size as nat,
{
    threadpool::Builder::new().num_threads(size).thread_name(thread_name).build()
}

/// Relies on threadpool's `ThreadPool::max_count`, which reads the worker
/// count that `build` recorded (nothing here changes it afterwards).
pub assume_specification[ ThreadPool::max_count ](p: &ThreadPool) -> (r: usize)
    ensures
        r as nat == pool_workers(*p),
;

/// The listener's settings: it binds to `http-ip:http-port` and is served by
/// `http-pool-size` workers, or three when that is not a positive count.
pub fn listener_settings(options: &Options) -> (r: ListenerSettings)
    ensures
        r.bind_addr@ == options.http_ip@ + ":"@ + options.http_port@,
        r.pool_size as nat == options.spec_pool_size(),
        r.pool_size > 0,
{
    let mut bind_addr = String::from_str(options.http_ip.as_str());
    bind_addr.append(":");
    bind_addr.append(options.http_port.as_str());
    ListenerSettings { bind_addr, pool_size: options.pool_size() }
}

/// Starts the fixed pool of workers that serve the listener's connections:
/// `settings.pool_size` of them, a number that never changes; connections
/// beyond it wait in the pool's queue.
pub fn create_worker_pool(settings: &ListenerSettings) -> (r: ThreadPool)
    requires
        settings.pool_size > 0,
    ensures
        pool_workers(r) == settings.pool_size as nat,
{
    proof {
        reveal_strlit("status-http.handler");
    }
    build_pool(settings.pool_size, String::from_str(WORKER_THREAD_NAME))
}

/// What a connection is answered once its request was read: the fixed reply
/// after any successful read (`bytes_read` is `Some`), nothing after a failed
/// one, in which case the connection is closed.
pub fn reply_for_read(bytes_read: Option<usize>) -> (r: Option<&'static str>)
    ensures
        r is Some <==> bytes_read is Some,
        r is Some ==> r.unwrap()@ == STATUS_RESPONSE@,
{
    match bytes_read {
        Some(_) => Some(STATUS_RESPONSE),
        None => None,
    }
}

/// What the bootstrap keeps of an attempt to start the listener: its handle
/// when it started; otherwise no handle and a message to log, the host going
/// on without the status endpoint.
pub fn settle_listener<H>(started: Result<H, String>) -> (r: (Option<H>, Option<String>))
    ensures
        match started {
            Ok(h) => r.0 == Some(h) && r.1 is None,
            Err(cause) => r.0 is None && (r.1 matches Some(m) && m@ == start_failed_message(cause@)),
        },
{
    match started {
        Ok(h) => (Some(h), None),
        Err(cause) => {
            let mut msg = String::from_str("Failed to create status http server: ");
            msg.append(cause.as_str());
            (None, Some(msg))
        },
    }
}

} // verus!
