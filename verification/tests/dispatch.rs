use evaljs::pool::{evaljs_cmd, startup_pool, Job, ThreadPool};
use evaljs::reply::{PendingReply, Reply, ResolveError};
use evaljs::request::RequestError;
use evaljs::value::HostValue;

fn tokens(items: &[&str]) -> Vec<String> {
    items.iter().map(|s| s.to_string()).collect()
}

#[test]
fn parked_caller_is_resolved_exactly_once() {
    let mut handle = PendingReply::park(7u32);
    assert!(handle.is_pending());
    let delivery = handle.resolve(Reply::Value(HostValue::Integer(4))).ok().unwrap();
    assert_eq!(delivery.caller, 7);
    assert_eq!(delivery.reply, Reply::Value(HostValue::Integer(4)));
    assert!(!handle.is_pending());
    assert_eq!(handle.resolve(Reply::Value(HostValue::Integer(5))).err(), Some(ResolveError::AlreadyResolved));
    assert_eq!(handle.resolve(Reply::Value(HostValue::Null)).err(), Some(ResolveError::AlreadyResolved));
}

#[test]
fn results_are_not_cross_delivered() {
    let mut first = PendingReply::park("first");
    let mut second = PendingReply::park("second");
    let late = second.resolve(Reply::Value(HostValue::Integer(2))).ok().unwrap();
    let early = first.resolve(Reply::Value(HostValue::Integer(1))).ok().unwrap();
    assert_eq!((early.caller, early.reply), ("first", Reply::Value(HostValue::Integer(1))));
    assert_eq!((late.caller, late.reply), ("second", Reply::Value(HostValue::Integer(2))));
}

#[test]
fn pool_is_first_in_first_out() {
    let mut pool: ThreadPool<u32> = ThreadPool::new(4);
    assert_eq!(pool.size(), 4);
    assert_eq!(pool.pending(), 0);
    assert_eq!(pool.next_job(), None);
    pool.execute(10);
    pool.execute(20);
    pool.execute(30);
    assert_eq!(pool.pending(), 3);
    assert_eq!(pool.next_job(), Some(10));
    pool.execute(40);
    assert_eq!(pool.next_job(), Some(20));
    assert_eq!(pool.next_job(), Some(30));
    assert_eq!(pool.next_job(), Some(40));
    assert_eq!(pool.next_job(), None);
    assert_eq!(pool.size(), 4);
}

#[test]
fn startup_pool_has_a_worker_and_no_jobs() {
    let pool: ThreadPool<u32> = startup_pool();
    assert!(pool.size() >= 1);
    assert_eq!(pool.pending(), 0);
}

#[test]
fn well_formed_command_parks_and_queues() {
    let mut pool: ThreadPool<Job<u32>> = ThreadPool::new(2);
    let reply = evaljs_cmd(&mut pool, tokens(&["EVALJS", "return 1;", "1", "k", "a"]), || 99u32);
    assert_eq!(reply, Ok(HostValue::NoReply));
    assert_eq!(pool.pending(), 1);
    let mut job = pool.next_job().unwrap();
    assert_eq!(job.request.code, "return 1;");
    assert_eq!(job.request.keys, tokens(&["k"]));
    assert_eq!(job.request.args, tokens(&["a"]));
    assert!(job.reply.is_pending());
    assert_eq!(job.reply.resolve(Reply::Value(HostValue::Null)).ok().unwrap().caller, 99);
}

#[test]
fn malformed_command_never_reaches_dispatch() {
    let mut pool: ThreadPool<Job<u32>> = ThreadPool::new(2);
    let reply = evaljs_cmd(&mut pool, tokens(&["EVALJS", "return 1;"]), || -> u32 {
        panic!("the caller must not be parked")
    });
    assert_eq!(reply, Err(RequestError::WrongArity));
    assert_eq!(pool.pending(), 0);
    let reply = evaljs_cmd(&mut pool, tokens(&["EVALJS", "return 1;", "x"]), || -> u32 {
        panic!("the caller must not be parked")
    });
    assert_eq!(reply, Err(RequestError::InvalidNumKeys));
    assert_eq!(pool.pending(), 0);
}

#[test]
fn commands_queue_in_arrival_order() {
    let mut pool: ThreadPool<Job<u32>> = ThreadPool::new(1);
    for caller in 0..3u32 {
        let code = format!("return {};", caller);
        let reply = evaljs_cmd(&mut pool, tokens(&["EVALJS", &code, "0"]), move || caller);
        assert_eq!(reply, Ok(HostValue::NoReply));
    }
    for caller in 0..3u32 {
        let mut job = pool.next_job().unwrap();
        assert_eq!(job.request.code, format!("return {};", caller));
        assert_eq!(job.reply.resolve(Reply::Value(HostValue::Null)).ok().unwrap().caller, caller);
    }
}
