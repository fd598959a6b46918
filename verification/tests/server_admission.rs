use sip2_mediator::conf::Config;
use sip2_mediator::server::{Dispatch, Listen, Server};
use std::sync::mpsc::{channel, Receiver, Sender};
use std::time::{Duration, Instant};
use threadpool::ThreadPool;

fn config_for(max_clients: usize) -> Config {
    let mut config = Config::default();
    config.max_clients = max_clients;
    config
}

fn runs(decision: &Dispatch) -> bool {
    matches!(decision, Dispatch::Run(_))
}

fn rejects(decision: &Dispatch) -> bool {
    matches!(decision, Dispatch::Reject)
}

/// Puts a job into the pool that runs until `release` is sent to or dropped.
fn occupy(pool: &ThreadPool) -> Sender<()> {
    let (release, wait): (Sender<()>, Receiver<()>) = channel();
    pool.execute(move || {
        let _ = wait.recv();
    });
    release
}

/// Waits until the pool reports exactly these counts.
fn settle(pool: &ThreadPool, active: usize, queued: usize) {
    let started = Instant::now();
    while pool.active_count() != active || pool.queued_count() != queued {
        assert!(started.elapsed() < Duration::from_secs(10), "pool did not settle");
        std::hint::spin_loop();
    }
}

#[test]
fn new_server_keeps_its_config() {
    let server = Server::new(config_for(7));
    assert_eq!(server.config().max_clients, 7);
    assert_eq!(server.config().sip_address, "localhost");
    assert_eq!(server.config().http_path, "/sip2-mediator");
}

#[test]
fn serve_plans_the_bind_address_and_the_pool_size() {
    let mut config = config_for(12);
    config.sip_address = "192.0.2.10".to_string();
    config.sip_port = 6443;
    let plan = Server::new(config).serve();
    assert_eq!(plan, Listen { address: "192.0.2.10:6443".to_string(), workers: 12 });
}

#[test]
fn decide_runs_a_session_while_there_is_room() {
    let server = Server::new(config_for(2));
    assert!(runs(&server.decide(0, 0)));
    assert!(runs(&server.decide(1, 0)));
    assert!(runs(&server.decide(0, 1)));
}

#[test]
fn decide_rejects_at_the_limit_and_beyond() {
    let server = Server::new(config_for(2));
    assert!(rejects(&server.decide(2, 0)));
    assert!(rejects(&server.decide(1, 1)));
    assert!(rejects(&server.decide(0, 2)));
    assert!(rejects(&server.decide(2, 5)));
}

#[test]
fn decide_counts_running_and_waiting_sessions_together() {
    let server = Server::new(config_for(10));
    assert!(runs(&server.decide(4, 5)));
    assert!(rejects(&server.decide(5, 5)));
    assert!(rejects(&server.decide(9, 1)));
}

#[test]
fn decide_rejects_when_the_counts_overflow() {
    let server = Server::new(config_for(usize::MAX));
    assert!(runs(&server.decide(usize::MAX - 1, 0)));
    assert!(rejects(&server.decide(usize::MAX, 0)));
    assert!(rejects(&server.decide(usize::MAX, 1)));
    assert!(rejects(&server.decide(usize::MAX, usize::MAX)));
}

#[test]
fn decide_with_no_capacity_rejects_everything() {
    let server = Server::new(config_for(0));
    assert!(rejects(&server.decide(0, 0)));
    assert!(rejects(&server.decide(3, 0)));
}

#[test]
fn an_admitted_connection_gets_a_copy_of_the_config() {
    let mut config = config_for(4);
    config.http_host = "backend.example.org".to_string();
    config.ascii = true;
    config.ignore_ssl_errors = true;
    let server = Server::new(config);
    match server.decide(0, 0) {
        Dispatch::Run(copy) => {
            assert_eq!(copy.http_host, "backend.example.org");
            assert_eq!(copy.max_clients, 4);
            assert!(copy.ascii);
            assert!(copy.ignore_ssl_errors);
            assert_eq!(copy.backend_url(), server.config().backend_url());
        }
        Dispatch::Reject => panic!("an empty pool must take a connection"),
    }
}

#[test]
fn dispatch_admits_into_an_idle_pool() {
    let pool = ThreadPool::new(2);
    let server = Server::new(config_for(2));
    assert!(runs(&server.dispatch(&pool).decision));
}

#[test]
fn dispatch_rejects_the_connection_after_the_last_place_is_taken() {
    let max_clients = 3;
    let pool = ThreadPool::new(max_clients);
    let server = Server::new(config_for(max_clients));
    let mut running: Vec<Sender<()>> = Vec::new();
    for admitted in 0..max_clients {
        settle(&pool, admitted, 0);
        assert!(runs(&server.dispatch(&pool).decision), "connection {} must be admitted", admitted + 1);
        running.push(occupy(&pool));
    }
    settle(&pool, max_clients, 0);
    assert!(rejects(&server.dispatch(&pool).decision));
    assert!(rejects(&server.dispatch(&pool).decision));
    assert_eq!(pool.active_count() + pool.queued_count(), max_clients);
    drop(running);
    pool.join();
}

#[test]
fn dispatch_admits_again_after_a_session_ended() {
    let pool = ThreadPool::new(2);
    let server = Server::new(config_for(2));
    let first = occupy(&pool);
    let second = occupy(&pool);
    settle(&pool, 2, 0);
    assert!(rejects(&server.dispatch(&pool).decision));
    drop(first);
    settle(&pool, 1, 0);
    assert!(runs(&server.dispatch(&pool).decision));
    drop(second);
    pool.join();
}

#[test]
fn dispatch_counts_waiting_jobs_too() {
    let pool = ThreadPool::new(1);
    let server = Server::new(config_for(2));
    let first = occupy(&pool);
    let second = occupy(&pool);
    settle(&pool, 1, 1);
    assert!(rejects(&server.dispatch(&pool).decision));
    drop(first);
    drop(second);
    pool.join();
}

#[test]
fn dispatch_reports_the_counts_it_decided_on() {
    let pool = ThreadPool::new(2);
    let server = Server::new(config_for(5));
    let idle = server.dispatch(&pool);
    assert_eq!((idle.active, idle.queued), (0, 0));
    assert!(runs(&idle.decision));

    let first = occupy(&pool);
    let second = occupy(&pool);
    let third = occupy(&pool);
    settle(&pool, 2, 1);
    let busy = server.dispatch(&pool);
    assert_eq!((busy.active, busy.queued), (2, 1));
    assert!(runs(&busy.decision));

    let fourth = occupy(&pool);
    let fifth = occupy(&pool);
    settle(&pool, 2, 3);
    let full = server.dispatch(&pool);
    assert_eq!((full.active, full.queued), (2, 3));
    assert!(rejects(&full.decision));

    drop((first, second, third, fourth, fifth));
    pool.join();
}

#[test]
fn dispatch_decides_as_decide_does_on_the_reported_counts() {
    let pool = ThreadPool::new(1);
    let held = occupy(&pool);
    let waiting = occupy(&pool);
    settle(&pool, 1, 1);
    for max_clients in 0..5 {
        let server = Server::new(config_for(max_clients));
        let dispatched = server.dispatch(&pool);
        assert_eq!((dispatched.active, dispatched.queued), (1, 1));
        assert_eq!(
            runs(&dispatched.decision),
            runs(&server.decide(dispatched.active, dispatched.queued))
        );
        assert_eq!(runs(&dispatched.decision), max_clients > 2);
    }
    drop((held, waiting));
    pool.join();
}
