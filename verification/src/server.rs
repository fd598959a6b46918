//! Admission of connections into a bounded pool of sessions.
//!
//! The listener hands every accepted connection to [`Server::dispatch`],
//! which looks at the pool and decides at once: run a session, or turn the
//! connection away. Nothing waits for a free place.

use crate::conf::{Config, ConfigView};
use vstd::prelude::*;

verus! {

#[verifier::external_type_specification]
#[verifier::external_body]
pub struct ExThreadPool(threadpool::ThreadPool);

/// Calls `threadpool::ThreadPool::active_count`.
///
/// Trusted: nothing. The number is read from a counter that the workers
/// change while the call runs.
#[verifier::external_body]
fn active_count(pool: &threadpool::ThreadPool) -> (active: usize) {
    pool.active_count()
}

/// Calls `threadpool::ThreadPool::queued_count`.
///
/// Trusted: nothing. The number is read from a counter that the workers
/// change while the call runs.
#[verifier::external_body]
fn queued_count(pool: &threadpool::ThreadPool) -> (queued: usize) {
    pool.queued_count()
}

/// What the listener is to set up before it accepts connections.
#[derive(Debug, PartialEq, Eq)]
pub struct Listen {
    /// Address to bind to, `<address>:<port>`.
    pub address: String,
    /// Number of workers of the pool.
    pub workers: usize,
}

/// What becomes of an accepted connection.
#[derive(Debug)]
pub enum Dispatch {
    /// Run a session on the connection, with this copy of the configuration.
    Run(Config),
    /// Shut the connection down in both directions. No session is made.
    Reject,
}

/// The mathematical value of a [`Dispatch`].
pub enum DispatchView {
    Run(ConfigView),
    Reject,
}

impl View for Dispatch {
    type V = DispatchView;

    open spec fn view(&self) -> DispatchView {
        match *self {
            Dispatch::Run(config) => DispatchView::Run(config@),
            Dispatch::Reject => DispatchView::Reject,
        }
    }
}

/// What came of one accepted connection: what the pool reported when the
/// connection arrived, and the decision that was made on that report.
#[derive(Debug)]
pub struct Dispatched {
    /// Number of sessions that the pool reported as running.
    pub active: usize,
    /// Number of sessions that the pool reported as waiting.
    pub queued: usize,
    /// What becomes of the connection.
    pub decision: Dispatch,
}

/// The decision on a connection that arrives while `active` sessions run and
/// `queued` sessions wait: it is turned away when these are as many as the
/// configured maximum, or more.
pub open spec fn dispatch_of(config: ConfigView, active: nat, queued: nat) -> DispatchView {
    if active + queued >= config.max_clients {
        DispatchView::Reject
    } else {
        DispatchView::Run(config)
    }
}

/// The gateway's front: it owns the configuration and decides on every
/// accepted connection.
pub struct Server {
    config: Config,
}

impl View for Server {
    type V = ConfigView;

    closed spec fn view(&self) -> ConfigView {
        self.config@
    }
}

impl Server {
    /// A server with this configuration.
    pub fn new(config: Config) -> (server: Server)
        ensures
            server@ == config@,
    {
        Server { config }
    }

    /// The configuration.
    pub fn config(&self) -> (config: &Config)
        ensures
            config@ == self@,
    {
        &self.config
    }

    /// What to listen on, and how large the pool is to be.
    pub fn serve(&self) -> (plan: Listen)
        ensures
            plan.address@ == self@.bind_address(),
            plan.workers == self@.max_clients,
    {
        Listen { address: self.config.bind_address(), workers: self.config.max_clients }
    }

    /// Decides on a connection, given how many sessions run and how many
    /// wait.
    pub fn decide(&self, active: usize, queued: usize) -> (decision: Dispatch)
        ensures
            decision@ == dispatch_of(self@, active as nat, queued as nat),
    {
        let full: bool = match active.checked_add(queued) {
            Some(load) => load >= self.config.max_clients,
            None => true,
        };
        if full {
            Dispatch::Reject
        } else {
            Dispatch::Run(self.config.clone())
        }
    }

    /// Decides on a connection from the state of the pool, read once.
    ///
    /// The two counts are read from the pool as it is when the connection
    /// arrives, and the decision is the one that [`Server::decide`] makes on
    /// them. The counts come back with the decision, so that the caller can
    /// say on what the connection was taken in or turned away.
    pub fn dispatch(&self, pool: &threadpool::ThreadPool) -> (dispatched: Dispatched)
        ensures
            dispatched.decision@ == dispatch_of(
                self@,
                dispatched.active as nat,
                dispatched.queued as nat,
            ),
    {
        let active: usize = active_count(pool);
        let queued: usize = queued_count(pool);
        Dispatched { active, queued, decision: self.decide(active, queued) }
    }
}

/// What changes the number of sessions in the pool.
pub enum PoolEvent {
    /// The listener accepted a connection and asked for a decision.
    Arrival,
    /// A session ended and gave its place back.
    Departure,
}

/// The number of sessions that run or wait after `events`, in a pool that
/// starts empty and takes in what [`dispatch_of`] lets run.
pub open spec fn load_after(config: ConfigView, events: Seq<PoolEvent>) -> nat
    decreases events.len(),
{
    if events.len() == 0 {
        0
    } else {
        let load = load_after(config, events.drop_last());
        match events.last() {
            PoolEvent::Arrival => if dispatch_of(config, load, 0) == DispatchView::Reject {
                load
            } else {
                load + 1
            },
            PoolEvent::Departure => if load > 0 {
                (load - 1) as nat
            } else {
                0
            },
        }
    }
}

/// Whatever connections arrive and whatever sessions end, the pool never
/// holds more sessions than the configured maximum.
pub proof fn lemma_load_is_bounded(config: ConfigView, events: Seq<PoolEvent>)
    ensures
        load_after(config, events) <= config.max_clients,
    decreases events.len(),
{
    if events.len() > 0 {
        lemma_load_is_bounded(config, events.drop_last());
    }
}

/// A connection that arrives at a full pool is turned away and leaves the
/// pool as it was; one that arrives at a pool with room takes one place.
pub proof fn lemma_arrival(config: ConfigView, events: Seq<PoolEvent>)
    ensures
        load_after(config, events) == config.max_clients ==> {
            &&& dispatch_of(config, load_after(config, events), 0) == DispatchView::Reject
            &&& load_after(config, events.push(PoolEvent::Arrival)) == load_after(config, events)
        },
        load_after(config, events) < config.max_clients ==> {
            &&& dispatch_of(config, load_after(config, events), 0) == DispatchView::Run(config)
            &&& load_after(config, events.push(PoolEvent::Arrival)) == load_after(config, events)
                + 1
        },
{
    assert(events.push(PoolEvent::Arrival).drop_last() =~= events);
}

/// A session that ends gives back exactly one place.
pub proof fn lemma_departure(config: ConfigView, events: Seq<PoolEvent>)
    requires
        load_after(config, events) > 0,
    ensures
        load_after(config, events.push(PoolEvent::Departure)) == load_after(config, events) - 1,
{
    assert(events.push(PoolEvent::Departure).drop_last() =~= events);
}

} // verus!
