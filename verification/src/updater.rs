//! The reconciliation engine.
//!
//! The engine owns the observed state: the hostnames believed to have a DNS
//! record. It does no I/O. A driver feeds it events (a timer tick, the
//! router's answer, the provider's answers, a timeout) and carries out the
//! action that each step returns. One pass is: query the router, create the
//! records that are newly wanted, list the provider's records, delete those
//! no longer wanted, and only then replace the observed state. A pass that
//! is not over when its time is up, one update interval after its tick, is
//! abandoned.

pub mod laws;

use vstd::prelude::*;
use crate::hosts::{distinct_hosts, hosts_excluding};
use crate::seqs::{distinct, excluding};
use crate::router::{hosts_of, route_hosts, Route, RouteView};

verus! {

/// Where the engine stands in a pass.
#[derive(Debug, Clone, Copy, PartialEq, Eq, Structural)]
pub enum Phase {
    /// No pass is in flight; the engine waits for the next tick.
    Idle,
    /// The router was asked for its routes.
    FetchingRoutes,
    /// The provider was asked to create the missing records.
    CreatingRecords,
    /// The provider was asked for its list of records.
    ListingRecords,
    /// The provider was asked to delete the stale records.
    DeletingRecords,
}

/// Why a pass failed.
#[derive(Debug, Clone, PartialEq, Eq)]
pub enum UpdateRoutesError<RE, PE> {
    /// The router could not give its routes.
    RouterError(RE),
    /// The provider failed to list, create or delete.
    ProviderError(PE),
}

/// What the driver reports to the engine.
#[derive(Debug, PartialEq, Eq)]
pub enum Event<RE, PE> {
    /// The periodic timer fired.
    Tick,
    /// The router answered the query for its routes.
    Routes(Result<Vec<Route>, RE>),
    /// All requested creates succeeded, or one of them failed.
    RecordsCreated(Result<(), PE>),
    /// The provider answered the query for its records.
    Records(Result<Vec<String>, PE>),
    /// All requested deletes succeeded, or one of them failed.
    RecordsDeleted(Result<(), PE>),
    /// The pass in flight ran past its deadline.
    Timeout,
}

/// What the engine asks of the driver.
#[derive(Debug, PartialEq, Eq)]
pub enum Action<RE, PE> {
    /// Nothing: the event does not concern the engine in its present phase.
    Wait,
    /// A pass has begun. Ask the router for its routes, and report them as
    /// `Event::Routes`. If the pass is not over `timeout` nanoseconds from
    /// now, report `Event::Timeout`.
    GetRoutes { timeout: u64 },
    /// Create a record for each of these hosts, all at once, and report
    /// `Event::RecordsCreated`.
    CreateRecords(Vec<String>),
    /// Ask the provider for its records, and report them as `Event::Records`.
    ListRecords,
    /// Delete the record of each of these hosts, all at once, and report
    /// `Event::RecordsDeleted`.
    DeleteRecords(Vec<String>),
    /// The pass is over, with this outcome; wait for the next tick.
    Done(Result<(), UpdateRoutesError<RE, PE>>),
    /// The pass was abandoned at its deadline; wait for the next tick.
    TimedOut,
}

/// An event, with its lists as sequences of text.
pub enum EventView<RE, PE> {
    Tick,
    Routes(Result<Seq<RouteView>, RE>),
    RecordsCreated(Result<(), PE>),
    Records(Result<Seq<Seq<char>>, PE>),
    RecordsDeleted(Result<(), PE>),
    Timeout,
}

/// An action, with its lists as sequences of text.
pub enum ActionView<RE, PE> {
    Wait,
    GetRoutes { timeout: u64 },
    CreateRecords(Seq<Seq<char>>),
    ListRecords,
    DeleteRecords(Seq<Seq<char>>),
    Done(Result<(), UpdateRoutesError<RE, PE>>),
    TimedOut,
}

impl<RE, PE> View for Event<RE, PE> {
    type V = EventView<RE, PE>;

    open spec fn view(&self) -> EventView<RE, PE> {
        match *self {
            Event::Tick => EventView::Tick,
            Event::Routes(Ok(routes)) => EventView::Routes(Ok(routes.deep_view())),
            Event::Routes(Err(e)) => EventView::Routes(Err(e)),
            Event::RecordsCreated(r) => EventView::RecordsCreated(r),
            Event::Records(Ok(records)) => EventView::Records(Ok(records.deep_view())),
            Event::Records(Err(e)) => EventView::Records(Err(e)),
            Event::RecordsDeleted(r) => EventView::RecordsDeleted(r),
            Event::Timeout => EventView::Timeout,
        }
    }
}

impl<RE, PE> View for Action<RE, PE> {
    type V = ActionView<RE, PE>;

    open spec fn view(&self) -> ActionView<RE, PE> {
        match *self {
            Action::Wait => ActionView::Wait,
            Action::GetRoutes { timeout } => ActionView::GetRoutes { timeout },
            Action::CreateRecords(hosts) => ActionView::CreateRecords(hosts.deep_view()),
            Action::ListRecords => ActionView::ListRecords,
            Action::DeleteRecords(hosts) => ActionView::DeleteRecords(hosts.deep_view()),
            Action::Done(outcome) => ActionView::Done(outcome),
            Action::TimedOut => ActionView::TimedOut,
        }
    }
}

/// The engine's state as mathematics.
pub struct UpdaterView {
    /// The interval between ticks, which is also the time that a pass is
    /// given, in nanoseconds.
    pub interval: u64,
    /// Where the engine stands in a pass.
    pub phase: Phase,
    /// The observed state: the hosts believed to have a record.
    pub observed: Seq<Seq<char>>,
    /// The desired hosts of the pass in flight; empty between passes.
    pub desired: Seq<Seq<char>>,
}

impl UpdaterView {
    /// Neither list repeats a host, and between passes no desired host is
    /// kept.
    pub open spec fn wf(self) -> bool {
        &&& self.observed.no_duplicates()
        &&& self.desired.no_duplicates()
        &&& self.phase is Idle ==> self.desired.len() == 0
    }

    /// The state of a new engine: between passes, with nothing observed.
    pub open spec fn fresh(interval: u64) -> UpdaterView {
        UpdaterView {
            interval,
            phase: Phase::Idle,
            observed: Seq::empty(),
            desired: Seq::empty(),
        }
    }

    /// The state between passes in which `observed` is believed to exist.
    pub open spec fn at_rest(self, observed: Seq<Seq<char>>) -> UpdaterView {
        UpdaterView { phase: Phase::Idle, observed, desired: Seq::empty(), ..self }
    }
}

/// The desired hosts of a pass: the hostnames of the router's routes, each
/// once.
pub open spec fn desired_hosts(routes: Seq<RouteView>) -> Seq<Seq<char>> {
    distinct(route_hosts(routes))
}

/// The hosts for which a pass creates a record: those desired and not yet
/// observed.
pub open spec fn hosts_to_create(desired: Seq<Seq<char>>, observed: Seq<Seq<char>>) -> Seq<
    Seq<char>,
> {
    excluding(desired, observed)
}

/// The hosts whose record a pass deletes: those that the provider lists and
/// the pass does not desire, each once.
pub open spec fn stale_hosts(records: Seq<Seq<char>>, desired: Seq<Seq<char>>) -> Seq<Seq<char>> {
    excluding(distinct(records), desired)
}

/// One step of the engine: the state and the action that follow from a
/// state and an event.
///
/// A tick starts a pass only when none is in flight, and gives the pass one
/// update interval of time. An error or a timeout ends the pass and leaves
/// the observed state as it was. The observed state is replaced, by the
/// desired hosts, only when the last remote effect of the pass is confirmed.
/// An event that the present phase does not await changes nothing.
pub open spec fn next<RE, PE>(s: UpdaterView, e: EventView<RE, PE>) -> (
    UpdaterView,
    ActionView<RE, PE>,
) {
    match (s.phase, e) {
        (Phase::Idle, EventView::Tick) => (
            UpdaterView { phase: Phase::FetchingRoutes, ..s },
            ActionView::GetRoutes { timeout: s.interval },
        ),
        (Phase::Idle, _) => (s, ActionView::Wait),
        (_, EventView::Tick) => (s, ActionView::Wait),
        (_, EventView::Timeout) => (s.at_rest(s.observed), ActionView::TimedOut),
        (Phase::FetchingRoutes, EventView::Routes(Ok(routes))) => {
            let desired = desired_hosts(routes);
            let missing = hosts_to_create(desired, s.observed);
            if missing.len() == 0 {
                (
                    UpdaterView { phase: Phase::ListingRecords, desired, ..s },
                    ActionView::ListRecords,
                )
            } else {
                (
                    UpdaterView { phase: Phase::CreatingRecords, desired, ..s },
                    ActionView::CreateRecords(missing),
                )
            }
        },
        (Phase::FetchingRoutes, EventView::Routes(Err(e))) => (
            s.at_rest(s.observed),
            ActionView::Done(Err(UpdateRoutesError::RouterError(e))),
        ),
        (Phase::CreatingRecords, EventView::RecordsCreated(Ok(_))) => (
            UpdaterView { phase: Phase::ListingRecords, ..s },
            ActionView::ListRecords,
        ),
        (Phase::CreatingRecords, EventView::RecordsCreated(Err(e))) => (
            s.at_rest(s.observed),
            ActionView::Done(Err(UpdateRoutesError::ProviderError(e))),
        ),
        (Phase::ListingRecords, EventView::Records(Ok(records))) => {
            let stale = stale_hosts(records, s.desired);
            if stale.len() == 0 {
                (s.at_rest(s.desired), ActionView::Done(Ok(())))
            } else {
                (
                    UpdaterView { phase: Phase::DeletingRecords, ..s },
                    ActionView::DeleteRecords(stale),
                )
            }
        },
        (Phase::ListingRecords, EventView::Records(Err(e))) => (
            s.at_rest(s.observed),
            ActionView::Done(Err(UpdateRoutesError::ProviderError(e))),
        ),
        (Phase::DeletingRecords, EventView::RecordsDeleted(Ok(_))) => (
            s.at_rest(s.desired),
            ActionView::Done(Ok(())),
        ),
        (Phase::DeletingRecords, EventView::RecordsDeleted(Err(e))) => (
            s.at_rest(s.observed),
            ActionView::Done(Err(UpdateRoutesError::ProviderError(e))),
        ),
        _ => (s, ActionView::Wait),
    }
}

/// The reconciliation engine: the observed state, and the pass in flight.
#[derive(Debug)]
pub struct Updater {
    update_interval: u64,
    current_routes: Vec<String>,
    desired: Vec<String>,
    phase: Phase,
}

impl View for Updater {
    type V = UpdaterView;

    closed spec fn view(&self) -> UpdaterView {
        UpdaterView {
            interval: self.update_interval,
            phase: self.phase,
            observed: self.current_routes.deep_view(),
            desired: self.desired.deep_view(),
        }
    }
}

impl Updater {
    #[verifier::type_invariant]
    spec fn inv(self) -> bool {
        self@.wf()
    }

    /// An engine between passes that has observed nothing yet, for ticks
    /// that come every `update_interval` nanoseconds.
    pub fn new(update_interval: u64) -> (updater: Updater)
        ensures
            updater@ == UpdaterView::fresh(update_interval),
    {
        let updater = Updater {
            update_interval,
            current_routes: Vec::new(),
            desired: Vec::new(),
            phase: Phase::Idle,
        };
        assert(updater.current_routes.deep_view() =~= Seq::<Seq<char>>::empty());
        assert(updater.desired.deep_view() =~= Seq::<Seq<char>>::empty());
        updater
    }

    /// The interval between ticks, which is also the time that a pass is
    /// given, in nanoseconds.
    pub fn update_interval(&self) -> (nanos: u64)
        ensures
            nanos == self@.interval,
    {
        self.update_interval
    }

    /// The observed state: the hosts believed to have a record, each once.
    pub fn current_routes(&self) -> (hosts: &Vec<String>)
        ensures
            hosts.deep_view() == self@.observed,
            hosts.deep_view().no_duplicates(),
    {
        proof {
            use_type_invariant(self);
        }
        &self.current_routes
    }

    /// Where the engine stands in a pass.
    pub fn phase(&self) -> (phase: Phase)
        ensures
            phase == self@.phase,
    {
        self.phase
    }

    /// Takes one event and says what the driver is to do next.
    pub fn step<RE, PE>(&mut self, event: Event<RE, PE>) -> (action: Action<RE, PE>)
        ensures
            (final(self)@, action@) == next(old(self)@, event@),
            final(self)@.wf(),
    {
        proof {
            use_type_invariant(&*self);
        }
        match self.phase {
            Phase::Idle => {
                match event {
                    Event::Tick => {
                        self.phase = Phase::FetchingRoutes;
                        Action::GetRoutes { timeout: self.update_interval }
                    },
                    _ => Action::Wait,
                }
            },
            Phase::FetchingRoutes => {
                match event {
                    Event::Routes(Ok(routes)) => {
                        let hosts = hosts_of(&routes);
                        let desired = distinct_hosts(&hosts);
                        let missing = hosts_excluding(&desired, &self.current_routes);
                        self.desired = desired;
                        if missing.len() == 0 {
                            self.phase = Phase::ListingRecords;
                            Action::ListRecords
                        } else {
                            self.phase = Phase::CreatingRecords;
                            Action::CreateRecords(missing)
                        }
                    },
                    Event::Routes(Err(e)) => {
                        self.abandon();
                        Action::Done(Err(UpdateRoutesError::RouterError(e)))
                    },
                    Event::Timeout => {
                        self.abandon();
                        Action::TimedOut
                    },
                    _ => Action::Wait,
                }
            },
            Phase::CreatingRecords => {
                match event {
                    Event::RecordsCreated(Ok(_)) => {
                        self.phase = Phase::ListingRecords;
                        Action::ListRecords
                    },
                    Event::RecordsCreated(Err(e)) => {
                        self.abandon();
                        Action::Done(Err(UpdateRoutesError::ProviderError(e)))
                    },
                    Event::Timeout => {
                        self.abandon();
                        Action::TimedOut
                    },
                    _ => Action::Wait,
                }
            },
            Phase::ListingRecords => {
                match event {
                    Event::Records(Ok(records)) => {
                        let listed = distinct_hosts(&records);
                        let stale = hosts_excluding(&listed, &self.desired);
                        if stale.len() == 0 {
                            self.commit();
                            Action::Done(Ok(()))
                        } else {
                            self.phase = Phase::DeletingRecords;
                            Action::DeleteRecords(stale)
                        }
                    },
                    Event::Records(Err(e)) => {
                        self.abandon();
                        Action::Done(Err(UpdateRoutesError::ProviderError(e)))
                    },
                    Event::Timeout => {
                        self.abandon();
                        Action::TimedOut
                    },
                    _ => Action::Wait,
                }
            },
            Phase::DeletingRecords => {
                match event {
                    Event::RecordsDeleted(Ok(_)) => {
                        self.commit();
                        Action::Done(Ok(()))
                    },
                    Event::RecordsDeleted(Err(e)) => {
                        self.abandon();
                        Action::Done(Err(UpdateRoutesError::ProviderError(e)))
                    },
                    Event::Timeout => {
                        self.abandon();
                        Action::TimedOut
                    },
                    _ => Action::Wait,
                }
            },
        }
    }

    /// Ends the pass in flight and keeps the observed state.
    fn abandon(&mut self)
        ensures
            final(self)@ == old(self)@.at_rest(old(self)@.observed),
    {
        proof {
            use_type_invariant(&*self);
        }
        let empty: Vec<String> = Vec::new();
        assert(empty.deep_view() =~= Seq::<Seq<char>>::empty());
        self.desired = empty;
        self.phase = Phase::Idle;
    }

    /// Ends the pass in flight and makes its desired hosts the observed
    /// state.
    fn commit(&mut self)
        ensures
            final(self)@ == old(self)@.at_rest(old(self)@.desired),
    {
        proof {
            use_type_invariant(&*self);
        }
        let mut desired: Vec<String> = Vec::new();
        assert(desired.deep_view() =~= Seq::<Seq<char>>::empty());
        std::mem::swap(&mut self.desired, &mut desired);
        self.current_routes = desired;
        self.phase = Phase::Idle;
    }
}

} // verus!
