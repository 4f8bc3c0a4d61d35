//! What holds of every run of the engine: a pass converges on the desired
//! hosts, a failed pass leaves the observed state alone, and a pass repeated
//! against an unchanged world issues no create and no delete.

use vstd::prelude::*;
use crate::seqs::{distinct, lemma_distinct, lemma_excluding, lemma_excluding_all};
use crate::router::{route_hosts, RouteView};
use crate::updater::{
    desired_hosts, hosts_to_create, next, stale_hosts, ActionView, EventView, Phase, UpdaterView,
};

verus! {

/// A pass in which the router and the provider answered every call without
/// error: the state it ends in, and the hosts it asked to create and to
/// delete.
pub struct PassView {
    /// The state after the last step of the pass.
    pub end: UpdaterView,
    /// The hosts of the pass's create calls.
    pub created: Seq<Seq<char>>,
    /// The hosts of the pass's delete calls.
    pub deleted: Seq<Seq<char>>,
    /// Whether the pass ended by committing the desired hosts.
    pub committed: bool,
}

/// The pass that a tick starts in state `s` when the router answers with
/// `routes`, the provider lists `records`, and every create and delete
/// succeeds. The driver reports on creates and deletes only where the engine
/// asked for them.
pub open spec fn successful_pass<RE, PE>(
    s: UpdaterView,
    routes: Seq<RouteView>,
    records: Seq<Seq<char>>,
) -> PassView {
    let s1 = next::<RE, PE>(s, EventView::Tick).0;
    let (s2, a2) = next::<RE, PE>(s1, EventView::Routes(Ok(routes)));
    let s3 = if a2 is CreateRecords {
        next::<RE, PE>(s2, EventView::RecordsCreated(Ok(()))).0
    } else {
        s2
    };
    let (s4, a4) = next::<RE, PE>(s3, EventView::Records(Ok(records)));
    let (s5, a5) = if a4 is DeleteRecords {
        next::<RE, PE>(s4, EventView::RecordsDeleted(Ok(())))
    } else {
        (s4, a4)
    };
    PassView {
        end: s5,
        created: match a2 {
            ActionView::CreateRecords(hosts) => hosts,
            _ => Seq::empty(),
        },
        deleted: match a4 {
            ActionView::DeleteRecords(hosts) => hosts,
            _ => Seq::empty(),
        },
        committed: is_success(a5),
    }
}

/// The state after `events`, taken in order from state `s`.
pub open spec fn state_after<RE, PE>(s: UpdaterView, events: Seq<EventView<RE, PE>>) -> UpdaterView
    decreases events.len(),
{
    if events.len() == 0 {
        s
    } else {
        next(state_after(s, events.drop_last()), events.last()).0
    }
}

/// The action that the engine returns for the last of `events`, taken in
/// order from state `s`.
pub open spec fn last_action<RE, PE>(s: UpdaterView, events: Seq<EventView<RE, PE>>) -> ActionView<
    RE,
    PE,
>
    recommends
        events.len() > 0,
{
    next(state_after(s, events.drop_last()), events.last()).1
}

/// Whether `e` reports a failure: an error of the router or of the provider,
/// or a timeout.
pub open spec fn is_failure<RE, PE>(e: EventView<RE, PE>) -> bool {
    match e {
        EventView::Routes(Err(_)) => true,
        EventView::RecordsCreated(Err(_)) => true,
        EventView::Records(Err(_)) => true,
        EventView::RecordsDeleted(Err(_)) => true,
        EventView::Timeout => true,
        _ => false,
    }
}

/// Whether `a` reports that a pass succeeded.
pub open spec fn is_success<RE, PE>(a: ActionView<RE, PE>) -> bool {
    a matches ActionView::Done(Ok(_))
}

/// Every step keeps the state well formed.
pub proof fn lemma_step_keeps_wf<RE, PE>(s: UpdaterView, e: EventView<RE, PE>)
    requires
        s.wf(),
    ensures
        next(s, e).0.wf(),
{
    match e {
        EventView::Routes(Ok(routes)) => {
            lemma_distinct(route_hosts(routes));
        },
        _ => {},
    }
}

/// At most one pass is in flight: a tick that arrives during a pass is
/// skipped, and changes nothing.
pub proof fn lemma_tick_during_pass_is_skipped<RE, PE>(s: UpdaterView)
    requires
        !(s.phase is Idle),
    ensures
        next::<RE, PE>(s, EventView::Tick) == (s, ActionView::<RE, PE>::Wait),
{
}

/// Between passes only a tick moves the engine. A tick starts a pass by
/// asking the router, and gives the pass one update interval of time.
pub proof fn lemma_idle_engine_waits_for_tick<RE, PE>(s: UpdaterView, e: EventView<RE, PE>)
    requires
        s.phase is Idle,
    ensures
        e is Tick ==> next(s, e) == (
            UpdaterView { phase: Phase::FetchingRoutes, ..s },
            ActionView::<RE, PE>::GetRoutes { timeout: s.interval },
        ),
        !(e is Tick) ==> next(s, e) == (s, ActionView::<RE, PE>::Wait),
{
}

/// A timeout always ends the pass in flight: the engine is back between
/// passes, with the observed state that it had.
pub proof fn lemma_timeout_ends_pass<RE, PE>(s: UpdaterView)
    requires
        !(s.phase is Idle),
    ensures
        next::<RE, PE>(s, EventView::Timeout) == (
            s.at_rest(s.observed),
            ActionView::<RE, PE>::TimedOut,
        ),
{
}

/// Order within a pass: deletes are asked for only on the provider's
/// listing, and the listing only once the creates of the pass are confirmed,
/// or on the router's answer where there is nothing to create.
pub proof fn lemma_deletes_follow_creates<RE, PE>(s: UpdaterView, e: EventView<RE, PE>)
    ensures
        next(s, e).1 is DeleteRecords ==> s.phase is ListingRecords && e is Records,
        next(s, e).1 is ListRecords ==> {
            ||| s.phase is CreatingRecords && (e matches EventView::RecordsCreated(Ok(_)))
            ||| s.phase is FetchingRoutes && (e matches EventView::Routes(Ok(routes))
                && hosts_to_create(desired_hosts(routes), s.observed).len() == 0)
        },
        next(s, e).1 is CreateRecords ==> s.phase is FetchingRoutes && e is Routes,
{
}

/// Diff: the creates of a pass are the desired hosts that were not observed,
/// and its deletes are the provider's records that are not desired. Neither
/// list repeats a host.
pub proof fn lemma_pass_diff<RE, PE>(
    s: UpdaterView,
    routes: Seq<RouteView>,
    records: Seq<Seq<char>>,
)
    requires
        s.wf(),
        s.phase is Idle,
    ensures
        ({
            let pass = successful_pass::<RE, PE>(s, routes, records);
            let desired = route_hosts(routes).to_set();
            &&& pass.created == hosts_to_create(desired_hosts(routes), s.observed)
            &&& pass.deleted == stale_hosts(records, desired_hosts(routes))
            &&& pass.created.to_set() == desired.difference(s.observed.to_set())
            &&& pass.deleted.to_set() == records.to_set().difference(desired)
            &&& pass.created.no_duplicates()
            &&& pass.deleted.no_duplicates()
        }),
{
    let desired = desired_hosts(routes);
    lemma_distinct(route_hosts(routes));
    lemma_distinct(records);
    lemma_excluding(desired, s.observed);
    lemma_excluding(distinct(records), desired);
}

/// Convergence: a pass without failure ends between passes, and the observed
/// state is then exactly the desired hosts of that pass, that is the
/// hostnames of the router's answer.
pub proof fn lemma_pass_converges<RE, PE>(
    s: UpdaterView,
    routes: Seq<RouteView>,
    records: Seq<Seq<char>>,
)
    requires
        s.wf(),
        s.phase is Idle,
    ensures
        ({
            let pass = successful_pass::<RE, PE>(s, routes, records);
            &&& pass.committed
            &&& pass.end == s.at_rest(desired_hosts(routes))
            &&& pass.end.observed.to_set() == route_hosts(routes).to_set()
            &&& pass.end.wf()
        }),
{
    lemma_distinct(route_hosts(routes));
}

/// No mutation on failure: a step on an error or a timeout leaves the
/// observed state as it was and reports no success. It ends the pass in
/// flight, or changes nothing at all.
pub proof fn lemma_failure_keeps_observed<RE, PE>(s: UpdaterView, e: EventView<RE, PE>)
    requires
        is_failure(e),
    ensures
        next(s, e).0.observed == s.observed,
        next(s, e).0 == s || next(s, e).0 == s.at_rest(s.observed),
        !is_success(next(s, e).1),
{
}

/// The observed state changes in one way only: a step that reports success
/// replaces it by the desired hosts of the pass. Every other step keeps it.
pub proof fn lemma_observed_changes_only_on_success<RE, PE>(s: UpdaterView, e: EventView<RE, PE>)
    ensures
        is_success(next(s, e).1) ==> next(s, e).0 == s.at_rest(s.desired),
        !is_success(next(s, e).1) ==> next(s, e).0.observed == s.observed,
{
}

/// No mutation on failure, over whole runs: whatever events arrive, as long
/// as no step reports success the observed state is the one the run began
/// with.
pub proof fn lemma_run_without_success_keeps_observed<RE, PE>(
    s: UpdaterView,
    events: Seq<EventView<RE, PE>>,
)
    requires
        forall|n: int|
            0 < n <= events.len() ==> !is_success(#[trigger] last_action(s, events.take(n))),
    ensures
        state_after(s, events).observed == s.observed,
    decreases events.len(),
{
    if events.len() > 0 {
        let init = events.drop_last();
        assert forall|n: int| 0 < n <= init.len() implies !is_success(
            #[trigger] last_action(s, init.take(n)),
        ) by {
            assert(init.take(n) =~= events.take(n));
        }
        lemma_run_without_success_keeps_observed(s, init);
        assert(events.take(events.len() as int) =~= events);
        assert(!is_success(last_action(s, events.take(events.len() as int))));
        lemma_observed_changes_only_on_success(state_after(s, init), events.last());
    }
}

/// Idempotence: when a pass has succeeded, and the next tick finds the same
/// desired hosts at the router and, at the provider, the records that the
/// first pass left there, the second pass creates nothing, deletes nothing,
/// and ends with the same observed hosts.
pub proof fn lemma_repeated_pass_only_reads<RE, PE>(
    s: UpdaterView,
    routes: Seq<RouteView>,
    records: Seq<Seq<char>>,
    routes_again: Seq<RouteView>,
    records_again: Seq<Seq<char>>,
)
    requires
        s.wf(),
        s.phase is Idle,
        route_hosts(routes_again).to_set() == route_hosts(routes).to_set(),
        ({
            let first = successful_pass::<RE, PE>(s, routes, records);
            records_again.to_set() == records.to_set().union(first.created.to_set()).difference(
                first.deleted.to_set(),
            )
        }),
    ensures
        ({
            let first = successful_pass::<RE, PE>(s, routes, records);
            let second = successful_pass::<RE, PE>(first.end, routes_again, records_again);
            &&& second.created.len() == 0
            &&& second.deleted.len() == 0
            &&& second.committed
            &&& second.end.observed.to_set() == first.end.observed.to_set()
        }),
{
    let first = successful_pass::<RE, PE>(s, routes, records);
    lemma_pass_converges::<RE, PE>(s, routes, records);
    lemma_pass_diff::<RE, PE>(s, routes, records);
    lemma_pass_converges::<RE, PE>(first.end, routes_again, records_again);
    lemma_pass_diff::<RE, PE>(first.end, routes_again, records_again);
    let desired_again = desired_hosts(routes_again);
    lemma_distinct(route_hosts(routes));
    lemma_distinct(route_hosts(routes_again));
    lemma_distinct(records_again);
    lemma_distinct(records);
    assert forall|a: Seq<char>| desired_again.contains(a) implies first.end.observed.contains(
        a,
    ) by {
        assert(route_hosts(routes_again).to_set().contains(a));
        assert(route_hosts(routes).to_set().contains(a));
    }
    lemma_excluding_all(desired_again, first.end.observed);
    let listed = distinct(records_again);
    assert forall|a: Seq<char>| listed.contains(a) implies desired_again.contains(a) by {
        assert(records_again.to_set().contains(a));
        let left = records.to_set().union(first.created.to_set()).difference(
            first.deleted.to_set(),
        );
        assert(left.contains(a));
        if first.created.to_set().contains(a) {
            assert(route_hosts(routes).to_set().contains(a));
        } else {
            assert(records.to_set().contains(a));
            assert(!first.deleted.to_set().contains(a));
            assert(route_hosts(routes).to_set().contains(a));
        }
        assert(route_hosts(routes_again).to_set().contains(a));
    }
    lemma_excluding_all(listed, desired_again);
}

} // verus!
