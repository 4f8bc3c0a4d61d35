//! The routes that a reverse proxy serves: each pairs one of the proxy's
//! routers with a hostname.

pub mod traefik;

use vstd::prelude::*;

verus! {

/// One proxy router together with a hostname that it serves.
#[derive(Debug, Clone, PartialEq, Eq, Hash)]
pub struct Route {
    /// The proxy's identifier of the router; it serves diagnostics only.
    pub id: String,
    /// The DNS hostname that the router serves.
    pub host: String,
}

/// A route as text: what `Route` holds, character by character.
pub struct RouteView {
    pub id: Seq<char>,
    pub host: Seq<char>,
}

impl View for Route {
    type V = RouteView;

    open spec fn view(&self) -> RouteView {
        RouteView { id: self.id@, host: self.host@ }
    }
}

impl DeepView for Route {
    type V = RouteView;

    open spec fn deep_view(&self) -> RouteView {
        self@
    }
}

/// The hostnames of `routes`, one for each route, in their order.
pub open spec fn route_hosts(routes: Seq<RouteView>) -> Seq<Seq<char>> {
    routes.map_values(|r: RouteView| r.host)
}

/// The hostnames of `routes`, one for each route, in their order.
pub fn hosts_of(routes: &Vec<Route>) -> (hosts: Vec<String>)
    ensures
        hosts.deep_view() == route_hosts(routes.deep_view()),
{
    let mut hosts: Vec<String> = Vec::new();
    let mut i: usize = 0;
    while i < routes.len()
        invariant
            i <= routes.len(),
            hosts.len() == i,
            forall|k: int| 0 <= k < i ==> hosts[k]@ == routes[k].host@,
        decreases routes.len() - i,
    {
        hosts.push(routes[i].host.clone());
        i += 1;
    }
    assert(hosts.deep_view() =~= route_hosts(routes.deep_view()));
    hosts
}

} // verus!
