//! The Traefik router: where its API lies, and the routes that its rules
//! describe.
//!
//! A rule names its hosts in calls such as ``Host(`a.example.com`)`` or
//! ``Host(`a.example.com`, `b.example.com`)``, which may be joined with
//! calls of other matchers. Every host so named is a route.

use vstd::prelude::*;
use url::{ParseError, Url};
use crate::router::{Route, RouteView};

verus! {

/// The pattern of a `Host` call in a rule; its group is the call's
/// arguments.
pub const HOST_PATTERN: &'static str = "Host\\((.+?)\\)";

/// The pattern of one argument of a `Host` call; its group is the host
/// between the backticks.
pub const HOST_ARG_PATTERN: &'static str = "`(.+?)`";

/// The group of both patterns that holds what is wanted.
pub const WANTED_GROUP: usize = 1;

/// The path of the routers' listing below the base URL of the API.
pub const ROUTERS_PATH: &'static str = "api/http/routers";

/// `url::Url`: a parsed URL. The router holds one and hands it on; nothing
/// is known of what it holds.
#[verifier::external_type_specification]
#[verifier::external_body]
pub struct ExUrl(Url);

/// `url::ParseError`: why a text is no URL. It is carried in
/// `TraefikError::UrlParseError`; nothing is known of what it holds.
#[verifier::external_type_specification]
#[verifier::external_body]
pub struct ExParseError(ParseError);

/// For each successive match of the regular expression `pattern` in `text`,
/// what its group `index` matched, or `None` where the pattern has no such
/// group or the group took no part in the match; `None` as a whole where
/// `pattern` is no regular expression.
pub uninterp spec fn regex_groups(pattern: Seq<char>, index: usize, text: Seq<char>) -> Option<
    Seq<Option<Seq<char>>>,
>;

/// What `Url::parse` returns for `text`.
pub uninterp spec fn url_parsed(text: Seq<char>) -> Result<Url, ParseError>;

/// What `Url::has_host` returns for `url`.
pub uninterp spec fn url_has_host(url: Url) -> bool;

/// What `Url::cannot_be_a_base` returns for `url`.
pub uninterp spec fn url_cannot_be_a_base(url: Url) -> bool;

/// What `Url::join` returns for the base `base` and the reference
/// `reference`.
pub uninterp spec fn url_joined(base: Url, reference: Seq<char>) -> Result<Url, ParseError>;

/// The groups of successive matches as text.
pub open spec fn group_texts(groups: Seq<Option<String>>) -> Seq<Option<Seq<char>>> {
    groups.map_values(
        |group: Option<String>|
            match group {
                Some(text) => Some(text@),
                None => None,
            },
    )
}

/// What `match_groups` returns as text.
pub open spec fn groups_view(groups: Option<Vec<Option<String>>>) -> Option<
    Seq<Option<Seq<char>>>,
> {
    match groups {
        Some(groups) => Some(group_texts(groups@)),
        None => None,
    }
}

/// `Regex::new`, then `Regex::captures_iter` with `Captures::get` on each
/// match: compiles `pattern` and walks the successive matches in `text`,
/// handing out of each what the group `index` matched. The contract names
/// the result and claims no more of it.
#[verifier::external_body]
fn match_groups(pattern: &str, index: usize, text: &str) -> (groups: Option<
    Vec<Option<String>>,
>)
    ensures
        groups_view(groups) == regex_groups(pattern@, index, text@),
{
    let regex = regex::Regex::new(pattern).ok()?;
    let matches = regex.captures_iter(text);
    Some(matches.map(|found| found.get(index).map(|group| group.as_str().to_owned())).collect())
}

/// `Url::parse`: reads an absolute URL from `text`, or fails with the
/// parser's error. The contract names the result.
#[verifier::external_body]
fn parse_url(text: &str) -> (parsed: Result<Url, ParseError>)
    ensures
        parsed == url_parsed(text@),
{
    Url::parse(text)
}

/// `Url::has_host`: whether `url` names a host. The contract names the
/// result.
#[verifier::external_body]
fn has_host(url: &Url) -> (has: bool)
    ensures
        has == url_has_host(*url),
{
    url.has_host()
}

/// `Url::cannot_be_a_base`: whether `url` is of the kind that no reference
/// can be resolved against, as `data:` and `mailto:` URLs are. The contract
/// names the result.
#[verifier::external_body]
fn cannot_be_a_base(url: &Url) -> (cannot: bool)
    ensures
        cannot == url_cannot_be_a_base(*url),
{
    url.cannot_be_a_base()
}

/// `Url::join`: resolves `reference` against `base`, or fails with the
/// parser's error. The contract names the result.
#[verifier::external_body]
fn join_url(base: &Url, reference: &str) -> (joined: Result<Url, ParseError>)
    ensures
        joined == url_joined(*base, reference@),
{
    base.join(reference)
}

/// An error of the Traefik router.
#[derive(Debug)]
pub enum TraefikError {
    /// The URL names no host, so that no request can be sent to it.
    NoHost,
    /// The URL cannot serve as the base of the API's URLs.
    BadBaseUrl,
    /// The text is no URL.
    UrlParseError(ParseError),
}

/// A router as the API lists it: its name and its rule.
#[derive(Debug, Clone, PartialEq, Eq)]
pub struct TraefikRoute {
    pub rule: String,
    pub name: String,
}

/// A listed router as text.
pub struct TraefikRouteView {
    pub rule: Seq<char>,
    pub name: Seq<char>,
}

impl View for TraefikRoute {
    type V = TraefikRouteView;

    open spec fn view(&self) -> TraefikRouteView {
        TraefikRouteView { rule: self.rule@, name: self.name@ }
    }
}

impl DeepView for TraefikRoute {
    type V = TraefikRouteView;

    open spec fn deep_view(&self) -> TraefikRouteView {
        self@
    }
}

/// The groups that took part in their match, in order.
pub open spec fn participating(groups: Seq<Option<Seq<char>>>) -> Seq<Seq<char>>
    decreases groups.len(),
{
    if groups.len() == 0 {
        Seq::empty()
    } else {
        let init = participating(groups.drop_last());
        match groups.last() {
            Some(group) => init.push(group),
            None => init,
        }
    }
}

/// What the wanted group of `pattern` matched in the successive matches in
/// `text`; nothing where `pattern` is no regular expression.
pub open spec fn captured(pattern: Seq<char>, text: Seq<char>) -> Seq<Seq<char>> {
    match regex_groups(pattern, WANTED_GROUP, text) {
        Some(groups) => participating(groups),
        None => Seq::empty(),
    }
}

/// The hosts among `arguments`, the argument lists of successive `Host`
/// calls: the backticked hosts of the first list, then those of the second,
/// and so on.
pub open spec fn hosts_in(arguments: Seq<Seq<char>>) -> Seq<Seq<char>>
    decreases arguments.len(),
{
    if arguments.len() == 0 {
        Seq::empty()
    } else {
        hosts_in(arguments.drop_last()) + captured(HOST_ARG_PATTERN@, arguments.last())
    }
}

/// The domains that `rule` names: the hosts in its `Host` calls, in the
/// order of the rule.
pub open spec fn domains_of(rule: Seq<char>) -> Seq<Seq<char>> {
    hosts_in(captured(HOST_PATTERN@, rule))
}

/// The routes that `routers` describe: for each router in turn, one route
/// for each domain of its rule, under the router's name.
pub open spec fn routes_of(routers: Seq<TraefikRouteView>) -> Seq<RouteView>
    decreases routers.len(),
{
    if routers.len() == 0 {
        Seq::empty()
    } else {
        let router = routers.last();
        routes_of(routers.drop_last()) + domains_of(router.rule).map_values(
            |host: Seq<char>| RouteView { id: router.name, host },
        )
    }
}

/// The groups that took part in their match, in order.
pub fn participating_groups(groups: Vec<Option<String>>) -> (texts: Vec<String>)
    ensures
        texts.deep_view() == participating(group_texts(groups@)),
{
    let ghost view = group_texts(groups@);
    let mut texts: Vec<String> = Vec::new();
    let mut i: usize = 0;
    assert(view.take(0) =~= Seq::<Option<Seq<char>>>::empty());
    assert(texts.deep_view() =~= Seq::<Seq<char>>::empty());
    while i < groups.len()
        invariant
            i <= groups.len(),
            view == group_texts(groups@),
            texts.deep_view() == participating(view.take(i as int)),
        decreases groups.len() - i,
    {
        let ghost before = texts.deep_view();
        assert(view.take(i as int + 1).drop_last() =~= view.take(i as int));
        match &groups[i] {
            Some(group) => {
                texts.push(group.clone());
                assert(texts.deep_view() =~= before.push(group@));
            },
            None => {},
        }
        i += 1;
    }
    assert(view.take(i as int) =~= view);
    texts
}

/// What the wanted group of `pattern` matched in the successive matches in
/// `text`; nothing where `pattern` is no regular expression.
pub fn captured_groups(pattern: &str, text: &str) -> (texts: Vec<String>)
    ensures
        texts.deep_view() == captured(pattern@, text@),
{
    match match_groups(pattern, WANTED_GROUP, text) {
        Some(groups) => participating_groups(groups),
        None => {
            let texts: Vec<String> = Vec::new();
            assert(texts.deep_view() =~= Seq::<Seq<char>>::empty());
            texts
        },
    }
}

/// The domains that `rule` names: the hosts in its `Host` calls, in the
/// order of the rule.
pub fn parse_domains(rule: &str) -> (domains: Vec<String>)
    ensures
        domains.deep_view() == domains_of(rule@),
{
    let arguments = captured_groups(HOST_PATTERN, rule);
    let mut domains: Vec<String> = Vec::new();
    let mut i: usize = 0;
    assert(arguments.deep_view().take(0) =~= Seq::<Seq<char>>::empty());
    assert(domains.deep_view() =~= Seq::<Seq<char>>::empty());
    while i < arguments.len()
        invariant
            i <= arguments.len(),
            domains.deep_view() == hosts_in(arguments.deep_view().take(i as int)),
        decreases arguments.len() - i,
    {
        let ghost before = domains.deep_view();
        let ghost prefix = arguments.deep_view().take(i as int + 1);
        assert(prefix.drop_last() =~= arguments.deep_view().take(i as int));
        assert(prefix.last() == arguments[i as int]@);
        let mut hosts = captured_groups(HOST_ARG_PATTERN, arguments[i].as_str());
        let ghost added = hosts.deep_view();
        domains.append(&mut hosts);
        assert(domains.deep_view() =~= before + added);
        i += 1;
    }
    assert(arguments.deep_view().take(i as int) =~= arguments.deep_view());
    domains
}

/// The routes that `routers` describe: for each router in turn, one route
/// for each domain of its rule, under the router's name.
pub fn routes_from(routers: &Vec<TraefikRoute>) -> (routes: Vec<Route>)
    ensures
        routes.deep_view() == routes_of(routers.deep_view()),
{
    let mut routes: Vec<Route> = Vec::new();
    let mut i: usize = 0;
    assert(routers.deep_view().take(0) =~= Seq::<TraefikRouteView>::empty());
    assert(routes.deep_view() =~= Seq::<RouteView>::empty());
    while i < routers.len()
        invariant
            i <= routers.len(),
            routes.deep_view() == routes_of(routers.deep_view().take(i as int)),
        decreases routers.len() - i,
    {
        let ghost before = routes.deep_view();
        let ghost prefix = routers.deep_view().take(i as int + 1);
        assert(prefix.drop_last() =~= routers.deep_view().take(i as int));
        assert(prefix.last() == routers[i as int]@);
        let domains = parse_domains(routers[i].rule.as_str());
        let ghost router = routers[i as int]@;
        let ghost wanted = domains_of(router.rule).map_values(
            |host: Seq<char>| RouteView { id: router.name, host },
        );
        let mut j: usize = 0;
        while j < domains.len()
            invariant
                j <= domains.len(),
                i < routers.len(),
                router == routers[i as int]@,
                domains.deep_view() == domains_of(router.rule),
                wanted == domains_of(router.rule).map_values(
                    |host: Seq<char>| RouteView { id: router.name, host },
                ),
                routes.deep_view() == before + wanted.take(j as int),
            decreases domains.len() - j,
        {
            let ghost so_far = routes.deep_view();
            routes.push(Route { id: routers[i].name.clone(), host: domains[j].clone() });
            assert(wanted[j as int] == RouteView { id: router.name, host: domains[j as int]@ });
            assert(routes.deep_view() =~= so_far.push(wanted[j as int]));
            assert(wanted.take(j as int + 1) =~= wanted.take(j as int).push(wanted[j as int]));
            j += 1;
        }
        assert(wanted.take(j as int) =~= wanted);
        i += 1;
    }
    assert(routers.deep_view().take(i as int) =~= routers.deep_view());
    routes
}

/// What is wrong with a URL as the base of the API, if anything: it must
/// name a host, and it must be able to be a base.
pub open spec fn base_fault(has_host: bool, cannot_be_a_base: bool) -> Option<TraefikError> {
    if !has_host {
        Some(TraefikError::NoHost)
    } else if cannot_be_a_base {
        Some(TraefikError::BadBaseUrl)
    } else {
        None
    }
}

/// Accepts a URL as the base of the API by what is known of it: whether it
/// names a host, and whether it cannot be a base.
pub fn check_base(has_host: bool, cannot_be_a_base: bool) -> (checked: Result<(), TraefikError>)
    ensures
        match base_fault(has_host, cannot_be_a_base) {
            Some(fault) => checked matches Err(e) && e == fault,
            None => checked is Ok,
        },
{
    if !has_host {
        Err(TraefikError::NoHost)
    } else if cannot_be_a_base {
        Err(TraefikError::BadBaseUrl)
    } else {
        Ok(())
    }
}

/// The Traefik router: the base URL of its API.
#[derive(Debug)]
pub struct TraefikRouter {
    base_url: Url,
}

impl TraefikRouter {
    /// The base URL of the router's API.
    pub closed spec fn base(&self) -> Url {
        self.base_url
    }

    /// The router whose API lies at `url`. The text must be a URL, name a
    /// host, and be one that the API's paths can be resolved against.
    pub fn new(url: &str) -> (router: Result<TraefikRouter, TraefikError>)
        ensures
            match url_parsed(url@) {
                Ok(base) => match base_fault(url_has_host(base), url_cannot_be_a_base(base)) {
                    Some(fault) => router matches Err(e) && e == fault,
                    None => router matches Ok(r) && r.base() == base,
                },
                Err(e) => router matches Err(TraefikError::UrlParseError(err)) && err == e,
            },
    {
        match parse_url(url) {
            Ok(base_url) => {
                match check_base(has_host(&base_url), cannot_be_a_base(&base_url)) {
                    Err(fault) => Err(fault),
                    Ok(_) => Ok(TraefikRouter { base_url }),
                }
            },
            Err(e) => Err(TraefikError::UrlParseError(e)),
        }
    }

    /// The base URL of the router's API.
    pub fn base_url(&self) -> (url: &Url)
        ensures
            *url == self.base(),
    {
        &self.base_url
    }

    /// The URL of the routers' listing: `ROUTERS_PATH` resolved against the
    /// base URL.
    pub fn routers_url(&self) -> (url: Result<Url, TraefikError>)
        ensures
            match url_joined(self.base(), ROUTERS_PATH@) {
                Ok(joined) => url matches Ok(u) && u == joined,
                Err(e) => url matches Err(TraefikError::UrlParseError(err)) && err == e,
            },
    {
        match join_url(&self.base_url, ROUTERS_PATH) {
            Ok(url) => Ok(url),
            Err(e) => Err(TraefikError::UrlParseError(e)),
        }
    }
}

} // verus!
