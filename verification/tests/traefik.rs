use traefik_dns::router::traefik::{
    captured_groups, check_base, parse_domains, participating_groups, routes_from, TraefikError,
    TraefikRoute, TraefikRouter,
};
use traefik_dns::router::Route;

fn router(name: &str, rule: &str) -> TraefikRoute {
    TraefikRoute { rule: rule.to_string(), name: name.to_string() }
}

#[test]
fn test_parse_domains() {
    let domains: Vec<String> = parse_domains("Host(`example.com`)");
    assert_eq!(domains, vec!["example.com"]);

    let domains: Vec<String> = parse_domains("Host(`example1.com`, `example2.org`)");
    assert_eq!(domains, vec!["example1.com", "example2.org"]);

    let domains: Vec<String> = parse_domains("Host(`example1.com`), Host(`example2.org`)");
    assert_eq!(domains, vec!["example1.com", "example2.org"]);

    let domains: Vec<String> =
        parse_domains("Host(`example1.com`) || Host(`example2.org`) && Path(`/foo`)");
    assert_eq!(domains, vec!["example1.com", "example2.org"]);

    let domains: Vec<String> = parse_domains("HostSNI(*)");
    assert_eq!(domains, Vec::<String>::new());
}

#[test]
fn parse_domains_reads_only_host_calls() {
    assert_eq!(parse_domains(""), Vec::<String>::new());
    assert_eq!(parse_domains("Path(`/foo`)"), Vec::<String>::new());
    assert_eq!(parse_domains("Host()"), Vec::<String>::new());
    assert_eq!(parse_domains("Host(example.com)"), Vec::<String>::new());
    assert_eq!(parse_domains("PathPrefix(`/a`) && Host(`a.b`)"), vec!["a.b"]);
}

#[test]
fn captured_groups_follow_the_matches() {
    assert_eq!(captured_groups("`(.+?)`", "`a`, `b` and `c`"), vec!["a", "b", "c"]);
    assert_eq!(captured_groups("Host\\((.+?)\\)", "Host(x) Host(y)"), vec!["x", "y"]);
    assert_eq!(captured_groups("a(b)?", "ab a ab"), vec!["b", "b"]);
    assert_eq!(captured_groups("a", "aaa"), Vec::<String>::new());
    // What is no regular expression matches nothing.
    assert_eq!(captured_groups("(", "((("), Vec::<String>::new());
}

#[test]
fn participating_groups_drop_the_absent() {
    assert_eq!(
        participating_groups(vec![Some("a".to_string()), None, Some("b".to_string()), None]),
        vec!["a", "b"]
    );
    assert_eq!(participating_groups(vec![None]), Vec::<String>::new());
    assert_eq!(participating_groups(vec![]), Vec::<String>::new());
}

#[test]
fn test_get_routes() {
    let routers = vec![
        router("example1", "Host(`example1.com`)"),
        router("example2", "Host(`example2.org`)"),
        router("example3", "Host(`example3.net`, `example4.net`)"),
        router("path", "Path(`/foo`)"),
    ];
    assert_eq!(
        routes_from(&routers),
        vec![
            Route { id: "example1".to_owned(), host: "example1.com".to_owned() },
            Route { id: "example2".to_owned(), host: "example2.org".to_owned() },
            Route { id: "example3".to_owned(), host: "example3.net".to_owned() },
            Route { id: "example3".to_owned(), host: "example4.net".to_owned() },
        ]
    );
    assert_eq!(routes_from(&vec![]), Vec::<Route>::new());
}

#[test]
fn router_resolves_the_listing_against_its_base() {
    let router = TraefikRouter::new("http://localhost:8080/").unwrap();
    assert_eq!(router.base_url().as_str(), "http://localhost:8080/");
    assert_eq!(router.routers_url().unwrap().as_str(), "http://localhost:8080/api/http/routers");

    let router = TraefikRouter::new("https://proxy.example.com/traefik/").unwrap();
    assert_eq!(
        router.routers_url().unwrap().as_str(),
        "https://proxy.example.com/traefik/api/http/routers"
    );
}

#[test]
fn router_refuses_what_is_no_url() {
    assert!(matches!(
        TraefikRouter::new("localhost"),
        Err(TraefikError::UrlParseError(url::ParseError::RelativeUrlWithoutBase))
    ));
    assert!(matches!(
        TraefikRouter::new("http://"),
        Err(TraefikError::UrlParseError(url::ParseError::EmptyHost))
    ));
}

#[test]
fn router_refuses_a_url_without_a_host() {
    assert!(matches!(TraefikRouter::new("file:///srv/traefik"), Err(TraefikError::NoHost)));
    assert!(matches!(TraefikRouter::new("unix:/run/traefik.socket"), Err(TraefikError::NoHost)));
    assert!(matches!(TraefikRouter::new("data:text/plain,Stuff"), Err(TraefikError::NoHost)));
    assert!(matches!(TraefikRouter::new("mailto:me@example.com"), Err(TraefikError::NoHost)));
}

#[test]
fn base_must_name_a_host_and_be_able_to_be_a_base() {
    assert!(matches!(check_base(true, false), Ok(())));
    assert!(matches!(check_base(true, true), Err(TraefikError::BadBaseUrl)));
    assert!(matches!(check_base(false, false), Err(TraefikError::NoHost)));
    assert!(matches!(check_base(false, true), Err(TraefikError::NoHost)));
}
