use traefik_dns::hosts::{contains_host, distinct_hosts, hosts_excluding};
use traefik_dns::router::{hosts_of, Route};

fn names(hosts: &[&str]) -> Vec<String> {
    hosts.iter().map(|h| h.to_string()).collect()
}

#[test]
fn contains_host_finds_what_is_there() {
    let list = names(&["a.example.com", "b.example.com"]);
    assert!(contains_host(&list, &"a.example.com".to_string()));
    assert!(contains_host(&list, &"b.example.com".to_string()));
    assert!(!contains_host(&list, &"c.example.com".to_string()));
    assert!(!contains_host(&list, &"a.example.co".to_string()));
    assert!(!contains_host(&vec![], &"a.example.com".to_string()));
}

#[test]
fn distinct_hosts_keeps_first_occurrences_in_order() {
    assert_eq!(distinct_hosts(&names(&["b", "a", "b", "c", "a", "a"])), names(&["b", "a", "c"]));
    assert_eq!(distinct_hosts(&names(&["a", "b"])), names(&["a", "b"]));
    assert_eq!(distinct_hosts(&names(&["a", "a"])), names(&["a"]));
    assert_eq!(distinct_hosts(&vec![]), Vec::<String>::new());
}

#[test]
fn hosts_excluding_is_the_difference_in_order() {
    assert_eq!(hosts_excluding(&names(&["a", "b", "c", "d"]), &names(&["d", "b"])), names(&["a", "c"]));
    assert_eq!(hosts_excluding(&names(&["a", "b"]), &vec![]), names(&["a", "b"]));
    assert_eq!(hosts_excluding(&names(&["a", "b"]), &names(&["b", "a", "z"])), Vec::<String>::new());
    assert_eq!(hosts_excluding(&names(&["a", "b", "a"]), &names(&["b"])), names(&["a", "a"]));
    assert_eq!(hosts_excluding(&vec![], &names(&["a"])), Vec::<String>::new());
}

#[test]
fn hosts_of_takes_each_route_in_turn() {
    let routes = vec![
        Route { id: "r1".to_string(), host: "a".to_string() },
        Route { id: "r2".to_string(), host: "b".to_string() },
        Route { id: "r3".to_string(), host: "a".to_string() },
    ];
    assert_eq!(hosts_of(&routes), names(&["a", "b", "a"]));
    assert_eq!(hosts_of(&vec![]), Vec::<String>::new());
}
