use traefik_dns::dns::cloudflare::{
    record_names, request_limiter, CloudflareError, CloudflareProvider, CreateRequest,
    DeleteRequest, DnsRecord, ListRequest,
};

fn record(id: &str, name: &str) -> DnsRecord {
    DnsRecord { id: id.to_string(), name: name.to_string() }
}

#[test]
fn cloudflare_defaults() {
    let provider = CloudflareProvider::new("zone".to_string(), "dest".to_string());
    assert_eq!(provider.ttl(), &300);
    assert_eq!(provider.proxied(), &false);
    assert_eq!(provider.destination(), "dest");
    assert_eq!(provider.zone_id(), "zone");
}

#[test]
fn cloudflare_ttl_and_proxied_can_be_set() {
    let mut provider = CloudflareProvider::new("zone".to_string(), "dest".to_string());
    *provider.ttl_mut() = 600;
    assert_eq!(provider.ttl(), &600);
    assert_eq!(provider.proxied(), &false);
    *provider.proxied_mut() = true;
    assert_eq!(provider.proxied(), &true);
    assert_eq!(provider.ttl(), &600);
    assert_eq!(provider.destination(), "dest");
}

#[test]
fn cloudflare_destination_can_be_set() {
    let mut provider = CloudflareProvider::new("zone".to_string(), "dest".to_string());
    *provider.destination_mut() = "newdest".to_string();
    assert_eq!(provider.destination(), "newdest");
    assert_eq!(provider.zone_id(), "zone");
    assert_eq!(provider.ttl(), &300);
}

#[test]
fn cloudflare_list_request_asks_for_the_destination() {
    let provider = CloudflareProvider::new("zone".to_string(), "dest".to_string());
    assert_eq!(
        provider.list_request(),
        ListRequest { zone_identifier: "zone".to_string(), content: "dest".to_string(), per_page: 5000 }
    );
}

#[test]
fn cloudflare_create_request_carries_the_settings() {
    let mut provider = CloudflareProvider::new("zone".to_string(), "dest".to_string());
    assert_eq!(
        provider.create_request("a.example.com"),
        CreateRequest {
            zone_identifier: "zone".to_string(),
            name: "a.example.com".to_string(),
            content: "dest".to_string(),
            ttl: 300,
            proxied: false,
        }
    );
    *provider.ttl_mut() = 60;
    *provider.proxied_mut() = true;
    assert_eq!(
        provider.create_request("b.example.com"),
        CreateRequest {
            zone_identifier: "zone".to_string(),
            name: "b.example.com".to_string(),
            content: "dest".to_string(),
            ttl: 60,
            proxied: true,
        }
    );
}

#[test]
fn cloudflare_delete_request_names_the_first_record_of_the_host() {
    let provider = CloudflareProvider::new("zone".to_string(), "dest".to_string());
    let records = vec![
        record("id1", "a.example.com"),
        record("id2", "b.example.com"),
        record("id3", "b.example.com"),
    ];
    assert_eq!(
        provider.delete_request(&records, "b.example.com"),
        Ok(DeleteRequest { zone_identifier: "zone".to_string(), identifier: "id2".to_string() })
    );
    assert_eq!(
        provider.delete_request(&records, "a.example.com"),
        Ok(DeleteRequest { zone_identifier: "zone".to_string(), identifier: "id1".to_string() })
    );
}

#[test]
fn cloudflare_delete_request_of_an_unlisted_host_is_not_found() {
    let provider = CloudflareProvider::new("zone".to_string(), "dest".to_string());
    let records = vec![record("id1", "a.example.com")];
    assert_eq!(
        provider.delete_request(&records, "missing.example.com"),
        Err(CloudflareError::RecordNotFound)
    );
    assert_eq!(provider.delete_request(&vec![], "a.example.com"), Err(CloudflareError::RecordNotFound));
}

#[test]
fn cloudflare_record_names_are_the_listed_hosts() {
    let records = vec![record("id1", "a.example.com"), record("id2", "b.example.com")];
    assert_eq!(record_names(&records), vec!["a.example.com".to_string(), "b.example.com".to_string()]);
    assert_eq!(record_names(&vec![]), Vec::<String>::new());
}

#[test]
fn cloudflare_limiter_allows_1200_requests_in_five_minutes() {
    let mut limiter = request_limiter();
    assert_eq!(limiter.capacity(), 1200);
    assert_eq!(limiter.period(), 5 * 60 * 1_000_000_000);
    assert_eq!(limiter.used(), 0);
    for _ in 0..1200 {
        assert!(limiter.try_ready());
    }
    assert!(!limiter.try_ready());
}
