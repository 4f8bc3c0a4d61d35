use traefik_dns::dns::route53::{
    closes_with_dot, set_is_record_of, set_points_at, strip_closing_dot, Change, ChangeAction,
    ChangeBatch, RecordSet, RecordType, Route53Error, Route53Provider,
};

fn record_set(name: &str, record_type: RecordType, ttl: i64, value: &str) -> RecordSet {
    RecordSet {
        name: Some(name.to_string()),
        record_type,
        values: vec![value.to_string()],
        ttl: Some(ttl),
    }
}

fn batch(action: ChangeAction, name: &str, value: &str, ttl: i64) -> ChangeBatch {
    ChangeBatch {
        changes: vec![Change {
            action,
            name: name.to_string(),
            record_type: RecordType::Cname,
            value: value.to_string(),
            ttl,
        }],
    }
}

#[test]
fn test_ttl() {
    let mut provider = Route53Provider::new("".to_string(), "".to_string());

    assert_eq!(provider.ttl(), &300);

    *provider.ttl_mut() = 600;

    assert_eq!(provider.ttl(), &600);
}

#[test]
fn test_destination() {
    let mut provider = Route53Provider::new("".to_string(), "dest".to_string());

    assert_eq!(provider.destination(), "dest");

    *provider.destination_mut() = "newdest".to_string();

    assert_eq!(provider.destination(), "newdest");
}

#[test]
fn test_list_records() {
    let provider = Route53Provider::new("hosted_zone_id".to_string(), "dest".to_string());
    let sets = vec![
        record_set("test1.example.com.", RecordType::Cname, 300, "dest"),
        record_set("test2.example.com.", RecordType::Cname, 300, "dest"),
        record_set("wrong-type.example.com.", RecordType::Other, 300, "dest"),
        record_set("wrong-dest.example.com.", RecordType::Cname, 300, "wrong.dest.com"),
    ];

    let records = provider.list_records(&sets);

    assert_eq!(records, vec!["test1.example.com", "test2.example.com"]);
    assert_eq!(provider.hosted_zone_id(), "hosted_zone_id");
}

#[test]
fn route53_list_records_reads_every_value_and_skips_nameless_sets() {
    let provider = Route53Provider::new("zone".to_string(), "dest".to_string());
    let sets = vec![
        RecordSet {
            name: Some("many.example.com.".to_string()),
            record_type: RecordType::Cname,
            values: vec!["other".to_string(), "dest".to_string()],
            ttl: None,
        },
        RecordSet {
            name: None,
            record_type: RecordType::Cname,
            values: vec!["dest".to_string()],
            ttl: Some(300),
        },
        RecordSet {
            name: Some("none.example.com.".to_string()),
            record_type: RecordType::Cname,
            values: vec![],
            ttl: Some(300),
        },
        record_set("nodot.example.com", RecordType::Cname, 300, "dest"),
        record_set("dots.example.com..", RecordType::Cname, 300, "dest"),
    ];
    assert_eq!(
        provider.list_records(&sets),
        vec!["many.example.com", "nodot.example.com", "dots.example.com."]
    );
    assert_eq!(provider.list_records(&vec![]), Vec::<String>::new());
}

#[test]
fn test_create_record() {
    let provider = Route53Provider::new("hosted_zone_id".to_string(), "dest".to_string());

    assert_eq!(
        provider.create_record("test.example.com"),
        batch(ChangeAction::Upsert, "test.example.com", "dest", 300)
    );
}

#[test]
fn test_delete_record() {
    let provider = Route53Provider::new("hosted_zone_id".to_string(), "dest".to_string());
    let sets = vec![record_set("test.example.com.", RecordType::Cname, 300, "dest")];

    assert_eq!(
        provider.delete_record(&sets, "test.example.com"),
        Ok(batch(ChangeAction::Delete, "test.example.com", "dest", 300))
    );
}

#[test]
fn route53_create_record_upserts_with_the_providers_ttl() {
    let mut provider = Route53Provider::new("hosted_zone_id".to_string(), "dest".to_string());
    *provider.ttl_mut() = 60;
    assert_eq!(
        provider.create_record("test.example.com"),
        batch(ChangeAction::Upsert, "test.example.com", "dest", 60)
    );
}

#[test]
fn route53_change_batch_prefers_the_given_ttl() {
    let provider = Route53Provider::new("hosted_zone_id".to_string(), "dest".to_string());
    assert_eq!(
        provider.change_batch(ChangeAction::Delete, "a.example.com", Some(17)),
        batch(ChangeAction::Delete, "a.example.com", "dest", 17)
    );
    assert_eq!(
        provider.change_batch(ChangeAction::Upsert, "a.example.com", None),
        batch(ChangeAction::Upsert, "a.example.com", "dest", 300)
    );
}

#[test]
fn route53_delete_record_deletes_with_the_listed_ttl() {
    let provider = Route53Provider::new("hosted_zone_id".to_string(), "dest".to_string());
    let sets = vec![
        record_set("other.example.com.", RecordType::Cname, 100, "dest"),
        record_set("test.example.com.", RecordType::Other, 200, "dest"),
        record_set("test.example.com.", RecordType::Cname, 900, "elsewhere"),
        record_set("test.example.com.", RecordType::Cname, 1000, "dest"),
    ];
    assert_eq!(
        provider.delete_record(&sets, "test.example.com"),
        Ok(batch(ChangeAction::Delete, "test.example.com", "dest", 900))
    );
}

#[test]
fn route53_delete_record_falls_back_on_the_providers_ttl() {
    let provider = Route53Provider::new("hosted_zone_id".to_string(), "dest".to_string());
    let sets = vec![RecordSet {
        name: Some("test.example.com.".to_string()),
        record_type: RecordType::Cname,
        values: vec!["dest".to_string()],
        ttl: None,
    }];
    assert_eq!(
        provider.delete_record(&sets, "test.example.com"),
        Ok(batch(ChangeAction::Delete, "test.example.com", "dest", 300))
    );
}

#[test]
fn test_delete_record_missing() {
    let provider = Route53Provider::new("hosted_zone_id".to_string(), "dest".to_string());
    let sets = vec![record_set("test.example.com.", RecordType::Cname, 300, "dest")];

    let err = provider.delete_record(&sets, "missing.example.com").unwrap_err();

    assert!(matches!(err, Route53Error::MissingRecord));
}

#[test]
fn route53_delete_record_wants_the_closing_dot_and_a_cname() {
    let provider = Route53Provider::new("hosted_zone_id".to_string(), "dest".to_string());
    let sets = vec![
        record_set("test.example.com", RecordType::Cname, 300, "dest"),
        record_set("test.example.com.", RecordType::Other, 300, "dest"),
        RecordSet { name: None, record_type: RecordType::Cname, values: vec![], ttl: None },
    ];
    assert_eq!(provider.delete_record(&sets, "test.example.com"), Err(Route53Error::MissingRecord));
    assert_eq!(provider.delete_record(&sets, "test.example.co"), Err(Route53Error::MissingRecord));
    assert_eq!(provider.delete_record(&vec![], "test.example.com"), Err(Route53Error::MissingRecord));
}

#[test]
fn closing_dot_is_told_and_stripped() {
    assert!(closes_with_dot("example.com."));
    assert!(closes_with_dot("."));
    assert!(!closes_with_dot("example.com"));
    assert!(!closes_with_dot(""));
    assert!(!closes_with_dot(".com"));
    assert_eq!(strip_closing_dot("example.com."), "example.com");
    assert_eq!(strip_closing_dot("example.com.."), "example.com.");
    assert_eq!(strip_closing_dot("example.com"), "example.com");
    assert_eq!(strip_closing_dot("."), "");
    assert_eq!(strip_closing_dot(""), "");
    assert_eq!(strip_closing_dot("bücher.example."), "bücher.example");
}

#[test]
fn record_sets_are_told_apart() {
    let set = record_set("a.example.com.", RecordType::Cname, 300, "dest");
    assert!(set_points_at(&set, &"dest".to_string()));
    assert!(!set_points_at(&set, &"des".to_string()));
    assert!(set_is_record_of(&set, &"a.example.com".to_string()));
    assert!(!set_is_record_of(&set, &"a.example.com.".to_string()));
    let other = record_set("a.example.com.", RecordType::Other, 300, "dest");
    assert!(!set_points_at(&other, &"dest".to_string()));
    assert!(!set_is_record_of(&other, &"a.example.com".to_string()));
}
