use reqresp::correlation::Correlation;

#[test]
fn identifiers_start_at_one_and_go_up() {
    let mut layer: Correlation<u8> = Correlation::new();
    assert_eq!(layer.next_id(), Some(1));
    assert_eq!(layer.next_id(), Some(2));
    assert_eq!(layer.next_id(), Some(3));
}

#[test]
fn each_identifier_is_above_all_before_it() {
    let mut layer: Correlation<()> = Correlation::new();
    let mut seen: Vec<u64> = Vec::new();
    for _ in 0..200 {
        let id = layer.next_id().unwrap();
        assert!(seen.iter().all(|earlier| *earlier < id));
        seen.push(id);
    }
}

#[test]
fn resolving_does_not_bring_an_identifier_back() {
    let mut layer: Correlation<&str> = Correlation::new();
    let first = layer.next_id().unwrap();
    layer.register(first, "first");
    assert_eq!(layer.resolve(first), Some("first"));
    let second = layer.next_id().unwrap();
    assert!(second > first);
}

#[test]
fn registered_identifier_is_outstanding_until_resolved() {
    let mut layer: Correlation<&str> = Correlation::new();
    let id = layer.next_id().unwrap();
    assert!(!layer.is_outstanding(id));
    layer.register(id, "ping");
    assert!(layer.is_outstanding(id));
    assert_eq!(layer.resolve(id), Some("ping"));
    assert!(!layer.is_outstanding(id));
    assert_eq!(layer.resolve(id), None);
}

#[test]
fn unknown_identifier_resolves_to_nothing() {
    let mut layer: Correlation<&str> = Correlation::new();
    layer.register(4, "four");
    assert_eq!(layer.resolve(5), None);
    assert!(layer.is_outstanding(4));
}

#[test]
fn resolve_takes_the_oldest_registration_first() {
    let mut layer: Correlation<&str> = Correlation::new();
    layer.register(1, "a");
    layer.register(2, "b");
    layer.register(1, "c");
    assert_eq!(layer.resolve(1), Some("a"));
    assert_eq!(layer.resolve(1), Some("c"));
    assert_eq!(layer.resolve(1), None);
    assert_eq!(layer.resolve(2), Some("b"));
}

#[test]
fn layer_counts_what_it_handed_out_and_what_it_awaits() {
    let mut layer: Correlation<&str> = Correlation::new();
    assert_eq!(layer.count_issued(), 0);
    assert_eq!(layer.count_pending(), 0);
    let id = layer.next_id().unwrap();
    layer.register(id, "ping");
    assert_eq!(layer.count_issued(), 1);
    assert_eq!(layer.count_pending(), 1);
    layer.resolve(id);
    assert_eq!(layer.count_issued(), 1);
    assert_eq!(layer.count_pending(), 0);
}
