use newswatch::dedup::DedupLedger;

#[test]
fn first_mark_is_true_second_is_false() {
    let mut l = DedupLedger::new();
    assert!(l.mark_and_check("main", "https://example.test/1"));
    assert!(!l.mark_and_check("main", "https://example.test/1"));
    assert!(!l.mark_and_check("main", "https://example.test/1"));
}

#[test]
fn pairs_are_distinguished_by_source_and_url() {
    let mut l = DedupLedger::new();
    assert!(l.mark_and_check("main", "u1"));
    assert!(l.mark_and_check("forum", "u1"));
    assert!(l.mark_and_check("main", "u2"));
    assert!(!l.mark_and_check("main", "u1"));
    assert!(!l.mark_and_check("forum", "u1"));
}

#[test]
fn latest_answers_most_recent_mark() {
    let mut l = DedupLedger::new();
    assert_eq!(l.latest("main"), None);
    l.mark_and_check("main", "u1");
    l.mark_and_check("forum", "f1");
    l.mark_and_check("main", "u2");
    assert_eq!(l.latest("main").as_deref(), Some("u2"));
    assert_eq!(l.latest("forum").as_deref(), Some("f1"));
    assert_eq!(l.latest("changelog"), None);
}
