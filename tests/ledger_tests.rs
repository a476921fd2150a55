use bonelab_mod_manager::ledger::SubscriptionLedger;

#[test]
fn marked_path_is_subscribed() {
    let mut ledger = SubscriptionLedger::new();
    assert!(!ledger.is_subscribed("/mods/a.manifest"));
    ledger.mark_subscribed("/mods/a.manifest");
    assert!(ledger.is_subscribed("/mods/a.manifest"));
    assert!(!ledger.is_subscribed("/mods/b.manifest"));
}

#[test]
fn marking_twice_keeps_one_entry() {
    let mut ledger = SubscriptionLedger::new();
    ledger.mark_subscribed("/mods/a.manifest");
    ledger.mark_subscribed("/mods/a.manifest");
    assert_eq!(ledger.len(), 1);
    assert_eq!(ledger.to_text(), "/mods/a.manifest\n");
}

#[test]
fn missing_ledger_is_empty() {
    let ledger = SubscriptionLedger::new();
    assert_eq!(ledger.len(), 0);
    assert_eq!(ledger.to_text(), "");
}

#[test]
fn ledger_file_is_read_line_by_line() {
    let ledger = SubscriptionLedger::from_text("/a\n\n/b\n/a\n/c");
    assert_eq!(ledger.len(), 3);
    assert!(ledger.is_subscribed("/a"));
    assert!(ledger.is_subscribed("/b"));
    assert!(ledger.is_subscribed("/c"));
    assert!(!ledger.is_subscribed(""));
    assert_eq!(ledger.to_text(), "/a\n/b\n/c\n");
}

#[test]
fn ledger_text_round_trip() {
    let mut ledger = SubscriptionLedger::new();
    ledger.mark_subscribed("/mods/x y.manifest");
    ledger.mark_subscribed("/mods/é.manifest");
    let again = SubscriptionLedger::from_text(&ledger.to_text());
    assert_eq!(again.to_text(), ledger.to_text());
    assert_eq!(again.len(), 2);
}
