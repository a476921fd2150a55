use bonelab_mod_manager::catalog::{RemoteEntry, RemoteFile};
use bonelab_mod_manager::inventory::InstalledItem;
use bonelab_mod_manager::ledger::SubscriptionLedger;
use bonelab_mod_manager::reconcile::{reconcile, UpdateAction};

fn item(path: &str, mod_id: Option<u64>, updated_at: u64) -> InstalledItem {
    InstalledItem {
        local_path: path.to_string(),
        barcode: format!("B.{}", path),
        remote_mod_id: mod_id,
        remote_file_id: mod_id.map(|_| 1),
        installed_at: 100,
        updated_at,
    }
}

fn entry(mod_id: u64, updated_secs: i64, has_file: bool) -> RemoteEntry {
    RemoteEntry {
        mod_id,
        game_id: 3809,
        name: format!("mod {}", mod_id),
        author: "a".to_string(),
        description: None,
        thumbnail_url: "u".to_string(),
        updated_secs,
        file: if has_file {
            Some(RemoteFile { id: 5, version: None, platforms: vec!["windows".to_string()] })
        } else {
            None
        },
    }
}

#[test]
fn stale_item_is_updated() {
    let items = vec![item("ABC123.manifest", Some(42), 1000)];
    let remote = vec![entry(42, 2, true)];
    let mut ledger = SubscriptionLedger::new();
    ledger.mark_subscribed("ABC123.manifest");
    let plan = reconcile(&items, &ledger, &remote);
    assert_eq!(plan.to_update, vec![UpdateAction { item: 0, entry: 0 }]);
    assert!(plan.to_install.is_empty());
    assert!(plan.to_subscribe.is_empty());
}

#[test]
fn entry_without_file_is_not_installed() {
    let items: Vec<InstalledItem> = vec![];
    let remote = vec![entry(77, 5, false), entry(78, 5, true)];
    let plan = reconcile(&items, &SubscriptionLedger::new(), &remote);
    assert_eq!(plan.to_install, vec![1]);
    assert!(plan.to_update.is_empty());
}

#[test]
fn entry_without_file_is_not_updated() {
    let items = vec![item("a", Some(77), 0)];
    let remote = vec![entry(77, 5, false)];
    let plan = reconcile(&items, &SubscriptionLedger::new(), &remote);
    assert!(plan.to_update.is_empty());
    assert!(plan.to_install.is_empty());
}

#[test]
fn equal_times_are_up_to_date() {
    let items = vec![item("a", Some(1), 2000)];
    let remote = vec![entry(1, 2, true)];
    let plan = reconcile(&items, &SubscriptionLedger::new(), &remote);
    assert!(plan.to_update.is_empty());
}

#[test]
fn remote_seconds_are_compared_as_milliseconds() {
    let items = vec![item("a", Some(1), 1_999_999)];
    let remote = vec![entry(1, 2000, true)];
    let plan = reconcile(&items, &SubscriptionLedger::new(), &remote);
    assert_eq!(plan.to_update.len(), 1);
    let items = vec![item("a", Some(1), 2_000_000)];
    let plan = reconcile(&items, &SubscriptionLedger::new(), &remote);
    assert!(plan.to_update.is_empty());
}

#[test]
fn unconfirmed_catalog_items_are_subscribed() {
    let items = vec![item("a", Some(1), 0), item("local", None, 0), item("b", Some(2), 0)];
    let mut ledger = SubscriptionLedger::new();
    ledger.mark_subscribed("b");
    let plan = reconcile(&items, &ledger, &vec![]);
    assert_eq!(plan.to_subscribe, vec![0]);
}

#[test]
fn install_and_update_never_share_an_identifier() {
    let items = vec![item("a", Some(1), 0), item("b", Some(2), 99_999_999), item("c", None, 0)];
    let remote = vec![entry(1, 10, true), entry(2, 10, true), entry(3, 10, true), entry(4, 10, false)];
    let mut ledger = SubscriptionLedger::new();
    ledger.mark_subscribed("a");
    let plan = reconcile(&items, &ledger, &remote);
    assert_eq!(plan.to_install, vec![2]);
    assert_eq!(plan.to_update, vec![UpdateAction { item: 0, entry: 0 }]);
    assert_eq!(plan.to_subscribe, vec![1]);
    for j in &plan.to_install {
        for u in &plan.to_update {
            assert_ne!(remote[*j].mod_id, remote[u.entry].mod_id);
        }
        for i in &plan.to_subscribe {
            assert_ne!(items[*i].remote_mod_id, Some(remote[*j].mod_id));
        }
    }
}

#[test]
fn reconciling_twice_gives_the_same_plan() {
    let items = vec![item("a", Some(1), 0), item("b", Some(2), 0)];
    let remote = vec![entry(2, 10, true), entry(3, 10, true)];
    let ledger = SubscriptionLedger::from_text("b\n");
    let first = reconcile(&items, &ledger, &remote);
    let second = reconcile(&items, &ledger, &remote);
    assert_eq!(first.to_subscribe, second.to_subscribe);
    assert_eq!(first.to_install, second.to_install);
    assert_eq!(first.to_update, second.to_update);
}
