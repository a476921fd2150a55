use bonelab_mod_manager::catalog::{RemoteEntry, RemoteFile};
use bonelab_mod_manager::install::make_manifest;
use bonelab_mod_manager::inventory::{
    is_manifest_file_name, item_from_document, manifest_file_names, scan, InventoryError,
};
use bonelab_mod_manager::json::Json;
use bonelab_mod_manager::manifest::{encode, to_text, Manifest};

fn record(mod_id: u64, installed: u64, updated: u64) -> Manifest {
    let file = RemoteFile { id: 9, version: None, platforms: vec!["windows".to_string()] };
    let entry = RemoteEntry {
        mod_id,
        game_id: 3809,
        name: "M".to_string(),
        author: "a".to_string(),
        description: None,
        thumbnail_url: "u".to_string(),
        updated_secs: 0,
        file: None,
    };
    make_manifest(&entry, &file, "A.B", "p.pallet.json", "c.json", installed, updated)
}

fn pallet_member(doc: &mut Json, name: &str, value: Json) {
    if let Json::Obj(fields) = doc {
        for (k, v) in fields.iter_mut() {
            if k == "objects" {
                if let Json::Obj(objs) = v {
                    if let Json::Obj(pallet) = &mut objs[0].1 {
                        for (n, x) in pallet.iter_mut() {
                            if n == name {
                                *x = value;
                                return;
                            }
                        }
                    }
                }
            }
        }
    }
}

#[test]
fn manifest_names_exclude_the_vendor_namespace() {
    assert!(is_manifest_file_name("Someone.Mod.manifest"));
    assert!(!is_manifest_file_name("SLZ.BONELAB.Content.manifest"));
    assert!(!is_manifest_file_name("notes.txt"));
    let names = vec![
        "a.manifest".to_string(),
        "SLZ.x.manifest".to_string(),
        "b.txt".to_string(),
        "c.manifest".to_string(),
    ];
    assert_eq!(manifest_file_names(&names), vec!["a.manifest", "c.manifest"]);
}

#[test]
fn scan_reads_every_manifest_file() {
    let entries = vec![("/mods/A.B.manifest".to_string(), to_text(&record(42, 500, 1000)))];
    let items = scan(&entries).expect("scans");
    assert_eq!(items.len(), 1);
    let item = &items[0];
    assert_eq!(item.local_path, "/mods/A.B.manifest");
    assert_eq!(item.barcode, "A.B");
    assert_eq!(item.remote_mod_id, Some(42));
    assert_eq!(item.remote_file_id, Some(9));
    assert_eq!(item.installed_at, 500);
    assert_eq!(item.updated_at, 1000);
}

#[test]
fn items_without_remote_identity_are_kept() {
    let mut m = record(1, 5, 6);
    m.objects.mod_target = None;
    let item = item_from_document("/m/x.manifest", &encode(&m)).expect("an item");
    assert_eq!(item.remote_mod_id, None);
    assert_eq!(item.remote_file_id, None);
    let items = scan(&vec![("/m/x.manifest".to_string(), to_text(&m))]).expect("scans");
    assert_eq!(items[0].remote_mod_id, None);
}

#[test]
fn a_malformed_manifest_fails_the_scan() {
    let entries = vec![
        ("/m/a.manifest".to_string(), to_text(&record(1, 1, 1))),
        ("/m/b.manifest".to_string(), "{}".to_string()),
        ("/m/c.manifest".to_string(), "not json".to_string()),
    ];
    assert_eq!(scan(&entries).err(), Some(InventoryError::MalformedManifest(1)));
    let entries = vec![("/m/c.manifest".to_string(), "not json".to_string())];
    assert_eq!(scan(&entries).err(), Some(InventoryError::MalformedManifest(0)));
}

#[test]
fn an_unreadable_date_makes_no_item() {
    let mut doc = encode(&record(1, 1, 1));
    pallet_member(&mut doc, "updateDate", Json::Str("yesterday".to_string()));
    assert!(item_from_document("/m/a.manifest", &doc).is_none());
    let mut doc = encode(&record(1, 1, 1));
    pallet_member(&mut doc, "installedDate", Json::Str("18446744073709551616".to_string()));
    assert!(item_from_document("/m/a.manifest", &doc).is_none());
}

#[test]
fn hand_written_manifest_text_is_read() {
    let text = r#"{
      "version": 2,
      "root": {"ref": "1", "type": "pallet-manifest#0"},
      "objects": {
        "1": {
          "palletBarcode": "Me.Local", "palletPath": "p", "catalogPath": "c",
          "version": null, "installedDate": "10", "updateDate": "20",
          "active": true, "isa": {"type": "pallet-manifest#0"}
        }
      }
    }"#;
    let items = scan(&vec![("/m/Me.Local.manifest".to_string(), text.to_string())]).expect("scans");
    assert_eq!(items[0].barcode, "Me.Local");
    assert_eq!((items[0].installed_at, items[0].updated_at), (10, 20));
    assert_eq!(items[0].remote_mod_id, None);
}

#[test]
fn a_negative_or_fractional_identifier_is_malformed() {
    let text = to_text(&record(7, 1, 1)).replace("\"modId\": 7", "\"modId\": -7");
    assert!(text.contains("-7"));
    assert_eq!(
        scan(&vec![("/m/a.manifest".to_string(), text)]).err(),
        Some(InventoryError::MalformedManifest(0))
    );
    let text = to_text(&record(7, 1, 1)).replace("\"modId\": 7", "\"modId\": 7.5");
    assert!(text.contains("7.5"));
    assert_eq!(
        scan(&vec![("/m/a.manifest".to_string(), text)]).err(),
        Some(InventoryError::MalformedManifest(0))
    );
}
