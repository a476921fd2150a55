use bonelab_mod_manager::catalog::{RemoteEntry, RemoteFile};
use bonelab_mod_manager::install::{make_manifest, GAME_MODS_DIR};
use bonelab_mod_manager::json::Json;
use bonelab_mod_manager::manifest::{decode, encode, from_text, to_text, Manifest, ManifestError};

fn entry() -> RemoteEntry {
    RemoteEntry {
        mod_id: 42,
        game_id: 3809,
        name: "Cool Mod".to_string(),
        author: "someone".to_string(),
        description: Some("a mod".to_string()),
        thumbnail_url: "https://example.com/t.png".to_string(),
        updated_secs: 2,
        file: Some(file()),
    }
}

fn file() -> RemoteFile {
    RemoteFile { id: 7, version: Some("1.2".to_string()), platforms: vec!["windows".to_string()] }
}

fn sample() -> Manifest {
    make_manifest(&entry(), &file(), "Someone.CoolMod", "pallet.json", "catalog.json", 500, 2000)
}

fn member<'a>(j: &'a Json, key: &str) -> &'a Json {
    match j {
        Json::Obj(fields) => &fields.iter().find(|(k, _)| k == key).expect("member").1,
        _ => panic!("not an object"),
    }
}

fn keys(j: &Json) -> Vec<String> {
    match j {
        Json::Obj(fields) => fields.iter().map(|(k, _)| k.clone()).collect(),
        _ => panic!("not an object"),
    }
}

fn remove_member(j: &mut Json, key: &str) {
    if let Json::Obj(fields) = j {
        fields.retain(|(k, _)| k != key);
    }
}

#[test]
fn decode_of_encode_keeps_every_field() {
    let m = sample();
    let back = decode(&encode(&m)).expect("decodes");
    assert_eq!(back.version, 2);
    assert_eq!(back.root.reference, "1");
    assert_eq!(back.root.type_, "pallet-manifest#0");
    let p = &back.objects.pallet;
    assert_eq!(p.pallet_barcode, "Someone.CoolMod");
    assert_eq!(p.pallet_path, m.objects.pallet.pallet_path);
    assert_eq!(p.catalog_path, m.objects.pallet.catalog_path);
    assert_eq!(p.version.as_deref(), Some("1.2"));
    assert_eq!(p.installed_date, "500");
    assert_eq!(p.update_date, "2000");
    assert_eq!(p.mod_listing.as_ref().unwrap().reference, "2");
    assert!(p.active);
    let l = back.objects.mod_listing.as_ref().unwrap();
    assert_eq!(l.title.as_deref(), Some("Cool Mod"));
    assert_eq!(l.description.as_deref(), Some("a mod"));
    assert_eq!(l.author.as_deref(), Some("someone"));
    assert_eq!(l.thumbnail_url.as_deref(), Some("https://example.com/t.png"));
    assert_eq!(l.targets.len(), 1);
    assert_eq!(l.targets[0].0, "pc");
    assert_eq!(l.targets[0].1.reference, "3");
    let t = back.objects.mod_target.as_ref().unwrap();
    assert_eq!((t.game_id, t.mod_id, t.modfile_id), (3809, 42, 7));
    assert_eq!(t.thumbnail_override, None);
}

#[test]
fn encode_of_decode_is_stable() {
    let once = encode(&sample());
    let twice = encode(&decode(&once).expect("decodes"));
    assert_eq!(format!("{:?}", once), format!("{:?}", twice));
}

#[test]
fn encoding_uses_the_fixed_object_keys() {
    let j = encode(&sample());
    assert_eq!(keys(&j), vec!["version", "root", "objects"]);
    assert_eq!(keys(member(&j, "objects")), vec!["1", "2", "3"]);
    match member(member(&j, "root"), "ref") {
        Json::Str(s) => assert_eq!(s, "1"),
        other => panic!("{:?}", other),
    }
}

#[test]
fn missing_pallet_is_malformed() {
    let mut j = encode(&sample());
    if let Json::Obj(fields) = &mut j {
        for (k, v) in fields.iter_mut() {
            if k == "objects" {
                remove_member(v, "1");
            }
        }
    }
    assert_eq!(decode(&j).err(), Some(ManifestError::Malformed));
}

#[test]
fn missing_root_is_malformed() {
    let mut j = encode(&sample());
    remove_member(&mut j, "root");
    assert_eq!(decode(&j).err(), Some(ManifestError::Malformed));
}

#[test]
fn wrongly_typed_member_is_malformed() {
    let mut j = encode(&sample());
    if let Json::Obj(fields) = &mut j {
        fields[0].1 = Json::Str("2".to_string());
    }
    assert_eq!(decode(&j).err(), Some(ManifestError::Malformed));
}

#[test]
fn listing_and_target_are_optional() {
    let mut m = sample();
    m.objects.mod_listing = None;
    m.objects.mod_target = None;
    let mut j = encode(&m);
    if let Json::Obj(fields) = &mut j {
        for (k, v) in fields.iter_mut() {
            if k == "objects" {
                remove_member(v, "3");
            }
        }
    }
    let back = decode(&j).expect("decodes");
    assert!(back.objects.mod_listing.is_none());
    assert!(back.objects.mod_target.is_none());
}

#[test]
fn unknown_members_are_ignored() {
    let mut j = encode(&sample());
    if let Json::Obj(fields) = &mut j {
        fields.push(("extra".to_string(), Json::Arr(vec![Json::Null, Json::Bool(true)])));
    }
    let back = decode(&j).expect("decodes");
    assert_eq!(back.objects.pallet.pallet_barcode, "Someone.CoolMod");
}

#[test]
fn manifest_paths_point_into_the_game_directory() {
    let m = sample();
    assert_eq!(
        m.objects.pallet.pallet_path,
        format!("{}Someone.CoolMod/pallet.json", GAME_MODS_DIR)
    );
    assert_eq!(
        m.objects.pallet.catalog_path,
        format!("{}Someone.CoolMod/catalog.json", GAME_MODS_DIR)
    );
}

#[test]
fn manifest_text_round_trip() {
    let m = sample();
    let text = to_text(&m);
    assert!(text.contains("\"palletBarcode\": \"Someone.CoolMod\""));
    assert!(text.contains("\"gameId\": 3809"));
    assert!(text.contains("\"2\": {"));
    let back = from_text(&text).expect("reads");
    assert_eq!(back.objects.mod_target.as_ref().unwrap().mod_id, 42);
    assert_eq!(to_text(&back), text);
}

#[test]
fn text_that_is_not_json_is_malformed() {
    assert_eq!(from_text("{\"version\": ").err(), Some(ManifestError::Malformed));
    assert_eq!(from_text("[]").err(), Some(ManifestError::Malformed));
}

#[test]
fn absent_sub_objects_are_written_as_null() {
    let mut m = sample();
    m.objects.mod_listing = None;
    let text = to_text(&m);
    assert!(text.contains("\"2\": null"));
}
