use bonelab_mod_manager::catalog::{RemoteEntry, RemoteFile};
use bonelab_mod_manager::install::{
    latest_platform_file, locate_descriptors, Action, Event, Install, InstallError, Outcome, Stage,
};
use bonelab_mod_manager::inventory::InstalledItem;
use bonelab_mod_manager::ledger::SubscriptionLedger;
use bonelab_mod_manager::reconcile::reconcile;

fn file(id: u64, platform: &str) -> RemoteFile {
    RemoteFile { id, version: Some(format!("v{}", id)), platforms: vec![platform.to_string()] }
}

fn entry(mod_id: u64, updated_secs: i64, f: Option<RemoteFile>) -> RemoteEntry {
    RemoteEntry {
        mod_id,
        game_id: 3809,
        name: "Cool Mod".to_string(),
        author: "someone".to_string(),
        description: None,
        thumbnail_url: "https://example.com/t.png".to_string(),
        updated_secs,
        file: f,
    }
}

fn names(list: &[&str]) -> Event {
    Event::Listed(list.iter().map(|s| s.to_string()).collect())
}

fn kind(a: &Action) -> &'static str {
    match a {
        Action::Download { .. } => "download",
        Action::Extract { .. } => "extract",
        Action::ListStaging { .. } => "list-staging",
        Action::ListPackage { .. } => "list-package",
        Action::WriteManifest { .. } => "write-manifest",
        Action::Publish { .. } => "publish",
        Action::RemoveStaging { .. } => "remove-staging",
        Action::Finish(_) => "finish",
    }
}

/// Drives an install through `events`, recording the kind of every action.
fn drive(install: &mut Install, events: Vec<Event>) -> Vec<&'static str> {
    let mut seen = vec![kind(&install.current_action())];
    for e in events {
        install.step(e);
        seen.push(kind(&install.current_action()));
    }
    seen
}

fn fresh() -> Install {
    Install::fresh(
        entry(42, 2, Some(file(7, "windows"))),
        5000,
        "/mods".to_string(),
        "/cache".to_string(),
    )
    .expect("has a file")
}

#[test]
fn successful_install_runs_every_stage_in_order() {
    let mut install = fresh();
    match install.current_action() {
        Action::Download { mod_id, file_id, archive } => {
            assert_eq!((mod_id, file_id), (42, 7));
            assert_eq!(archive, "/cache/Cool Mod.zip");
        }
        other => panic!("{:?}", other),
    }
    install.step(Event::Succeeded);
    match install.current_action() {
        Action::Extract { archive, staging } => {
            assert_eq!(archive, "/cache/Cool Mod.zip");
            assert_eq!(staging, "/mods/Cool Mod");
        }
        other => panic!("{:?}", other),
    }
    install.step(Event::Succeeded);
    install.step(names(&["Someone.CoolMod"]));
    match install.current_action() {
        Action::ListPackage { dir } => assert_eq!(dir, "/mods/Cool Mod/Someone.CoolMod"),
        other => panic!("{:?}", other),
    }
    install.step(names(&["catalog.json", "x.bundle", "Someone.CoolMod.pallet.json"]));
    match install.current_action() {
        Action::WriteManifest { path, manifest } => {
            assert_eq!(path, "/mods/Someone.CoolMod.manifest");
            assert_eq!(manifest.objects.pallet.pallet_barcode, "Someone.CoolMod");
            assert!(manifest.objects.pallet.pallet_path.ends_with("/Someone.CoolMod.pallet.json"));
            assert!(manifest.objects.pallet.catalog_path.ends_with("/catalog.json"));
            assert_eq!(manifest.objects.pallet.installed_date, "5000");
            assert_eq!(manifest.objects.pallet.update_date, "5000");
        }
        other => panic!("{:?}", other),
    }
    install.step(Event::Succeeded);
    match install.current_action() {
        Action::Publish { from, to } => {
            assert_eq!(from, "/mods/Cool Mod/Someone.CoolMod");
            assert_eq!(to, "/mods/Someone.CoolMod");
        }
        other => panic!("{:?}", other),
    }
    install.step(Event::Succeeded);
    match install.current_action() {
        Action::RemoveStaging { dir } => assert_eq!(dir, "/mods/Cool Mod"),
        other => panic!("{:?}", other),
    }
    install.step(Event::Failed);
    assert_eq!(install.stage, Stage::Done);
    match install.current_action() {
        Action::Finish(o) => assert_eq!(o, Outcome::Done),
        other => panic!("{:?}", other),
    }
}

#[test]
fn three_descriptors_fail_without_writing() {
    let mut install = fresh();
    let seen = drive(
        &mut install,
        vec![
            Event::Succeeded,
            Event::Succeeded,
            names(&["Someone.CoolMod"]),
            names(&["a.pallet.json", "b.json", "c.json"]),
        ],
    );
    assert_eq!(install.stage, Stage::Failed(InstallError::UnexpectedArchiveLayout));
    assert!(!seen.contains(&"write-manifest"));
    assert!(!seen.contains(&"publish"));
    match install.current_action() {
        Action::Finish(o) => assert_eq!(o, Outcome::Failed(InstallError::UnexpectedArchiveLayout)),
        other => panic!("{:?}", other),
    }
}

#[test]
fn extract_failure_leaves_the_mod_directory_alone() {
    let mut install = fresh();
    let seen = drive(&mut install, vec![Event::Succeeded, Event::Failed]);
    assert_eq!(install.stage, Stage::Failed(InstallError::ExtractFailed));
    assert_eq!(seen, vec!["download", "extract", "finish"]);
}

#[test]
fn download_failure_ends_the_install() {
    let mut install = fresh();
    let seen = drive(&mut install, vec![Event::Failed, Event::Succeeded]);
    assert_eq!(install.stage, Stage::Failed(InstallError::DownloadFailed));
    assert_eq!(seen, vec!["download", "finish", "finish"]);
}

#[test]
fn staging_with_two_entries_is_a_layout_error() {
    let mut install = fresh();
    drive(&mut install, vec![Event::Succeeded, Event::Succeeded, names(&["a", "b"])]);
    assert_eq!(install.stage, Stage::Failed(InstallError::UnexpectedArchiveLayout));
}

#[test]
fn failed_manifest_write_and_publish() {
    let mut install = fresh();
    let ok = vec![
        Event::Succeeded,
        Event::Succeeded,
        names(&["P"]),
        names(&["p.pallet.json", "c.json"]),
    ];
    drive(&mut install, ok);
    install.step(Event::Failed);
    assert_eq!(install.stage, Stage::Failed(InstallError::ManifestWriteFailed));
    let mut install = fresh();
    drive(
        &mut install,
        vec![
            Event::Succeeded,
            Event::Succeeded,
            names(&["P"]),
            names(&["p.pallet.json", "c.json"]),
            Event::Succeeded,
            Event::Failed,
        ],
    );
    assert_eq!(install.stage, Stage::Failed(InstallError::PublishFailed));
}

#[test]
fn descriptors_are_put_in_order() {
    let listed: Vec<String> = vec!["c.json".into(), "readme".into(), "p.pallet.json".into()];
    assert_eq!(locate_descriptors(&listed), Some((2, 0)));
    let listed: Vec<String> = vec!["p.pallet.json".into(), "c.json".into()];
    assert_eq!(locate_descriptors(&listed), Some((0, 1)));
    let listed: Vec<String> = vec!["p.pallet.json".into()];
    assert_eq!(locate_descriptors(&listed), None);
}

#[test]
fn entry_without_file_is_skipped() {
    let r = Install::fresh(entry(77, 1, None), 0, "/m".to_string(), "/c".to_string());
    assert!(r.is_none());
}

#[test]
fn update_picks_the_newest_platform_file() {
    let files = vec![file(3, "windows"), file(9, "android"), file(5, "windows"), file(4, "windows")];
    assert_eq!(latest_platform_file(&files), Some(2));
    let install = Install::update(entry(1, 10, None), files, 123, "/m".to_string(), "/c".to_string())
        .expect("has a file");
    assert_eq!(install.file.id, 5);
    assert_eq!(install.installed_at, 123);
    assert_eq!(install.updated_at, 10_000);
    let none = Install::update(
        entry(1, 10, None),
        vec![file(9, "android")],
        0,
        "/m".to_string(),
        "/c".to_string(),
    );
    assert!(none.is_none());
}

#[test]
fn update_writes_the_remote_time_and_keeps_the_install_time() {
    let items = vec![InstalledItem {
        local_path: "/mods/ABC123.manifest".to_string(),
        barcode: "ABC123".to_string(),
        remote_mod_id: Some(42),
        remote_file_id: Some(1),
        installed_at: 500,
        updated_at: 1000,
    }];
    let remote = vec![entry(42, 2, Some(file(8, "windows")))];
    let plan = reconcile(&items, &SubscriptionLedger::new(), &remote);
    assert_eq!(plan.to_update.len(), 1);
    let u = plan.to_update[0];
    let item = &items[u.item];
    let mut install = Install::update(
        entry(42, 2, Some(file(8, "windows"))),
        vec![file(8, "windows")],
        item.installed_at,
        "/mods".to_string(),
        "/cache".to_string(),
    )
    .expect("has a file");
    drive(
        &mut install,
        vec![Event::Succeeded, Event::Succeeded, names(&["ABC123"]), names(&["a.pallet.json", "b.json"])],
    );
    match install.current_action() {
        Action::WriteManifest { manifest, .. } => {
            assert_eq!(manifest.objects.pallet.update_date, "2000");
            assert_eq!(manifest.objects.pallet.installed_date, "500");
            assert_eq!(manifest.objects.mod_target.as_ref().unwrap().modfile_id, 8);
        }
        other => panic!("{:?}", other),
    }
}
